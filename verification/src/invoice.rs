//! Invoices: list sort options.

use vstd::prelude::*;

verus! {

#[derive(Clone, Copy, Debug, PartialEq, Eq)]
pub enum InvoiceSortBy {
    CreatedAt,
    IssuedAt,
    DueDate,
}

#[derive(Clone, Copy, Debug, PartialEq, Eq)]
pub enum SortOrder {
    Asc,
    Desc,
}

#[derive(Debug)]
pub enum InvoiceCommands {
    /// List invoices for an organization
    List {
        /// Organization ID (uses default if not specified)
        org: Option<String>,
        /// Max number of invoices to return (default 12)
        limit: Option<u16>,
        /// Pagination offset (default 0)
        offset: Option<u16>,
        /// Sort field (default due-date)
        sort_by: Option<InvoiceSortBy>,
        /// Sort order (default asc)
        sort_order: Option<SortOrder>,
        /// Output as JSON
        json: bool,
    },
}

impl InvoiceSortBy {
    /// The value the backend expects.
    pub open spec fn backend_value(self) -> Seq<char> {
        match self {
            InvoiceSortBy::CreatedAt => "created_at"@,
            InvoiceSortBy::IssuedAt => "issued_at"@,
            InvoiceSortBy::DueDate => "due_date"@,
        }
    }

    pub fn as_str(self) -> (r: &'static str)
        ensures
            r@ == self.backend_value(),
    {
        match self {
            InvoiceSortBy::CreatedAt => "created_at",
            InvoiceSortBy::IssuedAt => "issued_at",
            InvoiceSortBy::DueDate => "due_date",
        }
    }
}

impl SortOrder {
    /// The value the backend expects.
    pub open spec fn backend_value(self) -> Seq<char> {
        match self {
            SortOrder::Asc => "asc"@,
            SortOrder::Desc => "desc"@,
        }
    }

    pub fn as_str(self) -> (r: &'static str)
        ensures
            r@ == self.backend_value(),
    {
        match self {
            SortOrder::Asc => "asc",
            SortOrder::Desc => "desc",
        }
    }
}

} // verus!
