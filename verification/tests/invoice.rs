use addness::invoice::{InvoiceSortBy, SortOrder};

#[test]
fn invoice_sort_by_as_str_maps_to_backend_values() {
    assert_eq!(InvoiceSortBy::CreatedAt.as_str(), "created_at");
    assert_eq!(InvoiceSortBy::IssuedAt.as_str(), "issued_at");
    assert_eq!(InvoiceSortBy::DueDate.as_str(), "due_date");
}

#[test]
fn sort_order_as_str_maps_to_backend_values() {
    assert_eq!(SortOrder::Asc.as_str(), "asc");
    assert_eq!(SortOrder::Desc.as_str(), "desc");
}
