//! Referral links: share channels.

use vstd::prelude::*;

verus! {

/// Referral share channel (`domain/models/referral`).
#[derive(Clone, Copy, Debug, PartialEq, Eq)]
pub enum ReferralChannel {
    Copy,
    Line,
    Sns,
}

#[derive(Debug)]
pub enum ReferralCommands {
    /// Create a referral link for a share channel
    LinkCreate {
        /// Share channel
        channel: ReferralChannel,
        /// Output as JSON
        json: bool,
    },
    /// List your referral links, conversions, and reward summary
    List {
        /// Max number of items to return (default 20)
        limit: Option<u16>,
        /// Pagination offset (default 0)
        offset: Option<u16>,
        /// Output as JSON
        json: bool,
    },
    /// Record a referral conversion for a signup (the backend attributes it
    /// to the calling user; --referral-code is the only meaningful input)
    Convert {
        /// Referral code
        referral_code: String,
        /// Output as JSON
        json: bool,
    },
}

impl ReferralChannel {
    /// The value the backend expects.
    pub open spec fn backend_value(self) -> Seq<char> {
        match self {
            ReferralChannel::Copy => "copy"@,
            ReferralChannel::Line => "line"@,
            ReferralChannel::Sns => "sns"@,
        }
    }

    pub fn as_str(self) -> (r: &'static str)
        ensures
            r@ == self.backend_value(),
    {
        match self {
            ReferralChannel::Copy => "copy",
            ReferralChannel::Line => "line",
            ReferralChannel::Sns => "sns",
        }
    }
}

} // verus!
