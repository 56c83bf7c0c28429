//! Record model: one page's envelope of listings and a single listing.
//!
//! Both are passive, immutable shapes created from one API response and
//! discarded once their counts are folded into the running totals.

use vstd::prelude::*;

verus! {

/// One marketplace item record within a page envelope.
///
/// `item_bytes` is an opaque binary-encoded blob transported as a string;
/// the library never looks inside it.
pub struct Auction {
    pub uuid: String,
    pub item_name: String,
    pub category: String,
    pub tier: String,
    pub starting_bid: u64,
    pub item_bytes: String,
    pub bin: bool,
}

/// One page's worth of listings plus pagination metadata.
///
/// `totalAuctions` is informational: it is the feed-wide count claimed by
/// the server, and is not required to equal `auctions.len()` for one page.
#[allow(non_snake_case)]
pub struct Auctions {
    pub totalPages: u32,
    pub page: i32,
    pub auctions: Vec<Auction>,
    pub totalAuctions: u32,
}

impl Auctions {
    /// True of the zeroed placeholder envelope: no listings and all
    /// counters zero.
    pub open spec fn is_empty_envelope(self) -> bool {
        &&& self.totalPages == 0
        &&& self.page == 0
        &&& self.auctions@.len() == 0
        &&& self.totalAuctions == 0
    }

    /// The zeroed placeholder envelope returned when a page request comes
    /// back with a non-success HTTP status.
    pub fn empty() -> (r: Auctions)
        ensures
            r.is_empty_envelope(),
    {
        Auctions { totalPages: 0, page: 0, auctions: Vec::new(), totalAuctions: 0 }
    }
}

} // verus!
