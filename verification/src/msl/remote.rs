//! Listing and searching Curiosity raw images.

use vstd::prelude::*;
use crate::msl::fetch::{make_msl_instrument_map, msl_instrument_groups};
use crate::remotequery::{listing_header, listing_titles, padded_row};
use crate::util::InstrumentMap;

pub use crate::msl::fetch::MslRemoteStats;

verus! {

/// Column widths of the Curiosity image listing.
pub open spec fn msl_listing_widths() -> Seq<usize> {
    seq![37usize, 15, 6, 20, 27, 6, 6, 7, 10]
}

/// The header line of the Curiosity image listing.
pub fn header_line() -> (r: String)
    ensures
        r@ == padded_row(listing_titles(), msl_listing_widths()),
{
    let widths: Vec<usize> = vec![37, 15, 6, 20, 27, 6, 6, 7, 10];
    assert(widths@ =~= msl_listing_widths());
    listing_header(&widths)
}

/// Groups of Curiosity remote instrument names.
pub fn make_instrument_map() -> (r: InstrumentMap)
    ensures
        r@ == msl_instrument_groups(),
{
    make_msl_instrument_map()
}

/// The text of an optional listing field; empty when the field is absent.
pub fn null_to_str(o: &Option<String>) -> (r: String)
    ensures
        r@ == match *o {
            Some(v) => v@,
            None => Seq::<char>::empty(),
        },
{
    match o {
        Some(v) => v.clone(),
        None => String::new(),
    }
}

} // verus!
