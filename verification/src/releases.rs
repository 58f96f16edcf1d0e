use vstd::prelude::*;

verus! {

/// One tranche of the release schedule: `percent` (in hundredths of a
/// percent) of the purchased tokens, vested linearly from `from_timestamp`
/// to `to_timestamp`.
#[derive(Clone, Copy, Debug)]
pub struct ReleaseItem {
    pub percent: u16,
    pub from_timestamp: i64,
    pub to_timestamp: i64,
}

} // verus!
