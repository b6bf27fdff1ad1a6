use vstd::prelude::*;

verus! {

/// A span of a source text, from `begin` to `end`, as two offsets.
#[derive(Debug, Clone, Copy, PartialEq, Eq)]
pub struct Region {
    pub begin: u64,
    pub end: u64,
}

/// Makes the region that spans `begin` to `end`. Any two offsets are taken as
/// they are.
pub fn region_new(begin: u64, end: u64) -> (region: Region)
    ensures
        region.begin == begin,
        region.end == end,
{
    Region { begin, end }
}

/// The offset at which `region` begins.
pub fn region_get_begin(region: &Region) -> (begin: u64)
    ensures
        begin == region.begin,
{
    region.begin
}

/// The offset at which `region` ends.
pub fn region_get_end(region: &Region) -> (end: u64)
    ensures
        end == region.end,
{
    region.end
}

} // verus!
