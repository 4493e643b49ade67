//! The time filter accepted by the listing endpoints.

use vstd::prelude::*;

verus! {

/// Time window for `top` and `controversial` listings.
#[allow(non_camel_case_types)]
#[derive(PartialEq, Eq, Structural, Clone, Copy, Debug)]
pub enum SortTime {
    hour,
    day,
    week,
    month,
    year,
    all,
}

impl SortTime {
    /// The exact string the provider expects for this filter.
    pub open spec fn spec_wire_string(self) -> Seq<char> {
        match self {
            SortTime::hour => "hour"@,
            SortTime::day => "day"@,
            SortTime::week => "week"@,
            SortTime::month => "month"@,
            SortTime::year => "year"@,
            SortTime::all => "all"@,
        }
    }

    /// Maps the filter to its wire string.
    pub fn wire_string(&self) -> (r: String)
        ensures
            r@ == self.spec_wire_string(),
    {
        match self {
            SortTime::hour => "hour".to_owned(),
            SortTime::day => "day".to_owned(),
            SortTime::week => "week".to_owned(),
            SortTime::month => "month".to_owned(),
            SortTime::year => "year".to_owned(),
            SortTime::all => "all".to_owned(),
        }
    }
}

} // verus!
