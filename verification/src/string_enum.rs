//! Enums whose members have a lower-case string representation.

use vstd::prelude::*;

verus! {

/// Conversion to lower-case strings.
pub trait ToLcString {
    /// The lower-case name of the member.
    spec fn lc_name(&self) -> Seq<char>;

    fn to_lc_string(&self) -> (s: String)
        ensures
            s@ == self.lc_name(),
    ;
}

} // verus!
