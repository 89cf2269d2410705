//! The functional level of a domain.

use crate::text::str_eq;
use vstd::prelude::*;
use vstd::string::*;

verus! {

/// The name of the functional level that `msDS-Behavior-Version` numbers.
pub open spec fn spec_forest_level(level: Seq<char>) -> Seq<char> {
    if level == "7"@ {
        "2016"@
    } else if level == "6"@ {
        "2012 R2"@
    } else if level == "5"@ {
        "2012"@
    } else if level == "4"@ {
        "2008 R2"@
    } else if level == "3"@ {
        "2008"@
    } else if level == "2"@ {
        "2003"@
    } else if level == "1"@ {
        "2003 Interim"@
    } else if level == "0"@ {
        "2000 Mixed/Native"@
    } else {
        "Unknown"@
    }
}

/// Names a functional level.
pub fn get_forest_level(level: String) -> (name: String)
    ensures
        name@ == spec_forest_level(level@),
{
    let l = level.as_str();
    let name = if str_eq(l, "7") {
        "2016"
    } else if str_eq(l, "6") {
        "2012 R2"
    } else if str_eq(l, "5") {
        "2012"
    } else if str_eq(l, "4") {
        "2008 R2"
    } else if str_eq(l, "3") {
        "2008"
    } else if str_eq(l, "2") {
        "2003"
    } else if str_eq(l, "1") {
        "2003 Interim"
    } else if str_eq(l, "0") {
        "2000 Mixed/Native"
    } else {
        "Unknown"
    };
    String::from_str(name)
}

} // verus!
