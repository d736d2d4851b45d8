//! Dependency declaration: before execution, a block reports which named
//! variables it will read during activation (and which it introduces), so
//! the host can validate a graph's wiring without activating anything.

use vstd::prelude::*;

verus! {

/// One declared parameter of a block: its name and a help text for
/// diagnostics.
pub struct ParamInfo {
    pub name: String,
    pub help: String,
}

impl ParamInfo {
    pub fn new(name: &str, help: &str) -> (p: ParamInfo)
        ensures
            p.name@ == name@,
            p.help@ == help@,
    {
        ParamInfo { name: name.to_owned(), help: help.to_owned() }
    }
}

/// One declared dependency: a variable name, a help text for diagnostics,
/// and the type tag the block expects behind that name.
pub struct ExposedInfo {
    pub name: String,
    pub help: String,
    pub tag: u32,
}

impl ExposedInfo {
    pub fn new(name: &str, help: &str, tag: u32) -> (e: ExposedInfo)
        ensures
            e.name@ == name@,
            e.help@ == help@,
            e.tag == tag,
    {
        ExposedInfo { name: name.to_owned(), help: help.to_owned(), tag }
    }
}

} // verus!
