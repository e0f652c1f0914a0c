//! Plain value records shared by the wire-facing layers.

use vstd::prelude::*;

verus! {

/// A point in time: whole seconds since the Unix epoch plus a nanosecond part.
#[derive(Clone, Copy, Debug, PartialEq, Eq, Structural)]
pub struct TimestampDef {
    pub seconds: i64,
    pub nanos: i32,
}

/// The set of field paths a caller asked for, in the order given.
#[derive(Debug)]
pub struct FieldMaskDef {
    pub paths: Vec<String>,
}

impl FieldMaskDef {
    /// A mask from an optional list of paths: an absent list selects nothing.
    pub fn from_paths(paths: Option<Vec<String>>) -> (mask: FieldMaskDef)
        ensures
            paths is Some ==> mask.paths == paths->Some_0,
            paths is None ==> mask.paths@ == Seq::<String>::empty(),
    {
        match paths {
            Some(list) => FieldMaskDef { paths: list },
            None => FieldMaskDef { paths: Vec::new() },
        }
    }
}

} // verus!
