//! Conversions into owned strings, shared by the builder-style interfaces
//! that accept either borrowed or owned text.

use vstd::prelude::*;

verus! {

/// Anything that can be turned into an owned `String` whose characters are
/// known at the specification level.
pub trait ToString {
    /// The characters the conversion yields.
    spec fn str_view(&self) -> Seq<char>;

    fn get_string(self) -> (s: String)
        ensures
            s@ == self.str_view(),
    ;
}

impl ToString for String {
    open spec fn str_view(&self) -> Seq<char> {
        self@
    }

    fn get_string(self) -> (s: String) {
        self
    }
}

impl<'a> ToString for &'a str {
    open spec fn str_view(&self) -> Seq<char> {
        self@
    }

    fn get_string(self) -> (s: String) {
        self.to_owned()
    }
}

} // verus!
