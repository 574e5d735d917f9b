//! An owned string paired with a byte index.

use vstd::prelude::*;
use vstd::string::StringExecFns;

verus! {

pub struct CjkString {
    s: String,
    idx: usize,
}

impl CjkString {
    /// The characters of the string.
    pub closed spec fn text(&self) -> Seq<char> {
        self.s@
    }

    /// The stored byte index.
    pub closed spec fn index(&self) -> int {
        self.idx as int
    }

    pub fn from(arg: &str) -> (r: CjkString)
        ensures
            r.text() == arg@,
            r.index() == 0,
    {
        CjkString { s: String::from_str(arg), idx: 0 }
    }

    /// The string's contents.
    pub fn get_buffer(&self) -> (r: String)
        ensures
            r@ == self.text(),
    {
        self.s.clone()
    }

    /// The stored byte index.
    pub fn get_byte_index(&self) -> (r: usize)
        ensures
            r == self.index(),
    {
        self.idx
    }
}

} // verus!
