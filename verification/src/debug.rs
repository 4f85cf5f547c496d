//! A holder for one line of diagnostic text.

use vstd::prelude::*;

verus! {

/// A slot for one line of diagnostic text, overwritten on every update.
pub struct Debugger {
    data: String,
}

impl View for Debugger {
    type V = Seq<char>;

    closed spec fn view(&self) -> Seq<char> {
        self.data@
    }
}

impl Debugger {
    /// A debugger that holds no text yet.
    pub fn new() -> (d: Self)
        ensures
            d@ == Seq::<char>::empty(),
    {
        Debugger { data: String::new() }
    }

    /// Replaces the held text with `data`.
    pub fn update(&mut self, data: String)
        ensures
            final(self)@ == data@,
    {
        self.data = data;
    }

    /// A copy of the held text.
    pub fn get_data(&self) -> (data: String)
        ensures
            data@ == self@,
    {
        self.data.clone()
    }
}

} // verus!
