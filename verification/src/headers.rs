//! The header model: one entry per header in received order, with the name as
//! a string and the value as raw bytes (a value need not be valid text).

use vstd::prelude::*;

verus! {

/// One header of a request or response, in the library's own plain form.
pub struct HeaderEntry {
    pub name: String,
    pub value: Vec<u8>,
}

/// The mathematical model of one header entry.
pub struct HeaderModel {
    pub name: Seq<char>,
    pub value: Seq<u8>,
}

impl View for HeaderEntry {
    type V = HeaderModel;

    open spec fn view(&self) -> HeaderModel {
        HeaderModel { name: self.name@, value: self.value@ }
    }
}

impl Clone for HeaderEntry {
    fn clone(&self) -> (r: Self)
        ensures
            r@ == self@,
    {
        let value = self.value.clone();
        assert(value@ =~= self.value@);
        HeaderEntry { name: self.name.clone(), value }
    }
}

/// The models of a sequence of header entries, in the same order.
pub open spec fn models_of(entries: Seq<HeaderEntry>) -> Seq<HeaderModel> {
    entries.map_values(|e: HeaderEntry| e@)
}

} // verus!
