use vstd::prelude::*;

verus! {

/// A search pattern as entered by the user: the raw text of the search
/// input.  An empty raw text means "no pattern".  The pattern is only
/// ever compiled and executed by the host's matcher; this library needs
/// nothing beyond presence and equality of the raw text.
pub struct InputPattern {
    pub raw: String,
}

impl View for InputPattern {
    type V = Seq<char>;

    open spec fn view(&self) -> Seq<char> {
        self.raw@
    }
}

impl InputPattern {
    /// The absent pattern.
    pub fn none() -> (r: InputPattern)
        ensures
            r@ == Seq::<char>::empty(),
            r@.len() == 0,
    {
        InputPattern { raw: String::new() }
    }

    /// Builds a pattern from its raw text.
    pub fn from_raw(raw: String) -> (r: InputPattern)
        ensures
            r@ == raw@,
    {
        InputPattern { raw }
    }

    /// A pattern is present when its raw text is non-empty.
    pub fn is_some(&self) -> (r: bool)
        ensures
            r == (self@.len() > 0),
    {
        !self.raw.as_str().is_empty()
    }

    /// A pattern is absent when its raw text is empty.
    pub fn is_none(&self) -> (r: bool)
        ensures
            r == (self@.len() == 0),
    {
        self.raw.as_str().is_empty()
    }

    /// An owned copy with the same raw text.
    pub fn duplicate(&self) -> (r: InputPattern)
        ensures
            r@ == self@,
    {
        InputPattern { raw: self.raw.clone() }
    }

    /// Takes the pattern out, leaving the absent pattern behind.
    pub fn take(&mut self) -> (r: InputPattern)
        ensures
            r@ == old(self)@,
            final(self)@.len() == 0,
            final(self)@ == Seq::<char>::empty(),
    {
        let mut out = InputPattern { raw: String::new() };
        core::mem::swap(self, &mut out);
        out
    }
}

} // verus!
