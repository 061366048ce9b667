use vstd::prelude::*;

verus! {

/// The file currently targeted by the panel, modeled as its path
/// components in order (the host converts to and from its native path
/// type).  The controller only ever stores the path, hands it back to
/// the host, and derives the displayed file name from it.
pub struct FilePath {
    pub components: Vec<String>,
}

impl View for FilePath {
    type V = Seq<Seq<char>>;

    open spec fn view(&self) -> Seq<Seq<char>> {
        self.components@.map_values(|c: String| c@)
    }
}

impl FilePath {
    pub fn new(components: Vec<String>) -> (r: FilePath)
        ensures
            r@ == components@.map_values(|c: String| c@),
    {
        FilePath { components }
    }

    /// An owned copy with the same components.
    pub fn duplicate(&self) -> (r: FilePath)
        ensures
            r@ == self@,
    {
        let mut components: Vec<String> = Vec::new();
        let mut i: usize = 0;
        while i < self.components.len()
            invariant
                i <= self.components.len(),
                components@.len() == i as int,
                forall|j: int| 0 <= j < i ==> components@[j]@ == self.components@[j]@,
            decreases self.components.len() - i,
        {
            components.push(self.components[i].clone());
            i += 1;
        }
        let r = FilePath { components };
        proof {
            assert(r@ =~= self@);
        }
        r
    }

    /// The displayed name: the last path component, or a placeholder
    /// when the path has no components.
    pub fn file_name(&self) -> (r: String)
        ensures
            r@ == self.spec_file_name(),
    {
        if self.components.len() == 0 {
            "???".to_owned()
        } else {
            self.components[self.components.len() - 1].clone()
        }
    }

    pub open spec fn spec_file_name(&self) -> Seq<char> {
        if self@.len() == 0 {
            "???"@
        } else {
            self@[self@.len() - 1]
        }
    }
}

} // verus!
