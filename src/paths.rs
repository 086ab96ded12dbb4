use vstd::prelude::*;

verus! {

/// A filesystem path held as its components, root first.
pub struct BundlePath {
    pub parts: Vec<String>,
}

impl View for BundlePath {
    type V = Seq<Seq<char>>;

    open spec fn view(&self) -> Seq<Seq<char>> {
        self.parts@.map_values(|p: String| p@)
    }
}

/// The directory that holds `p`: every component but the last.
pub open spec fn parent_of(p: Seq<Seq<char>>) -> Option<Seq<Seq<char>>> {
    if p.len() == 0 {
        None
    } else {
        Some(p.drop_last())
    }
}

impl BundlePath {
    pub fn from_parts(parts: Vec<String>) -> (r: BundlePath)
        ensures
            r.parts@ == parts@,
    {
        BundlePath { parts }
    }

    /// A copy of this path.
    pub fn duplicate(&self) -> (r: BundlePath)
        ensures
            r@ == self@,
    {
        let mut parts: Vec<String> = Vec::new();
        let mut i: usize = 0;
        while i < self.parts.len()
            invariant
                i <= self.parts@.len(),
                parts@.len() == i,
                forall|j: int| 0 <= j < i ==> parts@[j]@ == self.parts@[j]@,
            decreases self.parts@.len() - i,
        {
            parts.push(self.parts[i].clone());
            i = i + 1;
        }
        let r = BundlePath { parts };
        assert(r@ =~= self@);
        r
    }

    /// This path with `name` appended as a last component.
    pub fn join(&self, name: &str) -> (r: BundlePath)
        ensures
            r@ == self@.push(name@),
    {
        let mut r = self.duplicate();
        r.parts.push(String::from_str(name));
        assert(r@ =~= self@.push(name@));
        r
    }

    /// The directory that holds this path; none for an empty path.
    pub fn parent(&self) -> (r: Option<BundlePath>)
        ensures
            r is None <==> parent_of(self@) is None,
            r matches Some(p) ==> parent_of(self@) == Some(p@),
    {
        if self.parts.len() == 0 {
            return None;
        }
        let mut r = self.duplicate();
        r.parts.pop();
        assert(r@ =~= self@.drop_last());
        Some(r)
    }
}

} // verus!
