use vstd::prelude::*;

verus! {

/// Byte value of `.` in a path component name.
pub const DOT: u8 = 46;

/// Byte value of `a`.
pub const LETTER_A: u8 = 97;

/// Byte value of `p`.
pub const LETTER_P: u8 = 112;

/// A filesystem path, modelled as the sequence of its component names from
/// the root downward, each name as its bytes. An empty sequence stands for
/// the root itself, which has no name and no parent.
#[derive(Debug, PartialEq, Eq)]
pub struct NodePath {
    pub parts: Vec<Vec<u8>>,
}

impl View for NodePath {
    type V = Seq<Seq<u8>>;

    open spec fn view(&self) -> Seq<Seq<u8>> {
        Seq::new(self.parts@.len(), |i: int| self.parts@[i]@)
    }
}

/// Whether a component name ends in `.app`.
pub open spec fn spec_has_app_suffix(name: Seq<u8>) -> bool {
    &&& name.len() >= 4
    &&& name[name.len() - 4] == DOT
    &&& name[name.len() - 3] == LETTER_A
    &&& name[name.len() - 2] == LETTER_P
    &&& name[name.len() - 1] == LETTER_P
}

/// Whether a path's final component name ends in `.app`. The root has no
/// name and never qualifies.
pub open spec fn spec_is_app_named(p: Seq<Seq<u8>>) -> bool {
    p.len() > 0 && spec_has_app_suffix(p.last())
}

/// Whether a component name ends in `.app`.
pub fn has_app_suffix(name: &Vec<u8>) -> (r: bool)
    ensures
        r == spec_has_app_suffix(name@),
{
    let n = name.len();
    if n < 4 {
        return false;
    }
    name[n - 4] == DOT && name[n - 3] == LETTER_A && name[n - 2] == LETTER_P && name[n - 1]
        == LETTER_P
}

fn clone_bytes(v: &Vec<u8>) -> (r: Vec<u8>)
    ensures
        r@ == v@,
{
    let mut r: Vec<u8> = Vec::new();
    let mut i: usize = 0;
    while i < v.len()
        invariant
            i <= v.len(),
            r@.len() == i,
            forall|j: int| 0 <= j < i ==> r@[j] == v@[j],
        decreases v.len() - i,
    {
        r.push(v[i]);
        i = i + 1;
    }
    proof {
        assert(r@ =~= v@);
    }
    r
}

impl Clone for NodePath {
    fn clone(&self) -> (r: Self)
        ensures
            r@ == self@,
    {
        let mut parts: Vec<Vec<u8>> = Vec::new();
        let mut i: usize = 0;
        while i < self.parts.len()
            invariant
                i <= self.parts.len(),
                parts@.len() == i,
                forall|j: int| 0 <= j < i ==> parts@[j]@ == self.parts@[j]@,
            decreases self.parts.len() - i,
        {
            parts.push(clone_bytes(&self.parts[i]));
            i = i + 1;
        }
        let r = NodePath { parts };
        proof {
            assert(r@ =~= self@);
        }
        r
    }
}

impl NodePath {
    /// How many components stand between this path and the root.
    pub fn depth(&self) -> (n: usize)
        ensures
            n == self@.len(),
    {
        self.parts.len()
    }

    /// Replace this path by its parent.
    pub fn drop_last(&mut self)
        requires
            old(self)@.len() > 0,
        ensures
            final(self)@ == old(self)@.drop_last(),
    {
        let _ = self.parts.pop();
        proof {
            assert(self@ =~= old(self)@.drop_last());
        }
    }

    /// Whether the final component name ends in `.app`.
    pub fn is_app_named(&self) -> (r: bool)
        ensures
            r == spec_is_app_named(self@),
    {
        let n = self.parts.len();
        if n == 0 {
            return false;
        }
        has_app_suffix(&self.parts[n - 1])
    }
}

} // verus!
