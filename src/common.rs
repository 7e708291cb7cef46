//! Small shared pieces: string-sequence views and copies, and a list of
//! string labels.

use vstd::prelude::*;

verus! {

/// The texts of a sequence of strings.
pub open spec fn views(v: Seq<String>) -> Seq<Seq<char>> {
    v.map_values(|s: String| s@)
}

/// A copy of a list of strings.
pub fn copy_strings(v: &Vec<String>) -> (r: Vec<String>)
    ensures
        r@ == v@,
{
    let mut r: Vec<String> = Vec::new();
    let mut i: usize = 0;
    while i < v.len()
        invariant
            i <= v@.len(),
            r@ == v@.take(i as int),
        decreases v@.len() - i,
    {
        r.push(v[i].clone());
        i = i + 1;
        assert(r@ =~= v@.take(i as int));
    }
    assert(v@.take(v@.len() as int) =~= v@);
    r
}

/// Whether `v` holds a string whose text is `s`.
pub fn contains_text(v: &Vec<String>, s: &String) -> (r: bool)
    ensures
        r == views(v@).contains(s@),
{
    let mut i: usize = 0;
    while i < v.len()
        invariant
            i <= v@.len(),
            forall|j: int| 0 <= j < i ==> v@[j]@ != s@,
        decreases v@.len() - i,
    {
        if v[i] == *s {
            assert(views(v@)[i as int] == s@);
            return true;
        }
        i = i + 1;
    }
    assert forall|j: int| 0 <= j < views(v@).len() implies views(v@)[j] != s@ by {
        assert(views(v@)[j] == v@[j]@);
    }
    false
}

/// A list of string labels given in an attribute.
#[derive(Debug)]
pub struct VecStringAttr(pub Vec<String>);

impl View for VecStringAttr {
    type V = Seq<Seq<char>>;

    open spec fn view(&self) -> Seq<Seq<char>> {
        views(self.0@)
    }
}

impl VecStringAttr {
    pub fn new(vals: Vec<String>) -> (r: Self)
        ensures
            r.0@ == vals@,
    {
        VecStringAttr(vals)
    }

    pub fn to_strings(&self) -> (r: Vec<String>)
        ensures
            r@ == self.0@,
    {
        copy_strings(&self.0)
    }
}

/// Marks the few types that may select how help text is attached.
pub trait Sealed {}

/// Help text attached to an argument, as `help` and `long_help`.
pub struct HelpMarker;

/// Help text attached to a command, as `about` and `long_about`.
pub struct AboutMarker;

impl Sealed for HelpMarker {}

impl Sealed for AboutMarker {}

} // verus!
