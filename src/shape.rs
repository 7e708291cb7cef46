//! Type-shape resolution: how a declared field type nests `Option` and `Vec`.

use vstd::prelude::*;

verus! {

/// The most wrapper layers that resolution will peel from one type.
pub const PEEL_CAP: usize = 100;

/// A declared field type, as far as shape resolution reads it.
#[derive(Debug)]
pub struct DeclaredType {
    /// The segments of the type's path, without generic arguments; empty
    /// when the type is not a path.
    pub segments: Vec<String>,
    /// The sole type argument of the first path segment that carries exactly
    /// one, when that argument is itself a path type.
    pub argument: Option<Box<DeclaredType>>,
    /// The type as written.
    pub text: String,
}

/// One wrapper layer.
#[derive(Clone, Copy, Debug, PartialEq, Eq, Structural)]
pub enum Wrapper {
    Optional,
    Repeated,
}

/// The nesting class of a field type.
#[derive(Clone, Copy, Debug, PartialEq, Eq, Structural)]
pub enum Shape {
    Scalar,
    Bool,
    OptionalScalar,
    OptionalOptionalScalar,
    RepeatedScalar,
    OptionalRepeatedScalar,
}

/// A declared type whose wrapper sequence is none of the permitted ones.
#[derive(Debug)]
pub struct MalformedType {
    /// The offending type, as written.
    pub type_text: String,
}

pub open spec fn seg_views(segs: Seq<String>) -> Seq<Seq<char>> {
    segs.map_values(|s: String| s@)
}

pub open spec fn is_optional_path(p: Seq<Seq<char>>) -> bool {
    ||| (p.len() == 1 && p[0] == "Option"@)
    ||| (p.len() == 2 && p[0] == "option"@ && p[1] == "Option"@)
    ||| (p.len() == 3 && (p[0] == "std"@ || p[0] == "core"@) && p[1] == "option"@ && p[2]
        == "Option"@)
}

pub open spec fn is_repeated_path(p: Seq<Seq<char>>) -> bool {
    ||| (p.len() == 1 && p[0] == "Vec"@)
    ||| (p.len() == 2 && p[0] == "vec"@ && p[1] == "Vec"@)
    ||| (p.len() == 3 && (p[0] == "std"@ || p[0] == "core"@) && p[1] == "vec"@ && p[2] == "Vec"@)
}

/// The wrapper that the outermost layer of `t` names, if any.
pub open spec fn wrapper_of(t: DeclaredType) -> Option<Wrapper> {
    let p = seg_views(t.segments@);
    if is_repeated_path(p) {
        Some(Wrapper::Repeated)
    } else if is_optional_path(p) {
        Some(Wrapper::Optional)
    } else {
        None
    }
}

/// `t` without its outermost layer; `t` itself when it names no argument.
pub open spec fn peel_once(t: DeclaredType) -> DeclaredType {
    match t.argument {
        Some(b) => *b,
        None => t,
    }
}

/// The wrapper layers peeled from `t` in at most `fuel` steps, and what is
/// left.
pub open spec fn peel(t: DeclaredType, fuel: nat) -> (Seq<Wrapper>, DeclaredType)
    decreases fuel,
{
    if fuel == 0 {
        (seq![], t)
    } else {
        match wrapper_of(t) {
            None => (seq![], t),
            Some(w) => {
                let rest = peel(peel_once(t), (fuel - 1) as nat);
                (seq![w] + rest.0, rest.1)
            },
        }
    }
}

/// The shape of a permitted wrapper sequence.
pub open spec fn shape_of_wrappers(ws: Seq<Wrapper>) -> Option<Shape> {
    if ws == Seq::<Wrapper>::empty() {
        Some(Shape::Scalar)
    } else if ws == seq![Wrapper::Optional] {
        Some(Shape::OptionalScalar)
    } else if ws == seq![Wrapper::Optional, Wrapper::Optional] {
        Some(Shape::OptionalOptionalScalar)
    } else if ws == seq![Wrapper::Repeated] {
        Some(Shape::RepeatedScalar)
    } else if ws == seq![Wrapper::Optional, Wrapper::Repeated] {
        Some(Shape::OptionalRepeatedScalar)
    } else {
        None
    }
}

/// Whether `t` is written as the literal boolean type.
pub open spec fn is_bool_type(t: DeclaredType) -> bool {
    t.text@ == "bool"@
}

/// The shape and innermost type of `t`, or `None` when its wrapper sequence
/// is not permitted.
pub open spec fn resolved(t: DeclaredType) -> Option<(Shape, DeclaredType)> {
    if is_bool_type(t) {
        Some((Shape::Bool, t))
    } else {
        let (ws, inner) = peel(t, PEEL_CAP as nat);
        match shape_of_wrappers(ws) {
            Some(s) => Some((s, inner)),
            None => None,
        }
    }
}

/// `t` after `n` steps into its argument.
pub open spec fn descend(t: DeclaredType, n: nat) -> DeclaredType
    decreases n,
{
    if n == 0 {
        t
    } else {
        descend(peel_once(t), (n - 1) as nat)
    }
}

/// `t` nests exactly the wrapper layers `ws`, each naming its argument, around
/// a type that is no wrapper.
pub open spec fn nests(t: DeclaredType, ws: Seq<Wrapper>) -> bool
    decreases ws.len(),
{
    if ws.len() == 0 {
        wrapper_of(t) is None
    } else {
        &&& wrapper_of(t) == Some(ws[0])
        &&& t.argument is Some
        &&& nests(peel_once(t), ws.drop_first())
    }
}

proof fn lemma_peel_nested(t: DeclaredType, ws: Seq<Wrapper>, fuel: nat)
    requires
        nests(t, ws),
        ws.len() < fuel,
    ensures
        peel(t, fuel) == (ws, descend(t, ws.len())),
    decreases ws.len(),
{
    if ws.len() > 0 {
        lemma_peel_nested(peel_once(t), ws.drop_first(), (fuel - 1) as nat);
        assert(seq![ws[0]] + ws.drop_first() =~= ws);
    }
}

/// A type that nests the wrapper layers `ws` (fewer than the cap), and is
/// not written as `bool`, resolves to the shape of `ws` and the type inside
/// the layers when `ws` is one of the permitted sequences, and fails to
/// resolve otherwise.
pub proof fn lemma_resolve_nested(t: DeclaredType, ws: Seq<Wrapper>)
    requires
        nests(t, ws),
        ws.len() < PEEL_CAP,
        !is_bool_type(t),
    ensures
        shape_of_wrappers(ws) matches Some(s) ==> resolved(t) == Some(
            (s, descend(t, ws.len())),
        ),
        shape_of_wrappers(ws) is None ==> resolved(t) is None,
{
    lemma_peel_nested(t, ws, PEEL_CAP as nat);
}

fn segment_is(segs: &Vec<String>, i: usize, lit: &str) -> (r: bool)
    requires
        i < segs@.len(),
    ensures
        r == (segs@[i as int]@ == lit@),
{
    segs[i] == String::from_str(lit)
}

fn wrapper_kind(t: &DeclaredType) -> (r: Option<Wrapper>)
    ensures
        r == wrapper_of(*t),
{
    let segs = &t.segments;
    let n = segs.len();
    let ghost p = seg_views(segs@);
    let repeated = (n == 1 && segment_is(segs, 0, "Vec")) || (n == 2 && segment_is(segs, 0, "vec")
        && segment_is(segs, 1, "Vec")) || (n == 3 && (segment_is(segs, 0, "std") || segment_is(
        segs,
        0,
        "core",
    )) && segment_is(segs, 1, "vec") && segment_is(segs, 2, "Vec"));
    if repeated {
        assert(is_repeated_path(p));
        return Some(Wrapper::Repeated);
    }
    assert(!is_repeated_path(p));
    let optional = (n == 1 && segment_is(segs, 0, "Option")) || (n == 2 && segment_is(
        segs,
        0,
        "option",
    ) && segment_is(segs, 1, "Option")) || (n == 3 && (segment_is(segs, 0, "std") || segment_is(
        segs,
        0,
        "core",
    )) && segment_is(segs, 1, "option") && segment_is(segs, 2, "Option"));
    if optional {
        Some(Wrapper::Optional)
    } else {
        None
    }
}

/// Classifies a declared type by its `Option`/`Vec` nesting.
///
/// The literal `bool` type is `Shape::Bool` whatever it wraps. Otherwise the
/// wrapper layers are peeled one at a time, at most `PEEL_CAP` of them, and
/// their sequence must be one of `[]`, `[Optional]`, `[Optional, Optional]`,
/// `[Repeated]` or `[Optional, Repeated]`; any other sequence is an error
/// that names the type.
pub fn resolve<'a>(t: &'a DeclaredType) -> (r: Result<(Shape, &'a DeclaredType), MalformedType>)
    ensures
        match r {
            Ok((s, inner)) => resolved(*t) == Some((s, *inner)),
            Err(e) => resolved(*t) is None && e.type_text@ == t.text@,
        },
{
    if t.text == String::from_str("bool") {
        return Ok((Shape::Bool, t));
    }
    let mut kinds: Vec<Wrapper> = Vec::new();
    let mut cur: &'a DeclaredType = t;
    let mut i: usize = 0;
    while i < PEEL_CAP
        invariant
            i <= PEEL_CAP,
            peel(*t, PEEL_CAP as nat) == (kinds@ + peel(*cur, (PEEL_CAP - i) as nat).0, peel(
                *cur,
                (PEEL_CAP - i) as nat,
            ).1),
            kinds@.len() == i,
        ensures
            i == PEEL_CAP || wrapper_of(*cur) is None,
        decreases PEEL_CAP - i,
    {
        match wrapper_kind(cur) {
            None => {
                break ;
            },
            Some(w) => {
                let ghost before = kinds@;
                let ghost old_cur = *cur;
                kinds.push(w);
                cur =
                match &cur.argument {
                    Some(b) => b,
                    None => cur,
                };
                i = i + 1;
                assert(peel(old_cur, (PEEL_CAP - i + 1) as nat).0 == seq![w] + peel(
                    *cur,
                    (PEEL_CAP - i) as nat,
                ).0);
                assert(before + (seq![w] + peel(*cur, (PEEL_CAP - i) as nat).0) == kinds@ + peel(
                    *cur,
                    (PEEL_CAP - i) as nat,
                ).0);
            },
        }
    }
    assert(peel(*cur, (PEEL_CAP - i) as nat).0 == Seq::<Wrapper>::empty());
    assert(kinds@ + Seq::<Wrapper>::empty() == kinds@);
    let ghost ws = kinds@;
    let n = kinds.len();
    let shape = if n == 0 {
        Some(Shape::Scalar)
    } else if n == 1 {
        match kinds[0] {
            Wrapper::Optional => {
                assert(ws =~= seq![Wrapper::Optional]);
                Some(Shape::OptionalScalar)
            },
            Wrapper::Repeated => {
                assert(ws =~= seq![Wrapper::Repeated]);
                Some(Shape::RepeatedScalar)
            },
        }
    } else if n == 2 && kinds[0] == Wrapper::Optional {
        match kinds[1] {
            Wrapper::Optional => {
                assert(ws =~= seq![Wrapper::Optional, Wrapper::Optional]);
                Some(Shape::OptionalOptionalScalar)
            },
            Wrapper::Repeated => {
                assert(ws =~= seq![Wrapper::Optional, Wrapper::Repeated]);
                Some(Shape::OptionalRepeatedScalar)
            },
        }
    } else {
        assert(ws.len() == 2 ==> ws[0] == Wrapper::Repeated);
        assert(ws != seq![Wrapper::Optional]);
        assert(ws != seq![Wrapper::Repeated]);
        assert(ws != seq![Wrapper::Optional, Wrapper::Optional]);
        assert(ws != seq![Wrapper::Optional, Wrapper::Repeated]);
        None
    };
    match shape {
        Some(s) => Ok((s, cur)),
        None => Err(MalformedType { type_text: t.text.clone() }),
    }
}

} // verus!
