//! Extraction of a field's value from what the parsing engine matched, and
//! in-place update of an existing value.

use crate::shape::Shape;
use vstd::prelude::*;

verus! {

/// A field's value, in the form its shape gives it.
#[derive(Debug, PartialEq, Eq)]
pub enum Extracted<V> {
    Flag(bool),
    Single(V),
    Optional(Option<V>),
    OptionalOptional(Option<Option<V>>),
    Repeated(Vec<V>),
    OptionalRepeated(Option<Vec<V>>),
}

pub enum ExtractedView<V> {
    Flag(bool),
    Single(V),
    Optional(Option<V>),
    OptionalOptional(Option<Option<V>>),
    Repeated(Seq<V>),
    OptionalRepeated(Option<Seq<V>>),
}

impl<V> View for Extracted<V> {
    type V = ExtractedView<V>;

    open spec fn view(&self) -> ExtractedView<V> {
        match self {
            Extracted::Flag(b) => ExtractedView::Flag(*b),
            Extracted::Single(v) => ExtractedView::Single(*v),
            Extracted::Optional(o) => ExtractedView::Optional(*o),
            Extracted::OptionalOptional(o) => ExtractedView::OptionalOptional(*o),
            Extracted::Repeated(vs) => ExtractedView::Repeated(vs@),
            Extracted::OptionalRepeated(o) => ExtractedView::OptionalRepeated(
                match o {
                    Some(vs) => Some(vs@),
                    None => None,
                },
            ),
        }
    }
}

/// A failure while values are taken from a match result.
#[derive(Debug, PartialEq, Eq)]
pub enum MatchError {
    /// A value did not parse; holds the argument's name and the parser's
    /// message.
    InvalidValue { name: String, message: String },
    /// A required value is absent although the contract required it; holds
    /// the argument's name.
    MissingValue(String),
    /// No variant answers to the given sub-action; holds its name.
    UnrecognizedSubcommand(String),
    /// A sub-action is required but none was given.
    MissingSubcommand,
}

/// Every parsed value in order, or the message of the first failure.
pub open spec fn all_parsed<V>(s: Seq<Result<V, String>>) -> Result<Seq<V>, String>
    decreases s.len(),
{
    if s.len() == 0 {
        Ok(seq![])
    } else {
        match s[0] {
            Err(m) => Err(m),
            Ok(v) => match all_parsed(s.drop_first()) {
                Ok(vs) => Ok(seq![v] + vs),
                Err(m) => Err(m),
            },
        }
    }
}

/// The first supplied value, as its shape takes it: `None` when nothing was
/// supplied.
pub open spec fn first_parsed<V>(s: Seq<Result<V, String>>) -> Option<Result<V, String>> {
    if s.len() == 0 {
        None
    } else {
        Some(s[0])
    }
}

/// The value of a field of shape `shape`, given whether its argument was
/// present and each supplied value after parsing; `Err(Some(m))` for a
/// parse failure with message `m`, `Err(None)` for a required value that is
/// absent.
pub open spec fn extraction<V>(
    shape: Shape,
    present: bool,
    parsed: Seq<Result<V, String>>,
) -> Result<ExtractedView<V>, Option<String>> {
    match shape {
        Shape::Bool => Ok(ExtractedView::Flag(present)),
        Shape::Scalar => match first_parsed(parsed) {
            None => Err(None),
            Some(Ok(v)) => Ok(ExtractedView::Single(v)),
            Some(Err(m)) => Err(Some(m)),
        },
        Shape::OptionalScalar => match first_parsed(parsed) {
            None => Ok(ExtractedView::Optional(None)),
            Some(Ok(v)) => Ok(ExtractedView::Optional(Some(v))),
            Some(Err(m)) => Err(Some(m)),
        },
        Shape::OptionalOptionalScalar => if !present {
            Ok(ExtractedView::OptionalOptional(None))
        } else {
            match first_parsed(parsed) {
                None => Ok(ExtractedView::OptionalOptional(Some(None))),
                Some(Ok(v)) => Ok(ExtractedView::OptionalOptional(Some(Some(v)))),
                Some(Err(m)) => Err(Some(m)),
            }
        },
        Shape::RepeatedScalar => match all_parsed(parsed) {
            Ok(vs) => Ok(ExtractedView::Repeated(vs)),
            Err(m) => Err(Some(m)),
        },
        Shape::OptionalRepeatedScalar => if !present {
            Ok(ExtractedView::OptionalRepeated(None))
        } else {
            match all_parsed(parsed) {
                Ok(vs) => Ok(ExtractedView::OptionalRepeated(Some(vs))),
                Err(m) => Err(Some(m)),
            }
        },
    }
}

/// `r` is the error that `failure` describes for the argument `name`.
pub open spec fn is_failure(r: MatchError, failure: Option<String>, name: Seq<char>) -> bool {
    match failure {
        Some(m) => r == MatchError::InvalidValue { name: r->name, message: m } && r->name@ == name,
        None => r is MissingValue && r->MissingValue_0@ == name,
    }
}

fn collect_parsed<V>(parsed: Vec<Result<V, String>>) -> (r: Result<Vec<V>, String>)
    ensures
        match (r, all_parsed(parsed@)) {
            (Ok(vs), Ok(ws)) => vs@ == ws,
            (Err(m), Err(w)) => m == w,
            _ => false,
        },
{
    let ghost orig = parsed@;
    let mut rest = parsed;
    let mut out: Vec<V> = Vec::new();
    while rest.len() > 0
        invariant
            orig == parsed@,
            all_parsed(orig) == match all_parsed(rest@) {
                Ok(ws) => Ok(out@ + ws),
                Err(m) => Err(m),
            },
        decreases rest@.len(),
    {
        let ghost before = rest@;
        let ghost out_before = out@;
        let item = rest.remove(0);
        assert(rest@ =~= before.drop_first());
        match item {
            Ok(v) => {
                out.push(v);
                proof {
                    match all_parsed(rest@) {
                        Ok(ws) => {
                            assert(out_before + (seq![v] + ws) =~= out@ + ws);
                        },
                        Err(m) => {},
                    }
                }
            },
            Err(m) => {
                assert(all_parsed(before) == Err::<Seq<V>, String>(m));
                return Err(m);
            },
        }
    }
    assert(out@ + Seq::<V>::empty() =~= out@);
    Ok(out)
}

fn take_first<V>(parsed: Vec<Result<V, String>>) -> (r: Option<Result<V, String>>)
    ensures
        r == first_parsed(parsed@),
{
    let mut parsed = parsed;
    if parsed.len() == 0 {
        None
    } else {
        Some(parsed.remove(0))
    }
}

fn invalid(name: &str, message: String) -> (r: MatchError)
    ensures
        is_failure(r, Some(message), name@),
{
    MatchError::InvalidValue { name: String::from_str(name), message }
}

/// Takes the value of the argument `name` of shape `shape` from what was
/// matched: whether it was present, and each value supplied for it, in
/// order, after parsing.
///
/// A single value takes the first supplied value; a required one that is
/// absent is an error. An optional-optional field tells "not mentioned"
/// (`None`), "mentioned without a value" (`Some(None)`) and "mentioned with
/// a value" apart. A repeated field takes every value in order, and its
/// optional form is `None` when the argument is absent. The first parse
/// failure is returned with the argument's name.
pub fn extract<V>(shape: Shape, name: &str, present: bool, parsed: Vec<Result<V, String>>) -> (r:
    Result<Extracted<V>, MatchError>)
    ensures
        match (r, extraction(shape, present, parsed@)) {
            (Ok(x), Ok(w)) => x@ == w,
            (Err(e), Err(f)) => is_failure(e, f, name@),
            _ => false,
        },
{
    match shape {
        Shape::Bool => Ok(Extracted::Flag(present)),
        Shape::Scalar => match take_first(parsed) {
            None => Err(MatchError::MissingValue(String::from_str(name))),
            Some(Ok(v)) => Ok(Extracted::Single(v)),
            Some(Err(m)) => Err(invalid(name, m)),
        },
        Shape::OptionalScalar => match take_first(parsed) {
            None => Ok(Extracted::Optional(None)),
            Some(Ok(v)) => Ok(Extracted::Optional(Some(v))),
            Some(Err(m)) => Err(invalid(name, m)),
        },
        Shape::OptionalOptionalScalar => {
            if !present {
                return Ok(Extracted::OptionalOptional(None));
            }
            match take_first(parsed) {
                None => Ok(Extracted::OptionalOptional(Some(None))),
                Some(Ok(v)) => Ok(Extracted::OptionalOptional(Some(Some(v)))),
                Some(Err(m)) => Err(invalid(name, m)),
            }
        },
        Shape::RepeatedScalar => match collect_parsed(parsed) {
            Ok(vs) => Ok(Extracted::Repeated(vs)),
            Err(m) => Err(invalid(name, m)),
        },
        Shape::OptionalRepeatedScalar => {
            if !present {
                return Ok(Extracted::OptionalRepeated(None));
            }
            match collect_parsed(parsed) {
                Ok(vs) => Ok(Extracted::OptionalRepeated(Some(vs))),
                Err(m) => Err(invalid(name, m)),
            }
        },
    }
}

/// Whether a new match overwrites a field's value in place: a required
/// single value always, any other shape only when its argument is present.
pub open spec fn overwrites(shape: Shape, present: bool) -> bool {
    shape == Shape::Scalar || present
}

/// Updates `slot` from a new match: when `overwrites(shape, present)` it
/// takes the value that `extract` gives, and otherwise, or on a failure, it
/// stays as it was.
pub fn update<V>(
    slot: &mut Extracted<V>,
    shape: Shape,
    name: &str,
    present: bool,
    parsed: Vec<Result<V, String>>,
) -> (r: Result<(), MatchError>)
    ensures
        !overwrites(shape, present) ==> r is Ok && *final(slot) == *old(slot),
        overwrites(shape, present) ==> match (r, extraction(shape, present, parsed@)) {
            (Ok(_), Ok(w)) => final(slot)@ == w,
            (Err(e), Err(f)) => is_failure(e, f, name@) && *final(slot) == *old(slot),
            _ => false,
        },
{
    if !(shape == Shape::Scalar || present) {
        return Ok(());
    }
    match extract(shape, name, present, parsed) {
        Ok(x) => {
            *slot = x;
            Ok(())
        },
        Err(e) => Err(e),
    }
}

} // verus!
