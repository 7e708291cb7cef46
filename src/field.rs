//! The per-field compiler: from a field's schema to an argument descriptor,
//! or to a delegation to a nested schema.

use crate::common::{contains_text, copy_strings, views};
use crate::error::{BuildError, BuildErrorView};
use crate::naming::{attached_prefix, can_compose, compose, composable, composed, label_accepted};
use crate::rename::{opt_view, RenameAll};
use crate::shape::{resolve, resolved, DeclaredType, Shape};
use vstd::prelude::*;

verus! {

/// A setting that may be absent, asked for with its inherited default, or
/// given explicitly.
#[derive(Debug)]
pub enum Attr {
    Absent,
    Inherit,
    Explicit(String),
}

/// The text of a setting: `None` when absent or inherited.
pub open spec fn attr_value(a: Attr) -> Option<Seq<char>> {
    match a {
        Attr::Explicit(s) => Some(s@),
        _ => None,
    }
}

/// How a supplied value becomes the field's value.
#[derive(Clone, Copy, Debug, PartialEq, Eq, Structural)]
pub enum ParseKind {
    FromStr,
    TryFromStr,
    FromOsStr,
    TryFromOsStr,
    FromOccurrences,
    FromFlag,
}

/// A parse strategy, with the path of its function when one is given.
#[derive(Debug)]
pub struct ClapFieldParse {
    pub kind: ParseKind,
    pub function: Option<String>,
}

/// One field of a schema, with the casing context its parent injected.
#[derive(Debug)]
pub struct ClapField {
    pub ident: String,
    pub ty: DeclaredType,
    pub name: Option<String>,
    pub help: Option<String>,
    pub long_help: Option<String>,
    pub short: Attr,
    pub long: Attr,
    pub env: Attr,
    /// Embeds a nested schema, under an extra prefix label when explicit.
    pub flatten: Attr,
    pub subcommand: bool,
    /// Leaves the field out of the contract; explicit text is the default
    /// expression.
    pub skip: Attr,
    pub arg_enum: bool,
    pub default_value: Option<String>,
    pub parse: Option<ClapFieldParse>,
    /// The prefix labels that the enclosing schema accepts.
    pub flatten_labels: Vec<String>,
    pub rename_all: RenameAll,
    pub rename_all_env: RenameAll,
    pub rename_all_value: RenameAll,
}

/// How supplied values are checked.
#[derive(Debug)]
pub enum Validator {
    /// No value is taken.
    NoCheck,
    /// Values must parse with the descriptor's parse function.
    ParseFunction,
    /// Values must be display strings of the named arg-enum type.
    ClosedSet(String),
}

pub enum ValidatorView {
    NoCheck,
    ParseFunction,
    ClosedSet(Seq<char>),
}

/// The description of one argument handed to the parsing engine.
#[derive(Debug)]
pub struct ArgumentDescriptor {
    pub name: String,
    pub short: Option<char>,
    pub long: Option<String>,
    pub env: Option<String>,
    pub value_name: String,
    pub takes_value: bool,
    pub shape: Shape,
    pub required: bool,
    pub default_value: Option<String>,
    pub help: Option<String>,
    pub long_help: Option<String>,
    pub parse_kind: ParseKind,
    pub parse_function: String,
    pub validator: Validator,
}

pub struct DescriptorView {
    pub name: Seq<char>,
    pub short: Option<char>,
    pub long: Option<Seq<char>>,
    pub env: Option<Seq<char>>,
    pub value_name: Seq<char>,
    pub takes_value: bool,
    pub shape: Shape,
    pub required: bool,
    pub default_value: Option<Seq<char>>,
    pub help: Option<Seq<char>>,
    pub long_help: Option<Seq<char>>,
    pub parse_kind: ParseKind,
    pub parse_function: Seq<char>,
    pub validator: ValidatorView,
}

impl View for ArgumentDescriptor {
    type V = DescriptorView;

    open spec fn view(&self) -> DescriptorView {
        DescriptorView {
            name: self.name@,
            short: self.short,
            long: opt_view(self.long),
            env: opt_view(self.env),
            value_name: self.value_name@,
            takes_value: self.takes_value,
            shape: self.shape,
            required: self.required,
            default_value: opt_view(self.default_value),
            help: opt_view(self.help),
            long_help: opt_view(self.long_help),
            parse_kind: self.parse_kind,
            parse_function: self.parse_function@,
            validator: match self.validator {
                Validator::NoCheck => ValidatorView::NoCheck,
                Validator::ParseFunction => ValidatorView::ParseFunction,
                Validator::ClosedSet(s) => ValidatorView::ClosedSet(s@),
            },
        }
    }
}

/// What the compiler makes of one field.
#[derive(Debug)]
pub enum FieldPlan {
    /// Delegate to a tagged union under the given prefix; a sub-action is
    /// then mandatory.
    Subcommand(Vec<String>),
    /// No argument; the value is the given default expression, or the
    /// type's default when none is given.
    Skip(Option<String>),
    /// Delegate to a nested schema under the given prefix, keeping the
    /// ambient help heading around it.
    Flatten(Vec<String>),
    /// One argument.
    Argument(ArgumentDescriptor),
}

pub enum PlanView {
    Subcommand(Seq<Seq<char>>),
    Skip(Option<Seq<char>>),
    Flatten(Seq<Seq<char>>),
    Argument(DescriptorView),
}

impl View for FieldPlan {
    type V = PlanView;

    open spec fn view(&self) -> PlanView {
        match self {
            FieldPlan::Subcommand(p) => PlanView::Subcommand(views(p@)),
            FieldPlan::Skip(d) => PlanView::Skip(opt_view(*d)),
            FieldPlan::Flatten(p) => PlanView::Flatten(views(p@)),
            FieldPlan::Argument(d) => PlanView::Argument(d@),
        }
    }
}

pub open spec fn plan_result_view(r: Result<FieldPlan, BuildError>) -> Result<
    PlanView,
    BuildErrorView,
> {
    match r {
        Ok(p) => Ok(p@),
        Err(e) => Err(e@),
    }
}

/// The field's name before prefix and casing: its override, else its
/// identifier.
pub open spec fn name_text(f: ClapField) -> Seq<char> {
    match f.name {
        Some(n) => n@,
        None => f.ident@,
    }
}

pub open spec fn default_kind(shape: Shape) -> ParseKind {
    if shape == Shape::Bool {
        ParseKind::FromFlag
    } else {
        ParseKind::TryFromStr
    }
}

pub open spec fn parse_kind_of(f: ClapField, shape: Shape) -> ParseKind {
    match f.parse {
        Some(p) => p.kind,
        None => default_kind(shape),
    }
}

/// The function a parse kind uses when none is given; `None` for the one
/// kind that has no default.
pub open spec fn default_function(k: ParseKind) -> Option<Seq<char>> {
    match k {
        ParseKind::FromStr => Some("::std::convert::From::from"@),
        ParseKind::TryFromStr => Some("::std::str::FromStr::from_str"@),
        ParseKind::FromOsStr => Some("::std::convert::From::from"@),
        ParseKind::TryFromOsStr => None,
        ParseKind::FromOccurrences => Some("value as T"@),
        ParseKind::FromFlag => Some("::std::convert::From::from"@),
    }
}

pub open spec fn parse_function_of(f: ClapField, shape: Shape) -> Option<Seq<char>> {
    match f.parse {
        Some(p) => match p.function {
            Some(s) => Some(s@),
            None => default_function(p.kind),
        },
        None => default_function(default_kind(shape)),
    }
}

/// The short alias: `Some(None)` when none is asked for, `None` when the
/// text it is taken from is empty.
pub open spec fn short_of(a: Attr, name: Seq<char>) -> Option<Option<char>> {
    match a {
        Attr::Absent => Some(None),
        Attr::Inherit => if name.len() > 0 {
            Some(Some(name[0]))
        } else {
            None
        },
        Attr::Explicit(s) => if s@.len() > 0 {
            Some(Some(s@[0]))
        } else {
            None
        },
    }
}

/// A long or environment alias: the field's name or the explicit text,
/// under the prefix and the given casing.
pub open spec fn alias_of(
    a: Attr,
    name: Seq<char>,
    prefix: Seq<Seq<char>>,
    casing: RenameAll,
) -> Option<Seq<char>> {
    match a {
        Attr::Absent => None,
        Attr::Inherit => Some(composed(prefix, name, casing)),
        Attr::Explicit(s) => Some(composed(prefix, s@, casing)),
    }
}

/// Whether an argument of this shape, default and parse kind must be given:
/// a single value without a default that is not a flag.
pub open spec fn is_required(shape: Shape, has_default: bool, kind: ParseKind) -> bool {
    shape == Shape::Scalar && !has_default && kind != ParseKind::FromFlag
}

/// Whether a long or environment alias can be cast.
pub open spec fn alias_castable(
    a: Attr,
    name: Seq<char>,
    prefix: Seq<Seq<char>>,
    casing: RenameAll,
) -> bool {
    match a {
        Attr::Absent => true,
        Attr::Inherit => composable(prefix, name, casing),
        Attr::Explicit(s) => composable(prefix, s@, casing),
    }
}

/// Whether every name of a leaf field can be cast under its policies.
pub open spec fn names_castable(f: ClapField, prefix: Seq<Seq<char>>) -> bool {
    let name = name_text(f);
    &&& composable(prefix, name, f.rename_all)
    &&& composable(prefix, name, f.rename_all_value)
    &&& alias_castable(f.long, name, prefix, f.rename_all)
    &&& alias_castable(f.env, name, prefix, f.rename_all_env)
}

pub open spec fn descriptor_of(
    f: ClapField,
    prefix: Seq<Seq<char>>,
    shape: Shape,
    inner: DeclaredType,
    function: Seq<char>,
    short: Option<char>,
) -> DescriptorView {
    let name = name_text(f);
    let kind = parse_kind_of(f, shape);
    DescriptorView {
        name: composed(prefix, name, f.rename_all),
        short: short,
        long: alias_of(f.long, name, prefix, f.rename_all),
        env: alias_of(f.env, name, prefix, f.rename_all_env),
        value_name: composed(prefix, name, f.rename_all_value),
        takes_value: kind != ParseKind::FromFlag,
        shape: shape,
        required: is_required(shape, f.default_value is Some, kind),
        default_value: opt_view(f.default_value),
        help: opt_view(f.help),
        long_help: opt_view(f.long_help),
        parse_kind: kind,
        parse_function: function,
        validator: if f.arg_enum {
            ValidatorView::ClosedSet(inner.text@)
        } else if shape == Shape::Bool {
            ValidatorView::NoCheck
        } else {
            ValidatorView::ParseFunction
        },
    }
}

/// What one field compiles to under `prefix`, by priority: subcommand,
/// skip, flatten, then a leaf argument.
pub open spec fn field_plan(f: ClapField, prefix: Seq<Seq<char>>) -> Result<
    PlanView,
    BuildErrorView,
> {
    match resolved(f.ty) {
        None => Err(BuildErrorView::MalformedType(f.ty.text@)),
        Some((shape, inner)) => if f.subcommand {
            if shape == Shape::Scalar {
                Ok(PlanView::Subcommand(prefix))
            } else {
                Err(BuildErrorView::SubcommandNotScalar(f.ty.text@))
            }
        } else if !(f.skip is Absent) {
            Ok(PlanView::Skip(attr_value(f.skip)))
        } else if !(f.flatten is Absent) {
            Ok(PlanView::Flatten(attached_prefix(prefix, attr_value(f.flatten))))
        } else if !label_accepted(prefix, views(f.flatten_labels@)) {
            Err(BuildErrorView::NoPrefixLabel)
        } else if !names_castable(f, prefix) {
            Err(BuildErrorView::NonAsciiName(name_text(f)))
        } else {
            match parse_function_of(f, shape) {
                None => Err(BuildErrorView::NoDefaultParser),
                Some(function) => match short_of(f.short, name_text(f)) {
                    None => Err(BuildErrorView::EmptyShort(name_text(f))),
                    Some(short) => Ok(
                        PlanView::Argument(descriptor_of(f, prefix, shape, inner, function, short)),
                    ),
                },
            }
        },
    }
}

fn default_parse_function(k: ParseKind) -> (r: Option<String>)
    ensures
        opt_view(r) == default_function(k),
{
    match k {
        ParseKind::FromStr => Some(String::from_str("::std::convert::From::from")),
        ParseKind::TryFromStr => Some(String::from_str("::std::str::FromStr::from_str")),
        ParseKind::FromOsStr => Some(String::from_str("::std::convert::From::from")),
        ParseKind::TryFromOsStr => None,
        ParseKind::FromOccurrences => Some(String::from_str("value as T")),
        ParseKind::FromFlag => Some(String::from_str("::std::convert::From::from")),
    }
}

impl ClapFieldParse {
    /// The strategy with its function filled in: an explicit one is kept,
    /// an inherited one takes its kind's default. The one kind without a
    /// default fails.
    pub fn defaulted(&self) -> (r: Result<ClapFieldParse, BuildError>)
        ensures
            match r {
                Ok(p) => {
                    &&& p.kind == self.kind
                    &&& p.function is Some
                    &&& opt_view(p.function) == match self.function {
                        Some(f) => Some(f@),
                        None => default_function(self.kind),
                    }
                },
                Err(e) => self.function is None && default_function(self.kind) is None && e
                    == BuildError::NoDefaultParser,
            },
    {
        match &self.function {
            Some(f) => Ok(ClapFieldParse { kind: self.kind, function: Some(f.clone()) }),
            None => match default_parse_function(self.kind) {
                Some(f) => Ok(ClapFieldParse { kind: self.kind, function: Some(f) }),
                None => Err(BuildError::NoDefaultParser),
            },
        }
    }

    /// The path of the parse function; a strategy that was not defaulted
    /// has none.
    pub fn parse(&self) -> (r: Result<String, BuildError>)
        ensures
            match r {
                Ok(f) => self.function matches Some(g) && f@ == g@,
                Err(e) => self.function is None && e == BuildError::NotDefaulted,
            },
    {
        match &self.function {
            Some(f) => Ok(f.clone()),
            None => Err(BuildError::NotDefaulted),
        }
    }
}

fn copy_opt(o: &Option<String>) -> (r: Option<String>)
    ensures
        opt_view(r) == opt_view(*o),
{
    match o {
        Some(s) => Some(s.clone()),
        None => None,
    }
}

fn first_char(s: &String) -> (r: Option<char>)
    ensures
        match r {
            Some(c) => s@.len() > 0 && c == s@[0],
            None => s@.len() == 0,
        },
{
    if s.as_str().unicode_len() > 0 {
        Some(s.as_str().get_char(0))
    } else {
        None
    }
}

fn alias_can_cast(a: &Attr, name: &String, prefix: &Vec<String>, casing: RenameAll) -> (r: bool)
    ensures
        r == alias_castable(*a, name@, views(prefix@), casing),
{
    match a {
        Attr::Absent => true,
        Attr::Inherit => can_compose(prefix, name.as_str(), casing),
        Attr::Explicit(s) => can_compose(prefix, s.as_str(), casing),
    }
}

fn alias(a: &Attr, name: &String, prefix: &Vec<String>, casing: RenameAll) -> (r: Option<String>)
    requires
        alias_castable(*a, name@, views(prefix@), casing),
    ensures
        opt_view(r) == alias_of(*a, name@, views(prefix@), casing),
{
    match a {
        Attr::Absent => None,
        Attr::Inherit => Some(compose(prefix, name.as_str(), casing)),
        Attr::Explicit(s) => Some(compose(prefix, s.as_str(), casing)),
    }
}

/// Compiles one field under `prefix`.
///
/// The field's type must resolve to a shape. A subcommand field must be a
/// plain type and delegates under the same prefix; a skipped field gives no
/// argument; a flattened field delegates under the prefix extended by its
/// label. A leaf field needs a parse function, an accepted prefix label and
/// a non-empty source for its short alias, and its descriptor names every
/// alias under the prefix with its own casing policy.
pub fn build_field(f: &ClapField, prefix: &Vec<String>) -> (r: Result<FieldPlan, BuildError>)
    ensures
        plan_result_view(r) == field_plan(*f, views(prefix@)),
{
    let ghost pv = views(prefix@);
    let (shape, inner) = match resolve(&f.ty) {
        Ok(x) => x,
        Err(e) => {
            return Err(BuildError::MalformedType(e.type_text));
        },
    };
    if f.subcommand {
        if shape == Shape::Scalar {
            return Ok(FieldPlan::Subcommand(copy_strings(prefix)));
        } else {
            return Err(BuildError::SubcommandNotScalar(f.ty.text.clone()));
        }
    }
    match &f.skip {
        Attr::Absent => {},
        Attr::Inherit => {
            return Ok(FieldPlan::Skip(None));
        },
        Attr::Explicit(s) => {
            return Ok(FieldPlan::Skip(Some(s.clone())));
        },
    }
    match &f.flatten {
        Attr::Absent => {},
        Attr::Inherit => {
            return Ok(FieldPlan::Flatten(copy_strings(prefix)));
        },
        Attr::Explicit(l) => {
            let mut p = copy_strings(prefix);
            p.push(l.clone());
            assert(views(p@) =~= pv.push(l@));
            return Ok(FieldPlan::Flatten(p));
        },
    }
    let accepted = if f.flatten_labels.len() == 0 || prefix.len() == 0 {
        true
    } else {
        let last = prefix.len() - 1;
        assert(pv.last() == prefix@[last as int]@);
        contains_text(&f.flatten_labels, &prefix[last])
    };
    if !accepted {
        return Err(BuildError::NoPrefixLabel);
    }
    let name = match &f.name {
        Some(n) => n.clone(),
        None => f.ident.clone(),
    };
    let castable = can_compose(prefix, name.as_str(), f.rename_all) && can_compose(
        prefix,
        name.as_str(),
        f.rename_all_value,
    ) && alias_can_cast(&f.long, &name, prefix, f.rename_all) && alias_can_cast(
        &f.env,
        &name,
        prefix,
        f.rename_all_env,
    );
    if !castable {
        return Err(BuildError::NonAsciiName(name));
    }
    let kind = match &f.parse {
        Some(p) => p.kind,
        None => if shape == Shape::Bool {
            ParseKind::FromFlag
        } else {
            ParseKind::TryFromStr
        },
    };
    let function = match &f.parse {
        Some(p) => match &p.function {
            Some(s) => s.clone(),
            None => match default_parse_function(p.kind) {
                Some(s) => s,
                None => {
                    return Err(BuildError::NoDefaultParser);
                },
            },
        },
        None => match default_parse_function(kind) {
            Some(s) => s,
            None => {
                return Err(BuildError::NoDefaultParser);
            },
        },
    };
    let short = match &f.short {
        Attr::Absent => None,
        Attr::Inherit => match first_char(&name) {
            Some(c) => Some(c),
            None => {
                return Err(BuildError::EmptyShort(name));
            },
        },
        Attr::Explicit(s) => match first_char(s) {
            Some(c) => Some(c),
            None => {
                return Err(BuildError::EmptyShort(name));
            },
        },
    };
    let validator = if f.arg_enum {
        Validator::ClosedSet(inner.text.clone())
    } else if shape == Shape::Bool {
        Validator::NoCheck
    } else {
        Validator::ParseFunction
    };
    let d = ArgumentDescriptor {
        name: compose(prefix, name.as_str(), f.rename_all),
        short: short,
        long: alias(&f.long, &name, prefix, f.rename_all),
        env: alias(&f.env, &name, prefix, f.rename_all_env),
        value_name: compose(prefix, name.as_str(), f.rename_all_value),
        takes_value: kind != ParseKind::FromFlag,
        shape: shape,
        required: shape == Shape::Scalar && f.default_value.is_none() && kind
            != ParseKind::FromFlag,
        default_value: copy_opt(&f.default_value),
        help: copy_opt(&f.help),
        long_help: copy_opt(&f.long_help),
        parse_kind: kind,
        parse_function: function,
        validator: validator,
    };
    Ok(FieldPlan::Argument(d))
}

} // verus!

verus! {

pub open spec fn plan_views(ps: Seq<FieldPlan>) -> Seq<PlanView> {
    ps.map_values(|p: FieldPlan| p@)
}

pub open spec fn plans_result_view(r: Result<Vec<FieldPlan>, BuildError>) -> Result<
    Seq<PlanView>,
    BuildErrorView,
> {
    match r {
        Ok(ps) => Ok(plan_views(ps@)),
        Err(e) => Err(e@),
    }
}

/// What a list of fields compiles to under `prefix`: every field's plan in
/// order, or the error of the first field that fails.
pub open spec fn fields_plan(fs: Seq<ClapField>, prefix: Seq<Seq<char>>) -> Result<
    Seq<PlanView>,
    BuildErrorView,
>
    decreases fs.len(),
{
    if fs.len() == 0 {
        Ok(seq![])
    } else {
        match fields_plan(fs.drop_last(), prefix) {
            Err(e) => Err(e),
            Ok(ps) => match field_plan(fs.last(), prefix) {
                Ok(p) => Ok(ps.push(p)),
                Err(e) => Err(e),
            },
        }
    }
}

/// Compiles the fields of a schema, in order, under `prefix`.
pub fn augment_fields(fields: &Vec<ClapField>, prefix: &Vec<String>) -> (r: Result<
    Vec<FieldPlan>,
    BuildError,
>)
    ensures
        plans_result_view(r) == fields_plan(fields@, views(prefix@)),
{
    let ghost pv = views(prefix@);
    let mut out: Vec<FieldPlan> = Vec::new();
    let mut i: usize = 0;
    assert(fields@.take(0) =~= Seq::<ClapField>::empty());
    assert(plan_views(out@) =~= Seq::<PlanView>::empty());
    while i < fields.len()
        invariant
            i <= fields@.len(),
            pv == views(prefix@),
            fields_plan(fields@.take(i as int), pv) == Ok::<Seq<PlanView>, BuildErrorView>(
                plan_views(out@),
            ),
        decreases fields@.len() - i,
    {
        let ghost before = out@;
        let p = build_field(&fields[i], prefix);
        assert(fields@.take(i + 1).drop_last() =~= fields@.take(i as int));
        assert(fields@.take(i + 1).last() == fields@[i as int]);
        match p {
            Ok(p) => {
                out.push(p);
                assert(plan_views(out@) =~= plan_views(before).push(out@.last()@));
            },
            Err(e) => {
                proof {
                    lemma_fields_plan_err_extends(fields@, (i + 1) as nat, pv);
                }
                return Err(e);
            },
        }
        i = i + 1;
    }
    assert(fields@.take(fields@.len() as int) =~= fields@);
    Ok(out)
}

proof fn lemma_fields_plan_err_extends(fs: Seq<ClapField>, n: nat, prefix: Seq<Seq<char>>)
    requires
        n <= fs.len(),
        fields_plan(fs.take(n as int), prefix) is Err,
    ensures
        fields_plan(fs, prefix) == fields_plan(fs.take(n as int), prefix),
    decreases fs.len() - n,
{
    if n < fs.len() {
        assert(fs.take((n + 1) as int).drop_last() =~= fs.take(n as int));
        lemma_fields_plan_err_extends(fs, n + 1, prefix);
    } else {
        assert(fs.take(n as int) =~= fs);
    }
}

/// Compiling an unchanged list of fields twice under one prefix gives the
/// same contract: every name, alias, shape and requiredness agrees, or both
/// runs fail with the same error.
pub proof fn lemma_augment_idempotent(
    fields: Seq<ClapField>,
    prefix: Seq<String>,
    first: Result<Vec<FieldPlan>, BuildError>,
    second: Result<Vec<FieldPlan>, BuildError>,
)
    requires
        plans_result_view(first) == fields_plan(fields, views(prefix)),
        plans_result_view(second) == fields_plan(fields, views(prefix)),
    ensures
        plans_result_view(first) == plans_result_view(second),
{
}

} // verus!
