//! The subcommand compiler: a tagged union dispatched by action name.

use crate::common::{contains_text, views};
use crate::extract::MatchError;
use crate::error::{BuildError, BuildErrorView};
use crate::field::{augment_fields, fields_plan, plan_views, ClapField, FieldPlan, PlanView};
use crate::rename::{can_cast, castable, rename, renamed, RenameAll};
use vstd::prelude::*;

verus! {

/// The payload a variant carries.
#[derive(Clone, Copy, Debug, PartialEq, Eq, Structural)]
pub enum ActionKind {
    /// No payload: a bare action.
    Bare,
    /// One struct that brings its own arguments.
    Newtype,
    /// Named fields, compiled inline.
    Inline,
    /// A catch-all that captures the action and every trailing token.
    External,
}

/// One declared variant of a tagged union.
#[derive(Debug)]
pub struct ClapSubcommandVariant {
    pub ident: String,
    pub name: Option<String>,
    pub kind: ActionKind,
    pub skip: bool,
    pub rename_all: RenameAll,
    /// The environment-name policy it gives its inline fields.
    pub rename_all_env: RenameAll,
    /// The value-placeholder policy it gives its inline fields.
    pub rename_all_value: RenameAll,
    /// The named fields of an inline variant; empty for the other kinds.
    pub fields: Vec<ClapField>,
}

/// A declared tagged union.
#[derive(Debug)]
pub struct ClapSubcommand {
    pub ident: String,
    pub variants: Vec<ClapSubcommandVariant>,
}

/// A variant that takes part in dispatch.
#[derive(Debug)]
pub struct DispatchEntry {
    /// Its position among the declared variants.
    pub variant: usize,
    pub ident: String,
    pub name: String,
    pub kind: ActionKind,
}

/// The compiled dispatch of a tagged union.
#[derive(Debug)]
pub struct DispatchContract {
    /// The variants that are not skipped, in declaration order.
    pub entries: Vec<DispatchEntry>,
    /// The names of the skipped variants: no action by these names is
    /// accepted, not even by a catch-all.
    pub reserved: Vec<String>,
}

pub struct EntryView {
    pub variant: int,
    pub ident: Seq<char>,
    pub name: Seq<char>,
    pub kind: ActionKind,
}

pub open spec fn entry_view(e: DispatchEntry) -> EntryView {
    EntryView { variant: e.variant as int, ident: e.ident@, name: e.name@, kind: e.kind }
}

pub open spec fn entry_views(es: Seq<DispatchEntry>) -> Seq<EntryView> {
    es.map_values(|e: DispatchEntry| entry_view(e))
}

/// The action name of a variant: its override, else its identifier cast
/// under its policy.
pub open spec fn variant_name(v: ClapSubcommandVariant) -> Seq<char> {
    match v.name {
        Some(n) => n@,
        None => renamed(v.ident@, v.rename_all),
    }
}

/// The variant's action name can be computed: it is given, or its
/// identifier can be cast.
pub open spec fn name_castable(v: ClapSubcommandVariant) -> bool {
    v.name is Some || castable(v.ident@, v.rename_all)
}

/// The entries of the variants that are not skipped, in order.
pub open spec fn entries_spec(vs: Seq<ClapSubcommandVariant>) -> Seq<EntryView>
    decreases vs.len(),
{
    if vs.len() == 0 {
        seq![]
    } else if vs.last().skip {
        entries_spec(vs.drop_last())
    } else {
        entries_spec(vs.drop_last()).push(
            EntryView {
                variant: vs.len() - 1,
                ident: vs.last().ident@,
                name: variant_name(vs.last()),
                kind: vs.last().kind,
            },
        )
    }
}

/// The names of the skipped variants, in order.
pub open spec fn reserved_spec(vs: Seq<ClapSubcommandVariant>) -> Seq<Seq<char>>
    decreases vs.len(),
{
    if vs.len() == 0 {
        seq![]
    } else if vs.last().skip {
        reserved_spec(vs.drop_last()).push(variant_name(vs.last()))
    } else {
        reserved_spec(vs.drop_last())
    }
}

/// The entry at `k` clashes with an earlier one: two named actions share a
/// name, or a second catch-all follows a first.
pub open spec fn conflicts(es: Seq<EntryView>, k: int) -> bool {
    exists|j: int| 0 <= j < k && clashes(#[trigger] es[j], es[k])
}

/// `later` may not follow `earlier`: both are catch-alls, or both are named
/// actions with one name.
pub open spec fn clashes(earlier: EntryView, later: EntryView) -> bool {
    if later.kind == ActionKind::External {
        earlier.kind == ActionKind::External
    } else {
        earlier.kind != ActionKind::External && earlier.name == later.name
    }
}

/// The error that the clash at `k` gives.
pub open spec fn conflict_error(es: Seq<EntryView>, k: int) -> BuildErrorView {
    if es[k].kind == ActionKind::External {
        BuildErrorView::SecondExternal(es[k].ident)
    } else {
        BuildErrorView::DuplicateSubcommand(es[k].name)
    }
}

fn variant_name_of(v: &ClapSubcommandVariant) -> (r: String)
    requires
        name_castable(*v),
    ensures
        r@ == variant_name(*v),
{
    match &v.name {
        Some(n) => n.clone(),
        None => rename(v.ident.as_str(), v.rename_all),
    }
}

fn first_conflict(es: &Vec<DispatchEntry>) -> (r: Result<(), BuildError>)
    ensures
        match r {
            Ok(_) => forall|k: int| 0 <= k < es@.len() ==> !conflicts(entry_views(es@), k),
            Err(e) => exists|k: int|
                0 <= k < es@.len() && #[trigger] conflicts(entry_views(es@), k) && e@
                    == conflict_error(entry_views(es@), k) && forall|k2: int|
                    0 <= k2 < k ==> !conflicts(entry_views(es@), k2),
        },
{
    let ghost ev = entry_views(es@);
    let mut k: usize = 0;
    while k < es.len()
        invariant
            k <= es@.len(),
            ev == entry_views(es@),
            forall|k2: int| 0 <= k2 < k ==> !conflicts(ev, k2),
        decreases es@.len() - k,
    {
        let ek = &es[k];
        let mut j: usize = 0;
        while j < k
            invariant
                j <= k,
                k < es@.len(),
                ev == entry_views(es@),
                ek == es@[k as int],
                forall|k2: int| 0 <= k2 < k ==> !conflicts(ev, k2),
                forall|j2: int| 0 <= j2 < j ==> !clashes(#[trigger] ev[j2], ev[k as int]),
            decreases k - j,
        {
            let ej = &es[j];
            assert(ev[j as int] == entry_view(es@[j as int]));
            assert(ev[k as int] == entry_view(es@[k as int]));
            let clash = if ek.kind == ActionKind::External {
                ej.kind == ActionKind::External
            } else {
                ej.kind != ActionKind::External && ej.name == ek.name
            };
            if clash {
                assert(ev[j as int] == entry_view(es@[j as int]));
                assert(ev[k as int] == entry_view(es@[k as int]));
                assert(clashes(ev[j as int], ev[k as int]));
                assert(conflicts(ev, k as int));
                let e = if ek.kind == ActionKind::External {
                    BuildError::SecondExternal(ek.ident.clone())
                } else {
                    BuildError::DuplicateSubcommand(ek.name.clone())
                };
                return Err(e);
            }
            j = j + 1;
        }
        assert(!conflicts(ev, k as int));
        k = k + 1;
    }
    Ok(())
}

/// `r` is what compiling the variants gives: the dispatch entries and
/// reserved names, or the error of the first variant whose name cannot be
/// cast, or else of the first clash.
pub open spec fn compiles_to(
    variants: Seq<ClapSubcommandVariant>,
    r: Result<DispatchContract, BuildError>,
) -> bool {
    match r {
        Ok(c) => {
            &&& forall|i: int| 0 <= i < variants.len() ==> name_castable(#[trigger] variants[i])
            &&& entry_views(c.entries@) == entries_spec(variants)
            &&& views(c.reserved@) == reserved_spec(variants)
            &&& forall|k: int| 0 <= k < c.entries@.len() ==> !conflicts(entry_views(c.entries@), k)
        },
        Err(e) => {
            let es = entries_spec(variants);
            ||| exists|i: int|
                {
                    &&& 0 <= i < variants.len()
                    &&& !name_castable(#[trigger] variants[i])
                    &&& e@ == BuildErrorView::NonAsciiName(variants[i].ident@)
                    &&& forall|j: int| 0 <= j < i ==> name_castable(variants[j])
                }
            ||| {
                &&& forall|i: int| 0 <= i < variants.len() ==> name_castable(#[trigger] variants[i])
                &&& exists|k: int|
                    0 <= k < es.len() && #[trigger] conflicts(es, k) && e@ == conflict_error(
                        es,
                        k,
                    ) && forall|k2: int| 0 <= k2 < k ==> !conflicts(es, k2)
            }
        },
    }
}

/// Compiles a tagged union: every variant that is not skipped becomes an
/// entry with its action name, and the skipped ones reserve theirs. Two
/// named actions with one name, or a second catch-all, are declaration
/// errors, reported at the first clash in order.
pub fn compile(variants: &Vec<ClapSubcommandVariant>) -> (r: Result<DispatchContract, BuildError>)
    ensures
        compiles_to(variants@, r),
{
    let mut entries: Vec<DispatchEntry> = Vec::new();
    let mut reserved: Vec<String> = Vec::new();
    let mut i: usize = 0;
    assert(variants@.take(0) =~= Seq::<ClapSubcommandVariant>::empty());
    assert(entry_views(entries@) =~= Seq::<EntryView>::empty());
    assert(views(reserved@) =~= Seq::<Seq<char>>::empty());
    while i < variants.len()
        invariant
            i <= variants@.len(),
            entry_views(entries@) == entries_spec(variants@.take(i as int)),
            views(reserved@) == reserved_spec(variants@.take(i as int)),
            forall|j: int| 0 <= j < i ==> name_castable(#[trigger] variants@[j]),
        decreases variants@.len() - i,
    {
        let ghost eb = entries@;
        let ghost rb = reserved@;
        let v = &variants[i];
        assert(variants@.take(i + 1).drop_last() =~= variants@.take(i as int));
        assert(variants@.take(i + 1).last() == variants@[i as int]);
        if v.name.is_none() && !can_cast(v.ident.as_str(), v.rename_all) {
            assert(!name_castable(variants@[i as int]));
            return Err(BuildError::NonAsciiName(v.ident.clone()));
        }
        let name = variant_name_of(v);
        if v.skip {
            reserved.push(name);
            assert(views(reserved@) =~= views(rb).push(variant_name(variants@[i as int])));
        } else {
            entries.push(DispatchEntry { variant: i, ident: v.ident.clone(), name, kind: v.kind });
            assert(entry_views(entries@) =~= entry_views(eb).push(entry_view(entries@.last())));
        }
        i = i + 1;
    }
    assert(variants@.take(variants@.len() as int) =~= variants@);
    match first_conflict(&entries) {
        Ok(()) => Ok(DispatchContract { entries, reserved }),
        Err(e) => Err(e),
    }
}

} // verus!

verus! {

/// What a matched action selects.
#[derive(Debug, PartialEq, Eq)]
pub enum Selection {
    /// The declared variant at this position, to be built from the nested
    /// match with a fresh prefix.
    Variant(usize),
    /// The catch-all at this position, with the action and every trailing
    /// token.
    External { variant: usize, args: Vec<String> },
}

/// What an update from a new match does to a held value.
#[derive(Debug, PartialEq, Eq)]
pub enum UpdateAction {
    /// No action was given: the value stays.
    Keep,
    /// The held variant was matched again: update its payload in place.
    InPlace(usize),
    /// Another action was matched: replace the value by the selection.
    Replace(Selection),
}

/// The entry at `k` is a named action called `a`.
pub open spec fn named_at(es: Seq<DispatchEntry>, k: int, a: Seq<char>) -> bool {
    es[k].kind != ActionKind::External && es[k].name@ == a
}

/// What `from_match` owes for the action `a` and the trailing tokens: the
/// first named action called `a`; else, unless `a` is reserved, the first
/// catch-all with `a` and the tokens; else the error that names `a`.
pub open spec fn selects(
    c: DispatchContract,
    a: Seq<char>,
    trailing: Seq<String>,
    r: Result<Selection, MatchError>,
) -> bool {
    let es = c.entries@;
    match r {
        Ok(Selection::Variant(v)) => exists|k: int|
            0 <= k < es.len() && #[trigger] named_at(es, k, a) && v == es[k].variant && forall|
                j: int,
            |
                0 <= j < k ==> !named_at(es, j, a),
        Ok(Selection::External { variant, args }) => {
            &&& forall|j: int| 0 <= j < es.len() ==> !named_at(es, j, a)
            &&& !views(c.reserved@).contains(a)
            &&& exists|k: int|
                0 <= k < es.len() && (#[trigger] es[k]).kind == ActionKind::External && variant
                    == es[k].variant && forall|j: int|
                    0 <= j < k ==> es[j].kind != ActionKind::External
            &&& views(args@) == seq![a] + views(trailing)
        },
        Err(e) => {
            &&& e is UnrecognizedSubcommand && e->UnrecognizedSubcommand_0@ == a
            &&& forall|j: int| 0 <= j < es.len() ==> !named_at(es, j, a)
            &&& (views(c.reserved@).contains(a) || forall|j: int|
                0 <= j < es.len() ==> (#[trigger] es[j]).kind != ActionKind::External)
        },
    }
}

impl DispatchContract {
    fn find_named(&self, a: &str) -> (r: Option<usize>)
        ensures
            match r {
                Some(k) => k < self.entries@.len() && named_at(self.entries@, k as int, a@)
                    && forall|j: int| 0 <= j < k ==> !named_at(self.entries@, j, a@),
                None => forall|j: int|
                    0 <= j < self.entries@.len() ==> !named_at(self.entries@, j, a@),
            },
    {
        let target = String::from_str(a);
        let mut k: usize = 0;
        while k < self.entries.len()
            invariant
                k <= self.entries@.len(),
                target@ == a@,
                forall|j: int| 0 <= j < k ==> !named_at(self.entries@, j, a@),
            decreases self.entries@.len() - k,
        {
            let e = &self.entries[k];
            if e.kind != ActionKind::External && e.name == target {
                return Some(k);
            }
            k = k + 1;
        }
        None
    }

    fn find_external(&self) -> (r: Option<usize>)
        ensures
            match r {
                Some(k) => k < self.entries@.len() && self.entries@[k as int].kind
                    == ActionKind::External && forall|j: int|
                    0 <= j < k ==> self.entries@[j].kind != ActionKind::External,
                None => forall|j: int|
                    0 <= j < self.entries@.len() ==> self.entries@[j].kind != ActionKind::External,
            },
    {
        let mut k: usize = 0;
        while k < self.entries.len()
            invariant
                k <= self.entries@.len(),
                forall|j: int| 0 <= j < k ==> self.entries@[j].kind != ActionKind::External,
            decreases self.entries@.len() - k,
        {
            if self.entries[k].kind == ActionKind::External {
                return Some(k);
            }
            k = k + 1;
        }
        None
    }

    /// Selects the variant for a match whose sub-action is `action`, with
    /// `trailing` the raw tokens after it. No sub-action is an error, since
    /// one is required.
    pub fn from_match(&self, action: Option<&str>, trailing: &Vec<String>) -> (r: Result<
        Selection,
        MatchError,
    >)
        ensures
            match action {
                None => r == Err::<Selection, MatchError>(MatchError::MissingSubcommand),
                Some(a) => selects(*self, a@, trailing@, r),
            },
    {
        let a = match action {
            None => {
                return Err(MatchError::MissingSubcommand);
            },
            Some(a) => a,
        };
        if let Some(k) = self.find_named(a) {
            return Ok(Selection::Variant(self.entries[k].variant));
        }
        let target = String::from_str(a);
        if contains_text(&self.reserved, &target) {
            return Err(MatchError::UnrecognizedSubcommand(target));
        }
        match self.find_external() {
            None => Err(MatchError::UnrecognizedSubcommand(target)),
            Some(k) => {
                let mut args: Vec<String> = Vec::new();
                args.push(target);
                let mut i: usize = 0;
                while i < trailing.len()
                    invariant
                        i <= trailing@.len(),
                        views(args@) == seq![a@] + views(trailing@.take(i as int)),
                    decreases trailing@.len() - i,
                {
                    let ghost before = args@;
                    args.push(trailing[i].clone());
                    assert(views(args@) =~= views(before).push(trailing@[i as int]@));
                    proof {
                        let t = trailing@;
                        assert(views(t.take(i + 1)) =~= views(t.take(i as int)).push(t[i as int]@));
                    }
                    i = i + 1;
                    assert(views(args@) =~= seq![a@] + views(trailing@.take(i as int)));
                }
                assert(trailing@.take(trailing@.len() as int) =~= trailing@);
                Ok(Selection::External { variant: self.entries[k].variant, args })
            },
        }
    }

    /// Decides how a held value of variant `held` is updated from a new
    /// match: kept when no action is given, updated in place when the same
    /// named variant is matched, and otherwise replaced by what `from_match`
    /// selects.
    pub fn update_from_match(
        &self,
        held: usize,
        action: Option<&str>,
        trailing: &Vec<String>,
    ) -> (r: Result<UpdateAction, MatchError>)
        ensures
            match action {
                None => r == Ok::<UpdateAction, MatchError>(UpdateAction::Keep),
                Some(a) => match r {
                    Ok(UpdateAction::Keep) => false,
                    Ok(UpdateAction::InPlace(v)) => v == held && selects(
                        *self,
                        a@,
                        trailing@,
                        Ok(Selection::Variant(held)),
                    ),
                    Ok(UpdateAction::Replace(s)) => selects(*self, a@, trailing@, Ok(s)) && !(s
                        == Selection::Variant(held)),
                    Err(e) => selects(*self, a@, trailing@, Err(e)),
                },
            },
    {
        if action.is_none() {
            return Ok(UpdateAction::Keep);
        }
        match self.from_match(action, trailing) {
            Ok(Selection::Variant(v)) => {
                if v == held {
                    Ok(UpdateAction::InPlace(v))
                } else {
                    Ok(UpdateAction::Replace(Selection::Variant(v)))
                }
            },
            Ok(s) => Ok(UpdateAction::Replace(s)),
            Err(e) => Err(e),
        }
    }

    /// Whether a named action (neither skipped nor a catch-all) is called
    /// `name`.
    pub fn has_action(&self, name: &str) -> (r: bool)
        ensures
            r == exists|k: int|
                0 <= k < self.entries@.len() && #[trigger] named_at(self.entries@, k, name@),
    {
        match self.find_named(name) {
            Some(k) => {
                assert(named_at(self.entries@, k as int, name@));
                true
            },
            None => false,
        }
    }
}

} // verus!

verus! {

/// How one sub-action is registered.
#[derive(Debug)]
pub enum SubActionKind {
    /// A bare action without arguments.
    Bare,
    /// The wrapped struct adds its own arguments, under a fresh prefix.
    Args,
    /// The variant's named fields, compiled inline under a fresh prefix.
    Inline(Vec<FieldPlan>),
    /// A bare action that accepts arbitrary trailing tokens.
    External,
}

/// One registered sub-action.
#[derive(Debug)]
pub struct SubAction {
    pub name: String,
    pub kind: SubActionKind,
}

/// What a tagged union adds to a contract.
#[derive(Debug)]
pub struct SubcommandAugment {
    /// One sub-action per variant that is not skipped, in order.
    pub actions: Vec<SubAction>,
    /// Unrecognized leading tokens are tolerated (a catch-all exists).
    pub allow_external: bool,
}

/// A field of an inline variant, given the variant's casing policies.
pub open spec fn in_context(f: ClapField, v: ClapSubcommandVariant) -> ClapField {
    ClapField {
        rename_all: v.rename_all,
        rename_all_env: v.rename_all_env,
        rename_all_value: v.rename_all_value,
        ..f
    }
}

/// The fields of a variant, each given the variant's casing policies.
pub open spec fn variant_fields(v: ClapSubcommandVariant) -> Seq<ClapField> {
    v.fields@.map_values(|f: ClapField| in_context(f, v))
}

/// `a` is the registration of the entry `e` of the variants `vs`.
pub open spec fn action_of(a: SubAction, e: EntryView, vs: Seq<ClapSubcommandVariant>) -> bool {
    &&& a.name@ == e.name
    &&& match e.kind {
        ActionKind::Bare => a.kind is Bare,
        ActionKind::Newtype => a.kind is Args,
        ActionKind::External => a.kind is External,
        ActionKind::Inline => match a.kind {
            SubActionKind::Inline(ps) => {
                let plans = Ok::<Seq<PlanView>, BuildErrorView>(plan_views(ps@));
                plans == fields_plan(variant_fields(vs[e.variant]), seq![])
            },
            _ => false,
        },
    }
}

/// The entry `e` is an inline variant whose fields fail to compile.
pub open spec fn inline_fails(e: EntryView, vs: Seq<ClapSubcommandVariant>) -> bool {
    e.kind == ActionKind::Inline && fields_plan(variant_fields(vs[e.variant]), seq![]) is Err
}

proof fn lemma_entries_in_range(vs: Seq<ClapSubcommandVariant>)
    ensures
        forall|k: int|
            0 <= k < entries_spec(vs).len() ==> 0 <= #[trigger] entries_spec(vs)[k].variant
                < vs.len(),
    decreases vs.len(),
{
    if vs.len() > 0 {
        lemma_entries_in_range(vs.drop_last());
    }
}

/// `r` is what augmenting with the variants gives: one registration per
/// entry, or the error of compiling the dispatch, or else of the first
/// inline variant whose fields fail.
pub open spec fn augments_to(
    variants: Seq<ClapSubcommandVariant>,
    r: Result<SubcommandAugment, BuildError>,
) -> bool {
    let es = entries_spec(variants);
    match r {
        Ok(g) => {
            &&& forall|i: int| 0 <= i < variants.len() ==> name_castable(#[trigger] variants[i])
            &&& forall|k: int| 0 <= k < es.len() ==> !conflicts(es, k)
            &&& g.actions@.len() == es.len()
            &&& forall|k: int|
                0 <= k < es.len() ==> action_of(#[trigger] g.actions@[k], es[k], variants)
            &&& g.allow_external == exists|k: int|
                0 <= k < es.len() && (#[trigger] es[k]).kind == ActionKind::External
        },
        Err(e) => {
            ||| compiles_to(variants, Err(e))
            ||| {
                &&& forall|i: int| 0 <= i < variants.len() ==> name_castable(#[trigger] variants[i])
                &&& forall|k: int| 0 <= k < es.len() ==> !conflicts(es, k)
                &&& exists|k: int|
                    {
                        &&& 0 <= k < es.len()
                        &&& #[trigger] inline_fails(es[k], variants)
                        &&& Err::<Seq<PlanView>, BuildErrorView>(e@) == fields_plan(
                            variant_fields(variants[es[k].variant]),
                            seq![],
                        )
                        &&& forall|k2: int| 0 <= k2 < k ==> !inline_fails(es[k2], variants)
                    }
            }
        },
    }
}

/// The fields of a variant, each given the variant's casing policies.
fn fields_in_context(v: ClapSubcommandVariant) -> (r: Vec<ClapField>)
    ensures
        r@ == variant_fields(v),
{
    let ghost orig = v;
    let ClapSubcommandVariant { fields, rename_all, rename_all_env, rename_all_value, .. } = v;
    let mut rest = fields;
    let mut out: Vec<ClapField> = Vec::new();
    while rest.len() > 0
        invariant
            out@.len() + rest@.len() == orig.fields@.len(),
            rest@ == orig.fields@.skip(out@.len() as int),
            rename_all == orig.rename_all,
            rename_all_env == orig.rename_all_env,
            rename_all_value == orig.rename_all_value,
            out@ == variant_fields(orig).take(out@.len() as int),
        decreases rest@.len(),
    {
        let ghost k = out@.len();
        let mut f = rest.remove(0);
        assert(f == orig.fields@[k as int]);
        f.rename_all = rename_all;
        f.rename_all_env = rename_all_env;
        f.rename_all_value = rename_all_value;
        assert(f == in_context(orig.fields@[k as int], orig));
        out.push(f);
        assert(rest@ =~= orig.fields@.skip(out@.len() as int));
        assert(out@ =~= variant_fields(orig).take(out@.len() as int));
    }
    assert(out@ =~= variant_fields(orig));
    out
}

/// Compiles a tagged union into the sub-actions it registers: a bare action
/// for a variant without payload, a delegation for a newtype variant, the
/// inline compilation of a variant's named fields (in the variant's casing
/// policies), and a bare action that takes trailing tokens for the
/// catch-all, which also lets the whole dispatch tolerate unrecognized
/// tokens. Skipped variants register nothing.
pub fn augment_subcommands(variants: Vec<ClapSubcommandVariant>) -> (r: Result<
    SubcommandAugment,
    BuildError,
>)
    ensures
        augments_to(variants@, r),
{
    let ghost vs = variants@;
    let c = match compile(&variants) {
        Ok(c) => c,
        Err(e) => {
            return Err(e);
        },
    };
    let ghost es = entries_spec(vs);
    proof {
        lemma_entries_in_range(vs);
    }
    let mut rest = variants;
    let mut contexts: Vec<Vec<ClapField>> = Vec::new();
    while rest.len() > 0
        invariant
            vs == variants@,
            contexts@.len() + rest@.len() == vs.len(),
            rest@ == vs.skip(contexts@.len() as int),
            forall|j: int|
                0 <= j < contexts@.len() ==> (#[trigger] contexts@[j])@ == variant_fields(vs[j]),
        decreases rest@.len(),
    {
        let ghost k = contexts@.len();
        let v = rest.remove(0);
        assert(v == vs[k as int]);
        contexts.push(fields_in_context(v));
        assert(rest@ =~= vs.skip(contexts@.len() as int));
    }
    let empty: Vec<String> = Vec::new();
    assert(views(empty@) =~= Seq::<Seq<char>>::empty());
    let mut actions: Vec<SubAction> = Vec::new();
    let mut allow_external = false;
    let mut k: usize = 0;
    while k < c.entries.len()
        invariant
            k <= c.entries@.len(),
            entry_views(c.entries@) == es,
            es == entries_spec(vs),
            vs == variants@,
            contexts@.len() == vs.len(),
            forall|j: int|
                0 <= j < contexts@.len() ==> (#[trigger] contexts@[j])@ == variant_fields(vs[j]),
            forall|i: int| 0 <= i < vs.len() ==> name_castable(#[trigger] vs[i]),
            forall|j: int| 0 <= j < es.len() ==> !conflicts(es, j),
            forall|j: int| 0 <= j < es.len() ==> 0 <= #[trigger] es[j].variant < vs.len(),
            views(empty@) == Seq::<Seq<char>>::empty(),
            actions@.len() == k,
            forall|j: int| 0 <= j < k ==> action_of(#[trigger] actions@[j], es[j], vs),
            forall|j: int| 0 <= j < k ==> !inline_fails(#[trigger] es[j], vs),
            allow_external == exists|j: int|
                0 <= j < k && (#[trigger] es[j]).kind == ActionKind::External,
        decreases c.entries@.len() - k,
    {
        let e = &c.entries[k];
        assert(es[k as int] == entry_view(c.entries@[k as int]));
        let kind = match e.kind {
            ActionKind::Bare => SubActionKind::Bare,
            ActionKind::Newtype => SubActionKind::Args,
            ActionKind::External => {
                allow_external = true;
                SubActionKind::External
            },
            ActionKind::Inline => {
                assert(0 <= es[k as int].variant < vs.len());
                let fields = &contexts[e.variant];
                assert(fields@ == variant_fields(vs[es[k as int].variant]));
                match augment_fields(fields, &empty) {
                    Ok(ps) => SubActionKind::Inline(ps),
                    Err(err) => {
                        assert(inline_fails(es[k as int], vs));
                        assert(Err::<Seq<PlanView>, BuildErrorView>(err@) == fields_plan(
                            variant_fields(vs[es[k as int].variant]),
                            seq![],
                        ));
                        return Err(err);
                    },
                }
            },
        };
        actions.push(SubAction { name: e.name.clone(), kind });
        assert(action_of(actions@[k as int], es[k as int], vs));
        k = k + 1;
    }
    Ok(SubcommandAugment { actions, allow_external })
}

} // verus!

verus! {

impl ClapSubcommand {
    /// Compiles the union's dispatch.
    pub fn compile(&self) -> (r: Result<DispatchContract, BuildError>)
        ensures
            compiles_to(self.variants@, r),
    {
        compile(&self.variants)
    }

    /// The sub-actions the union registers.
    pub fn augment_subcommands(self) -> (r: Result<SubcommandAugment, BuildError>)
        ensures
            augments_to(self.variants@, r),
    {
        augment_subcommands(self.variants)
    }
}

} // verus!
