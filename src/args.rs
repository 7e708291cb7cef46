//! A struct schema: its fields and the naming context it gives them.

use crate::common::{copy_strings, views, VecStringAttr};
use crate::error::{BuildError, BuildErrorView};
use crate::field::{augment_fields, fields_plan, plans_result_view, ClapField, FieldPlan};
use crate::rename::{
    can_cast, castable, default_rename_all, default_rename_all_env, default_rename_all_value,
    rename, renamed, RenameAll,
};
use vstd::prelude::*;

verus! {

/// A declared struct whose fields become arguments.
#[derive(Debug)]
pub struct ClapArgs {
    pub ident: String,
    pub fields: Vec<ClapField>,
    /// The prefix labels under which the struct accepts to be flattened.
    pub flatten: VecStringAttr,
    pub rename_all: RenameAll,
    pub rename_all_env: RenameAll,
    pub rename_all_value: RenameAll,
}

/// `a` is `b` with the naming context `ctx` injected: every declared
/// setting kept, the casing policies and accepted labels taken from `ctx`.
pub open spec fn with_context(a: ClapField, b: ClapField, ctx: ClapArgs) -> bool {
    &&& a.ident == b.ident
    &&& a.ty == b.ty
    &&& a.name == b.name
    &&& a.help == b.help
    &&& a.long_help == b.long_help
    &&& a.short == b.short
    &&& a.long == b.long
    &&& a.env == b.env
    &&& a.flatten == b.flatten
    &&& a.subcommand == b.subcommand
    &&& a.skip == b.skip
    &&& a.arg_enum == b.arg_enum
    &&& a.default_value == b.default_value
    &&& a.parse == b.parse
    &&& views(a.flatten_labels@) == ctx.flatten@
    &&& a.rename_all == ctx.rename_all
    &&& a.rename_all_env == ctx.rename_all_env
    &&& a.rename_all_value == ctx.rename_all_value
}

impl ClapArgs {
    /// The fields, each given the struct's casing policies and accepted
    /// labels.
    pub fn get_fieldstructs(self) -> (r: Vec<ClapField>)
        ensures
            r@.len() == self.fields@.len(),
            forall|i: int|
                0 <= i < r@.len() ==> with_context(#[trigger] r@[i], self.fields@[i], self),
    {
        let ghost orig = self;
        let ClapArgs { ident: _, fields, flatten, rename_all, rename_all_env, rename_all_value } =
            self;
        let mut rest = fields;
        let mut out: Vec<ClapField> = Vec::new();
        let ghost n = rest@.len();
        while rest.len() > 0
            invariant
                out@.len() + rest@.len() == n,
                n == orig.fields@.len(),
                rest@ == orig.fields@.skip(out@.len() as int),
                flatten == orig.flatten,
                rename_all == orig.rename_all,
                rename_all_env == orig.rename_all_env,
                rename_all_value == orig.rename_all_value,
                forall|i: int|
                    0 <= i < out@.len() ==> with_context(#[trigger] out@[i], orig.fields@[i], orig),
            decreases rest@.len(),
        {
            let ghost k = out@.len();
            let mut f = rest.remove(0);
            assert(f == orig.fields@[k as int]);
            f.flatten_labels = copy_strings(&flatten.0);
            f.rename_all = rename_all;
            f.rename_all_env = rename_all_env;
            f.rename_all_value = rename_all_value;
            out.push(f);
            assert(rest@ =~= orig.fields@.skip(out@.len() as int));
        }
        out
    }

    /// Compiles the struct's fields, in their context, under `prefix`.
    pub fn augment_args(self, prefix: &Vec<String>) -> (r: Result<Vec<FieldPlan>, BuildError>)
        ensures
            exists|fs: Seq<ClapField>|
                fs.len() == self.fields@.len() && (forall|i: int|
                    0 <= i < fs.len() ==> with_context(#[trigger] fs[i], self.fields@[i], self))
                    && plans_result_view(r) == fields_plan(fs, views(prefix@)),
    {
        let fields = self.get_fieldstructs();
        augment_fields(&fields, prefix)
    }
}

/// The top-level struct of a command: its name and policies may be left to
/// their defaults.
#[derive(Debug)]
pub struct ClapParser {
    pub ident: String,
    pub name: Option<String>,
    pub fields: Vec<ClapField>,
    pub rename_all: Option<RenameAll>,
    pub rename_all_env: Option<RenameAll>,
    pub rename_all_value: Option<RenameAll>,
}

pub open spec fn policy_or(p: Option<RenameAll>, default: RenameAll) -> RenameAll {
    match p {
        Some(c) => c,
        None => default,
    }
}

impl ClapParser {
    /// The policy for flag and positional names; kebab-case by default.
    pub fn get_rename_all(&self) -> (r: RenameAll)
        ensures
            r == policy_or(self.rename_all, RenameAll::Kebab),
    {
        match self.rename_all {
            Some(c) => c,
            None => default_rename_all(),
        }
    }

    /// The policy for environment names; screaming snake case by default.
    pub fn get_rename_all_env(&self) -> (r: RenameAll)
        ensures
            r == policy_or(self.rename_all_env, RenameAll::ScreamingSnake),
    {
        match self.rename_all_env {
            Some(c) => c,
            None => default_rename_all_env(),
        }
    }

    /// The policy for value placeholders; screaming snake case by default.
    pub fn get_rename_all_value(&self) -> (r: RenameAll)
        ensures
            r == policy_or(self.rename_all_value, RenameAll::ScreamingSnake),
    {
        match self.rename_all_value {
            Some(c) => c,
            None => default_rename_all_value(),
        }
    }

    /// The command's name: its override, else its identifier cast under the
    /// name policy; an identifier that cannot be cast is an error.
    pub fn get_name(&self) -> (r: Result<String, BuildError>)
        ensures
            match self.name {
                Some(n) => r matches Ok(s) && s@ == n@,
                None => {
                    let policy = policy_or(self.rename_all, RenameAll::Kebab);
                    if castable(self.ident@, policy) {
                        r matches Ok(s) && s@ == renamed(self.ident@, policy)
                    } else {
                        r matches Err(e) && e@ == BuildErrorView::NonAsciiName(self.ident@)
                    }
                },
            },
    {
        match &self.name {
            Some(n) => Ok(n.clone()),
            None => {
                let policy = self.get_rename_all();
                if can_cast(self.ident.as_str(), policy) {
                    Ok(rename(self.ident.as_str(), policy))
                } else {
                    Err(BuildError::NonAsciiName(self.ident.clone()))
                }
            },
        }
    }

    /// The command's fields as a struct schema, with the resolved policies
    /// and no prefix labels.
    pub fn to_args(self) -> (r: ClapArgs)
        ensures
            r.ident == self.ident,
            r.fields == self.fields,
            r.flatten@ == Seq::<Seq<char>>::empty(),
            r.rename_all == policy_or(self.rename_all, RenameAll::Kebab),
            r.rename_all_env == policy_or(self.rename_all_env, RenameAll::ScreamingSnake),
            r.rename_all_value == policy_or(self.rename_all_value, RenameAll::ScreamingSnake),
    {
        let rename_all = self.get_rename_all();
        let rename_all_env = self.get_rename_all_env();
        let rename_all_value = self.get_rename_all_value();
        let flatten = VecStringAttr::new(Vec::new());
        assert(flatten@ =~= Seq::<Seq<char>>::empty());
        ClapArgs {
            ident: self.ident,
            fields: self.fields,
            flatten,
            rename_all,
            rename_all_env,
            rename_all_value,
        }
    }
}

} // verus!
