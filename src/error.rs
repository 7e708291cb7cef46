//! Errors raised while a schema is compiled.

use vstd::prelude::*;

verus! {

/// A declaration error: the schema cannot give a well-formed contract.
#[derive(Debug, PartialEq, Eq)]
pub enum BuildError {
    /// The field's type nests `Option` and `Vec` in a way that no shape
    /// allows; holds the type as written.
    MalformedType(String),
    /// A subcommand field whose type is not a plain type; holds the type.
    SubcommandNotScalar(String),
    /// A flattened target was attached under a prefix whose last fragment
    /// is none of the labels it accepts.
    NoPrefixLabel,
    /// A short alias was asked for, but the text to take it from is empty;
    /// holds the field's name.
    EmptyShort(String),
    /// An arg-enum variant carries fields; holds the variant's identifier.
    ArgEnumPayload(String),
    /// A parse strategy that has no default function was left to inherit.
    NoDefaultParser,
    /// A parse strategy was used before its function was filled in.
    NotDefaulted,
    /// A name that a word convention must cast holds a character outside
    /// ASCII, which casing cannot split; holds the item's identifier or
    /// name.
    NonAsciiName(String),
    /// Two visible subcommands share a name; holds the name.
    DuplicateSubcommand(String),
    /// A second catch-all subcommand was declared; holds its identifier.
    SecondExternal(String),
}

} // verus!

verus! {

/// The model of a `BuildError`, with texts in place of strings.
pub enum BuildErrorView {
    MalformedType(Seq<char>),
    SubcommandNotScalar(Seq<char>),
    NoPrefixLabel,
    EmptyShort(Seq<char>),
    ArgEnumPayload(Seq<char>),
    NoDefaultParser,
    NotDefaulted,
    NonAsciiName(Seq<char>),
    DuplicateSubcommand(Seq<char>),
    SecondExternal(Seq<char>),
}

impl View for BuildError {
    type V = BuildErrorView;

    open spec fn view(&self) -> BuildErrorView {
        match self {
            BuildError::MalformedType(s) => BuildErrorView::MalformedType(s@),
            BuildError::SubcommandNotScalar(s) => BuildErrorView::SubcommandNotScalar(s@),
            BuildError::NoPrefixLabel => BuildErrorView::NoPrefixLabel,
            BuildError::EmptyShort(s) => BuildErrorView::EmptyShort(s@),
            BuildError::ArgEnumPayload(s) => BuildErrorView::ArgEnumPayload(s@),
            BuildError::NoDefaultParser => BuildErrorView::NoDefaultParser,
            BuildError::NotDefaulted => BuildErrorView::NotDefaulted,
            BuildError::NonAsciiName(s) => BuildErrorView::NonAsciiName(s@),
            BuildError::DuplicateSubcommand(s) => BuildErrorView::DuplicateSubcommand(s@),
            BuildError::SecondExternal(s) => BuildErrorView::SecondExternal(s@),
        }
    }
}

} // verus!
