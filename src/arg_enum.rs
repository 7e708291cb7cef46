//! The arg-enum compiler: a closed set of variants mapped to display
//! strings and back.

use crate::error::{BuildError, BuildErrorView};
use crate::rename::{can_cast, castable, opt_view, rename, renamed, RenameAll};
use vstd::prelude::*;

verus! {

/// One declared variant of an arg-enum.
#[derive(Debug)]
pub struct ClapArgEnumVariant {
    pub ident: String,
    /// The variant carries fields, which an arg-enum does not allow.
    pub has_fields: bool,
    pub help: Option<String>,
    /// Left out of the display list and of matching, though still a variant.
    pub hidden: bool,
}

/// A declared arg-enum: its variants and the casing of their display
/// strings.
#[derive(Debug)]
pub struct ClapArgEnum {
    pub ident: String,
    pub variants: Vec<ClapArgEnumVariant>,
    pub rename_all: RenameAll,
}

/// One compiled variant: its position, display string and help.
#[derive(Debug)]
pub struct EnumEntry {
    pub tag: usize,
    pub display: String,
    pub help: Option<String>,
    pub hidden: bool,
}

/// The compiled mapping between variants and display strings.
#[derive(Debug)]
pub struct EnumContract {
    pub entries: Vec<EnumEntry>,
}

/// An input that matches no visible display string.
#[derive(Debug, PartialEq, Eq)]
pub struct InvalidEnumValue {
    pub input: String,
}

/// The entry that compiling `v`, the variant at `i`, gives.
pub open spec fn entry_of(e: EnumEntry, v: ClapArgEnumVariant, i: int, casing: RenameAll) -> bool {
    &&& e.tag == i
    &&& e.display@ == renamed(v.ident@, casing)
    &&& opt_view(e.help) == opt_view(v.help)
    &&& e.hidden == v.hidden
}

/// A variant that cannot be compiled: it carries fields, or its identifier
/// cannot be cast.
pub open spec fn variant_refused(v: ClapArgEnumVariant, casing: RenameAll) -> bool {
    v.has_fields || !castable(v.ident@, casing)
}

/// The error that a refused variant gives.
pub open spec fn refusal(v: ClapArgEnumVariant) -> BuildErrorView {
    if v.has_fields {
        BuildErrorView::ArgEnumPayload(v.ident@)
    } else {
        BuildErrorView::NonAsciiName(v.ident@)
    }
}

/// `r` is what compiling `variants` under `casing` gives: the entries in
/// declaration order, or the error of the first variant that is refused.
pub open spec fn compiles_to(
    variants: Seq<ClapArgEnumVariant>,
    casing: RenameAll,
    r: Result<EnumContract, BuildError>,
) -> bool {
    match r {
        Ok(c) => {
            &&& forall|i: int| 0 <= i < variants.len() ==> !variant_refused(variants[i], casing)
            &&& c.entries@.len() == variants.len()
            &&& forall|i: int|
                0 <= i < variants.len() ==> entry_of(
                    #[trigger] c.entries@[i],
                    variants[i],
                    i,
                    casing,
                )
        },
        Err(e) => exists|i: int|
            0 <= i < variants.len() && variant_refused(#[trigger] variants[i], casing) && e@
                == refusal(variants[i]) && forall|j: int|
                0 <= j < i ==> !variant_refused(variants[j], casing),
    }
}

/// Compiles the variants in declaration order, casting each identifier
/// under `casing`. A variant with fields, or whose identifier cannot be
/// cast, is a declaration error naming the first such variant.
pub fn compile(variants: &Vec<ClapArgEnumVariant>, casing: RenameAll) -> (r: Result<
    EnumContract,
    BuildError,
>)
    ensures
        compiles_to(variants@, casing, r),
{
    let mut entries: Vec<EnumEntry> = Vec::new();
    let mut i: usize = 0;
    while i < variants.len()
        invariant
            i <= variants@.len(),
            entries@.len() == i,
            forall|j: int| 0 <= j < i ==> !variant_refused(variants@[j], casing),
            forall|j: int|
                0 <= j < i ==> entry_of(#[trigger] entries@[j], variants@[j], j, casing),
        decreases variants@.len() - i,
    {
        let v = &variants[i];
        if v.has_fields {
            let e = BuildError::ArgEnumPayload(v.ident.clone());
            assert(variant_refused(variants@[i as int], casing));
            return Err(e);
        }
        if !can_cast(v.ident.as_str(), casing) {
            let e = BuildError::NonAsciiName(v.ident.clone());
            assert(variant_refused(variants@[i as int], casing));
            return Err(e);
        }
        let help = match &v.help {
            Some(h) => Some(h.clone()),
            None => None,
        };
        entries.push(
            EnumEntry { tag: i, display: rename(v.ident.as_str(), casing), help, hidden: v.hidden },
        );
        i = i + 1;
    }
    Ok(EnumContract { entries })
}

/// The display strings of the visible entries, in declaration order.
pub open spec fn visible_displays(es: Seq<EnumEntry>) -> Seq<Seq<char>>
    decreases es.len(),
{
    if es.len() == 0 {
        seq![]
    } else if es.last().hidden {
        visible_displays(es.drop_last())
    } else {
        visible_displays(es.drop_last()).push(es.last().display@)
    }
}

pub open spec fn is_ascii_upper(c: char) -> bool {
    'A' <= c && c <= 'Z'
}

/// Two characters are equal, or, when case is ignored, equal up to ASCII
/// case.
pub open spec fn chars_match(a: char, b: char, ignore_case: bool) -> bool {
    ||| a == b
    ||| (ignore_case && is_ascii_upper(a) && b as u32 == a as u32 + 32)
    ||| (ignore_case && is_ascii_upper(b) && a as u32 == b as u32 + 32)
}

pub open spec fn texts_match(a: Seq<char>, b: Seq<char>, ignore_case: bool) -> bool {
    a.len() == b.len() && forall|k: int| 0 <= k < a.len() ==> chars_match(a[k], b[k], ignore_case)
}

fn char_matches(a: char, b: char, ignore_case: bool) -> (r: bool)
    ensures
        r == chars_match(a, b, ignore_case),
{
    if a == b {
        return true;
    }
    if !ignore_case {
        return false;
    }
    let x = a as u32;
    let y = b as u32;
    ('A' <= a && a <= 'Z' && y == x + 32) || ('A' <= b && b <= 'Z' && x == y + 32)
}

fn text_matches(a: &str, b: &str, ignore_case: bool) -> (r: bool)
    ensures
        r == texts_match(a@, b@, ignore_case),
{
    let n = a.unicode_len();
    if n != b.unicode_len() {
        return false;
    }
    let mut k: usize = 0;
    while k < n
        invariant
            n == a@.len(),
            n == b@.len(),
            k <= n,
            forall|j: int| 0 <= j < k ==> chars_match(a@[j], b@[j], ignore_case),
        decreases n - k,
    {
        if !char_matches(a.get_char(k), b.get_char(k), ignore_case) {
            return false;
        }
        k = k + 1;
    }
    true
}

/// Whether the entry at `i` answers to `input`.
pub open spec fn answers(es: Seq<EnumEntry>, i: int, input: Seq<char>, ignore_case: bool) -> bool {
    !es[i].hidden && texts_match(es[i].display@, input, ignore_case)
}

impl ClapArgEnum {
    /// Compiles the declared variants under the enum's casing.
    pub fn compile(&self) -> (r: Result<EnumContract, BuildError>)
        ensures
            compiles_to(self.variants@, self.rename_all, r),
    {
        compile(&self.variants, self.rename_all)
    }
}

impl EnumContract {
    /// The display strings of the visible variants, in declaration order.
    pub fn all_values(&self) -> (r: Vec<String>)
        ensures
            crate::common::views(r@) == visible_displays(self.entries@),
    {
        let mut out: Vec<String> = Vec::new();
        let mut i: usize = 0;
        assert(self.entries@.take(0) =~= Seq::<EnumEntry>::empty());
        while i < self.entries.len()
            invariant
                i <= self.entries@.len(),
                crate::common::views(out@) == visible_displays(self.entries@.take(i as int)),
            decreases self.entries@.len() - i,
        {
            let ghost before = out@;
            let e = &self.entries[i];
            assert(self.entries@.take(i + 1).drop_last() =~= self.entries@.take(i as int));
            if !e.hidden {
                out.push(e.display.clone());
                assert(crate::common::views(out@) =~= crate::common::views(before).push(
                    e.display@,
                ));
            }
            i = i + 1;
        }
        assert(self.entries@.take(self.entries@.len() as int) =~= self.entries@);
        out
    }

    /// The tag of the first visible entry whose display string matches
    /// `input`, exactly or, with `ignore_case`, up to ASCII case; an error
    /// that holds the input when there is none.
    pub fn match_by_display_string(&self, input: &str, ignore_case: bool) -> (r: Result<
        usize,
        InvalidEnumValue,
    >)
        ensures
            match r {
                Ok(tag) => exists|i: int|
                    0 <= i < self.entries@.len() && #[trigger] answers(
                        self.entries@,
                        i,
                        input@,
                        ignore_case,
                    ) && tag == self.entries@[i].tag && forall|j: int|
                        0 <= j < i ==> !answers(self.entries@, j, input@, ignore_case),
                Err(e) => e.input@ == input@ && forall|j: int|
                    0 <= j < self.entries@.len() ==> !#[trigger] answers(
                        self.entries@,
                        j,
                        input@,
                        ignore_case,
                    ),
            },
    {
        let mut i: usize = 0;
        while i < self.entries.len()
            invariant
                i <= self.entries@.len(),
                forall|j: int| 0 <= j < i ==> !answers(self.entries@, j, input@, ignore_case),
            decreases self.entries@.len() - i,
        {
            let e = &self.entries[i];
            if !e.hidden && text_matches(e.display.as_str(), input, ignore_case) {
                assert(answers(self.entries@, i as int, input@, ignore_case));
                return Ok(e.tag);
            }
            i = i + 1;
        }
        Err(InvalidEnumValue { input: String::from_str(input) })
    }
}

} // verus!
