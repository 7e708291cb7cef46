//! Casing conventions and the small string helpers built on them.

use convert_case::{Case, Casing};
use vstd::prelude::*;
use vstd::utf8::is_ascii_chars;

verus! {

/// A word-splitting casing convention, as provided by `convert_case`.
#[derive(Clone, Copy, Debug, PartialEq, Eq, Structural)]
pub enum WordCase {
    Camel,
    Kebab,
    Pascal,
    ScreamingSnake,
    Snake,
    Lower,
    Upper,
}

/// The text that `convert_case` produces for `s` in the convention `case`.
pub uninterp spec fn word_cased(s: Seq<char>, case: WordCase) -> Seq<char>;

/// Relies on `convert_case::Casing::to_case` (for `str`): it splits `s` into
/// words and joins them in the requested convention; the result depends on
/// the text and the convention alone. Its word splitting takes character
/// positions for byte offsets, which is sound only on ASCII text: elsewhere
/// it can panic.
#[verifier::external_body]
fn to_word_case(s: &str, case: WordCase) -> (r: String)
    requires
        is_ascii_chars(s@),
    ensures
        r@ == word_cased(s@, case),
{
    let case = match case {
        WordCase::Camel => Case::Camel,
        WordCase::Kebab => Case::Kebab,
        WordCase::Pascal => Case::Pascal,
        WordCase::ScreamingSnake => Case::ScreamingSnake,
        WordCase::Snake => Case::Snake,
        WordCase::Lower => Case::Lower,
        WordCase::Upper => Case::Upper,
    };
    s.to_case(case)
}

/// A casing policy: one of the word conventions, or the identity.
#[derive(Clone, Copy, Debug, PartialEq, Eq, Structural)]
pub enum RenameAll {
    Camel,
    Kebab,
    Pascal,
    ScreamingSnake,
    Snake,
    Lower,
    Upper,
    Verbatim,
}

impl RenameAll {
    /// The word convention of a policy; `None` for the identity.
    pub open spec fn word_case_spec(self) -> Option<WordCase> {
        match self {
            RenameAll::Camel => Some(WordCase::Camel),
            RenameAll::Kebab => Some(WordCase::Kebab),
            RenameAll::Pascal => Some(WordCase::Pascal),
            RenameAll::ScreamingSnake => Some(WordCase::ScreamingSnake),
            RenameAll::Snake => Some(WordCase::Snake),
            RenameAll::Lower => Some(WordCase::Lower),
            RenameAll::Upper => Some(WordCase::Upper),
            RenameAll::Verbatim => None,
        }
    }

    #[verifier::when_used_as_spec(word_case_spec)]
    pub fn word_case(self) -> (r: Option<WordCase>)
        ensures
            r == self.word_case_spec(),
    {
        match self {
            RenameAll::Camel => Some(WordCase::Camel),
            RenameAll::Kebab => Some(WordCase::Kebab),
            RenameAll::Pascal => Some(WordCase::Pascal),
            RenameAll::ScreamingSnake => Some(WordCase::ScreamingSnake),
            RenameAll::Snake => Some(WordCase::Snake),
            RenameAll::Lower => Some(WordCase::Lower),
            RenameAll::Upper => Some(WordCase::Upper),
            RenameAll::Verbatim => None,
        }
    }
}

/// `s` cast under the policy `casing`.
pub open spec fn renamed(s: Seq<char>, casing: RenameAll) -> Seq<char> {
    match casing.word_case() {
        Some(case) => word_cased(s, case),
        None => s,
    }
}

/// Whether `s` can be cast under `casing`: the identity casts any text,
/// the word conventions ASCII text only.
pub open spec fn castable(s: Seq<char>, casing: RenameAll) -> bool {
    casing == RenameAll::Verbatim || is_ascii_chars(s)
}

/// Whether every character of `s` is ASCII.
pub fn ascii_text(s: &str) -> (r: bool)
    ensures
        r == is_ascii_chars(s@),
{
    let n = s.unicode_len();
    let mut i: usize = 0;
    while i < n
        invariant
            n == s@.len(),
            i <= n,
            forall|j: int| 0 <= j < i ==> '\0' <= #[trigger] s@[j] <= '\u{7f}',
        decreases n - i,
    {
        let c = s.get_char(i);
        if c > '\u{7f}' {
            assert(!('\0' <= s@[i as int] <= '\u{7f}'));
            return false;
        }
        i = i + 1;
    }
    true
}

/// Whether `s` can be cast under `casing`.
pub fn can_cast(s: &str, casing: RenameAll) -> (r: bool)
    ensures
        r == castable(s@, casing),
{
    casing == RenameAll::Verbatim || ascii_text(s)
}

/// Casts `s` under the policy `casing`.
pub fn rename(s: &str, casing: RenameAll) -> (r: String)
    requires
        castable(s@, casing),
    ensures
        r@ == renamed(s@, casing),
{
    match casing.word_case() {
        Some(case) => to_word_case(s, case),
        None => String::from_str(s),
    }
}

/// The default policy for flag and positional names.
pub fn default_rename_all() -> (r: RenameAll)
    ensures
        r == RenameAll::Kebab,
{
    RenameAll::Kebab
}

/// The default policy for environment-variable names.
pub fn default_rename_all_env() -> (r: RenameAll)
    ensures
        r == RenameAll::ScreamingSnake,
{
    RenameAll::ScreamingSnake
}

/// The default policy for value placeholders.
pub fn default_rename_all_value() -> (r: RenameAll)
    ensures
        r == RenameAll::ScreamingSnake,
{
    RenameAll::ScreamingSnake
}

pub fn camel_case(string: String) -> (r: String)
    requires
        is_ascii_chars(string@),
    ensures
        r@ == word_cased(string@, WordCase::Camel),
{
    to_word_case(string.as_str(), WordCase::Camel)
}

pub fn kebab_case(string: String) -> (r: String)
    requires
        is_ascii_chars(string@),
    ensures
        r@ == word_cased(string@, WordCase::Kebab),
{
    to_word_case(string.as_str(), WordCase::Kebab)
}

pub fn pascal_case(string: String) -> (r: String)
    requires
        is_ascii_chars(string@),
    ensures
        r@ == word_cased(string@, WordCase::Pascal),
{
    to_word_case(string.as_str(), WordCase::Pascal)
}

pub fn screaming_snake_case(string: String) -> (r: String)
    requires
        is_ascii_chars(string@),
    ensures
        r@ == word_cased(string@, WordCase::ScreamingSnake),
{
    to_word_case(string.as_str(), WordCase::ScreamingSnake)
}

pub fn snake_case(string: String) -> (r: String)
    requires
        is_ascii_chars(string@),
    ensures
        r@ == word_cased(string@, WordCase::Snake),
{
    to_word_case(string.as_str(), WordCase::Snake)
}

pub fn lower_case(string: String) -> (r: String)
    requires
        is_ascii_chars(string@),
    ensures
        r@ == word_cased(string@, WordCase::Lower),
{
    to_word_case(string.as_str(), WordCase::Lower)
}

pub fn upper_case(string: String) -> (r: String)
    requires
        is_ascii_chars(string@),
    ensures
        r@ == word_cased(string@, WordCase::Upper),
{
    to_word_case(string.as_str(), WordCase::Upper)
}

/// The identity policy: the text is kept as it is.
pub fn verbatim_case(string: String) -> (r: String)
    ensures
        r@ == string@,
{
    string
}

/// `string`, preceded by `prefix` and a dash when a prefix is given.
pub open spec fn prefixed(string: Seq<char>, prefix: Option<Seq<char>>) -> Seq<char> {
    match prefix {
        Some(p) => p + seq!['-'] + string,
        None => string,
    }
}

pub open spec fn opt_view(o: Option<String>) -> Option<Seq<char>> {
    match o {
        Some(s) => Some(s@),
        None => None,
    }
}

pub fn prefix(string: &str, fragment: &Option<String>) -> (r: String)
    ensures
        r@ == prefixed(string@, opt_view(*fragment)),
{
    match fragment {
        Some(p) => {
            let mut r = p.clone();
            r.append("-");
            r.append(string);
            proof {
                reveal_strlit("-");
            }
            r
        },
        None => String::from_str(string),
    }
}

/// The text that `Debug` prints for an optional string (`None`, or `Some`
/// around the quoted and escaped string).
pub uninterp spec fn option_debug_text(o: Option<Seq<char>>) -> Seq<char>;

/// Relies on std's `Debug` for `Option<String>`: its text depends on the
/// value alone.
#[verifier::external_body]
fn debug_text(o: &Option<String>) -> (r: String)
    ensures
        r@ == option_debug_text(opt_view(*o)),
{
    format!("{:?}", o)
}

/// The cache key of a name: its role, the printed prefix and the raw name,
/// separated by `|`.
pub open spec fn cache_key_text(ty: Seq<char>, string: Seq<char>, prefix: Option<Seq<char>>) -> Seq<
    char,
> {
    ty + seq!['|'] + option_debug_text(prefix) + seq!['|'] + string
}

pub fn cache_key(ty: &str, string: &str, fragment: &Option<String>) -> (r: String)
    ensures
        r@ == cache_key_text(ty@, string@, opt_view(*fragment)),
{
    let mut r = String::from_str(ty);
    let d = debug_text(fragment);
    proof {
        reveal_strlit("|");
    }
    r.append("|");
    r.append(d.as_str());
    r.append("|");
    r.append(string);
    r
}

} // verus!
