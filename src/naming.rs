//! Composition of argument names from a namespace prefix and a leaf name.

use crate::common::{contains_text, copy_strings, views};
use crate::error::BuildError;
use crate::rename::{ascii_text, rename, renamed, RenameAll};
use vstd::utf8::is_ascii_chars;
use vstd::prelude::*;

verus! {

/// The fragments joined with dashes.
pub open spec fn join_dash(frags: Seq<Seq<char>>) -> Seq<char>
    decreases frags.len(),
{
    if frags.len() == 0 {
        seq![]
    } else if frags.len() == 1 {
        frags[0]
    } else {
        join_dash(frags.drop_last()) + seq!['-'] + frags.last()
    }
}

/// The name before casing: the leaf alone under an empty prefix, else the
/// joined prefix, an underscore and the leaf.
pub open spec fn composed_raw(frags: Seq<Seq<char>>, leaf: Seq<char>) -> Seq<char> {
    if frags.len() == 0 {
        leaf
    } else {
        join_dash(frags) + seq!['_'] + leaf
    }
}

/// The final name of `leaf` under the prefix `frags` and the policy `casing`.
pub open spec fn composed(frags: Seq<Seq<char>>, leaf: Seq<char>, casing: RenameAll) -> Seq<
    char,
> {
    renamed(composed_raw(frags, leaf), casing)
}

fn join_fragments(frags: &Vec<String>) -> (r: String)
    requires
        frags@.len() > 0,
    ensures
        r@ == join_dash(views(frags@)),
{
    let ghost fv = views(frags@);
    let mut r = frags[0].clone();
    assert(fv.take(1) =~= seq![fv[0]]);
    let mut i: usize = 1;
    while i < frags.len()
        invariant
            1 <= i <= frags@.len(),
            fv == views(frags@),
            r@ == join_dash(fv.take(i as int)),
        decreases frags@.len() - i,
    {
        r.append("-");
        r.append(frags[i].as_str());
        proof {
            reveal_strlit("-");
            assert(fv.take(i + 1).drop_last() =~= fv.take(i as int));
        }
        i = i + 1;
    }
    assert(fv.take(frags@.len() as int) =~= fv);
    r
}

/// Whether the name of `leaf` under `frags` can be cast under `casing`:
/// always under the identity, else when every fragment and the leaf are
/// ASCII.
pub open spec fn composable(frags: Seq<Seq<char>>, leaf: Seq<char>, casing: RenameAll) -> bool {
    casing == RenameAll::Verbatim || ((forall|i: int|
        0 <= i < frags.len() ==> is_ascii_chars(#[trigger] frags[i])) && is_ascii_chars(leaf))
}

proof fn lemma_concat_ascii(a: Seq<char>, b: Seq<char>)
    requires
        is_ascii_chars(a),
        is_ascii_chars(b),
    ensures
        is_ascii_chars(a + b),
{
    let ab = a + b;
    assert forall|i: int| 0 <= i < ab.len() implies '\0' <= #[trigger] ab[i] <= '\u{7f}' by {
        if i < a.len() {
            assert(ab[i] == a[i]);
        } else {
            assert(ab[i] == b[i - a.len()]);
        }
    }
}

proof fn lemma_join_ascii(frags: Seq<Seq<char>>)
    requires
        forall|i: int| 0 <= i < frags.len() ==> is_ascii_chars(#[trigger] frags[i]),
    ensures
        is_ascii_chars(join_dash(frags)),
    decreases frags.len(),
{
    if frags.len() == 0 {
        assert(is_ascii_chars(Seq::<char>::empty()));
    } else if frags.len() > 1 {
        let init = frags.drop_last();
        assert forall|i: int| 0 <= i < init.len() implies is_ascii_chars(#[trigger] init[i]) by {
            assert(init[i] == frags[i]);
        }
        lemma_join_ascii(init);
        assert(is_ascii_chars(seq!['-']));
        lemma_concat_ascii(join_dash(init), seq!['-']);
        assert(is_ascii_chars(frags.last()));
        lemma_concat_ascii(join_dash(init) + seq!['-'], frags.last());
    }
}

proof fn lemma_composed_raw_castable(frags: Seq<Seq<char>>, leaf: Seq<char>, casing: RenameAll)
    requires
        composable(frags, leaf, casing),
    ensures
        crate::rename::castable(composed_raw(frags, leaf), casing),
{
    if casing != RenameAll::Verbatim && frags.len() > 0 {
        lemma_join_ascii(frags);
        assert(is_ascii_chars(seq!['_']));
        lemma_concat_ascii(join_dash(frags), seq!['_']);
        lemma_concat_ascii(join_dash(frags) + seq!['_'], leaf);
    }
}

/// Whether the name of `leaf` under `fragments` can be cast under `casing`.
pub fn can_compose(fragments: &Vec<String>, leaf: &str, casing: RenameAll) -> (r: bool)
    ensures
        r == composable(views(fragments@), leaf@, casing),
{
    if casing == RenameAll::Verbatim {
        return true;
    }
    let ghost fv = views(fragments@);
    let mut i: usize = 0;
    while i < fragments.len()
        invariant
            i <= fragments@.len(),
            fv == views(fragments@),
            casing != RenameAll::Verbatim,
            forall|j: int| 0 <= j < i ==> is_ascii_chars(#[trigger] fv[j]),
        decreases fragments@.len() - i,
    {
        if !ascii_text(fragments[i].as_str()) {
            assert(fv[i as int] == fragments@[i as int]@);
            assert(!is_ascii_chars(fv[i as int]));
            assert(!composable(fv, leaf@, casing)) by {
                if composable(fv, leaf@, casing) {
                    assert(is_ascii_chars(fv[i as int]));
                }
            }
            return false;
        }
        i = i + 1;
    }
    ascii_text(leaf)
}

/// The name of `leaf` under the prefix `fragments`, cast under `casing`.
///
/// An empty prefix casts the leaf alone; otherwise the fragments joined with
/// `-`, then `_` and the leaf are cast together, so that one convention
/// covers the whole name. A word convention casts ASCII text only.
pub fn compose(fragments: &Vec<String>, leaf: &str, casing: RenameAll) -> (r: String)
    requires
        composable(views(fragments@), leaf@, casing),
    ensures
        r@ == composed(views(fragments@), leaf@, casing),
{
    proof {
        lemma_composed_raw_castable(views(fragments@), leaf@, casing);
    }
    assert(views(fragments@).len() == fragments@.len());
    assert(fragments@.len() == 0 ==> composed_raw(views(fragments@), leaf@) == leaf@);
    if fragments.len() == 0 {
        rename(leaf, casing)
    } else {
        let mut raw = join_fragments(fragments);
        proof {
            reveal_strlit("_");
        }
        raw.append("_");
        raw.append(leaf);
        assert(raw@ == composed_raw(views(fragments@), leaf@));
        rename(raw.as_str(), casing)
    }
}

/// The prefix below an attachment point: the ancestor prefix, extended by
/// the attachment's own label when it has one.
pub open spec fn attached_prefix(ancestor: Seq<Seq<char>>, label: Option<Seq<char>>) -> Seq<
    Seq<char>,
> {
    match label {
        Some(l) => ancestor.push(l),
        None => ancestor,
    }
}

/// Whether a target that declares the labels `declared` may be attached
/// under `prefix`: it declares none, the prefix is the root, or the prefix's
/// last fragment is one of them.
pub open spec fn label_accepted(prefix: Seq<Seq<char>>, declared: Seq<Seq<char>>) -> bool {
    declared.len() == 0 || prefix.len() == 0 || declared.contains(prefix.last())
}

/// The prefix under which a flattened target names its arguments.
///
/// A target that declares acceptable labels must find the last fragment of
/// that prefix among them; at the root it falls through to unprefixed names.
pub fn resolve_prefix_for_attachment(
    ancestor: &Vec<String>,
    label: &Option<String>,
    declared: &Vec<String>,
) -> (r: Result<Vec<String>, BuildError>)
    ensures
        match r {
            Ok(p) => label_accepted(
                attached_prefix(views(ancestor@), crate::rename::opt_view(*label)),
                views(declared@),
            ) && views(p@) == attached_prefix(
                views(ancestor@),
                crate::rename::opt_view(*label),
            ),
            Err(e) => !label_accepted(
                attached_prefix(views(ancestor@), crate::rename::opt_view(*label)),
                views(declared@),
            ) && e == BuildError::NoPrefixLabel,
        },
{
    let mut p = copy_strings(ancestor);
    match label {
        Some(l) => {
            p.push(l.clone());
            assert(views(p@) =~= views(ancestor@).push(l@));
        },
        None => {
            assert(views(p@) =~= views(ancestor@));
        },
    }
    if declared.len() == 0 || p.len() == 0 {
        return Ok(p);
    }
    let last = p.len() - 1;
    assert(views(p@).last() == p@[last as int]@);
    if contains_text(declared, &p[last]) {
        Ok(p)
    } else {
        Err(BuildError::NoPrefixLabel)
    }
}

/// Under the identity policy and one prefix, distinct leaves give distinct
/// names.
pub proof fn lemma_compose_verbatim_injective(
    frags: Seq<Seq<char>>,
    leaf1: Seq<char>,
    leaf2: Seq<char>,
)
    requires
        leaf1 != leaf2,
    ensures
        composed(frags, leaf1, RenameAll::Verbatim) != composed(frags, leaf2, RenameAll::Verbatim),
{
    if frags.len() > 0 {
        let j = join_dash(frags) + seq!['_'];
        let a = j + leaf1;
        let b = j + leaf2;
        if a == b {
            assert(a.subrange(j.len() as int, a.len() as int) =~= leaf1);
            assert(b.subrange(j.len() as int, b.len() as int) =~= leaf2);
        }
    }
}

/// Text without the separators that composition inserts.
pub open spec fn separator_free(s: Seq<char>) -> bool {
    !s.contains('-') && !s.contains('_')
}

proof fn lemma_split_last(a1: Seq<char>, b1: Seq<char>, a2: Seq<char>, b2: Seq<char>, c: char)
    requires
        a1 + seq![c] + b1 == a2 + seq![c] + b2,
        !b1.contains(c),
        !b2.contains(c),
    ensures
        a1 == a2,
        b1 == b2,
{
    let s = a1 + seq![c] + b1;
    let t = a2 + seq![c] + b2;
    assert(s == t);
    assert(s.len() == a1.len() + 1 + b1.len());
    assert(t.len() == a2.len() + 1 + b2.len());
    if b1.len() < b2.len() {
        let k = a1.len() as int;
        assert(s[k] == c);
        assert(t[k] == b2[k - a2.len() - 1]);
        assert(b2.contains(c));
    } else if b2.len() < b1.len() {
        let k = a2.len() as int;
        assert(t[k] == c);
        assert(s[k] == b1[k - a1.len() - 1]);
        assert(b1.contains(c));
    }
    assert(a1 =~= s.subrange(0, a1.len() as int));
    assert(a2 =~= t.subrange(0, a2.len() as int));
    assert(b1 =~= s.subrange(a1.len() as int + 1, s.len() as int));
    assert(b2 =~= t.subrange(a2.len() as int + 1, t.len() as int));
}

proof fn lemma_split_first(a1: Seq<char>, b1: Seq<char>, a2: Seq<char>, b2: Seq<char>, c: char)
    requires
        a1 + seq![c] + b1 == a2 + seq![c] + b2,
        !a1.contains(c),
        !a2.contains(c),
    ensures
        a1 == a2,
        b1 == b2,
{
    let s = a1 + seq![c] + b1;
    let t = a2 + seq![c] + b2;
    assert(s == t);
    assert(s.len() == a1.len() + 1 + b1.len());
    assert(t.len() == a2.len() + 1 + b2.len());
    if a1.len() < a2.len() {
        let k = a1.len() as int;
        assert(s[k] == c);
        assert(t[k] == a2[k]);
        assert(a2.contains(c));
    } else if a2.len() < a1.len() {
        let k = a2.len() as int;
        assert(t[k] == c);
        assert(s[k] == a1[k]);
        assert(a1.contains(c));
    }
    assert(a1 =~= s.subrange(0, a1.len() as int));
    assert(a2 =~= t.subrange(0, a2.len() as int));
    assert(b1 =~= s.subrange(a1.len() as int + 1, s.len() as int));
    assert(b2 =~= t.subrange(a2.len() as int + 1, t.len() as int));
}

proof fn lemma_join_avoids(frags: Seq<Seq<char>>, c: char)
    requires
        c != '-',
        forall|i: int| 0 <= i < frags.len() ==> !(#[trigger] frags[i]).contains(c),
    ensures
        !join_dash(frags).contains(c),
    decreases frags.len(),
{
    if frags.len() > 1 {
        let init = frags.drop_last();
        assert forall|i: int| 0 <= i < init.len() implies !(#[trigger] init[i]).contains(c) by {
            assert(init[i] == frags[i]);
        }
        lemma_join_avoids(init, c);
        let j = join_dash(frags);
        let a = join_dash(init);
        let b = frags.last();
        assert(j == a + seq!['-'] + b);
        if j.contains(c) {
            let k = choose|k: int| 0 <= k < j.len() && j[k] == c;
            if k < a.len() {
                assert(a[k] == c);
            } else if k > a.len() {
                assert(b[k - a.len() - 1] == c);
            }
        }
    }
}

proof fn lemma_join_injective(f1: Seq<Seq<char>>, f2: Seq<Seq<char>>)
    requires
        f1.len() > 0,
        f2.len() > 0,
        forall|i: int| 0 <= i < f1.len() ==> !(#[trigger] f1[i]).contains('-'),
        forall|i: int| 0 <= i < f2.len() ==> !(#[trigger] f2[i]).contains('-'),
        join_dash(f1) == join_dash(f2),
    ensures
        f1 == f2,
    decreases f1.len(),
{
    let j = join_dash(f1);
    if f1.len() == 1 && f2.len() == 1 {
        assert(f1 =~= f2);
    } else if f1.len() == 1 {
        assert(j == join_dash(f2.drop_last()) + seq!['-'] + f2.last());
        assert(j[join_dash(f2.drop_last()).len() as int] == '-');
        assert(f1[0].contains('-'));
    } else if f2.len() == 1 {
        assert(j == join_dash(f1.drop_last()) + seq!['-'] + f1.last());
        assert(j[join_dash(f1.drop_last()).len() as int] == '-');
        assert(f2[0].contains('-'));
    } else {
        let i1 = f1.drop_last();
        let i2 = f2.drop_last();
        lemma_split_last(join_dash(i1), f1.last(), join_dash(i2), f2.last(), '-');
        assert forall|i: int| 0 <= i < i1.len() implies !(#[trigger] i1[i]).contains('-') by {
            assert(i1[i] == f1[i]);
        }
        assert forall|i: int| 0 <= i < i2.len() implies !(#[trigger] i2[i]).contains('-') by {
            assert(i2[i] == f2[i]);
        }
        lemma_join_injective(i1, i2);
        assert(f1 =~= i1.push(f1.last()));
        assert(f2 =~= i2.push(f2.last()));
    }
}

/// Under the identity policy, two different (prefix, leaf) pairs give two
/// different names, provided no fragment and no leaf holds a `-` or `_`.
/// Without that proviso names can collide: the prefix `["a_b"]` with the
/// leaf `c` and the prefix `["a"]` with the leaf `b_c` both give `a_b_c`.
pub proof fn lemma_compose_verbatim_distinct(
    frags1: Seq<Seq<char>>,
    leaf1: Seq<char>,
    frags2: Seq<Seq<char>>,
    leaf2: Seq<char>,
)
    requires
        forall|i: int| 0 <= i < frags1.len() ==> separator_free(#[trigger] frags1[i]),
        forall|i: int| 0 <= i < frags2.len() ==> separator_free(#[trigger] frags2[i]),
        separator_free(leaf1),
        separator_free(leaf2),
        frags1 != frags2 || leaf1 != leaf2,
    ensures
        composed(frags1, leaf1, RenameAll::Verbatim) != composed(
            frags2,
            leaf2,
            RenameAll::Verbatim,
        ),
{
    let n1 = composed_raw(frags1, leaf1);
    let n2 = composed_raw(frags2, leaf2);
    assert forall|i: int| 0 <= i < frags1.len() implies !(#[trigger] frags1[i]).contains('_')
        && !frags1[i].contains('-') by {
        assert(separator_free(frags1[i]));
    }
    assert forall|i: int| 0 <= i < frags2.len() implies !(#[trigger] frags2[i]).contains('_')
        && !frags2[i].contains('-') by {
        assert(separator_free(frags2[i]));
    }
    if n1 == n2 {
        if frags1.len() > 0 {
            lemma_join_avoids(frags1, '_');
            assert(n1[join_dash(frags1).len() as int] == '_');
        }
        if frags2.len() > 0 {
            lemma_join_avoids(frags2, '_');
            assert(n2[join_dash(frags2).len() as int] == '_');
        }
        if frags1.len() == 0 && frags2.len() == 0 {
            assert(frags1 =~= frags2);
        } else if frags1.len() == 0 {
            assert(leaf1[join_dash(frags2).len() as int] == '_');
            assert(leaf1.contains('_'));
        } else if frags2.len() == 0 {
            assert(leaf2[join_dash(frags1).len() as int] == '_');
            assert(leaf2.contains('_'));
        } else {
            lemma_split_first(join_dash(frags1), leaf1, join_dash(frags2), leaf2, '_');
            lemma_join_injective(frags1, frags2);
        }
    }
}

/// Under the identity policy a composed name is the raw composition itself:
/// the leaf at the root, the dash-joined prefix, `_` and the leaf below it.
pub proof fn lemma_compose_verbatim(frags: Seq<Seq<char>>, leaf: Seq<char>)
    ensures
        frags.len() == 0 ==> composed(frags, leaf, RenameAll::Verbatim) == leaf,
        frags.len() > 0 ==> composed(frags, leaf, RenameAll::Verbatim) == join_dash(frags)
            + seq!['_'] + leaf,
{
}

} // verus!

verus! {

/// One memoized name: the casing, prefix and leaf it was composed from.
#[derive(Debug)]
pub struct CacheEntry {
    pub casing: RenameAll,
    pub prefix: Vec<String>,
    pub leaf: String,
    pub name: String,
}

/// The model of a memoized name.
pub struct CachedName {
    pub casing: RenameAll,
    pub prefix: Seq<Seq<char>>,
    pub leaf: Seq<char>,
    pub name: Seq<char>,
}

pub open spec fn cached_view(e: CacheEntry) -> CachedName {
    CachedName { casing: e.casing, prefix: views(e.prefix@), leaf: e.leaf@, name: e.name@ }
}

/// The memoized name `e` was composed from this key.
pub open spec fn has_key(
    e: CachedName,
    casing: RenameAll,
    prefix: Seq<Seq<char>>,
    leaf: Seq<char>,
) -> bool {
    e.casing == casing && e.prefix == prefix && e.leaf == leaf
}

/// The memo `m` holds a name for the key.
pub open spec fn memo_hit(
    m: Seq<CachedName>,
    casing: RenameAll,
    prefix: Seq<Seq<char>>,
    leaf: Seq<char>,
) -> bool {
    exists|i: int| 0 <= i < m.len() && has_key(#[trigger] m[i], casing, prefix, leaf)
}

/// A memo of composed names, so that one key always yields one stored
/// string. Entries are never invalidated: names derive from immutable schema
/// data.
#[derive(Debug)]
pub struct NameCache {
    entries: Vec<CacheEntry>,
}

impl View for NameCache {
    type V = Seq<CachedName>;

    /// The memoized names, in the order they were recorded.
    closed spec fn view(&self) -> Seq<CachedName> {
        self.entries@.map_values(|e: CacheEntry| cached_view(e))
    }
}

fn same_fragments(a: &Vec<String>, b: &Vec<String>) -> (r: bool)
    ensures
        r == (views(a@) == views(b@)),
{
    if a.len() != b.len() {
        assert(views(a@).len() != views(b@).len());
        return false;
    }
    let mut i: usize = 0;
    while i < a.len()
        invariant
            a@.len() == b@.len(),
            i <= a@.len(),
            forall|j: int| 0 <= j < i ==> a@[j]@ == b@[j]@,
        decreases a@.len() - i,
    {
        if a[i] != b[i] {
            assert(views(a@)[i as int] != views(b@)[i as int]);
            return false;
        }
        i = i + 1;
    }
    assert(views(a@) =~= views(b@));
    true
}

impl NameCache {
    /// Every memoized name is the one its key composes to.
    pub open spec fn wf(&self) -> bool {
        forall|i: int|
            0 <= i < self@.len() ==> (#[trigger] self@[i]).name == composed(
                self@[i].prefix,
                self@[i].leaf,
                self@[i].casing,
            )
    }

    pub fn new() -> (r: Self)
        ensures
            r.wf(),
            r@ == Seq::<CachedName>::empty(),
    {
        let r = NameCache { entries: Vec::new() };
        assert(r@ =~= Seq::<CachedName>::empty());
        r
    }

    /// The name of `leaf` under `prefix` and `casing`. A key the memo holds
    /// is answered from it, and the memo stays as it was; a key it lacks is
    /// composed and recorded at the end.
    pub fn compose(&mut self, prefix: &Vec<String>, leaf: &str, casing: RenameAll) -> (r: String)
        requires
            old(self).wf(),
            composable(views(prefix@), leaf@, casing),
        ensures
            final(self).wf(),
            r@ == composed(views(prefix@), leaf@, casing),
            forall|i: int|
                0 <= i < old(self)@.len() && has_key(
                    #[trigger] old(self)@[i],
                    casing,
                    views(prefix@),
                    leaf@,
                ) ==> r@ == old(self)@[i].name,
            memo_hit(old(self)@, casing, views(prefix@), leaf@) ==> final(self)@ == old(self)@,
            !memo_hit(old(self)@, casing, views(prefix@), leaf@) ==> final(self)@ == old(
                self,
            )@.push(CachedName { casing, prefix: views(prefix@), leaf: leaf@, name: r@ }),
    {
        let key = String::from_str(leaf);
        let mut i: usize = 0;
        while i < self.entries.len()
            invariant
                self.wf(),
                *self == *old(self),
                i <= self@.len(),
                key@ == leaf@,
                self@.len() == self.entries@.len(),
                forall|j: int|
                    0 <= j < i ==> !has_key(#[trigger] self@[j], casing, views(prefix@), leaf@),
            decreases self.entries@.len() - i,
        {
            let e = &self.entries[i];
            assert(self@[i as int] == cached_view(self.entries@[i as int]));
            if e.casing == casing && e.leaf == key && same_fragments(&e.prefix, prefix) {
                assert(has_key(self@[i as int], casing, views(prefix@), leaf@));
                return e.name.clone();
            }
            i = i + 1;
        }
        let ghost before = self@;
        let name = compose(prefix, leaf, casing);
        let e = CacheEntry {
            casing,
            prefix: crate::common::copy_strings(prefix),
            leaf: key,
            name: name.clone(),
        };
        self.entries.push(e);
        let ghost added = CachedName { casing, prefix: views(prefix@), leaf: leaf@, name: name@ };
        assert(self@ =~= before.push(added));
        name
    }
}

} // verus!
