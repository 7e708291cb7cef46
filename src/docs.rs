//! Help texts from documentation lines: the short help before the first
//! blank line, the long help after it.

use crate::common::views;
use crate::rename::opt_view;
use vstd::prelude::*;

verus! {

/// The lines joined with newlines.
pub open spec fn join_lines(lines: Seq<Seq<char>>) -> Seq<char>
    decreases lines.len(),
{
    if lines.len() == 0 {
        seq![]
    } else if lines.len() == 1 {
        lines[0]
    } else {
        join_lines(lines.drop_last()) + seq!['\n'] + lines.last()
    }
}

/// The position of the first blank line, or the number of lines.
pub open spec fn first_blank(lines: Seq<Seq<char>>) -> int
    decreases lines.len(),
{
    if lines.len() == 0 {
        0
    } else if lines[0].len() == 0 {
        0
    } else {
        1 + first_blank(lines.drop_first())
    }
}

/// The joined lines, or `None` when there are none.
pub open spec fn joined_or_none(lines: Seq<Seq<char>>) -> Option<Seq<char>> {
    if lines.len() == 0 {
        None
    } else {
        Some(join_lines(lines))
    }
}

/// The short help: the lines before the first blank one.
pub open spec fn short_doc(lines: Seq<Seq<char>>) -> Option<Seq<char>> {
    joined_or_none(lines.take(first_blank(lines)))
}

/// The long help: every line after the first blank one.
pub open spec fn long_doc(lines: Seq<Seq<char>>) -> Option<Seq<char>> {
    if first_blank(lines) < lines.len() {
        joined_or_none(lines.skip(first_blank(lines) + 1))
    } else {
        None
    }
}

proof fn lemma_first_blank(lines: Seq<Seq<char>>)
    ensures
        0 <= first_blank(lines) <= lines.len(),
        forall|j: int| 0 <= j < first_blank(lines) ==> lines[j].len() > 0,
        first_blank(lines) < lines.len() ==> lines[first_blank(lines)].len() == 0,
    decreases lines.len(),
{
    if lines.len() > 0 && lines[0].len() > 0 {
        let rest = lines.drop_first();
        lemma_first_blank(rest);
        assert forall|j: int| 0 <= j < first_blank(lines) implies lines[j].len() > 0 by {
            if j > 0 {
                assert(lines[j] == rest[j - 1]);
            }
        }
    }
}

fn join_range(lines: &Vec<String>, from: usize, to: usize) -> (r: Option<String>)
    requires
        from <= to <= lines@.len(),
    ensures
        opt_view(r) == joined_or_none(views(lines@).subrange(from as int, to as int)),
{
    let ghost lv = views(lines@);
    if from == to {
        return None;
    }
    let mut r = lines[from].clone();
    assert(lv.subrange(from as int, from + 1) =~= seq![lv[from as int]]);
    let mut i: usize = from + 1;
    while i < to
        invariant
            from < i <= to,
            to <= lines@.len(),
            lv == views(lines@),
            r@ == join_lines(lv.subrange(from as int, i as int)),
        decreases to - i,
    {
        r.append("\n");
        r.append(lines[i].as_str());
        proof {
            reveal_strlit("\n");
            assert(lv.subrange(from as int, i + 1).drop_last() =~= lv.subrange(
                from as int,
                i as int,
            ));
        }
        i = i + 1;
    }
    Some(r)
}

/// Splits documentation lines into the short help (the lines before the
/// first blank line, joined with newlines) and the long help (every line
/// after it); each is `None` when it has no lines.
pub fn get_docs_short_long(lines: &Vec<String>) -> (r: (Option<String>, Option<String>))
    ensures
        opt_view(r.0) == short_doc(views(lines@)),
        opt_view(r.1) == long_doc(views(lines@)),
{
    let ghost lv = views(lines@);
    proof {
        lemma_first_blank(lv);
    }
    let mut k: usize = 0;
    while k < lines.len() && lines[k].as_str().unicode_len() > 0
        invariant
            k <= lines@.len(),
            lv == views(lines@),
            k <= first_blank(lv),
            0 <= first_blank(lv) <= lv.len(),
            forall|j: int| 0 <= j < first_blank(lv) ==> lv[j].len() > 0,
            first_blank(lv) < lv.len() ==> lv[first_blank(lv)].len() == 0,
        decreases lines@.len() - k,
    {
        assert(lv[k as int] == lines@[k as int]@);
        k = k + 1;
    }
    assert(k == first_blank(lv)) by {
        if k < lines@.len() {
            assert(lv[k as int] == lines@[k as int]@);
        }
    }
    assert(lv.take(k as int) =~= lv.subrange(0, k as int));
    let short = join_range(lines, 0, k);
    let long = if k < lines.len() {
        assert(lv.skip(k + 1) =~= lv.subrange(k + 1, lv.len() as int));
        join_range(lines, k + 1, lines.len())
    } else {
        None
    };
    (short, long)
}

/// The help texts of an item: each explicit text wins over the one taken
/// from its documentation lines.
pub fn help_texts(help: &Option<String>, long_help: &Option<String>, lines: &Vec<String>) -> (r: (
    Option<String>,
    Option<String>,
))
    ensures
        opt_view(r.0) == match help {
            Some(h) => Some(h@),
            None => short_doc(views(lines@)),
        },
        opt_view(r.1) == match long_help {
            Some(h) => Some(h@),
            None => long_doc(views(lines@)),
        },
{
    let (doc_short, doc_long) = get_docs_short_long(lines);
    let short = match help {
        Some(h) => Some(h.clone()),
        None => doc_short,
    };
    let long = match long_help {
        Some(h) => Some(h.clone()),
        None => doc_long,
    };
    (short, long)
}

} // verus!
