//! Reading the `next` page address out of a `link` response header.
//!
//! The header is a comma-separated list of entries such as
//! `<https://host/page2>; rel="next"`. An entry names the next page when one
//! of its `;`-separated parameters is exactly ` rel="next"`; its address is
//! the trimmed first part without its first character and without everything
//! from its last `>` on.

use vstd::prelude::*;
use vstd::string::*;
use crate::text::{lemma_split_nonempty, split_char, split_on, trim, trim_str, views};

verus! {

/// The parameter that marks an entry as the next page.
pub open spec fn rel_next() -> Seq<char> {
    " rel=\"next\""@
}

/// The position of the last `c` in `s`, if any.
pub open spec fn last_index_of(s: Seq<char>, c: char) -> Option<int>
    decreases s.len(),
{
    if s.len() == 0 {
        None
    } else if s.last() == c {
        Some(s.len() - 1)
    } else {
        last_index_of(s.drop_last(), c)
    }
}

/// Some parameter after the first part equals ` rel="next"`.
pub open spec fn has_rel_next(bits: Seq<Seq<char>>) -> bool {
    exists|j: int| 1 <= j < bits.len() && bits[j] == rel_next()
}

/// The address an entry gives for the next page, if it gives one.
pub open spec fn entry_target(e: Seq<char>) -> Option<Seq<char>> {
    let bits = split_on(e, ';');
    let t = trim(bits[0]);
    let k = last_index_of(t, '>');
    if k is Some && k->0 >= 1 && has_rel_next(bits) {
        Some(t.subrange(1, k->0))
    } else {
        None
    }
}

/// The address of the first entry that names the next page.
pub open spec fn first_target(entries: Seq<Seq<char>>) -> Option<Seq<char>>
    decreases entries.len(),
{
    if entries.len() == 0 {
        None
    } else if entry_target(entries[0]) is Some {
        entry_target(entries[0])
    } else {
        first_target(entries.drop_first())
    }
}

/// The next-page address that a `link` header gives, if any.
pub open spec fn next_link_of(header: Seq<char>) -> Option<Seq<char>> {
    first_target(split_on(header, ','))
}

proof fn lemma_first_target_none(entries: Seq<Seq<char>>)
    requires
        forall|i: int| 0 <= i < entries.len() ==> !has_rel_next(#[trigger] split_on(entries[i], ';')),
    ensures
        first_target(entries) is None,
    decreases entries.len(),
{
    if entries.len() > 0 {
        assert(!has_rel_next(split_on(entries[0], ';')));
        assert forall|i: int| 0 <= i < entries.drop_first().len() implies !has_rel_next(
            #[trigger] split_on(entries.drop_first()[i], ';'),
        ) by {
            assert(entries.drop_first()[i] == entries[i + 1]);
        }
        lemma_first_target_none(entries.drop_first());
    }
}

/// A header none of whose entries carries the parameter ` rel="next"`
/// names no next page, so the paging loop ends there.
pub proof fn no_next_without_next_relation(header: Seq<char>)
    requires
        forall|i: int|
            0 <= i < split_on(header, ',').len() ==> !has_rel_next(
                #[trigger] split_on(split_on(header, ',')[i], ';'),
            ),
    ensures
        next_link_of(header) is None,
{
    lemma_first_target_none(split_on(header, ','));
}

proof fn lemma_last_index_bounds(s: Seq<char>, c: char)
    ensures
        last_index_of(s, c) matches Some(k) ==> 0 <= k < s.len() && s[k] == c,
    decreases s.len(),
{
    if s.len() > 0 && s.last() != c {
        lemma_last_index_bounds(s.drop_last(), c);
    }
}

fn last_index(s: &str, c: char) -> (r: Option<usize>)
    ensures
        r matches Some(k) ==> last_index_of(s@, c) == Some(k as int),
        r is None ==> last_index_of(s@, c) is None,
{
    let n = s.unicode_len();
    let mut i: usize = n;
    proof {
        assert(s@.subrange(0, n as int) =~= s@);
    }
    while i > 0
        invariant
            n == s@.len(),
            i <= n,
            last_index_of(s@, c) == last_index_of(s@.subrange(0, i as int), c),
        decreases i,
    {
        let ghost t = s@.subrange(0, i as int);
        assert(t.drop_last() =~= s@.subrange(0, i - 1));
        if s.get_char(i - 1) == c {
            return Some(i - 1);
        }
        i = i - 1;
    }
    None
}

/// The next-page address that one entry of a `link` header gives, if any.
pub fn entry_next_link(e: &str) -> (r: Option<String>)
    ensures
        r.deep_view() == entry_target(e@),
{
    let bits = split_char(e, ';');
    proof {
        lemma_split_nonempty(e@, ';');
    }
    let first = trim_str(bits[0].as_str());
    let end = last_index(first, '>');
    match end {
        None => None,
        Some(k) => {
            if k == 0 {
                return None;
            }
            proof {
                lemma_last_index_bounds(first@, '>');
            }
            let marker = String::from_str(" rel=\"next\"");
            let mut j: usize = 1;
            while j < bits.len()
                invariant
                    views(bits@) == split_on(e@, ';'),
                    1 <= j <= bits@.len(),
                    marker@ == rel_next(),
                    1 <= k < first@.len(),
                    first@ == trim(split_on(e@, ';')[0]),
                    last_index_of(first@, '>') == Some(k as int),
                    forall|m: int| 1 <= m < j ==> bits@[m]@ != rel_next(),
                decreases bits@.len() - j,
            {
                if bits[j] == marker {
                    proof {
                        assert(split_on(e@, ';')[j as int] == bits@[j as int]@);
                    }
                    return Some(String::from_str(first.substring_char(1, k)));
                }
                j = j + 1;
            }
            proof {
                assert forall|m: int| 1 <= m < split_on(e@, ';').len() implies split_on(
                    e@,
                    ';',
                )[m] != rel_next() by {
                    assert(split_on(e@, ';')[m] == bits@[m]@);
                }
            }
            None
        },
    }
}

/// The next-page address that a `link` header gives: the address of its
/// first entry whose relation is exactly `next`, or `None` when no entry is.
pub fn next_link(header: &str) -> (r: Option<String>)
    ensures
        r.deep_view() == next_link_of(header@),
{
    let entries = split_char(header, ',');
    let mut i: usize = 0;
    proof {
        assert(views(entries@).subrange(0, entries@.len() as int) =~= views(entries@));
    }
    while i < entries.len()
        invariant
            i <= entries@.len(),
            next_link_of(header@) == first_target(views(entries@).subrange(
                i as int,
                entries@.len() as int,
            )),
        decreases entries@.len() - i,
    {
        let ghost rest = views(entries@).subrange(i as int, entries@.len() as int);
        assert(rest.drop_first() =~= views(entries@).subrange(i + 1, entries@.len() as int));
        assert(rest[0] == entries@[i as int]@);
        let found = entry_next_link(entries[i].as_str());
        if found.is_some() {
            return found;
        }
        i = i + 1;
    }
    None
}

} // verus!
