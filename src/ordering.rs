//! Ordering of texts by character (the order of `String`'s comparison,
//! since UTF-8 keeps the order of code points) and sorting definitions by id.

use vstd::prelude::*;

use crate::definition::FilesystemMountDefinition;

verus! {

/// `a` comes before `b` or equals it, character by character.
pub open spec fn text_le(a: Seq<char>, b: Seq<char>) -> bool
    decreases a.len(),
{
    if a.len() == 0 {
        true
    } else if b.len() == 0 {
        false
    } else if a[0] == b[0] {
        text_le(a.drop_first(), b.drop_first())
    } else {
        a[0] < b[0]
    }
}

pub proof fn lemma_text_le_total(a: Seq<char>, b: Seq<char>)
    ensures
        text_le(a, b) || text_le(b, a),
    decreases a.len(),
{
    if a.len() > 0 && b.len() > 0 {
        if a[0] == b[0] {
            lemma_text_le_total(a.drop_first(), b.drop_first());
        }
    }
}

pub proof fn lemma_text_le_transitive(a: Seq<char>, b: Seq<char>, c: Seq<char>)
    requires
        text_le(a, b),
        text_le(b, c),
    ensures
        text_le(a, c),
    decreases a.len(),
{
    if a.len() > 0 && b.len() > 0 && c.len() > 0 && a[0] == b[0] && b[0] == c[0] {
        lemma_text_le_transitive(a.drop_first(), b.drop_first(), c.drop_first());
    }
}

/// Compares two texts character by character.
pub fn text_le_exec(a: &str, b: &str) -> (r: bool)
    ensures
        r == text_le(a@, b@),
{
    let n = a.unicode_len();
    let m = b.unicode_len();
    let mut i: usize = 0;
    proof {
        assert(a@.skip(0) =~= a@);
        assert(b@.skip(0) =~= b@);
    }
    while i < n && i < m
        invariant
            n == a@.len(),
            m == b@.len(),
            i <= n,
            i <= m,
            a@.take(i as int) == b@.take(i as int),
            text_le(a@, b@) == text_le(a@.skip(i as int), b@.skip(i as int)),
        decreases n - i,
    {
        let x = a.get_char(i);
        let y = b.get_char(i);
        if x != y {
            assert(a@.skip(i as int)[0] == x);
            assert(b@.skip(i as int)[0] == y);
            return x < y;
        }
        proof {
            assert(a@.skip(i as int).drop_first() =~= a@.skip(i + 1));
            assert(b@.skip(i as int).drop_first() =~= b@.skip(i + 1));
            assert(a@.take(i + 1) =~= a@.take(i as int).push(x));
            assert(b@.take(i + 1) =~= b@.take(i as int).push(y));
        }
        i = i + 1;
    }
    i == n
}

/// The definitions are ordered by id.
pub open spec fn sorted_by_id(defs: Seq<FilesystemMountDefinition>) -> bool {
    forall|i: int, j: int| 0 <= i < j < defs.len() ==> text_le(#[trigger] defs[i].id@, #[trigger] defs[j].id@)
}

/// The same definitions, ordered by id; definitions with equal ids keep their order.
pub fn sort_by_id(definitions: Vec<FilesystemMountDefinition>) -> (r: Vec<FilesystemMountDefinition>)
    ensures
        r@.to_multiset() == definitions@.to_multiset(),
        sorted_by_id(r@),
{
    let ghost all = definitions@;
    let mut rest = definitions;
    let mut sorted: Vec<FilesystemMountDefinition> = Vec::new();
    proof {
        assert(all.subrange(0, 0) =~= Seq::<FilesystemMountDefinition>::empty());
        assert(rest@ =~= all.subrange(0, all.len() as int));
    }
    while rest.len() > 0
        invariant
            sorted@.len() + rest@.len() == all.len(),
            rest@ == all.subrange(sorted@.len() as int, all.len() as int),
            sorted@.to_multiset() == all.subrange(0, sorted@.len() as int).to_multiset(),
            sorted_by_id(sorted@),
        decreases rest@.len(),
    {
        let ghost done = sorted@.len() as int;
        let x = rest.remove(0);
        proof {
            assert(all.subrange(0, done + 1) =~= all.subrange(0, done).push(x));
        }
        let mut p: usize = 0;
        while p < sorted.len() && text_le_exec(sorted[p].id.as_str(), x.id.as_str())
            invariant
                p <= sorted@.len(),
                forall|k: int| 0 <= k < p ==> text_le(#[trigger] sorted@[k].id@, x.id@),
            decreases sorted@.len() - p,
        {
            p = p + 1;
        }
        let ghost before = sorted@;
        sorted.insert(p, x);
        proof {
            assert(sorted@ == before.insert(p as int, x));
            vstd::seq_lib::to_multiset_insert(before, p as int, x);
            vstd::seq_lib::to_multiset_build(all.subrange(0, done), x);
            assert forall|i: int, j: int| 0 <= i < j < sorted@.len() implies text_le(
                #[trigger] sorted@[i].id@,
                #[trigger] sorted@[j].id@,
            ) by {
                if p < before.len() {
                    assert(!text_le(before[p as int].id@, x.id@));
                    lemma_text_le_total(before[p as int].id@, x.id@);
                }
                if j < p {
                    assert(sorted@[i] == before[i] && sorted@[j] == before[j]);
                } else if j == p {
                    assert(sorted@[i] == before[i]);
                } else if i == p {
                    assert(sorted@[j] == before[j - 1]);
                    if j - 1 > p {
                        lemma_text_le_transitive(x.id@, before[p as int].id@, before[j - 1].id@);
                    }
                } else if i < p {
                    assert(sorted@[i] == before[i] && sorted@[j] == before[j - 1]);
                } else {
                    assert(sorted@[i] == before[i - 1] && sorted@[j] == before[j - 1]);
                }
            }
            assert(rest@ =~= all.subrange(sorted@.len() as int, all.len() as int));
        }
    }
    proof {
        assert(all.subrange(0, all.len() as int) =~= all);
    }
    sorted
}

} // verus!
