use std::cmp::Ordering;
use vstd::prelude::*;

use crate::components::{
    components_of, joined, lemma_components_split, lemma_run_len, run_len, starts_with_sep, SEP,
};
use crate::order::{
    cmp_components, lemma_cmp_components_antisym, lemma_cmp_components_equal,
    lemma_cmp_components_trans, reversed,
};

verus! {

/// Every component is non-empty and holds no separator.
pub proof fn law_components_well_formed(s: Seq<char>)
    ensures
        forall|i: int|
            0 <= i < components_of(s).len() ==> #[trigger] components_of(s)[i].len() > 0,
        forall|i: int, k: int|
            0 <= i < components_of(s).len() && 0 <= k < components_of(s)[i].len()
                ==> #[trigger] components_of(s)[i][k] != SEP,
    decreases s.len(),
{
    if s.len() == 0 {
        assert(components_of(s).len() == 0);
    } else {
        if s[0] == SEP {
            law_components_well_formed(s.drop_first());
            assert(components_of(s) == components_of(s.drop_first()));
        } else {
            lemma_run_len(s);
            let n = run_len(s) as int;
            law_components_well_formed(s.skip(n));
            let rest = components_of(s.skip(n));
            assert(components_of(s) == seq![s.take(n)] + rest);
            let c = components_of(s);
            assert forall|i: int| 0 <= i < c.len() implies #[trigger] c[i].len() > 0 by {
                if i > 0 {
                    assert(c[i] == rest[i - 1]);
                }
            }
            assert forall|i: int, k: int| 0 <= i < c.len() && 0 <= k < c[i].len() implies #[trigger] c[i][k]
                != SEP by {
                if i > 0 {
                    assert(c[i] == rest[i - 1]);
                } else {
                    assert(c[i][k] == s[k]);
                }
            }
        }
    }
}

/// Whether `s[start..end]` is a maximal run of non-separator characters of `s`.
pub open spec fn is_maximal_run(s: Seq<char>, start: int, end: int) -> bool {
    &&& 0 <= start < end <= s.len()
    &&& forall|k: int| start <= k < end ==> s[k] != SEP
    &&& start == 0 || s[start - 1] == SEP
    &&& end == s.len() || s[end] == SEP
}

/// Whether `c` is the text of a maximal run of non-separator characters of `s`.
pub open spec fn is_run_of(s: Seq<char>, c: Seq<char>) -> bool {
    exists|start: int, end: int| is_maximal_run(s, start, end) && c == s.subrange(start, end)
}

/// Each component is a maximal run of non-separator characters of the raw
/// text, at some position.
pub proof fn law_components_are_maximal_runs(s: Seq<char>)
    ensures
        forall|i: int|
            0 <= i < components_of(s).len() ==> is_run_of(s, #[trigger] components_of(s)[i]),
    decreases s.len(),
{
    let c = components_of(s);
    if s.len() == 0 {
        assert(c.len() == 0);
    } else if s[0] == SEP {
        let t = s.drop_first();
        law_components_are_maximal_runs(t);
        assert(c == components_of(t));
        assert forall|i: int| 0 <= i < c.len() implies is_run_of(s, #[trigger] c[i]) by {
            assert(is_run_of(t, components_of(t)[i]));
            let (st, en) = choose|st: int, en: int|
                is_maximal_run(t, st, en) && components_of(t)[i] == t.subrange(st, en);
            assert(s.subrange(st + 1, en + 1) =~= t.subrange(st, en));
            assert forall|k: int| st + 1 <= k < en + 1 implies s[k] != SEP by {
                assert(s[k] == t[k - 1]);
            }
            if st > 0 {
                assert(s[st] == t[st - 1]);
            }
            if en < t.len() {
                assert(s[en + 1] == t[en]);
            }
            assert(is_maximal_run(s, st + 1, en + 1));
        }
    } else {
        lemma_run_len(s);
        let n = run_len(s) as int;
        let t = s.skip(n);
        law_components_are_maximal_runs(t);
        law_components_well_formed(t);
        let rest = components_of(t);
        assert(c == seq![s.take(n)] + rest);
        assert forall|i: int| 0 <= i < c.len() implies is_run_of(s, #[trigger] c[i]) by {
            if i == 0 {
                assert(s.take(n) =~= s.subrange(0, n));
                assert(is_maximal_run(s, 0, n));
            } else {
                assert(c[i] == rest[i - 1]);
                assert(is_run_of(t, rest[i - 1]));
                let (st, en) = choose|st: int, en: int|
                    is_maximal_run(t, st, en) && rest[i - 1] == t.subrange(st, en);
                assert(t[st] == rest[i - 1][0]);
                assert(st > 0);
                assert(s.subrange(st + n, en + n) =~= t.subrange(st, en));
                assert(t[st - 1] == s[st + n - 1]);
                assert forall|k: int| st + n <= k < en + n implies s[k] != SEP by {
                    assert(s[k] == t[k - n]);
                }
                if en < t.len() {
                    assert(s[en + n] == t[en]);
                }
                assert(is_maximal_run(s, st + n, en + n));
            }
        }
    }
}

/// A run of separators counts as one: doubling a separator leaves the
/// components unchanged.
pub proof fn law_separator_runs_collapse(a: Seq<char>, b: Seq<char>)
    ensures
        components_of(a + seq![SEP, SEP] + b) == components_of(a + seq![SEP] + b),
{
    lemma_components_split(a, b);
    lemma_components_split(a, seq![SEP] + b);
    assert(a + seq![SEP, SEP] + b =~= a + seq![SEP] + (seq![SEP] + b));
    assert((seq![SEP] + b).drop_first() =~= b);
}

/// Leading and trailing separators yield no empty component: with one added
/// at either end, a path has the same components.
pub proof fn law_edge_separators(s: Seq<char>)
    ensures
        components_of(seq![SEP] + s) == components_of(s),
        components_of(s + seq![SEP]) == components_of(s),
{
    assert((seq![SEP] + s).drop_first() =~= s);
    lemma_components_split(s, seq![]);
    assert(s + seq![SEP] + seq![] =~= s + seq![SEP]);
    assert(components_of(s) + components_of(seq![]) =~= components_of(s));
}

/// Joining a path that does not start with a separator concatenates the
/// component sequences.
pub proof fn law_join_relative(base: Seq<char>, path: Seq<char>)
    requires
        !starts_with_sep(path),
    ensures
        components_of(joined(base, path)) == components_of(base) + components_of(path),
{
    if base.len() == 0 {
        assert(components_of(base) + components_of(path) =~= components_of(path));
    } else {
        lemma_components_split(base, path);
    }
}

/// Joining a path that starts with a separator discards the base.
pub proof fn law_join_absolute(base: Seq<char>, path: Seq<char>)
    requires
        starts_with_sep(path),
    ensures
        components_of(joined(base, path)) == components_of(path),
{
}

/// Pushing the empty path leaves the components unchanged.
pub proof fn law_push_empty(p: Seq<char>)
    ensures
        components_of(joined(p, seq![])) == components_of(p),
{
    law_join_relative(p, seq![]);
    assert(components_of(p) + components_of(seq![]) =~= components_of(p));
}

/// Paths are totally ordered by their component sequences: two paths compare
/// equal exactly when their components are equal, swapping the operands
/// reverses the order, and the order is transitive.
pub proof fn law_total_order(a: Seq<char>, b: Seq<char>, c: Seq<char>)
    ensures
        (cmp_components(components_of(a), components_of(b)) == Ordering::Equal) <==> (
        components_of(a) == components_of(b)),
        cmp_components(components_of(b), components_of(a)) == reversed(
            cmp_components(components_of(a), components_of(b)),
        ),
        cmp_components(components_of(a), components_of(b)) != Ordering::Greater
            && cmp_components(components_of(b), components_of(c)) != Ordering::Greater
            ==> cmp_components(components_of(a), components_of(c)) != Ordering::Greater,
        cmp_components(components_of(a), components_of(b)) == Ordering::Less
            && cmp_components(components_of(b), components_of(c)) != Ordering::Greater
            ==> cmp_components(components_of(a), components_of(c)) == Ordering::Less,
        cmp_components(components_of(a), components_of(b)) != Ordering::Greater
            && cmp_components(components_of(b), components_of(c)) == Ordering::Less
            ==> cmp_components(components_of(a), components_of(c)) == Ordering::Less,
{
    let (x, y, z) = (components_of(a), components_of(b), components_of(c));
    lemma_cmp_components_equal(x, y);
    lemma_cmp_components_equal(y, z);
    lemma_cmp_components_equal(x, z);
    lemma_cmp_components_antisym(x, y);
    if cmp_components(x, y) != Ordering::Greater && cmp_components(y, z) != Ordering::Greater {
        lemma_cmp_components_trans(x, y, z, Ordering::Less);
    }
}

} // verus!
