use std::cmp::Ordering;
use vstd::prelude::*;
use vstd::std_specs::cmp::PartialEqSpecImpl;

use crate::components::Components;

verus! {

/// Lexicographic order of two texts, character by character (by code point);
/// a proper prefix comes first.
pub open spec fn cmp_chars(a: Seq<char>, b: Seq<char>) -> Ordering
    decreases a.len(),
{
    if a.len() == 0 {
        if b.len() == 0 {
            Ordering::Equal
        } else {
            Ordering::Less
        }
    } else if b.len() == 0 {
        Ordering::Greater
    } else if a[0] < b[0] {
        Ordering::Less
    } else if a[0] > b[0] {
        Ordering::Greater
    } else {
        cmp_chars(a.drop_first(), b.drop_first())
    }
}

/// Lexicographic order of two component sequences, each pair of components
/// compared by `cmp_chars`; a proper prefix comes first.
pub open spec fn cmp_components(a: Seq<Seq<char>>, b: Seq<Seq<char>>) -> Ordering
    decreases a.len(),
{
    if a.len() == 0 {
        if b.len() == 0 {
            Ordering::Equal
        } else {
            Ordering::Less
        }
    } else if b.len() == 0 {
        Ordering::Greater
    } else {
        match cmp_chars(a[0], b[0]) {
            Ordering::Equal => cmp_components(a.drop_first(), b.drop_first()),
            o => o,
        }
    }
}

/// The order with its arguments swapped.
pub open spec fn reversed(o: Ordering) -> Ordering {
    match o {
        Ordering::Less => Ordering::Greater,
        Ordering::Equal => Ordering::Equal,
        Ordering::Greater => Ordering::Less,
    }
}

pub proof fn lemma_cmp_chars_equal(a: Seq<char>, b: Seq<char>)
    ensures
        (cmp_chars(a, b) == Ordering::Equal) <==> (a == b),
    decreases a.len(),
{
    if a.len() == 0 && b.len() == 0 {
        assert(a =~= b);
    }
    if a.len() > 0 && b.len() > 0 && a[0] == b[0] {
        lemma_cmp_chars_equal(a.drop_first(), b.drop_first());
        if a.drop_first() == b.drop_first() {
            assert(a =~= seq![a[0]] + a.drop_first());
            assert(b =~= seq![b[0]] + b.drop_first());
        }
    }
}

pub proof fn lemma_cmp_chars_antisym(a: Seq<char>, b: Seq<char>)
    ensures
        cmp_chars(b, a) == reversed(cmp_chars(a, b)),
    decreases a.len(),
{
    if a.len() > 0 && b.len() > 0 && a[0] == b[0] {
        lemma_cmp_chars_antisym(a.drop_first(), b.drop_first());
    }
}

pub proof fn lemma_cmp_chars_trans(a: Seq<char>, b: Seq<char>, c: Seq<char>, o: Ordering)
    requires
        o != Ordering::Equal,
        cmp_chars(a, b) == o || cmp_chars(a, b) == Ordering::Equal,
        cmp_chars(b, c) == o || cmp_chars(b, c) == Ordering::Equal,
    ensures
        cmp_chars(a, c) == o || (cmp_chars(a, b) == Ordering::Equal && cmp_chars(b, c)
            == Ordering::Equal),
    decreases a.len(),
{
    lemma_cmp_chars_equal(a, b);
    lemma_cmp_chars_equal(b, c);
    if a.len() > 0 && b.len() > 0 && c.len() > 0 && a[0] == b[0] && b[0] == c[0] {
        lemma_cmp_chars_trans(a.drop_first(), b.drop_first(), c.drop_first(), o);
    }
}

pub proof fn lemma_cmp_components_equal(a: Seq<Seq<char>>, b: Seq<Seq<char>>)
    ensures
        (cmp_components(a, b) == Ordering::Equal) <==> (a == b),
    decreases a.len(),
{
    if a.len() == 0 && b.len() == 0 {
        assert(a =~= b);
    }
    if a.len() > 0 && b.len() > 0 {
        lemma_cmp_chars_equal(a[0], b[0]);
        if a[0] == b[0] {
            lemma_cmp_components_equal(a.drop_first(), b.drop_first());
            if a.drop_first() == b.drop_first() {
                assert(a =~= seq![a[0]] + a.drop_first());
                assert(b =~= seq![b[0]] + b.drop_first());
            }
        }
    }
}

pub proof fn lemma_cmp_components_antisym(a: Seq<Seq<char>>, b: Seq<Seq<char>>)
    ensures
        cmp_components(b, a) == reversed(cmp_components(a, b)),
    decreases a.len(),
{
    if a.len() > 0 && b.len() > 0 {
        lemma_cmp_chars_antisym(a[0], b[0]);
        lemma_cmp_components_antisym(a.drop_first(), b.drop_first());
    }
}

pub proof fn lemma_cmp_components_trans(
    a: Seq<Seq<char>>,
    b: Seq<Seq<char>>,
    c: Seq<Seq<char>>,
    o: Ordering,
)
    requires
        o != Ordering::Equal,
        cmp_components(a, b) == o || cmp_components(a, b) == Ordering::Equal,
        cmp_components(b, c) == o || cmp_components(b, c) == Ordering::Equal,
    ensures
        cmp_components(a, c) == o || (cmp_components(a, b) == Ordering::Equal
            && cmp_components(b, c) == Ordering::Equal),
    decreases a.len(),
{
    lemma_cmp_components_equal(a, b);
    lemma_cmp_components_equal(b, c);
    if a.len() > 0 && b.len() > 0 && c.len() > 0 {
        lemma_cmp_chars_equal(a[0], b[0]);
        lemma_cmp_chars_equal(b[0], c[0]);
        lemma_cmp_chars_trans(a[0], b[0], c[0], o);
        if a[0] == b[0] && b[0] == c[0] {
            lemma_cmp_components_trans(a.drop_first(), b.drop_first(), c.drop_first(), o);
        }
    }
}

/// Compares two texts character by character.
pub fn compare_str(a: &str, b: &str) -> (r: Ordering)
    ensures
        r == cmp_chars(a@, b@),
{
    let la = a.unicode_len();
    let lb = b.unicode_len();
    let mut i: usize = 0;
    assert(a@.skip(0) =~= a@ && b@.skip(0) =~= b@);
    while i < la && i < lb
        invariant
            la == a@.len(),
            lb == b@.len(),
            i <= la && i <= lb,
            cmp_chars(a@, b@) == cmp_chars(a@.skip(i as int), b@.skip(i as int)),
        decreases la - i,
    {
        let x = a.get_char(i);
        let y = b.get_char(i);
        if x < y {
            return Ordering::Less;
        } else if x > y {
            return Ordering::Greater;
        }
        assert(a@.skip(i as int).drop_first() =~= a@.skip(i + 1));
        assert(b@.skip(i as int).drop_first() =~= b@.skip(i + 1));
        i = i + 1;
    }
    if i == la {
        if i == lb {
            Ordering::Equal
        } else {
            Ordering::Less
        }
    } else {
        Ordering::Greater
    }
}

/// Compares what is left of two component iterators, consuming both.
pub fn compare_components(a: Components, b: Components) -> (r: Ordering)
    ensures
        r == cmp_components(a@, b@),
{
    let mut left = a;
    let mut right = b;
    loop
        invariant
            cmp_components(a@, b@) == cmp_components(left@, right@),
        decreases left@.len(),
    {
        match (left.next(), right.next()) {
            (None, None) => {
                return Ordering::Equal;
            },
            (None, Some(_)) => {
                return Ordering::Less;
            },
            (Some(_), None) => {
                return Ordering::Greater;
            },
            (Some(x), Some(y)) => {
                match compare_str(x, y) {
                    Ordering::Equal => {},
                    Ordering::Less => {
                        return Ordering::Less;
                    },
                    Ordering::Greater => {
                        return Ordering::Greater;
                    },
                }
            },
        }
    }
}

impl<'a> PartialEq for Components<'a> {
    /// Whether both iterators have the same components left, in the same order.
    fn eq(&self, other: &Components<'a>) -> (r: bool) {
        let o = compare_components(self.fork(), other.fork());
        proof {
            lemma_cmp_components_equal(self@, other@);
        }
        match o {
            Ordering::Equal => true,
            _ => false,
        }
    }
}

impl<'a> PartialEqSpecImpl for Components<'a> {
    open spec fn obeys_eq_spec() -> bool {
        true
    }

    open spec fn eq_spec(&self, other: &Components<'a>) -> bool {
        self@ == other@
    }
}

} // verus!
