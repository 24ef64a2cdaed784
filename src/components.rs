use vstd::prelude::*;

verus! {

/// The separator of path components, on every platform.
pub const SEP: char = '/';

/// Whether the path text `s` starts with a separator.
pub open spec fn starts_with_sep(s: Seq<char>) -> bool {
    s.len() > 0 && s[0] == SEP
}

/// The text of `base` joined with `path`: `path` alone when it starts with a
/// separator or when `base` is empty; otherwise `base`, one separator, then `path`.
pub open spec fn joined(base: Seq<char>, path: Seq<char>) -> Seq<char> {
    if starts_with_sep(path) || base.len() == 0 {
        path
    } else {
        base + seq![SEP] + path
    }
}

/// The length of the run of non-separator characters at the start of `s`.
pub open spec fn run_len(s: Seq<char>) -> nat
    decreases s.len(),
{
    if s.len() == 0 || s[0] == SEP {
        0
    } else {
        1 + run_len(s.drop_first())
    }
}

/// The components of the path text `s`: its maximal non-empty runs of
/// non-separator characters, in order. Separators, repeated or not, only
/// delimit; they never yield an empty component.
pub open spec fn components_of(s: Seq<char>) -> Seq<Seq<char>>
    decreases s.len(),
{
    if s.len() == 0 {
        seq![]
    } else if s[0] == SEP {
        components_of(s.drop_first())
    } else {
        proof {
            lemma_run_len(s);
        }
        seq![s.take(run_len(s) as int)] + components_of(s.skip(run_len(s) as int))
    }
}

/// `run_len(s)` is the index of the first separator of `s`, or its length.
pub proof fn lemma_run_len(s: Seq<char>)
    ensures
        run_len(s) <= s.len(),
        s.len() > 0 && s[0] != SEP ==> run_len(s) > 0,
        forall|k: int| 0 <= k < run_len(s) ==> s[k] != SEP,
        run_len(s) < s.len() ==> s[run_len(s) as int] == SEP,
    decreases s.len(),
{
    if s.len() > 0 && s[0] != SEP {
        lemma_run_len(s.drop_first());
        assert forall|k: int| 0 <= k < run_len(s) implies s[k] != SEP by {
            if k > 0 {
                assert(s[k] == s.drop_first()[k - 1]);
            }
        }
    }
}

/// A run that ends at the first separator (or at the end) has length `run_len`.
proof fn lemma_run_len_is(s: Seq<char>, n: int)
    requires
        0 <= n <= s.len(),
        forall|k: int| 0 <= k < n ==> s[k] != SEP,
        n == s.len() || s[n] == SEP,
    ensures
        run_len(s) == n,
    decreases n,
{
    if n > 0 {
        lemma_run_len_is(s.drop_first(), n - 1);
    }
}

/// A separator between two texts splits the components exactly there: those
/// of `a`, then those of `b`.
pub proof fn lemma_components_split(a: Seq<char>, b: Seq<char>)
    ensures
        components_of(a + seq![SEP] + b) == components_of(a) + components_of(b),
    decreases a.len(),
{
    let s = a + seq![SEP] + b;
    if a.len() == 0 {
        assert(s.drop_first() =~= b);
        assert(components_of(a) + components_of(b) =~= components_of(b));
    } else if a[0] == SEP {
        assert(s.drop_first() =~= a.drop_first() + seq![SEP] + b);
        lemma_components_split(a.drop_first(), b);
    } else {
        lemma_run_len(a);
        let n = run_len(a) as int;
        assert forall|k: int| 0 <= k < n implies s[k] != SEP by {
            assert(s[k] == a[k]);
        }
        lemma_run_len_is(s, n);
        assert(s.take(n) =~= a.take(n));
        assert(s.skip(n) =~= a.skip(n) + seq![SEP] + b);
        lemma_components_split(a.skip(n), b);
        assert(components_of(s) =~= components_of(a) + components_of(b));
    }
}

/// Iterator over the components of a path, from first to last.
#[derive(Debug)]
pub struct Components<'a> {
    source: &'a str,
    len: usize,
    pos: usize,
}

impl<'a> View for Components<'a> {
    type V = Seq<Seq<char>>;

    /// The components not yet handed out.
    closed spec fn view(&self) -> Seq<Seq<char>> {
        components_of(self.source@.skip(self.pos as int))
    }
}

impl<'a> Clone for Components<'a> {
    /// An iterator at the same place.
    fn clone(&self) -> (r: Components<'a>)
        ensures
            r@ == self@,
    {
        self.fork()
    }
}

impl<'a> Components<'a> {
    #[verifier::type_invariant]
    spec fn inv(self) -> bool {
        &&& self.len == self.source@.len()
        &&& self.pos <= self.len
    }

    /// An iterator over all the components of `source`.
    pub fn new(source: &'a str) -> (r: Components<'a>)
        ensures
            r@ == components_of(source@),
    {
        let len = source.unicode_len();
        let r = Components { source, len, pos: 0 };
        assert(source@.skip(0) =~= source@);
        r
    }

    /// Hands out the next component, or `None` once all have been.
    pub fn next(&mut self) -> (r: Option<&'a str>)
        ensures
            old(self)@.len() == 0 ==> r is None && final(self)@ == old(self)@,
            old(self)@.len() > 0 ==> r is Some && r->0@ == old(self)@[0] && final(self)@
                == old(self)@.drop_first(),
    {
        proof {
            use_type_invariant(&*self);
        }
        let ghost s = self.source@;
        let mut i: usize = self.pos;
        while i < self.len && self.source.get_char(i) == SEP
            invariant
                self.len == s.len(),
                self.source@ == s,
                self.pos <= i <= self.len,
                components_of(s.skip(self.pos as int)) == components_of(s.skip(i as int)),
            decreases self.len - i,
        {
            proof {
                assert(s.skip(i as int).drop_first() =~= s.skip(i + 1));
            }
            i = i + 1;
        }
        if i == self.len {
            proof {
                assert(s.skip(i as int) =~= seq![]);
            }
            self.pos = i;
            return None;
        }
        let start = i;
        while i < self.len && self.source.get_char(i) != SEP
            invariant
                self.len == s.len(),
                self.source@ == s,
                start <= i <= self.len,
                forall|k: int| start <= k < i ==> s[k] != SEP,
            decreases self.len - i,
        {
            i = i + 1;
        }
        proof {
            let t = s.skip(start as int);
            lemma_run_len_is(t, i - start);
            assert(t.take(i - start) =~= s.subrange(start as int, i as int));
            assert(t.skip(i - start) =~= s.skip(i as int));
        }
        self.pos = i;
        Some(self.source.substring_char(start, i))
    }

    /// A second iterator at the same place as this one.
    pub fn fork(&self) -> (r: Components<'a>)
        ensures
            r@ == self@,
    {
        proof {
            use_type_invariant(self);
        }
        Components { source: self.source, len: self.len, pos: self.pos }
    }

    /// All the components not yet handed out, in order.
    pub fn collect(self) -> (r: Vec<&'a str>)
        ensures
            r@.len() == self@.len(),
            forall|k: int| 0 <= k < r@.len() ==> #[trigger] r@[k]@ == self@[k],
    {
        let mut it = self;
        let mut out: Vec<&'a str> = Vec::new();
        loop
            invariant
                out@.len() + it@.len() == self@.len(),
                forall|k: int| 0 <= k < out@.len() ==> #[trigger] out@[k]@ == self@[k],
                forall|k: int| 0 <= k < it@.len() ==> #[trigger] it@[k] == self@[out@.len() + k],
            decreases it@.len(),
        {
            match it.next() {
                Some(c) => {
                    out.push(c);
                },
                None => {
                    return out;
                },
            }
        }
    }
}

} // verus!
