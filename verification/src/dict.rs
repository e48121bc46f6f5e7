use vstd::prelude::*;

verus! {

/// Strict lexicographic order on strings, by code point; the order `str`'s
/// own comparison realizes.
pub open spec fn lex_lt(a: Seq<char>, b: Seq<char>) -> bool
    decreases a.len(),
{
    if b.len() == 0 {
        false
    } else if a.len() == 0 {
        true
    } else if a[0] != b[0] {
        (a[0] as u32) < (b[0] as u32)
    } else {
        lex_lt(a.skip(1), b.skip(1))
    }
}

/// The order is asymmetric: of two distinct strings at most one precedes the
/// other, and no string precedes itself.
pub proof fn lemma_lex_asym(a: Seq<char>, b: Seq<char>)
    requires
        lex_lt(a, b),
    ensures
        !lex_lt(b, a),
        a != b,
    decreases a.len(),
{
    if a.len() > 0 && b.len() > 0 && a[0] == b[0] {
        lemma_lex_asym(a.skip(1), b.skip(1));
        if a == b {
            assert(a.skip(1) =~= b.skip(1));
        }
    } else {
        if a == b {
            assert(a.len() == b.len());
        }
    }
}

/// The order is total: two strings are ordered one way, the other way, or
/// equal.
pub proof fn lemma_lex_trichotomy(a: Seq<char>, b: Seq<char>)
    ensures
        lex_lt(a, b) || lex_lt(b, a) || a == b,
    decreases a.len(),
{
    if a.len() == 0 || b.len() == 0 {
        if a.len() == 0 && b.len() == 0 {
            assert(a =~= b);
        }
    } else if a[0] == b[0] {
        lemma_lex_trichotomy(a.skip(1), b.skip(1));
        if a.skip(1) == b.skip(1) {
            assert(a =~= seq![a[0]] + a.skip(1));
            assert(b =~= seq![b[0]] + b.skip(1));
        }
    } else {
        vstd::utf8::char_u32_cast(a[0], a[0] as u32);
        vstd::utf8::char_u32_cast(b[0], b[0] as u32);
        assert((a[0] as u32) != (b[0] as u32));
    }
}

/// The order is transitive.
pub proof fn lemma_lex_trans(a: Seq<char>, b: Seq<char>, c: Seq<char>)
    requires
        lex_lt(a, b),
        lex_lt(b, c),
    ensures
        lex_lt(a, c),
    decreases a.len(),
{
    if a.len() > 0 && b.len() > 0 && c.len() > 0 && a[0] == b[0] && b[0] == c[0] {
        lemma_lex_trans(a.skip(1), b.skip(1), c.skip(1));
    }
}

/// Relies on `str`'s `PartialOrd`: strings compare lexicographically by
/// byte, which for UTF-8 text is lexicographically by code point.
#[verifier::external_body]
fn str_lt(a: &String, b: &String) -> (r: bool)
    ensures
        r == lex_lt(a@, b@),
{
    a < b
}

/// Whether an entry sequence is sorted strictly by key: keys are unique and
/// iteration order is lexicographic.
pub open spec fn spec_dict_sorted(s: Seq<(Seq<char>, Seq<char>)>) -> bool {
    forall|i: int, j: int| 0 <= i < j < s.len() ==> lex_lt(#[trigger] s[i].0, #[trigger] s[j].0)
}

/// A key/value pair inserted into a sorted entry sequence: an existing key's
/// value is replaced, a new key takes its ordered place.
pub open spec fn spec_dict_insert(
    s: Seq<(Seq<char>, Seq<char>)>,
    k: Seq<char>,
    v: Seq<char>,
) -> Seq<(Seq<char>, Seq<char>)>
    decreases s.len(),
{
    if s.len() == 0 {
        seq![(k, v)]
    } else if k == s[0].0 {
        seq![(k, v)] + s.skip(1)
    } else if lex_lt(k, s[0].0) {
        seq![(k, v)] + s
    } else {
        seq![s[0]] + spec_dict_insert(s.skip(1), k, v)
    }
}

/// Every key of an insertion's result is the inserted key or one of the old
/// keys.
proof fn lemma_insert_keys(s: Seq<(Seq<char>, Seq<char>)>, k: Seq<char>, v: Seq<char>)
    ensures
        forall|j: int|
            0 <= j < spec_dict_insert(s, k, v).len() ==> (#[trigger] spec_dict_insert(s, k, v)[j]).0
                == k || exists|m: int| 0 <= m < s.len() && (#[trigger] s[m]).0 == spec_dict_insert(
                s,
                k,
                v,
            )[j].0,
    decreases s.len(),
{
    if s.len() == 0 || k == s[0].0 || lex_lt(k, s[0].0) {
    } else {
        lemma_insert_keys(s.skip(1), k, v);
        let out = spec_dict_insert(s, k, v);
        let rec = spec_dict_insert(s.skip(1), k, v);
        assert forall|j: int|
            0 <= j < out.len() implies (#[trigger] out[j]).0 == k || exists|m: int|
            0 <= m < s.len() && (#[trigger] s[m]).0 == out[j].0 by {
            if j > 0 {
                assert(out[j] == rec[j - 1]);
                if rec[j - 1].0 != k {
                    let m = choose|m: int| 0 <= m < s.skip(1).len() && (#[trigger] s.skip(1)[m]).0
                        == rec[j - 1].0;
                    assert(s[m + 1].0 == out[j].0);
                }
            } else {
                assert(s[0].0 == out[0].0);
            }
        }
    }
}

/// Insertion keeps the entry sequence sorted.
proof fn lemma_insert_sorted(s: Seq<(Seq<char>, Seq<char>)>, k: Seq<char>, v: Seq<char>)
    requires
        spec_dict_sorted(s),
    ensures
        spec_dict_sorted(spec_dict_insert(s, k, v)),
    decreases s.len(),
{
    let out = spec_dict_insert(s, k, v);
    if s.len() == 0 {
    } else if k == s[0].0 {
        assert forall|i: int, j: int|
            0 <= i < j < out.len() implies lex_lt(#[trigger] out[i].0, #[trigger] out[j].0) by {
            assert(out[j] == s[j]);
            if i > 0 {
                assert(out[i] == s[i]);
            } else {
                assert(lex_lt(s[0].0, s[j].0));
            }
        }
    } else if lex_lt(k, s[0].0) {
        assert forall|i: int, j: int|
            0 <= i < j < out.len() implies lex_lt(#[trigger] out[i].0, #[trigger] out[j].0) by {
            assert(out[j] == s[j - 1]);
            if i > 0 {
                assert(out[i] == s[i - 1]);
            } else if j > 1 {
                lemma_lex_trans(k, s[0].0, s[j - 1].0);
            }
        }
    } else {
        lemma_lex_trichotomy(k, s[0].0);
        assert(lex_lt(s[0].0, k));
        lemma_insert_sorted(s.skip(1), k, v);
        lemma_insert_keys(s.skip(1), k, v);
        let rec = spec_dict_insert(s.skip(1), k, v);
        assert forall|i: int, j: int|
            0 <= i < j < out.len() implies lex_lt(#[trigger] out[i].0, #[trigger] out[j].0) by {
            if i > 0 {
                assert(out[i] == rec[i - 1]);
                assert(out[j] == rec[j - 1]);
                assert(spec_dict_sorted(rec));
            } else {
                assert(out[j] == rec[j - 1]);
                if rec[j - 1].0 == k {
                } else {
                    let m = choose|m: int|
                        0 <= m < s.skip(1).len() && (#[trigger] s.skip(1)[m]).0 == rec[j - 1].0;
                    assert(s.skip(1)[m] == s[m + 1]);
                    assert(lex_lt(s[0].0, s[m + 1].0));
                }
            }
        }
    }
}

/// Key/value string data with stable, lexicographic iteration order: an
/// association list sorted strictly by key.
pub struct DictData {
    pub entries: Vec<(String, String)>,
}

impl View for DictData {
    type V = Seq<(Seq<char>, Seq<char>)>;

    open spec fn view(&self) -> Seq<(Seq<char>, Seq<char>)> {
        self.entries.deep_view()
    }
}

impl DictData {
    /// Well-formedness: the entries are sorted strictly by key.
    pub open spec fn wf(self) -> bool {
        spec_dict_sorted(self@)
    }

    /// Creates an empty dictionary.
    pub fn new() -> (r: Self)
        ensures
            r@ == Seq::<(Seq<char>, Seq<char>)>::empty(),
            r.wf(),
    {
        let r = Self { entries: Vec::new() };
        proof {
            assert(r@ =~= Seq::<(Seq<char>, Seq<char>)>::empty());
        }
        r
    }

    /// The number of entries.
    pub fn len(&self) -> (r: usize)
        ensures
            r == self@.len(),
    {
        self.entries.len()
    }

    /// Inserts a key/value pair: an existing key's value is replaced, a new
    /// key takes its ordered place.
    pub fn insert(&mut self, key: String, value: String)
        requires
            old(self).wf(),
        ensures
            final(self)@ == spec_dict_insert(old(self)@, key@, value@),
            final(self).wf(),
    {
        let ghost s = self@;
        let n: usize = self.entries.len();
        let mut out: Vec<(String, String)> = Vec::new();
        proof {
            assert(out.deep_view() =~= s.take(0));
        }
        let mut p: usize = 0;
        while p < n && str_lt(&self.entries[p].0, &key)
            invariant
                s == self@,
                self.entries.len() == n,
                s.len() == n,
                p <= n,
                out.deep_view() == s.take(p as int),
                forall|j: int| 0 <= j < p ==> lex_lt(#[trigger] s[j].0, key@),
            decreases n - p,
        {
            let ghost done = out.deep_view();
            let e = &self.entries[p];
            let pair = (e.0.clone(), e.1.clone());
            let ghost pairv = pair.deep_view();
            proof {
                assert(s[p as int] == (s[p as int].0, s[p as int].1));
                assert(pairv == s[p as int]);
            }
            out.push(pair);
            proof {
                assert(out.deep_view() =~= done.push(pairv));
                assert(out.deep_view() =~= s.take(p as int + 1));
            }
            p = p + 1;
        }
        let replace = p < n && self.entries[p].0 == key;
        let lo: usize = if replace {
            p + 1
        } else {
            p
        };
        out.push((key, value));
        let ghost mid = out.deep_view();
        proof {
            assert(mid =~= s.take(p as int) + seq![(key@, value@)]);
            assert(s.subrange(lo as int, lo as int) =~= Seq::<(Seq<char>, Seq<char>)>::empty());
            assert(mid + s.subrange(lo as int, lo as int) =~= mid);
        }
        let mut q: usize = lo;
        while q < n
            invariant
                s == self@,
                self.entries.len() == n,
                s.len() == n,
                lo <= q <= n,
                out.deep_view() == mid + s.subrange(lo as int, q as int),
            decreases n - q,
        {
            let ghost done = out.deep_view();
            let e = &self.entries[q];
            let pair = (e.0.clone(), e.1.clone());
            let ghost pairv = pair.deep_view();
            proof {
                assert(s[q as int] == (s[q as int].0, s[q as int].1));
                assert(pairv == s[q as int]);
            }
            out.push(pair);
            proof {
                assert(out.deep_view() =~= done.push(pairv));
                assert(s.subrange(lo as int, q as int + 1) =~= s.subrange(
                    lo as int,
                    q as int,
                ).push(s[q as int]));
                assert(out.deep_view() =~= mid + s.subrange(lo as int, q as int + 1));
            }
            q = q + 1;
        }
        proof {
            assert(s.subrange(lo as int, n as int) =~= s.skip(lo as int));
            assert(mid + s.skip(lo as int) =~= s.take(p as int) + seq![(key@, value@)] + s.skip(
                lo as int,
            ));
            lemma_insert_split(s, key@, value@, p as int);
            lemma_insert_sorted(s, key@, value@);
        }
        self.entries = out;
    }
}

/// Insertion splits at the first position whose key does not precede the
/// inserted key.
proof fn lemma_insert_split(s: Seq<(Seq<char>, Seq<char>)>, k: Seq<char>, v: Seq<char>, p: int)
    requires
        0 <= p <= s.len(),
        forall|j: int| 0 <= j < p ==> lex_lt(#[trigger] s[j].0, k),
        p < s.len() ==> !lex_lt(s[p].0, k),
    ensures
        spec_dict_insert(s, k, v) == if p < s.len() && s[p].0 == k {
            s.take(p) + seq![(k, v)] + s.skip(p + 1)
        } else {
            s.take(p) + seq![(k, v)] + s.skip(p)
        },
    decreases p,
{
    if p == 0 {
        if s.len() == 0 {
            assert(spec_dict_insert(s, k, v) =~= s.take(0) + seq![(k, v)] + s.skip(0));
        } else if s[0].0 == k {
            assert(spec_dict_insert(s, k, v) =~= s.take(0) + seq![(k, v)] + s.skip(1));
        } else {
            lemma_lex_trichotomy(k, s[0].0);
            assert(lex_lt(k, s[0].0));
            assert(spec_dict_insert(s, k, v) =~= s.take(0) + seq![(k, v)] + s.skip(0));
        }
    } else {
        assert(lex_lt(s[0].0, k));
        lemma_lex_asym(s[0].0, k);
        let rest = s.skip(1);
        assert forall|j: int| 0 <= j < p - 1 implies lex_lt(#[trigger] rest[j].0, k) by {
            assert(rest[j] == s[j + 1]);
        }
        assert(p - 1 < rest.len() ==> rest[p - 1] == s[p]);
        lemma_insert_split(rest, k, v, p - 1);
        if p < s.len() && s[p].0 == k {
            assert(rest.take(p - 1) + seq![(k, v)] + rest.skip(p) =~= spec_dict_insert(
                rest,
                k,
                v,
            ));
            assert(seq![s[0]] + (rest.take(p - 1) + seq![(k, v)] + rest.skip(p)) =~= s.take(p)
                + seq![(k, v)] + s.skip(p + 1));
        } else {
            assert(seq![s[0]] + (rest.take(p - 1) + seq![(k, v)] + rest.skip(p - 1)) =~= s.take(
                p,
            ) + seq![(k, v)] + s.skip(p));
        }
    }
}

} // verus!
