use vstd::prelude::*;

verus! {

/// One query parameter of a request: a name, the token it resolved to, and
/// whether the parameter may be omitted.
///
/// An optional part whose token is empty contributes nothing to the URL — no
/// token and no separator artifact.
pub struct UrlPart {
    pub name: String,
    pub token: String,
    pub optional: bool,
}

/// The mathematical value of a `UrlPart`.
pub ghost struct UrlPartV {
    pub name: Seq<char>,
    pub token: Seq<char>,
    pub optional: bool,
}

impl View for UrlPart {
    type V = UrlPartV;

    open spec fn view(&self) -> UrlPartV {
        UrlPartV { name: self.name@, token: self.token@, optional: self.optional }
    }
}

impl DeepView for UrlPart {
    type V = UrlPartV;

    open spec fn deep_view(&self) -> UrlPartV {
        self@
    }
}

/// Whether a part appears in the URL at all.
pub open spec fn spec_kept(p: UrlPartV) -> bool {
    !(p.optional && p.token.len() == 0)
}

/// The parts that appear in the URL, in their given order.
pub open spec fn spec_kept_parts(ps: Seq<UrlPartV>) -> Seq<UrlPartV>
    decreases ps.len(),
{
    if ps.len() == 0 {
        Seq::empty()
    } else {
        (if spec_kept(ps[0]) {
            seq![ps[0]]
        } else {
            Seq::empty()
        }) + spec_kept_parts(ps.skip(1))
    }
}

/// One part serialized as `name=token`.
pub open spec fn spec_part(p: UrlPartV) -> Seq<char> {
    p.name + "="@ + p.token
}

/// Already-kept parts joined with `&` separators.
pub open spec fn spec_joined(ps: Seq<UrlPartV>) -> Seq<char>
    decreases ps.len(),
{
    if ps.len() == 0 {
        Seq::empty()
    } else if ps.len() == 1 {
        spec_part(ps[0])
    } else {
        spec_part(ps[0]) + "&"@ + spec_joined(ps.skip(1))
    }
}

/// The URL built from a base path and an ordered list of parts: the base
/// alone when every part is omitted, otherwise the base, a `?`, and the kept
/// parts joined with `&`.
pub open spec fn spec_build(base: Seq<char>, ps: Seq<UrlPartV>) -> Seq<char> {
    if spec_kept_parts(ps).len() == 0 {
        base
    } else {
        base + "?"@ + spec_joined(spec_kept_parts(ps))
    }
}

/// Appending a part to the list appends it to the kept parts exactly when it
/// is kept.
proof fn lemma_kept_push(ps: Seq<UrlPartV>, p: UrlPartV)
    ensures
        spec_kept_parts(ps.push(p)) == spec_kept_parts(ps) + (if spec_kept(p) {
            seq![p]
        } else {
            Seq::<UrlPartV>::empty()
        }),
    decreases ps.len(),
{
    let whole = ps.push(p);
    if ps.len() == 0 {
        assert(whole[0] == p);
        assert(whole.skip(1) =~= Seq::<UrlPartV>::empty());
        assert(spec_kept_parts(whole.skip(1)) =~= Seq::<UrlPartV>::empty());
        assert(spec_kept_parts(ps) =~= Seq::<UrlPartV>::empty());
        if spec_kept(p) {
            assert(spec_kept_parts(whole) =~= seq![p] + Seq::<UrlPartV>::empty());
            assert(seq![p] + Seq::<UrlPartV>::empty() =~= spec_kept_parts(ps) + seq![p]);
        } else {
            assert(spec_kept_parts(whole) =~= Seq::<UrlPartV>::empty() + Seq::<
                UrlPartV,
            >::empty());
            assert(spec_kept_parts(whole) =~= spec_kept_parts(ps) + Seq::<UrlPartV>::empty());
        }
    } else {
        assert(whole.skip(1) =~= ps.skip(1).push(p));
        lemma_kept_push(ps.skip(1), p);
        if spec_kept(p) {
            assert(spec_kept_parts(ps.push(p)) =~= spec_kept_parts(ps) + seq![p]);
        } else {
            assert(spec_kept_parts(ps.push(p)) =~= spec_kept_parts(ps));
        }
    }
}

/// Appending a part to a nonempty joined list appends `&` and the part.
proof fn lemma_joined_push(ps: Seq<UrlPartV>, p: UrlPartV)
    ensures
        spec_joined(ps.push(p)) == if ps.len() == 0 {
            spec_part(p)
        } else {
            spec_joined(ps) + "&"@ + spec_part(p)
        },
    decreases ps.len(),
{
    let whole = ps.push(p);
    if ps.len() == 0 {
        assert(whole[0] == p);
    } else if ps.len() == 1 {
        assert(whole.skip(1) =~= seq![p]);
        assert(spec_joined(whole.skip(1)) == spec_part(p));
    } else {
        assert(whole.skip(1) =~= ps.skip(1).push(p));
        lemma_joined_push(ps.skip(1), p);
        assert(spec_joined(ps) + "&"@ + spec_part(p) =~= spec_part(ps[0]) + "&"@ + (spec_joined(
            ps.skip(1),
        ) + "&"@ + spec_part(p)));
    }
}

/// Builds a request URL from a base path and an ordered list of resolved
/// parts.
///
/// Parts are joined as `name=token` with `&` separators; an optional part
/// with an empty token is omitted entirely, leaving no stray separator.
pub fn build_url(base: &str, parts: &Vec<UrlPart>) -> (r: String)
    ensures
        r@ == spec_build(base@, parts.deep_view()),
{
    let ghost all = parts.deep_view();
    let mut query = String::new();
    let mut first: bool = true;
    let mut i: usize = 0;
    while i < parts.len()
        invariant
            0 <= i <= parts.len(),
            all == parts.deep_view(),
            all.len() == parts.len(),
            forall|k: int| 0 <= k < all.len() ==> all[k] == #[trigger] parts[k]@,
            first <==> spec_kept_parts(all.take(i as int)).len() == 0,
            query@ == spec_joined(spec_kept_parts(all.take(i as int))),
        decreases parts.len() - i,
    {
        let p = &parts[i];
        let keep = !(p.optional && p.token.as_str().is_empty());
        let ghost ks = spec_kept_parts(all.take(i as int));
        let ghost ks1 = spec_kept_parts(all.take(i as int + 1));
        proof {
            assert(all.take(i as int + 1) =~= all.take(i as int).push(all[i as int]));
            lemma_kept_push(all.take(i as int), all[i as int]);
            assert(p@ == all[i as int]);
            if spec_kept(all[i as int]) {
                assert(ks1 =~= ks.push(all[i as int]));
                lemma_joined_push(ks, all[i as int]);
            } else {
                assert(ks1 =~= ks);
            }
        }
        if keep {
            if !first {
                query.append("&");
            }
            query.append(p.name.as_str());
            query.append("=");
            query.append(p.token.as_str());
            first = false;
            proof {
                if ks.len() == 0 {
                    assert(query@ =~= spec_part(all[i as int]));
                } else {
                    assert(query@ =~= spec_joined(ks) + "&"@ + spec_part(all[i as int]));
                }
                assert(query@ =~= spec_joined(ks1));
            }
        }
        i = i + 1;
    }
    proof {
        assert(all.take(parts.len() as int) =~= all);
    }
    let mut url = base.to_owned();
    if !first {
        url.append("?");
        url.append(query.as_str());
        proof {
            assert(url@ =~= spec_build(base@, all));
        }
    }
    url
}

/// Building is deterministic: the same base and the same ordered parts give
/// the same URL.
pub proof fn lemma_build_deterministic(
    base1: Seq<char>,
    ps1: Seq<UrlPartV>,
    base2: Seq<char>,
    ps2: Seq<UrlPartV>,
)
    requires
        base1 == base2,
        ps1 == ps2,
    ensures
        spec_build(base1, ps1) == spec_build(base2, ps2),
{
}

/// An optional part with an empty token is omitted entirely: the URL equals
/// the URL built without that part, so no stray separator is left behind.
pub proof fn lemma_build_omits_empty_optional(base: Seq<char>, ps: Seq<UrlPartV>, i: int)
    requires
        0 <= i < ps.len(),
        ps[i].optional,
        ps[i].token.len() == 0,
    ensures
        spec_build(base, ps) == spec_build(base, ps.remove(i)),
{
    lemma_kept_remove(ps, i);
}

/// Removing an omitted part does not change the kept parts.
proof fn lemma_kept_remove(ps: Seq<UrlPartV>, i: int)
    requires
        0 <= i < ps.len(),
        !spec_kept(ps[i]),
    ensures
        spec_kept_parts(ps.remove(i)) == spec_kept_parts(ps),
    decreases ps.len(),
{
    if i == 0 {
        assert(ps.remove(0) =~= ps.skip(1));
    } else {
        assert(ps.remove(i).skip(1) =~= ps.skip(1).remove(i - 1));
        assert(ps.skip(1)[i - 1] == ps[i]);
        lemma_kept_remove(ps.skip(1), i - 1);
        assert(ps.remove(i)[0] == ps[0]);
    }
}

} // verus!
