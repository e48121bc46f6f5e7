use vstd::prelude::*;
use vstd::slice::slice_subrange;
use crate::table::ExtractError;

verus! {

/// Whether the pattern occurs in the haystack at position `i`.
pub open spec fn matches_at(hay: Seq<u8>, pat: Seq<u8>, i: int) -> bool {
    0 <= i && i + pat.len() <= hay.len() && hay.subrange(i, i + pat.len()) == pat
}

/// Whether the pattern occurs in the haystack at all.
pub open spec fn has_match(hay: Seq<u8>, pat: Seq<u8>) -> bool {
    exists|i: int| matches_at(hay, pat, i)
}

/// Whether `i` is the first occurrence of the pattern in the haystack.
pub open spec fn first_match_at(hay: Seq<u8>, pat: Seq<u8>, i: int) -> bool {
    matches_at(hay, pat, i) && forall|j: int| 0 <= j < i ==> !matches_at(hay, pat, j)
}

/// Whether the pattern occurs as a prefix of the haystack at position `i`,
/// decided by comparing bytes.
fn is_prefix_at(hay: &[u8], pat: &[u8], i: usize) -> (r: bool)
    requires
        i + pat@.len() <= hay@.len(),
    ensures
        r == matches_at(hay@, pat@, i as int),
{
    let hn: usize = hay.len();
    let mut k: usize = 0;
    while k < pat.len()
        invariant
            i + pat@.len() <= hay@.len(),
            hn == hay@.len(),
            k <= pat@.len(),
            forall|m: int| 0 <= m < k ==> hay@[i + m] == pat@[m],
        decreases pat@.len() - k,
    {
        if hay[i + k] != pat[k] {
            proof {
                if matches_at(hay@, pat@, i as int) {
                    assert(hay@.subrange(i as int, i + pat@.len())[k as int] == hay@[i + k]);
                }
            }
            return false;
        }
        k = k + 1;
    }
    proof {
        assert(hay@.subrange(i as int, i + pat@.len()) =~= pat@);
    }
    true
}

/// Finds the first occurrence of a byte pattern in a byte haystack.
pub fn find_sub(hay: &[u8], pat: &[u8]) -> (r: Option<usize>)
    ensures
        match r {
            Some(i) => first_match_at(hay@, pat@, i as int),
            None => !has_match(hay@, pat@),
        },
{
    if pat.len() > hay.len() {
        proof {
            assert(forall|j: int| !matches_at(hay@, pat@, j));
        }
        return None;
    }
    let end: usize = hay.len() - pat.len();
    let mut i: usize = 0;
    while i < end
        invariant
            pat@.len() <= hay@.len(),
            end == hay@.len() - pat@.len(),
            i <= end,
            forall|j: int| 0 <= j < i ==> !matches_at(hay@, pat@, j),
        decreases end - i,
    {
        if is_prefix_at(hay, pat, i) {
            return Some(i);
        }
        i = i + 1;
    }
    if is_prefix_at(hay, pat, end) {
        return Some(end);
    }
    proof {
        assert forall|j: int| !matches_at(hay@, pat@, j) by {
            if matches_at(hay@, pat@, j) {
                assert(0 <= j <= end);
            }
        }
    }
    None
}

/// Whether a byte is ASCII whitespace, as the trimming of the payload treats
/// it: space, tab, line feed, vertical tab, form feed or carriage return.
pub open spec fn is_ascii_ws(b: u8) -> bool {
    b == 32 || (9 <= b && b <= 13)
}

/// The payload with leading whitespace removed.
pub open spec fn spec_trim_front(s: Seq<u8>) -> Seq<u8>
    decreases s.len(),
{
    if s.len() > 0 && is_ascii_ws(s[0]) {
        spec_trim_front(s.skip(1))
    } else {
        s
    }
}

/// The payload with trailing whitespace removed.
pub open spec fn spec_trim_back(s: Seq<u8>) -> Seq<u8>
    decreases s.len(),
{
    if s.len() > 0 && is_ascii_ws(s.last()) {
        spec_trim_back(s.drop_last())
    } else {
        s
    }
}

/// The payload with every trailing semicolon removed.
pub open spec fn spec_strip_semis(s: Seq<u8>) -> Seq<u8>
    decreases s.len(),
{
    if s.len() > 0 && s.last() == 59u8 {
        spec_strip_semis(s.drop_last())
    } else {
        s
    }
}

/// The text between the markers readied for parsing: whitespace trimmed from
/// both ends, then trailing semicolons stripped.
pub open spec fn spec_clean_payload(s: Seq<u8>) -> Seq<u8> {
    spec_strip_semis(spec_trim_back(spec_trim_front(s)))
}

/// Computes the bounds of the cleaned payload inside the raw payload.
fn clean_bounds(s: &[u8]) -> (r: (usize, usize))
    ensures
        r.0 <= r.1 <= s@.len(),
        s@.subrange(r.0 as int, r.1 as int) == spec_clean_payload(s@),
{
    proof {
        assert(s@.skip(0) =~= s@);
    }
    let mut lo: usize = 0;
    while lo < s.len() && (s[lo] == 32 || (9 <= s[lo] && s[lo] <= 13))
        invariant
            lo <= s@.len(),
            spec_trim_front(s@) == spec_trim_front(s@.skip(lo as int)),
        decreases s@.len() - lo,
    {
        proof {
            assert(s@.skip(lo as int)[0] == s@[lo as int]);
            assert(s@.skip(lo as int).skip(1) =~= s@.skip(lo as int + 1));
        }
        lo = lo + 1;
    }
    proof {
        if lo < s@.len() {
            assert(s@.skip(lo as int)[0] == s@[lo as int]);
        }
        assert(spec_trim_front(s@) =~= s@.skip(lo as int));
    }
    let mut hi: usize = s.len();
    while hi > lo && (s[hi - 1] == 32 || (9 <= s[hi - 1] && s[hi - 1] <= 13))
        invariant
            lo <= hi <= s@.len(),
            spec_trim_front(s@) == s@.skip(lo as int),
            spec_trim_back(s@.skip(lo as int)) == spec_trim_back(
                s@.subrange(lo as int, hi as int),
            ),
        decreases hi,
    {
        proof {
            let cur = s@.subrange(lo as int, hi as int);
            assert(cur.last() == s@[hi - 1]);
            assert(cur.drop_last() =~= s@.subrange(lo as int, hi as int - 1));
        }
        hi = hi - 1;
    }
    proof {
        let cur = s@.subrange(lo as int, hi as int);
        if hi > lo {
            assert(cur.last() == s@[hi - 1]);
        }
        assert(spec_trim_back(s@.skip(lo as int)) =~= cur);
    }
    let ghost trimmed = s@.subrange(lo as int, hi as int);
    while hi > lo && s[hi - 1] == 59
        invariant
            lo <= hi,
            hi <= s@.len(),
            spec_strip_semis(trimmed) == spec_strip_semis(s@.subrange(lo as int, hi as int)),
        decreases hi,
    {
        proof {
            let cur = s@.subrange(lo as int, hi as int);
            assert(cur.last() == s@[hi - 1]);
            assert(cur.drop_last() =~= s@.subrange(lo as int, hi as int - 1));
        }
        hi = hi - 1;
    }
    proof {
        let cur = s@.subrange(lo as int, hi as int);
        if hi > lo {
            assert(cur.last() == s@[hi - 1]);
        }
        assert(spec_strip_semis(trimmed) =~= cur);
    }
    (lo, hi)
}

/// What the JSON parser yields for a payload; named because the grammar it
/// decides would take pages to restate.
///
/// `Some` exactly when the payload parses as a JSON array; each element is
/// given as its fields in the element map's order, a string field as its
/// text, any other field as its JSON rendering, a non-object element as no
/// fields at all.
pub uninterp spec fn json_records_of(payload: Seq<u8>) -> Option<
    Seq<Seq<(Seq<char>, Seq<char>)>>,
>;

/// Relies on `serde_json::from_slice` and `serde_json::Value`: parses the
/// payload, requires it to be an array, and hands each element's fields out
/// as plain pairs — a string field as its text (`Value::as_str`), any other
/// field by `Value`'s compact rendering, a non-object element as no fields.
#[verifier::external_body]
fn parse_record_array(payload: &[u8]) -> (r: Option<Vec<Vec<(String, String)>>>)
    ensures
        r.deep_view() == json_records_of(payload@),
{
    let v: serde_json::Value = serde_json::from_slice(payload).ok()?;
    let arr = v.as_array()?;
    Some(arr.iter().map(|row| match row {
        serde_json::Value::Object(m) => m.iter().map(|(k, f)| (k.clone(), match f {
            serde_json::Value::String(s) => s.clone(),
            other => other.to_string(),
        })).collect(),
        _ => Vec::new(),
    }).collect())
}

/// The value of the field named `key` in a record, or the empty string when
/// the record has no such field.
pub open spec fn spec_lookup(rec: Seq<(Seq<char>, Seq<char>)>, key: Seq<char>) -> Seq<char>
    decreases rec.len(),
{
    if rec.len() == 0 {
        Seq::empty()
    } else if rec[0].0 == key {
        rec[0].1
    } else {
        spec_lookup(rec.skip(1), key)
    }
}

/// One record projected onto the requested fields, in their given order.
pub open spec fn spec_project_row(rec: Seq<(Seq<char>, Seq<char>)>, fields: Seq<Seq<char>>) -> Seq<
    Seq<char>,
> {
    fields.map_values(|f: Seq<char>| spec_lookup(rec, f))
}

/// Every record projected onto the requested fields.
pub open spec fn spec_project(
    recs: Seq<Seq<(Seq<char>, Seq<char>)>>,
    fields: Seq<Seq<char>>,
) -> Seq<Seq<Seq<char>>> {
    recs.map_values(|rec: Seq<(Seq<char>, Seq<char>)>| spec_project_row(rec, fields))
}

/// Looks a field up in one record.
fn lookup_field(rec: &Vec<(String, String)>, key: &String) -> (r: String)
    ensures
        r@ == spec_lookup(rec.deep_view(), key@),
{
    let ghost recv = rec.deep_view();
    proof {
        assert(recv.skip(0) =~= recv);
    }
    let mut i: usize = 0;
    while i < rec.len()
        invariant
            i <= rec.len(),
            recv == rec.deep_view(),
            recv.len() == rec.len(),
            spec_lookup(recv, key@) == spec_lookup(recv.skip(i as int), key@),
        decreases rec.len() - i,
    {
        proof {
            assert(recv.skip(i as int)[0] == recv[i as int]);
            assert(recv.skip(i as int).skip(1) =~= recv.skip(i as int + 1));
        }
        let entry = &rec[i];
        if entry.0 == *key {
            return entry.1.clone();
        }
        i = i + 1;
    }
    proof {
        assert(recv.skip(rec.len() as int) =~= Seq::<(Seq<char>, Seq<char>)>::empty());
    }
    String::new()
}

/// Projects already-parsed records onto the requested field names, in their
/// given order; a missing field yields an empty string.
pub fn project_records(recs: &Vec<Vec<(String, String)>>, fields: &Vec<String>) -> (r: Vec<
    Vec<String>,
>)
    ensures
        r.deep_view() == spec_project(recs.deep_view(), fields.deep_view()),
{
    let ghost recsv = recs.deep_view();
    let ghost fieldsv = fields.deep_view();
    let mut out: Vec<Vec<String>> = Vec::new();
    let mut i: usize = 0;
    while i < recs.len()
        invariant
            i <= recs.len(),
            recsv == recs.deep_view(),
            fieldsv == fields.deep_view(),
            recsv.len() == recs.len(),
            out.deep_view().len() == i,
            forall|k: int|
                0 <= k < i ==> out.deep_view()[k] == spec_project_row(
                    #[trigger] recsv[k],
                    fieldsv,
                ),
        decreases recs.len() - i,
    {
        let rec = &recs[i];
        let mut row: Vec<String> = Vec::new();
        let mut j: usize = 0;
        while j < fields.len()
            invariant
                j <= fields.len(),
                recsv == recs.deep_view(),
                fieldsv == fields.deep_view(),
                recsv.len() == recs.len(),
                i < recs.len(),
                rec == &recs[i as int],
                row.deep_view().len() == j,
                fieldsv.len() == fields.len(),
                forall|k: int|
                    0 <= k < j ==> row.deep_view()[k] == spec_lookup(
                        recsv[i as int],
                        #[trigger] fieldsv[k],
                    ),
            decreases fields.len() - j,
        {
            let v = lookup_field(rec, &fields[j]);
            row.push(v);
            j = j + 1;
        }
        proof {
            assert(row.deep_view() =~= spec_project_row(recsv[i as int], fieldsv));
        }
        out.push(row);
        i = i + 1;
    }
    proof {
        assert(out.deep_view() =~= spec_project(recsv, fieldsv));
    }
    out
}

/// Whether `s` and `e` locate the payload: `s` is the first occurrence of
/// the start marker, and `e` the first occurrence of the end marker in what
/// follows the start marker.
pub open spec fn spec_markers_ok(
    body: Seq<u8>,
    sm: Seq<u8>,
    em: Seq<u8>,
    s: int,
    e: int,
) -> bool {
    first_match_at(body, sm, s) && first_match_at(body.skip(s + sm.len()), em, e)
}

/// The cleaned payload between the markers located at `s` and `e`.
pub open spec fn spec_payload(body: Seq<u8>, sm: Seq<u8>, s: int, e: int) -> Seq<u8> {
    spec_clean_payload(body.subrange(s + sm.len(), s + sm.len() + e))
}

/// The whole contract of embedded extraction over a result's mathematical
/// value: on success the grid is the projection of the records parsed from
/// the payload between the first markers; `MarkerNotFound` exactly when a
/// marker is absent; `MalformedPayload` exactly when the payload is not an
/// array.
pub open spec fn spec_embedded_post(
    body: Seq<u8>,
    sm: Seq<u8>,
    em: Seq<u8>,
    fields: Seq<Seq<char>>,
    r: Result<Seq<Seq<Seq<char>>>, ExtractError>,
) -> bool {
    match r {
        Ok(grid) => exists|s: int, e: int|
            #[trigger] spec_markers_ok(body, sm, em, s, e) && match json_records_of(
                spec_payload(body, sm, s, e),
            ) {
                Some(recs) => grid == spec_project(recs, fields),
                None => false,
            },
        Err(err) => match err {
            ExtractError::MarkerNotFound => !has_match(body, sm) || (exists|s: int|
                #[trigger] first_match_at(body, sm, s) && !has_match(body.skip(s + sm.len()), em)),
            ExtractError::MalformedPayload => exists|s: int, e: int|
                #[trigger] spec_markers_ok(body, sm, em, s, e) && json_records_of(
                    spec_payload(body, sm, s, e),
                ) is None,
            _ => false,
        },
    }
}

/// The mathematical value of an extraction result.
pub open spec fn spec_grid_result(r: Result<Vec<Vec<String>>, ExtractError>) -> Result<
    Seq<Seq<Seq<char>>>,
    ExtractError,
> {
    match r {
        Ok(g) => Ok(g.deep_view()),
        Err(e) => Err(e),
    }
}

/// Extracts a grid from a page that embeds its table as a JSON array inside
/// a script block: locates the payload by its marker substrings, parses it,
/// and projects the requested fields of each array element, in order, a
/// missing field yielding an empty string.
///
/// Fails with `MarkerNotFound` when either marker is absent — never with a
/// partial grid — and with `MalformedPayload` when the text between the
/// markers does not parse as a JSON array.
pub fn extract_embedded(
    body: &[u8],
    start_marker: &[u8],
    end_marker: &[u8],
    fields: &Vec<String>,
) -> (r: Result<Vec<Vec<String>>, ExtractError>)
    ensures
        spec_embedded_post(
            body@,
            start_marker@,
            end_marker@,
            fields.deep_view(),
            spec_grid_result(r),
        ),
{
    let n: usize = body.len();
    let sml: usize = start_marker.len();
    let s = match find_sub(body, start_marker) {
        Some(s) => s,
        None => {
            return Err(ExtractError::MarkerNotFound);
        },
    };
    let st: usize = s + sml;
    let tail = slice_subrange(body, st, n);
    proof {
        assert(tail@ =~= body@.skip(st as int));
    }
    let e = match find_sub(tail, end_marker) {
        Some(e) => e,
        None => {
            return Err(ExtractError::MarkerNotFound);
        },
    };
    let raw = slice_subrange(tail, 0, e);
    proof {
        assert(raw@ =~= body@.subrange(st as int, st as int + e));
    }
    let bounds = clean_bounds(raw);
    let payload = slice_subrange(raw, bounds.0, bounds.1);
    proof {
        assert(payload@ == spec_payload(body@, start_marker@, s as int, e as int));
        assert(spec_markers_ok(body@, start_marker@, end_marker@, s as int, e as int));
    }
    match parse_record_array(payload) {
        Some(recs) => Ok(project_records(&recs, fields)),
        None => Err(ExtractError::MalformedPayload),
    }
}

} // verus!
