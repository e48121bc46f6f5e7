use vstd::prelude::*;
use crate::common::TableData;
use crate::dict::DictData;

verus! {

/// What the table renderer returns for a header and rows; named because the
/// layout algorithm — column widths, borders, truncation — would take pages
/// to restate.
pub uninterp spec fn rendered_table_of(
    header: Option<Seq<Seq<char>>>,
    rows: Seq<Seq<Seq<char>>>,
) -> Seq<char>;

/// Relies on tabled's `Builder` and settings: renders the optional header
/// and the rows as a boxed text table in the modern style, each cell
/// truncated to fifty characters with a `...` suffix.
#[verifier::external_body]
fn render_table(header: &Option<Vec<String>>, rows: &Vec<Vec<String>>) -> (r: String)
    ensures
        r@ == rendered_table_of(header.deep_view(), rows.deep_view()),
{
    let mut b = tabled::builder::Builder::new();
    if let Some(h) = header {
        b.push_record(h.clone());
    }
    for row in rows {
        b.push_record(row.clone());
    }
    b.build()
        .with(tabled::settings::Style::modern())
        .with(tabled::settings::Modify::new(tabled::settings::object::Rows::new(..)).with(
            tabled::settings::Width::truncate(50).suffix("..."),
        ))
        .to_string()
}

/// What the CSV encoder returns for a grid; named because the quoting rules
/// would take pages to restate.
pub uninterp spec fn csv_of(rows: Seq<Seq<Seq<char>>>) -> Seq<u8>;

/// Relies on csv's `Writer` over an in-memory buffer: encodes each row as
/// one CSV record; encoding fails when the rows are not uniform in length.
#[verifier::external_body]
fn csv_encode(rows: &Vec<Vec<String>>) -> (r: Option<Vec<u8>>)
    ensures
        r matches Some(b) ==> b@ == csv_of(rows.deep_view()),
{
    let mut w = csv::Writer::from_writer(Vec::new());
    for row in rows {
        w.write_record(row).ok()?;
    }
    w.into_inner().ok()
}

/// The rows kept when rendering is limited: all of them without a limit,
/// otherwise the first `max_rows`.
pub open spec fn spec_take_rows(rows: Seq<Seq<Seq<char>>>, max_rows: Option<usize>) -> Seq<
    Seq<Seq<char>>,
> {
    match max_rows {
        Some(m) => if m < rows.len() {
            rows.take(m as int)
        } else {
            rows
        },
        None => rows,
    }
}

/// Clones the strings of one row.
fn clone_row(row: &Vec<String>) -> (r: Vec<String>)
    ensures
        r.deep_view() == row.deep_view(),
{
    let mut out: Vec<String> = Vec::new();
    let mut i: usize = 0;
    while i < row.len()
        invariant
            i <= row.len(),
            out.deep_view().len() == i,
            forall|k: int| 0 <= k < i ==> out.deep_view()[k] == row.deep_view()[k],
        decreases row.len() - i,
    {
        out.push(row[i].clone());
        i = i + 1;
    }
    proof {
        assert(out.deep_view() =~= row.deep_view());
    }
    out
}

/// Rendering data as a formatted text table.
pub trait ToTable {
    /// The rows the table is rendered from.
    spec fn spec_rows(&self) -> Seq<Seq<Seq<char>>>;

    /// Renders the data as a boxed text table: the optional header first,
    /// then the rows, at most `max_rows` of them when a limit is given.
    fn to_table(&self, headers: Option<Vec<String>>, max_rows: Option<usize>) -> (r: String)
        ensures
            r@ == rendered_table_of(
                headers.deep_view(),
                spec_take_rows(self.spec_rows(), max_rows),
            ),
    ;
}

impl ToTable for TableData {
    /// A grid renders its own rows.
    open spec fn spec_rows(&self) -> Seq<Seq<Seq<char>>> {
        self.deep_view()
    }

    fn to_table(&self, headers: Option<Vec<String>>, max_rows: Option<usize>) -> (r: String)
        ensures
            r@ == rendered_table_of(
                headers.deep_view(),
                spec_take_rows(self.spec_rows(), max_rows),
            ),
    {
        let limit: usize = match max_rows {
            Some(m) => if m < self.len() {
                m
            } else {
                self.len()
            },
            None => self.len(),
        };
        let mut limited: Vec<Vec<String>> = Vec::new();
        let mut i: usize = 0;
        while i < limit
            invariant
                i <= limit <= self.deep_view().len(),
                self.deep_view().len() == self.len(),
                limited.deep_view().len() == i,
                forall|k: int| 0 <= k < i ==> limited.deep_view()[k] == self.deep_view()[k],
            decreases limit - i,
        {
            let row = clone_row(&self[i]);
            limited.push(row);
            i = i + 1;
        }
        proof {
            assert(limited.deep_view() =~= spec_take_rows(self.deep_view(), max_rows));
        }
        render_table(&headers, &limited)
    }
}

/// One chunk of key/value pairs flattened to a row: each pair contributes
/// its key and its value as two adjacent cells.
pub open spec fn spec_pair_row(ps: Seq<(Seq<char>, Seq<char>)>) -> Seq<Seq<char>>
    decreases ps.len(),
{
    if ps.len() == 0 {
        Seq::empty()
    } else {
        seq![ps[0].0, ps[0].1] + spec_pair_row(ps.skip(1))
    }
}

/// Key/value pairs chunked into rows of at most `g` pairs each: every row
/// but the last holds exactly `g` pairs, and the last holds the remainder —
/// possibly fewer, never padded.
pub open spec fn spec_chunk(ps: Seq<(Seq<char>, Seq<char>)>, g: int) -> Seq<Seq<Seq<char>>>
    decreases ps.len(),
    when g >= 1
{
    if ps.len() == 0 {
        Seq::empty()
    } else if ps.len() <= g {
        seq![spec_pair_row(ps)]
    } else {
        seq![spec_pair_row(ps.take(g))] + spec_chunk(ps.skip(g), g)
    }
}

/// A flattened chunk has two cells per pair.
proof fn lemma_pair_row_len(ps: Seq<(Seq<char>, Seq<char>)>)
    ensures
        spec_pair_row(ps).len() == 2 * ps.len(),
    decreases ps.len(),
{
    if ps.len() > 0 {
        lemma_pair_row_len(ps.skip(1));
    }
}

/// The shape of the chunked grid: with `n` pairs and a group size of `g`,
/// there are `ceil(n / g)` rows; every row but the last has `2 * g` cells,
/// and the last row has two cells per leftover pair.
pub proof fn lemma_chunk_shape(ps: Seq<(Seq<char>, Seq<char>)>, g: int)
    requires
        g >= 1,
    ensures
        spec_chunk(ps, g).len() == (ps.len() + g - 1) / g,
        forall|i: int|
            0 <= i < spec_chunk(ps, g).len() - 1 ==> (#[trigger] spec_chunk(ps, g)[i]).len() == 2
                * g,
        spec_chunk(ps, g).len() > 0 ==> spec_chunk(ps, g).last().len() == 2 * (ps.len() - (
        spec_chunk(ps, g).len() - 1) * g),
    decreases ps.len(),
{
    let n: int = ps.len() as int;
    if n == 0 {
        assert((0 + g - 1) / g == 0) by (nonlinear_arith)
            requires
                g >= 1,
        ;
    } else if n <= g {
        lemma_pair_row_len(ps);
        assert((n + g - 1) / g == 1) by (nonlinear_arith)
            requires
                1 <= n <= g,
        ;
        assert((spec_chunk(ps, g).len() - 1) * g == 0) by (nonlinear_arith)
            requires
                spec_chunk(ps, g).len() == 1,
        ;
    } else {
        lemma_pair_row_len(ps.take(g));
        lemma_chunk_shape(ps.skip(g), g);
        let rest = spec_chunk(ps.skip(g), g);
        assert(ps.skip(g).len() == n - g);
        assert((n - g + g - 1) / g + 1 == (n + g - 1) / g) by (nonlinear_arith)
            requires
                g >= 1,
                n > g,
        ;
        assert(spec_chunk(ps, g).len() == rest.len() + 1);
        assert(2 * ((n - g) - (rest.len() - 1) * g) == 2 * (n - (spec_chunk(ps, g).len() - 1)
            * g)) by (nonlinear_arith)
            requires
                spec_chunk(ps, g).len() == rest.len() + 1,
        ;
        assert forall|i: int|
            0 <= i < spec_chunk(ps, g).len() - 1 implies (#[trigger] spec_chunk(ps, g)[i]).len()
            == 2 * g by {
            if i > 0 {
                assert(spec_chunk(ps, g)[i] == rest[i - 1]);
            }
        }
        assert(spec_chunk(ps, g).last() == rest.last());
    }
}

/// Converts a dictionary into a grid: the key/value pairs, in the
/// dictionary's lexicographic order, flattened two cells per pair and
/// chunked into rows of at most `max_pairs_per_row` pairs; the last row may
/// be shorter, never padded.
pub fn from_dict_to_table(dict: &DictData, max_pairs_per_row: usize) -> (r: TableData)
    requires
        max_pairs_per_row >= 1,
    ensures
        r.deep_view() == spec_chunk(dict@, max_pairs_per_row as int),
{
    let ghost pairs = dict@;
    let g: usize = max_pairs_per_row;
    let n: usize = dict.entries.len();
    let mut out: Vec<Vec<String>> = Vec::new();
    proof {
        assert(pairs.skip(0) =~= pairs);
        assert(out.deep_view() + spec_chunk(pairs, g as int) =~= spec_chunk(pairs, g as int));
    }
    let mut i: usize = 0;
    while i < n
        invariant
            i <= n,
            g >= 1,
            pairs == dict@,
            n == dict.entries.len(),
            pairs.len() == n,
            spec_chunk(pairs, g as int) == out.deep_view() + spec_chunk(
                pairs.skip(i as int),
                g as int,
            ),
        decreases n - i,
    {
        let ghost done = out.deep_view();
        let ghost suffix = pairs.skip(i as int);
        let m: usize = if n - i < g {
            n - i
        } else {
            g
        };
        let ghost chunk = if suffix.len() <= g as int {
            suffix
        } else {
            suffix.take(g as int)
        };
        proof {
            assert(chunk =~= pairs.subrange(i as int, i as int + m as int));
        }
        let mut row: Vec<String> = Vec::new();
        let mut j: usize = 0;
        proof {
            assert(chunk.skip(0) =~= chunk);
            assert(row.deep_view() + spec_pair_row(chunk) =~= spec_pair_row(chunk));
        }
        while j < m
            invariant
                j <= m,
                i + m <= n,
                pairs == dict@,
                n == dict.entries.len(),
                pairs.len() == n,
                chunk == pairs.subrange(i as int, i as int + m as int),
                spec_pair_row(chunk) == row.deep_view() + spec_pair_row(chunk.skip(j as int)),
            decreases m - j,
        {
            let ghost sofar = row.deep_view();
            let e = &dict.entries[i + j];
            proof {
                assert(chunk.skip(j as int)[0] == pairs[i as int + j]);
                assert(chunk.skip(j as int).skip(1) =~= chunk.skip(j as int + 1));
                assert(pairs[i as int + j] == (pairs[i as int + j].0, pairs[i as int + j].1));
            }
            row.push(e.0.clone());
            row.push(e.1.clone());
            proof {
                assert(row.deep_view() =~= sofar.push(pairs[i as int + j].0).push(
                    pairs[i as int + j].1,
                ));
                assert(sofar + (seq![pairs[i as int + j].0, pairs[i as int + j].1]
                    + spec_pair_row(chunk.skip(j as int + 1))) =~= row.deep_view()
                    + spec_pair_row(chunk.skip(j as int + 1)));
            }
            j = j + 1;
        }
        proof {
            assert(chunk.skip(m as int) =~= Seq::<(Seq<char>, Seq<char>)>::empty());
            assert(row.deep_view() =~= spec_pair_row(chunk));
        }
        out.push(row);
        proof {
            assert(out.deep_view() =~= done.push(spec_pair_row(chunk)));
            if suffix.len() <= g as int {
                assert(i + m == n);
                assert(pairs.skip(i as int + m as int) =~= Seq::<(Seq<char>, Seq<char>)>::empty());
                assert(spec_chunk(suffix, g as int) == seq![spec_pair_row(chunk)]);
                assert(done + seq![spec_pair_row(chunk)] =~= out.deep_view() + spec_chunk(
                    pairs.skip(i as int + m as int),
                    g as int,
                ));
            } else {
                assert(suffix.take(g as int) =~= chunk);
                assert(suffix.skip(g as int) =~= pairs.skip(i as int + m as int));
                assert(done + (seq![spec_pair_row(chunk)] + spec_chunk(
                    pairs.skip(i as int + m as int),
                    g as int,
                )) =~= out.deep_view() + spec_chunk(pairs.skip(i as int + m as int), g as int));
            }
        }
        i = i + m;
    }
    proof {
        assert(pairs.skip(n as int) =~= Seq::<(Seq<char>, Seq<char>)>::empty());
        assert(out.deep_view() =~= spec_chunk(pairs, g as int));
    }
    out
}

/// Encodes a grid as CSV bytes, one record per row; encoding fails when the
/// rows are not uniform in length.
pub fn to_csv_bytes(rows: &TableData) -> (r: Option<Vec<u8>>)
    ensures
        r matches Some(b) ==> b@ == csv_of(rows.deep_view()),
{
    csv_encode(rows)
}

} // verus!
