use vstd::prelude::*;
use crate::html::{select_table_cells, table_cells_of, Cell, CellV};

verus! {

/// The shared failure taxonomy of the extraction engines.
///
/// Row-level malformation — a row with too few cells, a cell without an
/// anchor — is never an error: such rows are silently dropped or the missing
/// piece is substituted with an empty string.
#[derive(Clone, Copy, Debug, PartialEq, Eq, Structural)]
pub enum ExtractError {
    /// The table selector matched no node.
    TableNotFound,
    /// The page holds fewer nested tables than the endpoint expects.
    MissingSubTable,
    /// A marker substring bounding an embedded payload is absent.
    MarkerNotFound,
    /// The text between the markers does not parse as an array-shaped value.
    MalformedPayload,
    /// A link's path holds too few segments to derive a source name from.
    SourceNotFound,
}

impl ExtractError {
    /// The description of each failure, as a mathematical value.
    pub open spec fn spec_message(self) -> Seq<char> {
        match self {
            ExtractError::TableNotFound => "the table selector matched no node"@,
            ExtractError::MissingSubTable => "fewer nested tables than expected"@,
            ExtractError::MarkerNotFound => "a payload marker is absent"@,
            ExtractError::MalformedPayload => "the payload is not an array"@,
            ExtractError::SourceNotFound => "a link has no source segment"@,
        }
    }

    /// A short readable description of the failure.
    pub fn message(&self) -> (r: &'static str)
        ensures
            r@ == self.spec_message(),
    {
        match self {
            ExtractError::TableNotFound => "the table selector matched no node",
            ExtractError::MissingSubTable => "fewer nested tables than expected",
            ExtractError::MarkerNotFound => "a payload marker is absent",
            ExtractError::MalformedPayload => "the payload is not an array",
            ExtractError::SourceNotFound => "a link has no source segment",
        }
    }
}

/// The per-endpoint rules that shape table extraction without changing the
/// walking algorithm: whether the first row is a header to drop, how many
/// leading cells to discard, the least number of retained cells a row needs
/// to survive, whether the last cell contributes its link target as one more
/// value, and whether cell text is trimmed.
#[derive(Clone, Copy)]
pub struct ExtractionPolicy {
    pub skip_header_row: bool,
    pub leading_cells_to_skip: usize,
    pub min_cells: usize,
    pub split_last_cell_link: bool,
    pub trim_cells: bool,
}

/// What the whitespace-trimming of the standard library returns; named
/// because its full statement would restate Unicode's whitespace table.
pub uninterp spec fn trim_of(s: Seq<char>) -> Seq<char>;

/// Relies on `str::trim`: removes leading and trailing whitespace; the
/// result depends on the characters alone.
#[verifier::external_body]
pub(crate) fn trim_string(s: &String) -> (r: String)
    ensures
        r@ == trim_of(s@),
{
    s.trim().to_owned()
}

/// The value a retained cell contributes: its text, trimmed when the policy
/// says so.
pub open spec fn spec_cell_value(c: CellV, trim: bool) -> Seq<char> {
    if trim {
        trim_of(c.text)
    } else {
        c.text
    }
}

/// The link target a cell contributes when the last cell is split: the
/// `href` of its first anchor, or the empty string when it has none.
pub open spec fn spec_cell_href(c: CellV) -> Seq<char> {
    match c.link {
        Some(l) => l.href,
        None => Seq::empty(),
    }
}

/// The cells of a row that survive the leading skip.
pub open spec fn spec_kept_cells(row: Seq<CellV>, p: ExtractionPolicy) -> Seq<CellV> {
    if row.len() >= p.leading_cells_to_skip {
        row.skip(p.leading_cells_to_skip as int)
    } else {
        Seq::empty()
    }
}

/// Whether a row survives: it must retain at least `min_cells` cells after
/// the leading skip.
pub open spec fn spec_keep_row(row: Seq<CellV>, p: ExtractionPolicy) -> bool {
    row.len() >= p.leading_cells_to_skip + p.min_cells
}

/// One surviving row transformed to its string values: the retained cells'
/// text, followed by the last retained cell's link target when the policy
/// splits the last cell.
pub open spec fn spec_transform_row(row: Seq<CellV>, p: ExtractionPolicy) -> Seq<Seq<char>> {
    let kept = spec_kept_cells(row, p);
    let vals = kept.map_values(|c: CellV| spec_cell_value(c, p.trim_cells));
    if p.split_last_cell_link && kept.len() > 0 {
        vals.push(spec_cell_href(kept.last()))
    } else {
        vals
    }
}

/// The rows left once a header row is dropped.
pub open spec fn spec_data_rows(rows: Seq<Seq<CellV>>, p: ExtractionPolicy) -> Seq<Seq<CellV>> {
    if p.skip_header_row && rows.len() > 0 {
        rows.skip(1)
    } else if p.skip_header_row {
        Seq::empty()
    } else {
        rows
    }
}

/// The grid produced from data rows: surviving rows transformed in order,
/// rows below the cell minimum silently dropped.
pub open spec fn spec_extract_rows(rows: Seq<Seq<CellV>>, p: ExtractionPolicy) -> Seq<
    Seq<Seq<char>>,
>
    decreases rows.len(),
{
    if rows.len() == 0 {
        Seq::empty()
    } else {
        let rest = spec_extract_rows(rows.skip(1), p);
        if spec_keep_row(rows[0], p) {
            seq![spec_transform_row(rows[0], p)] + rest
        } else {
            rest
        }
    }
}

/// The whole policy applied to a table's rows: header dropped, then each
/// surviving row transformed.
pub open spec fn spec_apply_policy(rows: Seq<Seq<CellV>>, p: ExtractionPolicy) -> Seq<
    Seq<Seq<char>>,
> {
    spec_extract_rows(spec_data_rows(rows, p), p)
}

/// Transforms one surviving row to its string values.
fn transform_row(row: &Vec<Cell>, p: &ExtractionPolicy) -> (r: Vec<String>)
    requires
        row@.len() >= p.leading_cells_to_skip,
    ensures
        r.deep_view() == spec_transform_row(row.deep_view(), *p),
{
    let ghost rowv = row.deep_view();
    let ghost kept = spec_kept_cells(rowv, *p);
    let mut out: Vec<String> = Vec::new();
    let mut j: usize = p.leading_cells_to_skip;
    while j < row.len()
        invariant
            p.leading_cells_to_skip <= j <= row.len(),
            rowv == row.deep_view(),
            rowv.len() == row.len(),
            kept == spec_kept_cells(rowv, *p),
            out.deep_view().len() == j - p.leading_cells_to_skip,
            forall|k: int|
                0 <= k < out.deep_view().len() ==> out.deep_view()[k] == spec_cell_value(
                    #[trigger] kept[k],
                    p.trim_cells,
                ),
        decreases row.len() - j,
    {
        let c = &row[j];
        let v = if p.trim_cells {
            trim_string(&c.text)
        } else {
            c.text.clone()
        };
        out.push(v);
        j = j + 1;
    }
    proof {
        assert(out.deep_view() =~= kept.map_values(
            |c: CellV| spec_cell_value(c, p.trim_cells),
        ));
    }
    if p.split_last_cell_link && row.len() > p.leading_cells_to_skip {
        let last = &row[row.len() - 1];
        let href = match &last.link {
            Some(l) => l.href.clone(),
            None => String::new(),
        };
        proof {
            assert(kept.last() == rowv.last());
            assert(href@ == spec_cell_href(kept.last()));
        }
        out.push(href);
    }
    out
}

/// Applies a policy to already-parsed rows of cells, yielding the grid of
/// string values: the header dropped when the policy says so, rows below the
/// cell minimum silently dropped, each surviving row transformed in order.
pub fn extract_rows(rows: &Vec<Vec<Cell>>, p: &ExtractionPolicy) -> (r: Vec<Vec<String>>)
    ensures
        r.deep_view() == spec_apply_policy(rows.deep_view(), *p),
{
    let ghost rowsv = rows.deep_view();
    let ghost data = spec_data_rows(rowsv, *p);
    let mut out: Vec<Vec<String>> = Vec::new();
    let start: usize = if p.skip_header_row && rows.len() > 0 {
        1
    } else if p.skip_header_row {
        return out;
    } else {
        0
    };
    proof {
        assert(data =~= rowsv.skip(start as int));
    }
    let mut i: usize = start;
    while i < rows.len()
        invariant
            start <= i <= rows.len(),
            rowsv == rows.deep_view(),
            rowsv.len() == rows.len(),
            data == spec_data_rows(rowsv, *p),
            data =~= rowsv.skip(start as int),
            spec_extract_rows(data, *p) == out.deep_view() + spec_extract_rows(
                rowsv.skip(i as int),
                *p,
            ),
        decreases rows.len() - i,
    {
        let ghost pre = rowsv.skip(i as int);
        let ghost done = out.deep_view();
        proof {
            assert(pre[0] == rowsv[i as int]);
            assert(pre.skip(1) =~= rowsv.skip(i as int + 1));
        }
        let row = &rows[i];
        if row.len() >= p.leading_cells_to_skip && row.len() - p.leading_cells_to_skip
            >= p.min_cells {
            let vals = transform_row(row, p);
            proof {
                assert(row.deep_view() == rowsv[i as int]);
                assert(spec_keep_row(rowsv[i as int], *p));
            }
            out.push(vals);
            proof {
                let t = spec_transform_row(rowsv[i as int], *p);
                assert(out.deep_view() =~= done.push(t));
                assert(done + (seq![t] + spec_extract_rows(rowsv.skip(i as int + 1), *p))
                    =~= done.push(t) + spec_extract_rows(rowsv.skip(i as int + 1), *p));
            }
        } else {
            proof {
                assert(!spec_keep_row(rowsv[i as int], *p));
            }
        }
        i = i + 1;
    }
    proof {
        assert(rowsv.skip(rowsv.len() as int) =~= Seq::<Seq<CellV>>::empty());
        assert(spec_extract_rows(rowsv.skip(rowsv.len() as int), *p) =~= Seq::<
            Seq<Seq<char>>,
        >::empty());
        assert(out.deep_view() =~= spec_extract_rows(data, *p));
    }
    out
}

/// Every row of an all-surviving batch is transformed in order.
proof fn lemma_extract_all_kept(rows: Seq<Seq<CellV>>, p: ExtractionPolicy)
    requires
        forall|i: int| 0 <= i < rows.len() ==> spec_keep_row(#[trigger] rows[i], p),
    ensures
        spec_extract_rows(rows, p).len() == rows.len(),
        forall|i: int|
            0 <= i < rows.len() ==> spec_extract_rows(rows, p)[i] == spec_transform_row(
                #[trigger] rows[i],
                p,
            ),
    decreases rows.len(),
{
    if rows.len() > 0 {
        let rest = rows.skip(1);
        lemma_extract_all_kept(rest, p);
        assert(spec_keep_row(rows[0], p));
        assert forall|i: int|
            0 <= i < rows.len() implies spec_extract_rows(rows, p)[i] == spec_transform_row(
            rows[i],
            p,
        ) by {
            if i > 0 {
                assert(rest[i - 1] == rows[i]);
            }
        }
    }
}

/// A surviving row with no split yields exactly its retained cells' values.
proof fn lemma_transform_row_width(row: Seq<CellV>, p: ExtractionPolicy)
    requires
        row.len() >= p.leading_cells_to_skip,
        !p.split_last_cell_link,
    ensures
        spec_transform_row(row, p).len() == row.len() - p.leading_cells_to_skip,
{
}

/// For a table of a header row and `n` data rows of uniform width `w`, the
/// policy that drops the header and one leading cell returns exactly `n`
/// rows, each of width `w - 1`.
pub proof fn lemma_uniform_table_shape(rows: Seq<Seq<CellV>>, p: ExtractionPolicy, n: int, w: int)
    requires
        p.skip_header_row,
        p.leading_cells_to_skip == 1,
        p.min_cells == 1,
        !p.split_last_cell_link,
        n >= 0,
        w >= 2,
        rows.len() == n + 1,
        forall|i: int| 0 <= i < rows.len() ==> (#[trigger] rows[i]).len() == w,
    ensures
        spec_apply_policy(rows, p).len() == n,
        forall|i: int| 0 <= i < n ==> (#[trigger] spec_apply_policy(rows, p)[i]).len() == w - 1,
{
    let data = spec_data_rows(rows, p);
    assert(data =~= rows.skip(1));
    assert forall|i: int| 0 <= i < data.len() implies spec_keep_row(#[trigger] data[i], p) by {
        assert(data[i] == rows[i + 1]);
    }
    lemma_extract_all_kept(data, p);
    assert forall|i: int|
        0 <= i < n implies (#[trigger] spec_apply_policy(rows, p)[i]).len() == w - 1 by {
        assert(data[i] == rows[i + 1]);
        lemma_transform_row_width(data[i], p);
    }
}

/// Dropping a row below the cell minimum changes nothing: the grid equals
/// the grid of the table without that row, and no error arises (extraction
/// is total).
pub proof fn lemma_malformed_row_dropped(rows: Seq<Seq<CellV>>, p: ExtractionPolicy, i: int)
    requires
        0 <= i < rows.len(),
        !spec_keep_row(rows[i], p),
        p.skip_header_row ==> i >= 1,
    ensures
        spec_apply_policy(rows, p) == spec_apply_policy(rows.remove(i), p),
{
    if p.skip_header_row {
        assert(rows.remove(i).skip(1) =~= rows.skip(1).remove(i - 1));
        assert(rows.skip(1)[i - 1] == rows[i]);
        lemma_extract_remove(rows.skip(1), p, i - 1);
    } else {
        lemma_extract_remove(rows, p, i);
    }
}

/// Removing a dropped row does not change the extracted grid.
proof fn lemma_extract_remove(rows: Seq<Seq<CellV>>, p: ExtractionPolicy, i: int)
    requires
        0 <= i < rows.len(),
        !spec_keep_row(rows[i], p),
    ensures
        spec_extract_rows(rows.remove(i), p) == spec_extract_rows(rows, p),
    decreases rows.len(),
{
    if i == 0 {
        assert(rows.remove(0) =~= rows.skip(1));
    } else {
        assert(rows.remove(i).skip(1) =~= rows.skip(1).remove(i - 1));
        assert(rows.skip(1)[i - 1] == rows[i]);
        lemma_extract_remove(rows.skip(1), p, i - 1);
        assert(rows.remove(i)[0] == rows[0]);
    }
}

/// When the policy splits the last cell, a surviving row ends in the last
/// retained cell's text followed by its link target: the `href` of its first
/// anchor, or the empty string when the cell has no anchor.
pub proof fn lemma_link_split(row: Seq<CellV>, p: ExtractionPolicy)
    requires
        p.split_last_cell_link,
        row.len() > p.leading_cells_to_skip,
    ensures
        spec_transform_row(row, p).len() == row.len() - p.leading_cells_to_skip + 1,
        spec_transform_row(row, p)[spec_transform_row(row, p).len() - 2] == spec_cell_value(
            row.last(),
            p.trim_cells,
        ),
        row.last().link matches Some(l) ==> spec_transform_row(row, p).last() == l.href,
        row.last().link is None ==> spec_transform_row(row, p).last() == Seq::<char>::empty(),
{
    let kept = spec_kept_cells(row, p);
    assert(kept.last() == row.last());
    let vals = kept.map_values(|c: CellV| spec_cell_value(c, p.trim_cells));
    assert(vals[kept.len() - 1] == spec_cell_value(kept[kept.len() - 1], p.trim_cells));
}

/// Extracts a table from raw page text: locates the first node matching the
/// selector, fails with `TableNotFound` when there is none, and otherwise
/// applies the policy to the table's rows.
pub fn extract_table(body: &str, table_sel: &str, p: &ExtractionPolicy) -> (r: Result<
    Vec<Vec<String>>,
    ExtractError,
>)
    ensures
        match r {
            Ok(grid) => table_cells_of(body@, table_sel@) matches Some(rows) && grid.deep_view()
                == spec_apply_policy(rows, *p),
            Err(e) => e == ExtractError::TableNotFound && table_cells_of(body@, table_sel@)
                is None,
        },
{
    match select_table_cells(body, table_sel) {
        Some(rows) => Ok(extract_rows(&rows, p)),
        None => Err(ExtractError::TableNotFound),
    }
}

} // verus!
