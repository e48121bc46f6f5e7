use vstd::prelude::*;
use crate::common::TableData;
use crate::html::{select_subtable_html, select_table_cells, subtable_html_of, table_cells_of, CellV, LinkV};
use crate::table::ExtractError;

verus! {

/// The news/blogs endpoint.
///
/// Its page holds one container with two nested tables — news first, blogs
/// second — and each row derives a synthetic source name from its link's
/// path segments.
pub struct News {}

/// The two grids scraped from the news page.
#[derive(Debug)]
pub struct NewsData {
    /// The rows of the news table.
    pub news: TableData,
    /// The rows of the blogs table.
    pub blogs: TableData,
}

/// The pieces of a string split on a separator: `n` separators yield `n + 1`
/// segments, empty segments included.
pub open spec fn spec_segments(s: Seq<char>, sep: char) -> Seq<Seq<char>>
    decreases s.len(),
{
    if s.len() == 0 {
        seq![Seq::<char>::empty()]
    } else if s[0] == sep {
        seq![Seq::<char>::empty()] + spec_segments(s.skip(1), sep)
    } else {
        let rest = spec_segments(s.skip(1), sep);
        seq![seq![s[0]] + rest[0]] + rest.skip(1)
    }
}

/// A split always yields at least one segment.
proof fn lemma_segments_len(s: Seq<char>, sep: char)
    ensures
        spec_segments(s, sep).len() >= 1,
    decreases s.len(),
{
    if s.len() > 0 {
        lemma_segments_len(s.skip(1), sep);
    }
}

/// Whether the pattern occurs in the haystack at position `i`.
pub open spec fn char_matches_at(hay: Seq<char>, pat: Seq<char>, i: int) -> bool {
    0 <= i && i + pat.len() <= hay.len() && hay.subrange(i, i + pat.len()) == pat
}

/// Whether the pattern occurs in the haystack at all.
pub open spec fn has_char_match(hay: Seq<char>, pat: Seq<char>) -> bool {
    exists|i: int| char_matches_at(hay, pat, i)
}

/// Whether the pattern occurs as a prefix of the haystack at position `i`,
/// decided by comparing characters.
fn char_prefix_at(s: &str, pat: &str, i: usize, slen: usize, plen: usize) -> (r: bool)
    requires
        slen == s@.len(),
        plen == pat@.len(),
        i + plen <= slen,
    ensures
        r == char_matches_at(s@, pat@, i as int),
{
    let mut k: usize = 0;
    while k < plen
        invariant
            slen == s@.len(),
            plen == pat@.len(),
            i + plen <= slen,
            k <= plen,
            forall|m: int| 0 <= m < k ==> s@[i + m] == pat@[m],
        decreases plen - k,
    {
        if s.get_char(i + k) != pat.get_char(k) {
            proof {
                if char_matches_at(s@, pat@, i as int) {
                    assert(s@.subrange(i as int, i + pat@.len())[k as int] == s@[i + k]);
                }
            }
            return false;
        }
        k = k + 1;
    }
    proof {
        assert(s@.subrange(i as int, i + pat@.len()) =~= pat@);
    }
    true
}

/// Whether one string contains another, compared character by character.
fn contains_chars(s: &str, pat: &str) -> (r: bool)
    ensures
        r == has_char_match(s@, pat@),
{
    let slen: usize = s.unicode_len();
    let plen: usize = pat.unicode_len();
    if plen > slen {
        proof {
            assert(forall|j: int| !char_matches_at(s@, pat@, j));
        }
        return false;
    }
    let end: usize = slen - plen;
    let mut i: usize = 0;
    while i < end
        invariant
            slen == s@.len(),
            plen == pat@.len(),
            plen <= slen,
            end == slen - plen,
            i <= end,
            forall|j: int| 0 <= j < i ==> !char_matches_at(s@, pat@, j),
        decreases end - i,
    {
        if char_prefix_at(s, pat, i, slen, plen) {
            return true;
        }
        i = i + 1;
    }
    if char_prefix_at(s, pat, end, slen, plen) {
        return true;
    }
    proof {
        assert forall|j: int| !char_matches_at(s@, pat@, j) by {
            if char_matches_at(s@, pat@, j) {
                assert(0 <= j <= end);
            }
        }
    }
    false
}

/// Returns the `n`th `/`-separated segment of a string, or `None` when the
/// string has fewer segments.
fn nth_segment(s: &str, n: usize) -> (r: Option<String>)
    ensures
        match r {
            Some(seg) => n < spec_segments(s@, '/').len() && seg@ == spec_segments(s@, '/')[n as int],
            None => n >= spec_segments(s@, '/').len(),
        },
{
    let len: usize = s.unicode_len();
    let ghost full = s@;
    let ghost segs = spec_segments(full, '/');
    proof {
        lemma_segments_len(full, '/');
        assert(full.skip(0) =~= full);
        assert(full.subrange(0, 0) + segs[0] =~= segs[0]);
    }
    let mut i: usize = 0;
    let mut seen: usize = 0;
    let mut seg_start: usize = 0;
    while i < len
        invariant
            seg_start <= i <= len,
            len == full.len(),
            full == s@,
            seen <= n,
            segs == spec_segments(full, '/'),
            ({
                let rest = spec_segments(full.skip(i as int), '/');
                &&& segs.len() == seen + rest.len()
                &&& segs[seen as int] == full.subrange(seg_start as int, i as int) + rest[0]
                &&& forall|j: int| 1 <= j < rest.len() ==> segs[seen + j] == #[trigger] rest[j]
            }),
        decreases len - i,
    {
        let ghost rest = spec_segments(full.skip(i as int), '/');
        let ghost rest2 = spec_segments(full.skip(i as int + 1), '/');
        proof {
            lemma_segments_len(full.skip(i as int + 1), '/');
        }
        let c = s.get_char(i);
        proof {
            assert(full.skip(i as int)[0] == full[i as int]);
            assert(full.skip(i as int).skip(1) =~= full.skip(i as int + 1));
        }
        if c == '/' {
            proof {
                assert(rest =~= seq![Seq::<char>::empty()] + rest2);
                assert(rest[0] =~= Seq::<char>::empty());
                assert(segs[seen as int] =~= full.subrange(seg_start as int, i as int));
            }
            if seen == n {
                let seg = s.substring_char(seg_start, i);
                return Some(seg.to_owned());
            }
            seen = seen + 1;
            seg_start = i + 1;
            proof {
                assert(rest[1] == rest2[0]);
                assert(segs[seen as int] == rest2[0]);
                assert(full.subrange(seg_start as int, seg_start as int) + rest2[0] =~= rest2[0]);
                assert forall|j: int| 1 <= j < rest2.len() implies segs[seen + j] == #[trigger] rest2[j] by {
                    assert(rest[j + 1] == rest2[j]);
                    assert(segs[seen - 1 + (j + 1)] == rest[j + 1]);
                }
            }
        } else {
            proof {
                assert(rest =~= seq![seq![full[i as int]] + rest2[0]] + rest2.skip(1));
                assert(full.subrange(seg_start as int, i as int + 1) =~= full.subrange(
                    seg_start as int,
                    i as int,
                ) + seq![full[i as int]]);
                assert(segs[seen as int] =~= full.subrange(seg_start as int, i as int + 1)
                    + rest2[0]);
                assert forall|j: int| 1 <= j < rest2.len() implies segs[seen + j] == #[trigger] rest2[j] by {
                    assert(rest[j] == rest2.skip(1)[j - 1]);
                    assert(rest2.skip(1)[j - 1] == rest2[j]);
                }
            }
        }
        i = i + 1;
    }
    proof {
        assert(full.skip(len as int) =~= Seq::<char>::empty());
        assert(spec_segments(full.skip(len as int), '/') =~= seq![Seq::<char>::empty()]);
        assert(segs.len() == seen + 1);
    }
    if seen == n {
        let seg = s.substring_char(seg_start, len);
        proof {
            assert(segs[n as int] =~= full.subrange(seg_start as int, len as int));
        }
        Some(seg.to_owned())
    } else {
        None
    }
}

/// The fixed marker that identifies a feed-proxy link.
pub open spec fn spec_proxy_marker() -> Seq<char> {
    "feedproxy.google.com"@
}

/// The index of the path segment that names a link's source: the fifth
/// segment for a feed-proxy link, the third otherwise.
pub open spec fn spec_source_index(href: Seq<char>) -> int {
    if has_char_match(href, spec_proxy_marker()) {
        4
    } else {
        2
    }
}

/// The source name derived from a link: the chosen `/`-separated path
/// segment, or `None` when the link has too few segments. The fixed
/// segment-index rule is a heuristic — a malformed or relative link yields
/// whatever stands at that segment.
pub open spec fn spec_news_source(href: Seq<char>) -> Option<Seq<char>> {
    let segs = spec_segments(href, '/');
    if spec_source_index(href) < segs.len() {
        Some(segs[spec_source_index(href)])
    } else {
        None
    }
}

/// Derives the source name from a link.
fn source_of(href: &String) -> (r: Option<String>)
    ensures
        match r {
            Some(src) => spec_news_source(href@) == Some(src@),
            None => spec_news_source(href@) is None,
        },
{
    let idx: usize = if contains_chars(href.as_str(), "feedproxy.google.com") {
        4
    } else {
        2
    };
    nth_segment(href.as_str(), idx)
}

/// The anchor a news row is built from: the first anchor of the row's third
/// cell; a row with fewer cells or no anchor is skipped.
pub open spec fn spec_news_item(row: Seq<CellV>) -> Option<LinkV> {
    if row.len() >= 3 {
        row[2].link
    } else {
        None
    }
}

/// The rows of one news table: per source row its date text, its title (the
/// anchor's inner markup), the derived source name and the link target.
/// Rows without enough cells or without an anchor are silently skipped; a
/// link with too few path segments fails the whole parse.
pub open spec fn spec_news_rows(rows: Seq<Seq<CellV>>) -> Result<Seq<Seq<Seq<char>>>, ExtractError>
    decreases rows.len(),
{
    if rows.len() == 0 {
        Ok(Seq::empty())
    } else {
        match spec_news_item(rows[0]) {
            None => spec_news_rows(rows.skip(1)),
            Some(l) => match spec_news_source(l.href) {
                None => Err(ExtractError::SourceNotFound),
                Some(src) => match spec_news_rows(rows.skip(1)) {
                    Ok(rs) => Ok(seq![seq![rows[0][1].text, l.label, src, l.href]] + rs),
                    Err(e) => Err(e),
                },
            },
        }
    }
}

/// The mathematical value of a news-extraction result.
pub open spec fn spec_news_result(r: Result<NewsData, ExtractError>) -> Result<
    (Seq<Seq<Seq<char>>>, Seq<Seq<Seq<char>>>),
    ExtractError,
> {
    match r {
        Ok(d) => Ok((d.news.deep_view(), d.blogs.deep_view())),
        Err(e) => Err(e),
    }
}

/// The whole contract of news extraction over a result's mathematical
/// value: the page's news container holds the two tables — news first,
/// blogs second — and each is parsed by the news-row rules.
pub open spec fn spec_news_post(
    body: Seq<char>,
    r: Result<(Seq<Seq<Seq<char>>>, Seq<Seq<Seq<char>>>), ExtractError>,
) -> bool {
    match subtable_html_of(body, "#news table"@) {
        None => r == Err::<(Seq<Seq<Seq<char>>>, Seq<Seq<Seq<char>>>), ExtractError>(
            ExtractError::TableNotFound,
        ),
        Some(tables) => if tables.len() < 2 {
            r == Err::<(Seq<Seq<Seq<char>>>, Seq<Seq<Seq<char>>>), ExtractError>(
                ExtractError::MissingSubTable,
            )
        } else {
            match (table_cells_of(tables[0], "table"@), table_cells_of(tables[1], "table"@)) {
                (Some(t0), Some(t1)) => match spec_news_rows(t0) {
                    Err(e) => r == Err::<
                        (Seq<Seq<Seq<char>>>, Seq<Seq<Seq<char>>>),
                        ExtractError,
                    >(e),
                    Ok(n) => match spec_news_rows(t1) {
                        Err(e) => r == Err::<
                            (Seq<Seq<Seq<char>>>, Seq<Seq<Seq<char>>>),
                            ExtractError,
                        >(e),
                        Ok(b) => r == Ok::<
                            (Seq<Seq<Seq<char>>>, Seq<Seq<Seq<char>>>),
                            ExtractError,
                        >((n, b)),
                    },
                },
                _ => r == Err::<(Seq<Seq<Seq<char>>>, Seq<Seq<Seq<char>>>), ExtractError>(
                    ExtractError::TableNotFound,
                ),
            }
        },
    }
}

/// Parses the rows of one news table.
fn parse_news_rows(rows: &Vec<Vec<crate::html::Cell>>) -> (r: Result<TableData, ExtractError>)
    ensures
        match r {
            Ok(grid) => spec_news_rows(rows.deep_view()) == Ok::<
                Seq<Seq<Seq<char>>>,
                ExtractError,
            >(grid.deep_view()),
            Err(e) => spec_news_rows(rows.deep_view()) == Err::<
                Seq<Seq<Seq<char>>>,
                ExtractError,
            >(e),
        },
{
    let ghost rowsv = rows.deep_view();
    let mut out: Vec<Vec<String>> = Vec::new();
    proof {
        assert(rowsv.skip(0) =~= rowsv);
    }
    let mut i: usize = 0;
    while i < rows.len()
        invariant
            i <= rows.len(),
            rowsv == rows.deep_view(),
            rowsv.len() == rows.len(),
            spec_news_rows(rowsv) == (match spec_news_rows(rowsv.skip(i as int)) {
                Ok(rs) => Ok::<Seq<Seq<Seq<char>>>, ExtractError>(out.deep_view() + rs),
                Err(e) => Err(e),
            }),
        decreases rows.len() - i,
    {
        let ghost pre = rowsv.skip(i as int);
        let ghost done = out.deep_view();
        proof {
            assert(pre[0] == rowsv[i as int]);
            assert(pre.skip(1) =~= rowsv.skip(i as int + 1));
        }
        let row = &rows[i];
        if row.len() >= 3 {
            let cell = &row[2];
            match &cell.link {
                Some(l) => {
                    match source_of(&l.href) {
                        Some(src) => {
                            let mut item: Vec<String> = Vec::new();
                            item.push(row[1].text.clone());
                            item.push(l.label.clone());
                            item.push(src);
                            item.push(l.href.clone());
                            proof {
                                let lv = spec_news_item(rowsv[i as int])->Some_0;
                                assert(item.deep_view() =~= seq![
                                    rowsv[i as int][1].text,
                                    lv.label,
                                    spec_news_source(lv.href)->Some_0,
                                    lv.href,
                                ]);
                            }
                            out.push(item);
                            proof {
                                let lv = spec_news_item(rowsv[i as int])->Some_0;
                                let itemv = seq![
                                    rowsv[i as int][1].text,
                                    lv.label,
                                    spec_news_source(lv.href)->Some_0,
                                    lv.href,
                                ];
                                assert(out.deep_view() =~= done.push(itemv));
                                if spec_news_rows(rowsv.skip(i as int + 1)) is Ok {
                                    let rs = spec_news_rows(rowsv.skip(i as int + 1))->Ok_0;
                                    assert(done + (seq![itemv] + rs) =~= done.push(itemv) + rs);
                                }
                            }
                        },
                        None => {
                            return Err(ExtractError::SourceNotFound);
                        },
                    }
                },
                None => {
                    proof {
                        assert(spec_news_item(rowsv[i as int]) is None);
                    }
                },
            }
        } else {
            proof {
                assert(spec_news_item(rowsv[i as int]) is None);
            }
        }
        i = i + 1;
    }
    proof {
        assert(rowsv.skip(rows.len() as int) =~= Seq::<Seq<CellV>>::empty());
        if spec_news_rows(rowsv) is Ok {
            assert(out.deep_view() + Seq::<Seq<Seq<char>>>::empty() =~= out.deep_view());
        }
    }
    Ok(out)
}

impl News {
    /// The fixed URL of the endpoint, as a mathematical value.
    pub open spec fn spec_url() -> Seq<char> {
        "https://finviz.com/news.ashx"@
    }

    /// Creates a new `News`.
    pub fn new() -> (r: Self)
        ensures
            r == (News {  }),
    {
        Self {  }
    }

    /// The fixed URL of the endpoint.
    pub fn get_url(&self) -> (r: String)
        ensures
            r@ == Self::spec_url(),
    {
        "https://finviz.com/news.ashx".to_owned()
    }

    /// The header of a news or blogs grid.
    pub fn default_header() -> (r: Vec<String>)
        ensures
            r.deep_view() == seq!["Time"@, "Title"@, "Source"@, "Link"@],
    {
        let mut v: Vec<String> = Vec::new();
        v.push("Time".to_owned());
        v.push("Title".to_owned());
        v.push("Source".to_owned());
        v.push("Link".to_owned());
        proof {
            assert(v.deep_view() =~= seq!["Time"@, "Title"@, "Source"@, "Link"@]);
        }
        v
    }

    /// Extracts the news and blogs grids from raw page text: the first table
    /// of the page's news container yields the news rows, the second the
    /// blog rows.
    ///
    /// Fails with `TableNotFound` when the container is absent, with
    /// `MissingSubTable` when it holds fewer than two tables, and with
    /// `SourceNotFound` when a row's link has too few path segments to name
    /// a source.
    pub fn extract(&self, body: &str) -> (r: Result<NewsData, ExtractError>)
        ensures
            spec_news_post(body@, spec_news_result(r)),
    {
        let tables = match select_subtable_html(body, "#news table") {
            Some(t) => t,
            None => {
                return Err(ExtractError::TableNotFound);
            },
        };
        if tables.len() < 2 {
            return Err(ExtractError::MissingSubTable);
        }
        proof {
            assert(tables.deep_view()[0] == subtable_html_of(body@, "#news table"@)->Some_0[0]);
            assert(tables.deep_view()[1] == subtable_html_of(body@, "#news table"@)->Some_0[1]);
        }
        let news_cells = match select_table_cells(tables[0].as_str(), "table") {
            Some(t) => t,
            None => {
                return Err(ExtractError::TableNotFound);
            },
        };
        let blog_cells = match select_table_cells(tables[1].as_str(), "table") {
            Some(t) => t,
            None => {
                return Err(ExtractError::TableNotFound);
            },
        };
        let news = match parse_news_rows(&news_cells) {
            Ok(n) => n,
            Err(e) => {
                return Err(e);
            },
        };
        let blogs = match parse_news_rows(&blog_cells) {
            Ok(b) => b,
            Err(e) => {
                return Err(e);
            },
        };
        Ok(NewsData { news, blogs })
    }
}

impl Default for News {
    /// The endpoint has no configuration: the default is the endpoint
    /// itself.
    fn default() -> (r: Self)
        ensures
            r == (News {  }),
    {
        Self::new()
    }
}

} // verus!
