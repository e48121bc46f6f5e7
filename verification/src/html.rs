use vstd::prelude::*;
use scraper::{Html, Selector};

verus! {

/// The first anchor element found inside a table cell: its `href` attribute
/// (empty when the attribute is absent) and its inner markup.
pub struct Link {
    pub href: String,
    pub label: String,
}

/// One table cell as the HTML parser yields it: the cell's flattened text
/// content and its first anchor, if any.
pub struct Cell {
    pub text: String,
    pub link: Option<Link>,
}

/// The mathematical value of a `Link`.
pub ghost struct LinkV {
    pub href: Seq<char>,
    pub label: Seq<char>,
}

/// The mathematical value of a `Cell`.
pub ghost struct CellV {
    pub text: Seq<char>,
    pub link: Option<LinkV>,
}

impl View for Link {
    type V = LinkV;

    open spec fn view(&self) -> LinkV {
        LinkV { href: self.href@, label: self.label@ }
    }
}

impl DeepView for Link {
    type V = LinkV;

    open spec fn deep_view(&self) -> LinkV {
        self@
    }
}

impl View for Cell {
    type V = CellV;

    open spec fn view(&self) -> CellV {
        CellV {
            text: self.text@,
            link: match self.link {
                Some(l) => Some(l@),
                None => None,
            },
        }
    }
}

impl DeepView for Cell {
    type V = CellV;

    open spec fn deep_view(&self) -> CellV {
        self@
    }
}

/// What the HTML parser yields for the first element matching a table
/// selector: `None` when nothing matches, otherwise that element's rows in
/// document order, each row its cells in document order.
pub uninterp spec fn table_cells_of(body: Seq<char>, table_sel: Seq<char>) -> Option<
    Seq<Seq<CellV>>,
>;

/// What the HTML parser yields for a row selector: every matching row in
/// document order, each row its cells in document order.
pub uninterp spec fn row_cells_of(body: Seq<char>, row_sel: Seq<char>) -> Seq<Seq<CellV>>;

/// What the HTML parser yields for the tables nested inside the first
/// element matching a container selector: `None` when no container matches,
/// otherwise the nested tables in document order, each serialized back to
/// its own HTML text.
pub uninterp spec fn subtable_html_of(body: Seq<char>, container_sel: Seq<char>) -> Option<
    Seq<Seq<char>>,
>;

/// Relies on scraper's `Html::parse_document` and CSS selection: the first
/// element matching `table_sel`, its `tr` descendants in document order, and
/// per row its `td` descendants, each cell carrying its flattened text and
/// its first `a` descendant (`href` attribute and inner markup).
#[verifier::external_body]
pub(crate) fn select_table_cells(body: &str, table_sel: &str) -> (r: Option<Vec<Vec<Cell>>>)
    ensures
        r.deep_view() == table_cells_of(body@, table_sel@),
{
    let doc = Html::parse_document(body);
    let s = |x| Selector::parse(x).ok();
    let (tsel, rsel, csel, asel) = (s(table_sel)?, s("tr")?, s("td")?, s("a")?);
    let cell = |c: scraper::ElementRef| Cell {
        text: c.text().collect(),
        link: c.select(&asel).next().map(|a| Link { href: a.attr("href").unwrap_or("").to_owned(), label: a.inner_html() }),
    };
    let table = doc.select(&tsel).next()?;
    Some(table.select(&rsel).map(|r| r.select(&csel).map(cell).collect()).collect())
}

/// Relies on scraper's `Html::parse_document` and CSS selection: every
/// element matching `row_sel` in document order, each given as its `td`
/// descendants with flattened text and first `a` descendant; an unparsable
/// selector yields no rows.
#[verifier::external_body]
pub(crate) fn select_row_cells(body: &str, row_sel: &str) -> (r: Vec<Vec<Cell>>)
    ensures
        r.deep_view() == row_cells_of(body@, row_sel@),
{
    let doc = Html::parse_document(body);
    let s = |x| Selector::parse(x).ok();
    let (Some(rsel), Some(csel), Some(asel)) = (s(row_sel), s("td"), s("a")) else {
        return Vec::new();
    };
    let cell = |c: scraper::ElementRef| Cell {
        text: c.text().collect(),
        link: c.select(&asel).next().map(|a| Link { href: a.attr("href").unwrap_or("").to_owned(), label: a.inner_html() }),
    };
    doc.select(&rsel).map(|r| r.select(&csel).map(cell).collect()).collect()
}

/// Relies on scraper's `Html::parse_document`, CSS selection and
/// `ElementRef::html`: the `table` descendants of the first element matching
/// `container_sel`, in document order, each serialized back to its own HTML
/// text.
#[verifier::external_body]
pub(crate) fn select_subtable_html(body: &str, container_sel: &str) -> (r: Option<Vec<String>>)
    ensures
        r.deep_view() == subtable_html_of(body@, container_sel@),
{
    let doc = Html::parse_document(body);
    let s = |x| Selector::parse(x).ok();
    let (sel, tsel) = (s(container_sel)?, s("table")?);
    Some(doc.select(&sel).next()?.select(&tsel).map(|t| t.html()).collect())
}

} // verus!
