use vstd::prelude::*;
use crate::dict::{spec_dict_insert, DictData};
use crate::html::{row_cells_of, select_row_cells, Cell, CellV};

verus! {

/// The time frame of a ticker chart.
#[allow(dead_code)]
#[derive(Clone, Copy)]
pub enum TimeFrameType {
    Daily,
    Weekly,
    Monthly,
}

impl TimeFrameType {
    /// The readable name of each time frame, as a mathematical value.
    pub open spec fn spec_token(self) -> Seq<char> {
        match self {
            TimeFrameType::Daily => "daily"@,
            TimeFrameType::Weekly => "weekly"@,
            TimeFrameType::Monthly => "monthly"@,
        }
    }

    /// The one-letter form the chart URL carries, as a mathematical value.
    pub open spec fn spec_letter(self) -> Seq<char> {
        match self {
            TimeFrameType::Daily => "d"@,
            TimeFrameType::Weekly => "w"@,
            TimeFrameType::Monthly => "m"@,
        }
    }

    /// Resolves the time frame to its readable name.
    pub fn token(&self) -> (r: &'static str)
        ensures
            r@ == self.spec_token(),
    {
        match self {
            TimeFrameType::Daily => "daily",
            TimeFrameType::Weekly => "weekly",
            TimeFrameType::Monthly => "monthly",
        }
    }
}

/// The style of a ticker chart.
#[allow(dead_code)]
#[derive(Clone, Copy)]
pub enum ChartType {
    CANDLE,
    LINE,
    ADVANCED,
}

impl ChartType {
    /// The readable name of each style, as a mathematical value.
    pub open spec fn spec_token(self) -> Seq<char> {
        match self {
            ChartType::CANDLE => "candle"@,
            ChartType::LINE => "line"@,
            ChartType::ADVANCED => "advanced"@,
        }
    }

    /// Resolves the style to its readable name.
    pub fn token(&self) -> (r: &'static str)
        ensures
            r@ == self.spec_token(),
    {
        match self {
            ChartType::CANDLE => "candle",
            ChartType::LINE => "line",
            ChartType::ADVANCED => "advanced",
        }
    }
}

/// The per-ticker endpoints: the fundamentals page and the chart image.
pub struct Tickers {
    pub ticker: String,
}

/// The key/value pairs of one fundamentals row: consecutive cells paired up,
/// an odd trailing cell dropped.
pub open spec fn spec_row_pairs(row: Seq<CellV>) -> Seq<(Seq<char>, Seq<char>)>
    decreases row.len(),
{
    if row.len() < 2 {
        Seq::empty()
    } else {
        seq![(row[0].text, row[1].text)] + spec_row_pairs(row.skip(2))
    }
}

/// The key/value pairs of all fundamentals rows, in document order.
pub open spec fn spec_pairs(rows: Seq<Seq<CellV>>) -> Seq<(Seq<char>, Seq<char>)>
    decreases rows.len(),
{
    if rows.len() == 0 {
        Seq::empty()
    } else {
        spec_row_pairs(rows[0]) + spec_pairs(rows.skip(1))
    }
}

/// Pairs folded into a dictionary in order: a later value for the same key
/// replaces the earlier one.
pub open spec fn spec_dict_fold(pairs: Seq<(Seq<char>, Seq<char>)>) -> Seq<
    (Seq<char>, Seq<char>),
>
    decreases pairs.len(),
{
    if pairs.len() == 0 {
        Seq::empty()
    } else {
        spec_dict_insert(spec_dict_fold(pairs.drop_last()), pairs.last().0, pairs.last().1)
    }
}

/// Collects the key/value pairs of the fundamentals rows.
fn collect_pairs(rows: &Vec<Vec<Cell>>) -> (r: Vec<(String, String)>)
    ensures
        r.deep_view() == spec_pairs(rows.deep_view()),
{
    let ghost rowsv = rows.deep_view();
    let mut pairs: Vec<(String, String)> = Vec::new();
    proof {
        assert(rowsv.skip(0) =~= rowsv);
        assert(pairs.deep_view() + spec_pairs(rowsv) =~= spec_pairs(rowsv));
    }
    let mut i: usize = 0;
    while i < rows.len()
        invariant
            i <= rows.len(),
            rowsv == rows.deep_view(),
            rowsv.len() == rows.len(),
            spec_pairs(rowsv) == pairs.deep_view() + spec_pairs(rowsv.skip(i as int)),
        decreases rows.len() - i,
    {
        let ghost done = pairs.deep_view();
        proof {
            assert(rowsv.skip(i as int)[0] == rowsv[i as int]);
            assert(rowsv.skip(i as int).skip(1) =~= rowsv.skip(i as int + 1));
        }
        let row = &rows[i];
        let ghost rowv = rowsv[i as int];
        let rl: usize = row.len();
        let mut j: usize = 0;
        proof {
            assert(rowv.skip(0) =~= rowv);
        }
        if rl >= 2 {
            while j < rl - 1
                invariant
                    j <= rl,
                    rl >= 2,
                    rowsv == rows.deep_view(),
                    rowsv.len() == rows.len(),
                    i < rows.len(),
                    row == &rows[i as int],
                    rowv == rowsv[i as int],
                    rowv.len() == rl,
                    done + spec_row_pairs(rowv) == pairs.deep_view() + spec_row_pairs(
                        rowv.skip(j as int),
                    ),
                decreases rl - j,
            {
                let ghost sofar = pairs.deep_view();
                let pair = (row[j].text.clone(), row[j + 1].text.clone());
                let ghost pairv = pair.deep_view();
                proof {
                    assert(rowv.skip(j as int)[0] == rowv[j as int]);
                    assert(rowv.skip(j as int)[1] == rowv[j as int + 1]);
                    assert(pairv == (rowv[j as int].text, rowv[j as int + 1].text));
                    assert(rowv.skip(j as int).skip(2) =~= rowv.skip(j as int + 2));
                }
                pairs.push(pair);
                proof {
                    assert(pairs.deep_view() =~= sofar.push(pairv));
                    assert(sofar + (seq![pairv] + spec_row_pairs(rowv.skip(j as int + 2)))
                        =~= sofar.push(pairv) + spec_row_pairs(rowv.skip(j as int + 2)));
                }
                j = j + 2;
            }
        }
        proof {
            assert(spec_row_pairs(rowv.skip(j as int)) =~= Seq::<(Seq<char>, Seq<char>)>::empty());
            assert(done + spec_row_pairs(rowv) =~= pairs.deep_view());
        }
        i = i + 1;
    }
    proof {
        assert(rowsv.skip(rows.len() as int) =~= Seq::<Seq<CellV>>::empty());
        assert(spec_pairs(rowsv) =~= pairs.deep_view());
    }
    pairs
}

/// Folds key/value pairs into a dictionary, in order.
fn dict_from_pairs(pairs: &Vec<(String, String)>) -> (r: DictData)
    ensures
        r@ == spec_dict_fold(pairs.deep_view()),
        r.wf(),
{
    let ghost pairsv = pairs.deep_view();
    let mut d = DictData::new();
    proof {
        assert(pairsv.take(0) =~= Seq::<(Seq<char>, Seq<char>)>::empty());
    }
    let mut i: usize = 0;
    while i < pairs.len()
        invariant
            i <= pairs.len(),
            pairsv == pairs.deep_view(),
            pairsv.len() == pairs.len(),
            d@ == spec_dict_fold(pairsv.take(i as int)),
            d.wf(),
        decreases pairs.len() - i,
    {
        let e = &pairs[i];
        proof {
            assert(pairsv.take(i as int + 1).drop_last() =~= pairsv.take(i as int));
            assert(pairsv.take(i as int + 1).last() == pairsv[i as int]);
        }
        d.insert(e.0.clone(), e.1.clone());
        i = i + 1;
    }
    proof {
        assert(pairsv.take(pairs.len() as int) =~= pairsv);
    }
    d
}

impl Tickers {
    /// The URL of the ticker's fundamentals page, as a mathematical value.
    pub open spec fn spec_quote_url(self) -> Seq<char> {
        "https://finviz.com/quote.ashx?t="@ + self.ticker@
    }

    /// The URL of the ticker's chart image, as a mathematical value: the
    /// line style asks for `ty=l`, both others for `ty=c`; technical
    /// analysis (`ta=1`) is drawn only on the daily advanced chart.
    pub open spec fn spec_chart_url(self, timeframe: TimeFrameType, charttype: ChartType) -> Seq<
        char,
    > {
        let ty = match charttype {
            ChartType::LINE => "l"@,
            ChartType::CANDLE => "c"@,
            ChartType::ADVANCED => "c"@,
        };
        let ta = match (charttype, timeframe) {
            (ChartType::ADVANCED, TimeFrameType::Daily) => "1"@,
            _ => "0"@,
        };
        "https://finviz.com/chart.ashx?t="@ + self.ticker@ + "&ty="@ + ty + "&ta="@ + ta + "&p="@
            + timeframe.spec_letter()
    }

    /// Creates a new `Tickers` for the given ticker symbol.
    pub fn new(ticker: &str) -> (r: Self)
        ensures
            r.ticker@ == ticker@,
    {
        Self { ticker: ticker.to_owned() }
    }

    /// The URL of the ticker's fundamentals page.
    pub fn quote_url(&self) -> (r: String)
        ensures
            r@ == self.spec_quote_url(),
    {
        let mut url = "https://finviz.com/quote.ashx?t=".to_owned();
        url.append(self.ticker.as_str());
        url
    }

    /// The URL of the ticker's chart image for the given time frame and
    /// style.
    pub fn chart_url(&self, timeframe: TimeFrameType, charttype: ChartType) -> (r: String)
        ensures
            r@ == self.spec_chart_url(timeframe, charttype),
    {
        let ty: &'static str = match charttype {
            ChartType::LINE => "l",
            ChartType::CANDLE => "c",
            ChartType::ADVANCED => "c",
        };
        let ta: &'static str = match (charttype, timeframe) {
            (ChartType::ADVANCED, TimeFrameType::Daily) => "1",
            _ => "0",
        };
        let p: &'static str = match timeframe {
            TimeFrameType::Daily => "d",
            TimeFrameType::Weekly => "w",
            TimeFrameType::Monthly => "m",
        };
        let mut url = "https://finviz.com/chart.ashx?t=".to_owned();
        url.append(self.ticker.as_str());
        url.append("&ty=");
        url.append(ty);
        url.append("&ta=");
        url.append(ta);
        url.append("&p=");
        url.append(p);
        url
    }

    /// Extracts the ticker's fundamental attributes from the raw text of its
    /// quote page: the cells of every snapshot-table row are paired up into
    /// key/value entries — an odd trailing cell dropped — and gathered into
    /// a dictionary with lexicographic iteration order.
    pub fn fundament_from_body(&self, body: &str) -> (r: DictData)
        ensures
            r@ == spec_dict_fold(spec_pairs(row_cells_of(body@, "table.snapshot-table2 tr"@))),
            r.wf(),
    {
        let rows = select_row_cells(body, "table.snapshot-table2 tr");
        let pairs = collect_pairs(&rows);
        dict_from_pairs(&pairs)
    }
}

} // verus!
