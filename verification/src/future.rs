use vstd::prelude::*;
use vstd::string::StringSliceAdditionalSpecFns;
use crate::common::TableData;
use crate::embedded::{extract_embedded, spec_embedded_post, spec_grid_result};
use crate::table::ExtractError;

verus! {

/// The time frame of a futures-performance request.
#[allow(dead_code)]
#[derive(Clone, Copy)]
pub enum TimeFrame {
    Daily,
    Weekly,
    Monthly,
    Quarter,
    HalfYear,
    Year,
}

/// The futures-performance endpoint.
///
/// Its page embeds the table as a JSON array inside a script block; `extract`
/// locates the payload by marker substrings and projects a fixed set of
/// fields from each array element.
pub struct Future {
    pub timeframe: TimeFrame,
}

impl Future {
    /// The URL of the configuration, as a mathematical value.
    pub open spec fn spec_url(self) -> Seq<char> {
        match self.timeframe {
            TimeFrame::Daily => "https://finviz.com/futures_performance.ashx"@,
            TimeFrame::Weekly => "https://finviz.com/futures_performance.ashx"@ + "?v=12"@,
            TimeFrame::Monthly => "https://finviz.com/futures_performance.ashx"@ + "?v=13"@,
            TimeFrame::Quarter => "https://finviz.com/futures_performance.ashx"@ + "?v=14"@,
            TimeFrame::HalfYear => "https://finviz.com/futures_performance.ashx"@ + "?v=15"@,
            TimeFrame::Year => "https://finviz.com/futures_performance.ashx"@ + "?v=16"@,
        }
    }

    /// The marker that opens the embedded payload.
    pub open spec fn spec_start_marker() -> Seq<u8> {
        "var rows = ".spec_bytes()
    }

    /// The marker that closes the embedded payload.
    pub open spec fn spec_end_marker() -> Seq<u8> {
        "FinvizInitFuturesPerformance(rows);".spec_bytes()
    }

    /// The four projected fields, in their fixed order.
    pub open spec fn spec_fields() -> Seq<Seq<char>> {
        seq!["ticker"@, "label"@, "group"@, "perf"@]
    }

    /// Creates a new `Future` for the given time frame.
    pub fn new(timeframe: TimeFrame) -> (r: Self)
        ensures
            r == (Future { timeframe }),
    {
        Self { timeframe }
    }

    /// Serializes the configuration to its request URL.
    pub fn get_url(&self) -> (r: String)
        ensures
            r@ == self.spec_url(),
    {
        let mut url = "https://finviz.com/futures_performance.ashx".to_owned();
        match self.timeframe {
            TimeFrame::Daily => {},
            TimeFrame::Weekly => url.append("?v=12"),
            TimeFrame::Monthly => url.append("?v=13"),
            TimeFrame::Quarter => url.append("?v=14"),
            TimeFrame::HalfYear => url.append("?v=15"),
            TimeFrame::Year => url.append("?v=16"),
        }
        url
    }

    /// The header of the futures-performance table: the names of the four
    /// projected fields.
    pub fn default_header() -> (r: Vec<String>)
        ensures
            r.deep_view() == Self::spec_fields(),
    {
        let mut v: Vec<String> = Vec::new();
        v.push("ticker".to_owned());
        v.push("label".to_owned());
        v.push("group".to_owned());
        v.push("perf".to_owned());
        proof {
            assert(v.deep_view() =~= Self::spec_fields());
        }
        v
    }

    /// Extracts the futures-performance grid from raw page text: the JSON
    /// array between the page's marker substrings, each element projected to
    /// its ticker, label, group and performance fields.
    ///
    /// Fails with `MarkerNotFound` when either marker is absent and with
    /// `MalformedPayload` when the payload is not a JSON array.
    pub fn extract(&self, body: &str) -> (r: Result<TableData, ExtractError>)
        ensures
            spec_embedded_post(
                body.spec_bytes(),
                Self::spec_start_marker(),
                Self::spec_end_marker(),
                Self::spec_fields(),
                spec_grid_result(r),
            ),
    {
        let fields = Self::default_header();
        extract_embedded(
            body.as_bytes(),
            "var rows = ".as_bytes(),
            "FinvizInitFuturesPerformance(rows);".as_bytes(),
            &fields,
        )
    }
}

impl Default for Future {
    /// The default request asks for the daily time frame.
    fn default() -> (r: Self)
        ensures
            r == (Future { timeframe: TimeFrame::Daily }),
    {
        Self::new(TimeFrame::Daily)
    }
}

} // verus!
