use vstd::prelude::*;
use crate::common::TableData;
use crate::html::table_cells_of;
use crate::table::{extract_table, spec_apply_policy, ExtractError, ExtractionPolicy};

verus! {

/// How forex performance is reported.
#[derive(Clone, Copy)]
pub enum ForexType {
    /// Performance as a percentage.
    Percent,
    /// Performance in PIPS.
    PIPS,
}

/// The forex-performance endpoint.
pub struct Forex {
    pub forex_type: ForexType,
}

impl Forex {
    /// The URL of the configuration, as a mathematical value: the PIPS
    /// variant appends one fixed literal query block.
    pub open spec fn spec_url(self) -> Seq<char> {
        match self.forex_type {
            ForexType::Percent => "https://finviz.com/forex_performance.ashx"@,
            ForexType::PIPS => "https://finviz.com/forex_performance.ashx"@
                + "?v=1&tv=2&o=-perfdaypct"@,
        }
    }

    /// The extraction rules of the endpoint: drop the header row and the
    /// leading non-data cell, keep rows with at least one retained cell, trim
    /// cell text.
    pub open spec fn spec_policy() -> ExtractionPolicy {
        ExtractionPolicy {
            skip_header_row: true,
            leading_cells_to_skip: 1,
            min_cells: 1,
            split_last_cell_link: false,
            trim_cells: true,
        }
    }

    /// Creates a new `Forex` for the given report kind.
    pub fn new(forex_type: ForexType) -> (r: Self)
        ensures
            r == (Forex { forex_type }),
    {
        Self { forex_type }
    }

    /// Serializes the configuration to its request URL.
    pub fn get_url(&self) -> (r: String)
        ensures
            r@ == self.spec_url(),
    {
        let mut url = "https://finviz.com/forex_performance.ashx".to_owned();
        match self.forex_type {
            ForexType::Percent => {},
            ForexType::PIPS => url.append("?v=1&tv=2&o=-perfdaypct"),
        }
        url
    }

    /// The header of the forex-performance table.
    pub fn default_header() -> (r: Vec<String>)
        ensures
            r.deep_view() == seq![
                "Ticker"@,
                "Price"@,
                "Perf 5Min"@,
                "Perf Hour"@,
                "Perf Day"@,
                "Perf Week"@,
                "Perf Month"@,
                "Perf Quart"@,
                "Perf Half"@,
                "Perf Year"@,
                "Perf YTD"@,
            ],
    {
        let mut v: Vec<String> = Vec::new();
        v.push("Ticker".to_owned());
        v.push("Price".to_owned());
        v.push("Perf 5Min".to_owned());
        v.push("Perf Hour".to_owned());
        v.push("Perf Day".to_owned());
        v.push("Perf Week".to_owned());
        v.push("Perf Month".to_owned());
        v.push("Perf Quart".to_owned());
        v.push("Perf Half".to_owned());
        v.push("Perf Year".to_owned());
        v.push("Perf YTD".to_owned());
        proof {
            assert(v.deep_view() =~= seq![
                "Ticker"@,
                "Price"@,
                "Perf 5Min"@,
                "Perf Hour"@,
                "Perf Day"@,
                "Perf Week"@,
                "Perf Month"@,
                "Perf Quart"@,
                "Perf Half"@,
                "Perf Year"@,
                "Perf YTD"@,
            ]);
        }
        v
    }

    /// Extracts the forex-performance grid from raw page text.
    pub fn extract(&self, body: &str) -> (r: Result<TableData, ExtractError>)
        ensures
            match r {
                Ok(grid) => table_cells_of(body@, "table.styled-table-new"@) matches Some(rows)
                    && grid.deep_view() == spec_apply_policy(rows, Self::spec_policy()),
                Err(e) => e == ExtractError::TableNotFound && table_cells_of(
                    body@,
                    "table.styled-table-new"@,
                ) is None,
            },
    {
        let p = ExtractionPolicy {
            skip_header_row: true,
            leading_cells_to_skip: 1,
            min_cells: 1,
            split_last_cell_link: false,
            trim_cells: true,
        };
        extract_table(body, "table.styled-table-new", &p)
    }
}

impl Default for Forex {
    /// The default request asks for percentage performance.
    fn default() -> (r: Self)
        ensures
            r == (Forex { forex_type: ForexType::Percent }),
    {
        Self::new(ForexType::Percent)
    }
}

} // verus!
