use vstd::prelude::*;
use crate::common::TableData;
use crate::html::table_cells_of;
use crate::table::{extract_table, spec_apply_policy, ExtractError, ExtractionPolicy};

verus! {

/// The cryptocurrency-performance endpoint.
///
/// It takes no parameters: the URL is fixed and the page is a plain data
/// table.
pub struct Crypto {}

impl Crypto {
    /// The fixed URL of the endpoint, as a mathematical value.
    pub open spec fn spec_url() -> Seq<char> {
        "https://finviz.com/crypto_performance.ashx"@
    }

    /// The extraction rules of the endpoint: drop the header row and the
    /// leading non-data cell, keep rows with at least one retained cell, trim
    /// cell text.
    pub open spec fn spec_policy() -> ExtractionPolicy {
        ExtractionPolicy {
            skip_header_row: true,
            leading_cells_to_skip: 1,
            min_cells: 1,
            split_last_cell_link: false,
            trim_cells: true,
        }
    }

    /// Creates a new `Crypto`.
    pub fn new() -> (r: Self)
        ensures
            r == (Crypto {  }),
    {
        Self {  }
    }

    /// The fixed URL of the endpoint.
    pub fn get_url(&self) -> (r: String)
        ensures
            r@ == Self::spec_url(),
    {
        "https://finviz.com/crypto_performance.ashx".to_owned()
    }

    /// The header of the cryptocurrency-performance table.
    pub fn default_header() -> (r: Vec<String>)
        ensures
            r.deep_view() == seq![
                "Ticker"@,
                "Price"@,
                "Perf 5Min"@,
                "Perf Hour"@,
                "Perf Day"@,
                "Perf Week"@,
                "Perf Month"@,
                "Perf Quart"@,
                "Perf Half"@,
                "Perf Year"@,
                "Perf YTD"@,
            ],
    {
        let mut v: Vec<String> = Vec::new();
        v.push("Ticker".to_owned());
        v.push("Price".to_owned());
        v.push("Perf 5Min".to_owned());
        v.push("Perf Hour".to_owned());
        v.push("Perf Day".to_owned());
        v.push("Perf Week".to_owned());
        v.push("Perf Month".to_owned());
        v.push("Perf Quart".to_owned());
        v.push("Perf Half".to_owned());
        v.push("Perf Year".to_owned());
        v.push("Perf YTD".to_owned());
        proof {
            assert(v.deep_view() =~= seq![
                "Ticker"@,
                "Price"@,
                "Perf 5Min"@,
                "Perf Hour"@,
                "Perf Day"@,
                "Perf Week"@,
                "Perf Month"@,
                "Perf Quart"@,
                "Perf Half"@,
                "Perf Year"@,
                "Perf YTD"@,
            ]);
        }
        v
    }

    /// Extracts the cryptocurrency-performance grid from raw page text.
    pub fn extract(&self, body: &str) -> (r: Result<TableData, ExtractError>)
        ensures
            match r {
                Ok(grid) => table_cells_of(body@, "table.styled-table-new"@) matches Some(rows)
                    && grid.deep_view() == spec_apply_policy(rows, Self::spec_policy()),
                Err(e) => e == ExtractError::TableNotFound && table_cells_of(
                    body@,
                    "table.styled-table-new"@,
                ) is None,
            },
    {
        let p = ExtractionPolicy {
            skip_header_row: true,
            leading_cells_to_skip: 1,
            min_cells: 1,
            split_last_cell_link: false,
            trim_cells: true,
        };
        extract_table(body, "table.styled-table-new", &p)
    }
}

impl Default for Crypto {
    /// The endpoint has no configuration: the default is the endpoint
    /// itself.
    fn default() -> (r: Self)
        ensures
            r == (Crypto {  }),
    {
        Self::new()
    }
}

} // verus!
