use vstd::prelude::*;
use crate::common::TableData;
use crate::html::table_cells_of;
use crate::table::{extract_table, spec_apply_policy, ExtractError, ExtractionPolicy};

verus! {

/// The insider-trading report subtype.
///
/// The named subtypes serialize to fixed query blocks; the `Numeric` subtype
/// carries a caller-supplied owner-percentile string interpolated into the
/// query, reproduced as given without escaping or validation.
#[allow(dead_code)]
#[derive(Clone)]
pub enum InsiderType {
    Latest,
    LatestBuys,
    LatestSales,
    TopWeek,
    TopWeekBuys,
    TopWeekSales,
    TopOwnerTrade,
    TopOwnerBuys,
    TopOwnerSales,
    Numeric(String),
}

/// The insider-trading endpoint.
pub struct Insider {
    pub insider_type: InsiderType,
}

impl Insider {
    /// The URL of the configuration, as a mathematical value.
    pub open spec fn spec_url(self) -> Seq<char> {
        let base = "https://finviz.com/insidertrading.ashx"@;
        match self.insider_type {
            InsiderType::Latest => base,
            InsiderType::LatestBuys => base + "?tc=1"@,
            InsiderType::LatestSales => base + "?tc=2"@,
            InsiderType::TopWeek => base + "?or=-10&tv=100000&tc=7&o=-transactionValue"@,
            InsiderType::TopWeekBuys => base + "?or=-10&tv=100000&tc=1&o=-transactionValue"@,
            InsiderType::TopWeekSales => base + "?or=-10&tv=100000&tc=2&o=-transactionValue"@,
            InsiderType::TopOwnerTrade => base + "?or=10&tv=1000000&tc=7&o=-transactionValue"@,
            InsiderType::TopOwnerBuys => base + "?or=10&tv=1000000&tc=1&o=-transactionValue"@,
            InsiderType::TopOwnerSales => base + "?or=10&tv=1000000&tc=2&o=-transactionValue"@,
            InsiderType::Numeric(num) => base + "?oc="@ + num@ + "&tc=7"@,
        }
    }

    /// The extraction rules of the endpoint: drop the header row, keep every
    /// cell, drop rows with fewer than five cells, split the last cell into
    /// its text and its link target, keep cell text untrimmed.
    pub open spec fn spec_policy() -> ExtractionPolicy {
        ExtractionPolicy {
            skip_header_row: true,
            leading_cells_to_skip: 0,
            min_cells: 5,
            split_last_cell_link: true,
            trim_cells: false,
        }
    }

    /// Creates a new `Insider` for the given report subtype.
    pub fn new(insider_type: InsiderType) -> (r: Self)
        ensures
            r == (Insider { insider_type }),
    {
        Self { insider_type }
    }

    /// Serializes the configuration to its request URL.
    pub fn get_url(&self) -> (r: String)
        ensures
            r@ == self.spec_url(),
    {
        let mut url = "https://finviz.com/insidertrading.ashx".to_owned();
        match &self.insider_type {
            InsiderType::Latest => {},
            InsiderType::LatestBuys => url.append("?tc=1"),
            InsiderType::LatestSales => url.append("?tc=2"),
            InsiderType::TopWeek => url.append("?or=-10&tv=100000&tc=7&o=-transactionValue"),
            InsiderType::TopWeekBuys => url.append("?or=-10&tv=100000&tc=1&o=-transactionValue"),
            InsiderType::TopWeekSales => url.append("?or=-10&tv=100000&tc=2&o=-transactionValue"),
            InsiderType::TopOwnerTrade => url.append("?or=10&tv=1000000&tc=7&o=-transactionValue"),
            InsiderType::TopOwnerBuys => url.append("?or=10&tv=1000000&tc=1&o=-transactionValue"),
            InsiderType::TopOwnerSales => url.append("?or=10&tv=1000000&tc=2&o=-transactionValue"),
            InsiderType::Numeric(num) => {
                url.append("?oc=");
                url.append(num.as_str());
                url.append("&tc=7");
            },
        }
        url
    }

    /// The header of the insider-trading table; the last two names cover the
    /// split last cell, its text and its link target.
    pub fn default_header() -> (r: Vec<String>)
        ensures
            r.deep_view() == seq![
                "Ticker"@,
                "Owner"@,
                "Relationship"@,
                "Date"@,
                "Transaction"@,
                "Cost "@,
                "#Shares"@,
                "Value ($)"@,
                "#Shares Total"@,
                "SEC Form 4"@,
                "SEC Form 4 Link"@,
            ],
    {
        let mut v: Vec<String> = Vec::new();
        v.push("Ticker".to_owned());
        v.push("Owner".to_owned());
        v.push("Relationship".to_owned());
        v.push("Date".to_owned());
        v.push("Transaction".to_owned());
        v.push("Cost ".to_owned());
        v.push("#Shares".to_owned());
        v.push("Value ($)".to_owned());
        v.push("#Shares Total".to_owned());
        v.push("SEC Form 4".to_owned());
        v.push("SEC Form 4 Link".to_owned());
        proof {
            assert(v.deep_view() =~= seq![
                "Ticker"@,
                "Owner"@,
                "Relationship"@,
                "Date"@,
                "Transaction"@,
                "Cost "@,
                "#Shares"@,
                "Value ($)"@,
                "#Shares Total"@,
                "SEC Form 4"@,
                "SEC Form 4 Link"@,
            ]);
        }
        v
    }

    /// Extracts the insider-trading grid from raw page text: rows with fewer
    /// than five cells are silently dropped, and each surviving row carries
    /// the detail link's target as its final value — the empty string when
    /// the last cell holds no anchor.
    pub fn extract(&self, body: &str) -> (r: Result<TableData, ExtractError>)
        ensures
            match r {
                Ok(grid) => table_cells_of(body@, "table.body-table"@) matches Some(rows)
                    && grid.deep_view() == spec_apply_policy(rows, Self::spec_policy()),
                Err(e) => e == ExtractError::TableNotFound && table_cells_of(
                    body@,
                    "table.body-table"@,
                ) is None,
            },
    {
        let p = ExtractionPolicy {
            skip_header_row: true,
            leading_cells_to_skip: 0,
            min_cells: 5,
            split_last_cell_link: true,
            trim_cells: false,
        };
        extract_table(body, "table.body-table", &p)
    }
}

impl Default for Insider {
    /// The default request asks for the latest insider trades.
    fn default() -> (r: Self)
        ensures
            r == (Insider { insider_type: InsiderType::Latest }),
    {
        Self::new(InsiderType::Latest)
    }
}

} // verus!
