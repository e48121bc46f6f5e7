use vstd::prelude::*;
use crate::common::TableData;
use crate::html::table_cells_of;
use crate::table::{extract_table, spec_apply_policy, ExtractError, ExtractionPolicy};

verus! {

/// The sort field of a group-rollup request.
#[allow(dead_code)]
#[derive(Clone, Copy)]
pub enum OrderBy {
    Name,
    MarketCapitalization,
    PriceEarnings,
    ForwardPriceEarnings,
    PEG,
    PriceSales,
    PriceBook,
    PriceCash,
    PriceFreeCashFlow,
    DividendYield,
    EPSGrowthPast5Years,
    EPSGrowthNext5Years,
    SalesGrowthPast5Years,
    ShortInterestShare,
    AnalystRecommendation,
    PerformanceWeek,
    PerformanceMonth,
    PerformanceQuarter,
    PerformanceHalfYear,
    PerformanceYear,
    PerformanceYearToDate,
    AverageVolume3Month,
    RelativeVolume,
    Change,
    Volume,
    NumberOfStocks,
}

impl OrderBy {
    /// The query token of each sort field, as a mathematical value.
    pub open spec fn spec_token(self) -> Seq<char> {
        match self {
            OrderBy::Name => "name"@,
            OrderBy::MarketCapitalization => "marketcap"@,
            OrderBy::PriceEarnings => "pe"@,
            OrderBy::ForwardPriceEarnings => "forwardpe"@,
            OrderBy::PEG => "peg"@,
            OrderBy::PriceSales => "ps"@,
            OrderBy::PriceBook => "pb"@,
            OrderBy::PriceCash => "pc"@,
            OrderBy::PriceFreeCashFlow => "pfcf"@,
            OrderBy::DividendYield => "dividendyield"@,
            OrderBy::EPSGrowthPast5Years => "eps5years"@,
            OrderBy::EPSGrowthNext5Years => "estltgrowth"@,
            OrderBy::SalesGrowthPast5Years => "sales5years"@,
            OrderBy::ShortInterestShare => "shortinterestshare"@,
            OrderBy::AnalystRecommendation => "recom"@,
            OrderBy::PerformanceWeek => "perf1w"@,
            OrderBy::PerformanceMonth => "perf4w"@,
            OrderBy::PerformanceQuarter => "perf13w"@,
            OrderBy::PerformanceHalfYear => "perf26w"@,
            OrderBy::PerformanceYear => "perf52w"@,
            OrderBy::PerformanceYearToDate => "perfytd"@,
            OrderBy::AverageVolume3Month => "averagevolume"@,
            OrderBy::RelativeVolume => "relativevolume"@,
            OrderBy::Change => "change"@,
            OrderBy::Volume => "volume"@,
            OrderBy::NumberOfStocks => "count"@,
        }
    }

    /// Resolves the sort field to the literal token used in the `o=` URL
    /// parameter.
    pub fn token(&self) -> (r: &'static str)
        ensures
            r@ == self.spec_token(),
    {
        match self {
            OrderBy::Name => "name",
            OrderBy::MarketCapitalization => "marketcap",
            OrderBy::PriceEarnings => "pe",
            OrderBy::ForwardPriceEarnings => "forwardpe",
            OrderBy::PEG => "peg",
            OrderBy::PriceSales => "ps",
            OrderBy::PriceBook => "pb",
            OrderBy::PriceCash => "pc",
            OrderBy::PriceFreeCashFlow => "pfcf",
            OrderBy::DividendYield => "dividendyield",
            OrderBy::EPSGrowthPast5Years => "eps5years",
            OrderBy::EPSGrowthNext5Years => "estltgrowth",
            OrderBy::SalesGrowthPast5Years => "sales5years",
            OrderBy::ShortInterestShare => "shortinterestshare",
            OrderBy::AnalystRecommendation => "recom",
            OrderBy::PerformanceWeek => "perf1w",
            OrderBy::PerformanceMonth => "perf4w",
            OrderBy::PerformanceQuarter => "perf13w",
            OrderBy::PerformanceHalfYear => "perf26w",
            OrderBy::PerformanceYear => "perf52w",
            OrderBy::PerformanceYearToDate => "perfytd",
            OrderBy::AverageVolume3Month => "averagevolume",
            OrderBy::RelativeVolume => "relativevolume",
            OrderBy::Change => "change",
            OrderBy::Volume => "volume",
            OrderBy::NumberOfStocks => "count",
        }
    }
}

/// Resolution is total and deterministic: two calls on equal sort fields
/// yield equal tokens.
pub proof fn lemma_group_order_token_deterministic(a: OrderBy, b: OrderBy)
    requires
        a == b,
    ensures
        a.spec_token() == b.spec_token(),
{
}

/// The rollup page kind; each kind serializes to a fixed `&v=` query block.
#[allow(dead_code)]
#[derive(Clone, Copy)]
pub enum GroupType {
    Overview,
    Valuation,
    Performance,
    Custom,
}

impl GroupType {
    /// The query block of each kind, as a mathematical value.
    pub open spec fn spec_token(self) -> Seq<char> {
        match self {
            GroupType::Overview => "&v=110"@,
            GroupType::Valuation => "&v=120"@,
            GroupType::Performance => "&v=140"@,
            GroupType::Custom => "&v=150"@,
        }
    }

    /// Resolves the kind to its literal query block.
    pub fn token(&self) -> (r: &'static str)
        ensures
            r@ == self.spec_token(),
    {
        match self {
            GroupType::Overview => "&v=110",
            GroupType::Valuation => "&v=120",
            GroupType::Performance => "&v=140",
            GroupType::Custom => "&v=150",
        }
    }
}

/// The grouping dimension; each dimension serializes to a fixed `g=` query
/// block, the industry sub-slices carrying an extra `sg=` selector.
#[allow(dead_code)]
#[derive(Clone, Copy)]
pub enum GroupBy {
    Sector,
    Industry,
    IndustryBasicMaterials,
    IndustryCommunicationServices,
    IndustryConsumerCyclical,
    IndustryConsumerDefensive,
    IndustryEnergy,
    IndustryFinancial,
    IndustryHealthcare,
    IndustryIndustrials,
    IndustryRealEstate,
    IndustryTechnology,
    IndustryUtilities,
    Country,
    Capitalization,
}

impl GroupBy {
    /// The query block of each dimension, as a mathematical value.
    pub open spec fn spec_token(self) -> Seq<char> {
        match self {
            GroupBy::Sector => "g=sector"@,
            GroupBy::Industry => "g=industry"@,
            GroupBy::IndustryBasicMaterials => "g=industry&sg=basicmaterials"@,
            GroupBy::IndustryCommunicationServices => "g=industry&sg=communicationservices"@,
            GroupBy::IndustryConsumerCyclical => "g=industry&sg=consumercyclical"@,
            GroupBy::IndustryConsumerDefensive => "g=industry&sg=consumerdefensive"@,
            GroupBy::IndustryEnergy => "g=industry&sg=energy"@,
            GroupBy::IndustryFinancial => "g=industry&sg=financial"@,
            GroupBy::IndustryHealthcare => "g=industry&sg=healthcare"@,
            GroupBy::IndustryIndustrials => "g=industry&sg=industrials"@,
            GroupBy::IndustryRealEstate => "g=industry&sg=realestate"@,
            GroupBy::IndustryTechnology => "g=industry&sg=technology"@,
            GroupBy::IndustryUtilities => "g=industry&sg=utilities"@,
            GroupBy::Country => "g=country"@,
            GroupBy::Capitalization => "g=capitalization"@,
        }
    }

    /// Resolves the dimension to its literal query block.
    pub fn token(&self) -> (r: &'static str)
        ensures
            r@ == self.spec_token(),
    {
        match self {
            GroupBy::Sector => "g=sector",
            GroupBy::Industry => "g=industry",
            GroupBy::IndustryBasicMaterials => "g=industry&sg=basicmaterials",
            GroupBy::IndustryCommunicationServices => "g=industry&sg=communicationservices",
            GroupBy::IndustryConsumerCyclical => "g=industry&sg=consumercyclical",
            GroupBy::IndustryConsumerDefensive => "g=industry&sg=consumerdefensive",
            GroupBy::IndustryEnergy => "g=industry&sg=energy",
            GroupBy::IndustryFinancial => "g=industry&sg=financial",
            GroupBy::IndustryHealthcare => "g=industry&sg=healthcare",
            GroupBy::IndustryIndustrials => "g=industry&sg=industrials",
            GroupBy::IndustryRealEstate => "g=industry&sg=realestate",
            GroupBy::IndustryTechnology => "g=industry&sg=technology",
            GroupBy::IndustryUtilities => "g=industry&sg=utilities",
            GroupBy::Country => "g=country",
            GroupBy::Capitalization => "g=capitalization",
        }
    }
}

/// The sort direction of a group-rollup request: ascending order contributes
/// no prefix character, descending order a `-` sign.
#[allow(dead_code)]
#[derive(Clone, Copy)]
pub enum Ordering {
    Ascending,
    Descending,
}

impl Ordering {
    /// The prefix token of each direction, as a mathematical value.
    pub open spec fn spec_token(self) -> Seq<char> {
        match self {
            Ordering::Ascending => ""@,
            Ordering::Descending => "-"@,
        }
    }

    /// Resolves the direction to the literal prefix placed before the sort
    /// field.
    pub fn token(&self) -> (r: &'static str)
        ensures
            r@ == self.spec_token(),
    {
        match self {
            Ordering::Ascending => "",
            Ordering::Descending => "-",
        }
    }
}

/// The group-rollup endpoint: a grouping dimension, a page kind, a sort
/// field and a sort direction.
pub struct Group {
    pub group_by: GroupBy,
    pub group_type: GroupType,
    pub order_by: OrderBy,
    pub ordering: Ordering,
}

impl Group {
    /// The URL of the configuration, as a mathematical value: the base path,
    /// the grouping block, the page-kind block, and the `&o=` block carrying
    /// the direction prefix and the sort field.
    pub open spec fn spec_url(self) -> Seq<char> {
        "https://finviz.com/groups.ashx"@ + "?"@ + self.group_by.spec_token()
            + self.group_type.spec_token() + "&o="@ + self.ordering.spec_token()
            + self.order_by.spec_token()
    }

    /// The extraction rules of the endpoint: no header skip, drop the
    /// leading non-data cell, keep rows with at least one retained cell, trim
    /// cell text.
    pub open spec fn spec_policy() -> ExtractionPolicy {
        ExtractionPolicy {
            skip_header_row: false,
            leading_cells_to_skip: 1,
            min_cells: 1,
            split_last_cell_link: false,
            trim_cells: true,
        }
    }

    /// Creates a new `Group` with the given parameters.
    pub fn new(group_by: GroupBy, group_type: GroupType, order_by: OrderBy, ordering: Ordering) -> (r:
        Self)
        ensures
            r == (Group { group_by, group_type, order_by, ordering }),
    {
        Self { group_by, group_type, order_by, ordering }
    }

    /// Serializes the configuration to its request URL.
    pub fn get_url(&self) -> (r: String)
        ensures
            r@ == self.spec_url(),
    {
        let mut url = "https://finviz.com/groups.ashx".to_owned();
        url.append("?");
        url.append(self.group_by.token());
        url.append(self.group_type.token());
        url.append("&o=");
        url.append(self.ordering.token());
        url.append(self.order_by.token());
        url
    }

    /// Extracts the group-rollup grid from raw page text.
    pub fn extract(&self, body: &str) -> (r: Result<TableData, ExtractError>)
        ensures
            match r {
                Ok(grid) => table_cells_of(body@, "table.styled-table-new"@) matches Some(rows)
                    && grid.deep_view() == spec_apply_policy(rows, Self::spec_policy()),
                Err(e) => e == ExtractError::TableNotFound && table_cells_of(
                    body@,
                    "table.styled-table-new"@,
                ) is None,
            },
    {
        let p = ExtractionPolicy {
            skip_header_row: false,
            leading_cells_to_skip: 1,
            min_cells: 1,
            split_last_cell_link: false,
            trim_cells: true,
        };
        extract_table(body, "table.styled-table-new", &p)
    }
}

impl Default for Group {
    /// The default request groups by sector on the overview page, sorted by
    /// name ascending.
    fn default() -> (r: Self)
        ensures
            r == (Group {
                group_by: GroupBy::Sector,
                group_type: GroupType::Overview,
                order_by: OrderBy::Name,
                ordering: Ordering::Ascending,
            }),
    {
        Self::new(GroupBy::Sector, GroupType::Overview, OrderBy::Name, Ordering::Ascending)
    }
}

} // verus!
