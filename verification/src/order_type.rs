use vstd::prelude::*;

verus! {

/// The sort field that can be passed as a parameter to `Screener`.
///
/// Each field resolves to exactly one literal query token; the mapping is
/// total.
#[allow(dead_code)]
#[derive(Clone, Copy)]
pub enum OrderType {
    Ticker,
    Company,
    Sector,
    Industry,
    Country,
    MarketCap,
    PriceEarnings,
    ForwardPriceEarnings,
    PEG,
    PriceSales,
    PriceBook,
    PriceCash,
    PriceFreeCashFlow,
    DividendYield,
    PayoutRatio,
    EPS,
    EPSGrowthThisYear,
    EPSGrowthNextYear,
    EPSGrowthPast5Years,
    EPSGrowthNext5Years,
    SalesGrowthPast5Years,
    EPSGrowthQtrOverQtr,
    SalesGrowthQtrOverQtr,
    SharesOutstanding,
    SharesFloat,
    InsiderOwnership,
    InsiderTransactions,
    InstitutionalOwnership,
    InstitutionalTransactions,
    ShortInterestShare,
    ShortInterestRatio,
    EarningsDate,
    ReturnOnAssets,
    ReturnOnEquity,
    ReturnOnInvestment,
    CurrentRatio,
    QuickRatio,
    LTDebtEquity,
    TotalDebtEquity,
    GrossMargin,
    OperatingMargin,
    NetProfitMargin,
    AnalystRecommendation,
    PerformanceWeek,
    PerformanceMonth,
    PerformanceQuarter,
    PerformanceHalfYear,
    PerformanceYear,
    PerformanceYearToDate,
    Beta,
    AverageTrueRange,
    VolatilityWeek,
    VolatilityMonth,
    Sma20,
    Sma50,
    Sma200,
    High50Day,
    Low50Day,
    High52Week,
    Low52Week,
    RelativeStrengthIndex,
    AverageVolume3Month,
    RelativeVolume,
    Change,
    ChangeFromOpen,
    Gap,
    Volume,
    Price,
    TargetPrice,
    IPODate,
}

impl OrderType {
    /// The query token of each sort field, as a mathematical value.
    pub open spec fn spec_token(self) -> Seq<char> {
        match self {
            OrderType::Ticker => "ticker"@,
            OrderType::Company => "company"@,
            OrderType::Sector => "sector"@,
            OrderType::Industry => "industry"@,
            OrderType::Country => "country"@,
            OrderType::MarketCap => "marketcap"@,
            OrderType::PriceEarnings => "pe"@,
            OrderType::ForwardPriceEarnings => "forwardpe"@,
            OrderType::PEG => "peg"@,
            OrderType::PriceSales => "ps"@,
            OrderType::PriceBook => "pb"@,
            OrderType::PriceCash => "pc"@,
            OrderType::PriceFreeCashFlow => "pfcf"@,
            OrderType::DividendYield => "dividendyield"@,
            OrderType::PayoutRatio => "payoutratio"@,
            OrderType::EPS => "eps"@,
            OrderType::EPSGrowthThisYear => "epsyoy"@,
            OrderType::EPSGrowthNextYear => "epsyoy1"@,
            OrderType::EPSGrowthPast5Years => "eps5years"@,
            OrderType::EPSGrowthNext5Years => "estltgrowth"@,
            OrderType::SalesGrowthPast5Years => "sales5years"@,
            OrderType::EPSGrowthQtrOverQtr => "epsqoq"@,
            OrderType::SalesGrowthQtrOverQtr => "salesqoq"@,
            OrderType::SharesOutstanding => "sharesoutstanding2"@,
            OrderType::SharesFloat => "sharesfloat"@,
            OrderType::InsiderOwnership => "insiderown"@,
            OrderType::InsiderTransactions => "insidertrans"@,
            OrderType::InstitutionalOwnership => "instown"@,
            OrderType::InstitutionalTransactions => "insttrans"@,
            OrderType::ShortInterestShare => "shortinterestshare"@,
            OrderType::ShortInterestRatio => "shortinterestratio"@,
            OrderType::EarningsDate => "earningsdate"@,
            OrderType::ReturnOnAssets => "roa"@,
            OrderType::ReturnOnEquity => "roe"@,
            OrderType::ReturnOnInvestment => "roi"@,
            OrderType::CurrentRatio => "curratio"@,
            OrderType::QuickRatio => "quickratio"@,
            OrderType::LTDebtEquity => "ltdebteq"@,
            OrderType::TotalDebtEquity => "debteq"@,
            OrderType::GrossMargin => "grossmargin"@,
            OrderType::OperatingMargin => "opermargin"@,
            OrderType::NetProfitMargin => "netmargin"@,
            OrderType::AnalystRecommendation => "recom"@,
            OrderType::PerformanceWeek => "perf1w"@,
            OrderType::PerformanceMonth => "perf4w"@,
            OrderType::PerformanceQuarter => "perf13w"@,
            OrderType::PerformanceHalfYear => "perf26w"@,
            OrderType::PerformanceYear => "perf52w"@,
            OrderType::PerformanceYearToDate => "perfytd"@,
            OrderType::Beta => "beta"@,
            OrderType::AverageTrueRange => "averagetruerange"@,
            OrderType::VolatilityWeek => "volatility1w"@,
            OrderType::VolatilityMonth => "volatility4w"@,
            OrderType::Sma20 => "sma20"@,
            OrderType::Sma50 => "sma50"@,
            OrderType::Sma200 => "sma200"@,
            OrderType::High50Day => "high50d"@,
            OrderType::Low50Day => "low50d"@,
            OrderType::High52Week => "high52w"@,
            OrderType::Low52Week => "low52w"@,
            OrderType::RelativeStrengthIndex => "rsi"@,
            OrderType::AverageVolume3Month => "averagevolume"@,
            OrderType::RelativeVolume => "relativevolume"@,
            OrderType::Change => "change"@,
            OrderType::ChangeFromOpen => "changeopen"@,
            OrderType::Gap => "gap"@,
            OrderType::Volume => "volume"@,
            OrderType::Price => "price"@,
            OrderType::TargetPrice => "targetprice"@,
            OrderType::IPODate => "ipodate"@,
        }
    }

    /// Resolves the sort field to the literal token used in the `o=` URL
    /// parameter.
    pub fn token(&self) -> (r: &'static str)
        ensures
            r@ == self.spec_token(),
    {
        match self {
            OrderType::Ticker => "ticker",
            OrderType::Company => "company",
            OrderType::Sector => "sector",
            OrderType::Industry => "industry",
            OrderType::Country => "country",
            OrderType::MarketCap => "marketcap",
            OrderType::PriceEarnings => "pe",
            OrderType::ForwardPriceEarnings => "forwardpe",
            OrderType::PEG => "peg",
            OrderType::PriceSales => "ps",
            OrderType::PriceBook => "pb",
            OrderType::PriceCash => "pc",
            OrderType::PriceFreeCashFlow => "pfcf",
            OrderType::DividendYield => "dividendyield",
            OrderType::PayoutRatio => "payoutratio",
            OrderType::EPS => "eps",
            OrderType::EPSGrowthThisYear => "epsyoy",
            OrderType::EPSGrowthNextYear => "epsyoy1",
            OrderType::EPSGrowthPast5Years => "eps5years",
            OrderType::EPSGrowthNext5Years => "estltgrowth",
            OrderType::SalesGrowthPast5Years => "sales5years",
            OrderType::EPSGrowthQtrOverQtr => "epsqoq",
            OrderType::SalesGrowthQtrOverQtr => "salesqoq",
            OrderType::SharesOutstanding => "sharesoutstanding2",
            OrderType::SharesFloat => "sharesfloat",
            OrderType::InsiderOwnership => "insiderown",
            OrderType::InsiderTransactions => "insidertrans",
            OrderType::InstitutionalOwnership => "instown",
            OrderType::InstitutionalTransactions => "insttrans",
            OrderType::ShortInterestShare => "shortinterestshare",
            OrderType::ShortInterestRatio => "shortinterestratio",
            OrderType::EarningsDate => "earningsdate",
            OrderType::ReturnOnAssets => "roa",
            OrderType::ReturnOnEquity => "roe",
            OrderType::ReturnOnInvestment => "roi",
            OrderType::CurrentRatio => "curratio",
            OrderType::QuickRatio => "quickratio",
            OrderType::LTDebtEquity => "ltdebteq",
            OrderType::TotalDebtEquity => "debteq",
            OrderType::GrossMargin => "grossmargin",
            OrderType::OperatingMargin => "opermargin",
            OrderType::NetProfitMargin => "netmargin",
            OrderType::AnalystRecommendation => "recom",
            OrderType::PerformanceWeek => "perf1w",
            OrderType::PerformanceMonth => "perf4w",
            OrderType::PerformanceQuarter => "perf13w",
            OrderType::PerformanceHalfYear => "perf26w",
            OrderType::PerformanceYear => "perf52w",
            OrderType::PerformanceYearToDate => "perfytd",
            OrderType::Beta => "beta",
            OrderType::AverageTrueRange => "averagetruerange",
            OrderType::VolatilityWeek => "volatility1w",
            OrderType::VolatilityMonth => "volatility4w",
            OrderType::Sma20 => "sma20",
            OrderType::Sma50 => "sma50",
            OrderType::Sma200 => "sma200",
            OrderType::High50Day => "high50d",
            OrderType::Low50Day => "low50d",
            OrderType::High52Week => "high52w",
            OrderType::Low52Week => "low52w",
            OrderType::RelativeStrengthIndex => "rsi",
            OrderType::AverageVolume3Month => "averagevolume",
            OrderType::RelativeVolume => "relativevolume",
            OrderType::Change => "change",
            OrderType::ChangeFromOpen => "changeopen",
            OrderType::Gap => "gap",
            OrderType::Volume => "volume",
            OrderType::Price => "price",
            OrderType::TargetPrice => "targetprice",
            OrderType::IPODate => "ipodate",
        }
    }
}

/// Resolution is total and deterministic: two calls on equal sort fields
/// yield equal tokens.
pub proof fn lemma_order_token_deterministic(a: OrderType, b: OrderType)
    requires
        a == b,
    ensures
        a.spec_token() == b.spec_token(),
{
}

/// The sort direction used in `Screener`.
///
/// The direction serializes to a token prefixed to the sort field: ascending
/// order contributes no character at all, descending order a `-` sign.
#[allow(dead_code)]
#[derive(Clone, Copy)]
pub enum Ordering {
    Ascending,
    Descending,
}

impl Ordering {
    /// The prefix token of each direction, as a mathematical value.
    pub open spec fn spec_token(self) -> Seq<char> {
        match self {
            Ordering::Ascending => ""@,
            Ordering::Descending => "-"@,
        }
    }

    /// Resolves the direction to the literal prefix placed before the sort
    /// field in the `o=` URL parameter.
    pub fn token(&self) -> (r: &'static str)
        ensures
            r@ == self.spec_token(),
    {
        match self {
            Ordering::Ascending => "",
            Ordering::Descending => "-",
        }
    }
}

/// The ascending direction leaves no trace in a URL: its token is empty.
pub proof fn lemma_ascending_token_empty()
    ensures
        Ordering::Ascending.spec_token().len() == 0,
{
    reveal_strlit("");
}

} // verus!
