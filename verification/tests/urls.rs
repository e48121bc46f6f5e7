use finviz_rs::forex::{Forex, ForexType};
use finviz_rs::future::{Future, TimeFrame};
use finviz_rs::group::{Group, GroupBy, GroupType, OrderBy, Ordering as GroupOrdering};
use finviz_rs::insider::{Insider, InsiderType};
use finviz_rs::order_type::OrderType;
use finviz_rs::screener::Screener;
use finviz_rs::screener_type::ScreenerType;
use finviz_rs::signal_type::SignalType;
use finviz_rs::common::DisplayString;
use finviz_rs::tickers::{ChartType, TimeFrameType, Tickers};

#[test]
fn forex_test_url() {
    let forex = Forex::new(ForexType::PIPS);
    assert_eq!(
        forex.get_url(),
        "https://finviz.com/forex_performance.ashx?v=1&tv=2&o=-perfdaypct".to_string()
    );
}

#[test]
fn future_test_url() {
    let future = Future::new(TimeFrame::Quarter);
    assert_eq!(
        future.get_url(),
        "https://finviz.com/futures_performance.ashx?v=14".to_string()
    );
}

#[test]
fn group_test_url() {
    {
        let group = Group::new(
            GroupBy::Industry,
            GroupType::Valuation,
            OrderBy::PerformanceWeek,
            GroupOrdering::Ascending,
        );
        assert_eq!(
            group.get_url(),
            "https://finviz.com/groups.ashx?g=industry&v=120&o=perf1w".to_string()
        )
    }
    {
        let group = Group::new(
            GroupBy::Sector,
            GroupType::Performance,
            OrderBy::Name,
            GroupOrdering::Descending,
        );
        assert_eq!(
            group.get_url(),
            "https://finviz.com/groups.ashx?g=sector&v=140&o=-name".to_string()
        )
    }
}

#[test]
fn insider_test_url() {
    let insider = Insider::new(InsiderType::TopWeek);
    assert_eq!(
        insider.get_url(),
        "https://finviz.com/insidertrading.ashx?or=-10&tv=100000&tc=7&o=-transactionValue"
            .to_string()
    );
}

#[test]
fn insider_numeric_url() {
    let insider = Insider::new(InsiderType::Numeric("-25".to_string()));
    assert_eq!(
        insider.get_url(),
        "https://finviz.com/insidertrading.ashx?oc=-25&tc=7".to_string()
    );
}

#[test]
fn order_type_test_url_string_of_signal_type() {
    let t = OrderType::PerformanceWeek;
    assert_eq!(t.token(), "perf1w");
}

#[test]
fn test_base_url_with_screenr_type() {
    let screener = Screener::new(ScreenerType::Performance);
    assert_eq!(screener.to_url(), "https://finviz.com/screener.ashx?v=141");
}

#[test]
fn test_base_url_with_signal_type() {
    let mut screener = Screener::new(ScreenerType::Performance);
    screener.set_signal(SignalType::TopGainers);
    assert_eq!(
        screener.to_url(),
        "https://finviz.com/screener.ashx?v=141&s=ta_topgainers"
    );
}

#[test]
fn test_base_url_with_order_type() {
    let mut screener = Screener::new(ScreenerType::Performance);
    screener.set_signal(SignalType::TopLosers);
    screener.set_order(OrderType::Company);
    assert_eq!(
        screener.to_url(),
        "https://finviz.com/screener.ashx?v=141&s=ta_toplosers&o=company"
    );
}

#[test]
fn test_base_url_with_descending_order_type() {
    let mut screener = Screener::new(ScreenerType::Performance);
    screener.set_signal(SignalType::TopLosers);
    screener.set_descending_order(OrderType::Ticker);
    assert_eq!(
        screener.to_url(),
        "https://finviz.com/screener.ashx?v=141&s=ta_toplosers&o=-ticker"
    );
}

#[test]
fn screener_end_to_end_url() {
    let mut screener = Screener::new(ScreenerType::Overview);
    screener.set_signal(SignalType::DoubleBottom);
    screener.set_order(OrderType::Ticker);
    assert_eq!(
        screener.to_url(),
        "https://finviz.com/screener.ashx?v=111&s=ta_p_doublebottom&o=ticker"
    );
}

#[test]
fn test_url_string_of_screener_type() {
    let t = ScreenerType::Technical;
    assert_eq!(t.token(), "171");
}

#[test]
fn signal_type_test_url_string_of_signal_type() {
    let t = SignalType::TopGainers;
    assert_eq!(t.token(), "ta_topgainers");
}

#[test]
fn test_display_string_of_signal_type() {
    let t = SignalType::TopGainers;
    assert_eq!(t.to_display_string(), "Top Gainers");
}

#[test]
fn ticker_chart_and_quote_urls() {
    let tickers = Tickers::new("AAPL");
    assert_eq!(tickers.quote_url(), "https://finviz.com/quote.ashx?t=AAPL");
    assert_eq!(
        tickers.chart_url(TimeFrameType::Daily, ChartType::ADVANCED),
        "https://finviz.com/chart.ashx?t=AAPL&ty=c&ta=1&p=d"
    );
    assert_eq!(
        tickers.chart_url(TimeFrameType::Weekly, ChartType::LINE),
        "https://finviz.com/chart.ashx?t=AAPL&ty=l&ta=0&p=w"
    );
    assert_eq!(
        tickers.chart_url(TimeFrameType::Monthly, ChartType::CANDLE),
        "https://finviz.com/chart.ashx?t=AAPL&ty=c&ta=0&p=m"
    );
}

#[test]
fn crypto_and_news_urls() {
    assert_eq!(
        finviz_rs::crypto::Crypto::new().get_url(),
        "https://finviz.com/crypto_performance.ashx"
    );
    assert_eq!(
        finviz_rs::news::News::new().get_url(),
        "https://finviz.com/news.ashx"
    );
    assert_eq!(
        Forex::new(ForexType::Percent).get_url(),
        "https://finviz.com/forex_performance.ashx"
    );
    assert_eq!(
        Future::new(TimeFrame::Daily).get_url(),
        "https://finviz.com/futures_performance.ashx"
    );
    assert_eq!(
        Insider::new(InsiderType::Latest).get_url(),
        "https://finviz.com/insidertrading.ashx"
    );
}
