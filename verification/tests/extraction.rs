use finviz_rs::future::Future;
use finviz_rs::html::{Cell, Link};
use finviz_rs::insider::{Insider, InsiderType};
use finviz_rs::news::News;
use finviz_rs::screener::Screener;
use finviz_rs::screener_type::ScreenerType;
use finviz_rs::table::{extract_rows, ExtractError, ExtractionPolicy};
use finviz_rs::tickers::Tickers;
use finviz_rs::future::TimeFrame;

fn cell(text: &str) -> Cell {
    Cell { text: text.to_string(), link: None }
}

fn link_cell(text: &str, href: &str, label: &str) -> Cell {
    Cell {
        text: text.to_string(),
        link: Some(Link { href: href.to_string(), label: label.to_string() }),
    }
}

#[test]
fn uniform_table_round_trip() {
    let body = "<html><body><table class=\"styled-table-new\">\
        <tr><td>No.</td><td>Head1</td><td>Head2</td></tr>\
        <tr><td>1</td><td> A </td><td>B</td></tr>\
        <tr><td>2</td><td>C</td><td>D</td></tr>\
        </table></body></html>";
    let screener = Screener::new(ScreenerType::Overview);
    let grid = screener.extract(body).unwrap();
    assert_eq!(grid.len(), 2);
    assert_eq!(grid[0].len(), 2);
    assert_eq!(grid[1].len(), 2);
    assert_eq!(grid[0], vec!["A".to_string(), "B".to_string()]);
    assert_eq!(grid[1], vec!["C".to_string(), "D".to_string()]);
}

#[test]
fn header_only_table_yields_empty_grid() {
    let body = "<html><body><table class=\"styled-table-new\">\
        <tr><td>No.</td><td>Head</td></tr>\
        </table></body></html>";
    let screener = Screener::new(ScreenerType::Overview);
    let grid = screener.extract(body).unwrap();
    assert!(grid.is_empty());
}

#[test]
fn table_not_found_error() {
    let body = "<html><body><p>no table here</p></body></html>";
    let screener = Screener::new(ScreenerType::Overview);
    assert_eq!(screener.extract(body), Err(ExtractError::TableNotFound));
}

#[test]
fn short_row_is_dropped_silently() {
    let policy = ExtractionPolicy {
        skip_header_row: true,
        leading_cells_to_skip: 1,
        min_cells: 1,
        split_last_cell_link: false,
        trim_cells: true,
    };
    let rows = vec![
        vec![cell("No."), cell("Head")],
        vec![cell("1"), cell("good")],
        vec![cell("lonely")],
        vec![cell("2"), cell("fine")],
    ];
    let grid = extract_rows(&rows, &policy);
    assert_eq!(grid.len(), 2);
    assert_eq!(grid[0], vec!["good".to_string()]);
    assert_eq!(grid[1], vec!["fine".to_string()]);
}

#[test]
fn last_cell_link_is_split() {
    let policy = ExtractionPolicy {
        skip_header_row: false,
        leading_cells_to_skip: 0,
        min_cells: 1,
        split_last_cell_link: true,
        trim_cells: false,
    };
    let with_anchor = vec![vec![cell("T"), link_cell("Y", "X", "Y")]];
    let grid = extract_rows(&with_anchor, &policy);
    assert_eq!(grid, vec![vec!["T".to_string(), "Y".to_string(), "X".to_string()]]);
    let without_anchor = vec![vec![cell("T"), cell("plain")]];
    let grid = extract_rows(&without_anchor, &policy);
    assert_eq!(grid, vec![vec!["T".to_string(), "plain".to_string(), "".to_string()]]);
}

#[test]
fn insider_table_extraction() {
    let body = "<html><body><table class=\"body-table\">\
        <tr><td>Ticker</td><td>Owner</td><td>Rel</td><td>Date</td><td>Tx</td></tr>\
        <tr><td>AAA</td><td>Jo</td><td>CEO</td><td>Jan 01</td>\
        <td><a href=\"http://sec.example/form4\">Form 4</a></td></tr>\
        <tr><td>too</td><td>short</td></tr>\
        </table></body></html>";
    let insider = Insider::new(InsiderType::Latest);
    let grid = insider.extract(body).unwrap();
    assert_eq!(grid.len(), 1);
    assert_eq!(
        grid[0],
        vec![
            "AAA".to_string(),
            "Jo".to_string(),
            "CEO".to_string(),
            "Jan 01".to_string(),
            "Form 4".to_string(),
            "http://sec.example/form4".to_string(),
        ]
    );
}

#[test]
fn embedded_json_extraction() {
    let body = "<script>var rows = [{\"ticker\":\"ES\",\"label\":\"E-mini S&P\",\
        \"group\":\"Index\",\"perf\":1.23}];\nFinvizInitFuturesPerformance(rows);</script>";
    let future = Future::new(TimeFrame::Daily);
    let grid = future.extract(body).unwrap();
    assert_eq!(grid.len(), 1);
    assert_eq!(
        grid[0],
        vec![
            "ES".to_string(),
            "E-mini S&P".to_string(),
            "Index".to_string(),
            "1.23".to_string(),
        ]
    );
}

#[test]
fn embedded_json_missing_field_and_string_field() {
    let body = "var rows = [{\"ticker\":\"GC\",\"perf\":\"-0.5\"}];\
        FinvizInitFuturesPerformance(rows);";
    let grid = Future::new(TimeFrame::Daily).extract(body).unwrap();
    assert_eq!(
        grid[0],
        vec!["GC".to_string(), "".to_string(), "".to_string(), "-0.5".to_string()]
    );
}

#[test]
fn missing_end_marker_fails_without_panic() {
    let body = "<script>var rows = [1, 2, 3];</script>";
    let future = Future::new(TimeFrame::Daily);
    assert_eq!(future.extract(body), Err(ExtractError::MarkerNotFound));
}

#[test]
fn missing_start_marker_fails_without_panic() {
    let body = "<script>FinvizInitFuturesPerformance(rows);</script>";
    let future = Future::new(TimeFrame::Daily);
    assert_eq!(future.extract(body), Err(ExtractError::MarkerNotFound));
}

#[test]
fn malformed_payload_is_reported() {
    let body = "var rows = {\"not\":\"an array\"};FinvizInitFuturesPerformance(rows);";
    let future = Future::new(TimeFrame::Daily);
    assert_eq!(future.extract(body), Err(ExtractError::MalformedPayload));
    let body = "var rows = not json at all;FinvizInitFuturesPerformance(rows);";
    assert_eq!(future.extract(body), Err(ExtractError::MalformedPayload));
}

#[test]
fn news_and_blogs_extraction() {
    let body = "<html><body><div id=\"news\"><table><tr><td><table>\
        <tr><td>icon</td><td>08:00AM</td>\
        <td><a href=\"https://www.site.com/story\">Big news</a></td></tr>\
        <tr><td>skipped</td></tr>\
        </table></td></tr><tr><td><table>\
        <tr><td>icon</td><td>09:30AM</td>\
        <td><a href=\"http://feedproxy.google.com/~r/TheBlog/~3/abc/post.html\">Post</a></td></tr>\
        </table></td></tr></table></div></body></html>";
    let data = News::new().extract(body).unwrap();
    assert_eq!(data.news.len(), 1);
    assert_eq!(
        data.news[0],
        vec![
            "08:00AM".to_string(),
            "Big news".to_string(),
            "www.site.com".to_string(),
            "https://www.site.com/story".to_string(),
        ]
    );
    assert_eq!(data.blogs.len(), 1);
    assert_eq!(
        data.blogs[0],
        vec![
            "09:30AM".to_string(),
            "Post".to_string(),
            "TheBlog".to_string(),
            "http://feedproxy.google.com/~r/TheBlog/~3/abc/post.html".to_string(),
        ]
    );
}

#[test]
fn news_container_errors() {
    let none = "<html><body><p>nothing</p></body></html>";
    assert_eq!(
        News::new().extract(none).unwrap_err(),
        ExtractError::TableNotFound
    );
    let one_table = "<html><body><div id=\"news\"><table>\
        <tr><td>bare</td></tr></table></div></body></html>";
    assert_eq!(
        News::new().extract(one_table).unwrap_err(),
        ExtractError::MissingSubTable
    );
}

#[test]
fn news_source_not_found() {
    let body = "<html><body><div id=\"news\"><table><tr><td><table>\
        <tr><td>icon</td><td>08:00AM</td><td><a href=\"nosegments\">T</a></td></tr>\
        </table></td></tr><tr><td><table></table></td></tr></table></div></body></html>";
    assert_eq!(
        News::new().extract(body).unwrap_err(),
        ExtractError::SourceNotFound
    );
}

#[test]
fn ticker_fundament_pairs() {
    let body = "<html><body><table class=\"snapshot-table2\">\
        <tr><td>Index</td><td>S&amp;P 500</td><td>P/E</td><td>28.5</td></tr>\
        <tr><td>EPS (ttm)</td><td>6.05</td><td>odd</td></tr>\
        </table></body></html>";
    let dict = Tickers::new("AAPL").fundament_from_body(body);
    assert_eq!(
        dict.entries,
        vec![
            ("EPS (ttm)".to_string(), "6.05".to_string()),
            ("Index".to_string(), "S&P 500".to_string()),
            ("P/E".to_string(), "28.5".to_string()),
        ]
    );
}
