use finviz_rs::dict::DictData;
use finviz_rs::output::{from_dict_to_table, to_csv_bytes, ToTable};

#[test]
fn test_to_table() {
    let headers = ["ETF Name", "Price", "Chg", "Chg(%)", "Vol"].map(String::from).to_vec();
    let row1 = ["VOO", "10.0", "3.3", "5.5", "3000"].map(String::from).to_vec();
    let row2 = ["VOO2", "10.0", "3.3", "5.5", "3000"].map(String::from).to_vec();
    let row3 = ["VOO3", "10.0", "3.3", "5.5", "3000"].map(String::from).to_vec();
    let data = Vec::from([row1, row2, row3]);
    assert_eq!(data.to_table(Some(headers.clone()), Some(1)),
"┌──────────┬───────┬─────┬────────┬──────┐
│ ETF Name │ Price │ Chg │ Chg(%) │ Vol  │
├──────────┼───────┼─────┼────────┼──────┤
│ VOO      │ 10.0  │ 3.3 │ 5.5    │ 3000 │
└──────────┴───────┴─────┴────────┴──────┘");

    assert_eq!(data.to_table(Some(headers), None),
"┌──────────┬───────┬─────┬────────┬──────┐
│ ETF Name │ Price │ Chg │ Chg(%) │ Vol  │
├──────────┼───────┼─────┼────────┼──────┤
│ VOO      │ 10.0  │ 3.3 │ 5.5    │ 3000 │
├──────────┼───────┼─────┼────────┼──────┤
│ VOO2     │ 10.0  │ 3.3 │ 5.5    │ 3000 │
├──────────┼───────┼─────┼────────┼──────┤
│ VOO3     │ 10.0  │ 3.3 │ 5.5    │ 3000 │
└──────────┴───────┴─────┴────────┴──────┘");
}

fn dict_of(pairs: &[(&str, &str)]) -> DictData {
    let mut d = DictData::new();
    for (k, v) in pairs {
        d.insert(k.to_string(), v.to_string());
    }
    d
}

#[test]
fn output_table_from_dict() {
    let dict = dict_of(&[
        ("key1", "value1"),
        ("key2", "value2"),
        ("key3", "value3"),
        ("key4", "value4"),
        ("key5", "value5"),
        ("key6", "value6"),
        ("key7", "value7"),
        ("key8", "value8"),
    ]);
    let table_data = from_dict_to_table(&dict, 4);
    assert_eq!(table_data.to_table(None, None),
"┌──────┬────────┬──────┬────────┬──────┬────────┬──────┬────────┐
│ key1 │ value1 │ key2 │ value2 │ key3 │ value3 │ key4 │ value4 │
├──────┼────────┼──────┼────────┼──────┼────────┼──────┼────────┤
│ key5 │ value5 │ key6 │ value6 │ key7 │ value7 │ key8 │ value8 │
└──────┴────────┴──────┴────────┴──────┴────────┴──────┴────────┘");
}

#[test]
fn dict_chunking_shape() {
    let dict = dict_of(&[
        ("k1", "v1"),
        ("k2", "v2"),
        ("k3", "v3"),
        ("k4", "v4"),
        ("k5", "v5"),
        ("k6", "v6"),
        ("k7", "v7"),
    ]);
    let grid = from_dict_to_table(&dict, 3);
    assert_eq!(grid.len(), 3);
    assert_eq!(grid[0].len(), 6);
    assert_eq!(grid[1].len(), 6);
    assert_eq!(grid[2].len(), 2);
    assert_eq!(grid[2], vec!["k7".to_string(), "v7".to_string()]);
}

#[test]
fn dict_insert_sorts_and_replaces() {
    let mut d = DictData::new();
    d.insert("beta".to_string(), "2".to_string());
    d.insert("alpha".to_string(), "1".to_string());
    d.insert("gamma".to_string(), "3".to_string());
    assert_eq!(
        d.entries,
        vec![
            ("alpha".to_string(), "1".to_string()),
            ("beta".to_string(), "2".to_string()),
            ("gamma".to_string(), "3".to_string()),
        ]
    );
    d.insert("beta".to_string(), "20".to_string());
    assert_eq!(d.len(), 3);
    assert_eq!(d.entries[1], ("beta".to_string(), "20".to_string()));
}

#[test]
fn empty_dict_yields_empty_grid() {
    let dict = DictData::new();
    assert!(from_dict_to_table(&dict, 3).is_empty());
}

#[test]
fn csv_bytes_round() {
    let data = vec![
        vec!["a".to_string(), "b".to_string()],
        vec!["c,x".to_string(), "d".to_string()],
    ];
    let bytes = to_csv_bytes(&data).unwrap();
    assert_eq!(String::from_utf8(bytes).unwrap(), "a,b\n\"c,x\",d\n");
}
