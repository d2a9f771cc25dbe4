use simm_rs::crif_view::{
    drop_rows, filter_rows, get_column_value, list_to_dict_list, to_list, unique_values,
};
use simm_rs::simm_utils::{
    bucket_list, currency_pair_list, get_column_index, get_column_values, product_list,
    tenor_list, unique_column_values, unique_list, Crif,
};

fn s(x: &str) -> String {
    x.to_string()
}

fn row(cells: &[&str]) -> Vec<String> {
    cells.iter().map(|c| c.to_string()).collect()
}

fn sample() -> Crif {
    vec![
        row(&["ProductClass", "RiskType", "Qualifier", "Bucket", "Label1", "AmountUSD"]),
        row(&["RatesFX", "Risk_IRCurve", "USD", "1", "2W", "1000"]),
        row(&["RatesFX", "Risk_FX", "EURUSD", "", "", "500"]),
        row(&["Credit", "Risk_CreditQ", "USDEUR", "Residual", "1y", "nan"]),
        row(&["Equity", "Risk_Equity", "KRWUSD", "12", "5y", "7"]),
        row(&["", "Risk_Equity", "USDKRW", "+3", "17y", ""]),
        row(&["RatesFX", "Risk_IRCurve", "GBP", "1", "2w", "3"]),
    ]
}

#[test]
fn test_get_column_index() {
    let crif = vec![
        vec!["ProductClass".to_string(), "RiskType".to_string(), "Amount".to_string()],
        vec!["Rates".to_string(), "Risk_IRCurve".to_string(), "1000".to_string()],
    ];

    assert_eq!(get_column_index(&crif, "RiskType"), Some(1));
    assert_eq!(get_column_index(&crif, "NonExistent"), None);
}

#[test]
fn test_list_to_dict_list() {
    let crif = vec![
        vec!["ProductClass".to_string(), "RiskType".to_string()],
        vec!["Rates".to_string(), "Risk_IRCurve".to_string()],
    ];

    let dicts = list_to_dict_list(&crif);
    assert_eq!(dicts.len(), 1);
    assert_eq!(dicts[0].get("ProductClass").unwrap(), "Rates");
}

#[test]
fn test_filter_rows() {
    let crif = vec![
        vec!["RiskType".to_string(), "Bucket".to_string()],
        vec!["Risk_FX".to_string(), "1".to_string()],
        vec!["Risk_Equity".to_string(), "2".to_string()],
        vec!["Risk_FX".to_string(), "2".to_string()],
    ];

    let conditions = vec![("RiskType".to_string(), vec!["Risk_FX".to_string()])];
    let result = filter_rows(&crif, &conditions);

    assert_eq!(result.len(), 3); // Header + 2 rows
}

#[test]
fn get_column_index_of_empty_crif_is_none() {
    let crif: Crif = Vec::new();
    assert_eq!(get_column_index(&crif, "RiskType"), None);
}

#[test]
fn get_column_index_takes_first_of_repeated_names() {
    let crif = vec![row(&["A", "B", "A"])];
    assert_eq!(get_column_index(&crif, "A"), Some(0));
}

#[test]
fn column_values_mark_short_rows() {
    let crif = vec![row(&["A", "B"]), row(&["1", "2"]), row(&["3"])];
    assert_eq!(get_column_values(&crif, "B"), vec![Some(s("2")), None]);
    assert!(get_column_values(&crif, "C").is_empty());
}

#[test]
fn unique_list_keeps_first_seen_order() {
    let values = vec![s("b"), s("a"), s("b"), s("c"), s("a")];
    assert_eq!(unique_list(values), vec![s("b"), s("a"), s("c")]);
}

#[test]
fn unique_column_values_skip_empty_and_nan() {
    let crif = sample();
    assert_eq!(
        unique_column_values(&crif, "AmountUSD"),
        vec![s("1000"), s("500"), s("7"), s("3")]
    );
    assert_eq!(unique_values(&crif, "RiskType").len(), 4);
}

#[test]
fn product_list_is_distinct_and_present() {
    let crif = sample();
    assert_eq!(product_list(&crif), vec![s("RatesFX"), s("Credit"), s("Equity")]);
}

#[test]
fn tenor_list_lowercases_and_keeps_known_tenors() {
    let crif = sample();
    assert_eq!(tenor_list(&crif), vec![s("2w"), s("1y"), s("5y")]);
}

#[test]
fn currency_pair_list_collapses_swapped_pairs() {
    let crif = sample();
    assert_eq!(currency_pair_list(&crif), vec![s("EURUSD"), s("KRWUSD")]);
}

#[test]
fn bucket_list_puts_residual_last_as_zero() {
    let crif = sample();
    assert_eq!(bucket_list(&crif), vec![1, 12, 3, 0]);
}

#[test]
fn bucket_list_without_residual_has_no_zero() {
    let crif = vec![row(&["Bucket"]), row(&["2"]), row(&["x"]), row(&["2"]), row(&["-1"])];
    assert_eq!(bucket_list(&crif), vec![2]);
}

#[test]
fn header_only_crif_has_no_lists() {
    let crif = vec![row(&["ProductClass", "Bucket", "Label1", "Qualifier"])];
    assert!(product_list(&crif).is_empty());
    assert!(bucket_list(&crif).is_empty());
    assert!(tenor_list(&crif).is_empty());
    assert!(currency_pair_list(&crif).is_empty());
}

#[test]
fn filter_rows_needs_every_condition() {
    let crif = sample();
    let conditions = vec![
        (s("ProductClass"), vec![s("RatesFX")]),
        (s("RiskType"), vec![s("Risk_IRCurve"), s("Risk_FX")]),
        (s("Qualifier"), vec![s("GBP"), s("EURUSD")]),
    ];
    let result = filter_rows(&crif, &conditions);
    assert_eq!(result, vec![crif[0].clone(), crif[2].clone(), crif[6].clone()]);
}

#[test]
fn filter_rows_on_missing_column_keeps_only_header() {
    let crif = sample();
    let conditions = vec![(s("Nope"), vec![s("x")])];
    assert_eq!(filter_rows(&crif, &conditions), vec![crif[0].clone()]);
}

#[test]
fn drop_rows_removes_rows_matching_all() {
    let crif = sample();
    let conditions = vec![(s("ProductClass"), s("RatesFX")), (s("Bucket"), s("1"))];
    let result = drop_rows(&crif, &conditions);
    assert_eq!(
        result,
        vec![crif[0].clone(), crif[2].clone(), crif[3].clone(), crif[4].clone(), crif[5].clone()]
    );
}

#[test]
fn drop_rows_with_no_conditions_drops_every_row() {
    let crif = sample();
    let conditions: Vec<(String, String)> = Vec::new();
    assert_eq!(drop_rows(&crif, &conditions), vec![crif[0].clone()]);
}

#[test]
fn to_list_skips_short_rows() {
    let crif = vec![row(&["A", "B"]), row(&["1", "2"]), row(&["3"]), row(&["4", ""])];
    assert_eq!(to_list(&crif, "B"), vec![s("2"), s("")]);
    assert!(to_list(&crif, "C").is_empty());
}

#[test]
fn get_column_value_reads_by_header() {
    let crif = sample();
    assert_eq!(get_column_value(&crif[4], &crif, "Bucket"), Some(s("12")));
    assert_eq!(get_column_value(&crif[4], &crif, "Missing"), None);
    let short = row(&["x"]);
    assert_eq!(get_column_value(&short, &crif, "Bucket"), None);
}

#[test]
fn dict_list_fills_missing_cells_and_later_key_wins() {
    let crif = vec![row(&["K", "V", "K"]), row(&["a", "b", "c"]), row(&["d"])];
    let dicts = list_to_dict_list(&crif);
    assert_eq!(dicts.len(), 2);
    assert_eq!(dicts[0].get("K").unwrap(), "c");
    assert_eq!(dicts[1].get("V").unwrap(), "");
    assert_eq!(dicts[1].get("K").unwrap(), "");
    assert!(dicts[0].get("Z").is_none());
}

#[test]
fn filter_of_split_rows_is_split_of_filter() {
    let header = row(&["RiskType", "AmountUSD"]);
    let a = vec![row(&["Param_AddOnFixedAmount", "500"]), row(&["Risk_FX", "1"])];
    let b = vec![row(&["Param_AddOnFixedAmount", "250"]), row(&["Param_AddOnFixedAmount", "5"])];
    let mut whole = vec![header.clone()];
    whole.extend(a.clone());
    whole.extend(b.clone());
    let mut first = vec![header.clone()];
    first.extend(a);
    let mut second = vec![header.clone()];
    second.extend(b);
    let conditions = vec![(s("RiskType"), vec![s("Param_AddOnFixedAmount")])];
    let mut expected = filter_rows(&first, &conditions);
    expected.extend(filter_rows(&second, &conditions).into_iter().skip(1));
    let kept = filter_rows(&whole, &conditions);
    assert_eq!(kept, expected);
    assert_eq!(kept.len(), 4);
}
