use simm_rs::crif_csv::{parse_csv_from_string, CrifError};

#[test]
fn parses_header_and_records() {
    let crif = parse_csv_from_string("ProductClass,RiskType\nRates,Risk_IRCurve\n").unwrap();
    assert_eq!(
        crif,
        vec![
            vec!["ProductClass".to_string(), "RiskType".to_string()],
            vec!["Rates".to_string(), "Risk_IRCurve".to_string()],
        ]
    );
}

#[test]
fn quoted_fields_keep_commas() {
    let crif = parse_csv_from_string("A,B\n\"x,y\",2\n").unwrap();
    assert_eq!(crif[1], vec!["x,y".to_string(), "2".to_string()]);
}

#[test]
fn header_only_text_has_no_data_rows() {
    let crif = parse_csv_from_string("A,B\n").unwrap();
    assert_eq!(crif.len(), 1);
}

#[test]
fn ragged_records_are_rejected() {
    assert_eq!(parse_csv_from_string("A,B\n1\n"), Err(CrifError::MalformedCsv));
}
