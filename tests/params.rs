use simm_rs::constants::{
    class_tags, margin_by_risk_class, measure_tags, risk_class_of_tag, vega_tags, RiskClass,
    RiskType,
};
use simm_rs::params::{validate_config, ConfigError, SimmVersion};
use simm_rs::text::parse_usize;
use simm_rs::v2_5::FxCategory;
use simm_rs::{v2_5, v2_6, v2_7};

const ALL: [RiskClass; 6] = [
    RiskClass::Rates,
    RiskClass::FX,
    RiskClass::CreditQ,
    RiskClass::CreditNonQ,
    RiskClass::Equity,
    RiskClass::Commodity,
];

#[test]
fn psi_has_unit_diagonal_and_is_symmetric() {
    for v in [SimmVersion::V2_5, SimmVersion::V2_6, SimmVersion::V2_7] {
        for a in ALL {
            assert_eq!(v.psi(a, a), 100);
            for b in ALL {
                assert_eq!(v.psi(a, b), v.psi(b, a));
            }
        }
    }
}

#[test]
fn psi_values_per_version() {
    assert_eq!(SimmVersion::V2_5.psi(RiskClass::Rates, RiskClass::CreditQ), 29);
    assert_eq!(SimmVersion::V2_6.psi(RiskClass::FX, RiskClass::CreditNonQ), 15);
    assert_eq!(SimmVersion::V2_7.psi(RiskClass::Equity, RiskClass::Commodity), 34);
    assert_eq!(SimmVersion::V2_5.psi_by_name("Rates", "FX"), Some(32));
    assert_eq!(SimmVersion::V2_5.psi_by_name("Rates", "Bonds"), None);
}

#[test]
fn version_names() {
    assert_eq!(SimmVersion::from_name("2_5"), Some(SimmVersion::V2_5));
    assert_eq!(SimmVersion::from_name("2_7"), Some(SimmVersion::V2_7));
    assert_eq!(SimmVersion::from_name("2.5"), None);
}

#[test]
fn risk_class_names_round_trip() {
    for a in ALL {
        assert_eq!(RiskClass::from_name(a.as_str()), Some(a));
    }
    for m in [RiskType::Delta, RiskType::Vega, RiskType::Curvature, RiskType::BaseCorr] {
        assert_eq!(RiskType::from_name(m.as_str()), Some(m));
        assert!(RiskClass::Rates.supports(m));
    }
    assert_eq!(RiskClass::from_name("Credit"), None);
    assert_eq!(RiskClass::Equity.allowed_risk_types().len(), 4);
}

#[test]
fn margin_by_risk_class_lists_six_classes() {
    let m = margin_by_risk_class();
    assert_eq!(m.len(), 6);
    assert_eq!(m[0].0, "Rates");
    assert_eq!(m[5].0, "Commodity");
    assert_eq!(m[2].1, vec!["Delta", "Vega", "Curvature", "BaseCorr"]);
}

#[test]
fn risk_type_tags_map_to_classes() {
    assert_eq!(risk_class_of_tag("Risk_IRCurve"), Some(RiskClass::Rates));
    assert_eq!(risk_class_of_tag("Risk_EquityVol"), Some(RiskClass::Equity));
    assert_eq!(risk_class_of_tag("Risk_BaseCorr"), Some(RiskClass::CreditQ));
    assert_eq!(risk_class_of_tag("Param_AddOnFixedAmount"), None);
    assert_eq!(class_tags(RiskClass::FX), vec!["Risk_FX", "Risk_FXVol"]);
}

#[test]
fn delta_and_vega_tags_are_disjoint() {
    let vol = vega_tags();
    for a in ALL {
        for t in measure_tags(a, RiskType::Delta) {
            assert!(!vol.contains(&t));
        }
        for t in measure_tags(a, RiskType::Vega) {
            assert!(vol.contains(&t));
        }
    }
    assert_eq!(measure_tags(RiskClass::CreditQ, RiskType::BaseCorr), vec!["Risk_BaseCorr"]);
    assert!(measure_tags(RiskClass::Rates, RiskType::BaseCorr).is_empty());
}

#[test]
fn currency_thresholds() {
    assert_eq!(v2_5::Currency::from_str("USD").ir_delta_ct(), 230);
    assert_eq!(v2_5::Currency::from_str("JPY").ir_vega_ct(), 570);
    assert_eq!(v2_6::Currency::from_str("XYZ"), v2_6::Currency::Others);
    assert_eq!(v2_7::Currency::from_str("SEK").ir_delta_ct(), 61);
    assert_eq!(v2_5::CreditQuality::NonQualifying.vega_ct(), 145);
}

#[test]
fn fx_categories() {
    assert_eq!(FxCategory::from_currency("EUR"), FxCategory::Category1);
    assert_eq!(FxCategory::from_currency("BRL"), FxCategory::Category2);
    assert_eq!(FxCategory::from_currency("PLN"), FxCategory::Others);
    assert_eq!(FxCategory::Category1.delta_ct(), 5100);
    assert_eq!(FxCategory::Others.vega_ct(FxCategory::Category2), 310);
    assert_eq!(v2_7::FxCategory::Category2.vega_ct(v2_7::FxCategory::Category1), 1500);
}

#[test]
fn volatility_groups() {
    assert!(v2_5::is_high_vol_currency("ZAR"));
    assert!(!v2_6::is_high_vol_currency("ZAR"));
    assert!(v2_7::is_high_vol_currency("ARS"));
    assert!(v2_5::is_reg_vol_currency("KRW"));
    assert!(v2_5::is_low_vol_currency("JPY"));
    assert_eq!(v2_5::VolatilityLevel::High.as_index(), 1);
}

#[test]
fn parse_usize_like_std() {
    assert_eq!(parse_usize("42"), Some(42));
    assert_eq!(parse_usize("+7"), Some(7));
    assert_eq!(parse_usize("+"), None);
    assert_eq!(parse_usize(""), None);
    assert_eq!(parse_usize("4a"), None);
    assert_eq!(parse_usize("18446744073709551615"), Some(usize::MAX));
    assert_eq!(parse_usize("18446744073709551616"), None);
}

#[test]
fn ir_risk_weights_by_tenor() {
    assert_eq!(v2_5::reg_vol_rw_lookup("2w"), Some(115));
    assert_eq!(v2_5::low_vol_rw_lookup("30y"), Some(23));
    assert_eq!(v2_6::high_vol_rw_lookup("2w"), Some(163));
    assert_eq!(v2_7::reg_vol_rw_lookup("10y"), Some(59));
    assert_eq!(v2_5::reg_vol_rw_lookup("2W"), None);
    assert_eq!(v2_5::reg_vol_rw_lookup("7y"), None);
}

#[test]
fn concentration_thresholds_in_usd() {
    let v = v2_5::V2_5;
    assert_eq!(v.threshold("Rates", "Delta", Some("USD"), None), Some(230_000_000));
    assert_eq!(v.threshold("Rates", "Delta", None, None), Some(33_000_000));
    assert_eq!(v.threshold("Rates", "Vega", Some("JPY"), None), Some(570_000_000));
    assert_eq!(v.threshold("Risk_CreditQ", "Delta", None, Some("1")), Some(910_000));
    assert_eq!(v.threshold("Risk_CreditQ", "Delta", None, Some("Residual")), Some(190_000));
    assert_eq!(v.threshold("Risk_CreditQ", "Delta", None, Some("13")), None);
    assert_eq!(v.threshold("Risk_CreditQ", "Delta", None, None), None);
    assert_eq!(v.threshold("Risk_CreditNonQ", "Delta", None, Some("1")), Some(9_500_000));
    assert_eq!(v.threshold("Risk_CreditVol", "Vega", None, None), Some(260_000_000));
    assert_eq!(v.threshold("Risk_Equity", "Delta", None, Some("9")), Some(1_400_000));
    assert_eq!(v.threshold("Risk_EquityVol", "Vega", None, Some("12")), Some(5_900_000_000));
    assert_eq!(v.threshold("Risk_Commodity", "Delta", None, Some("17")), Some(4_000_000_000));
    assert_eq!(v.threshold("Risk_FX", "Delta", Some("BRL"), None), Some(1_200_000_000));
    assert_eq!(v.threshold("Risk_FXVol", "Vega", Some("USDBRL"), None), Some(1_300_000_000));
    assert_eq!(v.threshold("Risk_FXVol", "Vega", Some("USDBR"), None), None);
    assert_eq!(v.threshold("Risk_FX", "Curvature", Some("USD"), None), None);
    assert_eq!(v.threshold("Risk_Other", "Delta", Some("USD"), Some("1")), None);
    assert_eq!(v2_7::V2_7.threshold("Rates", "Delta", Some("EUR"), None), Some(340_000_000));
}

#[test]
fn credit_delta_thresholds() {
    assert_eq!(v2_5::credit_delta_ct(v2_5::CreditQuality::Qualifying, 7), Some(910_000));
    assert_eq!(v2_5::credit_delta_ct(v2_5::CreditQuality::NonQualifying, 2), Some(500_000));
    assert_eq!(v2_5::credit_delta_ct(v2_5::CreditQuality::NonQualifying, 3), None);
}

#[test]
fn bucket_risk_weights() {
    let v = v2_5::V2_5;
    assert_eq!(v.risk_weight("Risk_CreditQ", "Residual"), Some(665));
    assert_eq!(v.risk_weight("Risk_CreditQ", "2"), Some(91));
    assert_eq!(v.risk_weight("Risk_EquityVol", "12"), Some(18));
    assert_eq!(v.risk_weight("Risk_Commodity", "17"), Some(17));
    assert_eq!(v.risk_weight("Risk_Commodity", "18"), None);
    assert_eq!(v.risk_weight("Risk_IRCurve", "1"), None);
    assert_eq!(v2_7::V2_7.risk_weight("Risk_CreditNonQ", "0"), Some(2900));
}

#[test]
fn intra_bucket_correlations() {
    let v = v2_5::V2_5;
    assert_eq!(v.rho_hundredths("Risk_IRCurve", "2w", "1m", None), Some(74));
    assert_eq!(v.rho_hundredths("Risk_IRVol", "30y", "30y", None), Some(100));
    assert_eq!(v.rho_hundredths("Risk_IRCurve", "2W", "1m", None), None);
    assert_eq!(v.rho_hundredths("Risk_CreditQ", "A", "A", None), Some(93));
    assert_eq!(v.rho_hundredths("Risk_CreditQ", "A", "B", None), Some(42));
    assert_eq!(v.rho_hundredths("Risk_CreditQ", "Res", "B", None), Some(50));
    assert_eq!(v.rho_hundredths("Risk_BaseCorr", "A", "A", None), Some(24));
    assert_eq!(v.rho_hundredths("Risk_CreditNonQ", "A", "B", None), Some(27));
    assert_eq!(v.rho_hundredths("Risk_Equity", "", "", Some("11")), Some(45));
    assert_eq!(v.rho_hundredths("Risk_Equity", "", "", None), None);
    assert_eq!(v.rho_hundredths("Risk_Commodity", "", "", Some("16")), Some(0));
    assert_eq!(v.rho_hundredths("Risk_FX", "", "", None), None);
}

#[test]
fn cross_bucket_correlations() {
    let v = v2_5::V2_5;
    assert_eq!(v.gamma_hundredths("Risk_CreditQ", "1", "2"), Some(36));
    assert_eq!(v.gamma_hundredths("Risk_CreditNonQ", "1", "2"), Some(40));
    assert_eq!(v.gamma_hundredths("Risk_Equity", "12", "11"), Some(45));
    assert_eq!(v.gamma_hundredths("Risk_Commodity", "7", "12"), Some(-12));
    assert_eq!(v.gamma_hundredths("Risk_Commodity", "17", "17"), Some(100));
    assert_eq!(v.gamma_hundredths("Risk_Equity", "13", "1"), None);
    assert_eq!(v.gamma_hundredths("Risk_Equity", "Residual", "1"), None);
    assert_eq!(v.gamma_hundredths("Risk_FX", "1", "1"), None);
}

#[test]
fn fx_delta_weight_of_calculation_currency_is_zero() {
    assert_eq!(v2_5::fx_delta_rw_tenths("USD", "USD"), 0);
    assert_eq!(v2_5::fx_delta_rw_tenths("EUR", "USD"), 74);
    assert_eq!(v2_5::fx_delta_rw_tenths("BRL", "USD"), 136);
    assert_eq!(v2_5::fx_delta_rw_tenths("BRL", "ZAR"), 146);
    assert_eq!(v2_7::fx_delta_rw_tenths("ARS", "USD"), 214);
    assert_eq!(v2_6::fx_rw_tenths(v2_6::RiskLevel::High, v2_6::RiskLevel::High), 214);
}

#[test]
fn credit_quality_delta_thresholds() {
    assert_eq!(v2_5::CreditQuality::Qualifying.delta_ct(7), 910_000);
    assert_eq!(v2_5::CreditQuality::Qualifying.delta_ct(40), 190_000);
    assert_eq!(v2_5::CreditQuality::NonQualifying.delta_ct(1), 9_500_000);
    assert_eq!(v2_7::CreditQuality::NonQualifying.delta_ct(5), 180_000);
}

#[test]
fn config_names_are_checked() {
    assert_eq!(validate_config("2_6", "EUR"), Ok(SimmVersion::V2_6));
    assert_eq!(validate_config("", "EUR"), Err(ConfigError::UnknownVersion));
    assert_eq!(validate_config("2_8", "EUR"), Err(ConfigError::UnknownVersion));
    assert_eq!(validate_config("2_5", "usd"), Err(ConfigError::BadCurrency));
    assert_eq!(validate_config("2_5", "USDX"), Err(ConfigError::BadCurrency));
}
