//! Parameter set of SIMM version 2.7: currency and FX classifications,
//! risk weights, concentration thresholds (in USD) and correlations (in
//! hundredths).
use vstd::prelude::*;

use crate::constants::{class_tags, lemma_class_tags_disjoint, spec_class_tags, RiskClass};
use crate::simm_utils::{
    bucket_index, simm_tenor_list, spec_bucket_index, spec_table_at, spec_tenors, table_at,
    tenor_index,
};
use crate::text::{contains_str, opt_view, position_in, position_of, str_eq, views};

verus! {

/// The SIMM version 2.7 parameter set.
pub struct V2_7;

/// Volatility class of a currency for FX risk weights.
#[derive(Debug, Clone, Copy, PartialEq, Eq, Structural)]
pub enum RiskLevel {
    Regular,
    High,
}

/// Volatility class of a currency for FX correlations.
#[derive(Debug, Clone, Copy, PartialEq, Eq, Structural)]
pub enum VolatilityLevel {
    Regular,
    High,
}

impl VolatilityLevel {
    /// Row or column of the class in a 2x2 FX correlation table.
    pub fn as_index(self) -> (r: usize)
        ensures
            r == (if self == VolatilityLevel::Regular {
                0usize
            } else {
                1usize
            }),
    {
        match self {
            VolatilityLevel::Regular => 0,
            VolatilityLevel::High => 1,
        }
    }
}

/// Currencies with their own interest-rate concentration thresholds.
#[derive(Debug, Clone, Copy, PartialEq, Eq, Hash, Structural)]
pub enum Currency {
    USD,
    EUR,
    GBP,
    AUD,
    CAD,
    CHF,
    DKK,
    HKD,
    KRW,
    NOK,
    NZD,
    SEK,
    SGD,
    TWD,
    JPY,
    Others,
}

/// The currency that a code names; any other code is `Others`.
pub open spec fn spec_currency_from(s: Seq<char>) -> Currency {
    if s == "USD"@ {
        Currency::USD
    } else if s == "EUR"@ {
        Currency::EUR
    } else if s == "GBP"@ {
        Currency::GBP
    } else if s == "AUD"@ {
        Currency::AUD
    } else if s == "CAD"@ {
        Currency::CAD
    } else if s == "CHF"@ {
        Currency::CHF
    } else if s == "DKK"@ {
        Currency::DKK
    } else if s == "HKD"@ {
        Currency::HKD
    } else if s == "KRW"@ {
        Currency::KRW
    } else if s == "NOK"@ {
        Currency::NOK
    } else if s == "NZD"@ {
        Currency::NZD
    } else if s == "SEK"@ {
        Currency::SEK
    } else if s == "SGD"@ {
        Currency::SGD
    } else if s == "TWD"@ {
        Currency::TWD
    } else if s == "JPY"@ {
        Currency::JPY
    } else {
        Currency::Others
    }
}

impl Currency {
    /// Interest-rate delta concentration threshold, in USD millions.
    pub open spec fn spec_ir_delta_ct(self) -> u32 {
        match self {
            Currency::USD | Currency::EUR | Currency::GBP => 340,
            Currency::Others => 29,
            Currency::JPY => 150,
            _ => 61,
        }
    }

    /// Interest-rate vega concentration threshold, in USD millions.
    pub open spec fn spec_ir_vega_ct(self) -> u32 {
        match self {
            Currency::USD | Currency::EUR | Currency::GBP => 4900,
            Currency::Others => 76,
            Currency::JPY => 890,
            _ => 550,
        }
    }

    /// Interest-rate delta concentration threshold, in USD millions.
    pub fn ir_delta_ct(self) -> (r: u32)
        ensures
            r == self.spec_ir_delta_ct(),
    {
        match self {
            Currency::USD | Currency::EUR | Currency::GBP => 340,
            Currency::Others => 29,
            Currency::JPY => 150,
            _ => 61,
        }
    }

    /// Interest-rate vega concentration threshold, in USD millions.
    pub fn ir_vega_ct(self) -> (r: u32)
        ensures
            r == self.spec_ir_vega_ct(),
    {
        match self {
            Currency::USD | Currency::EUR | Currency::GBP => 4900,
            Currency::Others => 76,
            Currency::JPY => 890,
            _ => 550,
        }
    }

    /// The currency that a code names; any other code is `Others`.
    pub fn from_str(s: &str) -> (r: Currency)
        ensures
            r == spec_currency_from(s@),
    {
        if str_eq(s, "USD") {
            Currency::USD
        } else if str_eq(s, "EUR") {
            Currency::EUR
        } else if str_eq(s, "GBP") {
            Currency::GBP
        } else if str_eq(s, "AUD") {
            Currency::AUD
        } else if str_eq(s, "CAD") {
            Currency::CAD
        } else if str_eq(s, "CHF") {
            Currency::CHF
        } else if str_eq(s, "DKK") {
            Currency::DKK
        } else if str_eq(s, "HKD") {
            Currency::HKD
        } else if str_eq(s, "KRW") {
            Currency::KRW
        } else if str_eq(s, "NOK") {
            Currency::NOK
        } else if str_eq(s, "NZD") {
            Currency::NZD
        } else if str_eq(s, "SEK") {
            Currency::SEK
        } else if str_eq(s, "SGD") {
            Currency::SGD
        } else if str_eq(s, "TWD") {
            Currency::TWD
        } else if str_eq(s, "JPY") {
            Currency::JPY
        } else {
            Currency::Others
        }
    }
}

/// Whether a credit risk is qualifying.
#[derive(Debug, Clone, Copy, PartialEq, Eq, Structural)]
pub enum CreditQuality {
    Qualifying,
    NonQualifying,
}

impl CreditQuality {
    /// Credit delta concentration threshold of a bucket, in USD; buckets
    /// without a threshold of their own take the corporate one.
    pub open spec fn spec_delta_ct(self, bucket: u8) -> u64 {
        match self {
            CreditQuality::Qualifying => if bucket == 1 || bucket == 7 {
                980000
            } else {
                180000
            },
            CreditQuality::NonQualifying => if bucket == 1 {
                3300000
            } else if bucket == 2 {
                180000
            } else if bucket == 0 {
                180000
            } else {
                180000
            },
        }
    }

    /// Credit delta concentration threshold of a bucket, in USD; buckets
    /// without a threshold of their own take the corporate one.
    pub fn delta_ct(self, bucket: u8) -> (r: u64)
        ensures
            r == self.spec_delta_ct(bucket),
    {
        match (self, bucket) {
            (CreditQuality::Qualifying, 1) => 980000,
            (CreditQuality::Qualifying, 7) => 980000,
            (CreditQuality::Qualifying, 2..=6) => 180000,
            (CreditQuality::Qualifying, 8..=12) => 180000,
            (CreditQuality::Qualifying, 0) => 180000,
            (CreditQuality::NonQualifying, 1) => 3300000,
            (CreditQuality::NonQualifying, 2) => 180000,
            (CreditQuality::NonQualifying, 0) => 180000,
            _ => 180000,
        }
    }

    /// Credit vega concentration threshold, in USD millions.
    pub fn vega_ct(self) -> (r: u32)
        ensures
            r == (if self == CreditQuality::Qualifying {
                290u32
            } else {
                21u32
            }),
    {
        match self {
            CreditQuality::Qualifying => 290,
            CreditQuality::NonQualifying => 21,
        }
    }
}

/// FX liquidity category of a currency.
#[derive(Debug, Clone, Copy, PartialEq, Eq, Structural)]
pub enum FxCategory {
    Category1,
    Category2,
    Others,
}

/// The significantly material currencies.
pub open spec fn spec_fx_category1() -> Seq<Seq<char>> {
    seq!["USD"@, "EUR"@, "JPY"@, "GBP"@, "AUD"@, "CHF"@, "CAD"@]
}

/// The frequently traded currencies.
pub open spec fn spec_fx_category2() -> Seq<Seq<char>> {
    seq!["BRL"@, "CNY"@, "HKD"@, "INR"@, "KRW"@, "MXN"@, "NOK"@, "NZD"@, "RUB"@, "SEK"@, "SGD"@, "TRY"@, "ZAR"@]
}

/// The category of a currency code.
pub open spec fn spec_fx_category(c: Seq<char>) -> FxCategory {
    if spec_fx_category1().contains(c) {
        FxCategory::Category1
    } else if spec_fx_category2().contains(c) {
        FxCategory::Category2
    } else {
        FxCategory::Others
    }
}

impl FxCategory {
    /// FX delta concentration threshold, in USD millions.
    pub open spec fn spec_delta_ct(self) -> u32 {
        match self {
            FxCategory::Category1 => 2000,
            FxCategory::Category2 => 630,
            FxCategory::Others => 120,
        }
    }

    /// FX vega concentration threshold of a pair, in USD millions.
    pub open spec fn spec_vega_ct(self, other: FxCategory) -> u32 {
        match (self, other) {
            (FxCategory::Category1, FxCategory::Category1) => 3000,
            (FxCategory::Category1, FxCategory::Category2)
            | (FxCategory::Category2, FxCategory::Category1) => 1500,
            (FxCategory::Category1, FxCategory::Others)
            | (FxCategory::Others, FxCategory::Category1) => 670,
            (FxCategory::Category2, FxCategory::Category2) => 600,
            (FxCategory::Category2, FxCategory::Others)
            | (FxCategory::Others, FxCategory::Category2) => 390,
            (FxCategory::Others, FxCategory::Others) => 240,
        }
    }

    /// FX delta concentration threshold, in USD millions.
    pub fn delta_ct(self) -> (r: u32)
        ensures
            r == self.spec_delta_ct(),
    {
        match self {
            FxCategory::Category1 => 2000,
            FxCategory::Category2 => 630,
            FxCategory::Others => 120,
        }
    }

    /// FX vega concentration threshold of a pair, in USD millions.
    pub fn vega_ct(self, other: FxCategory) -> (r: u32)
        ensures
            r == self.spec_vega_ct(other),
    {
        match (self, other) {
            (FxCategory::Category1, FxCategory::Category1) => 3000,
            (FxCategory::Category1, FxCategory::Category2)
            | (FxCategory::Category2, FxCategory::Category1) => 1500,
            (FxCategory::Category1, FxCategory::Others)
            | (FxCategory::Others, FxCategory::Category1) => 670,
            (FxCategory::Category2, FxCategory::Category2) => 600,
            (FxCategory::Category2, FxCategory::Others)
            | (FxCategory::Others, FxCategory::Category2) => 390,
            (FxCategory::Others, FxCategory::Others) => 240,
        }
    }

    /// The category of a currency code.
    pub fn from_currency(currency: &str) -> (r: FxCategory)
        ensures
            r == spec_fx_category(currency@),
    {
        let cat1 = vec!["USD", "EUR", "JPY", "GBP", "AUD", "CHF", "CAD"];
        assert(views(cat1@) =~= spec_fx_category1());
        let cat2 = vec!["BRL", "CNY", "HKD", "INR", "KRW", "MXN", "NOK", "NZD", "RUB", "SEK", "SGD", "TRY", "ZAR"];
        assert(views(cat2@) =~= spec_fx_category2());
        if contains_str(cat1.as_slice(), currency) {
            FxCategory::Category1
        } else if contains_str(cat2.as_slice(), currency) {
            FxCategory::Category2
        } else {
            FxCategory::Others
        }
    }
}

/// Currencies of regular interest-rate volatility.
pub open spec fn spec_reg_vol_currencies() -> Seq<Seq<char>> {
    seq!["USD"@, "EUR"@, "GBP"@, "CHF"@, "AUD"@, "NZD"@, "CAD"@, "SEK"@, "NOK"@, "DKK"@, "HKD"@, "KRW"@, "SGD"@, "TWD"@]
}

/// Currencies of low interest-rate volatility.
pub open spec fn spec_low_vol_currencies() -> Seq<Seq<char>> {
    seq!["JPY"@]
}

/// Currencies of high FX volatility.
pub open spec fn spec_high_vol_currencies() -> Seq<Seq<char>> {
    seq!["ARS"@, "RUB"@, "TRY"@]
}

/// Whether a currency has regular interest-rate volatility.
pub fn is_reg_vol_currency(c: &str) -> (r: bool)
    ensures
        r == spec_reg_vol_currencies().contains(c@),
{
    let v = vec!["USD", "EUR", "GBP", "CHF", "AUD", "NZD", "CAD", "SEK", "NOK", "DKK", "HKD", "KRW", "SGD", "TWD"];
    assert(views(v@) =~= spec_reg_vol_currencies());
    contains_str(v.as_slice(), c)
}

/// Whether a currency has low interest-rate volatility.
pub fn is_low_vol_currency(c: &str) -> (r: bool)
    ensures
        r == spec_low_vol_currencies().contains(c@),
{
    let v = vec!["JPY"];
    assert(views(v@) =~= spec_low_vol_currencies());
    contains_str(v.as_slice(), c)
}

/// Whether a currency has high FX volatility.
pub fn is_high_vol_currency(c: &str) -> (r: bool)
    ensures
        r == spec_high_vol_currencies().contains(c@),
{
    let v = vec!["ARS", "RUB", "TRY"];
    assert(views(v@) =~= spec_high_vol_currencies());
    contains_str(v.as_slice(), c)
}

/// Interest-rate delta risk weights of regular-volatility currencies, by tenor.
pub open spec fn spec_reg_vol_rw() -> Seq<u32> {
    seq![109u32, 106u32, 91u32, 69u32, 68u32, 68u32, 66u32, 61u32, 59u32, 56u32, 57u32, 65u32]
}

/// Interest-rate delta risk weight of a regular-volatility currency at a
/// tenor; `None` for a label that is not a SIMM tenor.
pub fn reg_vol_rw_lookup(tenor: &str) -> (r: Option<u32>)
    ensures
        match r {
            Some(w) => exists|i: int|
                0 <= i < 12 && spec_tenors()[i] == tenor@ && w == spec_reg_vol_rw()[i],
            None => !spec_tenors().contains(tenor@),
        },
{
    let table = vec![109u32, 106u32, 91u32, 69u32, 68u32, 68u32, 66u32, 61u32, 59u32, 56u32, 57u32, 65u32];
    assert(table@ =~= spec_reg_vol_rw());
    match tenor_index(tenor) {
        Some(i) => Some(table[i]),
        None => None,
    }
}

/// Interest-rate delta risk weights of low-volatility currencies, by tenor.
pub open spec fn spec_low_vol_rw() -> Seq<u32> {
    seq![15u32, 21u32, 10u32, 10u32, 11u32, 15u32, 18u32, 23u32, 25u32, 23u32, 23u32, 25u32]
}

/// Interest-rate delta risk weight of a low-volatility currency at a
/// tenor; `None` for a label that is not a SIMM tenor.
pub fn low_vol_rw_lookup(tenor: &str) -> (r: Option<u32>)
    ensures
        match r {
            Some(w) => exists|i: int|
                0 <= i < 12 && spec_tenors()[i] == tenor@ && w == spec_low_vol_rw()[i],
            None => !spec_tenors().contains(tenor@),
        },
{
    let table = vec![15u32, 21u32, 10u32, 10u32, 11u32, 15u32, 18u32, 23u32, 25u32, 23u32, 23u32, 25u32];
    assert(table@ =~= spec_low_vol_rw());
    match tenor_index(tenor) {
        Some(i) => Some(table[i]),
        None => None,
    }
}

/// Interest-rate delta risk weights of high-volatility currencies, by tenor.
pub open spec fn spec_high_vol_rw() -> Seq<u32> {
    seq![171u32, 102u32, 94u32, 96u32, 105u32, 96u32, 99u32, 93u32, 99u32, 100u32, 101u32, 96u32]
}

/// Interest-rate delta risk weight of a high-volatility currency at a
/// tenor; `None` for a label that is not a SIMM tenor.
pub fn high_vol_rw_lookup(tenor: &str) -> (r: Option<u32>)
    ensures
        match r {
            Some(w) => exists|i: int|
                0 <= i < 12 && spec_tenors()[i] == tenor@ && w == spec_high_vol_rw()[i],
            None => !spec_tenors().contains(tenor@),
        },
{
    let table = vec![171u32, 102u32, 94u32, 96u32, 105u32, 96u32, 99u32, 93u32, 99u32, 100u32, 101u32, 96u32];
    assert(table@ =~= spec_high_vol_rw());
    match tenor_index(tenor) {
        Some(i) => Some(table[i]),
        None => None,
    }
}

/// Equity vega concentration thresholds by bucket (0 is Residual), in USD millions.
pub open spec fn spec_equity_vega_ct() -> Seq<u32> {
    seq![74u32, 300u32, 300u32, 300u32, 300u32, 1500u32, 1500u32, 1500u32, 1500u32, 74u32, 280u32, 4300u32, 4300u32]
}

/// Commodity vega concentration thresholds by bucket, in USD millions.
pub open spec fn spec_commodity_vega_ct() -> Seq<u32> {
    seq![59u32, 450u32, 2300u32, 240u32, 240u32, 240u32, 6400u32, 6400u32, 1300u32, 1300u32, 94u32, 490u32, 810u32, 730u32, 730u32, 730u32, 59u32, 59u32]
}

/// A threshold in USD millions, in USD.
pub open spec fn million(x: u32) -> u64 {
    (x as u64 * 1_000_000) as u64
}

/// Delta concentration thresholds of qualifying credit by bucket, in USD.
pub open spec fn spec_credit_q_delta_ct() -> Seq<u64> {
    seq![180000u64, 980000u64, 180000u64, 180000u64, 180000u64, 180000u64, 180000u64, 980000u64, 180000u64, 180000u64, 180000u64, 180000u64, 180000u64]
}

/// Delta concentration thresholds of non-qualifying credit by bucket, in USD.
pub open spec fn spec_credit_non_q_delta_ct() -> Seq<u64> {
    seq![180000u64, 3300000u64, 180000u64]
}

/// Delta concentration thresholds of equity by bucket, in USD.
pub open spec fn spec_equity_delta_ct() -> Seq<u64> {
    seq![300000u64, 2500000u64, 2500000u64, 2500000u64, 2500000u64, 10000000u64, 10000000u64, 10000000u64, 10000000u64, 610000u64, 300000u64, 710000000u64, 710000000u64]
}

/// Delta concentration thresholds of commodity by bucket, in USD.
pub open spec fn spec_commodity_delta_ct() -> Seq<u64> {
    seq![52000000u64, 310000000u64, 2500000000u64, 1700000000u64, 1700000000u64, 1700000000u64, 2400000000u64, 2400000000u64, 1800000000u64, 1800000000u64, 52000000u64, 530000000u64, 1600000000u64, 100000000u64, 100000000u64, 100000000u64, 52000000u64, 4000000000u64]
}

/// Delta concentration threshold of credit of a quality in a bucket, in USD.
pub fn credit_delta_ct(quality: CreditQuality, bucket: u8) -> (r: Option<u64>)
    ensures
        r == (match quality {
            CreditQuality::Qualifying => if bucket < 13 {
                Some(spec_credit_q_delta_ct()[bucket as int])
            } else {
                None
            },
            CreditQuality::NonQualifying => if bucket < 3 {
                Some(spec_credit_non_q_delta_ct()[bucket as int])
            } else {
                None
            },
        }),
{
    let tbl = match quality {
        CreditQuality::Qualifying => vec![180000u64, 980000u64, 180000u64, 180000u64, 180000u64, 180000u64, 180000u64, 980000u64, 180000u64, 180000u64, 180000u64, 180000u64, 180000u64],
        CreditQuality::NonQualifying => vec![180000u64, 3300000u64, 180000u64],
    };
    assert(quality == CreditQuality::Qualifying ==> tbl@ =~= spec_credit_q_delta_ct());
    assert(quality == CreditQuality::NonQualifying ==> tbl@ =~= spec_credit_non_q_delta_ct());
    if (bucket as usize) < tbl.len() {
        Some(tbl[bucket as usize])
    } else {
        None
    }
}

/// A bucket-indexed table of USD-million thresholds, in USD.
pub open spec fn in_usd(tbl: Seq<u32>) -> Seq<u64> {
    tbl.map_values(|x: u32| million(x))
}

/// The currency code to classify when a call gives none.
pub open spec fn currency_or_others(c: Option<Seq<char>>) -> Seq<char> {
    match c {
        Some(x) => x,
        None => "Others"@,
    }
}

/// Vega concentration threshold of an FX pair, in USD: a pair is six ASCII
/// characters, its halves classified separately.
pub open spec fn spec_fx_pair_vega_ct(pair: Option<Seq<char>>) -> Option<u64> {
    match pair {
        Some(p) => if p.len() == 6 && vstd::utf8::is_ascii_chars(p) {
            Some(
                million(
                    spec_fx_category(p.subrange(0, 3)).spec_vega_ct(
                        spec_fx_category(p.subrange(3, 6)),
                    ),
                ),
            )
        } else {
            None
        },
        None => None,
    }
}

/// Concentration threshold in USD for a risk class (the name `Rates`, or a
/// risk-type tag of another class), a measure (`Delta` or `Vega`), and the
/// currency, currency pair or bucket label that the class is keyed by.
pub open spec fn spec_threshold(
    rc: Seq<char>,
    measure: Seq<char>,
    currency: Option<Seq<char>>,
    bucket: Option<Seq<char>>,
) -> Option<u64> {
    if measure == "Delta"@ {
        if rc == "Rates"@ {
            Some(million(spec_currency_from(currency_or_others(currency)).spec_ir_delta_ct()))
        } else if spec_class_tags(RiskClass::CreditQ).contains(rc) {
            spec_table_at(spec_credit_q_delta_ct(), bucket)
        } else if spec_class_tags(RiskClass::CreditNonQ).contains(rc) {
            spec_table_at(spec_credit_non_q_delta_ct(), bucket)
        } else if spec_class_tags(RiskClass::Equity).contains(rc) {
            spec_table_at(spec_equity_delta_ct(), bucket)
        } else if spec_class_tags(RiskClass::Commodity).contains(rc) {
            spec_table_at(spec_commodity_delta_ct(), bucket)
        } else if spec_class_tags(RiskClass::FX).contains(rc) {
            match currency {
                Some(c) => Some(million(spec_fx_category(c).spec_delta_ct())),
                None => None,
            }
        } else {
            None
        }
    } else if measure == "Vega"@ {
        if rc == "Rates"@ {
            Some(million(spec_currency_from(currency_or_others(currency)).spec_ir_vega_ct()))
        } else if spec_class_tags(RiskClass::CreditQ).contains(rc) {
            Some(million(290u32))
        } else if spec_class_tags(RiskClass::CreditNonQ).contains(rc) {
            Some(million(21u32))
        } else if spec_class_tags(RiskClass::Equity).contains(rc) {
            spec_table_at(in_usd(spec_equity_vega_ct()), bucket)
        } else if spec_class_tags(RiskClass::Commodity).contains(rc) {
            spec_table_at(in_usd(spec_commodity_vega_ct()), bucket)
        } else if spec_class_tags(RiskClass::FX).contains(rc) {
            spec_fx_pair_vega_ct(currency)
        } else {
            None
        }
    } else {
        None
    }
}

impl V2_7 {
    /// Concentration threshold in USD for a risk class (the name `Rates`, or a
    /// risk-type tag of another class), a measure (`Delta` or `Vega`), and the
    /// currency, currency pair or bucket label the class is keyed by; `None`
    /// where no threshold is defined.
    pub fn threshold(
        &self,
        risk_class: &str,
        risk_type: &str,
        currency: Option<&str>,
        bucket: Option<&str>,
    ) -> (r: Option<u64>)
        ensures
            r == spec_threshold(risk_class@, risk_type@, opt_view(currency), opt_view(bucket)),
    {
        let delta = str_eq(risk_type, "Delta");
        let vega = str_eq(risk_type, "Vega");
        if !delta && !vega {
            return None;
        }
        if str_eq(risk_class, "Rates") {
            let ccy = match currency {
                Some(c) => c,
                None => "Others",
            };
            let code = Currency::from_str(ccy);
            let ct = if delta {
                code.ir_delta_ct()
            } else {
                code.ir_vega_ct()
            };
            return Some(ct as u64 * 1_000_000);
        }
        if contains_str(class_tags(RiskClass::CreditQ).as_slice(), risk_class) {
            if delta {
                let tbl = vec![180000u64, 980000u64, 180000u64, 180000u64, 180000u64, 180000u64, 180000u64, 980000u64, 180000u64, 180000u64, 180000u64, 180000u64, 180000u64];
                assert(tbl@ =~= spec_credit_q_delta_ct());
                return table_at(&tbl, bucket);
            }
            return Some(CreditQuality::Qualifying.vega_ct() as u64 * 1_000_000);
        }
        if contains_str(class_tags(RiskClass::CreditNonQ).as_slice(), risk_class) {
            if delta {
                let tbl = vec![180000u64, 3300000u64, 180000u64];
                assert(tbl@ =~= spec_credit_non_q_delta_ct());
                return table_at(&tbl, bucket);
            }
            return Some(CreditQuality::NonQualifying.vega_ct() as u64 * 1_000_000);
        }
        if contains_str(class_tags(RiskClass::Equity).as_slice(), risk_class) {
            if delta {
                let tbl = vec![300000u64, 2500000u64, 2500000u64, 2500000u64, 2500000u64, 10000000u64, 10000000u64, 10000000u64, 10000000u64, 610000u64, 300000u64, 710000000u64, 710000000u64];
                assert(tbl@ =~= spec_equity_delta_ct());
                return table_at(&tbl, bucket);
            }
            let tbl = vec![74000000u64, 300000000u64, 300000000u64, 300000000u64, 300000000u64, 1500000000u64, 1500000000u64, 1500000000u64, 1500000000u64, 74000000u64, 280000000u64, 4300000000u64, 4300000000u64];
            assert(tbl@ =~= in_usd(spec_equity_vega_ct()));
            return table_at(&tbl, bucket);
        }
        if contains_str(class_tags(RiskClass::Commodity).as_slice(), risk_class) {
            if delta {
                let tbl = vec![52000000u64, 310000000u64, 2500000000u64, 1700000000u64, 1700000000u64, 1700000000u64, 2400000000u64, 2400000000u64, 1800000000u64, 1800000000u64, 52000000u64, 530000000u64, 1600000000u64, 100000000u64, 100000000u64, 100000000u64, 52000000u64, 4000000000u64];
                assert(tbl@ =~= spec_commodity_delta_ct());
                return table_at(&tbl, bucket);
            }
            let tbl = vec![59000000u64, 450000000u64, 2300000000u64, 240000000u64, 240000000u64, 240000000u64, 6400000000u64, 6400000000u64, 1300000000u64, 1300000000u64, 94000000u64, 490000000u64, 810000000u64, 730000000u64, 730000000u64, 730000000u64, 59000000u64, 59000000u64];
            assert(tbl@ =~= in_usd(spec_commodity_vega_ct()));
            return table_at(&tbl, bucket);
        }
        if contains_str(class_tags(RiskClass::FX).as_slice(), risk_class) {
            let c = match currency {
                Some(c) => c,
                None => {
                    return None;
                },
            };
            if delta {
                return Some(FxCategory::from_currency(c).delta_ct() as u64 * 1_000_000);
            }
            if !(c.is_ascii() && c.unicode_len() == 6) {
                return None;
            }
            let first = FxCategory::from_currency(c.substring_ascii(0, 3));
            let second = FxCategory::from_currency(c.substring_ascii(3, 6));
            return Some(first.vega_ct(second) as u64 * 1_000_000);
        }
        None
    }
}

/// Delta risk weights by bucket (0 is Residual) of qualifying credit.
pub open spec fn spec_credit_q_rw() -> Seq<u32> {
    seq![363u32, 69u32, 75u32, 69u32, 47u32, 58u32, 48u32, 153u32, 363u32, 156u32, 188u32, 299u32, 119u32]
}

/// Delta risk weights by bucket (0 is Residual) of non-qualifying credit.
pub open spec fn spec_credit_non_q_rw() -> Seq<u32> {
    seq![2900u32, 280u32, 2900u32]
}

/// Delta risk weights by bucket (0 is Residual) of equity.
pub open spec fn spec_equity_rw() -> Seq<u32> {
    seq![39u32, 27u32, 30u32, 31u32, 27u32, 23u32, 24u32, 26u32, 27u32, 33u32, 39u32, 15u32, 15u32]
}

/// Delta risk weights by bucket of commodity.
pub open spec fn spec_commodity_rw() -> Seq<u32> {
    seq![0u32, 48u32, 21u32, 23u32, 20u32, 24u32, 33u32, 61u32, 45u32, 65u32, 45u32, 21u32, 19u32, 16u32, 16u32, 11u32, 65u32, 16u32]
}

/// The entry of a bucket-indexed weight table for a bucket label.
pub open spec fn spec_rw_at(tbl: Seq<u32>, bucket: Seq<char>) -> Option<u32> {
    match crate::simm_utils::spec_bucket_index(bucket) {
        Some(i) => if i < tbl.len() {
            Some(tbl[i as int])
        } else {
            None
        },
        None => None,
    }
}

/// Delta risk weight for a risk-type tag of credit, equity or commodity and a
/// bucket label; `None` for other tags and for labels outside the table.
pub open spec fn spec_risk_weight(rc: Seq<char>, bucket: Seq<char>) -> Option<u32> {
    if spec_class_tags(RiskClass::CreditQ).contains(rc) {
        spec_rw_at(spec_credit_q_rw(), bucket)
    } else if spec_class_tags(RiskClass::CreditNonQ).contains(rc) {
        spec_rw_at(spec_credit_non_q_rw(), bucket)
    } else if spec_class_tags(RiskClass::Equity).contains(rc) {
        spec_rw_at(spec_equity_rw(), bucket)
    } else if spec_class_tags(RiskClass::Commodity).contains(rc) {
        spec_rw_at(spec_commodity_rw(), bucket)
    } else {
        None
    }
}

impl V2_7 {
    /// Delta risk weight for a risk-type tag of credit, equity or commodity
    /// and a bucket label; `None` for other tags and for labels outside the table.
    pub fn risk_weight(&self, risk_class: &str, bucket: &str) -> (r: Option<u32>)
        ensures
            r == spec_risk_weight(risk_class@, bucket@),
    {
        let idx = match crate::simm_utils::bucket_index(bucket) {
            Some(i) => i,
            None => {
                return None;
            },
        };
        let tbl = if contains_str(class_tags(RiskClass::CreditQ).as_slice(), risk_class) {
            let v = vec![363u32, 69u32, 75u32, 69u32, 47u32, 58u32, 48u32, 153u32, 363u32, 156u32, 188u32, 299u32, 119u32];
            assert(v@ =~= spec_credit_q_rw());
            v
        } else if contains_str(class_tags(RiskClass::CreditNonQ).as_slice(), risk_class) {
            let v = vec![2900u32, 280u32, 2900u32];
            assert(v@ =~= spec_credit_non_q_rw());
            v
        } else if contains_str(class_tags(RiskClass::Equity).as_slice(), risk_class) {
            let v = vec![39u32, 27u32, 30u32, 31u32, 27u32, 23u32, 24u32, 26u32, 27u32, 33u32, 39u32, 15u32, 15u32];
            assert(v@ =~= spec_equity_rw());
            v
        } else if contains_str(class_tags(RiskClass::Commodity).as_slice(), risk_class) {
            let v = vec![0u32, 48u32, 21u32, 23u32, 20u32, 24u32, 33u32, 61u32, 45u32, 65u32, 45u32, 21u32, 19u32, 16u32, 16u32, 11u32, 65u32, 16u32];
            assert(v@ =~= spec_commodity_rw());
            v
        } else {
            return None;
        };
        if idx < tbl.len() {
            Some(tbl[idx])
        } else {
            None
        }
    }
}

/// FX delta risk weight, in tenths, by the volatility class of the
/// calculation currency (`outer`) and of the currency at risk (`inner`).
pub open spec fn spec_fx_rw_tenths(outer: RiskLevel, inner: RiskLevel) -> u32 {
    match (outer, inner) {
        (RiskLevel::Regular, RiskLevel::Regular) => 73,
        (RiskLevel::Regular, RiskLevel::High) => 214,
        (RiskLevel::High, RiskLevel::Regular) => 214,
        (RiskLevel::High, RiskLevel::High) => 359,
    }
}

/// FX delta risk weight, in tenths, by the volatility class of the
/// calculation currency (`outer`) and of the currency at risk (`inner`).
pub fn fx_rw_tenths(outer: RiskLevel, inner: RiskLevel) -> (r: u32)
    ensures
        r == spec_fx_rw_tenths(outer, inner),
{
    match (outer, inner) {
        (RiskLevel::Regular, RiskLevel::Regular) => 73,
        (RiskLevel::Regular, RiskLevel::High) => 214,
        (RiskLevel::High, RiskLevel::Regular) => 214,
        (RiskLevel::High, RiskLevel::High) => 359,
    }
}

/// The FX volatility class of a currency.
pub open spec fn spec_risk_level(c: Seq<char>) -> RiskLevel {
    if spec_high_vol_currencies().contains(c) {
        RiskLevel::High
    } else {
        RiskLevel::Regular
    }
}

/// FX delta risk weight, in tenths, of a currency against the calculation
/// currency; the calculation currency itself carries no FX risk.
pub open spec fn spec_fx_delta_rw_tenths(currency: Seq<char>, calculation: Seq<char>) -> u32 {
    if currency == calculation {
        0
    } else {
        spec_fx_rw_tenths(spec_risk_level(calculation), spec_risk_level(currency))
    }
}

/// FX delta risk weight, in tenths, of a currency against the calculation
/// currency; zero when the two are the same currency.
pub fn fx_delta_rw_tenths(currency: &str, calculation: &str) -> (r: u32)
    ensures
        r == spec_fx_delta_rw_tenths(currency@, calculation@),
        currency@ == calculation@ ==> r == 0,
{
    if str_eq(currency, calculation) {
        return 0;
    }
    let outer = if is_high_vol_currency(calculation) {
        RiskLevel::High
    } else {
        RiskLevel::Regular
    };
    let inner = if is_high_vol_currency(currency) {
        RiskLevel::High
    } else {
        RiskLevel::Regular
    };
    fx_rw_tenths(outer, inner)
}

/// Correlation between two risk classes, in hundredths.
pub open spec fn spec_psi(rc1: RiskClass, rc2: RiskClass) -> i64 {
    match rc1 {
        RiskClass::Rates => match rc2 {
            RiskClass::Rates => 100,
            RiskClass::CreditQ => 15,
            RiskClass::CreditNonQ => 9,
            RiskClass::Equity => 8,
            RiskClass::Commodity => 33,
            RiskClass::FX => 9,
        },
        RiskClass::CreditQ => match rc2 {
            RiskClass::Rates => 15,
            RiskClass::CreditQ => 100,
            RiskClass::CreditNonQ => 52,
            RiskClass::Equity => 67,
            RiskClass::Commodity => 23,
            RiskClass::FX => 20,
        },
        RiskClass::CreditNonQ => match rc2 {
            RiskClass::Rates => 9,
            RiskClass::CreditQ => 52,
            RiskClass::CreditNonQ => 100,
            RiskClass::Equity => 36,
            RiskClass::Commodity => 16,
            RiskClass::FX => 12,
        },
        RiskClass::Equity => match rc2 {
            RiskClass::Rates => 8,
            RiskClass::CreditQ => 67,
            RiskClass::CreditNonQ => 36,
            RiskClass::Equity => 100,
            RiskClass::Commodity => 34,
            RiskClass::FX => 24,
        },
        RiskClass::Commodity => match rc2 {
            RiskClass::Rates => 33,
            RiskClass::CreditQ => 23,
            RiskClass::CreditNonQ => 16,
            RiskClass::Equity => 34,
            RiskClass::Commodity => 100,
            RiskClass::FX => 28,
        },
        RiskClass::FX => match rc2 {
            RiskClass::Rates => 9,
            RiskClass::CreditQ => 20,
            RiskClass::CreditNonQ => 12,
            RiskClass::Equity => 24,
            RiskClass::Commodity => 28,
            RiskClass::FX => 100,
        },
    }
}

impl V2_7 {
    /// Correlation between two risk classes, in hundredths.
    pub fn psi_hundredths(&self, rc1: RiskClass, rc2: RiskClass) -> (r: i64)
        ensures
            r == spec_psi(rc1, rc2),
    {
        match rc1 {
            RiskClass::Rates => match rc2 {
                RiskClass::Rates => 100,
                RiskClass::CreditQ => 15,
                RiskClass::CreditNonQ => 9,
                RiskClass::Equity => 8,
                RiskClass::Commodity => 33,
                RiskClass::FX => 9,
            },
            RiskClass::CreditQ => match rc2 {
                RiskClass::Rates => 15,
                RiskClass::CreditQ => 100,
                RiskClass::CreditNonQ => 52,
                RiskClass::Equity => 67,
                RiskClass::Commodity => 23,
                RiskClass::FX => 20,
            },
            RiskClass::CreditNonQ => match rc2 {
                RiskClass::Rates => 9,
                RiskClass::CreditQ => 52,
                RiskClass::CreditNonQ => 100,
                RiskClass::Equity => 36,
                RiskClass::Commodity => 16,
                RiskClass::FX => 12,
            },
            RiskClass::Equity => match rc2 {
                RiskClass::Rates => 8,
                RiskClass::CreditQ => 67,
                RiskClass::CreditNonQ => 36,
                RiskClass::Equity => 100,
                RiskClass::Commodity => 34,
                RiskClass::FX => 24,
            },
            RiskClass::Commodity => match rc2 {
                RiskClass::Rates => 33,
                RiskClass::CreditQ => 23,
                RiskClass::CreditNonQ => 16,
                RiskClass::Equity => 34,
                RiskClass::Commodity => 100,
                RiskClass::FX => 28,
            },
            RiskClass::FX => match rc2 {
                RiskClass::Rates => 9,
                RiskClass::CreditQ => 20,
                RiskClass::CreditNonQ => 12,
                RiskClass::Equity => 24,
                RiskClass::Commodity => 28,
                RiskClass::FX => 100,
            },
        }
    }
}

} // verus!

verus! {

/// Bucket labels of the cross-bucket correlation tables.
pub open spec fn spec_bucket_labels(n: int) -> Seq<Seq<char>> {
    seq![
        "1"@, "2"@, "3"@, "4"@, "5"@, "6"@, "7"@, "8"@, "9"@, "10"@, "11"@, "12"@, "13"@, "14"@,
        "15"@, "16"@, "17"@,
    ].subrange(0, n)
}

/// Bucket labels of the cross-bucket correlation tables.
fn bucket_labels(n: usize) -> (r: Vec<&'static str>)
    requires
        n <= 17,
    ensures
        views(r@) == spec_bucket_labels(n as int),
{
    let mut all = vec![
        "1", "2", "3", "4", "5", "6", "7", "8", "9", "10", "11", "12", "13", "14", "15", "16", "17",
    ];
    all.truncate(n);
    assert(views(all@) =~= spec_bucket_labels(n as int));
    all
}

/// Correlations between interest-rate tenors, in hundredths.
pub open spec fn spec_ir_corr() -> Seq<Seq<i64>> {
    seq![
        seq![100i64, 75i64, 67i64, 57i64, 43i64, 33i64, 28i64, 24i64, 19i64, 17i64, 16i64, 15i64],
        seq![75i64, 100i64, 85i64, 72i64, 52i64, 38i64, 30i64, 24i64, 19i64, 14i64, 16i64, 15i64],
        seq![67i64, 85i64, 100i64, 88i64, 67i64, 52i64, 44i64, 37i64, 30i64, 23i64, 21i64, 21i64],
        seq![57i64, 72i64, 88i64, 100i64, 86i64, 73i64, 64i64, 56i64, 47i64, 41i64, 38i64, 37i64],
        seq![43i64, 52i64, 67i64, 86i64, 100i64, 94i64, 86i64, 78i64, 67i64, 61i64, 57i64, 56i64],
        seq![33i64, 38i64, 52i64, 73i64, 94i64, 100i64, 96i64, 91i64, 80i64, 74i64, 70i64, 69i64],
        seq![28i64, 30i64, 44i64, 64i64, 86i64, 96i64, 100i64, 97i64, 87i64, 81i64, 77i64, 76i64],
        seq![24i64, 24i64, 37i64, 56i64, 78i64, 91i64, 97i64, 100i64, 94i64, 90i64, 86i64, 85i64],
        seq![19i64, 19i64, 30i64, 47i64, 67i64, 80i64, 87i64, 94i64, 100i64, 97i64, 94i64, 94i64],
        seq![17i64, 14i64, 23i64, 41i64, 61i64, 74i64, 81i64, 90i64, 97i64, 100i64, 97i64, 97i64],
        seq![16i64, 12i64, 21i64, 38i64, 57i64, 70i64, 77i64, 86i64, 94i64, 97i64, 100i64, 99i64],
        seq![15i64, 12i64, 21i64, 37i64, 56i64, 69i64, 76i64, 85i64, 94i64, 97i64, 99i64, 100i64],
    ]
}

/// One row of the table of spec_ir_corr.
fn ir_corr_row(i: usize) -> (r: [i64; 12])
    requires
        i < 12,
    ensures
        r@ == spec_ir_corr()[i as int],
{
    let r = if i == 0 {
        [100, 75, 67, 57, 43, 33, 28, 24, 19, 17, 16, 15]
    } else if i == 1 {
        [75, 100, 85, 72, 52, 38, 30, 24, 19, 14, 16, 15]
    } else if i == 2 {
        [67, 85, 100, 88, 67, 52, 44, 37, 30, 23, 21, 21]
    } else if i == 3 {
        [57, 72, 88, 100, 86, 73, 64, 56, 47, 41, 38, 37]
    } else if i == 4 {
        [43, 52, 67, 86, 100, 94, 86, 78, 67, 61, 57, 56]
    } else if i == 5 {
        [33, 38, 52, 73, 94, 100, 96, 91, 80, 74, 70, 69]
    } else if i == 6 {
        [28, 30, 44, 64, 86, 96, 100, 97, 87, 81, 77, 76]
    } else if i == 7 {
        [24, 24, 37, 56, 78, 91, 97, 100, 94, 90, 86, 85]
    } else if i == 8 {
        [19, 19, 30, 47, 67, 80, 87, 94, 100, 97, 94, 94]
    } else if i == 9 {
        [17, 14, 23, 41, 61, 74, 81, 90, 97, 100, 97, 97]
    } else if i == 10 {
        [16, 12, 21, 38, 57, 70, 77, 86, 94, 97, 100, 99]
    } else {
        [15, 12, 21, 37, 56, 69, 76, 85, 94, 97, 99, 100]
    };
    assert(r@ =~= spec_ir_corr()[i as int]);
    r
}

/// Correlations between qualifying-credit buckets, in hundredths.
pub open spec fn spec_credit_q_gamma() -> Seq<Seq<i64>> {
    seq![
        seq![100i64, 41i64, 39i64, 35i64, 38i64, 36i64, 43i64, 29i64, 36i64, 36i64, 36i64, 37i64],
        seq![41i64, 100i64, 48i64, 45i64, 48i64, 45i64, 40i64, 35i64, 43i64, 43i64, 42i64, 44i64],
        seq![39i64, 48i64, 100i64, 49i64, 50i64, 50i64, 41i64, 32i64, 46i64, 45i64, 43i64, 48i64],
        seq![35i64, 45i64, 49i64, 100i64, 50i64, 49i64, 38i64, 30i64, 42i64, 44i64, 41i64, 47i64],
        seq![38i64, 48i64, 50i64, 50i64, 100i64, 51i64, 40i64, 31i64, 44i64, 45i64, 43i64, 49i64],
        seq![36i64, 45i64, 50i64, 49i64, 51i64, 100i64, 39i64, 29i64, 42i64, 43i64, 41i64, 49i64],
        seq![43i64, 40i64, 41i64, 38i64, 40i64, 39i64, 100i64, 28i64, 37i64, 38i64, 37i64, 39i64],
        seq![29i64, 35i64, 32i64, 30i64, 31i64, 29i64, 28i64, 100i64, 30i64, 30i64, 29i64, 31i64],
        seq![36i64, 43i64, 46i64, 42i64, 44i64, 42i64, 37i64, 30i64, 100i64, 42i64, 40i64, 44i64],
        seq![36i64, 43i64, 45i64, 44i64, 45i64, 43i64, 38i64, 30i64, 42i64, 100i64, 40i64, 45i64],
        seq![36i64, 42i64, 43i64, 41i64, 43i64, 41i64, 37i64, 29i64, 40i64, 40i64, 100i64, 42i64],
        seq![37i64, 44i64, 48i64, 47i64, 49i64, 49i64, 39i64, 31i64, 44i64, 45i64, 42i64, 100i64],
    ]
}

/// One row of the table of spec_credit_q_gamma.
fn credit_q_gamma_row(i: usize) -> (r: [i64; 12])
    requires
        i < 12,
    ensures
        r@ == spec_credit_q_gamma()[i as int],
{
    let r = if i == 0 {
        [100, 41, 39, 35, 38, 36, 43, 29, 36, 36, 36, 37]
    } else if i == 1 {
        [41, 100, 48, 45, 48, 45, 40, 35, 43, 43, 42, 44]
    } else if i == 2 {
        [39, 48, 100, 49, 50, 50, 41, 32, 46, 45, 43, 48]
    } else if i == 3 {
        [35, 45, 49, 100, 50, 49, 38, 30, 42, 44, 41, 47]
    } else if i == 4 {
        [38, 48, 50, 50, 100, 51, 40, 31, 44, 45, 43, 49]
    } else if i == 5 {
        [36, 45, 50, 49, 51, 100, 39, 29, 42, 43, 41, 49]
    } else if i == 6 {
        [43, 40, 41, 38, 40, 39, 100, 28, 37, 38, 37, 39]
    } else if i == 7 {
        [29, 35, 32, 30, 31, 29, 28, 100, 30, 30, 29, 31]
    } else if i == 8 {
        [36, 43, 46, 42, 44, 42, 37, 30, 100, 42, 40, 44]
    } else if i == 9 {
        [36, 43, 45, 44, 45, 43, 38, 30, 42, 100, 40, 45]
    } else if i == 10 {
        [36, 42, 43, 41, 43, 41, 37, 29, 40, 40, 100, 42]
    } else {
        [37, 44, 48, 47, 49, 49, 39, 31, 44, 45, 42, 100]
    };
    assert(r@ =~= spec_credit_q_gamma()[i as int]);
    r
}

/// Correlations between equity buckets, in hundredths.
pub open spec fn spec_equity_gamma() -> Seq<Seq<i64>> {
    seq![
        seq![100i64, 14i64, 15i64, 16i64, 13i64, 15i64, 14i64, 15i64, 14i64, 12i64, 17i64, 17i64],
        seq![14i64, 100i64, 18i64, 18i64, 14i64, 17i64, 17i64, 18i64, 16i64, 14i64, 19i64, 19i64],
        seq![15i64, 18i64, 100i64, 19i64, 14i64, 18i64, 21i64, 19i64, 18i64, 14i64, 21i64, 21i64],
        seq![16i64, 18i64, 19i64, 100i64, 17i64, 22i64, 21i64, 23i64, 18i64, 17i64, 24i64, 24i64],
        seq![13i64, 14i64, 14i64, 17i64, 100i64, 25i64, 23i64, 26i64, 13i64, 20i64, 28i64, 28i64],
        seq![15i64, 17i64, 18i64, 22i64, 25i64, 100i64, 29i64, 33i64, 16i64, 26i64, 34i64, 34i64],
        seq![14i64, 17i64, 21i64, 21i64, 23i64, 29i64, 100i64, 30i64, 15i64, 24i64, 33i64, 33i64],
        seq![15i64, 18i64, 19i64, 23i64, 26i64, 33i64, 30i64, 100i64, 16i64, 26i64, 37i64, 37i64],
        seq![14i64, 16i64, 18i64, 18i64, 13i64, 16i64, 15i64, 16i64, 100i64, 12i64, 19i64, 19i64],
        seq![12i64, 14i64, 14i64, 17i64, 20i64, 26i64, 24i64, 26i64, 12i64, 100i64, 26i64, 26i64],
        seq![17i64, 19i64, 21i64, 24i64, 28i64, 34i64, 33i64, 37i64, 19i64, 26i64, 100i64, 40i64],
        seq![17i64, 19i64, 21i64, 24i64, 28i64, 34i64, 33i64, 37i64, 19i64, 26i64, 40i64, 100i64],
    ]
}

/// One row of the table of spec_equity_gamma.
fn equity_gamma_row(i: usize) -> (r: [i64; 12])
    requires
        i < 12,
    ensures
        r@ == spec_equity_gamma()[i as int],
{
    let r = if i == 0 {
        [100, 14, 15, 16, 13, 15, 14, 15, 14, 12, 17, 17]
    } else if i == 1 {
        [14, 100, 18, 18, 14, 17, 17, 18, 16, 14, 19, 19]
    } else if i == 2 {
        [15, 18, 100, 19, 14, 18, 21, 19, 18, 14, 21, 21]
    } else if i == 3 {
        [16, 18, 19, 100, 17, 22, 21, 23, 18, 17, 24, 24]
    } else if i == 4 {
        [13, 14, 14, 17, 100, 25, 23, 26, 13, 20, 28, 28]
    } else if i == 5 {
        [15, 17, 18, 22, 25, 100, 29, 33, 16, 26, 34, 34]
    } else if i == 6 {
        [14, 17, 21, 21, 23, 29, 100, 30, 15, 24, 33, 33]
    } else if i == 7 {
        [15, 18, 19, 23, 26, 33, 30, 100, 16, 26, 37, 37]
    } else if i == 8 {
        [14, 16, 18, 18, 13, 16, 15, 16, 100, 12, 19, 19]
    } else if i == 9 {
        [12, 14, 14, 17, 20, 26, 24, 26, 12, 100, 26, 26]
    } else if i == 10 {
        [17, 19, 21, 24, 28, 34, 33, 37, 19, 26, 100, 40]
    } else {
        [17, 19, 21, 24, 28, 34, 33, 37, 19, 26, 40, 100]
    };
    assert(r@ =~= spec_equity_gamma()[i as int]);
    r
}

/// Correlations between commodity buckets, in hundredths.
pub open spec fn spec_commodity_gamma() -> Seq<Seq<i64>> {
    seq![
        seq![100i64, 23i64, 19i64, 28i64, 24i64, 32i64, 62i64, 29i64, 50i64, 15i64, 13i64, 8i64, 19i64, 12i64, 4i64, 0i64, 22i64],
        seq![23i64, 100i64, 94i64, 92i64, 89i64, 36i64, 15i64, 23i64, 15i64, 20i64, 42i64, 31i64, 38i64, 28i64, 16i64, 0i64, 67i64],
        seq![19i64, 94i64, 100i64, 91i64, 86i64, 32i64, 11i64, 19i64, 12i64, 22i64, 41i64, 31i64, 37i64, 25i64, 15i64, 0i64, 64i64],
        seq![28i64, 92i64, 91i64, 100i64, 81i64, 40i64, 17i64, 26i64, 18i64, 20i64, 41i64, 26i64, 34i64, 25i64, 14i64, 0i64, 64i64],
        seq![24i64, 89i64, 86i64, 81i64, 100i64, 29i64, 17i64, 26i64, 23i64, 26i64, 42i64, 34i64, 23i64, 32i64, 14i64, 0i64, 62i64],
        seq![32i64, 36i64, 32i64, 40i64, 29i64, 100i64, 30i64, 66i64, 23i64, 7i64, 12i64, 7i64, 23i64, 9i64, 11i64, 0i64, 39i64],
        seq![62i64, 15i64, 11i64, 17i64, 17i64, 30i64, 100i64, 19i64, 78i64, 12i64, 12i64, 2i64, 11i64, 7i64, 0i64, 0i64, 21i64],
        seq![29i64, 23i64, 19i64, 26i64, 21i64, 66i64, 19i64, 100i64, 19i64, 4i64, 10i64, -1i64, 11i64, 4i64, 3i64, 0i64, 21i64],
        seq![50i64, 15i64, 12i64, 18i64, 23i64, 23i64, 78i64, 19i64, 100i64, 7i64, 6i64, -8i64, 13i64, 12i64, 10i64, 0i64, 18i64],
        seq![15i64, 20i64, 22i64, 20i64, 26i64, 7i64, 12i64, 4i64, 7i64, 100i64, 19i64, 10i64, 13i64, 10i64, 10i64, 0i64, 12i64],
        seq![13i64, 42i64, 41i64, 41i64, 42i64, 21i64, 12i64, 10i64, 6i64, 19i64, 100i64, 39i64, 31i64, 24i64, 14i64, 0i64, 39i64],
        seq![8i64, 31i64, 31i64, 26i64, 34i64, 7i64, 2i64, -1i64, -8i64, 10i64, 39i64, 100i64, 22i64, 20i64, 12i64, 0i64, 28i64],
        seq![19i64, 38i64, 37i64, 34i64, 23i64, 19i64, 11i64, 11i64, 13i64, 13i64, 31i64, 22i64, 100i64, 28i64, 19i64, 0i64, 41i64],
        seq![12i64, 28i64, 25i64, 27i64, 32i64, 9i64, 7i64, 4i64, 12i64, 10i64, 24i64, 20i64, 28i64, 100i64, 9i64, 0i64, 22i64],
        seq![4i64, 16i64, 15i64, 14i64, 14i64, 11i64, 0i64, 3i64, 10i64, 10i64, 14i64, 12i64, 19i64, 9i64, 100i64, 0i64, 21i64],
        seq![0i64, 0i64, 0i64, 0i64, 0i64, 0i64, 0i64, 0i64, 0i64, 0i64, 0i64, 0i64, 0i64, 0i64, 0i64, 100i64, 0i64],
        seq![22i64, 67i64, 64i64, 64i64, 62i64, 39i64, 21i64, 21i64, 18i64, 12i64, 39i64, 28i64, 41i64, 22i64, 21i64, 0i64, 100i64],
    ]
}

/// One row of the table of spec_commodity_gamma.
fn commodity_gamma_row(i: usize) -> (r: [i64; 17])
    requires
        i < 17,
    ensures
        r@ == spec_commodity_gamma()[i as int],
{
    let r = if i == 0 {
        [100, 23, 19, 28, 24, 32, 62, 29, 50, 15, 13, 8, 19, 12, 4, 0, 22]
    } else if i == 1 {
        [23, 100, 94, 92, 89, 36, 15, 23, 15, 20, 42, 31, 38, 28, 16, 0, 67]
    } else if i == 2 {
        [19, 94, 100, 91, 86, 32, 11, 19, 12, 22, 41, 31, 37, 25, 15, 0, 64]
    } else if i == 3 {
        [28, 92, 91, 100, 81, 40, 17, 26, 18, 20, 41, 26, 34, 25, 14, 0, 64]
    } else if i == 4 {
        [24, 89, 86, 81, 100, 29, 17, 26, 23, 26, 42, 34, 23, 32, 14, 0, 62]
    } else if i == 5 {
        [32, 36, 32, 40, 29, 100, 30, 66, 23, 7, 12, 7, 23, 9, 11, 0, 39]
    } else if i == 6 {
        [62, 15, 11, 17, 17, 30, 100, 19, 78, 12, 12, 2, 11, 7, 0, 0, 21]
    } else if i == 7 {
        [29, 23, 19, 26, 21, 66, 19, 100, 19, 4, 10, -1, 11, 4, 3, 0, 21]
    } else if i == 8 {
        [50, 15, 12, 18, 23, 23, 78, 19, 100, 7, 6, -8, 13, 12, 10, 0, 18]
    } else if i == 9 {
        [15, 20, 22, 20, 26, 7, 12, 4, 7, 100, 19, 10, 13, 10, 10, 0, 12]
    } else if i == 10 {
        [13, 42, 41, 41, 42, 21, 12, 10, 6, 19, 100, 39, 31, 24, 14, 0, 39]
    } else if i == 11 {
        [8, 31, 31, 26, 34, 7, 2, -1, -8, 10, 39, 100, 22, 20, 12, 0, 28]
    } else if i == 12 {
        [19, 38, 37, 34, 23, 19, 11, 11, 13, 13, 31, 22, 100, 28, 19, 0, 41]
    } else if i == 13 {
        [12, 28, 25, 27, 32, 9, 7, 4, 12, 10, 24, 20, 28, 100, 9, 0, 22]
    } else if i == 14 {
        [4, 16, 15, 14, 14, 11, 0, 3, 10, 10, 14, 12, 19, 9, 100, 0, 21]
    } else if i == 15 {
        [0, 0, 0, 0, 0, 0, 0, 0, 0, 0, 0, 0, 0, 0, 0, 100, 0]
    } else {
        [22, 67, 64, 64, 62, 39, 21, 21, 18, 12, 39, 28, 41, 22, 21, 0, 100]
    };
    assert(r@ =~= spec_commodity_gamma()[i as int]);
    r
}

/// Same-bucket correlations of equity by bucket (0 is Residual), in hundredths.
pub open spec fn spec_equity_rho() -> Seq<i64> {
    seq![0i64, 14i64, 16i64, 23i64, 21i64, 23i64, 32i64, 32i64, 35i64, 21i64, 22i64, 40i64, 40i64]
}

/// Same-bucket correlations of commodity by bucket, in hundredths.
pub open spec fn spec_commodity_rho() -> Seq<i64> {
    seq![0i64, 84i64, 98i64, 98i64, 98i64, 98i64, 93i64, 93i64, 51i64, 59i64, 44i64, 58i64, 60i64, 60i64, 21i64, 17i64, 0i64, 43i64]
}

/// Qualifying-credit correlations, in hundredths: same issuer, different
/// issuers, a residual side, and base correlation.
pub open spec fn spec_credit_q_rho() -> Seq<i64> {
    seq![94i64, 47i64, 50i64, 31i64]
}

/// Non-qualifying-credit correlations, in hundredths: same issuer, different
/// issuers, a residual side.
pub open spec fn spec_credit_non_q_rho() -> Seq<i64> {
    seq![85i64, 29i64, 50i64]
}

/// Correlation between non-qualifying-credit buckets, in hundredths.
pub open spec fn spec_credit_non_q_gamma() -> i64 {
    51
}

/// The entry of a bucket-indexed correlation list for an optional bucket label.
pub open spec fn spec_rho_at(tbl: Seq<i64>, bucket: Option<Seq<char>>) -> Option<i64> {
    match bucket {
        Some(b) => match spec_bucket_index(b) {
            Some(i) => if i < tbl.len() {
                Some(tbl[i as int])
            } else {
                None
            },
            None => None,
        },
        None => None,
    }
}

/// The credit correlation of two labels: base correlation, then a residual
/// side, then same or different issuer.
pub open spec fn spec_credit_rho(tbl: Seq<i64>, base: bool, i1: Seq<char>, i2: Seq<char>) -> i64 {
    if base {
        tbl[3]
    } else if i1 == "Res"@ || i2 == "Res"@ {
        tbl[2]
    } else if i1 == i2 {
        tbl[0]
    } else {
        tbl[1]
    }
}

/// The entry of a square table at two labels' positions in a label list.
pub open spec fn spec_matrix_at(
    m: Seq<Seq<i64>>,
    labels: Seq<Seq<char>>,
    a: Seq<char>,
    b: Seq<char>,
) -> Option<i64> {
    match (position_in(labels, a, 0), position_in(labels, b, 0)) {
        (Some(i), Some(j)) => Some(m[i][j]),
        _ => None,
    }
}

/// Intra-bucket correlation, in hundredths, for a risk-type tag and two
/// labels (tenors for rates, issuers for credit) or, for equity and
/// commodity, the bucket; `None` for unknown labels and other tags.
pub open spec fn spec_rho(
    rc: Seq<char>,
    index1: Seq<char>,
    index2: Seq<char>,
    bucket: Option<Seq<char>>,
) -> Option<i64> {
    if spec_class_tags(RiskClass::Rates).contains(rc) {
        spec_matrix_at(spec_ir_corr(), spec_tenors(), index1, index2)
    } else if spec_class_tags(RiskClass::CreditQ).contains(rc) {
        Some(spec_credit_rho(spec_credit_q_rho(), rc == "Risk_BaseCorr"@, index1, index2))
    } else if spec_class_tags(RiskClass::CreditNonQ).contains(rc) {
        Some(spec_credit_rho(spec_credit_non_q_rho(), false, index1, index2))
    } else if spec_class_tags(RiskClass::Equity).contains(rc) {
        spec_rho_at(spec_equity_rho(), bucket)
    } else if spec_class_tags(RiskClass::Commodity).contains(rc) {
        spec_rho_at(spec_commodity_rho(), bucket)
    } else {
        None
    }
}

/// Cross-bucket correlation, in hundredths, for a risk-type tag and two
/// bucket labels; `None` for unknown labels and other tags.
pub open spec fn spec_gamma(rc: Seq<char>, bucket1: Seq<char>, bucket2: Seq<char>) -> Option<i64> {
    if spec_class_tags(RiskClass::CreditQ).contains(rc) {
        spec_matrix_at(spec_credit_q_gamma(), spec_bucket_labels(12), bucket1, bucket2)
    } else if spec_class_tags(RiskClass::CreditNonQ).contains(rc) {
        Some(spec_credit_non_q_gamma())
    } else if spec_class_tags(RiskClass::Equity).contains(rc) {
        spec_matrix_at(spec_equity_gamma(), spec_bucket_labels(12), bucket1, bucket2)
    } else if spec_class_tags(RiskClass::Commodity).contains(rc) {
        spec_matrix_at(spec_commodity_gamma(), spec_bucket_labels(17), bucket1, bucket2)
    } else {
        None
    }
}

/// The credit correlation of two labels.
fn credit_rho(tbl: [i64; 4], base: bool, i1: &str, i2: &str) -> (r: i64)
    ensures
        r == spec_credit_rho(tbl@, base, i1@, i2@),
{
    if base {
        tbl[3]
    } else if str_eq(i1, "Res") || str_eq(i2, "Res") {
        tbl[2]
    } else if str_eq(i1, i2) {
        tbl[0]
    } else {
        tbl[1]
    }
}

impl V2_7 {
    /// Intra-bucket correlation, in hundredths, for a risk-type tag and two
    /// labels (tenors for rates, issuers for credit) or, for equity and
    /// commodity, the bucket; `None` for unknown labels and other tags.
    pub fn rho_hundredths(
        &self,
        risk_class: &str,
        index1: &str,
        index2: &str,
        bucket: Option<&str>,
    ) -> (r: Option<i64>)
        ensures
            r == spec_rho(risk_class@, index1@, index2@, opt_view(bucket)),
    {
        if contains_str(class_tags(RiskClass::Rates).as_slice(), risk_class) {
            let tenors = simm_tenor_list();
            return match (position_of(tenors.as_slice(), index1), position_of(tenors.as_slice(), index2)) {
                (Some(i), Some(j)) => {
                    proof {
                        crate::text::lemma_position_in_bounds(views(tenors@), index1@, 0);
                        crate::text::lemma_position_in_bounds(views(tenors@), index2@, 0);
                    }
                    let row = ir_corr_row(i);
                    Some(row[j])
                },
                _ => None,
            };
        }
        if contains_str(class_tags(RiskClass::CreditQ).as_slice(), risk_class) {
            let tbl: [i64; 4] = [94, 47, 50, 31];
            assert(tbl@ =~= spec_credit_q_rho());
            return Some(credit_rho(tbl, str_eq(risk_class, "Risk_BaseCorr"), index1, index2));
        }
        if contains_str(class_tags(RiskClass::CreditNonQ).as_slice(), risk_class) {
            let tbl: [i64; 4] = [85, 29, 50, 0];
            assert(tbl@.subrange(0, 3) =~= spec_credit_non_q_rho());
            return Some(credit_rho(tbl, false, index1, index2));
        }
        let equity = contains_str(class_tags(RiskClass::Equity).as_slice(), risk_class);
        let commodity = contains_str(class_tags(RiskClass::Commodity).as_slice(), risk_class);
        if !equity && !commodity {
            return None;
        }
        let idx = match bucket {
            Some(b) => match bucket_index(b) {
                Some(i) => i,
                None => {
                    return None;
                },
            },
            None => {
                return None;
            },
        };
        if equity {
            let tbl: [i64; 13] = [0, 14, 16, 23, 21, 23, 32, 32, 35, 21, 22, 40, 40];
            assert(tbl@ =~= spec_equity_rho());
            if idx < 13 {
                Some(tbl[idx])
            } else {
                None
            }
        } else {
            let tbl: [i64; 18] = [0, 84, 98, 98, 98, 98, 93, 93, 51, 59, 44, 58, 60, 60, 21, 17, 0, 43];
            assert(tbl@ =~= spec_commodity_rho());
            if idx < 18 {
                Some(tbl[idx])
            } else {
                None
            }
        }
    }

    /// Cross-bucket correlation, in hundredths, for a risk-type tag and two
    /// bucket labels; `None` for unknown labels and other tags.
    pub fn gamma_hundredths(&self, risk_class: &str, bucket1: &str, bucket2: &str) -> (r: Option<i64>)
        ensures
            r == spec_gamma(risk_class@, bucket1@, bucket2@),
    {
        let credit_q = contains_str(class_tags(RiskClass::CreditQ).as_slice(), risk_class);
        if !credit_q && contains_str(class_tags(RiskClass::CreditNonQ).as_slice(), risk_class) {
            return Some(51);
        }
        let equity = contains_str(class_tags(RiskClass::Equity).as_slice(), risk_class);
        let commodity = contains_str(class_tags(RiskClass::Commodity).as_slice(), risk_class);
        if !credit_q && !equity && !commodity {
            return None;
        }
        proof {
            lemma_class_tags_disjoint(risk_class@);
        }
        let n: usize = if commodity && !credit_q && !equity {
            17
        } else {
            12
        };
        let labels = bucket_labels(n);
        let (i, j) = match (position_of(labels.as_slice(), bucket1), position_of(labels.as_slice(), bucket2)) {
            (Some(i), Some(j)) => (i, j),
            _ => {
                return None;
            },
        };
        proof {
            crate::text::lemma_position_in_bounds(views(labels@), bucket1@, 0);
            crate::text::lemma_position_in_bounds(views(labels@), bucket2@, 0);
        }
        if credit_q {
            let row = credit_q_gamma_row(i);
            Some(row[j])
        } else if equity {
            let row = equity_gamma_row(i);
            Some(row[j])
        } else {
            let row = commodity_gamma_row(i);
            Some(row[j])
        }
    }
}

/// Every correlation table of this version has a unit diagonal.
pub proof fn lemma_correlation_unit_diagonal(i: int)
    requires
        0 <= i < 17,
    ensures
        i < 12 ==> spec_ir_corr()[i][i] == 100,
        i < 12 ==> spec_credit_q_gamma()[i][i] == 100,
        i < 12 ==> spec_equity_gamma()[i][i] == 100,
        spec_commodity_gamma()[i][i] == 100,
{
}

/// The correlation tables of this version that do not depend on the order
/// of their two labels.
pub proof fn lemma_correlation_symmetric(i: int, j: int)
    requires
        0 <= i < 17,
        0 <= j < 17,
    ensures
        i < 12 && j < 12 ==> spec_credit_q_gamma()[i][j] == spec_credit_q_gamma()[j][i],
        i < 12 && j < 12 ==> spec_equity_gamma()[i][j] == spec_equity_gamma()[j][i],
{
}

} // verus!
