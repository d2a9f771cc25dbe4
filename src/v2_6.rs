//! Parameter set of SIMM version 2.6: currency and FX classifications,
//! risk weights, concentration thresholds (in USD) and correlations (in
//! hundredths).
use vstd::prelude::*;

use crate::constants::{class_tags, lemma_class_tags_disjoint, spec_class_tags, RiskClass};
use crate::simm_utils::{
    bucket_index, simm_tenor_list, spec_bucket_index, spec_table_at, spec_tenors, table_at,
    tenor_index,
};
use crate::text::{contains_str, opt_view, position_in, position_of, str_eq, views};

verus! {

/// The SIMM version 2.6 parameter set.
pub struct V2_6;

/// Volatility class of a currency for FX risk weights.
#[derive(Debug, Clone, Copy, PartialEq, Eq, Structural)]
pub enum RiskLevel {
    Regular,
    High,
}

/// Volatility class of a currency for FX correlations.
#[derive(Debug, Clone, Copy, PartialEq, Eq, Structural)]
pub enum VolatilityLevel {
    Regular,
    High,
}

impl VolatilityLevel {
    /// Row or column of the class in a 2x2 FX correlation table.
    pub fn as_index(self) -> (r: usize)
        ensures
            r == (if self == VolatilityLevel::Regular {
                0usize
            } else {
                1usize
            }),
    {
        match self {
            VolatilityLevel::Regular => 0,
            VolatilityLevel::High => 1,
        }
    }
}

/// Currencies with their own interest-rate concentration thresholds.
#[derive(Debug, Clone, Copy, PartialEq, Eq, Hash, Structural)]
pub enum Currency {
    USD,
    EUR,
    GBP,
    AUD,
    CAD,
    CHF,
    DKK,
    HKD,
    KRW,
    NOK,
    NZD,
    SEK,
    SGD,
    TWD,
    JPY,
    Others,
}

/// The currency that a code names; any other code is `Others`.
pub open spec fn spec_currency_from(s: Seq<char>) -> Currency {
    if s == "USD"@ {
        Currency::USD
    } else if s == "EUR"@ {
        Currency::EUR
    } else if s == "GBP"@ {
        Currency::GBP
    } else if s == "AUD"@ {
        Currency::AUD
    } else if s == "CAD"@ {
        Currency::CAD
    } else if s == "CHF"@ {
        Currency::CHF
    } else if s == "DKK"@ {
        Currency::DKK
    } else if s == "HKD"@ {
        Currency::HKD
    } else if s == "KRW"@ {
        Currency::KRW
    } else if s == "NOK"@ {
        Currency::NOK
    } else if s == "NZD"@ {
        Currency::NZD
    } else if s == "SEK"@ {
        Currency::SEK
    } else if s == "SGD"@ {
        Currency::SGD
    } else if s == "TWD"@ {
        Currency::TWD
    } else if s == "JPY"@ {
        Currency::JPY
    } else {
        Currency::Others
    }
}

impl Currency {
    /// Interest-rate delta concentration threshold, in USD millions.
    pub open spec fn spec_ir_delta_ct(self) -> u32 {
        match self {
            Currency::USD | Currency::EUR | Currency::GBP => 330,
            Currency::Others => 30,
            Currency::JPY => 61,
            _ => 130,
        }
    }

    /// Interest-rate vega concentration threshold, in USD millions.
    pub open spec fn spec_ir_vega_ct(self) -> u32 {
        match self {
            Currency::USD | Currency::EUR | Currency::GBP => 4900,
            Currency::Others => 74,
            Currency::JPY => 970,
            _ => 520,
        }
    }

    /// Interest-rate delta concentration threshold, in USD millions.
    pub fn ir_delta_ct(self) -> (r: u32)
        ensures
            r == self.spec_ir_delta_ct(),
    {
        match self {
            Currency::USD | Currency::EUR | Currency::GBP => 330,
            Currency::Others => 30,
            Currency::JPY => 61,
            _ => 130,
        }
    }

    /// Interest-rate vega concentration threshold, in USD millions.
    pub fn ir_vega_ct(self) -> (r: u32)
        ensures
            r == self.spec_ir_vega_ct(),
    {
        match self {
            Currency::USD | Currency::EUR | Currency::GBP => 4900,
            Currency::Others => 74,
            Currency::JPY => 970,
            _ => 520,
        }
    }

    /// The currency that a code names; any other code is `Others`.
    pub fn from_str(s: &str) -> (r: Currency)
        ensures
            r == spec_currency_from(s@),
    {
        if str_eq(s, "USD") {
            Currency::USD
        } else if str_eq(s, "EUR") {
            Currency::EUR
        } else if str_eq(s, "GBP") {
            Currency::GBP
        } else if str_eq(s, "AUD") {
            Currency::AUD
        } else if str_eq(s, "CAD") {
            Currency::CAD
        } else if str_eq(s, "CHF") {
            Currency::CHF
        } else if str_eq(s, "DKK") {
            Currency::DKK
        } else if str_eq(s, "HKD") {
            Currency::HKD
        } else if str_eq(s, "KRW") {
            Currency::KRW
        } else if str_eq(s, "NOK") {
            Currency::NOK
        } else if str_eq(s, "NZD") {
            Currency::NZD
        } else if str_eq(s, "SEK") {
            Currency::SEK
        } else if str_eq(s, "SGD") {
            Currency::SGD
        } else if str_eq(s, "TWD") {
            Currency::TWD
        } else if str_eq(s, "JPY") {
            Currency::JPY
        } else {
            Currency::Others
        }
    }
}

/// Whether a credit risk is qualifying.
#[derive(Debug, Clone, Copy, PartialEq, Eq, Structural)]
pub enum CreditQuality {
    Qualifying,
    NonQualifying,
}

impl CreditQuality {
    /// Credit delta concentration threshold of a bucket, in USD; buckets
    /// without a threshold of their own take the corporate one.
    pub open spec fn spec_delta_ct(self, bucket: u8) -> u64 {
        match self {
            CreditQuality::Qualifying => if bucket == 1 || bucket == 7 {
                1000000
            } else {
                170000
            },
            CreditQuality::NonQualifying => if bucket == 1 {
                9500000
            } else if bucket == 2 {
                500000
            } else if bucket == 0 {
                500000
            } else {
                170000
            },
        }
    }

    /// Credit delta concentration threshold of a bucket, in USD; buckets
    /// without a threshold of their own take the corporate one.
    pub fn delta_ct(self, bucket: u8) -> (r: u64)
        ensures
            r == self.spec_delta_ct(bucket),
    {
        match (self, bucket) {
            (CreditQuality::Qualifying, 1) => 1000000,
            (CreditQuality::Qualifying, 7) => 1000000,
            (CreditQuality::Qualifying, 2..=6) => 170000,
            (CreditQuality::Qualifying, 8..=12) => 170000,
            (CreditQuality::Qualifying, 0) => 170000,
            (CreditQuality::NonQualifying, 1) => 9500000,
            (CreditQuality::NonQualifying, 2) => 500000,
            (CreditQuality::NonQualifying, 0) => 500000,
            _ => 170000,
        }
    }

    /// Credit vega concentration threshold, in USD millions.
    pub fn vega_ct(self) -> (r: u32)
        ensures
            r == (if self == CreditQuality::Qualifying {
                360u32
            } else {
                70u32
            }),
    {
        match self {
            CreditQuality::Qualifying => 360,
            CreditQuality::NonQualifying => 70,
        }
    }
}

/// FX liquidity category of a currency.
#[derive(Debug, Clone, Copy, PartialEq, Eq, Structural)]
pub enum FxCategory {
    Category1,
    Category2,
    Others,
}

/// The significantly material currencies.
pub open spec fn spec_fx_category1() -> Seq<Seq<char>> {
    seq!["USD"@, "EUR"@, "JPY"@, "GBP"@, "AUD"@, "CHF"@, "CAD"@]
}

/// The frequently traded currencies.
pub open spec fn spec_fx_category2() -> Seq<Seq<char>> {
    seq!["BRL"@, "CNY"@, "HKD"@, "INR"@, "KRW"@, "MXN"@, "NOK"@, "NZD"@, "RUB"@, "SEK"@, "SGD"@, "TRY"@, "ZAR"@]
}

/// The category of a currency code.
pub open spec fn spec_fx_category(c: Seq<char>) -> FxCategory {
    if spec_fx_category1().contains(c) {
        FxCategory::Category1
    } else if spec_fx_category2().contains(c) {
        FxCategory::Category2
    } else {
        FxCategory::Others
    }
}

impl FxCategory {
    /// FX delta concentration threshold, in USD millions.
    pub open spec fn spec_delta_ct(self) -> u32 {
        match self {
            FxCategory::Category1 => 3300,
            FxCategory::Category2 => 880,
            FxCategory::Others => 170,
        }
    }

    /// FX vega concentration threshold of a pair, in USD millions.
    pub open spec fn spec_vega_ct(self, other: FxCategory) -> u32 {
        match (self, other) {
            (FxCategory::Category1, FxCategory::Category1) => 2800,
            (FxCategory::Category1, FxCategory::Category2)
            | (FxCategory::Category2, FxCategory::Category1) => 1400,
            (FxCategory::Category1, FxCategory::Others)
            | (FxCategory::Others, FxCategory::Category1) => 590,
            (FxCategory::Category2, FxCategory::Category2) => 520,
            (FxCategory::Category2, FxCategory::Others)
            | (FxCategory::Others, FxCategory::Category2) => 340,
            (FxCategory::Others, FxCategory::Others) => 210,
        }
    }

    /// FX delta concentration threshold, in USD millions.
    pub fn delta_ct(self) -> (r: u32)
        ensures
            r == self.spec_delta_ct(),
    {
        match self {
            FxCategory::Category1 => 3300,
            FxCategory::Category2 => 880,
            FxCategory::Others => 170,
        }
    }

    /// FX vega concentration threshold of a pair, in USD millions.
    pub fn vega_ct(self, other: FxCategory) -> (r: u32)
        ensures
            r == self.spec_vega_ct(other),
    {
        match (self, other) {
            (FxCategory::Category1, FxCategory::Category1) => 2800,
            (FxCategory::Category1, FxCategory::Category2)
            | (FxCategory::Category2, FxCategory::Category1) => 1400,
            (FxCategory::Category1, FxCategory::Others)
            | (FxCategory::Others, FxCategory::Category1) => 590,
            (FxCategory::Category2, FxCategory::Category2) => 520,
            (FxCategory::Category2, FxCategory::Others)
            | (FxCategory::Others, FxCategory::Category2) => 340,
            (FxCategory::Others, FxCategory::Others) => 210,
        }
    }

    /// The category of a currency code.
    pub fn from_currency(currency: &str) -> (r: FxCategory)
        ensures
            r == spec_fx_category(currency@),
    {
        let cat1 = vec!["USD", "EUR", "JPY", "GBP", "AUD", "CHF", "CAD"];
        assert(views(cat1@) =~= spec_fx_category1());
        let cat2 = vec!["BRL", "CNY", "HKD", "INR", "KRW", "MXN", "NOK", "NZD", "RUB", "SEK", "SGD", "TRY", "ZAR"];
        assert(views(cat2@) =~= spec_fx_category2());
        if contains_str(cat1.as_slice(), currency) {
            FxCategory::Category1
        } else if contains_str(cat2.as_slice(), currency) {
            FxCategory::Category2
        } else {
            FxCategory::Others
        }
    }
}

/// Currencies of regular interest-rate volatility.
pub open spec fn spec_reg_vol_currencies() -> Seq<Seq<char>> {
    seq!["USD"@, "EUR"@, "GBP"@, "CHF"@, "AUD"@, "NZD"@, "CAD"@, "SEK"@, "NOK"@, "DKK"@, "HKD"@, "KRW"@, "SGD"@, "TWD"@]
}

/// Currencies of low interest-rate volatility.
pub open spec fn spec_low_vol_currencies() -> Seq<Seq<char>> {
    seq!["JPY"@]
}

/// Currencies of high FX volatility.
pub open spec fn spec_high_vol_currencies() -> Seq<Seq<char>> {
    seq!["BRL"@, "RUB"@, "TRY"@]
}

/// Whether a currency has regular interest-rate volatility.
pub fn is_reg_vol_currency(c: &str) -> (r: bool)
    ensures
        r == spec_reg_vol_currencies().contains(c@),
{
    let v = vec!["USD", "EUR", "GBP", "CHF", "AUD", "NZD", "CAD", "SEK", "NOK", "DKK", "HKD", "KRW", "SGD", "TWD"];
    assert(views(v@) =~= spec_reg_vol_currencies());
    contains_str(v.as_slice(), c)
}

/// Whether a currency has low interest-rate volatility.
pub fn is_low_vol_currency(c: &str) -> (r: bool)
    ensures
        r == spec_low_vol_currencies().contains(c@),
{
    let v = vec!["JPY"];
    assert(views(v@) =~= spec_low_vol_currencies());
    contains_str(v.as_slice(), c)
}

/// Whether a currency has high FX volatility.
pub fn is_high_vol_currency(c: &str) -> (r: bool)
    ensures
        r == spec_high_vol_currencies().contains(c@),
{
    let v = vec!["BRL", "RUB", "TRY"];
    assert(views(v@) =~= spec_high_vol_currencies());
    contains_str(v.as_slice(), c)
}

/// Interest-rate delta risk weights of regular-volatility currencies, by tenor.
pub open spec fn spec_reg_vol_rw() -> Seq<u32> {
    seq![109u32, 105u32, 90u32, 71u32, 66u32, 66u32, 64u32, 60u32, 60u32, 61u32, 61u32, 67u32]
}

/// Interest-rate delta risk weight of a regular-volatility currency at a
/// tenor; `None` for a label that is not a SIMM tenor.
pub fn reg_vol_rw_lookup(tenor: &str) -> (r: Option<u32>)
    ensures
        match r {
            Some(w) => exists|i: int|
                0 <= i < 12 && spec_tenors()[i] == tenor@ && w == spec_reg_vol_rw()[i],
            None => !spec_tenors().contains(tenor@),
        },
{
    let table = vec![109u32, 105u32, 90u32, 71u32, 66u32, 66u32, 64u32, 60u32, 60u32, 61u32, 61u32, 67u32];
    assert(table@ =~= spec_reg_vol_rw());
    match tenor_index(tenor) {
        Some(i) => Some(table[i]),
        None => None,
    }
}

/// Interest-rate delta risk weights of low-volatility currencies, by tenor.
pub open spec fn spec_low_vol_rw() -> Seq<u32> {
    seq![15u32, 18u32, 9u32, 11u32, 13u32, 15u32, 19u32, 23u32, 23u32, 22u32, 22u32, 23u32]
}

/// Interest-rate delta risk weight of a low-volatility currency at a
/// tenor; `None` for a label that is not a SIMM tenor.
pub fn low_vol_rw_lookup(tenor: &str) -> (r: Option<u32>)
    ensures
        match r {
            Some(w) => exists|i: int|
                0 <= i < 12 && spec_tenors()[i] == tenor@ && w == spec_low_vol_rw()[i],
            None => !spec_tenors().contains(tenor@),
        },
{
    let table = vec![15u32, 18u32, 9u32, 11u32, 13u32, 15u32, 19u32, 23u32, 23u32, 22u32, 22u32, 23u32];
    assert(table@ =~= spec_low_vol_rw());
    match tenor_index(tenor) {
        Some(i) => Some(table[i]),
        None => None,
    }
}

/// Interest-rate delta risk weights of high-volatility currencies, by tenor.
pub open spec fn spec_high_vol_rw() -> Seq<u32> {
    seq![163u32, 109u32, 87u32, 89u32, 102u32, 96u32, 101u32, 97u32, 97u32, 102u32, 106u32, 101u32]
}

/// Interest-rate delta risk weight of a high-volatility currency at a
/// tenor; `None` for a label that is not a SIMM tenor.
pub fn high_vol_rw_lookup(tenor: &str) -> (r: Option<u32>)
    ensures
        match r {
            Some(w) => exists|i: int|
                0 <= i < 12 && spec_tenors()[i] == tenor@ && w == spec_high_vol_rw()[i],
            None => !spec_tenors().contains(tenor@),
        },
{
    let table = vec![163u32, 109u32, 87u32, 89u32, 102u32, 96u32, 101u32, 97u32, 97u32, 102u32, 106u32, 101u32];
    assert(table@ =~= spec_high_vol_rw());
    match tenor_index(tenor) {
        Some(i) => Some(table[i]),
        None => None,
    }
}

/// Equity vega concentration thresholds by bucket (0 is Residual), in USD millions.
pub open spec fn spec_equity_vega_ct() -> Seq<u32> {
    seq![39u32, 210u32, 210u32, 210u32, 210u32, 1300u32, 1300u32, 1300u32, 1300u32, 39u32, 190u32, 6400u32, 6400u32]
}

/// Commodity vega concentration thresholds by bucket, in USD millions.
pub open spec fn spec_commodity_vega_ct() -> Seq<u32> {
    seq![69u32, 390u32, 2900u32, 310u32, 310u32, 310u32, 6300u32, 6300u32, 1200u32, 1200u32, 120u32, 390u32, 1300u32, 590u32, 590u32, 590u32, 69u32, 69u32]
}

/// A threshold in USD millions, in USD.
pub open spec fn million(x: u32) -> u64 {
    (x as u64 * 1_000_000) as u64
}

/// Delta concentration thresholds of qualifying credit by bucket, in USD.
pub open spec fn spec_credit_q_delta_ct() -> Seq<u64> {
    seq![170000u64, 1000000u64, 170000u64, 170000u64, 170000u64, 170000u64, 170000u64, 1000000u64, 170000u64, 170000u64, 170000u64, 170000u64, 170000u64]
}

/// Delta concentration thresholds of non-qualifying credit by bucket, in USD.
pub open spec fn spec_credit_non_q_delta_ct() -> Seq<u64> {
    seq![500000u64, 9500000u64, 500000u64]
}

/// Delta concentration thresholds of equity by bucket, in USD.
pub open spec fn spec_equity_delta_ct() -> Seq<u64> {
    seq![370000u64, 3000000u64, 3000000u64, 3000000u64, 3000000u64, 12000000u64, 12000000u64, 12000000u64, 12000000u64, 640000u64, 370000u64, 810000000u64, 810000000u64]
}

/// Delta concentration thresholds of commodity by bucket, in USD.
pub open spec fn spec_commodity_delta_ct() -> Seq<u64> {
    seq![52000000u64, 310000000u64, 2100000000u64, 1700000000u64, 1700000000u64, 1700000000u64, 2800000000u64, 2800000000u64, 2700000000u64, 2700000000u64, 52000000u64, 530000000u64, 1300000000u64, 100000000u64, 100000000u64, 100000000u64, 52000000u64, 4000000000u64]
}

/// Delta concentration threshold of credit of a quality in a bucket, in USD.
pub fn credit_delta_ct(quality: CreditQuality, bucket: u8) -> (r: Option<u64>)
    ensures
        r == (match quality {
            CreditQuality::Qualifying => if bucket < 13 {
                Some(spec_credit_q_delta_ct()[bucket as int])
            } else {
                None
            },
            CreditQuality::NonQualifying => if bucket < 3 {
                Some(spec_credit_non_q_delta_ct()[bucket as int])
            } else {
                None
            },
        }),
{
    let tbl = match quality {
        CreditQuality::Qualifying => vec![170000u64, 1000000u64, 170000u64, 170000u64, 170000u64, 170000u64, 170000u64, 1000000u64, 170000u64, 170000u64, 170000u64, 170000u64, 170000u64],
        CreditQuality::NonQualifying => vec![500000u64, 9500000u64, 500000u64],
    };
    assert(quality == CreditQuality::Qualifying ==> tbl@ =~= spec_credit_q_delta_ct());
    assert(quality == CreditQuality::NonQualifying ==> tbl@ =~= spec_credit_non_q_delta_ct());
    if (bucket as usize) < tbl.len() {
        Some(tbl[bucket as usize])
    } else {
        None
    }
}

/// A bucket-indexed table of USD-million thresholds, in USD.
pub open spec fn in_usd(tbl: Seq<u32>) -> Seq<u64> {
    tbl.map_values(|x: u32| million(x))
}

/// The currency code to classify when a call gives none.
pub open spec fn currency_or_others(c: Option<Seq<char>>) -> Seq<char> {
    match c {
        Some(x) => x,
        None => "Others"@,
    }
}

/// Vega concentration threshold of an FX pair, in USD: a pair is six ASCII
/// characters, its halves classified separately.
pub open spec fn spec_fx_pair_vega_ct(pair: Option<Seq<char>>) -> Option<u64> {
    match pair {
        Some(p) => if p.len() == 6 && vstd::utf8::is_ascii_chars(p) {
            Some(
                million(
                    spec_fx_category(p.subrange(0, 3)).spec_vega_ct(
                        spec_fx_category(p.subrange(3, 6)),
                    ),
                ),
            )
        } else {
            None
        },
        None => None,
    }
}

/// Concentration threshold in USD for a risk class (the name `Rates`, or a
/// risk-type tag of another class), a measure (`Delta` or `Vega`), and the
/// currency, currency pair or bucket label that the class is keyed by.
pub open spec fn spec_threshold(
    rc: Seq<char>,
    measure: Seq<char>,
    currency: Option<Seq<char>>,
    bucket: Option<Seq<char>>,
) -> Option<u64> {
    if measure == "Delta"@ {
        if rc == "Rates"@ {
            Some(million(spec_currency_from(currency_or_others(currency)).spec_ir_delta_ct()))
        } else if spec_class_tags(RiskClass::CreditQ).contains(rc) {
            spec_table_at(spec_credit_q_delta_ct(), bucket)
        } else if spec_class_tags(RiskClass::CreditNonQ).contains(rc) {
            spec_table_at(spec_credit_non_q_delta_ct(), bucket)
        } else if spec_class_tags(RiskClass::Equity).contains(rc) {
            spec_table_at(spec_equity_delta_ct(), bucket)
        } else if spec_class_tags(RiskClass::Commodity).contains(rc) {
            spec_table_at(spec_commodity_delta_ct(), bucket)
        } else if spec_class_tags(RiskClass::FX).contains(rc) {
            match currency {
                Some(c) => Some(million(spec_fx_category(c).spec_delta_ct())),
                None => None,
            }
        } else {
            None
        }
    } else if measure == "Vega"@ {
        if rc == "Rates"@ {
            Some(million(spec_currency_from(currency_or_others(currency)).spec_ir_vega_ct()))
        } else if spec_class_tags(RiskClass::CreditQ).contains(rc) {
            Some(million(360u32))
        } else if spec_class_tags(RiskClass::CreditNonQ).contains(rc) {
            Some(million(70u32))
        } else if spec_class_tags(RiskClass::Equity).contains(rc) {
            spec_table_at(in_usd(spec_equity_vega_ct()), bucket)
        } else if spec_class_tags(RiskClass::Commodity).contains(rc) {
            spec_table_at(in_usd(spec_commodity_vega_ct()), bucket)
        } else if spec_class_tags(RiskClass::FX).contains(rc) {
            spec_fx_pair_vega_ct(currency)
        } else {
            None
        }
    } else {
        None
    }
}

impl V2_6 {
    /// Concentration threshold in USD for a risk class (the name `Rates`, or a
    /// risk-type tag of another class), a measure (`Delta` or `Vega`), and the
    /// currency, currency pair or bucket label the class is keyed by; `None`
    /// where no threshold is defined.
    pub fn threshold(
        &self,
        risk_class: &str,
        risk_type: &str,
        currency: Option<&str>,
        bucket: Option<&str>,
    ) -> (r: Option<u64>)
        ensures
            r == spec_threshold(risk_class@, risk_type@, opt_view(currency), opt_view(bucket)),
    {
        let delta = str_eq(risk_type, "Delta");
        let vega = str_eq(risk_type, "Vega");
        if !delta && !vega {
            return None;
        }
        if str_eq(risk_class, "Rates") {
            let ccy = match currency {
                Some(c) => c,
                None => "Others",
            };
            let code = Currency::from_str(ccy);
            let ct = if delta {
                code.ir_delta_ct()
            } else {
                code.ir_vega_ct()
            };
            return Some(ct as u64 * 1_000_000);
        }
        if contains_str(class_tags(RiskClass::CreditQ).as_slice(), risk_class) {
            if delta {
                let tbl = vec![170000u64, 1000000u64, 170000u64, 170000u64, 170000u64, 170000u64, 170000u64, 1000000u64, 170000u64, 170000u64, 170000u64, 170000u64, 170000u64];
                assert(tbl@ =~= spec_credit_q_delta_ct());
                return table_at(&tbl, bucket);
            }
            return Some(CreditQuality::Qualifying.vega_ct() as u64 * 1_000_000);
        }
        if contains_str(class_tags(RiskClass::CreditNonQ).as_slice(), risk_class) {
            if delta {
                let tbl = vec![500000u64, 9500000u64, 500000u64];
                assert(tbl@ =~= spec_credit_non_q_delta_ct());
                return table_at(&tbl, bucket);
            }
            return Some(CreditQuality::NonQualifying.vega_ct() as u64 * 1_000_000);
        }
        if contains_str(class_tags(RiskClass::Equity).as_slice(), risk_class) {
            if delta {
                let tbl = vec![370000u64, 3000000u64, 3000000u64, 3000000u64, 3000000u64, 12000000u64, 12000000u64, 12000000u64, 12000000u64, 640000u64, 370000u64, 810000000u64, 810000000u64];
                assert(tbl@ =~= spec_equity_delta_ct());
                return table_at(&tbl, bucket);
            }
            let tbl = vec![39000000u64, 210000000u64, 210000000u64, 210000000u64, 210000000u64, 1300000000u64, 1300000000u64, 1300000000u64, 1300000000u64, 39000000u64, 190000000u64, 6400000000u64, 6400000000u64];
            assert(tbl@ =~= in_usd(spec_equity_vega_ct()));
            return table_at(&tbl, bucket);
        }
        if contains_str(class_tags(RiskClass::Commodity).as_slice(), risk_class) {
            if delta {
                let tbl = vec![52000000u64, 310000000u64, 2100000000u64, 1700000000u64, 1700000000u64, 1700000000u64, 2800000000u64, 2800000000u64, 2700000000u64, 2700000000u64, 52000000u64, 530000000u64, 1300000000u64, 100000000u64, 100000000u64, 100000000u64, 52000000u64, 4000000000u64];
                assert(tbl@ =~= spec_commodity_delta_ct());
                return table_at(&tbl, bucket);
            }
            let tbl = vec![69000000u64, 390000000u64, 2900000000u64, 310000000u64, 310000000u64, 310000000u64, 6300000000u64, 6300000000u64, 1200000000u64, 1200000000u64, 120000000u64, 390000000u64, 1300000000u64, 590000000u64, 590000000u64, 590000000u64, 69000000u64, 69000000u64];
            assert(tbl@ =~= in_usd(spec_commodity_vega_ct()));
            return table_at(&tbl, bucket);
        }
        if contains_str(class_tags(RiskClass::FX).as_slice(), risk_class) {
            let c = match currency {
                Some(c) => c,
                None => {
                    return None;
                },
            };
            if delta {
                return Some(FxCategory::from_currency(c).delta_ct() as u64 * 1_000_000);
            }
            if !(c.is_ascii() && c.unicode_len() == 6) {
                return None;
            }
            let first = FxCategory::from_currency(c.substring_ascii(0, 3));
            let second = FxCategory::from_currency(c.substring_ascii(3, 6));
            return Some(first.vega_ct(second) as u64 * 1_000_000);
        }
        None
    }
}

/// Delta risk weights by bucket (0 is Residual) of qualifying credit.
pub open spec fn spec_credit_q_rw() -> Seq<u32> {
    seq![343u32, 75u32, 90u32, 84u32, 54u32, 62u32, 48u32, 185u32, 343u32, 255u32, 250u32, 214u32, 173u32]
}

/// Delta risk weights by bucket (0 is Residual) of non-qualifying credit.
pub open spec fn spec_credit_non_q_rw() -> Seq<u32> {
    seq![1300u32, 280u32, 1300u32]
}

/// Delta risk weights by bucket (0 is Residual) of equity.
pub open spec fn spec_equity_rw() -> Seq<u32> {
    seq![50u32, 30u32, 33u32, 36u32, 29u32, 26u32, 25u32, 34u32, 28u32, 36u32, 50u32, 19u32, 19u32]
}

/// Delta risk weights by bucket of commodity.
pub open spec fn spec_commodity_rw() -> Seq<u32> {
    seq![0u32, 48u32, 29u32, 33u32, 25u32, 35u32, 30u32, 60u32, 52u32, 68u32, 63u32, 21u32, 21u32, 15u32, 16u32, 13u32, 68u32, 17u32]
}

/// The entry of a bucket-indexed weight table for a bucket label.
pub open spec fn spec_rw_at(tbl: Seq<u32>, bucket: Seq<char>) -> Option<u32> {
    match crate::simm_utils::spec_bucket_index(bucket) {
        Some(i) => if i < tbl.len() {
            Some(tbl[i as int])
        } else {
            None
        },
        None => None,
    }
}

/// Delta risk weight for a risk-type tag of credit, equity or commodity and a
/// bucket label; `None` for other tags and for labels outside the table.
pub open spec fn spec_risk_weight(rc: Seq<char>, bucket: Seq<char>) -> Option<u32> {
    if spec_class_tags(RiskClass::CreditQ).contains(rc) {
        spec_rw_at(spec_credit_q_rw(), bucket)
    } else if spec_class_tags(RiskClass::CreditNonQ).contains(rc) {
        spec_rw_at(spec_credit_non_q_rw(), bucket)
    } else if spec_class_tags(RiskClass::Equity).contains(rc) {
        spec_rw_at(spec_equity_rw(), bucket)
    } else if spec_class_tags(RiskClass::Commodity).contains(rc) {
        spec_rw_at(spec_commodity_rw(), bucket)
    } else {
        None
    }
}

impl V2_6 {
    /// Delta risk weight for a risk-type tag of credit, equity or commodity
    /// and a bucket label; `None` for other tags and for labels outside the table.
    pub fn risk_weight(&self, risk_class: &str, bucket: &str) -> (r: Option<u32>)
        ensures
            r == spec_risk_weight(risk_class@, bucket@),
    {
        let idx = match crate::simm_utils::bucket_index(bucket) {
            Some(i) => i,
            None => {
                return None;
            },
        };
        let tbl = if contains_str(class_tags(RiskClass::CreditQ).as_slice(), risk_class) {
            let v = vec![343u32, 75u32, 90u32, 84u32, 54u32, 62u32, 48u32, 185u32, 343u32, 255u32, 250u32, 214u32, 173u32];
            assert(v@ =~= spec_credit_q_rw());
            v
        } else if contains_str(class_tags(RiskClass::CreditNonQ).as_slice(), risk_class) {
            let v = vec![1300u32, 280u32, 1300u32];
            assert(v@ =~= spec_credit_non_q_rw());
            v
        } else if contains_str(class_tags(RiskClass::Equity).as_slice(), risk_class) {
            let v = vec![50u32, 30u32, 33u32, 36u32, 29u32, 26u32, 25u32, 34u32, 28u32, 36u32, 50u32, 19u32, 19u32];
            assert(v@ =~= spec_equity_rw());
            v
        } else if contains_str(class_tags(RiskClass::Commodity).as_slice(), risk_class) {
            let v = vec![0u32, 48u32, 29u32, 33u32, 25u32, 35u32, 30u32, 60u32, 52u32, 68u32, 63u32, 21u32, 21u32, 15u32, 16u32, 13u32, 68u32, 17u32];
            assert(v@ =~= spec_commodity_rw());
            v
        } else {
            return None;
        };
        if idx < tbl.len() {
            Some(tbl[idx])
        } else {
            None
        }
    }
}

/// FX delta risk weight, in tenths, by the volatility class of the
/// calculation currency (`outer`) and of the currency at risk (`inner`).
pub open spec fn spec_fx_rw_tenths(outer: RiskLevel, inner: RiskLevel) -> u32 {
    match (outer, inner) {
        (RiskLevel::Regular, RiskLevel::Regular) => 74,
        (RiskLevel::Regular, RiskLevel::High) => 147,
        (RiskLevel::High, RiskLevel::Regular) => 147,
        (RiskLevel::High, RiskLevel::High) => 214,
    }
}

/// FX delta risk weight, in tenths, by the volatility class of the
/// calculation currency (`outer`) and of the currency at risk (`inner`).
pub fn fx_rw_tenths(outer: RiskLevel, inner: RiskLevel) -> (r: u32)
    ensures
        r == spec_fx_rw_tenths(outer, inner),
{
    match (outer, inner) {
        (RiskLevel::Regular, RiskLevel::Regular) => 74,
        (RiskLevel::Regular, RiskLevel::High) => 147,
        (RiskLevel::High, RiskLevel::Regular) => 147,
        (RiskLevel::High, RiskLevel::High) => 214,
    }
}

/// The FX volatility class of a currency.
pub open spec fn spec_risk_level(c: Seq<char>) -> RiskLevel {
    if spec_high_vol_currencies().contains(c) {
        RiskLevel::High
    } else {
        RiskLevel::Regular
    }
}

/// FX delta risk weight, in tenths, of a currency against the calculation
/// currency; the calculation currency itself carries no FX risk.
pub open spec fn spec_fx_delta_rw_tenths(currency: Seq<char>, calculation: Seq<char>) -> u32 {
    if currency == calculation {
        0
    } else {
        spec_fx_rw_tenths(spec_risk_level(calculation), spec_risk_level(currency))
    }
}

/// FX delta risk weight, in tenths, of a currency against the calculation
/// currency; zero when the two are the same currency.
pub fn fx_delta_rw_tenths(currency: &str, calculation: &str) -> (r: u32)
    ensures
        r == spec_fx_delta_rw_tenths(currency@, calculation@),
        currency@ == calculation@ ==> r == 0,
{
    if str_eq(currency, calculation) {
        return 0;
    }
    let outer = if is_high_vol_currency(calculation) {
        RiskLevel::High
    } else {
        RiskLevel::Regular
    };
    let inner = if is_high_vol_currency(currency) {
        RiskLevel::High
    } else {
        RiskLevel::Regular
    };
    fx_rw_tenths(outer, inner)
}

/// Correlation between two risk classes, in hundredths.
pub open spec fn spec_psi(rc1: RiskClass, rc2: RiskClass) -> i64 {
    match rc1 {
        RiskClass::Rates => match rc2 {
            RiskClass::Rates => 100,
            RiskClass::CreditQ => 4,
            RiskClass::CreditNonQ => 4,
            RiskClass::Equity => 7,
            RiskClass::Commodity => 37,
            RiskClass::FX => 14,
        },
        RiskClass::CreditQ => match rc2 {
            RiskClass::Rates => 4,
            RiskClass::CreditQ => 100,
            RiskClass::CreditNonQ => 54,
            RiskClass::Equity => 70,
            RiskClass::Commodity => 27,
            RiskClass::FX => 37,
        },
        RiskClass::CreditNonQ => match rc2 {
            RiskClass::Rates => 4,
            RiskClass::CreditQ => 54,
            RiskClass::CreditNonQ => 100,
            RiskClass::Equity => 46,
            RiskClass::Commodity => 24,
            RiskClass::FX => 15,
        },
        RiskClass::Equity => match rc2 {
            RiskClass::Rates => 7,
            RiskClass::CreditQ => 70,
            RiskClass::CreditNonQ => 46,
            RiskClass::Equity => 100,
            RiskClass::Commodity => 35,
            RiskClass::FX => 39,
        },
        RiskClass::Commodity => match rc2 {
            RiskClass::Rates => 37,
            RiskClass::CreditQ => 27,
            RiskClass::CreditNonQ => 24,
            RiskClass::Equity => 35,
            RiskClass::Commodity => 100,
            RiskClass::FX => 35,
        },
        RiskClass::FX => match rc2 {
            RiskClass::Rates => 14,
            RiskClass::CreditQ => 37,
            RiskClass::CreditNonQ => 15,
            RiskClass::Equity => 39,
            RiskClass::Commodity => 35,
            RiskClass::FX => 100,
        },
    }
}

impl V2_6 {
    /// Correlation between two risk classes, in hundredths.
    pub fn psi_hundredths(&self, rc1: RiskClass, rc2: RiskClass) -> (r: i64)
        ensures
            r == spec_psi(rc1, rc2),
    {
        match rc1 {
            RiskClass::Rates => match rc2 {
                RiskClass::Rates => 100,
                RiskClass::CreditQ => 4,
                RiskClass::CreditNonQ => 4,
                RiskClass::Equity => 7,
                RiskClass::Commodity => 37,
                RiskClass::FX => 14,
            },
            RiskClass::CreditQ => match rc2 {
                RiskClass::Rates => 4,
                RiskClass::CreditQ => 100,
                RiskClass::CreditNonQ => 54,
                RiskClass::Equity => 70,
                RiskClass::Commodity => 27,
                RiskClass::FX => 37,
            },
            RiskClass::CreditNonQ => match rc2 {
                RiskClass::Rates => 4,
                RiskClass::CreditQ => 54,
                RiskClass::CreditNonQ => 100,
                RiskClass::Equity => 46,
                RiskClass::Commodity => 24,
                RiskClass::FX => 15,
            },
            RiskClass::Equity => match rc2 {
                RiskClass::Rates => 7,
                RiskClass::CreditQ => 70,
                RiskClass::CreditNonQ => 46,
                RiskClass::Equity => 100,
                RiskClass::Commodity => 35,
                RiskClass::FX => 39,
            },
            RiskClass::Commodity => match rc2 {
                RiskClass::Rates => 37,
                RiskClass::CreditQ => 27,
                RiskClass::CreditNonQ => 24,
                RiskClass::Equity => 35,
                RiskClass::Commodity => 100,
                RiskClass::FX => 35,
            },
            RiskClass::FX => match rc2 {
                RiskClass::Rates => 14,
                RiskClass::CreditQ => 37,
                RiskClass::CreditNonQ => 15,
                RiskClass::Equity => 39,
                RiskClass::Commodity => 35,
                RiskClass::FX => 100,
            },
        }
    }
}

} // verus!

verus! {

/// Bucket labels of the cross-bucket correlation tables.
pub open spec fn spec_bucket_labels(n: int) -> Seq<Seq<char>> {
    seq![
        "1"@, "2"@, "3"@, "4"@, "5"@, "6"@, "7"@, "8"@, "9"@, "10"@, "11"@, "12"@, "13"@, "14"@,
        "15"@, "16"@, "17"@,
    ].subrange(0, n)
}

/// Bucket labels of the cross-bucket correlation tables.
fn bucket_labels(n: usize) -> (r: Vec<&'static str>)
    requires
        n <= 17,
    ensures
        views(r@) == spec_bucket_labels(n as int),
{
    let mut all = vec![
        "1", "2", "3", "4", "5", "6", "7", "8", "9", "10", "11", "12", "13", "14", "15", "16", "17",
    ];
    all.truncate(n);
    assert(views(all@) =~= spec_bucket_labels(n as int));
    all
}

/// Correlations between interest-rate tenors, in hundredths.
pub open spec fn spec_ir_corr() -> Seq<Seq<i64>> {
    seq![
        seq![100i64, 77i64, 67i64, 59i64, 48i64, 39i64, 34i64, 30i64, 25i64, 23i64, 21i64, 20i64],
        seq![77i64, 100i64, 84i64, 74i64, 56i64, 43i64, 36i64, 31i64, 26i64, 21i64, 19i64, 19i64],
        seq![67i64, 84i64, 100i64, 88i64, 69i64, 55i64, 47i64, 40i64, 34i64, 27i64, 25i64, 25i64],
        seq![59i64, 74i64, 88i64, 100i64, 86i64, 73i64, 65i64, 57i64, 49i64, 40i64, 38i64, 37i64],
        seq![48i64, 56i64, 69i64, 86i64, 100i64, 94i64, 87i64, 79i64, 68i64, 60i64, 57i64, 55i64],
        seq![39i64, 43i64, 55i64, 73i64, 94i64, 100i64, 96i64, 91i64, 80i64, 74i64, 70i64, 69i64],
        seq![34i64, 36i64, 47i64, 65i64, 87i64, 96i64, 100i64, 97i64, 88i64, 81i64, 77i64, 76i64],
        seq![30i64, 31i64, 40i64, 57i64, 79i64, 91i64, 97i64, 100i64, 95i64, 90i64, 86i64, 85i64],
        seq![25i64, 26i64, 34i64, 49i64, 68i64, 80i64, 88i64, 95i64, 100i64, 97i64, 94i64, 94i64],
        seq![23i64, 21i64, 27i64, 40i64, 60i64, 74i64, 81i64, 90i64, 97i64, 100i64, 98i64, 97i64],
        seq![21i64, 19i64, 25i64, 38i64, 57i64, 70i64, 77i64, 86i64, 94i64, 98i64, 100i64, 99i64],
        seq![20i64, 19i64, 25i64, 37i64, 55i64, 69i64, 76i64, 85i64, 94i64, 97i64, 99i64, 100i64],
    ]
}

/// One row of the table of spec_ir_corr.
fn ir_corr_row(i: usize) -> (r: [i64; 12])
    requires
        i < 12,
    ensures
        r@ == spec_ir_corr()[i as int],
{
    let r = if i == 0 {
        [100, 77, 67, 59, 48, 39, 34, 30, 25, 23, 21, 20]
    } else if i == 1 {
        [77, 100, 84, 74, 56, 43, 36, 31, 26, 21, 19, 19]
    } else if i == 2 {
        [67, 84, 100, 88, 69, 55, 47, 40, 34, 27, 25, 25]
    } else if i == 3 {
        [59, 74, 88, 100, 86, 73, 65, 57, 49, 40, 38, 37]
    } else if i == 4 {
        [48, 56, 69, 86, 100, 94, 87, 79, 68, 60, 57, 55]
    } else if i == 5 {
        [39, 43, 55, 73, 94, 100, 96, 91, 80, 74, 70, 69]
    } else if i == 6 {
        [34, 36, 47, 65, 87, 96, 100, 97, 88, 81, 77, 76]
    } else if i == 7 {
        [30, 31, 40, 57, 79, 91, 97, 100, 95, 90, 86, 85]
    } else if i == 8 {
        [25, 26, 34, 49, 68, 80, 88, 95, 100, 97, 94, 94]
    } else if i == 9 {
        [23, 21, 27, 40, 60, 74, 81, 90, 97, 100, 98, 97]
    } else if i == 10 {
        [21, 19, 25, 38, 57, 70, 77, 86, 94, 98, 100, 99]
    } else {
        [20, 19, 25, 37, 55, 69, 76, 85, 94, 97, 99, 100]
    };
    assert(r@ =~= spec_ir_corr()[i as int]);
    r
}

/// Correlations between qualifying-credit buckets, in hundredths.
pub open spec fn spec_credit_q_gamma() -> Seq<Seq<i64>> {
    seq![
        seq![100i64, 38i64, 38i64, 35i64, 37i64, 34i64, 42i64, 32i64, 34i64, 33i64, 34i64, 33i64],
        seq![38i64, 100i64, 48i64, 46i64, 48i64, 46i64, 39i64, 40i64, 41i64, 41i64, 43i64, 40i64],
        seq![38i64, 48i64, 100i64, 50i64, 51i64, 50i64, 40i64, 39i64, 45i64, 44i64, 47i64, 42i64],
        seq![35i64, 46i64, 50i64, 100i64, 50i64, 50i64, 37i64, 37i64, 41i64, 43i64, 45i64, 40i64],
        seq![37i64, 48i64, 51i64, 50i64, 100i64, 50i64, 39i64, 38i64, 43i64, 43i64, 46i64, 42i64],
        seq![34i64, 46i64, 50i64, 50i64, 50i64, 100i64, 37i64, 35i64, 39i64, 41i64, 44i64, 41i64],
        seq![42i64, 39i64, 40i64, 37i64, 39i64, 37i64, 100i64, 33i64, 37i64, 37i64, 35i64, 35i64],
        seq![32i64, 40i64, 39i64, 37i64, 38i64, 35i64, 33i64, 100i64, 36i64, 37i64, 37i64, 36i64],
        seq![34i64, 41i64, 45i64, 41i64, 43i64, 39i64, 37i64, 36i64, 100i64, 41i64, 40i64, 38i64],
        seq![33i64, 41i64, 44i64, 43i64, 43i64, 41i64, 37i64, 37i64, 41i64, 100i64, 41i64, 39i64],
        seq![34i64, 43i64, 47i64, 45i64, 46i64, 44i64, 35i64, 37i64, 40i64, 41i64, 100i64, 40i64],
        seq![33i64, 40i64, 42i64, 40i64, 42i64, 41i64, 35i64, 36i64, 38i64, 39i64, 40i64, 100i64],
    ]
}

/// One row of the table of spec_credit_q_gamma.
fn credit_q_gamma_row(i: usize) -> (r: [i64; 12])
    requires
        i < 12,
    ensures
        r@ == spec_credit_q_gamma()[i as int],
{
    let r = if i == 0 {
        [100, 38, 38, 35, 37, 34, 42, 32, 34, 33, 34, 33]
    } else if i == 1 {
        [38, 100, 48, 46, 48, 46, 39, 40, 41, 41, 43, 40]
    } else if i == 2 {
        [38, 48, 100, 50, 51, 50, 40, 39, 45, 44, 47, 42]
    } else if i == 3 {
        [35, 46, 50, 100, 50, 50, 37, 37, 41, 43, 45, 40]
    } else if i == 4 {
        [37, 48, 51, 50, 100, 50, 39, 38, 43, 43, 46, 42]
    } else if i == 5 {
        [34, 46, 50, 50, 50, 100, 37, 35, 39, 41, 44, 41]
    } else if i == 6 {
        [42, 39, 40, 37, 39, 37, 100, 33, 37, 37, 35, 35]
    } else if i == 7 {
        [32, 40, 39, 37, 38, 35, 33, 100, 36, 37, 37, 36]
    } else if i == 8 {
        [34, 41, 45, 41, 43, 39, 37, 36, 100, 41, 40, 38]
    } else if i == 9 {
        [33, 41, 44, 43, 43, 41, 37, 37, 41, 100, 41, 39]
    } else if i == 10 {
        [34, 43, 47, 45, 46, 44, 35, 37, 40, 41, 100, 40]
    } else {
        [33, 40, 42, 40, 42, 41, 35, 36, 38, 39, 40, 100]
    };
    assert(r@ =~= spec_credit_q_gamma()[i as int]);
    r
}

/// Correlations between equity buckets, in hundredths.
pub open spec fn spec_equity_gamma() -> Seq<Seq<i64>> {
    seq![
        seq![100i64, 18i64, 19i64, 19i64, 14i64, 16i64, 15i64, 16i64, 18i64, 12i64, 19i64, 19i64],
        seq![18i64, 100i64, 22i64, 21i64, 15i64, 18i64, 17i64, 19i64, 20i64, 14i64, 21i64, 21i64],
        seq![19i64, 22i64, 100i64, 22i64, 13i64, 16i64, 18i64, 17i64, 22i64, 13i64, 20i64, 20i64],
        seq![19i64, 21i64, 22i64, 100i64, 17i64, 22i64, 22i64, 23i64, 22i64, 17i64, 26i64, 26i64],
        seq![14i64, 15i64, 13i64, 17i64, 100i64, 29i64, 26i64, 29i64, 14i64, 24i64, 32i64, 32i64],
        seq![16i64, 18i64, 16i64, 22i64, 29i64, 100i64, 34i64, 36i64, 17i64, 30i64, 39i64, 39i64],
        seq![15i64, 17i64, 18i64, 22i64, 26i64, 34i64, 100i64, 33i64, 16i64, 28i64, 36i64, 36i64],
        seq![16i64, 19i64, 17i64, 23i64, 29i64, 36i64, 33i64, 100i64, 17i64, 29i64, 40i64, 40i64],
        seq![18i64, 20i64, 22i64, 22i64, 14i64, 17i64, 16i64, 17i64, 100i64, 13i64, 21i64, 21i64],
        seq![12i64, 14i64, 13i64, 17i64, 24i64, 30i64, 28i64, 29i64, 13i64, 100i64, 30i64, 30i64],
        seq![19i64, 21i64, 20i64, 26i64, 32i64, 39i64, 36i64, 40i64, 21i64, 30i64, 100i64, 45i64],
        seq![19i64, 21i64, 20i64, 26i64, 32i64, 39i64, 36i64, 40i64, 21i64, 30i64, 45i64, 100i64],
    ]
}

/// One row of the table of spec_equity_gamma.
fn equity_gamma_row(i: usize) -> (r: [i64; 12])
    requires
        i < 12,
    ensures
        r@ == spec_equity_gamma()[i as int],
{
    let r = if i == 0 {
        [100, 18, 19, 19, 14, 16, 15, 16, 18, 12, 19, 19]
    } else if i == 1 {
        [18, 100, 22, 21, 15, 18, 17, 19, 20, 14, 21, 21]
    } else if i == 2 {
        [19, 22, 100, 22, 13, 16, 18, 17, 22, 13, 20, 20]
    } else if i == 3 {
        [19, 21, 22, 100, 17, 22, 22, 23, 22, 17, 26, 26]
    } else if i == 4 {
        [14, 15, 13, 17, 100, 29, 26, 29, 14, 24, 32, 32]
    } else if i == 5 {
        [16, 18, 16, 22, 29, 100, 34, 36, 17, 30, 39, 39]
    } else if i == 6 {
        [15, 17, 18, 22, 26, 34, 100, 33, 16, 28, 36, 36]
    } else if i == 7 {
        [16, 19, 17, 23, 29, 36, 33, 100, 17, 29, 40, 40]
    } else if i == 8 {
        [18, 20, 22, 22, 14, 17, 16, 17, 100, 13, 21, 21]
    } else if i == 9 {
        [12, 14, 13, 17, 24, 30, 28, 29, 13, 100, 30, 30]
    } else if i == 10 {
        [19, 21, 20, 26, 32, 39, 36, 40, 21, 30, 100, 45]
    } else {
        [19, 21, 20, 26, 32, 39, 36, 40, 21, 30, 45, 100]
    };
    assert(r@ =~= spec_equity_gamma()[i as int]);
    r
}

/// Correlations between commodity buckets, in hundredths.
pub open spec fn spec_commodity_gamma() -> Seq<Seq<i64>> {
    seq![
        seq![100i64, 22i64, 18i64, 21i64, 20i64, 24i64, 49i64, 16i64, 38i64, 14i64, 10i64, 2i64, 12i64, 11i64, 2i64, 0i64, 17i64],
        seq![22i64, 100i64, 92i64, 90i64, 88i64, 25i64, 8i64, 19i64, 17i64, 17i64, 42i64, 28i64, 36i64, 27i64, 20i64, 0i64, 64i64],
        seq![18i64, 92i64, 100i64, 87i64, 84i64, 16i64, 7i64, 15i64, 10i64, 18i64, 33i64, 22i64, 27i64, 23i64, 16i64, 0i64, 54i64],
        seq![21i64, 90i64, 87i64, 100i64, 77i64, 19i64, 11i64, 18i64, 16i64, 14i64, 32i64, 22i64, 28i64, 22i64, 11i64, 0i64, 58i64],
        seq![20i64, 88i64, 84i64, 77i64, 100i64, 19i64, 9i64, 12i64, 13i64, 18i64, 42i64, 34i64, 32i64, 29i64, 13i64, 0i64, 59i64],
        seq![24i64, 25i64, 16i64, 19i64, 19i64, 100i64, 31i64, 62i64, 23i64, 10i64, 21i64, 5i64, 18i64, 10i64, 8i64, 0i64, 28i64],
        seq![49i64, 8i64, 7i64, 11i64, 9i64, 31i64, 100i64, 21i64, 79i64, 17i64, 10i64, -8i64, 10i64, 7i64, -2i64, 0i64, 13i64],
        seq![16i64, 19i64, 15i64, 18i64, 12i64, 62i64, 21i64, 100i64, 16i64, 8i64, 13i64, -7i64, 7i64, 5i64, 2i64, 0i64, 19i64],
        seq![38i64, 17i64, 10i64, 16i64, 13i64, 23i64, 79i64, 16i64, 100i64, 15i64, 9i64, -6i64, 6i64, 6i64, 1i64, 0i64, 16i64],
        seq![14i64, 17i64, 18i64, 14i64, 18i64, 10i64, 17i64, 8i64, 15i64, 100i64, 16i64, 9i64, 14i64, 9i64, 3i64, 0i64, 11i64],
        seq![10i64, 42i64, 33i64, 32i64, 42i64, 21i64, 10i64, 13i64, 9i64, 16i64, 100i64, 36i64, 30i64, 25i64, 18i64, 0i64, 37i64],
        seq![2i64, 28i64, 22i64, 22i64, 34i64, 5i64, -8i64, -7i64, -6i64, 9i64, 36i64, 100i64, 20i64, 18i64, 11i64, 0i64, 26i64],
        seq![12i64, 36i64, 27i64, 28i64, 32i64, 18i64, 10i64, 7i64, 6i64, 14i64, 30i64, 20i64, 100i64, 28i64, 19i64, 0i64, 39i64],
        seq![11i64, 27i64, 23i64, 22i64, 29i64, 10i64, 7i64, 5i64, 6i64, 9i64, 25i64, 18i64, 28i64, 100i64, 13i64, 0i64, 26i64],
        seq![2i64, 20i64, 16i64, 11i64, 13i64, 8i64, -2i64, 2i64, 1i64, 3i64, 18i64, 11i64, 19i64, 13i64, 100i64, 0i64, 21i64],
        seq![0i64, 0i64, 0i64, 0i64, 0i64, 0i64, 0i64, 0i64, 0i64, 0i64, 0i64, 0i64, 0i64, 0i64, 0i64, 100i64, 0i64],
        seq![17i64, 64i64, 54i64, 58i64, 59i64, 28i64, 13i64, 19i64, 16i64, 11i64, 37i64, 26i64, 39i64, 26i64, 21i64, 0i64, 100i64],
    ]
}

/// One row of the table of spec_commodity_gamma.
fn commodity_gamma_row(i: usize) -> (r: [i64; 17])
    requires
        i < 17,
    ensures
        r@ == spec_commodity_gamma()[i as int],
{
    let r = if i == 0 {
        [100, 22, 18, 21, 20, 24, 49, 16, 38, 14, 10, 2, 12, 11, 2, 0, 17]
    } else if i == 1 {
        [22, 100, 92, 90, 88, 25, 8, 19, 17, 17, 42, 28, 36, 27, 20, 0, 64]
    } else if i == 2 {
        [18, 92, 100, 87, 84, 16, 7, 15, 10, 18, 33, 22, 27, 23, 16, 0, 54]
    } else if i == 3 {
        [21, 90, 87, 100, 77, 19, 11, 18, 16, 14, 32, 22, 28, 22, 11, 0, 58]
    } else if i == 4 {
        [20, 88, 84, 77, 100, 19, 9, 12, 13, 18, 42, 34, 32, 29, 13, 0, 59]
    } else if i == 5 {
        [24, 25, 16, 19, 19, 100, 31, 62, 23, 10, 21, 5, 18, 10, 8, 0, 28]
    } else if i == 6 {
        [49, 8, 7, 11, 9, 31, 100, 21, 79, 17, 10, -8, 10, 7, -2, 0, 13]
    } else if i == 7 {
        [16, 19, 15, 18, 12, 62, 21, 100, 16, 8, 13, -7, 7, 5, 2, 0, 19]
    } else if i == 8 {
        [38, 17, 10, 16, 13, 23, 79, 16, 100, 15, 9, -6, 6, 6, 1, 0, 16]
    } else if i == 9 {
        [14, 17, 18, 14, 18, 10, 17, 8, 15, 100, 16, 9, 14, 9, 3, 0, 11]
    } else if i == 10 {
        [10, 42, 33, 32, 42, 21, 10, 13, 9, 16, 100, 36, 30, 25, 18, 0, 37]
    } else if i == 11 {
        [2, 28, 22, 22, 34, 5, -8, -7, -6, 9, 36, 100, 20, 18, 11, 0, 26]
    } else if i == 12 {
        [12, 36, 27, 28, 32, 18, 10, 7, 6, 14, 30, 20, 100, 28, 19, 0, 39]
    } else if i == 13 {
        [11, 27, 23, 22, 29, 10, 7, 5, 6, 9, 25, 18, 28, 100, 13, 0, 26]
    } else if i == 14 {
        [2, 20, 16, 11, 13, 8, -2, 2, 1, 3, 18, 11, 19, 13, 100, 0, 21]
    } else if i == 15 {
        [0, 0, 0, 0, 0, 0, 0, 0, 0, 0, 0, 0, 0, 0, 0, 100, 0]
    } else {
        [17, 64, 54, 58, 59, 28, 13, 19, 16, 11, 37, 26, 39, 26, 21, 0, 100]
    };
    assert(r@ =~= spec_commodity_gamma()[i as int]);
    r
}

/// Same-bucket correlations of equity by bucket (0 is Residual), in hundredths.
pub open spec fn spec_equity_rho() -> Seq<i64> {
    seq![0i64, 18i64, 20i64, 28i64, 24i64, 25i64, 36i64, 35i64, 37i64, 23i64, 27i64, 45i64, 45i64]
}

/// Same-bucket correlations of commodity by bucket, in hundredths.
pub open spec fn spec_commodity_rho() -> Seq<i64> {
    seq![0i64, 83i64, 97i64, 93i64, 97i64, 98i64, 90i64, 98i64, 49i64, 80i64, 46i64, 58i64, 53i64, 62i64, 16i64, 18i64, 0i64, 38i64]
}

/// Qualifying-credit correlations, in hundredths: same issuer, different
/// issuers, a residual side, and base correlation.
pub open spec fn spec_credit_q_rho() -> Seq<i64> {
    seq![93i64, 46i64, 50i64, 29i64]
}

/// Non-qualifying-credit correlations, in hundredths: same issuer, different
/// issuers, a residual side.
pub open spec fn spec_credit_non_q_rho() -> Seq<i64> {
    seq![83i64, 32i64, 50i64]
}

/// Correlation between non-qualifying-credit buckets, in hundredths.
pub open spec fn spec_credit_non_q_gamma() -> i64 {
    43
}

/// The entry of a bucket-indexed correlation list for an optional bucket label.
pub open spec fn spec_rho_at(tbl: Seq<i64>, bucket: Option<Seq<char>>) -> Option<i64> {
    match bucket {
        Some(b) => match spec_bucket_index(b) {
            Some(i) => if i < tbl.len() {
                Some(tbl[i as int])
            } else {
                None
            },
            None => None,
        },
        None => None,
    }
}

/// The credit correlation of two labels: base correlation, then a residual
/// side, then same or different issuer.
pub open spec fn spec_credit_rho(tbl: Seq<i64>, base: bool, i1: Seq<char>, i2: Seq<char>) -> i64 {
    if base {
        tbl[3]
    } else if i1 == "Res"@ || i2 == "Res"@ {
        tbl[2]
    } else if i1 == i2 {
        tbl[0]
    } else {
        tbl[1]
    }
}

/// The entry of a square table at two labels' positions in a label list.
pub open spec fn spec_matrix_at(
    m: Seq<Seq<i64>>,
    labels: Seq<Seq<char>>,
    a: Seq<char>,
    b: Seq<char>,
) -> Option<i64> {
    match (position_in(labels, a, 0), position_in(labels, b, 0)) {
        (Some(i), Some(j)) => Some(m[i][j]),
        _ => None,
    }
}

/// Intra-bucket correlation, in hundredths, for a risk-type tag and two
/// labels (tenors for rates, issuers for credit) or, for equity and
/// commodity, the bucket; `None` for unknown labels and other tags.
pub open spec fn spec_rho(
    rc: Seq<char>,
    index1: Seq<char>,
    index2: Seq<char>,
    bucket: Option<Seq<char>>,
) -> Option<i64> {
    if spec_class_tags(RiskClass::Rates).contains(rc) {
        spec_matrix_at(spec_ir_corr(), spec_tenors(), index1, index2)
    } else if spec_class_tags(RiskClass::CreditQ).contains(rc) {
        Some(spec_credit_rho(spec_credit_q_rho(), rc == "Risk_BaseCorr"@, index1, index2))
    } else if spec_class_tags(RiskClass::CreditNonQ).contains(rc) {
        Some(spec_credit_rho(spec_credit_non_q_rho(), false, index1, index2))
    } else if spec_class_tags(RiskClass::Equity).contains(rc) {
        spec_rho_at(spec_equity_rho(), bucket)
    } else if spec_class_tags(RiskClass::Commodity).contains(rc) {
        spec_rho_at(spec_commodity_rho(), bucket)
    } else {
        None
    }
}

/// Cross-bucket correlation, in hundredths, for a risk-type tag and two
/// bucket labels; `None` for unknown labels and other tags.
pub open spec fn spec_gamma(rc: Seq<char>, bucket1: Seq<char>, bucket2: Seq<char>) -> Option<i64> {
    if spec_class_tags(RiskClass::CreditQ).contains(rc) {
        spec_matrix_at(spec_credit_q_gamma(), spec_bucket_labels(12), bucket1, bucket2)
    } else if spec_class_tags(RiskClass::CreditNonQ).contains(rc) {
        Some(spec_credit_non_q_gamma())
    } else if spec_class_tags(RiskClass::Equity).contains(rc) {
        spec_matrix_at(spec_equity_gamma(), spec_bucket_labels(12), bucket1, bucket2)
    } else if spec_class_tags(RiskClass::Commodity).contains(rc) {
        spec_matrix_at(spec_commodity_gamma(), spec_bucket_labels(17), bucket1, bucket2)
    } else {
        None
    }
}

/// The credit correlation of two labels.
fn credit_rho(tbl: [i64; 4], base: bool, i1: &str, i2: &str) -> (r: i64)
    ensures
        r == spec_credit_rho(tbl@, base, i1@, i2@),
{
    if base {
        tbl[3]
    } else if str_eq(i1, "Res") || str_eq(i2, "Res") {
        tbl[2]
    } else if str_eq(i1, i2) {
        tbl[0]
    } else {
        tbl[1]
    }
}

impl V2_6 {
    /// Intra-bucket correlation, in hundredths, for a risk-type tag and two
    /// labels (tenors for rates, issuers for credit) or, for equity and
    /// commodity, the bucket; `None` for unknown labels and other tags.
    pub fn rho_hundredths(
        &self,
        risk_class: &str,
        index1: &str,
        index2: &str,
        bucket: Option<&str>,
    ) -> (r: Option<i64>)
        ensures
            r == spec_rho(risk_class@, index1@, index2@, opt_view(bucket)),
    {
        if contains_str(class_tags(RiskClass::Rates).as_slice(), risk_class) {
            let tenors = simm_tenor_list();
            return match (position_of(tenors.as_slice(), index1), position_of(tenors.as_slice(), index2)) {
                (Some(i), Some(j)) => {
                    proof {
                        crate::text::lemma_position_in_bounds(views(tenors@), index1@, 0);
                        crate::text::lemma_position_in_bounds(views(tenors@), index2@, 0);
                    }
                    let row = ir_corr_row(i);
                    Some(row[j])
                },
                _ => None,
            };
        }
        if contains_str(class_tags(RiskClass::CreditQ).as_slice(), risk_class) {
            let tbl: [i64; 4] = [93, 46, 50, 29];
            assert(tbl@ =~= spec_credit_q_rho());
            return Some(credit_rho(tbl, str_eq(risk_class, "Risk_BaseCorr"), index1, index2));
        }
        if contains_str(class_tags(RiskClass::CreditNonQ).as_slice(), risk_class) {
            let tbl: [i64; 4] = [83, 32, 50, 0];
            assert(tbl@.subrange(0, 3) =~= spec_credit_non_q_rho());
            return Some(credit_rho(tbl, false, index1, index2));
        }
        let equity = contains_str(class_tags(RiskClass::Equity).as_slice(), risk_class);
        let commodity = contains_str(class_tags(RiskClass::Commodity).as_slice(), risk_class);
        if !equity && !commodity {
            return None;
        }
        let idx = match bucket {
            Some(b) => match bucket_index(b) {
                Some(i) => i,
                None => {
                    return None;
                },
            },
            None => {
                return None;
            },
        };
        if equity {
            let tbl: [i64; 13] = [0, 18, 20, 28, 24, 25, 36, 35, 37, 23, 27, 45, 45];
            assert(tbl@ =~= spec_equity_rho());
            if idx < 13 {
                Some(tbl[idx])
            } else {
                None
            }
        } else {
            let tbl: [i64; 18] = [0, 83, 97, 93, 97, 98, 90, 98, 49, 80, 46, 58, 53, 62, 16, 18, 0, 38];
            assert(tbl@ =~= spec_commodity_rho());
            if idx < 18 {
                Some(tbl[idx])
            } else {
                None
            }
        }
    }

    /// Cross-bucket correlation, in hundredths, for a risk-type tag and two
    /// bucket labels; `None` for unknown labels and other tags.
    pub fn gamma_hundredths(&self, risk_class: &str, bucket1: &str, bucket2: &str) -> (r: Option<i64>)
        ensures
            r == spec_gamma(risk_class@, bucket1@, bucket2@),
    {
        let credit_q = contains_str(class_tags(RiskClass::CreditQ).as_slice(), risk_class);
        if !credit_q && contains_str(class_tags(RiskClass::CreditNonQ).as_slice(), risk_class) {
            return Some(43);
        }
        let equity = contains_str(class_tags(RiskClass::Equity).as_slice(), risk_class);
        let commodity = contains_str(class_tags(RiskClass::Commodity).as_slice(), risk_class);
        if !credit_q && !equity && !commodity {
            return None;
        }
        proof {
            lemma_class_tags_disjoint(risk_class@);
        }
        let n: usize = if commodity && !credit_q && !equity {
            17
        } else {
            12
        };
        let labels = bucket_labels(n);
        let (i, j) = match (position_of(labels.as_slice(), bucket1), position_of(labels.as_slice(), bucket2)) {
            (Some(i), Some(j)) => (i, j),
            _ => {
                return None;
            },
        };
        proof {
            crate::text::lemma_position_in_bounds(views(labels@), bucket1@, 0);
            crate::text::lemma_position_in_bounds(views(labels@), bucket2@, 0);
        }
        if credit_q {
            let row = credit_q_gamma_row(i);
            Some(row[j])
        } else if equity {
            let row = equity_gamma_row(i);
            Some(row[j])
        } else {
            let row = commodity_gamma_row(i);
            Some(row[j])
        }
    }
}

/// Every correlation table of this version has a unit diagonal.
pub proof fn lemma_correlation_unit_diagonal(i: int)
    requires
        0 <= i < 17,
    ensures
        i < 12 ==> spec_ir_corr()[i][i] == 100,
        i < 12 ==> spec_credit_q_gamma()[i][i] == 100,
        i < 12 ==> spec_equity_gamma()[i][i] == 100,
        spec_commodity_gamma()[i][i] == 100,
{
}

/// The correlation tables of this version that do not depend on the order
/// of their two labels.
pub proof fn lemma_correlation_symmetric(i: int, j: int)
    requires
        0 <= i < 17,
        0 <= j < 17,
    ensures
        i < 12 && j < 12 ==> spec_ir_corr()[i][j] == spec_ir_corr()[j][i],
        i < 12 && j < 12 ==> spec_credit_q_gamma()[i][j] == spec_credit_q_gamma()[j][i],
        i < 12 && j < 12 ==> spec_equity_gamma()[i][j] == spec_equity_gamma()[j][i],
        spec_commodity_gamma()[i][j] == spec_commodity_gamma()[j][i],
{
}

} // verus!
