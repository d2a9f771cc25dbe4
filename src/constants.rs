use vstd::prelude::*;

use crate::text::{contains_str, str_eq, views};

verus! {

/// The six top-level SIMM risk classes.
#[derive(Debug, Clone, Copy, PartialEq, Eq, Hash, Structural)]
pub enum RiskClass {
    Rates,
    FX,
    CreditQ,
    CreditNonQ,
    Equity,
    Commodity,
}

/// The risk measures a risk class is charged under.
#[derive(Debug, Clone, Copy, PartialEq, Eq, Hash, Structural)]
pub enum RiskType {
    Delta,
    Vega,
    Curvature,
    BaseCorr,
}

impl RiskClass {
    pub open spec fn spec_name(self) -> Seq<char> {
        match self {
            RiskClass::Rates => "Rates"@,
            RiskClass::FX => "FX"@,
            RiskClass::CreditQ => "CreditQ"@,
            RiskClass::CreditNonQ => "CreditNonQ"@,
            RiskClass::Equity => "Equity"@,
            RiskClass::Commodity => "Commodity"@,
        }
    }

    pub fn as_str(self) -> (r: &'static str)
        ensures
            r@ == self.spec_name(),
    {
        match self {
            RiskClass::Rates => "Rates",
            RiskClass::FX => "FX",
            RiskClass::CreditQ => "CreditQ",
            RiskClass::CreditNonQ => "CreditNonQ",
            RiskClass::Equity => "Equity",
            RiskClass::Commodity => "Commodity",
        }
    }

    /// Every risk class admits the same four measures.
    pub open spec fn spec_allowed_risk_types(self) -> Seq<RiskType> {
        seq![RiskType::Delta, RiskType::Vega, RiskType::Curvature, RiskType::BaseCorr]
    }

    pub fn allowed_risk_types(self) -> (r: Vec<RiskType>)
        ensures
            r@ == self.spec_allowed_risk_types(),
    {
        let r = vec![RiskType::Delta, RiskType::Vega, RiskType::Curvature, RiskType::BaseCorr];
        assert(r@ =~= self.spec_allowed_risk_types());
        r
    }

    pub fn supports(self, rt: RiskType) -> (r: bool)
        ensures
            r == self.spec_allowed_risk_types().contains(rt),
    {
        proof {
            let s = self.spec_allowed_risk_types();
            let k: int = match rt {
                RiskType::Delta => 0,
                RiskType::Vega => 1,
                RiskType::Curvature => 2,
                RiskType::BaseCorr => 3,
            };
            assert(s[k] == rt);
        }
        true
    }
}

impl RiskType {
    pub open spec fn spec_name(self) -> Seq<char> {
        match self {
            RiskType::Delta => "Delta"@,
            RiskType::Vega => "Vega"@,
            RiskType::Curvature => "Curvature"@,
            RiskType::BaseCorr => "BaseCorr"@,
        }
    }

    pub fn as_str(self) -> (r: &'static str)
        ensures
            r@ == self.spec_name(),
    {
        match self {
            RiskType::Delta => "Delta",
            RiskType::Vega => "Vega",
            RiskType::Curvature => "Curvature",
            RiskType::BaseCorr => "BaseCorr",
        }
    }
}

} // verus!

verus! {

/// The CRIF risk-type tags that carry sensitivities of each risk class.
pub open spec fn spec_class_tags(rc: RiskClass) -> Seq<Seq<char>> {
    match rc {
        RiskClass::Rates => seq!["Risk_IRCurve"@, "Risk_Inflation"@, "Risk_XCcyBasis"@, "Risk_IRVol"@, "Risk_InflationVol"@],
        RiskClass::FX => seq!["Risk_FX"@, "Risk_FXVol"@],
        RiskClass::CreditQ => seq!["Risk_CreditQ"@, "Risk_CreditVol"@, "Risk_BaseCorr"@],
        RiskClass::CreditNonQ => seq!["Risk_CreditNonQ"@, "Risk_CreditVolNonQ"@],
        RiskClass::Equity => seq!["Risk_Equity"@, "Risk_EquityVol"@],
        RiskClass::Commodity => seq!["Risk_Commodity"@, "Risk_CommodityVol"@],
    }
}

/// The risk-type tags whose rows feed a given measure of a risk class: the
/// plain tags feed Delta, the volatility tags feed Vega and Curvature, and
/// `Risk_BaseCorr` alone feeds BaseCorr.
pub open spec fn spec_measure_tags(rc: RiskClass, m: RiskType) -> Seq<Seq<char>> {
    match m {
        RiskType::Delta => match rc {
            RiskClass::Rates => seq!["Risk_IRCurve"@, "Risk_Inflation"@, "Risk_XCcyBasis"@],
            RiskClass::FX => seq!["Risk_FX"@],
            RiskClass::CreditQ => seq!["Risk_CreditQ"@],
            RiskClass::CreditNonQ => seq!["Risk_CreditNonQ"@],
            RiskClass::Equity => seq!["Risk_Equity"@],
            RiskClass::Commodity => seq!["Risk_Commodity"@],
        },
        RiskType::Vega | RiskType::Curvature => match rc {
            RiskClass::Rates => seq!["Risk_IRVol"@, "Risk_InflationVol"@],
            RiskClass::FX => seq!["Risk_FXVol"@],
            RiskClass::CreditQ => seq!["Risk_CreditVol"@],
            RiskClass::CreditNonQ => seq!["Risk_CreditVolNonQ"@],
            RiskClass::Equity => seq!["Risk_EquityVol"@],
            RiskClass::Commodity => seq!["Risk_CommodityVol"@],
        },
        RiskType::BaseCorr => match rc {
            RiskClass::CreditQ => seq!["Risk_BaseCorr"@],
            _ => Seq::empty(),
        },
    }
}

/// The volatility risk-type tags.
pub open spec fn spec_vega_tags() -> Seq<Seq<char>> {
    seq!["Risk_IRVol"@, "Risk_InflationVol"@, "Risk_CreditVol"@, "Risk_CreditVolNonQ"@, "Risk_EquityVol"@, "Risk_CommodityVol"@, "Risk_FXVol"@]
}

/// The risk class a risk-type tag belongs to, if any.
pub open spec fn spec_class_of_tag(t: Seq<char>) -> Option<RiskClass> {
    if spec_class_tags(RiskClass::Rates).contains(t) {
        Some(RiskClass::Rates)
    }
    else if spec_class_tags(RiskClass::FX).contains(t) {
        Some(RiskClass::FX)
    }
    else if spec_class_tags(RiskClass::CreditQ).contains(t) {
        Some(RiskClass::CreditQ)
    }
    else if spec_class_tags(RiskClass::CreditNonQ).contains(t) {
        Some(RiskClass::CreditNonQ)
    }
    else if spec_class_tags(RiskClass::Equity).contains(t) {
        Some(RiskClass::Equity)
    }
    else if spec_class_tags(RiskClass::Commodity).contains(t) {
        Some(RiskClass::Commodity)
    }
    else {
        None
    }
}

/// The risk-type tags of a risk class.
pub fn class_tags(rc: RiskClass) -> (r: Vec<&'static str>)
    ensures
        views(r@) == spec_class_tags(rc),
{
    let r = match rc {
        RiskClass::Rates => vec!["Risk_IRCurve", "Risk_Inflation", "Risk_XCcyBasis", "Risk_IRVol", "Risk_InflationVol"],
        RiskClass::FX => vec!["Risk_FX", "Risk_FXVol"],
        RiskClass::CreditQ => vec!["Risk_CreditQ", "Risk_CreditVol", "Risk_BaseCorr"],
        RiskClass::CreditNonQ => vec!["Risk_CreditNonQ", "Risk_CreditVolNonQ"],
        RiskClass::Equity => vec!["Risk_Equity", "Risk_EquityVol"],
        RiskClass::Commodity => vec!["Risk_Commodity", "Risk_CommodityVol"],
    };
    assert(views(r@) =~= spec_class_tags(rc));
    r
}

/// The risk-type tags whose rows feed measure `m` of risk class `rc`.
pub fn measure_tags(rc: RiskClass, m: RiskType) -> (r: Vec<&'static str>)
    ensures
        views(r@) == spec_measure_tags(rc, m),
{
    let r = match m {
        RiskType::Delta => match rc {
            RiskClass::Rates => vec!["Risk_IRCurve", "Risk_Inflation", "Risk_XCcyBasis"],
            RiskClass::FX => vec!["Risk_FX"],
            RiskClass::CreditQ => vec!["Risk_CreditQ"],
            RiskClass::CreditNonQ => vec!["Risk_CreditNonQ"],
            RiskClass::Equity => vec!["Risk_Equity"],
            RiskClass::Commodity => vec!["Risk_Commodity"],
        },
        RiskType::Vega | RiskType::Curvature => match rc {
            RiskClass::Rates => vec!["Risk_IRVol", "Risk_InflationVol"],
            RiskClass::FX => vec!["Risk_FXVol"],
            RiskClass::CreditQ => vec!["Risk_CreditVol"],
            RiskClass::CreditNonQ => vec!["Risk_CreditVolNonQ"],
            RiskClass::Equity => vec!["Risk_EquityVol"],
            RiskClass::Commodity => vec!["Risk_CommodityVol"],
        },
        RiskType::BaseCorr => match rc {
            RiskClass::CreditQ => vec!["Risk_BaseCorr"],
            _ => Vec::new(),
        },
    };
    assert(views(r@) =~= spec_measure_tags(rc, m));
    r
}

/// The volatility risk-type tags.
pub fn vega_tags() -> (r: Vec<&'static str>)
    ensures
        views(r@) == spec_vega_tags(),
{
    let r = vec!["Risk_IRVol", "Risk_InflationVol", "Risk_CreditVol", "Risk_CreditVolNonQ", "Risk_EquityVol", "Risk_CommodityVol", "Risk_FXVol"];
    assert(views(r@) =~= spec_vega_tags());
    r
}

/// The risk class that a CRIF risk-type tag belongs to.
pub fn risk_class_of_tag(t: &str) -> (r: Option<RiskClass>)
    ensures
        r == spec_class_of_tag(t@),
{
    let all = [
        RiskClass::Rates,
        RiskClass::FX,
        RiskClass::CreditQ,
        RiskClass::CreditNonQ,
        RiskClass::Equity,
        RiskClass::Commodity,
    ];
    let mut i: usize = 0;
    while i < 6
        invariant
            i <= 6,
            all@ == seq![
                RiskClass::Rates,
                RiskClass::FX,
                RiskClass::CreditQ,
                RiskClass::CreditNonQ,
                RiskClass::Equity,
                RiskClass::Commodity,
            ],
            forall|k: int| 0 <= k < i ==> !spec_class_tags(#[trigger] all@[k]).contains(t@),
        decreases 6 - i,
    {
        let rc = all[i];
        let tags = class_tags(rc);
        if contains_str(tags.as_slice(), t) {
            assert(forall|k: int| 0 <= k < i ==> !spec_class_tags(#[trigger] all@[k]).contains(t@));
            return Some(rc);
        }
        i += 1;
    }
    assert(!spec_class_tags(all@[5]).contains(t@));
    None
}

} // verus!

verus! {

/// The risk classes in their reporting order.
pub open spec fn spec_all_classes() -> Seq<RiskClass> {
    seq![
        RiskClass::Rates,
        RiskClass::FX,
        RiskClass::CreditQ,
        RiskClass::CreditNonQ,
        RiskClass::Equity,
        RiskClass::Commodity,
    ]
}

/// The names of the measures every risk class is charged under.
pub open spec fn spec_measure_names() -> Seq<Seq<char>> {
    seq!["Delta"@, "Vega"@, "Curvature"@, "BaseCorr"@]
}

/// Each risk class by name, with the names of the measures it admits.
pub fn margin_by_risk_class() -> (r: Vec<(&'static str, Vec<&'static str>)>)
    ensures
        r@.len() == 6,
        forall|k: int|
            0 <= k < 6 ==> {
                &&& (#[trigger] r@[k]).0@ == spec_all_classes()[k].spec_name()
                &&& views(r@[k].1@) == spec_measure_names()
            },
{
    let mut r: Vec<(&'static str, Vec<&'static str>)> = Vec::new();
    let mut i: usize = 0;
    while i < 6
        invariant
            i <= 6,
            r@.len() == i,
            forall|k: int|
                0 <= k < i ==> {
                    &&& (#[trigger] r@[k]).0@ == spec_all_classes()[k].spec_name()
                    &&& views(r@[k].1@) == spec_measure_names()
                },
        decreases 6 - i,
    {
        let rc = if i == 0 {
            RiskClass::Rates
        } else if i == 1 {
            RiskClass::FX
        } else if i == 2 {
            RiskClass::CreditQ
        } else if i == 3 {
            RiskClass::CreditNonQ
        } else if i == 4 {
            RiskClass::Equity
        } else {
            RiskClass::Commodity
        };
        assert(rc == spec_all_classes()[i as int]);
        let measures = vec!["Delta", "Vega", "Curvature", "BaseCorr"];
        assert(views(measures@) =~= spec_measure_names());
        r.push((rc.as_str(), measures));
        i += 1;
    }
    r
}

/// The risk class named `s`, if any.
pub open spec fn spec_class_from_name(s: Seq<char>) -> Option<RiskClass> {
    if s == "Rates"@ {
        Some(RiskClass::Rates)
    } else if s == "FX"@ {
        Some(RiskClass::FX)
    } else if s == "CreditQ"@ {
        Some(RiskClass::CreditQ)
    } else if s == "CreditNonQ"@ {
        Some(RiskClass::CreditNonQ)
    } else if s == "Equity"@ {
        Some(RiskClass::Equity)
    } else if s == "Commodity"@ {
        Some(RiskClass::Commodity)
    } else {
        None
    }
}

/// The measure named `s`, if any.
pub open spec fn spec_measure_from_name(s: Seq<char>) -> Option<RiskType> {
    if s == "Delta"@ {
        Some(RiskType::Delta)
    } else if s == "Vega"@ {
        Some(RiskType::Vega)
    } else if s == "Curvature"@ {
        Some(RiskType::Curvature)
    } else if s == "BaseCorr"@ {
        Some(RiskType::BaseCorr)
    } else {
        None
    }
}

impl RiskClass {
    /// Parses a risk class from its name.
    pub fn from_name(s: &str) -> (r: Option<RiskClass>)
        ensures
            r == spec_class_from_name(s@),
    {
        if str_eq(s, "Rates") {
            Some(RiskClass::Rates)
        } else if str_eq(s, "FX") {
            Some(RiskClass::FX)
        } else if str_eq(s, "CreditQ") {
            Some(RiskClass::CreditQ)
        } else if str_eq(s, "CreditNonQ") {
            Some(RiskClass::CreditNonQ)
        } else if str_eq(s, "Equity") {
            Some(RiskClass::Equity)
        } else if str_eq(s, "Commodity") {
            Some(RiskClass::Commodity)
        } else {
            None
        }
    }
}

impl RiskType {
    /// Parses a risk measure from its name.
    pub fn from_name(s: &str) -> (r: Option<RiskType>)
        ensures
            r == spec_measure_from_name(s@),
    {
        if str_eq(s, "Delta") {
            Some(RiskType::Delta)
        } else if str_eq(s, "Vega") {
            Some(RiskType::Vega)
        } else if str_eq(s, "Curvature") {
            Some(RiskType::Curvature)
        } else if str_eq(s, "BaseCorr") {
            Some(RiskType::BaseCorr)
        } else {
            None
        }
    }
}

} // verus!

verus! {

/// No volatility tag feeds a Delta measure, and only volatility tags feed a
/// Vega or Curvature measure.
pub proof fn lemma_measure_tags_orthogonal(rc: RiskClass, t: Seq<char>)
    ensures
        spec_measure_tags(rc, RiskType::Delta).contains(t) ==> !spec_vega_tags().contains(t),
        spec_measure_tags(rc, RiskType::Vega).contains(t) ==> spec_vega_tags().contains(t),
        spec_measure_tags(rc, RiskType::Curvature).contains(t) ==> spec_vega_tags().contains(t),
{
    reveal_strlit("Risk_IRCurve");
    reveal_strlit("Risk_Inflation");
    reveal_strlit("Risk_XCcyBasis");
    reveal_strlit("Risk_FX");
    reveal_strlit("Risk_CreditQ");
    reveal_strlit("Risk_CreditNonQ");
    reveal_strlit("Risk_Equity");
    reveal_strlit("Risk_Commodity");
    reveal_strlit("Risk_IRVol");
    reveal_strlit("Risk_InflationVol");
    reveal_strlit("Risk_CreditVol");
    reveal_strlit("Risk_CreditVolNonQ");
    reveal_strlit("Risk_EquityVol");
    reveal_strlit("Risk_CommodityVol");
    reveal_strlit("Risk_FXVol");
    let d = spec_measure_tags(rc, RiskType::Delta);
    let v = spec_measure_tags(rc, RiskType::Vega);
    let w = spec_vega_tags();
    if d.contains(t) {
        let k = choose|k: int| 0 <= k < d.len() && d[k] == t;
        if w.contains(t) {
            let j = choose|j: int| 0 <= j < w.len() && w[j] == t;
            assert(d[k].len() != w[j].len() || d[k][5] != w[j][5] || d[k][6] != w[j][6]);
        }
    }
    if v.contains(t) {
        let k = choose|k: int| 0 <= k < v.len() && v[k] == t;
        assert(v[k] == w[0] || v[k] == w[1] || v[k] == w[2] || v[k] == w[3] || v[k] == w[4]
            || v[k] == w[5] || v[k] == w[6]);
    }
}

} // verus!

verus! {

/// No risk-type tag belongs to two of credit, equity and commodity.
pub proof fn lemma_class_tags_disjoint(t: Seq<char>)
    ensures
        spec_class_tags(RiskClass::CreditQ).contains(t) ==> !spec_class_tags(
            RiskClass::Equity,
        ).contains(t) && !spec_class_tags(RiskClass::Commodity).contains(t),
        spec_class_tags(RiskClass::Equity).contains(t) ==> !spec_class_tags(
            RiskClass::Commodity,
        ).contains(t),
{
    reveal_strlit("Risk_CreditQ");
    reveal_strlit("Risk_CreditVol");
    reveal_strlit("Risk_BaseCorr");
    reveal_strlit("Risk_Equity");
    reveal_strlit("Risk_EquityVol");
    reveal_strlit("Risk_Commodity");
    reveal_strlit("Risk_CommodityVol");
    let c = spec_class_tags(RiskClass::CreditQ);
    let e = spec_class_tags(RiskClass::Equity);
    let m = spec_class_tags(RiskClass::Commodity);
    if c.contains(t) {
        let k = choose|k: int| 0 <= k < c.len() && c[k] == t;
        if e.contains(t) {
            let j = choose|j: int| 0 <= j < e.len() && e[j] == t;
            assert(c[k][5] != e[j][5]);
        }
        if m.contains(t) {
            let j = choose|j: int| 0 <= j < m.len() && m[j] == t;
            assert(c[k][6] != m[j][6] || c[k][5] != m[j][5]);
        }
    }
    if e.contains(t) && m.contains(t) {
        let k = choose|k: int| 0 <= k < e.len() && e[k] == t;
        let j = choose|j: int| 0 <= j < m.len() && m[j] == t;
        assert(e[k][5] != m[j][5]);
    }
}

} // verus!
