use vstd::prelude::*;

use crate::constants::{spec_class_from_name, RiskClass};
use crate::text::str_eq;
use crate::{v2_5, v2_6, v2_7};

verus! {

/// The SIMM versions whose parameters the library holds.
#[derive(Debug, Clone, Copy, PartialEq, Eq, Structural)]
pub enum SimmVersion {
    V2_5,
    V2_6,
    V2_7,
}

/// The version that a configuration names (`2_5`, `2_6`, `2_7`).
pub open spec fn spec_version_from_name(s: Seq<char>) -> Option<SimmVersion> {
    if s == "2_5"@ {
        Some(SimmVersion::V2_5)
    } else if s == "2_6"@ {
        Some(SimmVersion::V2_6)
    } else if s == "2_7"@ {
        Some(SimmVersion::V2_7)
    } else {
        None
    }
}

/// Correlation between two risk classes under a version, in hundredths.
pub open spec fn spec_psi_of(v: SimmVersion, rc1: RiskClass, rc2: RiskClass) -> i64 {
    match v {
        SimmVersion::V2_5 => v2_5::spec_psi(rc1, rc2),
        SimmVersion::V2_6 => v2_6::spec_psi(rc1, rc2),
        SimmVersion::V2_7 => v2_7::spec_psi(rc1, rc2),
    }
}

impl SimmVersion {
    /// The version that a configuration names; `None` for an unknown one.
    pub fn from_name(s: &str) -> (r: Option<SimmVersion>)
        ensures
            r == spec_version_from_name(s@),
    {
        if str_eq(s, "2_5") {
            Some(SimmVersion::V2_5)
        } else if str_eq(s, "2_6") {
            Some(SimmVersion::V2_6)
        } else if str_eq(s, "2_7") {
            Some(SimmVersion::V2_7)
        } else {
            None
        }
    }

    /// Correlation between two risk classes, in hundredths.
    pub fn psi(self, rc1: RiskClass, rc2: RiskClass) -> (r: i64)
        ensures
            r == spec_psi_of(self, rc1, rc2),
    {
        match self {
            SimmVersion::V2_5 => v2_5::V2_5.psi_hundredths(rc1, rc2),
            SimmVersion::V2_6 => v2_6::V2_6.psi_hundredths(rc1, rc2),
            SimmVersion::V2_7 => v2_7::V2_7.psi_hundredths(rc1, rc2),
        }
    }

    /// Correlation between two risk classes given by name, in hundredths;
    /// `None` when a name is not one of the six risk classes.
    pub fn psi_by_name(self, rc1: &str, rc2: &str) -> (r: Option<i64>)
        ensures
            match (spec_class_from_name(rc1@), spec_class_from_name(rc2@)) {
                (Some(a), Some(b)) => r == Some(spec_psi_of(self, a, b)),
                _ => r is None,
            },
    {
        match (RiskClass::from_name(rc1), RiskClass::from_name(rc2)) {
            (Some(a), Some(b)) => Some(self.psi(a, b)),
            _ => None,
        }
    }
}

/// Why an engine configuration is refused.
#[derive(Debug, Clone, Copy, PartialEq, Eq, Structural)]
pub enum ConfigError {
    /// The parameter-set version is not one the library holds.
    UnknownVersion,
    /// The calculation currency is not three upper-case letters.
    BadCurrency,
}

/// Three upper-case ASCII letters.
pub open spec fn is_currency_code(c: Seq<char>) -> bool {
    c.len() == 3 && forall|i: int| 0 <= i < 3 ==> 'A' <= #[trigger] c[i] && c[i] <= 'Z'
}

/// Whether a text is three upper-case ASCII letters.
pub fn currency_code_ok(c: &str) -> (r: bool)
    ensures
        r == is_currency_code(c@),
{
    if c.unicode_len() != 3 {
        return false;
    }
    let mut i: usize = 0;
    while i < 3
        invariant
            c@.len() == 3,
            i <= 3,
            forall|k: int| 0 <= k < i ==> 'A' <= #[trigger] c@[k] && c@[k] <= 'Z',
        decreases 3 - i,
    {
        let ch = c.get_char(i);
        if !('A' <= ch && ch <= 'Z') {
            return false;
        }
        i += 1;
    }
    true
}

/// Checks the names of an engine configuration: the parameter-set version
/// must be known and the calculation currency three upper-case letters.
pub fn validate_config(version: &str, currency: &str) -> (r: Result<SimmVersion, ConfigError>)
    ensures
        match r {
            Ok(v) => spec_version_from_name(version@) == Some(v) && is_currency_code(currency@),
            Err(ConfigError::UnknownVersion) => spec_version_from_name(version@) is None,
            Err(ConfigError::BadCurrency) => spec_version_from_name(version@) is Some
                && !is_currency_code(currency@),
        },
{
    let v = match SimmVersion::from_name(version) {
        Some(v) => v,
        None => {
            return Err(ConfigError::UnknownVersion);
        },
    };
    if !currency_code_ok(currency) {
        return Err(ConfigError::BadCurrency);
    }
    Ok(v)
}

/// Under every version a risk class is perfectly correlated with itself, and
/// the correlation of two risk classes does not depend on their order.
pub proof fn lemma_psi_unit_diagonal_and_symmetric(v: SimmVersion, rc1: RiskClass, rc2: RiskClass)
    ensures
        spec_psi_of(v, rc1, rc1) == 100,
        spec_psi_of(v, rc1, rc2) == spec_psi_of(v, rc2, rc1),
{
}

} // verus!
