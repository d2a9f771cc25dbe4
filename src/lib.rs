//! Verified core of an ISDA SIMM margin engine: queries over CRIF sensitivity
//! tables, the classification of risk types into risk classes and measures,
//! and the whole-number parameters of each SIMM version (risk weights and
//! concentration thresholds, correlations in hundredths).
pub mod text;
pub mod constants;
pub mod simm_utils;
pub mod crif_view;
pub mod crif_csv;
pub mod compare;
pub mod v2_5;
pub mod v2_6;
pub mod v2_7;
pub mod params;
