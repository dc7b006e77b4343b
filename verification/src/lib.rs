//! Stroke-risk prediction core: a rule-based classifier over patient
//! records, deterministic minority-class oversampling, the shared feature
//! encoding used by a trained classifier, and confusion-matrix bookkeeping
//! with exact rational accuracy and recall.
//!
//! Measurements that are fractional in the outside world (age in years,
//! average glucose level in mg/dL, body mass index) are held as fixed-point
//! integers in hundredths of a unit, so an age of 65.0 years is stored as
//! `6500`. Callers that read fractional input convert once at the boundary.

pub mod analysis;
pub mod data;
pub mod model;
