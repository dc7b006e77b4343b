//! The patient record schema shared by every classifier in the crate.

use vstd::prelude::*;

verus! {

/// One patient's medical information and stroke outcome.
///
/// `age`, `avg_glucose_level` and `bmi` are fixed-point values in hundredths
/// of their natural unit (years, mg/dL, and BMI points respectively), so an
/// age of 65.0 years is stored as `6500`. `hypertension`, `heart_disease`
/// and `stroke` are binary flags (`0` or `1`); `ever_married` carries the
/// source data's categorical string, where exactly `"Yes"` means married.
#[derive(Debug, PartialEq)]
pub struct Patient {
    /// Age in hundredths of a year.
    pub age: u64,
    /// 1 if the patient has hypertension, 0 otherwise.
    pub hypertension: u8,
    /// 1 if the patient has heart disease, 0 otherwise.
    pub heart_disease: u8,
    /// Marital status; exactly "Yes" (case sensitive) counts as married.
    pub ever_married: String,
    /// Average glucose level in hundredths of a mg/dL.
    pub avg_glucose_level: u64,
    /// Body mass index in hundredths of a BMI point.
    pub bmi: u64,
    /// Ground-truth outcome: 1 if the patient had a stroke, 0 otherwise.
    pub stroke: u8,
}

/// The binary flags of a record are restricted to 0 and 1.
pub open spec fn flags_binary(p: Patient) -> bool {
    p.hypertension <= 1 && p.heart_disease <= 1 && p.stroke <= 1
}

/// Every record in the sequence has binary flags.
pub open spec fn all_flags_binary(s: Seq<Patient>) -> bool {
    forall|i: int| 0 <= i < s.len() ==> flags_binary(#[trigger] s[i])
}

impl Clone for Patient {
    /// Cloning a record preserves every field.
    fn clone(&self) -> (res: Self)
        ensures
            res == *self,
    {
        Patient {
            age: self.age,
            hypertension: self.hypertension,
            heart_disease: self.heart_disease,
            ever_married: self.ever_married.clone(),
            avg_glucose_level: self.avg_glucose_level,
            bmi: self.bmi,
            stroke: self.stroke,
        }
    }
}

} // verus!
