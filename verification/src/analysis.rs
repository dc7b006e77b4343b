//! The rule-based classifier and confusion-matrix evaluation shared by both
//! classifier paths.

use crate::data::Patient;
use vstd::prelude::*;

verus! {

/// Age above which, together with heart disease, a patient is high risk:
/// 65 years, in hundredths of a year.
pub const HIGH_RISK_AGE: u64 = 6500;

/// Glucose level above which, together with hypertension, a patient is
/// moderate risk: 150 mg/dL, in hundredths of a mg/dL.
pub const MODERATE_RISK_GLUCOSE: u64 = 15000;

/// Stroke risk category produced by the rule-based classifier.
#[derive(Debug, Clone, Copy, PartialEq, Eq, Structural)]
pub enum RiskLevel {
    High,
    Moderate,
    Low,
}

/// The first rule matches: over 65 years old with heart disease.
pub open spec fn high_risk(p: Patient) -> bool {
    p.age > HIGH_RISK_AGE && p.heart_disease == 1
}

/// The second rule matches and the first does not: hypertension with a
/// glucose level over 150 mg/dL.
pub open spec fn moderate_risk(p: Patient) -> bool {
    !high_risk(p) && p.hypertension == 1 && p.avg_glucose_level > MODERATE_RISK_GLUCOSE
}

/// The risk category assigned by the ordered rule chain.
pub open spec fn predict_rule_spec(p: Patient) -> RiskLevel {
    if high_risk(p) {
        RiskLevel::High
    } else if moderate_risk(p) {
        RiskLevel::Moderate
    } else {
        RiskLevel::Low
    }
}

/// The binary label a risk category maps to.
pub open spec fn risk_label_spec(risk: RiskLevel) -> u8 {
    match risk {
        RiskLevel::High | RiskLevel::Moderate => 1,
        RiskLevel::Low => 0,
    }
}

/// The binary label the rule chain assigns to a record.
pub open spec fn rule_label_of(p: Patient) -> u8 {
    risk_label_spec(predict_rule_spec(p))
}

/// Predicts stroke risk level with an ordered rule chain, first match wins:
/// - High: age over 65 years and heart disease;
/// - Moderate: otherwise, hypertension and glucose over 150 mg/dL;
/// - Low: neither.
pub fn predict_rule_based(patient: &Patient) -> (risk: RiskLevel)
    ensures
        risk == predict_rule_spec(*patient),
        high_risk(*patient) ==> risk == RiskLevel::High,
        moderate_risk(*patient) ==> risk == RiskLevel::Moderate,
        !high_risk(*patient) && !moderate_risk(*patient) ==> risk == RiskLevel::Low,
{
    if patient.age > HIGH_RISK_AGE && patient.heart_disease == 1 {
        RiskLevel::High
    } else if patient.hypertension == 1 && patient.avg_glucose_level > MODERATE_RISK_GLUCOSE {
        RiskLevel::Moderate
    } else {
        RiskLevel::Low
    }
}

/// Converts a `RiskLevel` into a binary label: High and Moderate both mean
/// elevated risk (1), Low means 0.
pub fn risk_to_label(risk: &RiskLevel) -> (label: u8)
    ensures
        label == risk_label_spec(*risk),
        label == 1 <==> (*risk == RiskLevel::High || *risk == RiskLevel::Moderate),
        label == 0 <==> *risk == RiskLevel::Low,
{
    match risk {
        RiskLevel::High | RiskLevel::Moderate => 1,
        RiskLevel::Low => 0,
    }
}

/// How many positions hold the predicted label `pred` against the actual
/// label `actual`.
pub open spec fn count_matching(preds: Seq<u8>, actuals: Seq<u8>, pred: u8, actual: u8) -> int
    decreases preds.len(),
{
    if preds.len() == 0 || preds.len() != actuals.len() {
        0
    } else {
        count_matching(preds.drop_last(), actuals.drop_last(), pred, actual) + if preds.last()
            == pred && actuals.last() == actual {
            1int
        } else {
            0int
        }
    }
}

/// Every label in the sequence is binary: 0 or 1.
pub open spec fn all_binary(s: Seq<u8>) -> bool {
    forall|i: int| 0 <= i < s.len() ==> #[trigger] s[i] <= 1
}

/// Outcome counts of one evaluation pass: true/false positives and
/// true/false negatives, comparing binary predictions against binary
/// ground-truth labels.
#[derive(Debug, Clone, Copy, PartialEq, Eq, Structural)]
pub struct ConfusionCounts {
    /// Predicted 1, actual 1.
    pub tp: u64,
    /// Predicted 1, actual 0.
    pub fp: u64,
    /// Predicted 0, actual 0.
    pub tn: u64,
    /// Predicted 0, actual 1.
    pub fn_: u64,
}

impl ConfusionCounts {
    /// The number of evaluated records the counts stand for.
    pub open spec fn total_spec(&self) -> int {
        self.tp + self.fp + self.tn + self.fn_
    }

    /// The counts agree with one matched pass over the given label
    /// sequences.
    pub open spec fn counts_of(&self, preds: Seq<u8>, actuals: Seq<u8>) -> bool {
        &&& self.tp == count_matching(preds, actuals, 1, 1)
        &&& self.fp == count_matching(preds, actuals, 1, 0)
        &&& self.tn == count_matching(preds, actuals, 0, 0)
        &&& self.fn_ == count_matching(preds, actuals, 0, 1)
    }

    /// The total number of evaluated records.
    pub fn total(&self) -> (t: u64)
        requires
            self.total_spec() <= u64::MAX,
        ensures
            t == self.total_spec(),
    {
        self.tp + self.fp + self.tn + self.fn_
    }

    /// Accuracy as an exact rational: correct predictions over the total.
    /// The numerator never exceeds the denominator, which is positive.
    pub fn accuracy_ratio(&self) -> (r: (u64, u64))
        requires
            self.total_spec() <= u64::MAX,
            self.total_spec() > 0,
        ensures
            r.0 == self.tp + self.tn,
            r.1 == self.total_spec(),
            r.0 <= r.1,
            r.1 > 0,
    {
        (self.tp + self.tn, self.tp + self.fp + self.tn + self.fn_)
    }

    /// Recall (true positive rate) as an exact rational: true positives
    /// over actual positives. When there are no actual positives the result
    /// is exactly zero (0 over 1); the denominator is never zero.
    pub fn recall_ratio(&self) -> (r: (u64, u64))
        requires
            self.tp + self.fn_ <= u64::MAX,
        ensures
            self.tp + self.fn_ == 0 ==> r == (0u64, 1u64),
            self.tp + self.fn_ > 0 ==> r.0 == self.tp && r.1 == self.tp + self.fn_,
            r.1 > 0,
            r.0 <= r.1,
    {
        if self.tp == 0 && self.fn_ == 0 {
            (0, 1)
        } else {
            (self.tp, self.tp + self.fn_)
        }
    }
}

/// Conservation law: over binary labels, the four outcome counts partition
/// the records, so they sum to the number of records.
pub proof fn lemma_confusion_conservation(preds: Seq<u8>, actuals: Seq<u8>)
    requires
        preds.len() == actuals.len(),
        all_binary(preds),
        all_binary(actuals),
    ensures
        count_matching(preds, actuals, 1, 1) + count_matching(preds, actuals, 1, 0)
            + count_matching(preds, actuals, 0, 0) + count_matching(preds, actuals, 0, 1)
            == preds.len(),
    decreases preds.len(),
{
    if preds.len() > 0 {
        assert(all_binary(preds.drop_last())) by {
            assert(forall|i: int|
                0 <= i < preds.len() - 1 ==> preds.drop_last()[i] == #[trigger] preds[i]);
        }
        assert(all_binary(actuals.drop_last())) by {
            assert(forall|i: int|
                0 <= i < actuals.len() - 1 ==> actuals.drop_last()[i] == #[trigger] actuals[i]);
        }
        assert(preds.last() <= 1 && actuals.last() <= 1);
        lemma_confusion_conservation(preds.drop_last(), actuals.drop_last());
    }
}

/// Tallies binary predictions against binary ground-truth labels.
pub fn confusion_counts(preds: &Vec<u8>, actuals: &Vec<u8>) -> (c: ConfusionCounts)
    requires
        preds@.len() == actuals@.len(),
        all_binary(preds@),
        all_binary(actuals@),
    ensures
        c.counts_of(preds@, actuals@),
        c.total_spec() == preds@.len(),
{
    let n = preds.len();
    let mut tp: u64 = 0;
    let mut fp: u64 = 0;
    let mut tn: u64 = 0;
    let mut fn_: u64 = 0;
    let mut i: usize = 0;
    while i < n
        invariant
            n == preds@.len(),
            preds@.len() == actuals@.len(),
            all_binary(preds@),
            all_binary(actuals@),
            0 <= i <= n,
            tp == count_matching(preds@.take(i as int), actuals@.take(i as int), 1, 1),
            fp == count_matching(preds@.take(i as int), actuals@.take(i as int), 1, 0),
            tn == count_matching(preds@.take(i as int), actuals@.take(i as int), 0, 0),
            fn_ == count_matching(preds@.take(i as int), actuals@.take(i as int), 0, 1),
            tp + fp + tn + fn_ == i,
        decreases n - i,
    {
        proof {
            let j = i + 1;
            assert(preds@.take(j).drop_last() =~= preds@.take(i as int));
            assert(actuals@.take(j).drop_last() =~= actuals@.take(i as int));
            assert(preds@.take(j).last() == preds@[i as int]);
            assert(actuals@.take(j).last() == actuals@[i as int]);
        }
        let pred = preds[i];
        let actual = actuals[i];
        if pred == 1 && actual == 1 {
            tp = tp + 1;
        } else if pred == 1 && actual == 0 {
            fp = fp + 1;
        } else if pred == 0 && actual == 0 {
            tn = tn + 1;
        } else {
            fn_ = fn_ + 1;
        }
        i = i + 1;
    }
    proof {
        assert(preds@.take(n as int) =~= preds@);
        assert(actuals@.take(n as int) =~= actuals@);
    }
    ConfusionCounts { tp, fp, tn, fn_ }
}

/// The binary labels the rule chain assigns, record by record.
pub open spec fn rule_labels_of(s: Seq<Patient>) -> Seq<u8> {
    s.map_values(|p: Patient| rule_label_of(p))
}

/// The ground-truth stroke outcomes, record by record.
pub open spec fn strokes_of(s: Seq<Patient>) -> Seq<u8> {
    s.map_values(|p: Patient| p.stroke)
}

/// Evaluates the rule-based classifier over a record set: predicts a binary
/// label for every record and tallies it against the recorded outcome.
pub fn evaluate_rule_based(patients: &Vec<Patient>) -> (c: ConfusionCounts)
    requires
        crate::data::all_flags_binary(patients@),
    ensures
        c.counts_of(rule_labels_of(patients@), strokes_of(patients@)),
        c.total_spec() == patients@.len(),
{
    let n = patients.len();
    let mut preds: Vec<u8> = Vec::new();
    let mut actuals: Vec<u8> = Vec::new();
    let mut i: usize = 0;
    while i < n
        invariant
            n == patients@.len(),
            crate::data::all_flags_binary(patients@),
            0 <= i <= n,
            preds@.len() == i,
            actuals@.len() == i,
            forall|j: int| 0 <= j < i ==> #[trigger] preds@[j] == rule_label_of(patients@[j]),
            forall|j: int| 0 <= j < i ==> #[trigger] actuals@[j] == patients@[j].stroke,
        decreases n - i,
    {
        let risk = predict_rule_based(&patients[i]);
        let label = risk_to_label(&risk);
        preds.push(label);
        actuals.push(patients[i].stroke);
        i = i + 1;
    }
    proof {
        assert(preds@ =~= rule_labels_of(patients@));
        assert(actuals@ =~= strokes_of(patients@));
        assert(all_binary(preds@));
        assert(all_binary(actuals@));
    }
    confusion_counts(&preds, &actuals)
}

} // verus!
