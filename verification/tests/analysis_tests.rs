use stroke_risk::analysis::{
    confusion_counts, evaluate_rule_based, predict_rule_based, risk_to_label, ConfusionCounts,
    RiskLevel,
};
use stroke_risk::data::Patient;

fn patient(
    age: u64,
    hypertension: u8,
    heart_disease: u8,
    ever_married: &str,
    avg_glucose_level: u64,
    bmi: u64,
    stroke: u8,
) -> Patient {
    Patient {
        age,
        hypertension,
        heart_disease,
        ever_married: ever_married.to_string(),
        avg_glucose_level,
        bmi,
        stroke,
    }
}

#[test]
fn old_with_heart_disease_is_high_regardless_of_rest() {
    // Other fields set so the later rules would also match.
    let p = patient(7000, 1, 1, "Yes", 20000, 3000, 0);
    assert_eq!(predict_rule_based(&p), RiskLevel::High);
    let q = patient(6600, 0, 1, "No", 9000, 2000, 1);
    assert_eq!(predict_rule_based(&q), RiskLevel::High);
}

#[test]
fn hypertension_with_high_glucose_is_moderate() {
    let p = patient(5000, 1, 0, "No", 16000, 3000, 0);
    assert_eq!(predict_rule_based(&p), RiskLevel::Moderate);
    // Old but without heart disease: the first rule does not fire.
    let q = patient(7000, 1, 0, "No", 15001, 2000, 0);
    assert_eq!(predict_rule_based(&q), RiskLevel::Moderate);
}

#[test]
fn everything_else_is_low() {
    // No conditions at all.
    assert_eq!(predict_rule_based(&patient(4000, 0, 0, "No", 9000, 2000, 0)), RiskLevel::Low);
    // Age at the threshold, not above it.
    assert_eq!(predict_rule_based(&patient(6500, 0, 1, "No", 9000, 2000, 0)), RiskLevel::Low);
    // Glucose at the threshold, not above it.
    assert_eq!(predict_rule_based(&patient(5000, 1, 0, "No", 15000, 2000, 0)), RiskLevel::Low);
    // High glucose without hypertension.
    assert_eq!(predict_rule_based(&patient(5000, 0, 0, "No", 20000, 2000, 0)), RiskLevel::Low);
    // Heart disease alone, without old age.
    assert_eq!(predict_rule_based(&patient(3000, 0, 1, "No", 9000, 2000, 0)), RiskLevel::Low);
}

#[test]
fn risk_levels_map_to_binary_labels() {
    assert_eq!(risk_to_label(&RiskLevel::High), 1);
    assert_eq!(risk_to_label(&RiskLevel::Moderate), 1);
    assert_eq!(risk_to_label(&RiskLevel::Low), 0);
}

#[test]
fn confusion_counts_sum_to_total() {
    let preds: Vec<u8> = vec![1, 1, 0, 0, 1, 0];
    let actuals: Vec<u8> = vec![1, 0, 0, 1, 1, 0];
    let c = confusion_counts(&preds, &actuals);
    assert_eq!(c.tp, 2);
    assert_eq!(c.fp, 1);
    assert_eq!(c.tn, 2);
    assert_eq!(c.fn_, 1);
    assert_eq!(c.total(), 6);
    assert_eq!(c.tp + c.fp + c.tn + c.fn_, 6);
}

#[test]
fn recall_is_exactly_zero_without_actual_positives() {
    let c = ConfusionCounts { tp: 0, fp: 2, tn: 3, fn_: 0 };
    assert_eq!(c.recall_ratio(), (0, 1));
}

#[test]
fn recall_and_accuracy_are_exact_ratios() {
    let c = ConfusionCounts { tp: 3, fp: 2, tn: 4, fn_: 1 };
    assert_eq!(c.recall_ratio(), (3, 4));
    assert_eq!(c.accuracy_ratio(), (7, 10));
}

#[test]
fn high_risk_stroke_patient_counts_as_true_positive() {
    let p = patient(7000, 0, 1, "Yes", 10000, 2200, 1);
    let risk = predict_rule_based(&p);
    assert_eq!(risk, RiskLevel::High);
    assert_eq!(risk_to_label(&risk), 1);
    let c = evaluate_rule_based(&vec![p]);
    assert_eq!((c.tp, c.fp, c.tn, c.fn_), (1, 0, 0, 0));
}

#[test]
fn moderate_risk_without_stroke_counts_as_false_positive() {
    let p = patient(5000, 1, 0, "No", 16000, 3000, 0);
    let risk = predict_rule_based(&p);
    assert_eq!(risk, RiskLevel::Moderate);
    assert_eq!(risk_to_label(&risk), 1);
    let c = evaluate_rule_based(&vec![p]);
    assert_eq!((c.tp, c.fp, c.tn, c.fn_), (0, 1, 0, 0));
}

#[test]
fn low_risk_without_stroke_counts_as_true_negative() {
    let p = patient(4000, 0, 0, "No", 9000, 2000, 0);
    let risk = predict_rule_based(&p);
    assert_eq!(risk, RiskLevel::Low);
    assert_eq!(risk_to_label(&risk), 0);
    let c = evaluate_rule_based(&vec![p]);
    assert_eq!((c.tp, c.fp, c.tn, c.fn_), (0, 0, 1, 0));
}

#[test]
fn three_records_fill_the_expected_buckets() {
    let records = vec![
        patient(7000, 0, 1, "Yes", 10000, 2200, 1),
        patient(5000, 1, 0, "No", 16000, 3000, 0),
        patient(4000, 0, 0, "No", 9000, 2000, 0),
    ];
    let c = evaluate_rule_based(&records);
    assert_eq!((c.tp, c.fp, c.tn, c.fn_), (1, 1, 1, 0));
    assert_eq!(c.total(), 3);
    assert_eq!(c.accuracy_ratio(), (2, 3));
    assert_eq!(c.recall_ratio(), (1, 1));
}
