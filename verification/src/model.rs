//! Feature encoding, labels and oversampling for the trained-classifier
//! path. The numeric work that fits an actual decision tree is an outside
//! capability; everything it consumes is prepared and specified here.

use crate::data::Patient;
use vstd::multiset::Multiset;
use vstd::prelude::*;

verus! {

/// The fixed-point value that stands for a feature of 1.0: one unit, in
/// hundredths.
pub const FEATURE_ONE: u64 = 100;

/// The marital-status feature: one unit when the string is exactly "Yes",
/// zero for any other string.
pub open spec fn married_flag_spec(s: Seq<char>) -> u64 {
    if s == "Yes"@ {
        FEATURE_ONE
    } else {
        0
    }
}

/// Encodes marital status as a feature value.
fn married_flag(s: &String) -> (flag: u64)
    ensures
        flag == married_flag_spec(s@),
{
    let yes: String = String::from_str("Yes");
    if s.eq(&yes) {
        FEATURE_ONE
    } else {
        0
    }
}

/// The fixed-order feature vector of one record, every entry in hundredths
/// of a unit: age, hypertension flag, heart-disease flag, married flag,
/// average glucose level, body mass index.
pub open spec fn features_of(p: Patient) -> Seq<u64> {
    seq![
        p.age,
        (p.hypertension * FEATURE_ONE) as u64,
        (p.heart_disease * FEATURE_ONE) as u64,
        married_flag_spec(p.ever_married@),
        p.avg_glucose_level,
        p.bmi,
    ]
}

/// Encodes one record into its feature vector. This single encoding is
/// shared by training and inference, so the two can never drift apart.
/// The married flag is one unit exactly when `ever_married` is the string
/// "Yes", and zero for any other string.
pub fn encode_features(patient: &Patient) -> (features: Vec<u64>)
    ensures
        features@ == features_of(*patient),
        features@.len() == 6,
        patient.ever_married@ == "Yes"@ ==> features@[3] == FEATURE_ONE,
        patient.ever_married@ != "Yes"@ ==> features@[3] == 0,
{
    let mut features: Vec<u64> = Vec::new();
    features.push(patient.age);
    features.push((patient.hypertension as u64) * FEATURE_ONE);
    features.push((patient.heart_disease as u64) * FEATURE_ONE);
    features.push(married_flag(&patient.ever_married));
    features.push(patient.avg_glucose_level);
    features.push(patient.bmi);
    proof {
        assert(features@ =~= features_of(*patient));
    }
    features
}

/// Encodes every record into its feature vector, in order.
pub fn preprocess_features(patients: &Vec<Patient>) -> (features: Vec<Vec<u64>>)
    ensures
        features@.len() == patients@.len(),
        forall|i: int|
            0 <= i < patients@.len() ==> #[trigger] features@[i]@ == features_of(patients@[i]),
{
    let n = patients.len();
    let mut features: Vec<Vec<u64>> = Vec::new();
    let mut i: usize = 0;
    while i < n
        invariant
            n == patients@.len(),
            0 <= i <= n,
            features@.len() == i,
            forall|j: int| 0 <= j < i ==> #[trigger] features@[j]@ == features_of(patients@[j]),
        decreases n - i,
    {
        let row = encode_features(&patients[i]);
        features.push(row);
        i = i + 1;
    }
    features
}

/// Extracts the ground-truth stroke labels, in order.
pub fn get_labels(patients: &Vec<Patient>) -> (labels: Vec<u8>)
    ensures
        labels@ == crate::analysis::strokes_of(patients@),
{
    let n = patients.len();
    let mut labels: Vec<u8> = Vec::new();
    let mut i: usize = 0;
    while i < n
        invariant
            n == patients@.len(),
            0 <= i <= n,
            labels@.len() == i,
            forall|j: int| 0 <= j < i ==> #[trigger] labels@[j] == patients@[j].stroke,
        decreases n - i,
    {
        labels.push(patients[i].stroke);
        i = i + 1;
    }
    proof {
        assert(labels@ =~= crate::analysis::strokes_of(patients@));
    }
    labels
}

/// A record counts as positive when its recorded outcome is a stroke.
pub open spec fn is_positive(p: Patient) -> bool {
    p.stroke == 1
}

/// The subsequence of positive records, in their original order.
pub open spec fn positives(s: Seq<Patient>) -> Seq<Patient>
    decreases s.len(),
{
    if s.len() == 0 {
        Seq::empty()
    } else if is_positive(s.last()) {
        positives(s.drop_last()).push(s.last())
    } else {
        positives(s.drop_last())
    }
}

/// The deterministic oversampling policy: the record set followed by three
/// extra copies of its positive records.
pub open spec fn oversampled(s: Seq<Patient>) -> Seq<Patient> {
    s + positives(s) + positives(s) + positives(s)
}

/// Appends a copy of every record in `src` to `dst`.
fn append_records(dst: &mut Vec<Patient>, src: &Vec<Patient>)
    ensures
        final(dst)@ == old(dst)@ + src@,
{
    let n = src.len();
    let mut i: usize = 0;
    while i < n
        invariant
            n == src@.len(),
            0 <= i <= n,
            dst@ == old(dst)@ + src@.take(i as int),
        decreases n - i,
    {
        dst.push(src[i].clone());
        proof {
            assert(old(dst)@ + src@.take(i + 1) =~= (old(dst)@ + src@.take(i as int)).push(
                src@[i as int],
            ));
        }
        i = i + 1;
    }
    proof {
        assert(src@.take(n as int) =~= src@);
    }
}

/// Builds the oversampled record set: every record once, then three more
/// copies of every positive record. The duplication factor is fixed, so
/// the augmentation is deterministic.
pub fn oversample_positives(patients: &Vec<Patient>) -> (augmented: Vec<Patient>)
    ensures
        augmented@ == oversampled(patients@),
        augmented@.len() == patients@.len() + 3 * positives(patients@).len(),
{
    let n = patients.len();
    let mut pos: Vec<Patient> = Vec::new();
    let mut i: usize = 0;
    while i < n
        invariant
            n == patients@.len(),
            0 <= i <= n,
            pos@ == positives(patients@.take(i as int)),
        decreases n - i,
    {
        proof {
            assert(patients@.take(i + 1).drop_last() =~= patients@.take(i as int));
            assert(patients@.take(i + 1).last() == patients@[i as int]);
        }
        if patients[i].stroke == 1 {
            pos.push(patients[i].clone());
        }
        i = i + 1;
    }
    proof {
        assert(patients@.take(n as int) =~= patients@);
    }
    let mut augmented: Vec<Patient> = Vec::new();
    append_records(&mut augmented, patients);
    append_records(&mut augmented, &pos);
    append_records(&mut augmented, &pos);
    append_records(&mut augmented, &pos);
    proof {
        assert(augmented@ =~= oversampled(patients@));
    }
    augmented
}

/// The positive subsequence holds every occurrence of a positive record and
/// no occurrence of a negative one.
pub proof fn lemma_positives_count(s: Seq<Patient>, p: Patient)
    ensures
        positives(s).to_multiset().count(p) == if is_positive(p) {
            s.to_multiset().count(p)
        } else {
            0nat
        },
    decreases s.len(),
{
    broadcast use vstd::multiset::group_multiset_axioms;
    broadcast use vstd::seq_lib::group_to_multiset_ensures;

    if s.len() == 0 {
        assert(s.to_multiset() =~= Multiset::empty());
        assert(positives(s).to_multiset() =~= Multiset::empty());
    } else {
        lemma_positives_count(s.drop_last(), p);
        assert(s =~= s.drop_last().push(s.last()));
        assert(s.to_multiset() == s.drop_last().to_multiset().insert(s.last()));
        if is_positive(s.last()) {
            assert(positives(s).to_multiset() == positives(s.drop_last()).to_multiset().insert(
                s.last(),
            ));
        }
    }
}

/// Oversampling law: in the augmented set every positive record occurs four
/// times as often as in the original (once as the original, three times as
/// copies), and every negative record occurs exactly as often as before.
pub proof fn lemma_oversample_count(s: Seq<Patient>, p: Patient)
    ensures
        oversampled(s).to_multiset().count(p) == if is_positive(p) {
            4 * s.to_multiset().count(p)
        } else {
            s.to_multiset().count(p)
        },
{
    broadcast use vstd::multiset::group_multiset_axioms;

    let pos = positives(s);
    lemma_positives_count(s, p);
    vstd::seq_lib::lemma_multiset_commutative(s + pos + pos, pos);
    vstd::seq_lib::lemma_multiset_commutative(s + pos, pos);
    vstd::seq_lib::lemma_multiset_commutative(s, pos);
}

} // verus!

