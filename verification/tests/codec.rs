use fedlearn::model::SimpleModel;

fn filled_model() -> SimpleModel {
    // Dimensions 2/3/1: segment lengths 6, 3, 3, 1; 13 parameters in all.
    let mut m = SimpleModel::new(2, 3, 1);
    let v: Vec<i64> = (1..=13).collect();
    m.from_params_vec(&v);
    m
}

#[test]
fn flatten_concatenates_segments_in_order() {
    let mut m = SimpleModel::new(1, 2, 1);
    // Segment lengths: w1 = 2, b1 = 2, w2 = 2, b2 = 1.
    m.from_params_vec(&vec![1, 2, 3, 4, 5, 6, 7]);
    assert_eq!(m.w1, vec![1, 2]);
    assert_eq!(m.b1, vec![3, 4]);
    assert_eq!(m.w2, vec![5, 6]);
    assert_eq!(m.b2, vec![7]);
    assert_eq!(m.to_params_vec(), vec![1, 2, 3, 4, 5, 6, 7]);
}

#[test]
fn new_model_is_all_zero() {
    let m = SimpleModel::new(2, 3, 1);
    assert_eq!(m.to_params_vec(), vec![0; 13]);
}

#[test]
fn roundtrip_leaves_model_unchanged() {
    let mut m = filled_model();
    let flat = m.to_params_vec();
    assert_eq!(flat.len(), 13);
    m.from_params_vec(&flat.clone());
    assert_eq!(m.to_params_vec(), flat);
}

#[test]
fn shorter_vector_updates_only_a_prefix() {
    let mut m = filled_model();
    m.from_params_vec(&vec![100, 101, 102]);
    let flat = m.to_params_vec();
    assert_eq!(&flat[..3], &[100, 101, 102]);
    let expected_rest: Vec<i64> = (4..=13).collect();
    assert_eq!(&flat[3..], &expected_rest[..]);
}

#[test]
fn longer_vector_excess_is_ignored() {
    let mut m = filled_model();
    let v: Vec<i64> = (100..120).collect();
    m.from_params_vec(&v);
    assert_eq!(m.to_params_vec(), &v[..13]);
}

#[test]
fn empty_vector_changes_nothing() {
    let mut m = filled_model();
    let before = m.to_params_vec();
    m.from_params_vec(&Vec::new());
    assert_eq!(m.to_params_vec(), before);
}
