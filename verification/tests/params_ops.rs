use fedlearn::params::{accumulate, avg_elem, average_in_place};

#[test]
fn avg_elem_rounds_toward_zero() {
    assert_eq!(avg_elem(7, 2), 3);
    assert_eq!(avg_elem(-7, 2), -3);
    assert_eq!(avg_elem(6, 2), 3);
    assert_eq!(avg_elem(-6, 2), -3);
    assert_eq!(avg_elem(0, 5), 0);
}

#[test]
fn avg_elem_handles_the_extreme_values() {
    assert_eq!(avg_elem(i64::MIN, 1), i64::MIN);
    assert_eq!(avg_elem(i64::MIN, 2), i64::MIN / 2);
    assert_eq!(avg_elem(i64::MAX, 1), i64::MAX);
}

#[test]
fn accumulate_adds_over_the_shorter_length() {
    let mut acc = vec![1, 1, 1];
    accumulate(&mut acc, &vec![5, 5]);
    assert_eq!(acc, vec![6, 6, 1]);

    let mut acc = vec![1, 1];
    accumulate(&mut acc, &vec![5, 5, 5]);
    assert_eq!(acc, vec![6, 6]);

    let mut acc = vec![1, 2];
    accumulate(&mut acc, &Vec::new());
    assert_eq!(acc, vec![1, 2]);
}

#[test]
fn average_in_place_divides_every_element() {
    let mut acc = vec![6, 10, -9];
    average_in_place(&mut acc, 2);
    assert_eq!(acc, vec![3, 5, -4]);
}
