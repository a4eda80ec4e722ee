use kasa_power::stats::{median_and_mean_value, sum_fits, Mean};

#[test]
fn nothing_has_no_median() {
    assert_eq!(median_and_mean_value(vec![]), None);
}

#[test]
fn odd_count_has_its_middle() {
    assert_eq!(
        median_and_mean_value(vec![9, 1, 5]),
        Some((5, Mean { sum: 15, count: 3 }))
    );
    assert_eq!(median_and_mean_value(vec![42]), Some((42, Mean { sum: 42, count: 1 })));
}

#[test]
fn even_count_has_the_mean_of_its_middle_rounded_down() {
    assert_eq!(
        median_and_mean_value(vec![10, 1, 4, 3]),
        Some((3, Mean { sum: 18, count: 4 }))
    );
    assert_eq!(median_and_mean_value(vec![2, 8]), Some((5, Mean { sum: 10, count: 2 })));
}

#[test]
fn order_of_the_values_does_not_matter() {
    let expected = median_and_mean_value(vec![1, 2, 2, 3, 100]);
    assert_eq!(expected, Some((2, Mean { sum: 108, count: 5 })));
    assert_eq!(median_and_mean_value(vec![100, 2, 3, 1, 2]), expected);
    assert_eq!(median_and_mean_value(vec![2, 100, 1, 2, 3]), expected);
}

#[test]
fn statistics_of_equal_values_are_that_value() {
    let (median, mean) = median_and_mean_value(vec![7, 7, 7, 7]).unwrap();
    assert_eq!(median, 7);
    assert_eq!(mean.sum as f64 / mean.count as f64, 7.0);
}

#[test]
fn sums_up_to_the_largest_number_fit() {
    assert!(sum_fits(&vec![u64::MAX]));
    assert!(sum_fits(&vec![u64::MAX - 1, 1]));
    assert!(!sum_fits(&vec![u64::MAX, 1]));
    assert!(sum_fits(&vec![]));
    assert_eq!(
        median_and_mean_value(vec![u64::MAX - 1, 1]),
        Some((u64::MAX / 2, Mean { sum: u64::MAX, count: 2 }))
    );
}
