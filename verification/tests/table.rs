use lut_extractor::table::{locate_slope_window, subsample_indices, TableError};

/// Per-sample predicates of a table, as `locate_slope_window` takes them:
/// whether each sample is strictly positive, and whether it strictly exceeds
/// its predecessor.
fn flags(table: &[f32]) -> (Vec<bool>, Vec<bool>) {
    let positive: Vec<bool> = table.iter().map(|y| *y > 0.0).collect();
    let rising: Vec<bool> = (0..table.len())
        .map(|k| k >= 1 && table[k] > table[k - 1])
        .collect();
    (positive, rising)
}

#[test]
fn empty_table_is_too_short() {
    let (positive, rising) = flags(&[]);
    assert_eq!(
        locate_slope_window(&positive, &rising),
        Err(TableError::TooShort)
    );
}

#[test]
fn single_sample_table_is_too_short() {
    let (positive, rising) = flags(&[0.7]);
    assert_eq!(
        locate_slope_window(&positive, &rising),
        Err(TableError::TooShort)
    );
}

#[test]
fn all_zero_table_is_rejected() {
    let (positive, rising) = flags(&[0.0, 0.0, 0.0, 0.0]);
    assert_eq!(
        locate_slope_window(&positive, &rising),
        Err(TableError::AllZero)
    );
}

#[test]
fn equal_first_two_values_are_rejected() {
    let (positive, rising) = flags(&[0.5, 0.5, 0.9]);
    assert_eq!(
        locate_slope_window(&positive, &rising),
        Err(TableError::NotIncreasing)
    );
}

#[test]
fn decreasing_table_is_rejected() {
    let (positive, rising) = flags(&[0.9, 0.5, 0.1]);
    assert_eq!(
        locate_slope_window(&positive, &rising),
        Err(TableError::NotIncreasing)
    );
}

#[test]
fn crossing_after_a_zero_prefix_always_rises() {
    // A strictly positive sample after a zero prefix exceeds its
    // predecessor by itself, so these are accepted even with flat
    // stretches elsewhere.
    let (positive, rising) = flags(&[0.0, 0.0, 0.3, 0.3]);
    assert_eq!(locate_slope_window(&positive, &rising), Ok(2));
    let (positive, rising) = flags(&[0.0, 0.3, 0.3, 0.4]);
    assert_eq!(locate_slope_window(&positive, &rising), Ok(1));
}

#[test]
fn positive_from_the_start_picks_the_second_sample() {
    let (positive, rising) = flags(&[0.1, 0.2, 0.4, 0.8]);
    assert_eq!(locate_slope_window(&positive, &rising), Ok(1));
}

#[test]
fn zero_prefix_is_skipped() {
    let (positive, rising) = flags(&[0.0, 0.0, 0.0, 0.25, 0.5]);
    assert_eq!(locate_slope_window(&positive, &rising), Ok(3));
}

#[test]
fn subsampling_strides_through_the_table() {
    assert_eq!(subsample_indices(10, 3), vec![0, 3, 6, 9]);
    assert_eq!(subsample_indices(9, 3), vec![0, 3, 6]);
    assert_eq!(subsample_indices(4096, 16).len(), 256);
    assert_eq!(subsample_indices(4096, 16)[255], 255 * 16);
}

#[test]
fn subsampling_edge_sizes() {
    assert_eq!(subsample_indices(0, 4), Vec::<usize>::new());
    assert_eq!(subsample_indices(1, 4), vec![0]);
    assert_eq!(subsample_indices(4, 1), vec![0, 1, 2, 3]);
    assert_eq!(subsample_indices(5, 8), vec![0]);
}
