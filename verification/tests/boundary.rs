use zdict_safe::OutBuffer;
use zdict_safe::Parameters;
use zdict_safe::SampleSet;
use zdict_safe::apply_engine_result;
use zdict_safe::checked_sum;
use zdict_safe::is_error;
use zdict_safe::parse_code;
use zdict_safe::sample_set_consistent;

#[test]
fn parse_code_wraps_non_error_as_success() {
    assert_eq!(parse_code(0, false), Ok(0));
    assert_eq!(parse_code(123, false), Ok(123));
    assert_eq!(parse_code(usize::MAX, false), Ok(usize::MAX));
}

#[test]
fn parse_code_wraps_error_as_failure() {
    assert_eq!(parse_code(0, true), Err(0));
    assert_eq!(parse_code(7, true), Err(7));
    assert_eq!(parse_code(usize::MAX, true), Err(usize::MAX));
}

#[test]
fn is_error_decodes_c_boolean() {
    assert!(!is_error(0));
    assert!(is_error(1));
    assert!(is_error(2));
    assert!(is_error(u32::MAX));
}

#[test]
fn checked_sum_of_nothing_is_zero() {
    assert_eq!(checked_sum(&[]), Some(0));
}

#[test]
fn checked_sum_adds_up() {
    assert_eq!(checked_sum(&[100; 10]), Some(1000));
    assert_eq!(checked_sum(&[1, 2, 3]), Some(6));
}

#[test]
fn checked_sum_reports_overflow() {
    assert_eq!(checked_sum(&[usize::MAX, 1]), None);
    assert_eq!(checked_sum(&[usize::MAX, usize::MAX]), None);
}

#[test]
fn consistency_holds_for_matching_totals() {
    let samples = vec![0u8; 1000];
    let sizes = [100usize; 10];
    assert!(sample_set_consistent(&samples, &sizes));
}

#[test]
fn consistency_holds_for_empty_corpus() {
    assert!(sample_set_consistent(&[], &[]));
}

#[test]
fn consistency_fails_for_mismatched_totals() {
    let samples = vec![0u8; 999];
    let sizes = [100usize; 10];
    assert!(!sample_set_consistent(&samples, &sizes));
    assert!(!sample_set_consistent(&samples, &[]));
    assert!(!sample_set_consistent(&[], &[1]));
}

#[test]
fn sample_set_accepts_consistent_input() {
    let set = SampleSet::new(vec![9, 8, 7], vec![1, 2]).expect("consistent");
    assert_eq!(set.samples().as_slice(), &[9, 8, 7]);
    assert_eq!(set.sizes().as_slice(), &[1, 2]);
    assert_eq!(set.sample_count(), 2);
}

#[test]
fn sample_set_rejects_mismatched_input() {
    assert!(SampleSet::new(vec![9, 8, 7], vec![1, 1]).is_none());
    assert!(SampleSet::new(vec![], vec![1]).is_none());
}

#[test]
fn fresh_buffer_has_capacity_and_nothing_committed() {
    let buffer = OutBuffer::with_capacity(1024);
    assert_eq!(buffer.capacity(), 1024);
    assert_eq!(buffer.committed_len(), 0);
    assert!(buffer.dict_bytes().is_empty());
}

#[test]
fn success_commits_exactly_the_reported_count() {
    let mut buffer = OutBuffer::with_capacity(1024);
    let result = apply_engine_result(&mut buffer, 512, 0);
    assert_eq!(result, Ok(512));
    assert_eq!(buffer.committed_len(), 512);
    assert!(buffer.committed_len() <= buffer.capacity());
    assert_eq!(buffer.dict_bytes().len(), 512);
}

#[test]
fn failure_commits_nothing() {
    let mut buffer = OutBuffer::with_capacity(1024);
    let result = apply_engine_result(&mut buffer, 77, 1);
    assert_eq!(result, Err(77));
    assert_eq!(buffer.committed_len(), 0);
}

#[test]
fn success_report_beyond_capacity_is_a_failure() {
    let mut buffer = OutBuffer::with_capacity(1);
    let result = apply_engine_result(&mut buffer, 5, 0);
    assert_eq!(result, Err(5));
    assert_eq!(buffer.committed_len(), 0);
}

#[test]
fn dict_bytes_is_the_committed_prefix() {
    let mut buffer = OutBuffer::with_capacity(4);
    let region = buffer.region_mut();
    region[0] = 10;
    region[1] = 20;
    region[2] = 30;
    region[3] = 40;
    let result = apply_engine_result(&mut buffer, 3, 0);
    assert_eq!(result, Ok(3));
    assert_eq!(buffer.dict_bytes(), vec![10, 20, 30]);
}

#[test]
fn default_parameters_are_all_zero() {
    let defaults = Parameters::default();
    let explicit = Parameters { compression_level: 0, notification_level: 0, dict_id: 0 };
    assert_eq!(defaults, explicit);
    assert_eq!(defaults.compression_level, 0);
    assert_eq!(defaults.notification_level, 0);
    assert_eq!(defaults.dict_id, 0);
}
