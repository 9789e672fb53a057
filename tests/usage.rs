use howlto::usage::{usage_sum, Usage};

fn usage(i: u64, o: u64, t: u64) -> Usage {
    Usage { input_tokens: i, output_tokens: o, total_tokens: t }
}

#[test]
fn usage_sum_of_absent_is_absent() {
    assert_eq!(usage_sum(None, None), None);
}

#[test]
fn usage_sum_with_one_absent() {
    assert_eq!(usage_sum(Some(usage(1, 2, 3)), None), Some(usage(1, 2, 3)));
    assert_eq!(usage_sum(None, Some(usage(4, 5, 9))), Some(usage(4, 5, 9)));
}

#[test]
fn usage_sum_adds_each_field() {
    assert_eq!(
        usage_sum(Some(usage(10, 20, 30)), Some(usage(1, 2, 3))),
        Some(usage(11, 22, 33))
    );
}

#[test]
fn usage_sum_saturates() {
    assert_eq!(
        usage_sum(Some(usage(u64::MAX, 1, 2)), Some(usage(1, 1, 1))),
        Some(usage(u64::MAX, 2, 3))
    );
}
