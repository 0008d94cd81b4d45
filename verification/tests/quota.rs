use storage_gateway::quota::{check_quota, count_pages, has_exceeded_limit, quota_status, QuotaDecision, QuotaStatus};

#[test]
fn has_exceeded_limit_compares_the_count_with_the_limit() {
    assert!(!has_exceeded_limit(0, 1));
    assert!(!has_exceeded_limit(2, 3));
    assert!(has_exceeded_limit(3, 3));
    assert!(has_exceeded_limit(4, 3));
    assert!(has_exceeded_limit(0, 0));
    assert!(has_exceeded_limit(usize::MAX, usize::MAX));
    assert!(!has_exceeded_limit(usize::MAX - 1, usize::MAX));
}

#[test]
fn check_quota_allows_below_the_limit_only() {
    assert_eq!(check_quota(2, 3), QuotaDecision { allowed: true, used: 2 });
    assert_eq!(check_quota(3, 3), QuotaDecision { allowed: false, used: 3 });
    assert_eq!(check_quota(7, 3), QuotaDecision { allowed: false, used: 7 });
    assert_eq!(check_quota(0, 0), QuotaDecision { allowed: false, used: 0 });
    assert_eq!(check_quota(0, 5), QuotaDecision { allowed: true, used: 0 });
}

#[test]
fn quota_status_reports_both_numbers() {
    assert_eq!(quota_status(2, 5), QuotaStatus { used: 2, limit: 5 });
    assert_eq!(quota_status(9, 0), QuotaStatus { used: 9, limit: 0 });
}

#[test]
fn count_pages_sums_the_pages() {
    assert_eq!(count_pages(&vec![]), 0);
    assert_eq!(count_pages(&vec![0]), 0);
    assert_eq!(count_pages(&vec![1000, 1000, 17]), 2017);
    assert_eq!(count_pages(&vec![3]), 3);
}

#[test]
fn count_pages_stops_at_the_largest_count() {
    assert_eq!(count_pages(&vec![usize::MAX, 1]), usize::MAX);
    assert_eq!(count_pages(&vec![usize::MAX - 1, 1, 5]), usize::MAX);
    assert!(has_exceeded_limit(count_pages(&vec![usize::MAX, usize::MAX]), usize::MAX));
}
