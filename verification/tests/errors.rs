use mail_relay::error::CycleError;

#[test]
fn every_error_kind_has_its_own_description() {
    let kinds = vec![
        CycleError::Connection,
        CycleError::Auth,
        CycleError::Mailbox,
        CycleError::Fetch,
        CycleError::Parse,
        CycleError::Send,
        CycleError::Store,
    ];
    for (i, first) in kinds.iter().enumerate() {
        assert!(!first.describe().is_empty());
        for second in kinds.iter().skip(i + 1) {
            assert_ne!(first.describe(), second.describe());
        }
    }
}

#[test]
fn a_parse_failure_says_so() {
    assert_eq!(CycleError::Parse.describe(), "could not parse message");
}

#[test]
fn error_kinds_compare_by_kind() {
    assert_eq!(CycleError::Send, CycleError::Send);
    assert_ne!(CycleError::Send, CycleError::Store);
}
