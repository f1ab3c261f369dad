use mail_relay::error::CycleError;
use mail_relay::fetch::unseen_records;
use mail_relay::message::UnseenRecord;

fn record(uid: u32) -> UnseenRecord {
    UnseenRecord { uid: Some(uid), body: Some(format!("Subject: {}\r\n\r\n", uid).into_bytes()) }
}

#[test]
fn a_complete_answer_is_handed_on_unchanged() {
    let uids: Vec<u32> = vec![101, 102];
    let records = vec![record(101), record(102)];
    assert_eq!(unseen_records(&uids, records.clone()), Ok(records));
}

#[test]
fn the_order_of_the_answer_is_kept() {
    let uids: Vec<u32> = vec![101, 102, 103];
    let records = vec![record(103), record(101), record(102)];
    assert_eq!(unseen_records(&uids, records.clone()), Ok(records));
}

#[test]
fn an_answer_may_hold_more_than_was_asked_for() {
    let uids: Vec<u32> = vec![101];
    let records = vec![UnseenRecord { uid: None, body: None }, record(7), record(101)];
    assert_eq!(unseen_records(&uids, records.clone()), Ok(records));
}

#[test]
fn a_uid_without_record_is_a_fetch_failure() {
    let uids: Vec<u32> = vec![101, 102];
    let records = vec![record(101)];
    assert_eq!(unseen_records(&uids, records), Err(CycleError::Fetch));
}

#[test]
fn a_uid_whose_record_has_no_body_is_a_fetch_failure() {
    let uids: Vec<u32> = vec![101, 102];
    let records = vec![record(101), UnseenRecord { uid: Some(102), body: None }];
    assert_eq!(unseen_records(&uids, records), Err(CycleError::Fetch));
}

#[test]
fn a_body_without_uid_answers_for_no_uid() {
    let uids: Vec<u32> = vec![101];
    let records = vec![UnseenRecord { uid: None, body: Some(b"Subject: x\r\n\r\n".to_vec()) }];
    assert_eq!(unseen_records(&uids, records), Err(CycleError::Fetch));
}

#[test]
fn a_second_record_with_body_makes_up_for_a_first_without() {
    let uids: Vec<u32> = vec![101];
    let records = vec![UnseenRecord { uid: Some(101), body: None }, record(101)];
    assert_eq!(unseen_records(&uids, records.clone()), Ok(records));
}

#[test]
fn an_empty_answer_to_an_empty_question_is_complete() {
    let uids: Vec<u32> = vec![];
    assert_eq!(unseen_records(&uids, vec![]), Ok(vec![]));
}

#[test]
fn an_empty_answer_to_a_question_is_a_fetch_failure() {
    let uids: Vec<u32> = vec![1];
    assert_eq!(unseen_records(&uids, vec![]), Err(CycleError::Fetch));
}

#[test]
fn a_uid_asked_for_twice_needs_one_body() {
    let uids: Vec<u32> = vec![5, 5];
    let records = vec![record(5)];
    assert_eq!(unseen_records(&uids, records.clone()), Ok(records));
}
