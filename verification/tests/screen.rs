use mail_relay::screen::{fits, headers_return_on, returns_on, PARSE_LIMIT};

fn consulted(text: &str) -> bool {
    returns_on(&text.as_bytes().to_vec())
}

#[test]
fn an_ordinary_letter_goes_to_the_full_parser() {
    assert!(consulted("From: a@example.org\r\nSubject: Hello\r\n\r\nHi.\r\n"));
}

#[test]
fn nothing_at_all_goes_to_the_full_parser() {
    assert!(consulted(""));
}

#[test]
fn the_word_multipart_keeps_a_message_away() {
    assert!(!consulted("Content-Type: multipart/mixed; boundary=b\n\n--b--\n"));
    assert!(!consulted("multipart"));
    assert!(!consulted("xxmultipartxx"));
}

#[test]
fn the_word_multipart_is_found_in_any_case() {
    assert!(!consulted("Content-Type: MULTIPART/MIXED"));
    assert!(!consulted("mUlTiPaRt"));
}

#[test]
fn the_word_multipart_is_found_at_the_very_end() {
    assert!(!consulted("Subject: x\n\nmultipart"));
    assert!(consulted("Subject: x\n\nmultipar"));
}

#[test]
fn a_broken_word_multipart_does_not_count() {
    assert!(consulted("multi part"));
    assert!(consulted("multi-part"));
    assert!(consulted("multipar\nt"));
}

#[test]
fn a_message_id_header_does_not_keep_a_message_away() {
    assert!(consulted("Message-ID: <1@example.org>\nSubject: a message\n\nThis message is short.\n"));
}

#[test]
fn a_message_content_type_keeps_a_message_away() {
    assert!(!consulted("Content-Type: message/rfc822\n\nSubject: x\n\n"));
    assert!(!consulted("Content-Type: MESSAGE/global\n\n"));
    assert!(!consulted("message/"));
}

#[test]
fn padding_between_message_and_slash_is_seen_through() {
    assert!(!consulted("message /rfc822"));
    assert!(!consulted("message \t\r\n \"\\/rfc822"));
}

#[test]
fn a_comment_after_message_keeps_a_message_away() {
    assert!(!consulted("Content-Type: message(really)/rfc822"));
    assert!(!consulted("message ("));
}

#[test]
fn the_word_message_alone_does_not_keep_a_message_away() {
    assert!(consulted("message"));
    assert!(consulted("message "));
    assert!(consulted("message; x"));
    assert!(consulted("messages/inbox"));
    assert!(consulted("message x/y"));
    assert!(consulted("essage/rfc822"));
}

#[test]
fn a_later_message_type_is_found_after_an_earlier_harmless_one() {
    assert!(!consulted("this message is fine\nContent-Type: message/rfc822\n"));
}

#[test]
fn short_messages_fit() {
    assert!(fits(&Vec::new()));
    assert!(fits(&vec![0u8; 70000]));
}

#[test]
fn the_limit_is_two_gibibytes() {
    assert_eq!(PARSE_LIMIT, 2147483647);
}

fn headers_consulted(text: &str) -> bool {
    headers_return_on(&text.as_bytes().to_vec())
}

#[test]
fn the_least_integer_keeps_a_message_away_from_both_parsers() {
    assert!(!headers_consulted("Received: by b; 1 2 3 4 5 6 -9223372036854775808\n"));
    assert!(!consulted("Received: by b; 1 2 3 4 5 6 -9223372036854775808\n"));
    assert!(!headers_consulted("-9223372036854775808"));
}

#[test]
fn zeros_before_the_digits_are_seen_through() {
    assert!(!headers_consulted("x -09223372036854775808 y"));
    assert!(!headers_consulted("x -00000009223372036854775808"));
}

#[test]
fn other_integers_keep_nothing_away() {
    assert!(headers_consulted("-9223372036854775807"));
    assert!(headers_consulted("9223372036854775808"));
    assert!(headers_consulted("+9223372036854775808"));
    assert!(headers_consulted("- 9223372036854775808"));
    assert!(headers_consulted("-19223372036854775808"));
    assert!(headers_consulted("-922337203685477580"));
    assert!(headers_consulted("-0"));
    assert!(headers_consulted("--"));
    assert!(headers_consulted(""));
}

#[test]
fn a_multipart_message_still_has_its_headers_read() {
    assert!(headers_consulted("Content-Type: multipart/mixed; boundary=b\n\n--b--\n"));
    assert!(headers_consulted("Content-Type: message/rfc822\n\n"));
}

#[test]
fn a_minus_sign_at_the_very_end_keeps_nothing_away() {
    assert!(headers_consulted("x-"));
    assert!(headers_consulted("x-000"));
}
