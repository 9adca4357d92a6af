use chat_engine::InboundFrame;
use chat_engine::LoginResponse;
use chat_engine::SignupResponse;
use chat_engine::HistoryResponse;
use chat_engine::decode_frame;

fn fields(frame: InboundFrame) -> (String, String, Option<String>, Option<String>, Option<Vec<u8>>) {
    match frame {
        InboundFrame::Frame { kind, recipient, content, filename, data } => {
            (kind, recipient, content, filename, data)
        },
        InboundFrame::Malformed => panic!("expected a decoded frame"),
    }
}

#[test]
fn decodes_a_full_message_frame() {
    let (kind, recipient, content, filename, data) = fields(decode_frame(
        "{\"type\":\"message\",\"recipient\":\"bob\",\"content\":\"hi\"}",
    ));
    assert_eq!(kind, "message");
    assert_eq!(recipient, "bob");
    assert_eq!(content, Some("hi".to_string()));
    assert_eq!(filename, None);
    assert_eq!(data, None);
}

#[test]
fn decodes_a_file_frame_with_bytes() {
    let (kind, recipient, content, filename, data) = fields(decode_frame(
        "{\"type\":\"file\",\"recipient\":\"public\",\"filename\":\"a.bin\",\"data\":[0,255,7]}",
    ));
    assert_eq!(kind, "file");
    assert_eq!(recipient, "public");
    assert_eq!(content, None);
    assert_eq!(filename, Some("a.bin".to_string()));
    assert_eq!(data, Some(vec![0u8, 255u8, 7u8]));
}

#[test]
fn null_optional_fields_are_absent() {
    let (_, _, content, filename, data) = fields(decode_frame(
        "{\"type\":\"message\",\"recipient\":\"bob\",\"content\":null,\"filename\":null,\"data\":null}",
    ));
    assert_eq!(content, None);
    assert_eq!(filename, None);
    assert_eq!(data, None);
}

#[test]
fn extra_fields_are_tolerated() {
    let (kind, _, _, _, _) = fields(decode_frame(
        "{\"type\":\"message\",\"recipient\":\"bob\",\"size\":3,\"content_type\":\"text/plain\",\"unknown\":true}",
    ));
    assert_eq!(kind, "message");
}

#[test]
fn duplicate_keys_keep_the_last_value() {
    // The parser's object model folds duplicate keys, last occurrence wins.
    let (kind, recipient, _, _, _) = fields(decode_frame(
        "{\"type\":\"message\",\"type\":\"file\",\"recipient\":\"bob\"}",
    ));
    assert_eq!(kind, "file");
    assert_eq!(recipient, "bob");
}

#[test]
fn rejects_text_that_is_not_json() {
    assert!(matches!(decode_frame("not json at all"), InboundFrame::Malformed));
    assert!(matches!(decode_frame(""), InboundFrame::Malformed));
    assert!(matches!(decode_frame("{\"type\":"), InboundFrame::Malformed));
}

#[test]
fn rejects_frames_of_the_wrong_shape() {
    // Not an object.
    assert!(matches!(decode_frame("[1,2,3]"), InboundFrame::Malformed));
    assert!(matches!(decode_frame("\"hello\""), InboundFrame::Malformed));
    // Required fields missing or mistyped.
    assert!(matches!(
        decode_frame("{\"recipient\":\"bob\"}"),
        InboundFrame::Malformed
    ));
    assert!(matches!(
        decode_frame("{\"type\":\"message\"}"),
        InboundFrame::Malformed
    ));
    assert!(matches!(
        decode_frame("{\"type\":7,\"recipient\":\"bob\"}"),
        InboundFrame::Malformed
    ));
    assert!(matches!(
        decode_frame("{\"type\":\"message\",\"recipient\":null}"),
        InboundFrame::Malformed
    ));
    // Optional fields present with the wrong type.
    assert!(matches!(
        decode_frame("{\"type\":\"message\",\"recipient\":\"bob\",\"content\":5}"),
        InboundFrame::Malformed
    ));
    assert!(matches!(
        decode_frame("{\"type\":\"message\",\"recipient\":\"bob\",\"size\":\"big\"}"),
        InboundFrame::Malformed
    ));
    assert!(matches!(
        decode_frame("{\"type\":\"message\",\"recipient\":\"bob\",\"size\":-1}"),
        InboundFrame::Malformed
    ));
    assert!(matches!(
        decode_frame("{\"type\":\"file\",\"recipient\":\"bob\",\"data\":\"xx\"}"),
        InboundFrame::Malformed
    ));
    // A byte out of range.
    assert!(matches!(
        decode_frame("{\"type\":\"file\",\"recipient\":\"bob\",\"data\":[1,256]}"),
        InboundFrame::Malformed
    ));
    assert!(matches!(
        decode_frame("{\"type\":\"file\",\"recipient\":\"bob\",\"data\":[1,-2]}"),
        InboundFrame::Malformed
    ));
    assert!(matches!(
        decode_frame("{\"type\":\"file\",\"recipient\":\"bob\",\"data\":[1.5]}"),
        InboundFrame::Malformed
    ));
}

#[test]
fn response_models_carry_their_tags() {
    let login = LoginResponse::new("tok-1".to_string());
    assert_eq!(login.msg_type, "login");
    assert_eq!(login.token, "tok-1");

    let signup = SignupResponse::new("welcome".to_string());
    assert_eq!(signup.msg_type, "success");
    assert_eq!(signup.message, "welcome");

    let history = HistoryResponse::new(vec!["a".to_string(), "b".to_string()]);
    assert_eq!(history.msg_type, "history");
    assert_eq!(history.messages, vec!["a".to_string(), "b".to_string()]);
}
