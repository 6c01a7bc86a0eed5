use secure_openaiapi::{
    FieldName, SecureContentPart, SecureError, SecureMessage, Value, WireContent, WireImageUrl,
    WireMessage, WirePart,
};

fn text(s: &str) -> Value {
    Value::Text(s.to_string())
}

fn bytes(b: &[u8]) -> Value {
    Value::Bytes(b.to_vec())
}

fn record(fields: Vec<(&str, Value)>) -> Value {
    Value::Record(fields.into_iter().map(|(k, v)| (k.to_string(), v)).collect())
}

fn text_part(b: &[u8]) -> Value {
    record(vec![("type", text("text")), ("text", bytes(b))])
}

fn image_part(b: &[u8]) -> Value {
    record(vec![("type", text("image_url")), ("image_url", record(vec![("url", bytes(b))]))])
}

fn build_error(list: &[Value]) -> SecureError {
    SecureMessage::new(b"user", list).err().unwrap()
}

fn wire_text(s: &str) -> WirePart<'_> {
    WirePart::Text { text: s }
}

fn wire_image(s: &str) -> WirePart<'_> {
    WirePart::ImageUrl { image_url: WireImageUrl { url: s } }
}

#[test]
fn single_text_part_serializes_as_plain_string() {
    let message = SecureMessage::new(b"user", &[text_part(b"hello")]).ok().unwrap();
    let expected = WireMessage { role: "user", content: WireContent::Text("hello") };
    assert!(message.to_wire() == Ok(expected));
}

#[test]
fn two_parts_serialize_as_ordered_list() {
    let list = [text_part(b"a"), image_part(b"http://x")];
    let message = SecureMessage::new(b"user", &list).ok().unwrap();
    let expected = WireMessage {
        role: "user",
        content: WireContent::Parts(vec![wire_text("a"), wire_image("http://x")]),
    };
    assert!(message.to_wire() == Ok(expected));
    let reversed = [image_part(b"http://x"), text_part(b"a")];
    let message = SecureMessage::new(b"user", &reversed).ok().unwrap();
    assert!(
        message.to_wire().unwrap().content
            == WireContent::Parts(vec![wire_image("http://x"), wire_text("a")])
    );
}

#[test]
fn zero_parts_serialize_as_empty_list() {
    let message = SecureMessage::new(b"system", &[]).ok().unwrap();
    let expected = WireMessage { role: "system", content: WireContent::Parts(vec![]) };
    assert!(message.to_wire() == Ok(expected));
    assert!(message.to_wire().unwrap().content != WireContent::Text(""));
}

#[test]
fn single_image_part_serializes_as_list() {
    let message = SecureMessage::new(b"user", &[image_part(b"http://x/y.png")]).ok().unwrap();
    assert!(
        message.to_wire().unwrap().content == WireContent::Parts(vec![wire_image("http://x/y.png")])
    );
}

#[test]
fn two_text_parts_serialize_as_list() {
    let message =
        SecureMessage::new(b"user", &[text_part(b"a"), text_part(b"b")]).ok().unwrap();
    assert!(
        message.to_wire().unwrap().content
            == WireContent::Parts(vec![wire_text("a"), wire_text("b")])
    );
}

#[test]
fn the_shape_does_not_depend_on_the_bytes() {
    for body in ["", "[]", "[{\"type\":\"text\"}]", "\u{1f600}"] {
        let message = SecureMessage::new(b"user", &[text_part(body.as_bytes())]).ok().unwrap();
        assert!(message.to_wire().unwrap().content == WireContent::Text(body));
    }
}

#[test]
fn new_keeps_role_and_parts() {
    let list = [text_part(b"a"), image_part(&[0xff, 0x00])];
    let message = SecureMessage::new(&[0x80, b'r'], &list).ok().unwrap();
    assert_eq!(message.role().as_bytes(), &[0x80, b'r']);
    let parts = message.content();
    assert_eq!(parts.len(), 2);
    assert!(matches!(&parts[0], SecureContentPart::Text { text } if text.as_bytes() == b"a"));
    assert!(
        matches!(&parts[1], SecureContentPart::ImageUrl { url } if url.as_bytes() == [0xff, 0x00])
    );
    assert_eq!(parts[1].payload().as_bytes(), &[0xff, 0x00]);
}

#[test]
fn bogus_type_fails_with_unsupported_content_type() {
    let list = [record(vec![("type", text("bogus"))])];
    let result = SecureMessage::new(b"user", &list);
    assert!(result.is_err());
    assert_eq!(result.err(), Some(SecureError::UnsupportedContentType("bogus".to_string())));
}

#[test]
fn type_names_are_matched_exactly() {
    for kind in ["", "Text", "text ", "image", "image-url", "IMAGE_URL"] {
        let list = [record(vec![("type", text(kind)), ("text", bytes(b"x"))])];
        assert_eq!(build_error(&list), SecureError::UnsupportedContentType(kind.to_string()));
    }
}

#[test]
fn missing_fields_are_named() {
    assert_eq!(
        build_error(&[record(vec![("text", bytes(b"x"))])]),
        SecureError::MissingField(FieldName::Type)
    );
    assert_eq!(build_error(&[record(vec![])]), SecureError::MissingField(FieldName::Type));
    assert_eq!(
        build_error(&[record(vec![("type", text("text"))])]),
        SecureError::MissingField(FieldName::Text)
    );
    assert_eq!(
        build_error(&[record(vec![("type", text("image_url")), ("url", bytes(b"x"))])]),
        SecureError::MissingField(FieldName::ImageUrl)
    );
    assert_eq!(
        build_error(&[record(vec![("type", text("image_url")), ("image_url", record(vec![]))])]),
        SecureError::MissingField(FieldName::Url)
    );
}

#[test]
fn fields_of_the_wrong_kind_are_named() {
    assert_eq!(
        build_error(&[record(vec![("type", bytes(b"text")), ("text", bytes(b"x"))])]),
        SecureError::WrongKind(FieldName::Type)
    );
    assert_eq!(
        build_error(&[record(vec![("type", text("text")), ("text", text("x"))])]),
        SecureError::WrongKind(FieldName::Text)
    );
    assert_eq!(
        build_error(&[record(vec![("type", text("text")), ("text", Value::Other)])]),
        SecureError::WrongKind(FieldName::Text)
    );
    assert_eq!(
        build_error(&[record(vec![("type", text("image_url")), ("image_url", bytes(b"x"))])]),
        SecureError::WrongKind(FieldName::ImageUrl)
    );
    assert_eq!(
        build_error(&[record(vec![
            ("type", text("image_url")),
            ("image_url", record(vec![("url", text("http://x"))])),
        ])]),
        SecureError::WrongKind(FieldName::Url)
    );
}

#[test]
fn an_entry_that_is_no_record_is_refused() {
    assert_eq!(build_error(&[Value::Other]), SecureError::NotARecord);
    assert_eq!(build_error(&[bytes(b"text")]), SecureError::NotARecord);
    assert_eq!(build_error(&[text("text")]), SecureError::NotARecord);
}

#[test]
fn the_first_invalid_entry_decides_the_error() {
    let list = [
        text_part(b"fine"),
        record(vec![("type", text("bogus"))]),
        Value::Other,
        record(vec![("type", text("text"))]),
    ];
    assert_eq!(build_error(&list), SecureError::UnsupportedContentType("bogus".to_string()));
    let list = [Value::Other, record(vec![("type", text("bogus"))])];
    assert_eq!(build_error(&list), SecureError::NotARecord);
}

#[test]
fn one_invalid_entry_leaves_no_message() {
    let list = [text_part(b"a"), image_part(b"b"), record(vec![("type", text("video"))])];
    assert!(SecureMessage::new(b"user", &list).is_err());
}

#[test]
fn fields_that_are_not_asked_for_are_ignored() {
    let list = [record(vec![
        ("extra", Value::Other),
        ("text", bytes(b"hi")),
        ("image_url", Value::Other),
        ("type", text("text")),
    ])];
    let message = SecureMessage::new(b"user", &list).ok().unwrap();
    assert!(message.to_wire().unwrap().content == WireContent::Text("hi"));
}

#[test]
fn the_first_of_two_entries_with_one_name_counts() {
    let list = [record(vec![
        ("type", text("text")),
        ("type", text("bogus")),
        ("text", bytes(b"one")),
        ("text", bytes(b"two")),
    ])];
    let message = SecureMessage::new(b"user", &list).ok().unwrap();
    assert_eq!(message.content()[0].payload().as_bytes(), b"one");
}

#[test]
fn to_wire_refuses_bytes_that_are_not_text() {
    let expected = Some(SecureError::Decode("UTF-8 decode error".to_string()));
    let bad_role = SecureMessage::new(&[0xff], &[text_part(b"a")]).ok().unwrap();
    assert_eq!(bad_role.to_wire().err(), expected);
    let bad_text = SecureMessage::new(b"user", &[text_part(&[0xff])]).ok().unwrap();
    assert_eq!(bad_text.to_wire().err(), expected);
    let bad_url =
        SecureMessage::new(b"user", &[text_part(b"a"), image_part(&[0xc3])]).ok().unwrap();
    assert_eq!(bad_url.to_wire().err(), expected);
    let bad_only_image = SecureMessage::new(b"user", &[image_part(&[0xc3])]).ok().unwrap();
    assert_eq!(bad_only_image.to_wire().err(), expected);
}

#[test]
fn part_to_wire_keeps_the_tag() {
    let part = SecureContentPart::from_description(&text_part(b"t")).ok().unwrap();
    assert!(part.to_wire() == Ok(wire_text("t")));
    let part = SecureContentPart::from_description(&image_part(b"u")).ok().unwrap();
    assert!(part.to_wire() == Ok(wire_image("u")));
}

#[test]
fn wipe_zero_fills_every_buffer_of_a_message() {
    let list = [text_part(b"abc"), image_part(b"http://x"), text_part(b"")];
    let mut message = SecureMessage::new(b"user", &list).ok().unwrap();
    message.wipe();
    assert_eq!(message.role().as_bytes(), &[0u8; 4]);
    let parts = message.content();
    assert_eq!(parts.len(), 3);
    assert!(matches!(&parts[0], SecureContentPart::Text { text } if text.as_bytes() == [0u8; 3]));
    assert!(
        matches!(&parts[1], SecureContentPart::ImageUrl { url } if url.as_bytes() == [0u8; 8])
    );
    assert!(matches!(&parts[2], SecureContentPart::Text { text } if text.is_empty()));
}

#[test]
fn message_rendering_is_a_fixed_placeholder() {
    let first = SecureMessage::new(b"user", &[text_part(b"my password")]).ok().unwrap();
    let second = SecureMessage::new(b"system", &[]).ok().unwrap();
    assert_eq!(first.redacted(), "SecureMessage(****)");
    assert_eq!(second.redacted(), "SecureMessage(****)");
    assert!(!first.redacted().contains("password"));
    assert!(!first.redacted().contains("user"));
}

#[test]
fn a_cloned_message_has_buffers_of_its_own() {
    let list = [text_part(b"a"), image_part(b"http://x")];
    let source = SecureMessage::new(b"user", &list).ok().unwrap();
    let mut copy = source.clone();
    assert!(copy.to_wire() == source.to_wire());
    copy.wipe();
    assert_eq!(source.role().as_bytes(), b"user");
    assert_eq!(source.content()[1].payload().as_bytes(), b"http://x");
    assert_eq!(copy.role().as_bytes(), &[0u8; 4]);
}

#[test]
fn a_message_comes_apart_into_role_and_payloads_in_order() {
    let list = [text_part(b"a"), image_part(b"http://x"), text_part(b"")];
    let message = SecureMessage::new(b"user", &list).ok().unwrap();
    let buffers = message.into_buffers();
    let contents: Vec<&[u8]> = buffers.iter().map(|buffer| buffer.as_bytes()).collect();
    assert_eq!(contents, vec![&b"user"[..], &b"a"[..], &b"http://x"[..], &b""[..]]);
    let message = SecureMessage::new(b"", &[]).ok().unwrap();
    let buffers = message.into_buffers();
    assert_eq!(buffers.len(), 1);
    assert!(buffers[0].is_empty());
}

#[test]
fn a_part_comes_apart_into_its_buffer() {
    let part = SecureContentPart::from_description(&image_part(b"u")).ok().unwrap();
    assert_eq!(part.into_buffer().as_bytes(), b"u");
}
