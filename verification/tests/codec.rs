use urbandictionary::{
    decode_payload, decode_response, encode_definition, encode_response, parse_json, DecodeError,
    Definition, Error, JsonValue, Response,
};

fn sample_definition() -> Definition {
    Definition {
        author: String::from("kats"),
        definition: String::from("a small feline"),
        example: String::from("the cat sat on the mat"),
        id: 123,
        permalink: String::from("http://cat.urbanup.com/123"),
        thumbs_down: 2,
        thumbs_up: 50,
        word: String::from("cat"),
    }
}

fn definition_entries(word: &str, defid: JsonValue) -> Vec<(String, JsonValue)> {
    vec![
        (String::from("author"), JsonValue::Str(String::from("kats"))),
        (String::from("definition"), JsonValue::Str(String::from("a small feline"))),
        (String::from("example"), JsonValue::Str(String::from("the cat sat on the mat"))),
        (String::from("defid"), defid),
        (String::from("permalink"), JsonValue::Str(String::from("http://cat.urbanup.com/123"))),
        (String::from("thumbs_down"), JsonValue::Num(Some(2))),
        (String::from("thumbs_up"), JsonValue::Num(Some(50))),
        (String::from("word"), JsonValue::Str(String::from(word))),
    ]
}

fn response_payload(definitions: Vec<JsonValue>, tags: Vec<JsonValue>) -> JsonValue {
    JsonValue::Obj(vec![
        (String::from("list"), JsonValue::Arr(definitions)),
        (String::from("tags"), JsonValue::Arr(tags)),
    ])
}

#[test]
fn decode_empty_lists_is_not_an_error() {
    let payload = response_payload(vec![], vec![]);
    let decoded = decode_response(&payload).unwrap();
    assert!(decoded.definitions.is_empty());
    assert!(decoded.tags.is_empty());
}

#[test]
fn decode_missing_list_fails() {
    let payload = JsonValue::Obj(vec![(String::from("tags"), JsonValue::Arr(vec![]))]);
    let err = decode_response(&payload).unwrap_err();
    assert_eq!(err, DecodeError::MissingField(String::from("list")));
}

#[test]
fn decode_missing_tags_fails() {
    let payload = JsonValue::Obj(vec![(String::from("list"), JsonValue::Arr(vec![]))]);
    let err = decode_response(&payload).unwrap_err();
    assert_eq!(err, DecodeError::MissingField(String::from("tags")));
}

#[test]
fn decode_defid_string_is_a_type_mismatch() {
    let def = JsonValue::Obj(definition_entries("cat", JsonValue::Str(String::from("123"))));
    let payload = response_payload(vec![def], vec![]);
    let err = decode_response(&payload).unwrap_err();
    assert_eq!(err, DecodeError::TypeMismatch(String::from("defid")));
}

#[test]
fn decode_top_level_not_object_fails() {
    let payload = JsonValue::Arr(vec![JsonValue::Num(Some(1))]);
    let err = decode_response(&payload).unwrap_err();
    assert_eq!(err, DecodeError::ExpectedObject);
}

#[test]
fn decode_list_not_array_fails() {
    let payload = JsonValue::Obj(vec![
        (String::from("list"), JsonValue::Num(Some(5))),
        (String::from("tags"), JsonValue::Arr(vec![])),
    ]);
    let err = decode_response(&payload).unwrap_err();
    assert_eq!(err, DecodeError::ExpectedArray);
}

#[test]
fn decode_tags_not_array_fails() {
    let payload = JsonValue::Obj(vec![
        (String::from("list"), JsonValue::Arr(vec![])),
        (String::from("tags"), JsonValue::Str(String::from("feline"))),
    ]);
    let err = decode_response(&payload).unwrap_err();
    assert_eq!(err, DecodeError::ExpectedArray);
}

#[test]
fn decode_tag_not_string_fails() {
    let payload = response_payload(vec![], vec![JsonValue::Num(Some(1))]);
    let err = decode_response(&payload).unwrap_err();
    assert_eq!(err, DecodeError::ExpectedString);
}

#[test]
fn decode_definition_not_object_fails() {
    let payload = response_payload(vec![JsonValue::Null], vec![]);
    let err = decode_response(&payload).unwrap_err();
    assert_eq!(err, DecodeError::ExpectedObject);
}

#[test]
fn decode_definition_missing_word_fails() {
    let mut entries = definition_entries("cat", JsonValue::Num(Some(123)));
    entries.retain(|e| e.0 != "word");
    let payload = response_payload(vec![JsonValue::Obj(entries)], vec![]);
    let err = decode_response(&payload).unwrap_err();
    assert_eq!(err, DecodeError::MissingField(String::from("word")));
}

#[test]
fn decode_author_not_string_fails() {
    let mut entries = definition_entries("cat", JsonValue::Num(Some(123)));
    entries[0].1 = JsonValue::Num(Some(7));
    let payload = response_payload(vec![JsonValue::Obj(entries)], vec![]);
    let err = decode_response(&payload).unwrap_err();
    assert_eq!(err, DecodeError::ExpectedString);
}

#[test]
fn decode_unrepresentable_number_is_a_type_mismatch() {
    // A number outside the unsigned 64-bit range carries `None`.
    let def = JsonValue::Obj(definition_entries("cat", JsonValue::Num(None)));
    let payload = response_payload(vec![def], vec![]);
    let err = decode_response(&payload).unwrap_err();
    assert_eq!(err, DecodeError::TypeMismatch(String::from("defid")));
}

#[test]
fn decode_reads_all_fields() {
    let def = JsonValue::Obj(definition_entries("cat", JsonValue::Num(Some(123))));
    let payload = response_payload(vec![def], vec![JsonValue::Str(String::from("feline"))]);
    let decoded = decode_response(&payload).unwrap();
    assert_eq!(decoded.definitions.len(), 1);
    let d = &decoded.definitions[0];
    assert_eq!(d.author, "kats");
    assert_eq!(d.definition, "a small feline");
    assert_eq!(d.example, "the cat sat on the mat");
    assert_eq!(d.id, 123);
    assert_eq!(d.permalink, "http://cat.urbanup.com/123");
    assert_eq!(d.thumbs_down, 2);
    assert_eq!(d.thumbs_up, 50);
    assert_eq!(d.word, "cat");
    assert_eq!(decoded.tags, vec![String::from("feline")]);
}

#[test]
fn decode_keeps_the_service_order() {
    let mut first = definition_entries("cat", JsonValue::Num(Some(1)));
    first[7].1 = JsonValue::Str(String::from("cat"));
    let mut second = definition_entries("cat", JsonValue::Num(Some(2)));
    second[7].1 = JsonValue::Str(String::from("cat"));
    let payload = response_payload(
        vec![JsonValue::Obj(first), JsonValue::Obj(second)],
        vec![],
    );
    let decoded = decode_response(&payload).unwrap();
    assert_eq!(decoded.definitions[0].id, 1);
    assert_eq!(decoded.definitions[1].id, 2);
}

#[test]
fn round_trip_preserves_field_values() {
    let response = Response {
        definitions: vec![sample_definition()],
        tags: vec![String::from("feline"), String::from("pet")],
    };
    let encoded = encode_response(&response);
    let decoded = decode_response(&encoded).unwrap();
    assert_eq!(decoded, response);
}

#[test]
fn round_trip_of_a_decoded_payload_is_stable() {
    let def = JsonValue::Obj(definition_entries("cat", JsonValue::Num(Some(123))));
    let payload = response_payload(vec![def], vec![JsonValue::Str(String::from("feline"))]);
    let once = decode_response(&payload).unwrap();
    let again = decode_response(&encode_response(&once)).unwrap();
    assert_eq!(once, again);
}

#[test]
fn encode_definition_writes_wire_names() {
    let encoded = encode_definition(&sample_definition());
    match encoded {
        JsonValue::Obj(entries) => {
            assert_eq!(entries.len(), 8);
            assert_eq!(entries[3].0, "defid");
            assert_eq!(entries[3].1, JsonValue::Num(Some(123)));
            assert_eq!(entries[7].0, "word");
            assert_eq!(entries[7].1, JsonValue::Str(String::from("cat")));
        },
        other => panic!("expected an object, got {:?}", other),
    }
}

#[test]
fn parse_json_reads_the_document() {
    let parsed = parse_json(b"{\"list\": [], \"tags\": [\"feline\", \"pet\"]}").unwrap();
    let expected = response_payload(
        vec![],
        vec![
            JsonValue::Str(String::from("feline")),
            JsonValue::Str(String::from("pet")),
        ],
    );
    assert_eq!(parsed, expected);
}

#[test]
fn parse_json_rejects_malformed_bytes() {
    let err = parse_json(b"{\"list\": [").unwrap_err();
    assert!(matches!(err, Error::Json(_)));
}

#[test]
fn decode_payload_end_to_end() {
    let body = b"{\"list\": [{\"author\": \"kats\", \"definition\": \"a small feline\", \
        \"example\": \"the cat sat on the mat\", \"defid\": 123, \
        \"permalink\": \"http://cat.urbanup.com/123\", \"thumbs_down\": 2, \
        \"thumbs_up\": 50, \"word\": \"cat\"}], \"tags\": [\"feline\"]}";
    let decoded = decode_payload(body).unwrap();
    assert_eq!(decoded.definitions.len(), 1);
    assert_eq!(decoded.definitions[0].id, 123);
    assert_eq!(decoded.definitions[0].thumbs_up, 50);
    assert_eq!(decoded.definitions[0].word, "cat");
    assert_eq!(decoded.tags, vec![String::from("feline")]);
}

#[test]
fn decode_payload_reports_decode_errors() {
    let err = decode_payload(b"{\"tags\": []}").unwrap_err();
    assert_eq!(err, Error::Decode(DecodeError::MissingField(String::from("list"))));
}

#[test]
fn decode_payload_reports_parse_errors() {
    let err = decode_payload(b"no json here").unwrap_err();
    assert!(matches!(err, Error::Json(_)));
}

#[test]
fn decode_payload_ignores_extra_fields() {
    let body = b"{\"list\": [], \"tags\": [], \"result_type\": \"exact\"}";
    let decoded = decode_payload(body).unwrap();
    assert!(decoded.definitions.is_empty());
}

#[test]
fn describe_delegates_to_the_cause() {
    assert_eq!(
        Error::Transport(String::from("connection refused")).describe(),
        "connection refused"
    );
    assert_eq!(
        Error::Decode(DecodeError::MissingField(String::from("list"))).describe(),
        "missing field `list`"
    );
    assert_eq!(
        Error::Decode(DecodeError::TypeMismatch(String::from("defid"))).describe(),
        "invalid type for field `defid`"
    );
    assert_eq!(
        Error::Decode(DecodeError::ExpectedObject).describe(),
        "expected a JSON object"
    );
}
