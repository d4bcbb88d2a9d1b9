use api_menu::json::{decode_activity, decode_fact, decode_joke, record_of_joke_fields};
use api_menu::menu::{activity_outcome, joke_outcome};
use api_menu::records::FetchError;

fn decode_message(e: &FetchError) -> String {
    match e {
        FetchError::Decode(m) => m.clone(),
        FetchError::Transport(m) => panic!("expected a decode error, got transport: {}", m),
    }
}

#[test]
fn joke_fields_round_trip() {
    let body = "{\"setup\":\"Why did the chicken cross the road?\",\
                \"delivery\":\"To get to the other side.\"}";
    let rec = decode_joke(body).expect("well-formed joke body must decode");
    assert_eq!(rec.setup, "Why did the chicken cross the road?");
    assert_eq!(rec.delivery, "To get to the other side.");
}

#[test]
fn joke_extra_fields_are_ignored() {
    let body = "{\"category\":\"Any\",\"type\":\"twopart\",\
                \"setup\":\"s\",\"delivery\":\"d\",\
                \"flags\":{\"nsfw\":false},\"id\":7,\"safe\":true,\"lang\":\"en\"}";
    let rec = decode_joke(body).expect("extra members must not break decoding");
    assert_eq!(rec.setup, "s");
    assert_eq!(rec.delivery, "d");
}

#[test]
fn joke_escapes_are_unescaped() {
    let body = "{\"setup\":\"a\\\"b\",\"delivery\":\"c\\nd\"}";
    let rec = decode_joke(body).expect("escaped strings must decode");
    assert_eq!(rec.setup, "a\"b");
    assert_eq!(rec.delivery, "c\nd");
}

#[test]
fn joke_missing_setup_is_a_decode_error() {
    let body = "{\"delivery\":\"To get to the other side.\"}";
    let e = decode_joke(body).expect_err("missing setup must fail");
    assert_eq!(decode_message(&e), "could not decode response body");
}

#[test]
fn joke_mistyped_field_is_a_decode_error() {
    let body = "{\"setup\":5,\"delivery\":\"d\"}";
    let e = decode_joke(body).expect_err("non-string setup must fail");
    assert_eq!(decode_message(&e), "could not decode response body");
}

#[test]
fn malformed_json_is_a_decode_error() {
    let e = decode_joke("{not json at all").expect_err("malformed body must fail");
    assert_eq!(decode_message(&e), "could not decode response body");
}

#[test]
fn non_object_body_is_a_decode_error() {
    let e = decode_joke("[1, 2, 3]").expect_err("an array body must fail");
    assert_eq!(decode_message(&e), "could not decode response body");
    let e = decode_activity("\"just a string\"").expect_err("a string body must fail");
    assert_eq!(decode_message(&e), "could not decode response body");
}

#[test]
fn null_body_is_a_decode_error() {
    let e = decode_joke("null").expect_err("a null body is not an object");
    assert_eq!(decode_message(&e), "could not decode response body");
}

#[test]
fn activity_round_trip() {
    let body = "{\"activity\":\"Learn to juggle\",\"participants\":1,\"price\":0.1}";
    let rec = decode_activity(body).expect("well-formed activity body must decode");
    assert_eq!(rec.activity, "Learn to juggle");
}

#[test]
fn fact_round_trip() {
    let body = "{\"value\":\"A fixed-shape trivia fact.\",\"id\":\"abc\"}";
    let rec = decode_fact(body).expect("well-formed fact body must decode");
    assert_eq!(rec.value, "A fixed-shape trivia fact.");
}

#[test]
fn record_assembly_from_fields() {
    let fields = vec![
        ("delivery".to_string(), Some("d".to_string())),
        ("setup".to_string(), Some("s".to_string())),
    ];
    let rec = record_of_joke_fields(&fields).expect("both fields present");
    assert_eq!(rec.setup, "s");
    assert_eq!(rec.delivery, "d");
}

#[test]
fn record_assembly_takes_the_first_match() {
    let fields = vec![
        ("setup".to_string(), Some("first".to_string())),
        ("setup".to_string(), Some("second".to_string())),
        ("delivery".to_string(), Some("d".to_string())),
    ];
    let rec = record_of_joke_fields(&fields).expect("both fields present");
    assert_eq!(rec.setup, "first");
}

#[test]
fn record_assembly_rejects_non_string_member() {
    let fields = vec![
        ("setup".to_string(), None),
        ("delivery".to_string(), Some("d".to_string())),
    ];
    let e = record_of_joke_fields(&fields).expect_err("a non-string setup must fail");
    assert_eq!(decode_message(&e), "could not decode response body");
}

#[test]
fn transport_error_becomes_transport_variant() {
    let r = joke_outcome(Err("connection refused".to_string()));
    match r {
        Err(FetchError::Transport(m)) => assert_eq!(m, "connection refused"),
        _ => panic!("a transport failure must yield a transport error"),
    }
}

#[test]
fn transport_success_decodes_the_body() {
    let r = activity_outcome(Ok("{\"activity\":\"Paint\"}".to_string()));
    assert_eq!(r.expect("body must decode").activity, "Paint");
}
