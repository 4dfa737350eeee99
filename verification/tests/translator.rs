use upload_translator::codec::{decode_image, encode_decode_round_trip};
use upload_translator::multipart::build_form;
use upload_translator::request::{UploadRequest, UploadTranslator};
use upload_translator::response::{
    classification_is_repeatable, classify_response, content_type_is_json, translate,
    TransportEvent,
};

#[test]
fn round_trip_recovers_bytes() {
    let bytes: Vec<u8> = vec![0, 1, 2, 250, 255, 127, 10];
    assert_eq!(encode_decode_round_trip(&bytes), bytes);
}

#[test]
fn round_trip_empty_payload() {
    let bytes: Vec<u8> = vec![];
    assert_eq!(encode_decode_round_trip(&bytes), bytes);
}

#[test]
fn decode_image_known_vector() {
    assert_eq!(decode_image("AQID"), Ok(vec![1u8, 2, 3]));
}

#[test]
fn decode_image_rejects_invalid_base64() {
    let r = decode_image("!!! not base64 !!!");
    assert_eq!(r, Err(String::from("invalid base64 image payload")));
}

#[test]
fn json_success_is_rendered() {
    let r = classify_response(
        200,
        Some("application/json"),
        String::from("{\"result\":\"cat\",\"confidence\":\"0.97\"}"),
    );
    assert_eq!(r, Ok(String::from("Result: cat, Confidence: 0.97")));
}

#[test]
fn json_success_with_charset_and_casing() {
    let r = classify_response(
        201,
        Some("Application/JSON; charset=utf-8"),
        String::from("{\"result\":\"dog\",\"confidence\":\"0.51\"}"),
    );
    assert_eq!(r, Ok(String::from("Result: dog, Confidence: 0.51")));
}

#[test]
fn plain_success_passes_body_through() {
    let r = classify_response(200, Some("text/plain"), String::from("ok"));
    assert_eq!(r, Ok(String::from("ok")));
}

#[test]
fn json_failure_yields_error_field() {
    let r = classify_response(
        500,
        Some("application/json"),
        String::from("{\"error\":\"model unavailable\"}"),
    );
    assert_eq!(r, Err(String::from("model unavailable")));
}

#[test]
fn plain_failure_passes_body_through() {
    let r = classify_response(500, Some("text/plain"), String::from("internal error"));
    assert_eq!(r, Err(String::from("internal error")));
}

#[test]
fn missing_header_is_not_json() {
    assert_eq!(
        classify_response(200, None, String::from("hello")),
        Ok(String::from("hello"))
    );
    assert_eq!(
        classify_response(404, None, String::from("missing")),
        Err(String::from("missing"))
    );
}

#[test]
fn malformed_prediction_body_is_a_parse_error() {
    let r = classify_response(200, Some("application/json"), String::from("{}"));
    assert_eq!(r, Err(String::from("malformed prediction response")));
    let r = classify_response(
        200,
        Some("application/json"),
        String::from("{\"result\":\"cat\",\"confidence\":7}"),
    );
    assert_eq!(r, Err(String::from("malformed prediction response")));
}

#[test]
fn malformed_error_body_is_a_parse_error() {
    let r = classify_response(500, Some("application/json"), String::from("not json"));
    assert_eq!(r, Err(String::from("malformed error response")));
    let r = classify_response(500, Some("application/json"), String::from("{}"));
    assert_eq!(r, Err(String::from("malformed error response")));
}

#[test]
fn content_type_match_is_substring_and_case_insensitive() {
    assert!(content_type_is_json("application/json"));
    assert!(content_type_is_json("APPLICATION/JSON"));
    assert!(content_type_is_json("text/html; application/json; charset=utf-8"));
    assert!(!content_type_is_json("text/plain"));
    assert!(!content_type_is_json(""));
    assert!(!content_type_is_json("application/jso"));
}

#[test]
fn transport_failure_carries_its_message() {
    let r = translate(TransportEvent::Failed {
        message: String::from("connection refused"),
    });
    assert_eq!(r, Err(String::from("connection refused")));
}

#[test]
fn translate_classifies_a_reply() {
    let r = translate(TransportEvent::Reply {
        status: 200,
        content_type: Some(String::from("text/plain")),
        body: String::from("ok"),
    });
    assert_eq!(r, Ok(String::from("ok")));
}

#[test]
fn repeated_classification_agrees() {
    let body = String::from("{\"result\":\"cat\",\"confidence\":\"0.97\"}");
    let (first, second) = classification_is_repeatable(200, Some("application/json"), &body);
    assert_eq!(first, second);
    let body = String::from("{\"error\":\"down\"}");
    let (first, second) = classification_is_repeatable(503, Some("application/json"), &body);
    assert_eq!(first, second);
}

#[test]
fn prepare_lays_out_the_fixed_form() {
    let translator = UploadTranslator::new();
    let req = translator.prepare("AQID").unwrap();
    assert_eq!(req.field_name, "name");
    assert_eq!(req.field_value, "image");
    assert_eq!(req.file_field_name, "file");
    assert_eq!(req.file_name, "image.png");
    assert_eq!(req.media_type, "image/png");
    assert_eq!(req.bytes, vec![1u8, 2, 3]);
    assert_eq!(
        req.url,
        "https://whiskersapi-1199f3802ddf.herokuapp.com/upload"
    );
}

#[test]
fn prepare_rejects_undecodable_payload_before_any_transmission() {
    let translator = UploadTranslator::new();
    let r = translator.prepare("* not in the alphabet *");
    assert_eq!(r.err(), Some(String::from("invalid base64 image payload")));
}

#[test]
fn build_form_accepts_a_prepared_request() {
    let translator = UploadTranslator::new();
    let request = translator.prepare("AQID").unwrap();
    assert!(build_form(request).is_ok());
}

#[test]
fn build_form_rejects_a_malformed_media_type() {
    let request = UploadRequest {
        field_name: String::from("name"),
        field_value: String::from("image"),
        file_field_name: String::from("file"),
        file_name: String::from("image.png"),
        media_type: String::from("not a media type ???"),
        bytes: vec![1u8, 2, 3],
        url: String::from("https://example.test/upload"),
    };
    assert_eq!(
        build_form(request).err(),
        Some(String::from("invalid media type for upload"))
    );
}

#[test]
fn prepare_uses_the_chosen_endpoint() {
    let translator = UploadTranslator::with_endpoint(String::from("https://example.test/upload"));
    let req = translator.prepare("AA==").unwrap();
    assert_eq!(req.url, "https://example.test/upload");
    assert_eq!(req.bytes, vec![0u8]);
}
