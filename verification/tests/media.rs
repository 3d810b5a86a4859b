use manget::media::{extension_for, infer_extension_from_response};

#[test]
fn jpeg_content_type_yields_jpg() {
    assert_eq!(infer_extension_from_response(Some("image/jpeg")), Some("jpg".to_string()));
}

#[test]
fn json_content_type_yields_json() {
    assert_eq!(infer_extension_from_response(Some("application/json")), Some("json".to_string()));
}

#[test]
fn unrecognized_content_type_yields_nothing() {
    assert_eq!(infer_extension_from_response(Some("application/octet-stream")), None);
    assert_eq!(infer_extension_from_response(Some("video/mp4")), None);
    assert_eq!(infer_extension_from_response(Some("image/gif")), None);
}

#[test]
fn missing_or_malformed_content_type_yields_nothing() {
    assert_eq!(infer_extension_from_response(None), None);
    assert_eq!(infer_extension_from_response(Some("not a media type")), None);
    assert_eq!(infer_extension_from_response(Some("")), None);
}

#[test]
fn content_type_is_read_without_case_and_parameters() {
    assert_eq!(infer_extension_from_response(Some("IMAGE/PNG")), Some("png".to_string()));
    assert_eq!(
        infer_extension_from_response(Some("text/html; charset=utf-8")),
        Some("html".to_string())
    );
}

#[test]
fn every_entry_of_the_table() {
    assert_eq!(extension_for("image", "jpeg"), Some("jpg".to_string()));
    assert_eq!(extension_for("image", "png"), Some("png".to_string()));
    assert_eq!(extension_for("image", "webp"), Some("webp".to_string()));
    assert_eq!(extension_for("text", "plain"), Some("txt".to_string()));
    assert_eq!(extension_for("text", "csv"), Some("csv".to_string()));
    assert_eq!(extension_for("text", "html"), Some("html".to_string()));
    assert_eq!(extension_for("application", "pdf"), Some("pdf".to_string()));
    assert_eq!(extension_for("application", "json"), Some("json".to_string()));
    assert_eq!(extension_for("application", "zip"), Some("zip".to_string()));
    assert_eq!(extension_for("text", "jpeg"), None);
    assert_eq!(extension_for("audio", "png"), None);
}
