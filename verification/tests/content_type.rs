use minil::content_type::get_mime;
use minil::content_type::object_mime;

#[test]
fn test_get_mime() {
    let path = "example.txt";
    let bytes = b"Hello, world!";

    let mime = get_mime(path, bytes);
    assert_eq!(mime, Some(mime::TEXT_PLAIN.to_string()));
}

#[test]
fn test_get_mime_path() {
    let path = "example.csv";
    let bytes = b"Hello, world!";

    let mime = get_mime(path, bytes);
    assert_eq!(mime, Some(mime::TEXT_CSV.to_string()));
}

#[test]
fn test_get_mime_bytes() {
    let path = "example";
    let bytes = &[0xFF, 0xD8, 0xFF, 0xAA];

    let mime = get_mime(path, bytes);
    assert_eq!(mime, Some(mime::IMAGE_JPEG.to_string()));
}

#[test]
fn test_get_mime_unknown() {
    let path = "example";
    let bytes = b"Hello, world!";

    let mime = get_mime(path, bytes);
    assert_eq!(mime, None);
}

#[test]
fn test_get_mime_dubious_path() {
    let path = "example.gif";
    let bytes = &[0xFF, 0xD8, 0xFF, 0xAA];

    let mime = get_mime(path, bytes);
    assert_eq!(mime, Some(mime::IMAGE_JPEG.to_string()));
}

#[test]
fn test_get_mime_dubious_bytes() {
    let path = "example.xml";
    let bytes = b"{\"key\": \"value\"}";

    let mime = get_mime(path, bytes);
    assert_eq!(mime, Some(mime::TEXT_XML.to_string()));
}

#[test]
fn object_mime_prefers_the_given_type() {
    let given = Some("application/octet-stream".to_string());
    assert_eq!(
        object_mime(given, "photo.jpg", &[0xFF, 0xD8, 0xFF, 0xAA]),
        Some("application/octet-stream".to_string())
    );
    assert_eq!(object_mime(None, "notes.txt", b"plain words"), Some("text/plain".to_string()));
}
