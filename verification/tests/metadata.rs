use aws_s3_webdav::metadata::{
    header_string, optional_header_string, HeaderName, ObjectMetadata, RequestHeaders,
};

#[test]
fn header_of_printable_ascii_is_read_as_it_is() {
    assert_eq!(header_string(b"text/plain; charset=utf-8"), Some("text/plain; charset=utf-8".to_string()));
}

#[test]
fn empty_header_is_read_as_empty_text() {
    assert_eq!(header_string(b""), Some(String::new()));
}

#[test]
fn header_with_a_tab_is_read() {
    assert_eq!(header_string(b"a\tb"), Some("a\tb".to_string()));
}

#[test]
fn header_with_space_and_tilde_is_read() {
    assert_eq!(header_string(b" ~"), Some(" ~".to_string()));
}

#[test]
fn header_with_a_byte_above_ascii_is_not_read() {
    assert_eq!(header_string(&[b'a', 0xe9, b'b']), None);
    assert_eq!(header_string(&[0x80]), None);
    assert_eq!(header_string(&[0xff]), None);
}

#[test]
fn header_with_a_control_byte_is_not_read() {
    assert_eq!(header_string(&[b'a', 0x1f]), None);
    assert_eq!(header_string(&[0x00]), None);
    assert_eq!(header_string(&[b'a', b'\n']), None);
    assert_eq!(header_string(&[0x7f]), None);
}

#[test]
fn missing_header_is_absent() {
    assert_eq!(optional_header_string(&None), None);
}

#[test]
fn unreadable_header_is_absent() {
    assert_eq!(optional_header_string(&Some(vec![0xc3, 0xa9])), None);
    assert_eq!(optional_header_string(&Some(b"ok".to_vec())), Some("ok".to_string()));
}

#[test]
fn from_headers_reads_each_field_from_its_own_header() {
    let headers = RequestHeaders {
        cache_control: Some(b"max-age=60".to_vec()),
        content_disposition: Some(b"attachment".to_vec()),
        content_encoding: Some(b"gzip".to_vec()),
        content_language: Some(b"de".to_vec()),
        content_length: Some(b"12".to_vec()),
        content_type: Some(b"text/html".to_vec()),
        e_tag: Some(b"\"abc\"".to_vec()),
        expires: Some(b"Thu, 01 Dec 1994 16:00:00 GMT".to_vec()),
        last_modified: Some(b"Wed, 21 Oct 2015 07:28:00 GMT".to_vec()),
        destination: Some(b"/elsewhere".to_vec()),
    };
    let metadata = ObjectMetadata::from_headers(&headers);
    assert_eq!(
        metadata,
        ObjectMetadata {
            cache_control: Some("max-age=60".to_string()),
            content_disposition: Some("attachment".to_string()),
            content_encoding: Some("gzip".to_string()),
            content_language: Some("de".to_string()),
            content_length: Some("12".to_string()),
            content_type: Some("text/html".to_string()),
            e_tag: Some("\"abc\"".to_string()),
            expires: Some("Thu, 01 Dec 1994 16:00:00 GMT".to_string()),
            last_modified: Some("Wed, 21 Oct 2015 07:28:00 GMT".to_string()),
        }
    );
}

#[test]
fn from_headers_leaves_missing_and_unreadable_fields_unset() {
    let mut headers = RequestHeaders::none();
    headers.content_type = Some(b"image/png".to_vec());
    headers.cache_control = Some(vec![b'x', 0xfe]);
    let metadata = ObjectMetadata::from_headers(&headers);
    let mut expected = ObjectMetadata::empty();
    expected.content_type = Some("image/png".to_string());
    assert_eq!(metadata, expected);
}

#[test]
fn from_no_headers_gives_no_metadata() {
    assert_eq!(ObjectMetadata::from_headers(&RequestHeaders::none()), ObjectMetadata::empty());
}

#[test]
fn to_headers_of_no_metadata_is_empty() {
    assert_eq!(ObjectMetadata::empty().to_headers(), vec![]);
}

#[test]
fn to_headers_gives_one_header_for_each_set_field_in_order() {
    let metadata = ObjectMetadata {
        cache_control: Some("no-cache".to_string()),
        content_disposition: Some("inline".to_string()),
        content_encoding: Some("br".to_string()),
        content_language: Some("en".to_string()),
        content_length: Some("42".to_string()),
        content_type: Some("text/css".to_string()),
        e_tag: Some("\"e\"".to_string()),
        expires: Some("never".to_string()),
        last_modified: Some("yesterday".to_string()),
    };
    assert_eq!(
        metadata.to_headers(),
        vec![
            (HeaderName::CacheControl, "no-cache".to_string()),
            (HeaderName::ContentDisposition, "inline".to_string()),
            (HeaderName::ContentEncoding, "br".to_string()),
            (HeaderName::ContentLanguage, "en".to_string()),
            (HeaderName::ContentLength, "42".to_string()),
            (HeaderName::ContentType, "text/css".to_string()),
            (HeaderName::ETag, "\"e\"".to_string()),
            (HeaderName::Expires, "never".to_string()),
            (HeaderName::LastModified, "yesterday".to_string()),
        ]
    );
}

#[test]
fn to_headers_skips_unset_fields_and_keeps_empty_values() {
    let mut metadata = ObjectMetadata::empty();
    metadata.content_type = Some(String::new());
    metadata.e_tag = Some("\"t\"".to_string());
    assert_eq!(
        metadata.to_headers(),
        vec![(HeaderName::ContentType, String::new()), (HeaderName::ETag, "\"t\"".to_string())]
    );
}

#[test]
fn to_headers_passes_values_on_unchanged() {
    let mut metadata = ObjectMetadata::empty();
    metadata.content_disposition = Some("attachment; filename=\"käse.txt\"".to_string());
    assert_eq!(
        metadata.to_headers(),
        vec![(HeaderName::ContentDisposition, "attachment; filename=\"käse.txt\"".to_string())]
    );
}

#[test]
fn header_names_are_the_wire_names() {
    assert_eq!(HeaderName::CacheControl.as_str(), "cache-control");
    assert_eq!(HeaderName::ContentDisposition.as_str(), "content-disposition");
    assert_eq!(HeaderName::ContentEncoding.as_str(), "content-encoding");
    assert_eq!(HeaderName::ContentLanguage.as_str(), "content-language");
    assert_eq!(HeaderName::ContentLength.as_str(), "content-length");
    assert_eq!(HeaderName::ContentType.as_str(), "content-type");
    assert_eq!(HeaderName::ETag.as_str(), "etag");
    assert_eq!(HeaderName::Expires.as_str(), "expires");
    assert_eq!(HeaderName::LastModified.as_str(), "last-modified");
}

#[test]
fn duplicate_of_metadata_is_equal() {
    let mut metadata = ObjectMetadata::empty();
    metadata.expires = Some("soon".to_string());
    assert_eq!(metadata.duplicate(), metadata);
}
