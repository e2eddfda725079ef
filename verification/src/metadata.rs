//! The metadata projector: between the HTTP headers that describe an object and the
//! metadata fields that the backend stores with it.

use vstd::prelude::*;

verus! {

/// The headers that carry object metadata.
#[derive(Clone, Copy, Debug, PartialEq, Eq, Structural)]
pub enum HeaderName {
    CacheControl,
    ContentDisposition,
    ContentEncoding,
    ContentLanguage,
    ContentLength,
    ContentType,
    ETag,
    Expires,
    LastModified,
}

/// The name of each header as it is written on the wire.
pub open spec fn header_name_text(name: HeaderName) -> Seq<char> {
    match name {
        HeaderName::CacheControl => "cache-control"@,
        HeaderName::ContentDisposition => "content-disposition"@,
        HeaderName::ContentEncoding => "content-encoding"@,
        HeaderName::ContentLanguage => "content-language"@,
        HeaderName::ContentLength => "content-length"@,
        HeaderName::ContentType => "content-type"@,
        HeaderName::ETag => "etag"@,
        HeaderName::Expires => "expires"@,
        HeaderName::LastModified => "last-modified"@,
    }
}

impl HeaderName {
    /// The name of this header as it is written on the wire, in lower case.
    pub fn as_str(self) -> (text: &'static str)
        ensures
            text@ == header_name_text(self),
    {
        match self {
            HeaderName::CacheControl => "cache-control",
            HeaderName::ContentDisposition => "content-disposition",
            HeaderName::ContentEncoding => "content-encoding",
            HeaderName::ContentLanguage => "content-language",
            HeaderName::ContentLength => "content-length",
            HeaderName::ContentType => "content-type",
            HeaderName::ETag => "etag",
            HeaderName::Expires => "expires",
            HeaderName::LastModified => "last-modified",
        }
    }
}

/// The header values of one request, as the bytes that arrived, for each header that the
/// gateway reads. `None` stands for a header that the request does not carry.
#[derive(Clone, Debug, PartialEq, Eq)]
pub struct RequestHeaders {
    pub cache_control: Option<Vec<u8>>,
    pub content_disposition: Option<Vec<u8>>,
    pub content_encoding: Option<Vec<u8>>,
    pub content_language: Option<Vec<u8>>,
    pub content_length: Option<Vec<u8>>,
    pub content_type: Option<Vec<u8>>,
    pub e_tag: Option<Vec<u8>>,
    pub expires: Option<Vec<u8>>,
    pub last_modified: Option<Vec<u8>>,
    pub destination: Option<Vec<u8>>,
}

/// The mathematical value of `RequestHeaders`.
pub struct RequestHeadersView {
    pub cache_control: Option<Seq<u8>>,
    pub content_disposition: Option<Seq<u8>>,
    pub content_encoding: Option<Seq<u8>>,
    pub content_language: Option<Seq<u8>>,
    pub content_length: Option<Seq<u8>>,
    pub content_type: Option<Seq<u8>>,
    pub e_tag: Option<Seq<u8>>,
    pub expires: Option<Seq<u8>>,
    pub last_modified: Option<Seq<u8>>,
    pub destination: Option<Seq<u8>>,
}

/// The value of optional bytes.
pub open spec fn bytes_view(raw: Option<Vec<u8>>) -> Option<Seq<u8>> {
    match raw {
        Some(bytes) => Some(bytes@),
        None => None,
    }
}

/// The value of an optional text.
pub open spec fn text_view(text: Option<String>) -> Option<Seq<char>> {
    match text {
        Some(t) => Some(t@),
        None => None,
    }
}

impl View for RequestHeaders {
    type V = RequestHeadersView;

    open spec fn view(&self) -> RequestHeadersView {
        RequestHeadersView {
            cache_control: bytes_view(self.cache_control),
            content_disposition: bytes_view(self.content_disposition),
            content_encoding: bytes_view(self.content_encoding),
            content_language: bytes_view(self.content_language),
            content_length: bytes_view(self.content_length),
            content_type: bytes_view(self.content_type),
            e_tag: bytes_view(self.e_tag),
            expires: bytes_view(self.expires),
            last_modified: bytes_view(self.last_modified),
            destination: bytes_view(self.destination),
        }
    }
}

/// The metadata of one object. A field that is `None` is not set; nothing stands in for it.
#[derive(Clone, Debug, PartialEq, Eq)]
pub struct ObjectMetadata {
    pub cache_control: Option<String>,
    pub content_disposition: Option<String>,
    pub content_encoding: Option<String>,
    pub content_language: Option<String>,
    pub content_length: Option<String>,
    pub content_type: Option<String>,
    pub e_tag: Option<String>,
    pub expires: Option<String>,
    pub last_modified: Option<String>,
}

/// The mathematical value of `ObjectMetadata`.
pub struct ObjectMetadataView {
    pub cache_control: Option<Seq<char>>,
    pub content_disposition: Option<Seq<char>>,
    pub content_encoding: Option<Seq<char>>,
    pub content_language: Option<Seq<char>>,
    pub content_length: Option<Seq<char>>,
    pub content_type: Option<Seq<char>>,
    pub e_tag: Option<Seq<char>>,
    pub expires: Option<Seq<char>>,
    pub last_modified: Option<Seq<char>>,
}

impl View for ObjectMetadata {
    type V = ObjectMetadataView;

    open spec fn view(&self) -> ObjectMetadataView {
        ObjectMetadataView {
            cache_control: text_view(self.cache_control),
            content_disposition: text_view(self.content_disposition),
            content_encoding: text_view(self.content_encoding),
            content_language: text_view(self.content_language),
            content_length: text_view(self.content_length),
            content_type: text_view(self.content_type),
            e_tag: text_view(self.e_tag),
            expires: text_view(self.expires),
            last_modified: text_view(self.last_modified),
        }
    }
}

/// The headers of a request that carries none of the headers that the gateway reads.
pub open spec fn no_headers() -> RequestHeadersView {
    RequestHeadersView {
        cache_control: None,
        content_disposition: None,
        content_encoding: None,
        content_language: None,
        content_length: None,
        content_type: None,
        e_tag: None,
        expires: None,
        last_modified: None,
        destination: None,
    }
}

/// Metadata with no field set.
pub open spec fn no_metadata() -> ObjectMetadataView {
    ObjectMetadataView {
        cache_control: None,
        content_disposition: None,
        content_encoding: None,
        content_language: None,
        content_length: None,
        content_type: None,
        e_tag: None,
        expires: None,
        last_modified: None,
    }
}

/// One header of a response: its name and its value.
pub type Header = (HeaderName, String);

/// The value of a list of headers.
pub open spec fn headers_view(headers: Seq<Header>) -> Seq<(HeaderName, Seq<char>)> {
    Seq::new(headers.len(), |i: int| (headers[i].0, headers[i].1@))
}

/// Whether a byte of a header value can be read as text: printable ASCII, or a tab.
pub open spec fn is_visible_ascii(byte: u8) -> bool {
    (32 <= byte < 127) || byte == 9
}

/// Whether a header value can be read as text: every byte of it can.
pub open spec fn decodable(raw: Seq<u8>) -> bool {
    forall|i: int| 0 <= i < raw.len() ==> is_visible_ascii(#[trigger] raw[i])
}

/// The text of a decodable header value: byte for byte the same characters.
pub open spec fn decoded(raw: Seq<u8>) -> Seq<char> {
    Seq::new(raw.len(), |i: int| raw[i] as char)
}

/// What a header contributes to the metadata: its text where it is there and decodable,
/// nothing otherwise.
pub open spec fn header_text(raw: Option<Seq<u8>>) -> Option<Seq<char>> {
    match raw {
        Some(bytes) => if decodable(bytes) {
            Some(decoded(bytes))
        } else {
            None
        },
        None => None,
    }
}

/// The metadata that a request's headers describe.
pub open spec fn metadata_from_headers(headers: RequestHeadersView) -> ObjectMetadataView {
    ObjectMetadataView {
        cache_control: header_text(headers.cache_control),
        content_disposition: header_text(headers.content_disposition),
        content_encoding: header_text(headers.content_encoding),
        content_language: header_text(headers.content_language),
        content_length: header_text(headers.content_length),
        content_type: header_text(headers.content_type),
        e_tag: header_text(headers.e_tag),
        expires: header_text(headers.expires),
        last_modified: header_text(headers.last_modified),
    }
}

/// The header that one metadata field gives rise to: one header with the field's value
/// where the field is set, none where it is not.
pub open spec fn header_of(name: HeaderName, value: Option<Seq<char>>) -> Seq<(HeaderName, Seq<char>)> {
    match value {
        Some(v) => seq![(name, v)],
        None => Seq::empty(),
    }
}

/// The response headers that describe an object with the given metadata, in the order
/// of their names.
pub open spec fn headers_from_metadata(metadata: ObjectMetadataView) -> Seq<(HeaderName, Seq<char>)> {
    header_of(HeaderName::CacheControl, metadata.cache_control)
        + header_of(HeaderName::ContentDisposition, metadata.content_disposition)
        + header_of(HeaderName::ContentEncoding, metadata.content_encoding)
        + header_of(HeaderName::ContentLanguage, metadata.content_language)
        + header_of(HeaderName::ContentLength, metadata.content_length)
        + header_of(HeaderName::ContentType, metadata.content_type)
        + header_of(HeaderName::ETag, metadata.e_tag)
        + header_of(HeaderName::Expires, metadata.expires)
        + header_of(HeaderName::LastModified, metadata.last_modified)
}

/// Calls `String::push`, which appends one character to the end of a string.
#[verifier::external_body]
fn push_char(text: &mut String, c: char)
    ensures
        final(text)@ == old(text)@.push(c),
{
    text.push(c)
}

/// Reads a header value as text. A value with a byte that is neither printable ASCII nor
/// a tab cannot be read, and gives `None`.
pub fn header_string(raw: &[u8]) -> (text: Option<String>)
    ensures
        text_view(text) == header_text(Some(raw@)),
{
    let mut text = String::new();
    let mut i: usize = 0;
    while i < raw.len()
        invariant
            i <= raw.len(),
            text@ == decoded(raw@.take(i as int)),
            decodable(raw@.take(i as int)),
        decreases raw.len() - i,
    {
        let byte = raw[i];
        if !((32 <= byte && byte < 127) || byte == 9) {
            return None;
        }
        push_char(&mut text, byte as char);
        proof {
            let before = raw@.take(i as int);
            let after = raw@.take(i + 1);
            assert(after =~= before.push(byte));
            assert(decoded(after) =~= decoded(before).push(byte as char));
        }
        i += 1;
    }
    proof {
        assert(raw@.take(raw.len() as int) =~= raw@);
    }
    Some(text)
}

/// Reads an optional header value as text: a header that is missing or cannot be read
/// counts as absent.
pub fn optional_header_string(raw: &Option<Vec<u8>>) -> (text: Option<String>)
    ensures
        text_view(text) == header_text(bytes_view(*raw)),
{
    match raw {
        Some(bytes) => header_string(bytes.as_slice()),
        None => None,
    }
}

/// A copy of an optional text.
fn duplicate_text(text: &Option<String>) -> (copy: Option<String>)
    ensures
        text_view(copy) == text_view(*text),
{
    match text {
        Some(t) => Some(t.clone()),
        None => None,
    }
}

impl RequestHeaders {
    /// The headers of a request that carries none of the headers that the gateway reads.
    pub fn none() -> (headers: RequestHeaders)
        ensures
            headers@ == no_headers(),
    {
        RequestHeaders {
            cache_control: None,
            content_disposition: None,
            content_encoding: None,
            content_language: None,
            content_length: None,
            content_type: None,
            e_tag: None,
            expires: None,
            last_modified: None,
            destination: None,
        }
    }
}

impl ObjectMetadata {
    /// Metadata with no field set.
    pub fn empty() -> (metadata: ObjectMetadata)
        ensures
            metadata@ == no_metadata(),
    {
        ObjectMetadata {
            cache_control: None,
            content_disposition: None,
            content_encoding: None,
            content_language: None,
            content_length: None,
            content_type: None,
            e_tag: None,
            expires: None,
            last_modified: None,
        }
    }

    /// The metadata that the headers of a request describe. Each field is read from its
    /// own header; a header that is missing or cannot be read as text leaves it unset.
    pub fn from_headers(headers: &RequestHeaders) -> (metadata: ObjectMetadata)
        ensures
            metadata@ == metadata_from_headers(headers@),
    {
        ObjectMetadata {
            cache_control: optional_header_string(&headers.cache_control),
            content_disposition: optional_header_string(&headers.content_disposition),
            content_encoding: optional_header_string(&headers.content_encoding),
            content_language: optional_header_string(&headers.content_language),
            content_length: optional_header_string(&headers.content_length),
            content_type: optional_header_string(&headers.content_type),
            e_tag: optional_header_string(&headers.e_tag),
            expires: optional_header_string(&headers.expires),
            last_modified: optional_header_string(&headers.last_modified),
        }
    }

    /// The response headers that describe an object with this metadata: one header for
    /// each field that is set, with the field's value as it is, and none for the others.
    pub fn to_headers(&self) -> (headers: Vec<Header>)
        ensures
            headers_view(headers@) == headers_from_metadata(self@),
    {
        let mut headers: Vec<Header> = Vec::new();
        assert(headers_view(headers@) =~= Seq::empty());
        add_header(&mut headers, HeaderName::CacheControl, &self.cache_control);
        add_header(&mut headers, HeaderName::ContentDisposition, &self.content_disposition);
        add_header(&mut headers, HeaderName::ContentEncoding, &self.content_encoding);
        add_header(&mut headers, HeaderName::ContentLanguage, &self.content_language);
        add_header(&mut headers, HeaderName::ContentLength, &self.content_length);
        add_header(&mut headers, HeaderName::ContentType, &self.content_type);
        add_header(&mut headers, HeaderName::ETag, &self.e_tag);
        add_header(&mut headers, HeaderName::Expires, &self.expires);
        add_header(&mut headers, HeaderName::LastModified, &self.last_modified);
        headers
    }

    /// A copy of this metadata.
    pub fn duplicate(&self) -> (copy: ObjectMetadata)
        ensures
            copy@ == self@,
    {
        ObjectMetadata {
            cache_control: duplicate_text(&self.cache_control),
            content_disposition: duplicate_text(&self.content_disposition),
            content_encoding: duplicate_text(&self.content_encoding),
            content_language: duplicate_text(&self.content_language),
            content_length: duplicate_text(&self.content_length),
            content_type: duplicate_text(&self.content_type),
            e_tag: duplicate_text(&self.e_tag),
            expires: duplicate_text(&self.expires),
            last_modified: duplicate_text(&self.last_modified),
        }
    }
}

/// Appends the header of one metadata field to a list of headers.
fn add_header(headers: &mut Vec<Header>, name: HeaderName, value: &Option<String>)
    ensures
        headers_view(final(headers)@) == headers_view(old(headers)@) + header_of(name, text_view(*value)),
{
    match value {
        Some(v) => {
            headers.push((name, v.clone()));
            assert(headers_view(headers@) =~= headers_view(old(headers)@) + header_of(
                name,
                text_view(*value),
            ));
        },
        None => {
            assert(headers_view(headers@) =~= headers_view(old(headers)@) + header_of(
                name,
                text_view(*value),
            ));
        },
    }
}

/// A request without headers describes metadata with no field set, and metadata with
/// no field set gives a response no header.
pub proof fn law_nothing_stands_for_an_absent_field()
    ensures
        metadata_from_headers(no_headers()) == no_metadata(),
        headers_from_metadata(no_metadata()) == Seq::<(HeaderName, Seq<char>)>::empty(),
{
    assert(headers_from_metadata(no_metadata()) =~= Seq::<(HeaderName, Seq<char>)>::empty());
}

/// A field that is not set gives no header, and a field that is set gives exactly one,
/// with the value unchanged: the headers of an object are as many as its set fields.
pub proof fn law_one_header_per_set_field(metadata: ObjectMetadataView)
    ensures
        headers_from_metadata(metadata).len() == set_fields(metadata),
        forall|i: int|
            0 <= i < headers_from_metadata(metadata).len() ==> field_of(
                metadata,
                #[trigger] headers_from_metadata(metadata)[i].0,
            ) == Some(headers_from_metadata(metadata)[i].1),
{
}

/// The number of fields that are set.
pub open spec fn set_fields(metadata: ObjectMetadataView) -> nat {
    header_of(HeaderName::CacheControl, metadata.cache_control).len() + header_of(
        HeaderName::ContentDisposition,
        metadata.content_disposition,
    ).len() + header_of(HeaderName::ContentEncoding, metadata.content_encoding).len() + header_of(
        HeaderName::ContentLanguage,
        metadata.content_language,
    ).len() + header_of(HeaderName::ContentLength, metadata.content_length).len() + header_of(
        HeaderName::ContentType,
        metadata.content_type,
    ).len() + header_of(HeaderName::ETag, metadata.e_tag).len() + header_of(
        HeaderName::Expires,
        metadata.expires,
    ).len() + header_of(HeaderName::LastModified, metadata.last_modified).len()
}

/// The metadata field that a header stands for.
pub open spec fn field_of(metadata: ObjectMetadataView, name: HeaderName) -> Option<Seq<char>> {
    match name {
        HeaderName::CacheControl => metadata.cache_control,
        HeaderName::ContentDisposition => metadata.content_disposition,
        HeaderName::ContentEncoding => metadata.content_encoding,
        HeaderName::ContentLanguage => metadata.content_language,
        HeaderName::ContentLength => metadata.content_length,
        HeaderName::ContentType => metadata.content_type,
        HeaderName::ETag => metadata.e_tag,
        HeaderName::Expires => metadata.expires,
        HeaderName::LastModified => metadata.last_modified,
    }
}

} // verus!
