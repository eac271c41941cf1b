//! The decoding of `data:` URLs into bytes and a media type.

use vstd::prelude::*;
use vstd::string::*;

verus! {

/// `data_url::DataUrl`, a processed `data:` URL. The library sees nothing
/// inside it, and carries it from `process` to the two functions that read
/// it.
#[verifier::external_type_specification]
#[verifier::external_body]
pub struct ExDataUrl<'a>(data_url::DataUrl<'a>);

/// `data_url::DataUrlError`, the reason for which a text is refused. The
/// library does not tell the reasons apart.
#[verifier::external_type_specification]
#[verifier::external_body]
pub struct ExDataUrlError(data_url::DataUrlError);

/// `data_url::forgiving_base64::InvalidBase64`, the reason for which a body
/// cannot be decoded. The library does not look at it.
#[verifier::external_type_specification]
#[verifier::external_body]
pub struct ExInvalidBase64(data_url::forgiving_base64::InvalidBase64);

/// What `DataUrl::process` makes of a text: the processed URL, or `None` where
/// it refuses the text.
pub uninterp spec fn processed_data_url(uri: Seq<char>) -> Option<data_url::DataUrl<'static>>;

/// The media type of a processed URL as `DataUrl::mime_type` gives it, in its
/// serialized form.
pub uninterp spec fn data_url_mime_type(url: data_url::DataUrl) -> Seq<char>;

/// What `DataUrl::decode_to_vec` makes of the body of a processed URL: the
/// decoded bytes, or `None` where it fails.
pub uninterp spec fn data_url_body(url: data_url::DataUrl) -> Option<Seq<u8>>;

/// Calls `DataUrl::process`, the data URL processor of the Fetch standard.
///
/// Believed without proof: the outcome depends on the text alone. It is the
/// URL that `processed_data_url` names for the text, or an error where that
/// is `None`.
#[verifier::external_body]
fn process<'a>(uri: &'a str) -> (parsed: Result<data_url::DataUrl<'a>, data_url::DataUrlError>)
    ensures
        parsed matches Ok(url) ==> processed_data_url(uri@) == Some(url),
        parsed is Err ==> processed_data_url(uri@) is None,
{
    data_url::DataUrl::process(uri)
}

/// Calls `DataUrl::mime_type` and serializes the `Mime` that it returns.
///
/// Believed without proof: the text depends on the URL alone. It is the one
/// that `data_url_mime_type` names for the URL.
#[verifier::external_body]
fn mime_type_text(url: &data_url::DataUrl) -> (text: String)
    ensures
        text@ == data_url_mime_type(*url),
{
    url.mime_type().to_string()
}

/// Calls `DataUrl::decode_to_vec` and keeps the body; the fragment identifier
/// is dropped.
///
/// Believed without proof: the outcome depends on the URL alone. It is the
/// body that `data_url_body` names for the URL, or an error where that is
/// `None`.
#[verifier::external_body]
fn decode_body(url: &data_url::DataUrl) -> (body: Result<
    Vec<u8>,
    data_url::forgiving_base64::InvalidBase64,
>)
    ensures
        body matches Ok(bytes) ==> data_url_body(*url) == Some(bytes@),
        body is Err ==> data_url_body(*url) is None,
{
    url.decode_to_vec().map(|decoded| decoded.0)
}

/// The content of an embedded resource.
#[derive(Debug)]
pub struct BinaryData {
    pub data: Vec<u8>,
    pub content_type: Option<String>,
}

/// Why an embedded resource could not be loaded.
#[derive(Clone, Copy, Debug, PartialEq, Eq, Structural)]
pub enum LoadingError {
    /// The text is no `data:` URL, or its body cannot be decoded.
    BadDataUrl,
}

/// The code that the error object of the foreign boundary carries.
pub const BOUNDARY_ERROR_CODE: i32 = 0;

/// The error object that the foreign boundary hands to its caller.
#[derive(Debug)]
pub struct BoundaryError {
    pub code: i32,
    pub message: String,
}

/// What the foreign boundary hands to its caller: the decoded bytes with their
/// length and media type, or no bytes, no media type, length zero and an
/// error object.
#[derive(Debug)]
pub struct DataUriReply {
    pub data: Option<Vec<u8>>,
    pub mime_type: Option<String>,
    pub size: usize,
    pub error: Option<BoundaryError>,
}

/// The media type and the body that a text denotes as a `data:` URL, or `None`
/// where it denotes none: the text is refused, or its body cannot be decoded.
pub open spec fn decoded_data_uri(uri: Seq<char>) -> Option<(Seq<char>, Seq<u8>)> {
    match processed_data_url(uri) {
        Some(url) => match data_url_body(url) {
            Some(body) => Some((data_url_mime_type(url), body)),
            None => None,
        },
        None => None,
    }
}

/// The message that the error object of the foreign boundary carries.
pub const BOUNDARY_ERROR_MESSAGE: &'static str = "could not decode data: URL";


/// Puts the media type and the decoded body of a URL together. A body that
/// could not be decoded makes the whole URL bad, and the media type is
/// dropped.
pub fn binary_data_from_parts(
    mime_type: String,
    body: Result<Vec<u8>, data_url::forgiving_base64::InvalidBase64>,
) -> (loaded: Result<BinaryData, LoadingError>)
    ensures
        match body {
            Ok(bytes) => loaded matches Ok(binary) && binary.data == bytes && binary.content_type
                == Some(mime_type),
            Err(_) => loaded matches Err(LoadingError::BadDataUrl),
        },
{
    match body {
        Ok(bytes) => Ok(BinaryData { data: bytes, content_type: Some(mime_type) }),
        Err(_) => Err(LoadingError::BadDataUrl),
    }
}

/// Decodes a `data:` URL into its bytes and its media type.
///
/// The result is `Ok` exactly for the texts that denote a URL with a body
/// that can be decoded; every other text is a `BadDataUrl`.
pub fn decode_data_uri(uri: &str) -> (loaded: Result<BinaryData, LoadingError>)
    ensures
        match decoded_data_uri(uri@) {
            Some((mime_type, body)) => {
                &&& loaded matches Ok(binary)
                &&& binary.data@ == body
                &&& binary.content_type matches Some(text)
                &&& text@ == mime_type
            },
            None => loaded matches Err(LoadingError::BadDataUrl),
        },
{
    match process(uri) {
        Ok(url) => {
            let mime_type = mime_type_text(&url);
            let body = decode_body(&url);
            binary_data_from_parts(mime_type, body)
        },
        Err(_) => Err(LoadingError::BadDataUrl),
    }
}

/// Lays out the outcome of a decoding for the caller across the foreign
/// boundary. A failure carries no bytes and no media type, and its error
/// object has the fixed code and message.
pub fn boundary_reply(loaded: Result<BinaryData, LoadingError>) -> (reply: DataUriReply)
    ensures
        match loaded {
            Ok(binary) => {
                &&& reply.data == Some(binary.data)
                &&& reply.mime_type == binary.content_type
                &&& reply.size == binary.data@.len()
                &&& reply.error is None
            },
            Err(_) => {
                &&& reply.data is None
                &&& reply.mime_type is None
                &&& reply.size == 0
                &&& reply.error matches Some(error)
                &&& error.code == BOUNDARY_ERROR_CODE
                &&& error.message@ == BOUNDARY_ERROR_MESSAGE@
            },
        },
{
    match loaded {
        Ok(binary) => {
            let size: usize = binary.data.len();
            DataUriReply {
                data: Some(binary.data),
                mime_type: binary.content_type,
                size,
                error: None,
            }
        },
        Err(_) => DataUriReply {
            data: None,
            mime_type: None,
            size: 0,
            error: Some(
                BoundaryError {
                    code: BOUNDARY_ERROR_CODE,
                    message: String::from_str(BOUNDARY_ERROR_MESSAGE),
                },
            ),
        },
    }
}

/// Decodes a `data:` URL for a caller across the foreign boundary.
pub fn rsvg_decode_data_uri(uri: &str) -> (reply: DataUriReply)
    ensures
        match decoded_data_uri(uri@) {
            Some((mime_type, body)) => {
                &&& reply.data matches Some(bytes)
                &&& bytes@ == body
                &&& reply.mime_type matches Some(text)
                &&& text@ == mime_type
                &&& reply.size == body.len()
                &&& reply.error is None
            },
            None => {
                &&& reply.data is None
                &&& reply.mime_type is None
                &&& reply.size == 0
                &&& reply.error matches Some(error)
                &&& error.code == BOUNDARY_ERROR_CODE
                &&& error.message@ == BOUNDARY_ERROR_MESSAGE@
            },
        },
{
    boundary_reply(decode_data_uri(uri))
}

} // verus!
