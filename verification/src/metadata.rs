use reqwest::header::{HeaderMap, HeaderValue};
use vstd::prelude::*;

use crate::decimal::{decimal_value, parse_u64};
use crate::error::DownloadError;

verus! {

/// What the metadata request tells about the resource.
#[derive(Clone, Copy, Debug, PartialEq, Eq, Structural)]
pub struct ResourceMetadata {
    /// Size of the resource in bytes.
    pub total_size: u64,
    /// Whether the server honours requests for byte ranges.
    pub supports_ranges: bool,
}

/// Name of the header that carries the total length.
pub const CONTENT_LENGTH: &'static str = "content-length";

/// Name of the header that advertises range support.
pub const ACCEPT_RANGES: &'static str = "accept-ranges";

/// Whether `status` is a success status, one of 200 to 299.
pub open spec fn is_success(status: u16) -> bool {
    200 <= status <= 299
}

/// The bytes of the token `bytes`, the one value of the range-support header
/// that stands for support.
pub open spec fn bytes_token() -> Seq<u8> {
    seq![0x62u8, 0x79u8, 0x74u8, 0x65u8, 0x73u8]
}

/// The metadata that a response with this status and these two header values
/// amounts to. A status outside 200 to 299 is a transport failure; a length
/// that is absent or no decimal `u64` is a missing length; ranges are supported
/// only where the header's value is exactly `bytes`.
pub open spec fn metadata_of(
    status: u16,
    content_length: Option<Seq<u8>>,
    accept_ranges: Option<Seq<u8>>,
) -> Result<ResourceMetadata, DownloadError> {
    if !is_success(status) {
        Err(DownloadError::Transport { range: None })
    } else if content_length is Some && decimal_value(content_length.unwrap()) is Some {
        Ok(
            ResourceMetadata {
                total_size: decimal_value(content_length.unwrap()).unwrap(),
                supports_ranges: accept_ranges == Some(bytes_token()),
            },
        )
    } else {
        Err(DownloadError::MissingLength)
    }
}

/// The bytes behind an optional slice.
pub open spec fn bytes_of(value: Option<&[u8]>) -> Option<Seq<u8>> {
    match value {
        Some(bytes) => Some(bytes@),
        None => None,
    }
}

/// Whether `value` is exactly the token `bytes`.
pub fn is_bytes_token(value: &[u8]) -> (r: bool)
    ensures
        r == (value@ == bytes_token()),
{
    let r = value.len() == 5 && value[0] == 0x62 && value[1] == 0x79 && value[2] == 0x74
        && value[3] == 0x65 && value[4] == 0x73;
    proof {
        if r {
            assert(value@ =~= bytes_token());
        }
    }
    r
}

/// Reads the resource's metadata from the status of the metadata response and
/// the raw values of its length and range-support headers.
pub fn metadata_from_head(
    status: u16,
    content_length: Option<&[u8]>,
    accept_ranges: Option<&[u8]>,
) -> (r: Result<ResourceMetadata, DownloadError>)
    ensures
        r == metadata_of(status, bytes_of(content_length), bytes_of(accept_ranges)),
{
    if status < 200 || status > 299 {
        return Err(DownloadError::Transport { range: None });
    }
    let total_size = match content_length {
        Some(text) => parse_u64(text),
        None => None,
    };
    let supports_ranges = match accept_ranges {
        Some(value) => is_bytes_token(value),
        None => false,
    };
    match total_size {
        Some(total_size) => Ok(ResourceMetadata { total_size, supports_ranges }),
        None => Err(DownloadError::MissingLength),
    }
}

/// `reqwest::header::HeaderMap`, the set of headers of a response. Its
/// inside is not looked at; what it holds is read through `first_value`.
#[verifier::external_type_specification]
#[verifier::external_body]
#[verifier::reject_recursive_types(T)]
pub struct ExHeaderMap<T>(HeaderMap<T>);

/// `reqwest::header::HeaderValue`, the value of one header, which a header
/// map holds by default. Its inside is not looked at.
#[verifier::external_type_specification]
#[verifier::external_body]
pub struct ExHeaderValue(HeaderValue);

/// The first value that a header map holds under each name, as raw bytes. A
/// name stands for its header whatever the case of its letters, so every
/// spelling of a name that the map holds is a key.
pub uninterp spec fn first_values(headers: HeaderMap) -> Map<Seq<char>, Seq<u8>>;

/// What a header map holds under `name`, if anything.
pub open spec fn header_value(headers: HeaderMap, name: Seq<char>) -> Option<Seq<u8>> {
    if first_values(headers).contains_key(name) {
        Some(first_values(headers)[name])
    } else {
        None
    }
}

/// `HeaderMap::get` with a string key, and `HeaderValue::as_bytes` on what it
/// finds: the bytes of the first value stored under the name, or `None` where
/// the map holds no value under it.
#[verifier::external_body]
fn first_value(headers: &HeaderMap, name: &str) -> (value: Option<Vec<u8>>)
    ensures
        value is Some <==> first_values(*headers).contains_key(name@),
        value matches Some(bytes) ==> bytes@ == first_values(*headers)[name@],
{
    headers.get(name).map(|v| v.as_bytes().to_vec())
}

/// Reads the resource's metadata from the status and the headers of the
/// metadata response.
pub fn probe_metadata(status: u16, headers: &HeaderMap) -> (r: Result<
    ResourceMetadata,
    DownloadError,
>)
    ensures
        r == metadata_of(
            status,
            header_value(*headers, CONTENT_LENGTH@),
            header_value(*headers, ACCEPT_RANGES@),
        ),
{
    let content_length = first_value(headers, CONTENT_LENGTH);
    let accept_ranges = first_value(headers, ACCEPT_RANGES);
    let length_bytes: Option<&[u8]> = match &content_length {
        Some(bytes) => Some(bytes.as_slice()),
        None => None,
    };
    let ranges_bytes: Option<&[u8]> = match &accept_ranges {
        Some(bytes) => Some(bytes.as_slice()),
        None => None,
    };
    metadata_from_head(status, length_bytes, ranges_bytes)
}

} // verus!
