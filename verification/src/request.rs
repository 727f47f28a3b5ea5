//! Outbound request construction and the response sanitizer hook.
//!
//! A `RequestSpec` describes one outbound GET to the upstream provider: the
//! URL, the single static credential header, the response byte-size cap, and
//! the demand that the host run the sanitizer on the raw response before the
//! pipeline sees it. The host performs the transport; this module only
//! builds the descriptor and normalizes responses.
use vstd::prelude::*;
use vstd::string::StringExecFns;

verus! {

/// The byte-size cap carried on every outbound request: a deliberate
/// resource-exhaustion guard.
pub const MAX_RESPONSE_BYTES: u64 = 5000;

/// The upstream provider's base endpoint.
pub open spec fn base_url() -> Seq<char> {
    "https://xbt-mainnet.gomaestro-api.org/v0"@
}

/// One outbound GET request for the host to perform.
pub struct RequestSpec {
    /// The full request URL.
    pub url: String,
    /// Name of the single credential header.
    pub header_name: String,
    /// Value of the credential header: the stored secret.
    pub header_value: String,
    /// Cap on the response size, in bytes.
    pub max_response_bytes: u64,
    /// The host must run the response sanitizer hook on the raw response;
    /// never absent on a request this library builds.
    pub requires_transform: bool,
}

/// What every request this library builds looks like: the given URL, the
/// `api-key` header holding the secret, the fixed byte cap, the sanitizer
/// demanded.
pub open spec fn request_is(r: RequestSpec, key: Seq<char>, url: Seq<char>) -> bool {
    &&& r.url@ == url
    &&& r.header_name@ == "api-key"@
    &&& r.header_value@ == key
    &&& r.max_response_bytes == MAX_RESPONSE_BYTES
    &&& r.requires_transform
}

/// URL of the primary address-keyed query.
pub open spec fn address_inscriptions_url(address: Seq<char>, count: Seq<char>) -> Seq<char> {
    base_url() + "/addresses/"@ + address + "/inscriptions?count="@ + count
}

/// URL of the primary UTXO-keyed query.
pub open spec fn tx_out_url(tx_hash: Seq<char>, output_index: Seq<char>) -> Seq<char> {
    base_url() + "/transactions/"@ + tx_hash + "/outputs/"@ + output_index
}

/// URL of the per-item detail fetch.
pub open spec fn inscription_info_url(inscription_id: Seq<char>) -> Seq<char> {
    base_url() + "/assets/inscriptions/"@ + inscription_id
}

/// URL of the per-collection stats fetch.
pub open spec fn collection_stats_url(symbol: Seq<char>) -> Seq<char> {
    base_url() + "/assets/collections/"@ + symbol + "/stats"@
}

/// URL of the per-item classification fetch.
pub open spec fn omb_color_group_url(inscription_id: Seq<char>) -> Seq<char> {
    base_url() + "/assets/inscriptions/"@ + inscription_id + "/omb_color_group"@
}

fn make_request(url: String, api_key: &str) -> (r: RequestSpec)
    ensures
        request_is(r, api_key@, url@),
{
    RequestSpec {
        url,
        header_name: String::from_str("api-key"),
        header_value: api_key.to_owned(),
        max_response_bytes: MAX_RESPONSE_BYTES,
        requires_transform: true,
    }
}

/// The primary address-keyed request.
pub fn address_inscriptions_request(address: &str, count: &str, api_key: &str) -> (r: RequestSpec)
    ensures
        request_is(r, api_key@, address_inscriptions_url(address@, count@)),
{
    let url = String::from_str("https://xbt-mainnet.gomaestro-api.org/v0").concat(
        "/addresses/",
    ).concat(address).concat("/inscriptions?count=").concat(count);
    make_request(url, api_key)
}

/// The primary UTXO-keyed request.
pub fn tx_out_request(tx_hash: &str, output_index: &str, api_key: &str) -> (r: RequestSpec)
    ensures
        request_is(r, api_key@, tx_out_url(tx_hash@, output_index@)),
{
    let url = String::from_str("https://xbt-mainnet.gomaestro-api.org/v0").concat(
        "/transactions/",
    ).concat(tx_hash).concat("/outputs/").concat(output_index);
    make_request(url, api_key)
}

/// The per-item detail request.
pub fn inscription_info_request(inscription_id: &str, api_key: &str) -> (r: RequestSpec)
    ensures
        request_is(r, api_key@, inscription_info_url(inscription_id@)),
{
    let url = String::from_str("https://xbt-mainnet.gomaestro-api.org/v0").concat(
        "/assets/inscriptions/",
    ).concat(inscription_id);
    make_request(url, api_key)
}

/// The per-collection stats request.
pub fn collection_stats_request(symbol: &str, api_key: &str) -> (r: RequestSpec)
    ensures
        request_is(r, api_key@, collection_stats_url(symbol@)),
{
    let url = String::from_str("https://xbt-mainnet.gomaestro-api.org/v0").concat(
        "/assets/collections/",
    ).concat(symbol).concat("/stats");
    make_request(url, api_key)
}

/// The per-item classification request.
pub fn omb_color_group_request(inscription_id: &str, api_key: &str) -> (r: RequestSpec)
    ensures
        request_is(r, api_key@, omb_color_group_url(inscription_id@)),
{
    let url = String::from_str("https://xbt-mainnet.gomaestro-api.org/v0").concat(
        "/assets/inscriptions/",
    ).concat(inscription_id).concat("/omb_color_group");
    make_request(url, api_key)
}

/// A raw outbound-call response as the host hands it to the sanitizer.
pub struct HttpResponseData {
    /// The HTTP status code.
    pub status: u64,
    /// The raw body bytes.
    pub body: Vec<u8>,
    /// Response headers, as name and value pairs.
    pub headers: Vec<(String, String)>,
}

/// Response sanitizer hook: normalizes a raw response before the host treats
/// it as final. The body passes through unchanged, the status is kept, and
/// every header is dropped.
pub fn transform(raw: &HttpResponseData) -> (r: HttpResponseData)
    ensures
        r.status == raw.status,
        r.body@ == raw.body@,
        r.headers@.len() == 0,
{
    HttpResponseData { status: raw.status, body: raw.body.clone(), headers: Vec::new() }
}

} // verus!
