//! The HTTP transport as the adapter sees it: the types of `reqwest` that pass through
//! the adapter, and what is taken on trust about the functions of `reqwest` it calls.
//!
//! Nothing in this module is proved. Each item names the function of `reqwest` it
//! stands for and says what is claimed of it.

use vstd::prelude::*;

verus! {

/// `reqwest::ClientBuilder`: a client in the making. Opaque.
#[verifier::external_type_specification]
#[verifier::external_body]
pub struct ExClientBuilder(reqwest::ClientBuilder);

/// `reqwest::Client`: the reusable transport handle. Opaque.
#[verifier::external_type_specification]
#[verifier::external_body]
pub struct ExClient(reqwest::Client);

/// `reqwest::Proxy`: a proxy that a client can be told to use. Opaque.
#[verifier::external_type_specification]
#[verifier::external_body]
pub struct ExProxy(reqwest::Proxy);

/// `reqwest::Error`: why a client, a request or a transfer failed. Opaque.
#[verifier::external_type_specification]
#[verifier::external_body]
pub struct ExError(reqwest::Error);

/// `reqwest::Request`: a request that is ready to be sent. Opaque.
#[verifier::external_type_specification]
#[verifier::external_body]
pub struct ExRequest(reqwest::Request);

/// `reqwest::Response`: a response whose head has arrived. Opaque.
#[verifier::external_type_specification]
#[verifier::external_body]
pub struct ExResponse(reqwest::Response);

/// `reqwest::StatusCode`: the status code of a response. Opaque.
#[verifier::external_type_specification]
#[verifier::external_body]
pub struct ExStatusCode(reqwest::StatusCode);

/// The settings of a client that the adapter decides on. A client builder holds more
/// than these; the rest is never touched here.
#[verifier::ext_equal]
pub struct ClientSettings {
    /// Whether invalid certificates are accepted.
    pub accept_invalid_certs: bool,
    /// The `User-Agent` header sent with every request, if one was set.
    pub user_agent: Option<Seq<char>>,
    /// Whether connections log what they read and write.
    pub connection_verbose: bool,
    /// The limit on the connect phase, in whole seconds, if one was set.
    pub connect_timeout_secs: Option<u64>,
    /// Whether only HTTP/2 is spoken, without negotiating it.
    pub http2_prior_knowledge: bool,
    /// How many idle connections are kept per host.
    pub pool_max_idle_per_host: usize,
    /// The proxies that were added, in the order of their addition.
    pub proxies: Seq<reqwest::Proxy>,
}

impl ClientSettings {
    /// The settings of a builder that has not been told anything.
    pub open spec fn initial() -> ClientSettings {
        ClientSettings {
            accept_invalid_certs: false,
            user_agent: None,
            connection_verbose: false,
            connect_timeout_secs: None,
            http2_prior_knowledge: false,
            pool_max_idle_per_host: usize::MAX,
            proxies: Seq::empty(),
        }
    }
}

/// Whether `value` can be sent as the value of a header as it stands: visible ASCII,
/// blanks included.
pub open spec fn is_header_text(value: Seq<char>) -> bool {
    forall|i: int| 0 <= i < value.len() ==> ' ' <= #[trigger] value[i] <= '~'
}

/// The settings that `builder` holds.
pub uninterp spec fn builder_settings(builder: reqwest::ClientBuilder) -> ClientSettings;

/// The settings that `client` was built with.
pub uninterp spec fn client_settings(client: reqwest::Client) -> ClientSettings;

/// What `Proxy::all` makes of `url`: the proxy for all traffic at that address, or the
/// error with which the address is refused.
pub uninterp spec fn proxy_for_all(url: Seq<char>) -> Result<reqwest::Proxy, reqwest::Error>;

/// What a client makes of `url` when asked for a `GET` request: the request, or the
/// error with which the URL is refused.
pub uninterp spec fn get_request_for(url: Seq<char>) -> Result<reqwest::Request, reqwest::Error>;

/// The status code of `response`.
pub uninterp spec fn response_status(response: reqwest::Response) -> reqwest::StatusCode;

/// The length of the body of `response`, where it is known before the body is read.
pub uninterp spec fn response_content_length(response: reqwest::Response) -> Option<u64>;

/// The status code that `error` carries, if it carries one.
pub uninterp spec fn error_status(error: reqwest::Error) -> Option<reqwest::StatusCode>;

/// What `error` displays as.
pub uninterp spec fn error_message(error: reqwest::Error) -> Seq<char>;

/// What `status` displays as: the number and the reason phrase.
pub uninterp spec fn status_line(status: reqwest::StatusCode) -> Seq<char>;

/// `Client::builder` returns a builder with the default configuration. Of the settings
/// named here the defaults are: certificates are verified, no `User-Agent`, quiet
/// connections, no connect timeout, any HTTP version, no limit on idle connections, no
/// proxy added.
pub assume_specification[ reqwest::Client::builder ]() -> (builder: reqwest::ClientBuilder)
    ensures
        builder_settings(builder) == ClientSettings::initial(),
;

/// `ClientBuilder::danger_accept_invalid_certs` stores the negation of its argument as
/// the builder's certificate verification and changes nothing else.
pub assume_specification[ reqwest::ClientBuilder::danger_accept_invalid_certs ](
    builder: reqwest::ClientBuilder,
    accept_invalid_certs: bool,
) -> (configured: reqwest::ClientBuilder)
    ensures
        builder_settings(configured) == (ClientSettings {
            accept_invalid_certs,
            ..builder_settings(builder)
        }),
;

/// `ClientBuilder::user_agent` with a string: a string of visible ASCII converts to a
/// header value, which replaces the builder's `User-Agent` header; nothing else
/// changes. (Any other string may leave the header as it was and make the later build
/// fail, so it is not admitted.)
#[verifier::external_body]
pub(crate) fn user_agent(builder: reqwest::ClientBuilder, value: &str) -> (configured:
    reqwest::ClientBuilder)
    requires
        is_header_text(value@),
    ensures
        builder_settings(configured) == (ClientSettings {
            user_agent: Some(value@),
            ..builder_settings(builder)
        }),
{
    builder.user_agent(value)
}

/// `ClientBuilder::connection_verbose` stores its argument and changes nothing else.
pub assume_specification[ reqwest::ClientBuilder::connection_verbose ](
    builder: reqwest::ClientBuilder,
    verbose: bool,
) -> (configured: reqwest::ClientBuilder)
    ensures
        builder_settings(configured) == (ClientSettings {
            connection_verbose: verbose,
            ..builder_settings(builder)
        }),
;

/// `ClientBuilder::connect_timeout` with a duration of `secs` whole seconds stores that
/// duration as the connect timeout and changes nothing else.
#[verifier::external_body]
pub(crate) fn connect_timeout(builder: reqwest::ClientBuilder, secs: u64) -> (configured:
    reqwest::ClientBuilder)
    ensures
        builder_settings(configured) == (ClientSettings {
            connect_timeout_secs: Some(secs),
            ..builder_settings(builder)
        }),
{
    builder.connect_timeout(std::time::Duration::from_secs(secs))
}

/// `ClientBuilder::http2_prior_knowledge` sets the builder's HTTP version to HTTP/2 only
/// and changes nothing else.
pub assume_specification[ reqwest::ClientBuilder::http2_prior_knowledge ](
    builder: reqwest::ClientBuilder,
) -> (configured: reqwest::ClientBuilder)
    ensures
        builder_settings(configured) == (ClientSettings {
            http2_prior_knowledge: true,
            ..builder_settings(builder)
        }),
;

/// `ClientBuilder::pool_max_idle_per_host` stores its argument and changes nothing else.
pub assume_specification[ reqwest::ClientBuilder::pool_max_idle_per_host ](
    builder: reqwest::ClientBuilder,
    max: usize,
) -> (configured: reqwest::ClientBuilder)
    ensures
        builder_settings(configured) == (ClientSettings {
            pool_max_idle_per_host: max,
            ..builder_settings(builder)
        }),
;

/// `Proxy::all` with a string parses it as a URL, once more behind `http://` where it
/// has no scheme, and fails where neither parses. What it returns depends on the string
/// alone.
#[verifier::external_body]
pub(crate) fn proxy_all(url: &str) -> (result: Result<reqwest::Proxy, reqwest::Error>)
    ensures
        result == proxy_for_all(url@),
{
    reqwest::Proxy::all(url)
}

/// `ClientBuilder::proxy` appends the proxy to the builder's list of proxies and
/// changes none of the other settings named here.
pub assume_specification[ reqwest::ClientBuilder::proxy ](
    builder: reqwest::ClientBuilder,
    proxy: reqwest::Proxy,
) -> (configured: reqwest::ClientBuilder)
    ensures
        builder_settings(configured) == (ClientSettings {
            proxies: builder_settings(builder).proxies.push(proxy),
            ..builder_settings(builder)
        }),
;

/// `ClientBuilder::build` makes a client from the builder's configuration, or fails.
/// Nothing is claimed about when it fails.
pub assume_specification[ reqwest::ClientBuilder::build ](
    builder: reqwest::ClientBuilder,
) -> (result: Result<reqwest::Client, reqwest::Error>)
    ensures
        result matches Ok(client) ==> client_settings(client) == builder_settings(builder),
;

/// `Client::get` followed by `RequestBuilder::build`: a `GET` request for `url`, or the
/// error with which the URL is refused. What it returns depends on the string alone,
/// not on the client.
#[verifier::external_body]
pub(crate) fn get_request(client: &reqwest::Client, url: &str) -> (result: Result<
    reqwest::Request,
    reqwest::Error,
>)
    ensures
        result == get_request_for(url@),
{
    client.get(url).build()
}

/// `Response::status` returns the status code of the response.
pub assume_specification[ reqwest::Response::status ](response: &reqwest::Response) -> (status:
    reqwest::StatusCode)
    ensures
        status == response_status(*response),
;

/// `Response::content_length` returns the exact size of the body where the body knows
/// it, and `None` otherwise. It reads nothing.
pub assume_specification[ reqwest::Response::content_length ](
    response: &reqwest::Response,
) -> (length: Option<u64>)
    ensures
        length == response_content_length(*response),
;

/// `Error::status` returns the status code of an error that was made from a response,
/// and `None` for any other error.
pub assume_specification[ reqwest::Error::status ](error: &reqwest::Error) -> (status: Option<
    reqwest::StatusCode,
>)
    ensures
        status == error_status(*error),
;

/// `Display` of `reqwest::Error`, through `to_string`: the text starts with a phrase for
/// the kind of error, so it is never empty.
#[verifier::external_body]
pub(crate) fn error_text(error: &reqwest::Error) -> (text: String)
    ensures
        text@ == error_message(*error),
        text@.len() > 0,
{
    error.to_string()
}

/// `Display` of `reqwest::StatusCode`, through `to_string`: the number, a blank and the
/// reason phrase, so it is never empty.
#[verifier::external_body]
pub(crate) fn status_text(status: &reqwest::StatusCode) -> (text: String)
    ensures
        text@ == status_line(*status),
        text@.len() > 0,
{
    status.to_string()
}

} // verus!
