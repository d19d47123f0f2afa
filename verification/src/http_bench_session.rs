//! The HTTP protocol adapter: how a client is set up from a configuration, which
//! request is sent, and what is reported of its outcome.

use crate::bench_session::{
    spec_uninitialized_field, uninitialized_field, RequestStats, RequestStatsBuilder,
    RequestStatsView,
};
use crate::transport::{
    builder_settings, client_settings, connect_timeout, error_message, error_status, error_text,
    get_request, get_request_for, is_header_text, proxy_all, proxy_for_all,
    response_content_length, response_status, status_line, status_text, user_agent,
    ClientSettings,
};
use vstd::prelude::*;

verus! {

/// The `User-Agent` header of every request.
pub const USER_AGENT: &'static str = "service-benchmark, v0.1.0";

/// The limit on the connect phase of a request, in seconds.
pub const CONNECT_TIMEOUT_SECS: u64 = 10;

/// Sends `GET` requests to one URL and reports on each.
#[derive(Clone, Debug)]
pub struct HttpBenchAdapter {
    url: String,
    tunnel: Option<String>,
    ignore_cert: bool,
    conn_reuse: bool,
    store_cookies: bool,
    verbose: bool,
    http2_only: bool,
}

/// The mathematical value of an [`HttpBenchAdapter`]: its configuration.
pub struct AdapterConfiguration {
    /// The target of every request.
    pub url: Seq<char>,
    /// The proxy through which all traffic goes, if any.
    pub tunnel: Option<Seq<char>>,
    /// Whether invalid certificates are accepted.
    pub ignore_cert: bool,
    /// Whether idle connections are kept for later requests.
    pub conn_reuse: bool,
    /// Whether the harness asks for cookies to be kept between requests. The client is
    /// set up the same either way.
    pub store_cookies: bool,
    /// Whether connections log what they read and write.
    pub verbose: bool,
    /// Whether only HTTP/2 is spoken, without negotiating it.
    pub http2_only: bool,
}

impl AdapterConfiguration {
    /// Whether a client can be set up: there is no tunnel, or its address is taken as
    /// that of a proxy.
    pub open spec fn tunnel_accepted(self) -> bool {
        self.tunnel matches Some(tunnel) ==> proxy_for_all(tunnel) is Ok
    }

    /// The words in which the address of the tunnel is refused, where it is.
    pub open spec fn tunnel_refusal(self) -> Seq<char>
        recommends
            !self.tunnel_accepted(),
    {
        error_message(proxy_for_all(self.tunnel->0)->Err_0)
    }

    /// What asking for the request gives: the `GET` request for the URL, or the words
    /// in which the URL is refused.
    pub open spec fn request(self) -> Result<reqwest::Request, Seq<char>> {
        spec_error_as_text(get_request_for(self.url))
    }

    /// The settings of the client for this configuration. The tunnel, where there is
    /// one, is the one proxy, for all traffic.
    pub open spec fn client_settings(self) -> ClientSettings
        recommends
            self.tunnel_accepted(),
    {
        ClientSettings {
            accept_invalid_certs: self.ignore_cert,
            user_agent: Some(USER_AGENT@),
            connection_verbose: self.verbose,
            connect_timeout_secs: Some(CONNECT_TIMEOUT_SECS),
            http2_prior_knowledge: self.http2_only,
            pool_max_idle_per_host: if self.conn_reuse {
                usize::MAX
            } else {
                0
            },
            proxies: match self.tunnel {
                Some(tunnel) => seq![proxy_for_all(tunnel)->Ok_0],
                None => Seq::empty(),
            },
        }
    }
}

impl View for HttpBenchAdapter {
    type V = AdapterConfiguration;

    closed spec fn view(&self) -> AdapterConfiguration {
        AdapterConfiguration {
            url: self.url@,
            tunnel: match self.tunnel {
                Some(tunnel) => Some(tunnel@),
                None => None,
            },
            ignore_cert: self.ignore_cert,
            conn_reuse: self.conn_reuse,
            store_cookies: self.store_cookies,
            verbose: self.verbose,
            http2_only: self.http2_only,
        }
    }
}

/// The settings of the client follow the configuration: invalid certificates are
/// accepted exactly where `ignore_cert` is set, connections log exactly where `verbose` is set,
/// HTTP/2 is forced exactly where `http2_only` is set, no idle connection is kept exactly
/// where `conn_reuse` is off, the tunnel is the one proxy, and the connect phase is
/// limited to ten seconds whatever the configuration.
pub proof fn lemma_client_settings(configuration: AdapterConfiguration)
    ensures
        configuration.client_settings().accept_invalid_certs <==> configuration.ignore_cert,
        configuration.client_settings().connection_verbose <==> configuration.verbose,
        configuration.client_settings().http2_prior_knowledge <==> configuration.http2_only,
        configuration.client_settings().pool_max_idle_per_host == 0 <==> !configuration.conn_reuse,
        configuration.client_settings().proxies.len() == 0 <==> configuration.tunnel is None,
        configuration.tunnel matches Some(tunnel) ==> configuration.client_settings().proxies
            == seq![proxy_for_all(tunnel)->Ok_0],
        configuration.client_settings().connect_timeout_secs == Some(10u64),
        configuration.client_settings().user_agent == Some(USER_AGENT@),
{
}

/// The `User-Agent` header can be sent as it stands.
pub proof fn lemma_user_agent_is_header_text()
    ensures
        is_header_text(USER_AGENT@),
{
    reveal_strlit("service-benchmark, v0.1.0");
}

/// The body size to report for a response whose declared length is `content_length`:
/// the length, or 0 where none was declared.
pub open spec fn spec_bytes_processed(content_length: Option<u64>) -> usize {
    match content_length {
        Some(length) => length as usize,
        None => 0,
    }
}

/// The record of a response with the declared length `content_length` and the status
/// line `status`.
pub open spec fn spec_response_stats(
    content_length: Option<u64>,
    status: Seq<char>,
) -> RequestStatsView {
    RequestStatsView { bytes_processed: spec_bytes_processed(content_length) as nat, status }
}

/// The reason to report for a failed request: the status line where the failure knows
/// one, else the message of the failure.
pub open spec fn spec_failure_reason(status: Option<Seq<char>>, message: Seq<char>) -> Seq<char> {
    match status {
        Some(line) => line,
        None => message,
    }
}

/// The record of a response with the declared length `content_length` and the status
/// line `status`, whatever the status says.
pub fn response_stats(content_length: Option<u64>, status: String) -> (stats: RequestStats)
    ensures
        stats@ == spec_response_stats(content_length, status@),
        content_length matches Some(length) ==> (length <= usize::MAX ==> stats.bytes_processed
            == length),
{
    let bytes_processed = match content_length {
        Some(length) => length as usize,
        None => 0,
    };
    let built = RequestStatsBuilder::default().bytes_processed(bytes_processed).status(
        status,
    ).build();
    built.expect("RequestStatsBuilder failed")
}

/// The reason to report for a failed request: the status line where the failure knows
/// one, else the message of the failure.
pub fn failure_reason(status: Option<String>, message: String) -> (reason: String)
    ensures
        reason@ == spec_failure_reason(
            match status {
                Some(line) => Some(line@),
                None => None,
            },
            message@,
        ),
{
    match status {
        Some(line) => line,
        None => message,
    }
}

/// The text of a status code, if there is one.
pub open spec fn spec_status_line(status: Option<reqwest::StatusCode>) -> Option<Seq<char>> {
    match status {
        Some(code) => Some(status_line(code)),
        None => None,
    }
}

/// What is reported of a request once the transport is done with it. A response is a
/// success whatever its status: the record holds its declared length and its status
/// line. A failure of the transport is reported by the status line it carries, or else
/// by its message.
pub open spec fn spec_request_outcome(
    outcome: Result<reqwest::Response, reqwest::Error>,
) -> Result<RequestStatsView, Seq<char>> {
    match outcome {
        Ok(response) => Ok(
            spec_response_stats(
                response_content_length(response),
                status_line(response_status(response)),
            ),
        ),
        Err(error) => Err(
            spec_failure_reason(spec_status_line(error_status(error)), error_message(error)),
        ),
    }
}

/// What is reported of a request once the transport is done with it: the record of the
/// response, whatever its status, or the reason of the failure.
pub fn request_outcome(outcome: Result<reqwest::Response, reqwest::Error>) -> (result: Result<
    RequestStats,
    String,
>)
    ensures
        result is Ok <==> outcome is Ok,
        result matches Ok(stats) ==> spec_request_outcome(outcome) == Ok::<
            RequestStatsView,
            Seq<char>,
        >(stats@),
        result matches Err(reason) ==> spec_request_outcome(outcome) == Err::<
            RequestStatsView,
            Seq<char>,
        >(reason@),
        result matches Err(reason) ==> reason@.len() > 0,
{
    match outcome {
        Ok(response) => {
            let status = response.status();
            Ok(response_stats(response.content_length(), status_text(&status)))
        },
        Err(error) => {
            let status = match error.status() {
                Some(code) => Some(status_text(&code)),
                None => None,
            };
            Err(failure_reason(status, error_text(&error)))
        },
    }
}

/// A result of the transport with its error, if any, put as text.
pub open spec fn spec_error_as_text<T>(result: Result<T, reqwest::Error>) -> Result<
    T,
    Seq<char>,
> {
    match result {
        Ok(value) => Ok(value),
        Err(error) => Err(error_message(error)),
    }
}

/// Puts the error of a result of the transport, if any, as text, and leaves a success
/// as it is. The text is never empty.
pub fn error_as_text<T>(result: Result<T, reqwest::Error>) -> (text: Result<T, String>)
    ensures
        text matches Ok(value) ==> spec_error_as_text(result) == Ok::<T, Seq<char>>(value),
        text matches Err(reason) ==> spec_error_as_text(result) == Err::<T, Seq<char>>(reason@),
        text matches Err(reason) ==> reason@.len() > 0,
{
    match result {
        Ok(value) => Ok(value),
        Err(error) => Err(error_text(&error)),
    }
}

impl HttpBenchAdapter {
    /// Sets up the builder of a client for this configuration, without building it.
    /// Fails exactly where there is a tunnel whose address is not taken as that of a
    /// proxy, in the words of that refusal.
    pub fn configure_client(&self) -> (result: Result<reqwest::ClientBuilder, String>)
        ensures
            result is Ok <==> self@.tunnel_accepted(),
            result matches Ok(builder) ==> builder_settings(builder)
                == self@.client_settings(),
            result matches Err(reason) ==> reason@ == self@.tunnel_refusal() && reason@.len()
                > 0,
    {
        proof {
            lemma_user_agent_is_header_text();
        }
        let mut client_builder = reqwest::Client::builder().danger_accept_invalid_certs(
            self.ignore_cert,
        );
        client_builder = user_agent(client_builder, USER_AGENT);
        client_builder = client_builder.connection_verbose(self.verbose);
        client_builder = connect_timeout(client_builder, CONNECT_TIMEOUT_SECS);

        if self.http2_only {
            client_builder = client_builder.http2_prior_knowledge();
        }
        if !self.conn_reuse {
            client_builder = client_builder.pool_max_idle_per_host(0);
        }
        if let Some(tunnel) = &self.tunnel {
            match error_as_text(proxy_all(tunnel.as_str())) {
                Ok(proxy) => {
                    client_builder = client_builder.proxy(proxy);
                },
                Err(reason) => {
                    return Err(reason);
                },
            }
        }
        Ok(client_builder)
    }

    /// Builds a client for this configuration. Touches no network. Fails where there is
    /// a tunnel whose address is not taken as that of a proxy, in the words of that
    /// refusal, and where the transport cannot make the client, in the words of the
    /// transport. A client that comes back was built with the settings of this
    /// configuration.
    pub fn build_client(&self) -> (result: Result<reqwest::Client, String>)
        ensures
            !self@.tunnel_accepted() ==> (result matches Err(reason) && reason@
                == self@.tunnel_refusal()),
            result matches Ok(client) ==> client_settings(client) == self@.client_settings(),
            result matches Err(reason) ==> reason@.len() > 0,
    {
        match self.configure_client() {
            Ok(client_builder) => error_as_text(client_builder.build()),
            Err(reason) => Err(reason),
        }
    }

    /// Makes the one request that this adapter sends: a `GET` for its URL. Fails exactly
    /// where the URL is not taken as the target of a request, in the words of that
    /// refusal.
    pub fn build_request(&self, client: &reqwest::Client) -> (result: Result<
        reqwest::Request,
        String,
    >)
        ensures
            result matches Ok(request) ==> self@.request() == Ok::<reqwest::Request, Seq<char>>(
                request,
            ),
            result matches Err(reason) ==> self@.request() == Err::<reqwest::Request, Seq<char>>(
                reason@,
            ) && reason@.len() > 0,
    {
        error_as_text(get_request(client, self.url.as_str()))
    }
}

/// Assembles an [`HttpBenchAdapter`] field by field. Every field is required; for
/// `tunnel` the value may be `None`.
#[derive(Clone, Debug)]
pub struct HttpBenchAdapterBuilder {
    url: Option<String>,
    tunnel: Option<Option<String>>,
    ignore_cert: Option<bool>,
    conn_reuse: Option<bool>,
    store_cookies: Option<bool>,
    verbose: Option<bool>,
    http2_only: Option<bool>,
}

/// The mathematical value of an [`HttpBenchAdapterBuilder`]: what has been set so far.
pub struct HttpBenchAdapterBuilderView {
    pub url: Option<Seq<char>>,
    pub tunnel: Option<Option<Seq<char>>>,
    pub ignore_cert: Option<bool>,
    pub conn_reuse: Option<bool>,
    pub store_cookies: Option<bool>,
    pub verbose: Option<bool>,
    pub http2_only: Option<bool>,
}

impl HttpBenchAdapterBuilderView {
    /// The builder on which nothing has been set.
    pub open spec fn empty() -> Self {
        HttpBenchAdapterBuilderView {
            url: None,
            tunnel: None,
            ignore_cert: None,
            conn_reuse: None,
            store_cookies: None,
            verbose: None,
            http2_only: None,
        }
    }

    /// This builder after `url` has been set to `value`.
    pub open spec fn with_url(self, value: Seq<char>) -> Self {
        HttpBenchAdapterBuilderView { url: Some(value), ..self }
    }

    /// This builder after `tunnel` has been set to `value`.
    pub open spec fn with_tunnel(self, value: Option<Seq<char>>) -> Self {
        HttpBenchAdapterBuilderView { tunnel: Some(value), ..self }
    }

    /// This builder after `ignore_cert` has been set to `value`.
    pub open spec fn with_ignore_cert(self, value: bool) -> Self {
        HttpBenchAdapterBuilderView { ignore_cert: Some(value), ..self }
    }

    /// This builder after `conn_reuse` has been set to `value`.
    pub open spec fn with_conn_reuse(self, value: bool) -> Self {
        HttpBenchAdapterBuilderView { conn_reuse: Some(value), ..self }
    }

    /// This builder after `store_cookies` has been set to `value`.
    pub open spec fn with_store_cookies(self, value: bool) -> Self {
        HttpBenchAdapterBuilderView { store_cookies: Some(value), ..self }
    }

    /// This builder after `verbose` has been set to `value`.
    pub open spec fn with_verbose(self, value: bool) -> Self {
        HttpBenchAdapterBuilderView { verbose: Some(value), ..self }
    }

    /// This builder after `http2_only` has been set to `value`.
    pub open spec fn with_http2_only(self, value: bool) -> Self {
        HttpBenchAdapterBuilderView { http2_only: Some(value), ..self }
    }

    /// The name of the first field, in the order of their declaration, that has no value.
    pub open spec fn missing_field(self) -> Option<Seq<char>> {
        if self.url is None {
            Some("url"@)
        } else if self.tunnel is None {
            Some("tunnel"@)
        } else if self.ignore_cert is None {
            Some("ignore_cert"@)
        } else if self.conn_reuse is None {
            Some("conn_reuse"@)
        } else if self.store_cookies is None {
            Some("store_cookies"@)
        } else if self.verbose is None {
            Some("verbose"@)
        } else if self.http2_only is None {
            Some("http2_only"@)
        } else {
            None
        }
    }

    /// What building gives: the configuration, or the message that names the first field
    /// without a value.
    pub open spec fn built(self) -> Result<AdapterConfiguration, Seq<char>> {
        match self.missing_field() {
            Some(field) => Err(spec_uninitialized_field(field)),
            None => Ok(
                AdapterConfiguration {
                    url: self.url->0,
                    tunnel: self.tunnel->0,
                    ignore_cert: self.ignore_cert->0,
                    conn_reuse: self.conn_reuse->0,
                    store_cookies: self.store_cookies->0,
                    verbose: self.verbose->0,
                    http2_only: self.http2_only->0,
                },
            ),
        }
    }
}

impl View for HttpBenchAdapterBuilder {
    type V = HttpBenchAdapterBuilderView;

    closed spec fn view(&self) -> HttpBenchAdapterBuilderView {
        HttpBenchAdapterBuilderView {
            url: match self.url {
                Some(url) => Some(url@),
                None => None,
            },
            tunnel: match self.tunnel {
                Some(Some(tunnel)) => Some(Some(tunnel@)),
                Some(None) => Some(None),
                None => None,
            },
            ignore_cert: self.ignore_cert,
            conn_reuse: self.conn_reuse,
            store_cookies: self.store_cookies,
            verbose: self.verbose,
            http2_only: self.http2_only,
        }
    }
}

impl Default for HttpBenchAdapterBuilder {
    /// A builder on which nothing has been set.
    fn default() -> (builder: Self)
        ensures
            builder@ == HttpBenchAdapterBuilderView::empty(),
    {
        HttpBenchAdapterBuilder {
            url: None,
            tunnel: None,
            ignore_cert: None,
            conn_reuse: None,
            store_cookies: None,
            verbose: None,
            http2_only: None,
        }
    }
}

/// The mathematical value of an optional string.
pub open spec fn spec_optional_text(text: Option<String>) -> Option<Seq<char>> {
    match text {
        Some(text) => Some(text@),
        None => None,
    }
}

impl HttpBenchAdapterBuilder {
    /// Sets the target of every request.
    pub fn url(&mut self, value: String) -> (builder: &mut Self)
        ensures
            builder@ == old(self)@.with_url(value@),
            *final(self) == *final(builder),
    {
        self.url = Some(value);
        self
    }

    /// Sets the proxy through which all traffic goes, or that there is none.
    pub fn tunnel(&mut self, value: Option<String>) -> (builder: &mut Self)
        ensures
            builder@ == old(self)@.with_tunnel(spec_optional_text(value)),
            *final(self) == *final(builder),
    {
        self.tunnel = Some(value);
        self
    }

    /// Sets whether invalid certificates are accepted.
    pub fn ignore_cert(&mut self, value: bool) -> (builder: &mut Self)
        ensures
            builder@ == old(self)@.with_ignore_cert(value),
            *final(self) == *final(builder),
    {
        self.ignore_cert = Some(value);
        self
    }

    /// Sets whether idle connections are kept for later requests.
    pub fn conn_reuse(&mut self, value: bool) -> (builder: &mut Self)
        ensures
            builder@ == old(self)@.with_conn_reuse(value),
            *final(self) == *final(builder),
    {
        self.conn_reuse = Some(value);
        self
    }

    /// Sets whether cookies are kept between requests.
    pub fn store_cookies(&mut self, value: bool) -> (builder: &mut Self)
        ensures
            builder@ == old(self)@.with_store_cookies(value),
            *final(self) == *final(builder),
    {
        self.store_cookies = Some(value);
        self
    }

    /// Sets whether connections log what they read and write.
    pub fn verbose(&mut self, value: bool) -> (builder: &mut Self)
        ensures
            builder@ == old(self)@.with_verbose(value),
            *final(self) == *final(builder),
    {
        self.verbose = Some(value);
        self
    }

    /// Sets whether only HTTP/2 is spoken, without negotiating it.
    pub fn http2_only(&mut self, value: bool) -> (builder: &mut Self)
        ensures
            builder@ == old(self)@.with_http2_only(value),
            *final(self) == *final(builder),
    {
        self.http2_only = Some(value);
        self
    }

    /// Builds the adapter. Fails, naming the first field without a value, unless every
    /// field has been set.
    pub fn build(&self) -> (result: Result<HttpBenchAdapter, String>)
        ensures
            result is Ok <==> self@.missing_field() is None,
            result matches Ok(adapter) ==> self@.built() == Ok::<AdapterConfiguration, Seq<char>>(
                adapter@,
            ),
            result matches Err(message) ==> self@.built() == Err::<
                AdapterConfiguration,
                Seq<char>,
            >(message@),
    {
        let url = match &self.url {
            Some(url) => url.clone(),
            None => {
                return Err(uninitialized_field("url"));
            },
        };
        let tunnel = match &self.tunnel {
            Some(Some(tunnel)) => Some(tunnel.clone()),
            Some(None) => None,
            None => {
                return Err(uninitialized_field("tunnel"));
            },
        };
        let ignore_cert = match self.ignore_cert {
            Some(ignore_cert) => ignore_cert,
            None => {
                return Err(uninitialized_field("ignore_cert"));
            },
        };
        let conn_reuse = match self.conn_reuse {
            Some(conn_reuse) => conn_reuse,
            None => {
                return Err(uninitialized_field("conn_reuse"));
            },
        };
        let store_cookies = match self.store_cookies {
            Some(store_cookies) => store_cookies,
            None => {
                return Err(uninitialized_field("store_cookies"));
            },
        };
        let verbose = match self.verbose {
            Some(verbose) => verbose,
            None => {
                return Err(uninitialized_field("verbose"));
            },
        };
        let http2_only = match self.http2_only {
            Some(http2_only) => http2_only,
            None => {
                return Err(uninitialized_field("http2_only"));
            },
        };
        Ok(HttpBenchAdapter { url, tunnel, ignore_cert, conn_reuse, store_cookies, verbose, http2_only })
    }
}

/// A builder on which every field has been set builds, and the adapter holds exactly
/// the values that were set.
pub proof fn lemma_adapter_builder_round_trip(
    builder: HttpBenchAdapterBuilderView,
    configuration: AdapterConfiguration,
)
    ensures
        builder.with_url(configuration.url).with_tunnel(configuration.tunnel).with_ignore_cert(
            configuration.ignore_cert,
        ).with_conn_reuse(configuration.conn_reuse).with_store_cookies(
            configuration.store_cookies,
        ).with_verbose(configuration.verbose).with_http2_only(configuration.http2_only).built()
            == Ok::<AdapterConfiguration, Seq<char>>(configuration),
{
}

} // verus!
