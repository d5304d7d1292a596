//! The request with which a task opens the stream to a service endpoint,
//! and the check of what the endpoint answers.

use vstd::prelude::*;
use vstd::string::*;
use crate::error::InvocationTaskError;
use crate::protocol::EntryIndex;

verus! {

/// `opentelemetry::Context`, which carries the span a journal was written
/// under. The verifier sees nothing inside it.
#[verifier::external_type_specification]
#[verifier::external_body]
pub struct ExContext(opentelemetry::Context);

/// Where an endpoint listens: the parts of its address.
#[derive(Debug, PartialEq, Eq)]
pub struct EndpointAddress {
    pub scheme: String,
    pub authority: String,
    pub path: String,
}

/// How an endpoint talks: one request and one response, or both
/// directions at once.
#[derive(Clone, Copy, Debug, PartialEq, Eq, Structural)]
pub enum ProtocolType {
    RequestResponse,
    BidiStream,
}

#[derive(Debug, PartialEq, Eq)]
pub struct DeliveryOptions {
    /// Headers to add to every request, name and value.
    pub additional_headers: Vec<(String, String)>,
}

#[derive(Debug, PartialEq, Eq)]
pub struct EndpointMetadata {
    pub address: EndpointAddress,
    pub protocol_type: ProtocolType,
    pub delivery_options: DeliveryOptions,
}

/// What is known of a journal before its entries are read.
#[derive(Debug)]
pub struct JournalMetadata {
    pub method: String,
    pub tracing_context: opentelemetry::Context,
    pub journal_size: EntryIndex,
}

#[derive(Clone, Copy, Debug, PartialEq, Eq, Structural)]
pub enum HttpMethod {
    Post,
}

#[derive(Clone, Copy, Debug, PartialEq, Eq, Structural)]
pub enum HttpVersion {
    /// Whatever the client negotiates.
    Negotiated,
    /// HTTP/2, and nothing else.
    Http2,
}

/// Everything of a request but its body.
#[derive(Debug, PartialEq, Eq)]
pub struct RequestHead {
    pub method: HttpMethod,
    pub uri: String,
    pub version: HttpVersion,
    pub headers: Vec<(String, String)>,
}

/// A `RequestHead` by its characters.
pub struct RequestHeadView {
    pub method: HttpMethod,
    pub uri: Seq<char>,
    pub version: HttpVersion,
    pub headers: Seq<(Seq<char>, Seq<char>)>,
}

/// Headers by their characters.
pub open spec fn header_views(headers: Seq<(String, String)>) -> Seq<(Seq<char>, Seq<char>)> {
    Seq::new(headers.len(), |i: int| (headers[i].0@, headers[i].1@))
}

impl View for RequestHead {
    type V = RequestHeadView;

    open spec fn view(&self) -> RequestHeadView {
        RequestHeadView {
            method: self.method,
            uri: self.uri@,
            version: self.version,
            headers: header_views(self.headers@),
        }
    }
}

/// A path without the slash it may end in.
pub open spec fn without_trailing_slash(path: Seq<char>) -> Seq<char> {
    if path.len() > 0 && path.last() == '/' {
        path.drop_last()
    } else {
        path
    }
}

/// Fragments with a slash between each two.
pub open spec fn joined(fragments: Seq<Seq<char>>) -> Seq<char>
    decreases fragments.len(),
{
    if fragments.len() == 0 {
        Seq::empty()
    } else if fragments.len() == 1 {
        fragments[0]
    } else {
        joined(fragments.drop_last()) + seq!['/'] + fragments.last()
    }
}

/// The path under `path` that the fragments name.
pub open spec fn appended_path(path: Seq<char>, fragments: Seq<Seq<char>>) -> Seq<char> {
    without_trailing_slash(path) + seq!['/'] + joined(fragments)
}

/// Fragments by their characters.
pub open spec fn fragment_views(fragments: Seq<&str>) -> Seq<Seq<char>> {
    Seq::new(fragments.len(), |i: int| fragments[i]@)
}

/// Appends the fragments to `path`, each after a slash. A slash at the end
/// of `path` is not doubled.
pub fn append_path(path: &str, fragments: &[&str]) -> (appended: String)
    ensures
        appended@ == appended_path(path@, fragment_views(fragments@)),
{
    proof {
        reveal_strlit("/");
    }
    let length = path.unicode_len();
    let base = if length > 0 && path.get_char(length - 1) == '/' {
        path.substring_char(0, length - 1)
    } else {
        path
    };
    let mut appended = String::from_str(base);
    appended.append("/");
    let ghost views = fragment_views(fragments@);
    let mut i: usize = 0;
    while i < fragments.len()
        invariant
            i <= fragments.len(),
            views == fragment_views(fragments@),
            "/"@ == seq!['/'],
            appended@ == without_trailing_slash(path@) + seq!['/'] + joined(views.take(i as int)),
        decreases fragments.len() - i,
    {
        if i > 0 {
            appended.append("/");
        }
        appended.append(fragments[i]);
        assert(views.take(i + 1).drop_last() =~= views.take(i as int));
        i += 1;
    }
    assert(views.take(fragments.len() as int) =~= views);
    appended
}

/// What `build_uri` answers: the address that the http crate makes of a
/// scheme, an authority and a path, or nothing where it refuses them.
pub uninterp spec fn uri_of_parts(
    scheme: Seq<char>,
    authority: Seq<char>,
    path_and_query: Seq<char>,
) -> Option<Seq<char>>;

/// Calls `Uri::builder()` of the http crate, as hyper hands it on, with
/// `scheme`, `authority` and `path_and_query`, then `build()`, and writes
/// the address out. The result is named `uri_of_parts`; the crate parses
/// the three texts and reads nothing else.
#[verifier::external_body]
fn build_uri(scheme: &str, authority: &str, path_and_query: &str) -> (uri: Option<String>)
    ensures
        match uri {
            Some(text) => uri_of_parts(scheme@, authority@, path_and_query@) == Some(text@),
            None => uri_of_parts(scheme@, authority@, path_and_query@) is None,
        },
{
    hyper::Uri::builder()
        .scheme(scheme)
        .authority(authority)
        .path_and_query(path_and_query)
        .build()
        .ok()
        .map(|uri| uri.to_string())
}

/// Whether these are headers of the W3C trace context, whatever their
/// values, and no others.
pub open spec fn is_trace_context(headers: Seq<(Seq<char>, Seq<char>)>) -> bool {
    forall|i: int|
        0 <= i < headers.len() ==> (#[trigger] headers[i]).0 == "traceparent"@ || headers[i].0
            == "tracestate"@
}

/// What `trace_context_headers` answers: the headers under which the
/// propagator hands on the span of a context, name and value, in the order
/// in which the header map lists them.
pub uninterp spec fn trace_context_of(context: opentelemetry::Context) -> Seq<
    (Seq<char>, Seq<char>),
>;

/// Calls `TraceContextPropagator::inject_context` of opentelemetry on an
/// empty header map, through `HeaderInjector` of opentelemetry-http, and
/// hands out the headers it wrote, name and value. The result is named
/// `trace_context_of`: the propagator reads the span of the context and
/// nothing else. It writes under the names `traceparent` and `tracestate`
/// and under no other.
#[verifier::external_body]
fn trace_context_headers(context: &opentelemetry::Context) -> (headers: Vec<(String, String)>)
    ensures
        header_views(headers@) == trace_context_of(*context),
        is_trace_context(header_views(headers@)),
{
    let mut headers = hyper::http::HeaderMap::new();
    opentelemetry::propagation::TextMapPropagator::inject_context(
        &opentelemetry::sdk::propagation::TraceContextPropagator::new(),
        context,
        &mut opentelemetry_http::HeaderInjector(&mut headers),
    );
    headers
        .iter()
        .map(|(name, value)| {
            (name.as_str().to_string(), String::from_utf8_lossy(value.as_bytes()).into_owned())
        })
        .collect()
}

/// The address of the handler `method` of `service_name` at an endpoint:
/// the endpoint's scheme and authority, and under its path the service
/// and the method.
pub open spec fn request_uri_of(
    address: EndpointAddress,
    service_name: Seq<char>,
    method: Seq<char>,
) -> Option<Seq<char>> {
    uri_of_parts(
        address.scheme@,
        address.authority@,
        appended_path(address.path@, seq![service_name, method]),
    )
}

/// The address to post to, or nothing if the parts make no address.
pub fn request_uri(address: &EndpointAddress, service_name: &str, method: &str) -> (uri: Option<
    String,
>)
    ensures
        match uri {
            Some(text) => request_uri_of(*address, service_name@, method@) == Some(text@),
            None => request_uri_of(*address, service_name@, method@) is None,
        },
{
    let mut fragments: Vec<&str> = Vec::new();
    fragments.push(service_name);
    fragments.push(method);
    assert(fragment_views(fragments@) =~= seq![service_name@, method@]);
    let path = append_path(address.path.as_str(), fragments.as_slice());
    build_uri(address.scheme.as_str(), address.authority.as_str(), path.as_str())
}

/// The head of the request that opens a stream: a POST to `uri` that
/// declares the protocol's content type, insists on HTTP/2 where the
/// endpoint talks in both directions at once, carries the trace context,
/// and ends in the endpoint's additional headers, as they are.
pub open spec fn request_head_of(
    uri: Seq<char>,
    protocol_type: ProtocolType,
    trace_context: Seq<(Seq<char>, Seq<char>)>,
    additional: Seq<(Seq<char>, Seq<char>)>,
) -> RequestHeadView {
    RequestHeadView {
        method: HttpMethod::Post,
        uri,
        version: if protocol_type is BidiStream {
            HttpVersion::Http2
        } else {
            HttpVersion::Negotiated
        },
        headers: seq![("content-type"@, "application/restate"@)] + trace_context + additional,
    }
}

/// Appends a copy of each of `more` to `headers`.
fn extend_headers(headers: &mut Vec<(String, String)>, more: &Vec<(String, String)>)
    ensures
        header_views(final(headers)@) == header_views(old(headers)@) + header_views(more@),
{
    let ghost before = header_views(headers@);
    let mut i: usize = 0;
    while i < more.len()
        invariant
            i <= more.len(),
            header_views(headers@) == before + header_views(more@).take(i as int),
        decreases more.len() - i,
    {
        let name = more[i].0.clone();
        let value = more[i].1.clone();
        let ghost so_far = headers@;
        headers.push((name, value));
        i += 1;
        assert(header_views(headers@) =~= header_views(so_far).push((name@, value@)));
    }
}

/// Assembles the head of the request that opens a stream.
pub fn request_head(
    uri: String,
    protocol_type: ProtocolType,
    trace_context: &Vec<(String, String)>,
    additional: &Vec<(String, String)>,
) -> (head: RequestHead)
    ensures
        head@ == request_head_of(
            uri@,
            protocol_type,
            header_views(trace_context@),
            header_views(additional@),
        ),
{
    let mut headers: Vec<(String, String)> = Vec::new();
    headers.push((String::from_str("content-type"), String::from_str("application/restate")));
    assert(header_views(headers@) =~= seq![("content-type"@, "application/restate"@)]);
    extend_headers(&mut headers, trace_context);
    extend_headers(&mut headers, additional);
    let version = match protocol_type {
        ProtocolType::BidiStream => HttpVersion::Http2,
        ProtocolType::RequestResponse => HttpVersion::Negotiated,
    };
    RequestHead { method: HttpMethod::Post, uri, version, headers }
}

/// The head of the request that opens the stream of an invocation of
/// `service_name`, if endpoint, service and method make an address: see
/// `request_head_of`. The trace context goes into the headers as the
/// propagator writes it.
pub open spec fn prepared_request(
    endpoint: EndpointMetadata,
    service_name: Seq<char>,
    journal_metadata: JournalMetadata,
) -> Option<RequestHeadView> {
    match request_uri_of(endpoint.address, service_name, journal_metadata.method@) {
        Some(uri) => Some(
            request_head_of(
                uri,
                endpoint.protocol_type,
                trace_context_of(journal_metadata.tracing_context),
                header_views(endpoint.delivery_options.additional_headers@),
            ),
        ),
        None => None,
    }
}

/// Prepares the request that opens the stream of an invocation of
/// `service_name`. Answers nothing if endpoint, service and method make no
/// address.
pub fn prepare_request(
    endpoint: &EndpointMetadata,
    service_name: &str,
    journal_metadata: &JournalMetadata,
) -> (head: Option<RequestHead>)
    ensures
        match head {
            Some(head) => Some(head@),
            None => None,
        } == prepared_request(*endpoint, service_name@, *journal_metadata),
        head is Some ==> is_trace_context(trace_context_of(journal_metadata.tracing_context)),
{
    match request_uri(&endpoint.address, service_name, journal_metadata.method.as_str()) {
        Some(uri) => {
            let trace_context = trace_context_headers(&journal_metadata.tracing_context);
            Some(
                request_head(
                    uri,
                    endpoint.protocol_type,
                    &trace_context,
                    &endpoint.delivery_options.additional_headers,
                ),
            )
        },
        None => None,
    }
}

/// An answer is valid if its status is a success, from 200 up to 299, and
/// its content type is the protocol's.
pub open spec fn valid_response(status: u16, content_type: Option<String>) -> bool {
    &&& 200 <= status < 300
    &&& content_type matches Some(text)
    &&& text@ == "application/restate"@
}

/// Checks the head of the endpoint's answer. A status that is no success
/// is reported first, then a content type that is missing or not the
/// protocol's.
pub fn validate_response(status: u16, content_type: Option<String>) -> (checked: Result<
    (),
    InvocationTaskError,
>)
    ensures
        checked is Ok <==> valid_response(status, content_type),
        !(200 <= status < 300) ==> checked == Err::<(), InvocationTaskError>(
            InvocationTaskError::UnexpectedResponse(status),
        ),
        200 <= status < 300 && !valid_response(status, content_type) ==> checked == Err::<
            (),
            InvocationTaskError,
        >(InvocationTaskError::UnexpectedContentType(content_type)),
{
    if !(200 <= status && status < 300) {
        return Err(InvocationTaskError::UnexpectedResponse(status));
    }
    match content_type {
        Some(text) => {
            let expected = String::from_str("application/restate");
            if text == expected {
                Ok(())
            } else {
                Err(InvocationTaskError::UnexpectedContentType(Some(text)))
            }
        },
        None => Err(InvocationTaskError::UnexpectedContentType(None)),
    }
}

} // verus!
