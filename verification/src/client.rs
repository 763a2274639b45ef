//! The decisions of the dispatch client: where a request goes, how its body is sent,
//! and what the caller is told once the transport has answered. Sending itself is left
//! to whoever owns the connection pool.

use crate::error::ErrorKind;
use crate::request::{Request, RequestView};
use crate::text::{same_text, starts_with};
use crate::wire::{BodyEncoding, Method, WireRequest, WireRequestView};
use vstd::prelude::*;

verus! {

/// The address the engine listens on unless configured otherwise.
pub open spec fn default_base_url() -> Seq<char> {
    "http://localhost:8001"@
}

/// How many seconds a round trip may take unless configured otherwise.
pub const DEFAULT_TIMEOUT_SECS: u64 = 30;

/// The routes whose body is raw text: every upload, and the transform route.
pub open spec fn is_text_route(path: Seq<char>) -> bool {
    "/upload/"@.is_prefix_of(path) || path == "/transform"@
}

/// The content negotiation rule. No body: nothing is sent. A body on a text route goes
/// out as raw text, provided the request declared it as such; one declared otherwise
/// cannot be sent there. A body on any other route goes out as structured content.
pub open spec fn negotiated(request: WireRequestView) -> Result<BodyEncoding, ErrorKind> {
    if request.body is None {
        Ok(BodyEncoding::Empty)
    } else if is_text_route(request.path) {
        if request.encoding == BodyEncoding::Text {
            Ok(BodyEncoding::Text)
        } else {
            Err(ErrorKind::UnsupportedBodyType)
        }
    } else {
        Ok(BodyEncoding::Structured)
    }
}

/// A request ready for the transport.
#[derive(Debug, PartialEq, Eq)]
pub struct Outbound {
    pub method: Method,
    pub url: String,
    pub content_type: Option<String>,
    pub body: Option<String>,
    pub encoding: BodyEncoding,
    pub timeout_secs: u64,
}

/// The mathematical content of an [`Outbound`].
pub struct OutboundView {
    pub method: Method,
    pub url: Seq<char>,
    pub content_type: Option<Seq<char>>,
    pub body: Option<Seq<char>>,
    pub encoding: BodyEncoding,
    pub timeout_secs: u64,
}

impl View for Outbound {
    type V = OutboundView;

    open spec fn view(&self) -> OutboundView {
        OutboundView {
            method: self.method,
            url: self.url@,
            content_type: self.content_type.deep_view(),
            body: self.body.deep_view(),
            encoding: self.encoding,
            timeout_secs: self.timeout_secs,
        }
    }
}

/// What `client` sends for `request` when its body goes out as `encoding`: the
/// absolute URL is the base address followed by the path, method and body are those of
/// the request, unchanged, and the round trip is bounded by the client's timeout.
pub open spec fn outbound_for(
    client: MorkApiClientView,
    request: WireRequestView,
    encoding: BodyEncoding,
) -> OutboundView {
    OutboundView {
        method: request.method,
        url: client.base_url + request.path,
        content_type: encoding.media_type(),
        body: request.body,
        encoding,
        timeout_secs: client.timeout_secs,
    }
}

/// How one round trip ended.
#[derive(Debug, PartialEq, Eq)]
pub enum TransportOutcome {
    /// The request could not be delivered, or no response arrived.
    SendFailed,
    /// A response arrived, but its body is not text.
    BodyUnreadable,
    /// A response arrived with this body.
    Body(String),
}

/// What the caller is told for each way a round trip can end: the response text as it
/// came, or the error that names the failure.
pub open spec fn reported(outcome: TransportOutcome) -> Result<String, ErrorKind> {
    match outcome {
        TransportOutcome::SendFailed => Err(ErrorKind::TransportError),
        TransportOutcome::BodyUnreadable => Err(ErrorKind::ResponseDecodeError),
        TransportOutcome::Body(text) => Ok(text),
    }
}

/// The dispatch client's fixed configuration: the base address of the engine and the
/// time one round trip may take.
pub struct MorkApiClient {
    base_url: String,
    timeout_secs: u64,
}

/// The mathematical content of a [`MorkApiClient`].
pub struct MorkApiClientView {
    pub base_url: Seq<char>,
    pub timeout_secs: u64,
}

impl View for MorkApiClient {
    type V = MorkApiClientView;

    closed spec fn view(&self) -> MorkApiClientView {
        MorkApiClientView { base_url: self.base_url@, timeout_secs: self.timeout_secs }
    }
}

impl MorkApiClient {
    /// A client for the engine at the configured address, or at the default address
    /// where none is configured, with the default timeout. The address is taken once
    /// and never resolved again.
    pub fn new(configured: Option<String>) -> (client: MorkApiClient)
        ensures
            client@.base_url == match configured {
                Some(url) => url@,
                None => default_base_url(),
            },
            client@.timeout_secs == DEFAULT_TIMEOUT_SECS,
    {
        let base_url: String = match configured {
            Some(url) => url,
            None => String::from_str("http://localhost:8001"),
        };
        MorkApiClient { base_url, timeout_secs: DEFAULT_TIMEOUT_SECS }
    }

    /// The same client with each round trip bounded by `seconds`.
    pub fn timeout(self, seconds: u64) -> (client: MorkApiClient)
        ensures
            client@ == (MorkApiClientView { timeout_secs: seconds, ..self@ }),
    {
        let mut client = self;
        client.timeout_secs = seconds;
        client
    }

    /// The base address of the engine.
    pub fn base_url(&self) -> (url: &str)
        ensures
            url@ == self@.base_url,
    {
        self.base_url.as_str()
    }

    /// The number of seconds one round trip may take.
    pub fn timeout_secs(&self) -> (seconds: u64)
        ensures
            seconds == self@.timeout_secs,
    {
        self.timeout_secs
    }

    /// The absolute URL of a request path: the base address followed by the path.
    pub fn url_for(&self, path: &str) -> (url: String)
        ensures
            url@ == self@.base_url + path@,
    {
        let mut url: String = self.base_url.clone();
        url.append(path);
        url
    }

    /// Decides how the body of `request` is sent. A request whose path begins with
    /// `/upload/` is never sent as structured content.
    pub fn select_encoding(request: &WireRequest) -> (selected: Result<BodyEncoding, ErrorKind>)
        ensures
            selected == negotiated(request@),
            "/upload/"@.is_prefix_of(request@.path) ==> !(selected matches Ok(
                BodyEncoding::Structured,
            )),
    {
        if request.body.is_none() {
            return Ok(BodyEncoding::Empty);
        }
        let path: &str = request.path.as_str();
        if starts_with(path, "/upload/") || same_text(path, "/transform") {
            match request.encoding {
                BodyEncoding::Text => Ok(BodyEncoding::Text),
                _ => Err(ErrorKind::UnsupportedBodyType),
            }
        } else {
            Ok(BodyEncoding::Structured)
        }
    }

    /// Turns a wire request into what the transport sends: the absolute URL, the
    /// negotiated encoding with its content type, and the body unchanged. Fails with
    /// [`ErrorKind::UnsupportedBodyType`] exactly where negotiation does.
    pub fn prepare(&self, request: &WireRequest) -> (prepared: Result<Outbound, ErrorKind>)
        ensures
            match negotiated(request@) {
                Ok(encoding) => prepared matches Ok(outbound) && outbound@ == outbound_for(
                    self@,
                    request@,
                    encoding,
                ),
                Err(error) => prepared matches Err(e) && e == error,
            },
            "/upload/"@.is_prefix_of(request@.path) ==> !(prepared matches Ok(outbound)
                && outbound.encoding == BodyEncoding::Structured),
    {
        match MorkApiClient::select_encoding(request) {
            Ok(encoding) => Ok(self.assemble(request, encoding)),
            Err(error) => Err(error),
        }
    }

    /// Turns a built operation into what the transport sends. Nothing a builder
    /// produces is ever refused, and an upload always goes out as raw text.
    pub fn outbound(&self, request: &Request) -> (outbound: Outbound)
        ensures
            negotiated(request@.wire()) == Ok::<BodyEncoding, ErrorKind>(request@.encoding()),
            outbound@ == outbound_for(self@, request@.wire(), request@.encoding()),
            "/upload/"@.is_prefix_of(request@.path()) ==> outbound.encoding == BodyEncoding::Text,
    {
        proof {
            lemma_built_requests_are_sendable(request@);
            if "/upload/"@.is_prefix_of(request@.path()) {
                lemma_upload_is_raw_text(request@);
            }
        }
        let wire: WireRequest = request.wire();
        self.assemble(&wire, request.encoding())
    }

    /// What is sent for `request` with its body going out as `encoding`.
    fn assemble(&self, request: &WireRequest, encoding: BodyEncoding) -> (outbound: Outbound)
        ensures
            outbound@ == outbound_for(self@, request@, encoding),
    {
        let body: Option<String> = match &request.body {
            Some(text) => Some(text.clone()),
            None => None,
        };
        Outbound {
            method: request.method,
            url: self.url_for(request.path.as_str()),
            content_type: encoding.content_type(),
            body,
            encoding,
            timeout_secs: self.timeout_secs,
        }
    }

    /// Reports how a round trip ended. A transport failure is a
    /// [`ErrorKind::TransportError`], an unreadable body a
    /// [`ErrorKind::ResponseDecodeError`]; a text body is handed on as it came. Nothing
    /// is retried and nothing is parsed.
    pub fn conclude(outcome: TransportOutcome) -> (result: Result<String, ErrorKind>)
        ensures
            result == reported(outcome),
    {
        match outcome {
            TransportOutcome::SendFailed => Err(ErrorKind::TransportError),
            TransportOutcome::BodyUnreadable => Err(ErrorKind::ResponseDecodeError),
            TransportOutcome::Body(text) => Ok(text),
        }
    }
}

impl Default for MorkApiClient {
    /// A client for the engine at the default address.
    fn default() -> (client: MorkApiClient)
        ensures
            client@.base_url == default_base_url(),
            client@.timeout_secs == DEFAULT_TIMEOUT_SECS,
    {
        MorkApiClient::new(None)
    }
}

/// Every operation the builders produce can be sent: negotiation never refuses it.
pub proof fn lemma_built_requests_are_sendable(request: RequestView)
    ensures
        request.wire().coherent(),
        negotiated(request.wire()) == Ok::<BodyEncoding, ErrorKind>(request.encoding()),
{
    reveal_strlit("/upload/");
    reveal_strlit("/transform");
}

/// For any built request whose path begins with `/upload/`, the body is sent as raw
/// text, never as structured content.
pub proof fn lemma_upload_is_raw_text(request: RequestView)
    requires
        "/upload/"@.is_prefix_of(request.path()),
    ensures
        negotiated(request.wire()) == Ok::<BodyEncoding, ErrorKind>(BodyEncoding::Text),
        request is Upload,
{
    reveal_strlit("/upload/");
    reveal_strlit("/transform");
    reveal_strlit("/import/");
    reveal_strlit("/export/");
    reveal_strlit("/explore/");
    reveal_strlit("/clear/");
    let path = request.path();
    assert("/upload/"@[1] == 'u');
    assert(path.subrange(0, 8)[1] == path[1]);
    match request {
        RequestView::Transform(r) => {
            assert(path[1] == 't');
        },
        RequestView::Import(r) => {
            assert(path[1] == 'i');
        },
        RequestView::Read(r) => {
            assert(path[1] == 'e');
        },
        RequestView::Explore(r) => {
            assert(path[1] == 'e');
        },
        RequestView::Upload(r) => {},
        RequestView::Export(r) => {
            assert(path[1] == 'e');
        },
        RequestView::Clear(r) => {
            assert(path[1] == 'c');
        },
    }
}

/// Whatever the request, a path that begins with `/upload/` never has its body sent as
/// structured content.
pub proof fn lemma_upload_route_never_structured(request: WireRequestView)
    requires
        "/upload/"@.is_prefix_of(request.path),
    ensures
        negotiated(request) != Ok::<BodyEncoding, ErrorKind>(BodyEncoding::Structured),
{
}

} // verus!
