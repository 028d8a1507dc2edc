//! The session-authenticated client of the daemon's HTTP interface.
//!
//! The client sends nothing itself. Each operation comes in two halves: one
//! that builds the request to send, and one that judges the answer. The
//! session is unauthenticated until a login has been answered with a success
//! status, and no submission request is built before that.

use vstd::prelude::*;
use vstd::utf8::encode_utf8;
use crate::text::{concat2, option_text, str_eq};

verus! {

/// Path of the daemon's login endpoint.
pub const LOGIN_PATH: &'static str = "/api/v2/auth/login";

/// Path of the daemon's endpoint that accepts new torrents.
pub const ADD_TORRENT_PATH: &'static str = "/api/v2/torrents/add";

/// Path of the daemon's version endpoint.
pub const VERSION_PATH: &'static str = "/api/v2/app/version";

/// The body by which the daemon confirms that it took a torrent.
pub const SUCCESS_SENTINEL: &'static str = "Ok.";

/// Why an operation of the client failed.
#[derive(Debug, Clone, PartialEq, Eq)]
pub enum ClientError {
    /// The configured address is no absolute URL, or no endpoint can be
    /// resolved against it.
    InvalidEndpoint,
    /// The daemon did not answer the login with a success status, or no
    /// login has succeeded on this session yet.
    AuthenticationFailed,
    /// The daemon did not confirm the submission. `response` is the body it
    /// answered with, if an answer arrived at all.
    SubmissionRejected { response: Option<String> },
}

/// Mathematical value of a [`ClientError`].
pub enum ClientErrorView {
    InvalidEndpoint,
    AuthenticationFailed,
    SubmissionRejected { response: Option<Seq<char>> },
}

impl View for ClientError {
    type V = ClientErrorView;

    open spec fn view(&self) -> ClientErrorView {
        match *self {
            ClientError::InvalidEndpoint => ClientErrorView::InvalidEndpoint,
            ClientError::AuthenticationFailed => ClientErrorView::AuthenticationFailed,
            ClientError::SubmissionRejected { response } => ClientErrorView::SubmissionRejected {
                response: option_text(response),
            },
        }
    }
}

/// One torrent source to hand to the daemon: a magnet link or another URL,
/// or the content of a `.torrent` file.
#[derive(Debug, Clone, PartialEq, Eq)]
pub enum RequestType {
    Url(String),
    File(Vec<u8>),
}

/// Mathematical value of a [`RequestType`].
pub enum RequestTypeView {
    Url(Seq<char>),
    File(Seq<u8>),
}

impl View for RequestType {
    type V = RequestTypeView;

    open spec fn view(&self) -> RequestTypeView {
        match *self {
            RequestType::Url(text) => RequestTypeView::Url(text@),
            RequestType::File(content) => RequestTypeView::File(content@),
        }
    }
}

/// One part of a multipart form.
#[derive(Debug, Clone, PartialEq, Eq)]
pub struct Part {
    pub content: Vec<u8>,
    pub file_name: Option<String>,
    pub mime: Option<String>,
}

/// Mathematical value of a [`Part`].
pub struct PartView {
    pub content: Seq<u8>,
    pub file_name: Option<Seq<char>>,
    pub mime: Option<Seq<char>>,
}

impl View for Part {
    type V = PartView;

    open spec fn view(&self) -> PartView {
        PartView {
            content: self.content@,
            file_name: option_text(self.file_name),
            mime: option_text(self.mime),
        }
    }
}

/// The form field and the part under which the daemon expects a source.
///
/// A URL travels as the bytes of its text in the field `urls`, with neither
/// file name nor content type. A file travels unchanged in the field
/// `torrents`, named `torrent.torrent`, as `application/x-bittorrent`.
pub open spec fn part_of(source: RequestTypeView) -> (Seq<char>, PartView) {
    match source {
        RequestTypeView::Url(text) => (
            "urls"@,
            PartView { content: encode_utf8(text), file_name: None, mime: None },
        ),
        RequestTypeView::File(content) => (
            "torrents"@,
            PartView {
                content,
                file_name: Some("torrent.torrent"@),
                mime: Some("application/x-bittorrent"@),
            },
        ),
    }
}

impl RequestType {
    /// The form field and the part that carry this source.
    pub fn to_part(self) -> (named: (&'static str, Part))
        ensures
            (named.0@, named.1@) == part_of(self@),
    {
        match self {
            RequestType::Url(text) => (
                "urls",
                Part { content: text.as_str().as_bytes_vec(), file_name: None, mime: None },
            ),
            RequestType::File(content) => (
                "torrents",
                Part {
                    content,
                    file_name: Some(String::from_str("torrent.torrent")),
                    mime: Some(String::from_str("application/x-bittorrent")),
                },
            ),
        }
    }
}

/// The method of a request.
#[derive(Debug, Clone, Copy, PartialEq, Eq)]
pub enum HttpMethod {
    Get,
    Post,
}

/// One header line of a request.
#[derive(Debug, Clone, PartialEq, Eq)]
pub struct Header {
    pub name: String,
    pub value: String,
}

/// Mathematical value of a [`Header`].
pub struct HeaderView {
    pub name: Seq<char>,
    pub value: Seq<char>,
}

impl View for Header {
    type V = HeaderView;

    open spec fn view(&self) -> HeaderView {
        HeaderView { name: self.name@, value: self.value@ }
    }
}

/// What a request carries.
#[derive(Debug, Clone, PartialEq, Eq)]
pub enum HttpBody {
    Empty,
    /// Text sent as it stands.
    Text(String),
    /// A multipart form with one part, in the field `name`.
    Multipart { name: String, part: Part },
}

/// Mathematical value of an [`HttpBody`].
pub enum HttpBodyView {
    Empty,
    Text(Seq<char>),
    Multipart { name: Seq<char>, part: PartView },
}

impl View for HttpBody {
    type V = HttpBodyView;

    open spec fn view(&self) -> HttpBodyView {
        match *self {
            HttpBody::Empty => HttpBodyView::Empty,
            HttpBody::Text(text) => HttpBodyView::Text(text@),
            HttpBody::Multipart { name, part } => HttpBodyView::Multipart {
                name: name@,
                part: part@,
            },
        }
    }
}

/// A request for the host program to send to the daemon.
#[derive(Debug, Clone, PartialEq, Eq)]
pub struct HttpRequest {
    pub method: HttpMethod,
    pub url: String,
    pub headers: Vec<Header>,
    pub body: HttpBody,
}

/// Mathematical value of an [`HttpRequest`].
pub struct HttpRequestView {
    pub method: HttpMethod,
    pub url: Seq<char>,
    pub headers: Seq<HeaderView>,
    pub body: HttpBodyView,
}

impl View for HttpRequest {
    type V = HttpRequestView;

    open spec fn view(&self) -> HttpRequestView {
        HttpRequestView {
            method: self.method,
            url: self.url@,
            headers: self.headers@.map_values(|h: Header| h@),
            body: self.body@,
        }
    }
}

/// The daemon's answer to a request, as far as the client reads it.
#[derive(Debug, Clone, PartialEq, Eq)]
pub struct HttpResponse {
    pub status: u16,
    pub body: String,
}

/// Mathematical value of an [`HttpResponse`].
pub struct HttpResponseView {
    pub status: u16,
    pub body: Seq<char>,
}

impl View for HttpResponse {
    type V = HttpResponseView;

    open spec fn view(&self) -> HttpResponseView {
        HttpResponseView { status: self.status, body: self.body@ }
    }
}

/// The view of an optional answer.
pub open spec fn option_response(o: Option<HttpResponse>) -> Option<HttpResponseView> {
    match o {
        Some(r) => Some(r@),
        None => None,
    }
}

/// A success status is one from 200 to 299.
pub open spec fn is_success(status: u16) -> bool {
    200 <= status < 300
}

/// Whether `status` is a success status.
pub fn status_is_success(status: u16) -> (success: bool)
    ensures
        success == is_success(status),
{
    200 <= status && status < 300
}

/// What `reqwest::Url::parse` makes of a text: the serialisation of the URL
/// that it read, or nothing where it refuses the text.
pub uninterp spec fn parsed_url(input: Seq<char>) -> Option<Seq<char>>;

/// What `reqwest::Url::join` makes of `reference` against the URL that
/// `reqwest::Url::parse` reads from `base`: the serialisation of the
/// resulting URL, or nothing where either call refuses.
pub uninterp spec fn joined_url(base: Seq<char>, reference: Seq<char>) -> Option<Seq<char>>;

/// Calls `reqwest::Url::parse` and hands back the URL as text.
///
/// The parser reads nothing but its argument, so the result is the same for
/// the same text; the contract gives that result its name and claims no
/// more.
#[verifier::external_body]
fn parse_url(input: &str) -> (parsed: Option<String>)
    ensures
        option_text(parsed) == parsed_url(input@),
{
    match reqwest::Url::parse(input) {
        Ok(url) => Some(String::from(url)),
        Err(_) => None,
    }
}

/// Calls `reqwest::Url::join` on the URL that `base` spells, and hands back
/// the joined URL as text.
///
/// `base` is parsed anew by `reqwest::Url::parse`, since the session keeps
/// its address as text. Both calls read nothing but their arguments; the
/// contract gives their combined result its name and claims no more.
#[verifier::external_body]
fn join_url(base: &str, reference: &str) -> (joined: Option<String>)
    ensures
        option_text(joined) == joined_url(base@, reference@),
{
    match reqwest::Url::parse(base) {
        Ok(url) => match url.join(reference) {
            Ok(target) => Some(String::from(target)),
            Err(_) => None,
        },
        Err(_) => None,
    }
}

/// A session with one daemon: its address, and whether a login succeeded.
#[derive(Debug, Clone, PartialEq, Eq)]
pub struct QBittorrentClient {
    base_url: String,
    authenticated: bool,
}

/// Mathematical value of a [`QBittorrentClient`].
pub struct QBittorrentClientView {
    pub base_url: Seq<char>,
    pub authenticated: bool,
}

impl View for QBittorrentClient {
    type V = QBittorrentClientView;

    closed spec fn view(&self) -> QBittorrentClientView {
        QBittorrentClientView { base_url: self.base_url@, authenticated: self.authenticated }
    }
}

/// The view of a result that holds a session.
pub open spec fn client_result(r: Result<QBittorrentClient, ClientError>) -> Result<
    QBittorrentClientView,
    ClientErrorView,
> {
    match r {
        Ok(client) => Ok(client@),
        Err(e) => Err(e@),
    }
}

/// The view of a result that holds a request.
pub open spec fn request_result(r: Result<HttpRequest, ClientError>) -> Result<
    HttpRequestView,
    ClientErrorView,
> {
    match r {
        Ok(request) => Ok(request@),
        Err(e) => Err(e@),
    }
}

/// The view of a result that holds nothing.
pub open spec fn unit_result(r: Result<(), ClientError>) -> Result<(), ClientErrorView> {
    match r {
        Ok(_) => Ok(()),
        Err(e) => Err(e@),
    }
}

/// A fresh session for a parsed address: unauthenticated. Without an
/// address there is no session.
pub open spec fn opened(parsed: Option<Seq<char>>) -> Result<
    QBittorrentClientView,
    ClientErrorView,
> {
    match parsed {
        Some(base_url) => Ok(QBittorrentClientView { base_url, authenticated: false }),
        None => Err(ClientErrorView::InvalidEndpoint),
    }
}

/// The login request: a POST to `target` whose body is
/// `username={username}&password={password}`, declared as a URL-encoded
/// form, with the session's address as `Referer`.
pub open spec fn login_request_to(
    target: Option<Seq<char>>,
    base_url: Seq<char>,
    username: Seq<char>,
    password: Seq<char>,
) -> Result<HttpRequestView, ClientErrorView> {
    match target {
        Some(url) => Ok(
            HttpRequestView {
                method: HttpMethod::Post,
                url,
                headers: seq![
                    HeaderView {
                        name: "Content-Type"@,
                        value: "application/x-www-form-urlencoded"@,
                    },
                    HeaderView { name: "Referer"@, value: base_url },
                ],
                body: HttpBodyView::Text("username="@ + username + "&password="@ + password),
            },
        ),
        None => Err(ClientErrorView::InvalidEndpoint),
    }
}

/// The session after the daemon's answer to a login, where `status` is the
/// status of the answer, or nothing when no answer arrived. A success status
/// authenticates the session; anything else leaves it as it was and fails.
pub open spec fn after_login(session: QBittorrentClientView, status: Option<u16>) -> (
    QBittorrentClientView,
    Result<(), ClientErrorView>,
) {
    if status matches Some(code) && is_success(code) {
        (QBittorrentClientView { authenticated: true, ..session }, Ok(()))
    } else {
        (session, Err(ClientErrorView::AuthenticationFailed))
    }
}

/// The submission request: a POST to `target` that carries `source` as the
/// one part of a multipart form. It names no header: the content type of the
/// form, with its boundary, is the transport's to write. An unauthenticated
/// session builds no request.
pub open spec fn submission_request_to(
    session: QBittorrentClientView,
    target: Option<Seq<char>>,
    source: RequestTypeView,
) -> Result<HttpRequestView, ClientErrorView> {
    if !session.authenticated {
        Err(ClientErrorView::AuthenticationFailed)
    } else {
        match target {
            Some(url) => Ok(
                HttpRequestView {
                    method: HttpMethod::Post,
                    url,
                    headers: Seq::empty(),
                    body: HttpBodyView::Multipart {
                        name: part_of(source).0,
                        part: part_of(source).1,
                    },
                },
            ),
            None => Err(ClientErrorView::InvalidEndpoint),
        }
    }
}

/// The daemon took the submission exactly when it answered with a success
/// status and the body `Ok.`.
pub open spec fn submission_accepted(response: Option<HttpResponseView>) -> bool {
    response matches Some(r) && is_success(r.status) && r.body == "Ok."@
}

/// The judgement on the daemon's answer to a submission: success when it
/// was accepted, else a rejection that carries the body of the answer.
pub open spec fn after_submission(response: Option<HttpResponseView>) -> Result<
    (),
    ClientErrorView,
> {
    if submission_accepted(response) {
        Ok(())
    } else {
        Err(
            ClientErrorView::SubmissionRejected {
                response: match response {
                    Some(r) => Some(r.body),
                    None => None,
                },
            },
        )
    }
}

/// The version request: a GET to `target` with neither headers nor body.
pub open spec fn version_request_to(target: Option<Seq<char>>) -> Result<
    HttpRequestView,
    ClientErrorView,
> {
    match target {
        Some(url) => Ok(
            HttpRequestView {
                method: HttpMethod::Get,
                url,
                headers: Seq::empty(),
                body: HttpBodyView::Empty,
            },
        ),
        None => Err(ClientErrorView::InvalidEndpoint),
    }
}

/// A session on which no login has succeeded builds no submission
/// request, and an answer to a login that carries no success status leaves
/// it so.
pub proof fn no_submission_without_login(
    session: QBittorrentClientView,
    status: Option<u16>,
    target: Option<Seq<char>>,
    source: RequestTypeView,
)
    requires
        !session.authenticated,
        !(status matches Some(code) && is_success(code)),
    ensures
        submission_request_to(session, target, source) == Err::<HttpRequestView, ClientErrorView>(
            ClientErrorView::AuthenticationFailed,
        ),
        after_login(session, status).0 == session,
        submission_request_to(after_login(session, status).0, target, source) == Err::<
            HttpRequestView,
            ClientErrorView,
        >(ClientErrorView::AuthenticationFailed),
{
}

impl QBittorrentClient {
    /// Opens a session with the daemon at `url`, which must be an absolute
    /// URL. The session starts unauthenticated.
    pub fn new(url: &str) -> (made: Result<QBittorrentClient, ClientError>)
        ensures
            client_result(made) == opened(parsed_url(url@)),
    {
        QBittorrentClient::from_parsed(parse_url(url))
    }

    /// Opens a session from an address that was parsed already, given as the
    /// parser's verdict.
    pub fn from_parsed(parsed: Option<String>) -> (made: Result<QBittorrentClient, ClientError>)
        ensures
            client_result(made) == opened(option_text(parsed)),
    {
        match parsed {
            Some(base_url) => Ok(QBittorrentClient { base_url, authenticated: false }),
            None => Err(ClientError::InvalidEndpoint),
        }
    }

    /// The address of the daemon, as the URL parser wrote it.
    pub fn base_url(&self) -> (url: &str)
        ensures
            url@ == self@.base_url,
    {
        self.base_url.as_str()
    }

    /// Whether a login has succeeded on this session.
    pub fn is_authenticated(&self) -> (authenticated: bool)
        ensures
            authenticated == self@.authenticated,
    {
        self.authenticated
    }

    /// Builds the login request for the given credentials.
    pub fn login(&self, username: &str, password: &str) -> (request: Result<
        HttpRequest,
        ClientError,
    >)
        ensures
            request_result(request) == login_request_to(
                joined_url(self@.base_url, LOGIN_PATH@),
                self@.base_url,
                username@,
                password@,
            ),
    {
        let target = join_url(self.base_url.as_str(), LOGIN_PATH);
        self.login_request(target, username, password)
    }

    /// Builds the login request for an endpoint that was resolved already,
    /// given as the resolver's verdict.
    pub fn login_request(&self, target: Option<String>, username: &str, password: &str) -> (request:
        Result<HttpRequest, ClientError>)
        ensures
            request_result(request) == login_request_to(
                option_text(target),
                self@.base_url,
                username@,
                password@,
            ),
    {
        match target {
            Some(url) => {
                let mut body = concat2("username=", username);
                body.append("&password=");
                body.append(password);
                let mut headers: Vec<Header> = Vec::new();
                headers.push(
                    Header {
                        name: String::from_str("Content-Type"),
                        value: String::from_str("application/x-www-form-urlencoded"),
                    },
                );
                headers.push(
                    Header { name: String::from_str("Referer"), value: self.base_url.clone() },
                );
                let request = HttpRequest {
                    method: HttpMethod::Post,
                    url,
                    headers,
                    body: HttpBody::Text(body),
                };
                assert(request@.headers =~= seq![
                    HeaderView {
                        name: "Content-Type"@,
                        value: "application/x-www-form-urlencoded"@,
                    },
                    HeaderView { name: "Referer"@, value: self@.base_url },
                ]);
                Ok(request)
            },
            None => Err(ClientError::InvalidEndpoint),
        }
    }

    /// Takes note of the daemon's answer to the login: its status, or
    /// nothing when no answer arrived.
    pub fn login_answered(&mut self, status: Option<u16>) -> (outcome: Result<(), ClientError>)
        ensures
            (final(self)@, unit_result(outcome)) == after_login(old(self)@, status),
    {
        match status {
            Some(code) => {
                if status_is_success(code) {
                    self.authenticated = true;
                    Ok(())
                } else {
                    Err(ClientError::AuthenticationFailed)
                }
            },
            None => Err(ClientError::AuthenticationFailed),
        }
    }

    /// Builds the request that submits `request_type` to the daemon.
    pub fn add_new_torrent(&self, request_type: RequestType) -> (request: Result<
        HttpRequest,
        ClientError,
    >)
        ensures
            request_result(request) == submission_request_to(
                self@,
                joined_url(self@.base_url, ADD_TORRENT_PATH@),
                request_type@,
            ),
    {
        let target = join_url(self.base_url.as_str(), ADD_TORRENT_PATH);
        self.submission_request(target, request_type)
    }

    /// Builds the submission request for an endpoint that was resolved
    /// already, given as the resolver's verdict.
    pub fn submission_request(&self, target: Option<String>, request_type: RequestType) -> (request:
        Result<HttpRequest, ClientError>)
        ensures
            request_result(request) == submission_request_to(
                self@,
                option_text(target),
                request_type@,
            ),
    {
        if !self.authenticated {
            return Err(ClientError::AuthenticationFailed);
        }
        match target {
            Some(url) => {
                let (name, part) = request_type.to_part();
                let request = HttpRequest {
                    method: HttpMethod::Post,
                    url,
                    headers: Vec::new(),
                    body: HttpBody::Multipart { name: String::from_str(name), part },
                };
                assert(request@.headers =~= Seq::empty());
                Ok(request)
            },
            None => Err(ClientError::InvalidEndpoint),
        }
    }

    /// Judges the daemon's answer to a submission, or its absence.
    pub fn submission_answered(&self, response: Option<HttpResponse>) -> (outcome: Result<
        (),
        ClientError,
    >)
        ensures
            outcome is Ok <==> submission_accepted(option_response(response)),
            unit_result(outcome) == after_submission(option_response(response)),
    {
        match response {
            Some(answer) => {
                if status_is_success(answer.status) && str_eq(
                    answer.body.as_str(),
                    SUCCESS_SENTINEL,
                ) {
                    Ok(())
                } else {
                    Err(ClientError::SubmissionRejected { response: Some(answer.body) })
                }
            },
            None => Err(ClientError::SubmissionRejected { response: None }),
        }
    }

    /// Builds the request that asks the daemon for its version.
    pub fn query_version(&self) -> (request: Result<HttpRequest, ClientError>)
        ensures
            request_result(request) == version_request_to(
                joined_url(self@.base_url, VERSION_PATH@),
            ),
    {
        let target = join_url(self.base_url.as_str(), VERSION_PATH);
        QBittorrentClient::version_request(target)
    }

    /// Builds the version request for an endpoint that was resolved already,
    /// given as the resolver's verdict.
    pub fn version_request(target: Option<String>) -> (request: Result<HttpRequest, ClientError>)
        ensures
            request_result(request) == version_request_to(option_text(target)),
    {
        match target {
            Some(url) => {
                let request = HttpRequest {
                    method: HttpMethod::Get,
                    url,
                    headers: Vec::new(),
                    body: HttpBody::Empty,
                };
                assert(request@.headers =~= Seq::empty());
                Ok(request)
            },
            None => Err(ClientError::InvalidEndpoint),
        }
    }
}

} // verus!
