//! What stands between the chat and the daemon: who may submit, and what.
//!
//! One inbound message starts one ingestion. The ingestion is a state
//! machine: [`step`] takes the stage reached so far and the event that the
//! host program reports, and answers with the next stage and the one action
//! that the host program is to carry out. A sender who is not on the
//! allow-list never gets past the first step, and never causes an action.

use vstd::prelude::*;
use crate::client::{
    after_login, after_submission, joined_url, login_request_to, opened, option_response,
    parsed_url, request_result, submission_request_to, ClientError, ClientErrorView, HttpRequest,
    HttpRequestView, HttpResponse, HttpResponseView, QBittorrentClient, QBittorrentClientView,
    RequestType, RequestTypeView, ADD_TORRENT_PATH, LOGIN_PATH,
};
use crate::state::{BotState, BotStateView};
use crate::text::{concat2, starts_with};

verus! {

/// How the text of a magnet link begins.
pub const MAGNET_PREFIX: &'static str = "magnet:?";

/// Where the chat service serves the files of a bot, up to the bot's token.
pub const FILE_URL_PREFIX: &'static str = "https://api.telegram.org/file/bot";

/// What an inbound message carries.
#[derive(Debug, Clone, PartialEq, Eq)]
pub enum Payload {
    /// An attached document, by the chat service's reference to it.
    Document { file_id: String },
    /// Plain text.
    Text { text: String },
    /// Anything else.
    Other,
}

/// Mathematical value of a [`Payload`].
pub enum PayloadView {
    Document { file_id: Seq<char> },
    Text { text: Seq<char> },
    Other,
}

impl View for Payload {
    type V = PayloadView;

    open spec fn view(&self) -> PayloadView {
        match *self {
            Payload::Document { file_id } => PayloadView::Document { file_id: file_id@ },
            Payload::Text { text } => PayloadView::Text { text: text@ },
            Payload::Other => PayloadView::Other,
        }
    }
}

/// An inbound message: who sent it, if the chat service says so, and what
/// it carries.
#[derive(Debug, Clone, PartialEq, Eq)]
pub struct Message {
    pub sender: Option<i64>,
    pub payload: Payload,
}

/// Mathematical value of a [`Message`].
pub struct MessageView {
    pub sender: Option<i64>,
    pub payload: PayloadView,
}

impl View for Message {
    type V = MessageView;

    open spec fn view(&self) -> MessageView {
        MessageView { sender: self.sender, payload: self.payload@ }
    }
}

/// What a payload asks for.
#[derive(Debug, Clone, PartialEq, Eq)]
pub enum Classification {
    /// The text of a magnet link.
    MagnetLink(String),
    /// The reference of an attached torrent file.
    TorrentFile(String),
    /// Nothing.
    Ignored,
}

/// Mathematical value of a [`Classification`].
pub enum ClassificationView {
    MagnetLink(Seq<char>),
    TorrentFile(Seq<char>),
    Ignored,
}

impl View for Classification {
    type V = ClassificationView;

    open spec fn view(&self) -> ClassificationView {
        match *self {
            Classification::MagnetLink(text) => ClassificationView::MagnetLink(text@),
            Classification::TorrentFile(file_id) => ClassificationView::TorrentFile(file_id@),
            Classification::Ignored => ClassificationView::Ignored,
        }
    }
}

/// A document is a torrent file. A text is a magnet link exactly when it
/// begins with `magnet:?`. Everything else is ignored.
pub open spec fn classification_of(payload: PayloadView) -> ClassificationView {
    match payload {
        PayloadView::Document { file_id } => ClassificationView::TorrentFile(file_id),
        PayloadView::Text { text } => {
            if MAGNET_PREFIX@.is_prefix_of(text) {
                ClassificationView::MagnetLink(text)
            } else {
                ClassificationView::Ignored
            }
        },
        PayloadView::Other => ClassificationView::Ignored,
    }
}

/// Classifies what a message carries.
pub fn classify(payload: Payload) -> (class: Classification)
    ensures
        class@ == classification_of(payload@),
{
    match payload {
        Payload::Document { file_id } => Classification::TorrentFile(file_id),
        Payload::Text { text } => {
            if starts_with(text.as_str(), MAGNET_PREFIX) {
                Classification::MagnetLink(text)
            } else {
                Classification::Ignored
            }
        },
        Payload::Other => Classification::Ignored,
    }
}

/// Whether the allow-list lets this sender through. A message without a
/// sender is let through for nobody.
pub open spec fn authorized(state: BotStateView, sender: Option<i64>) -> bool {
    sender matches Some(id) && state.allowed_user_ids.contains(id)
}

/// Why an ingestion failed.
#[derive(Debug, Clone, PartialEq, Eq)]
pub enum Failure {
    /// The attachment could not be fetched.
    FetchError,
    /// The daemon could not be reached, did not let the bot in, or did not
    /// take the torrent.
    SubmissionError(ClientError),
}

/// Mathematical value of a [`Failure`].
pub enum FailureView {
    FetchError,
    SubmissionError(ClientErrorView),
}

impl View for Failure {
    type V = FailureView;

    open spec fn view(&self) -> FailureView {
        match *self {
            Failure::FetchError => FailureView::FetchError,
            Failure::SubmissionError(e) => FailureView::SubmissionError(e@),
        }
    }
}

/// How far an ingestion has come.
#[derive(Debug, Clone, PartialEq, Eq)]
pub enum Stage {
    /// Nothing has happened yet.
    Start,
    /// The attachment is being fetched.
    PendingFileFetch,
    /// The login request is on its way; `source` waits for the answer.
    PendingLogin { client: QBittorrentClient, source: RequestType },
    /// The submission request is on its way.
    PendingSubmission { client: QBittorrentClient },
    /// Ended: the sender is not on the allow-list.
    Rejected,
    /// Ended: the message asks for nothing.
    Ignored,
    /// Ended: the daemon took the torrent.
    Enqueued,
    /// Ended: the ingestion failed.
    Failed(Failure),
}

/// Mathematical value of a [`Stage`].
pub enum StageView {
    Start,
    PendingFileFetch,
    PendingLogin { client: QBittorrentClientView, source: RequestTypeView },
    PendingSubmission { client: QBittorrentClientView },
    Rejected,
    Ignored,
    Enqueued,
    Failed(FailureView),
}

impl View for Stage {
    type V = StageView;

    open spec fn view(&self) -> StageView {
        match *self {
            Stage::Start => StageView::Start,
            Stage::PendingFileFetch => StageView::PendingFileFetch,
            Stage::PendingLogin { client, source } => StageView::PendingLogin {
                client: client@,
                source: source@,
            },
            Stage::PendingSubmission { client } => StageView::PendingSubmission { client: client@ },
            Stage::Rejected => StageView::Rejected,
            Stage::Ignored => StageView::Ignored,
            Stage::Enqueued => StageView::Enqueued,
            Stage::Failed(failure) => StageView::Failed(failure@),
        }
    }
}

impl StageView {
    /// Whether the ingestion has ended.
    pub open spec fn is_terminal(self) -> bool {
        self is Rejected || self is Ignored || self is Enqueued || self is Failed
    }
}

/// What the sender is told at the end of an ingestion.
#[derive(Debug, Clone, Copy, PartialEq, Eq)]
pub enum Notice {
    /// The torrent is in the daemon's queue.
    Enqueued,
    /// The torrent could not be added. The notice does not say why.
    Failed,
}

/// What the host program is to do next.
#[derive(Debug, Clone, PartialEq, Eq)]
pub enum Action {
    /// Nothing.
    Nothing,
    /// Fetch the attachment with this reference and report its bytes.
    FetchFile { file_id: String },
    /// Send this login request to the daemon and report the status of the
    /// answer.
    Login(HttpRequest),
    /// Send this submission request to the daemon and report the answer.
    Submit(HttpRequest),
    /// Send this notice to the chat that the message came from.
    Reply(Notice),
}

/// Mathematical value of an [`Action`].
pub enum ActionView {
    Nothing,
    FetchFile { file_id: Seq<char> },
    Login(HttpRequestView),
    Submit(HttpRequestView),
    Reply(Notice),
}

impl ActionView {
    /// Whether the action is a request to the daemon.
    pub open spec fn is_daemon_request(self) -> bool {
        self is Login || self is Submit
    }
}

impl View for Action {
    type V = ActionView;

    open spec fn view(&self) -> ActionView {
        match *self {
            Action::Nothing => ActionView::Nothing,
            Action::FetchFile { file_id } => ActionView::FetchFile { file_id: file_id@ },
            Action::Login(request) => ActionView::Login(request@),
            Action::Submit(request) => ActionView::Submit(request@),
            Action::Reply(notice) => ActionView::Reply(notice),
        }
    }
}

/// What the host program reports.
#[derive(Debug, Clone, PartialEq, Eq)]
pub enum Event {
    /// A message came in.
    Inbound(Message),
    /// The attachment was fetched: its bytes, or nothing where the fetch
    /// failed.
    FileFetched(Option<Vec<u8>>),
    /// The daemon answered the login: the status of the answer, or nothing
    /// where no answer arrived.
    LoginAnswered(Option<u16>),
    /// The daemon answered the submission, or nothing where no answer
    /// arrived.
    SubmissionAnswered(Option<HttpResponse>),
}

/// Mathematical value of an [`Event`].
pub enum EventView {
    Inbound(MessageView),
    FileFetched(Option<Seq<u8>>),
    LoginAnswered(Option<u16>),
    SubmissionAnswered(Option<HttpResponseView>),
}

impl View for Event {
    type V = EventView;

    open spec fn view(&self) -> EventView {
        match *self {
            Event::Inbound(message) => EventView::Inbound(message@),
            Event::FileFetched(fetched) => EventView::FileFetched(
                match fetched {
                    Some(content) => Some(content@),
                    None => None,
                },
            ),
            Event::LoginAnswered(status) => EventView::LoginAnswered(status),
            Event::SubmissionAnswered(response) => EventView::SubmissionAnswered(
                option_response(response),
            ),
        }
    }
}

/// The end of an ingestion that failed: the sender is told so, without the
/// reason.
pub open spec fn failed(failure: FailureView) -> (StageView, ActionView) {
    (StageView::Failed(failure), ActionView::Reply(Notice::Failed))
}

/// The step once a login request was asked for: with the request the
/// ingestion waits for the answer to it, and without it the ingestion has
/// failed.
pub open spec fn login_asked(
    client: QBittorrentClientView,
    request: Result<HttpRequestView, ClientErrorView>,
    source: RequestTypeView,
) -> (StageView, ActionView) {
    match request {
        Ok(request) => (StageView::PendingLogin { client, source }, ActionView::Login(request)),
        Err(e) => failed(FailureView::SubmissionError(e)),
    }
}

/// The step once a submission request was asked for: with the request the
/// ingestion waits for the answer to it, and without it the ingestion has
/// failed.
pub open spec fn submission_asked(
    client: QBittorrentClientView,
    request: Result<HttpRequestView, ClientErrorView>,
) -> (StageView, ActionView) {
    match request {
        Ok(request) => (StageView::PendingSubmission { client }, ActionView::Submit(request)),
        Err(e) => failed(FailureView::SubmissionError(e)),
    }
}

/// The start of a submission: a fresh session with the configured daemon,
/// and its login request.
pub open spec fn submission_begun(state: BotStateView, source: RequestTypeView) -> (
    StageView,
    ActionView,
) {
    match opened(parsed_url(state.options.url)) {
        Ok(client) => login_asked(
            client,
            login_request_to(
                joined_url(client.base_url, LOGIN_PATH@),
                client.base_url,
                state.options.username,
                state.options.password,
            ),
            source,
        ),
        Err(e) => failed(FailureView::SubmissionError(e)),
    }
}

/// The first step. A sender who is not on the allow-list is rejected in
/// silence. Of the others, a torrent file is fetched, a magnet link is
/// submitted, and anything else is ignored in silence.
pub open spec fn message_handled(state: BotStateView, message: MessageView) -> (
    StageView,
    ActionView,
) {
    if !authorized(state, message.sender) {
        (StageView::Rejected, ActionView::Nothing)
    } else {
        match classification_of(message.payload) {
            ClassificationView::TorrentFile(file_id) => (
                StageView::PendingFileFetch,
                ActionView::FetchFile { file_id },
            ),
            ClassificationView::MagnetLink(text) => submission_begun(
                state,
                RequestTypeView::Url(text),
            ),
            ClassificationView::Ignored => (StageView::Ignored, ActionView::Nothing),
        }
    }
}

/// The step after the fetch: the bytes are submitted, and a failed fetch
/// ends the ingestion.
pub open spec fn file_handled(state: BotStateView, fetched: Option<Seq<u8>>) -> (
    StageView,
    ActionView,
) {
    match fetched {
        Some(content) => submission_begun(state, RequestTypeView::File(content)),
        None => failed(FailureView::FetchError),
    }
}

/// The step after the login: on success the source is submitted, and
/// anything else ends the ingestion.
pub open spec fn login_handled(
    client: QBittorrentClientView,
    source: RequestTypeView,
    status: Option<u16>,
) -> (StageView, ActionView) {
    let (session, outcome) = after_login(client, status);
    match outcome {
        Ok(_) => submission_asked(
            session,
            submission_request_to(session, joined_url(session.base_url, ADD_TORRENT_PATH@), source),
        ),
        Err(e) => failed(FailureView::SubmissionError(e)),
    }
}

/// The last step: the sender is told whether the daemon took the torrent.
pub open spec fn submission_handled(response: Option<HttpResponseView>) -> (
    StageView,
    ActionView,
) {
    match after_submission(response) {
        Ok(_) => (StageView::Enqueued, ActionView::Reply(Notice::Enqueued)),
        Err(e) => failed(FailureView::SubmissionError(e)),
    }
}

/// The transition function of an ingestion. An event that the stage does
/// not wait for changes nothing and asks for nothing; so an ingestion that
/// has ended stays as it is.
pub open spec fn next(state: BotStateView, stage: StageView, event: EventView) -> (
    StageView,
    ActionView,
) {
    match (stage, event) {
        (StageView::Start, EventView::Inbound(message)) => message_handled(state, message),
        (StageView::PendingFileFetch, EventView::FileFetched(fetched)) => file_handled(
            state,
            fetched,
        ),
        (StageView::PendingLogin { client, source }, EventView::LoginAnswered(status)) => {
            login_handled(client, source, status)
        },
        (StageView::PendingSubmission { client }, EventView::SubmissionAnswered(response)) => {
            submission_handled(response)
        },
        _ => (stage, ActionView::Nothing),
    }
}

/// Ends an ingestion that failed.
fn fail(failure: Failure) -> (turn: (Stage, Action))
    ensures
        (turn.0@, turn.1@) == failed(failure@),
{
    (Stage::Failed(failure), Action::Reply(Notice::Failed))
}

/// Goes on once the login request of `client` was asked for: with the
/// request it asks for it to be sent, and with an error it ends the
/// ingestion.
pub fn login_requested(
    client: QBittorrentClient,
    request: Result<HttpRequest, ClientError>,
    source: RequestType,
) -> (turn: (Stage, Action))
    ensures
        (turn.0@, turn.1@) == login_asked(client@, request_result(request), source@),
{
    match request {
        Ok(request) => (Stage::PendingLogin { client, source }, Action::Login(request)),
        Err(e) => fail(Failure::SubmissionError(e)),
    }
}

/// Goes on once the submission request of `client` was asked for: with
/// the request it asks for it to be sent, and with an error it ends the
/// ingestion.
pub fn submission_requested(
    client: QBittorrentClient,
    request: Result<HttpRequest, ClientError>,
) -> (turn: (Stage, Action))
    ensures
        (turn.0@, turn.1@) == submission_asked(client@, request_result(request)),
{
    match request {
        Ok(request) => (Stage::PendingSubmission { client }, Action::Submit(request)),
        Err(e) => fail(Failure::SubmissionError(e)),
    }
}

/// Begins the submission of `request_type`: opens a fresh session with the
/// configured daemon and asks for its login request to be sent.
pub fn add_new_torrent(state: &BotState, request_type: RequestType) -> (turn: (Stage, Action))
    ensures
        (turn.0@, turn.1@) == submission_begun(state@, request_type@),
{
    let options = state.options();
    match QBittorrentClient::new(options.url.as_str()) {
        Ok(client) => {
            let request = client.login(options.username.as_str(), options.password.as_str());
            login_requested(client, request, request_type)
        },
        Err(e) => fail(Failure::SubmissionError(e)),
    }
}

/// Begins the submission of a magnet link.
pub fn add_torrent_by_magnet(state: &BotState, text: String) -> (turn: (Stage, Action))
    ensures
        (turn.0@, turn.1@) == submission_begun(state@, RequestTypeView::Url(text@)),
{
    add_new_torrent(state, RequestType::Url(text))
}

/// Goes on after the fetch of an attachment: with its bytes the submission
/// begins, without them the ingestion has failed.
pub fn add_torrent_by_file(state: &BotState, fetched: Option<Vec<u8>>) -> (turn: (Stage, Action))
    ensures
        (turn.0@, turn.1@) == file_handled(
            state@,
            match fetched {
                Some(content) => Some(content@),
                None => None,
            },
        ),
{
    match fetched {
        Some(content) => add_new_torrent(state, RequestType::File(content)),
        None => fail(Failure::FetchError),
    }
}

/// Handles an inbound message: the first step of its ingestion.
pub fn torrents_handler(state: &BotState, message: Message) -> (turn: (Stage, Action))
    ensures
        (turn.0@, turn.1@) == message_handled(state@, message@),
{
    let allowed = match message.sender {
        Some(id) => state.user_allowed(id),
        None => false,
    };
    if !allowed {
        return (Stage::Rejected, Action::Nothing);
    }
    match classify(message.payload) {
        Classification::TorrentFile(file_id) => (
            Stage::PendingFileFetch,
            Action::FetchFile { file_id },
        ),
        Classification::MagnetLink(text) => add_torrent_by_magnet(state, text),
        Classification::Ignored => (Stage::Ignored, Action::Nothing),
    }
}

/// Goes on after the daemon's answer to the login.
pub fn login_answered(client: QBittorrentClient, source: RequestType, status: Option<u16>) -> (turn:
    (Stage, Action))
    ensures
        (turn.0@, turn.1@) == login_handled(client@, source@, status),
{
    let mut client = client;
    match client.login_answered(status) {
        Ok(_) => {
            let request = client.add_new_torrent(source);
            submission_requested(client, request)
        },
        Err(e) => fail(Failure::SubmissionError(e)),
    }
}

/// Ends the ingestion after the daemon's answer to the submission.
pub fn submission_answered(client: &QBittorrentClient, response: Option<HttpResponse>) -> (turn: (
    Stage,
    Action,
))
    ensures
        (turn.0@, turn.1@) == submission_handled(option_response(response)),
{
    match client.submission_answered(response) {
        Ok(_) => (Stage::Enqueued, Action::Reply(Notice::Enqueued)),
        Err(e) => fail(Failure::SubmissionError(e)),
    }
}

/// Takes an ingestion one step further.
pub fn step(state: &BotState, stage: Stage, event: Event) -> (turn: (Stage, Action))
    ensures
        (turn.0@, turn.1@) == next(state@, stage@, event@),
{
    match (stage, event) {
        (Stage::Start, Event::Inbound(message)) => torrents_handler(state, message),
        (Stage::PendingFileFetch, Event::FileFetched(fetched)) => add_torrent_by_file(
            state,
            fetched,
        ),
        (Stage::PendingLogin { client, source }, Event::LoginAnswered(status)) => login_answered(
            client,
            source,
            status,
        ),
        (Stage::PendingSubmission { client }, Event::SubmissionAnswered(response)) => {
            submission_answered(&client, response)
        },
        (stage, _) => (stage, Action::Nothing),
    }
}

/// The stage that an ingestion reaches from `stage` through `events`, taken
/// in order.
pub open spec fn stage_after(
    state: BotStateView,
    stage: StageView,
    events: Seq<EventView>,
) -> StageView
    decreases events.len(),
{
    if events.len() == 0 {
        stage
    } else {
        next(state, stage_after(state, stage, events.drop_last()), events.last()).0
    }
}

/// The action that an ingestion begun at `stage` asks for when the event
/// `events[k]` is reported after those before it.
pub open spec fn action_at(
    state: BotStateView,
    stage: StageView,
    events: Seq<EventView>,
    k: int,
) -> ActionView {
    next(state, stage_after(state, stage, events.take(k)), events[k]).1
}

/// Whether a login was answered with a success status.
pub open spec fn login_succeeded(status: Option<u16>) -> bool {
    status matches Some(code) && crate::client::is_success(code)
}

/// A run of events can be cut in two: the stage reached through all of them
/// is the stage reached through the later ones from where the earlier ones
/// led.
pub proof fn stage_after_split(
    state: BotStateView,
    stage: StageView,
    events: Seq<EventView>,
    j: int,
)
    requires
        0 <= j <= events.len(),
    ensures
        stage_after(state, stage, events) == stage_after(
            state,
            stage_after(state, stage, events.take(j)),
            events.skip(j),
        ),
    decreases events.len(),
{
    if j == events.len() {
        assert(events.take(j) =~= events);
    } else {
        let shorter = events.drop_last();
        stage_after_split(state, stage, shorter, j);
        assert(shorter.take(j) =~= events.take(j));
        assert(events.skip(j).drop_last() =~= shorter.skip(j));
    }
}

/// An ingestion that has ended stays as it is, whatever is reported: its
/// stage does not change.
pub proof fn terminal_stage_stays(state: BotStateView, stage: StageView, events: Seq<EventView>)
    requires
        stage.is_terminal(),
    ensures
        stage_after(state, stage, events) == stage,
    decreases events.len(),
{
    if events.len() > 0 {
        terminal_stage_stays(state, stage, events.drop_last());
    }
}

/// An ingestion that has ended asks for nothing more, whatever is reported:
/// no request to the daemon, no fetch, no reply.
pub proof fn terminal_stage_is_silent(
    state: BotStateView,
    stage: StageView,
    events: Seq<EventView>,
    k: int,
)
    requires
        stage.is_terminal(),
        0 <= k < events.len(),
    ensures
        action_at(state, stage, events, k) == ActionView::Nothing,
{
    terminal_stage_stays(state, stage, events.take(k));
}

/// A message from a sender who is not on the allow-list causes nothing: at
/// no later event, whatever is reported, is a request to the daemon, a fetch
/// or a reply asked for.
pub proof fn unauthorized_sender_causes_nothing(
    state: BotStateView,
    message: MessageView,
    events: Seq<EventView>,
    k: int,
)
    requires
        !authorized(state, message.sender),
        0 <= k < events.len(),
        events[0] == EventView::Inbound(message),
    ensures
        action_at(state, StageView::Start, events, k) == ActionView::Nothing,
        stage_after(state, StageView::Start, events) == StageView::Rejected,
{
    let first = events.take(1);
    assert(stage_after(state, StageView::Start, first.drop_last()) == StageView::Start);
    stage_after_split(state, StageView::Start, events, 1);
    terminal_stage_stays(state, StageView::Rejected, events.skip(1));
    if k > 0 {
        let before = events.take(k);
        stage_after_split(state, StageView::Start, before, 1);
        assert(before.take(1) =~= first);
        terminal_stage_stays(state, StageView::Rejected, before.skip(1));
    }
}

/// A login that is not answered with a success status ends the ingestion:
/// the sender is told that it failed, and at no later event, whatever is
/// reported, is anything asked for. So no submission follows a failed login.
pub proof fn failed_login_prevents_submission(
    state: BotStateView,
    stage: StageView,
    events: Seq<EventView>,
    j: int,
    k: int,
)
    requires
        0 <= j < k < events.len(),
        stage_after(state, stage, events.take(j)) is PendingLogin,
        events[j] matches EventView::LoginAnswered(status) && !login_succeeded(status),
    ensures
        action_at(state, stage, events, j) == ActionView::Reply(Notice::Failed),
        action_at(state, stage, events, k) == ActionView::Nothing,
{
    let before = events.take(k);
    let upto = before.take(j + 1);
    assert(upto.drop_last() =~= events.take(j));
    let reached = stage_after(state, stage, upto);
    stage_after_split(state, stage, before, j + 1);
    terminal_stage_stays(state, reached, before.skip(j + 1));
}

/// A submission is only ever asked for in answer to a login that
/// succeeded: the ingestion was waiting for the answer to its login, and the
/// answer came with a success status.
pub proof fn submission_follows_successful_login(
    state: BotStateView,
    stage: StageView,
    event: EventView,
)
    requires
        next(state, stage, event).1 is Submit,
    ensures
        stage is PendingLogin,
        event matches EventView::LoginAnswered(status) && login_succeeded(status),
{
}

/// Whether a stage fits the session that it holds: a session whose login is
/// not answered yet is unauthenticated, and a session whose submission is on
/// its way is authenticated.
pub open spec fn session_fits(stage: StageView) -> bool {
    match stage {
        StageView::PendingLogin { client, source } => !client.authenticated,
        StageView::PendingSubmission { client } => client.authenticated,
        _ => true,
    }
}

/// A session is unauthenticated until its login has succeeded, and nothing
/// is submitted on a session before that: whatever is reported, every stage
/// that an ingestion reaches fits its session.
pub proof fn session_always_fits(state: BotStateView, stage: StageView, events: Seq<EventView>)
    requires
        session_fits(stage),
    ensures
        session_fits(stage_after(state, stage, events)),
    decreases events.len(),
{
    if events.len() > 0 {
        session_always_fits(state, stage, events.drop_last());
    }
}

/// From an authorized sender, a text that begins with `magnet:?` is
/// submitted as a URL with that very text, and any other text is ignored in
/// silence.
pub proof fn text_is_magnet_link_or_ignored(
    state: BotStateView,
    sender: Option<i64>,
    text: Seq<char>,
)
    requires
        authorized(state, sender),
    ensures
        MAGNET_PREFIX@.is_prefix_of(text) ==> next(
            state,
            StageView::Start,
            EventView::Inbound(MessageView { sender, payload: PayloadView::Text { text } }),
        ) == submission_begun(state, RequestTypeView::Url(text)),
        !MAGNET_PREFIX@.is_prefix_of(text) ==> next(
            state,
            StageView::Start,
            EventView::Inbound(MessageView { sender, payload: PayloadView::Text { text } }),
        ) == (StageView::Ignored, ActionView::Nothing),
{
}

/// A request to the daemon is only ever asked for on behalf of a sender on
/// the allow-list: if any event of an ingestion leads to a request, the
/// message that began it came from an authorized sender.
pub proof fn request_implies_authorized_sender(
    state: BotStateView,
    message: MessageView,
    events: Seq<EventView>,
    k: int,
)
    requires
        0 <= k < events.len(),
        events[0] == EventView::Inbound(message),
        action_at(state, StageView::Start, events, k).is_daemon_request(),
    ensures
        authorized(state, message.sender),
{
    if !authorized(state, message.sender) {
        unauthorized_sender_causes_nothing(state, message, events, k);
    }
}

/// What the sender is told when an ingestion has reached `stage`: that the
/// torrent was enqueued, that it failed, or nothing.
pub open spec fn notice_of(stage: StageView) -> Option<Notice> {
    match stage {
        StageView::Enqueued => Some(Notice::Enqueued),
        StageView::Failed(_) => Some(Notice::Failed),
        _ => None,
    }
}

/// The notice that belongs to a stage, if any.
pub fn notice_for(stage: &Stage) -> (notice: Option<Notice>)
    ensures
        notice == notice_of(stage@),
{
    match stage {
        Stage::Enqueued => Some(Notice::Enqueued),
        Stage::Failed(_) => Some(Notice::Failed),
        _ => None,
    }
}

/// The address from which the chat service serves a file of the bot.
pub fn torrent_file_url(token: &str, file_path: &str) -> (url: String)
    ensures
        url@ == FILE_URL_PREFIX@ + token@ + "/"@ + file_path@,
{
    let mut url = concat2(FILE_URL_PREFIX, token);
    url.append("/");
    url.append(file_path);
    url
}

} // verus!
