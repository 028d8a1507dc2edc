use bittorrent_bot::client::{
    ClientError, HttpBody, HttpMethod, HttpResponse, Part, QBittorrentClient, RequestType,
};
use bittorrent_bot::config::Configuration;
use bittorrent_bot::dispatch::{
    add_new_torrent, add_torrent_by_file, add_torrent_by_magnet, classify, login_requested,
    notice_for, step, submission_requested, torrent_file_url, torrents_handler, Action,
    Classification, Event, Failure, Message, Notice, Payload, Stage,
};
use bittorrent_bot::state::BotState;
use bittorrent_bot::util::HostProbe;

fn state_with(user_id: &str, url: &str) -> BotState {
    let configuration = Configuration {
        bot_token: "123:token".to_string(),
        user_id: user_id.to_string(),
        username: "admin".to_string(),
        password: "secret".to_string(),
        url: Some(url.to_string()),
    };
    BotState::new(configuration, &HostProbe { markers: vec![], route_table: None }).unwrap()
}

fn state() -> BotState {
    state_with("42", "http://localhost:8080")
}

fn text_from(sender: i64, text: &str) -> Message {
    Message { sender: Some(sender), payload: Payload::Text { text: text.to_string() } }
}

fn document_from(sender: i64, file_id: &str) -> Message {
    Message { sender: Some(sender), payload: Payload::Document { file_id: file_id.to_string() } }
}

fn ok_answer() -> Event {
    Event::SubmissionAnswered(Some(HttpResponse { status: 200, body: "Ok.".to_string() }))
}

#[test]
fn scenario_magnet_link_from_allowed_sender_is_enqueued() {
    let state = state();
    let magnet = "magnet:?xt=urn:btih:ABC&dn=Test";
    let (stage, action) = step(&state, Stage::Start, Event::Inbound(text_from(42, magnet)));
    let login = match action {
        Action::Login(request) => request,
        other => panic!("expected the login request, got {:?}", other),
    };
    assert_eq!(login.url, "http://localhost:8080/api/v2/auth/login");
    assert_eq!(login.body, HttpBody::Text("username=admin&password=secret".to_string()));
    assert!(matches!(stage, Stage::PendingLogin { .. }));

    let (stage, action) = step(&state, stage, Event::LoginAnswered(Some(200)));
    let submission = match action {
        Action::Submit(request) => request,
        other => panic!("expected the submission request, got {:?}", other),
    };
    assert_eq!(submission.method, HttpMethod::Post);
    assert_eq!(submission.url, "http://localhost:8080/api/v2/torrents/add");
    assert_eq!(
        submission.body,
        HttpBody::Multipart {
            name: "urls".to_string(),
            part: Part { content: magnet.as_bytes().to_vec(), file_name: None, mime: None },
        }
    );
    assert!(matches!(stage, Stage::PendingSubmission { .. }));

    let (stage, action) = step(&state, stage, ok_answer());
    assert_eq!(stage, Stage::Enqueued);
    assert_eq!(action, Action::Reply(Notice::Enqueued));

    let (stage, action) = step(&state, stage, ok_answer());
    assert_eq!(stage, Stage::Enqueued);
    assert_eq!(action, Action::Nothing);
}

#[test]
fn scenario_sender_not_on_allow_list_causes_nothing() {
    let state = state();
    let messages = vec![
        text_from(99, "magnet:?xt=urn:btih:ABC&dn=Test"),
        text_from(99, "hello"),
        document_from(99, "file-1"),
        Message { sender: Some(99), payload: Payload::Other },
    ];
    for message in messages {
        let (mut stage, action) = step(&state, Stage::Start, Event::Inbound(message));
        assert_eq!(stage, Stage::Rejected);
        assert_eq!(action, Action::Nothing);
        let later = vec![
            Event::FileFetched(Some(vec![1, 2, 3])),
            Event::LoginAnswered(Some(200)),
            ok_answer(),
            Event::Inbound(text_from(42, "magnet:?xt=1")),
        ];
        for event in later {
            let (next, action) = step(&state, stage, event);
            assert_eq!(next, Stage::Rejected);
            assert_eq!(action, Action::Nothing);
            stage = next;
        }
    }
}

#[test]
fn scenario_document_is_fetched_and_submitted_as_file() {
    let state = state();
    let bytes = vec![0x64, 0x38, 0x3a, 0x61, 0x6e, 0x6e, 0x6f, 0x75, 0x6e, 0x63, 0x65];
    let (stage, action) = step(&state, Stage::Start, Event::Inbound(document_from(42, "file-77")));
    assert_eq!(stage, Stage::PendingFileFetch);
    assert_eq!(action, Action::FetchFile { file_id: "file-77".to_string() });

    let (stage, action) = step(&state, stage, Event::FileFetched(Some(bytes.clone())));
    assert!(matches!(action, Action::Login(_)));
    assert!(matches!(stage, Stage::PendingLogin { .. }));

    let (stage, action) = step(&state, stage, Event::LoginAnswered(Some(200)));
    let submission = match action {
        Action::Submit(request) => request,
        other => panic!("expected the submission request, got {:?}", other),
    };
    assert_eq!(submission.url, "http://localhost:8080/api/v2/torrents/add");
    assert_eq!(
        submission.body,
        HttpBody::Multipart {
            name: "torrents".to_string(),
            part: Part {
                content: bytes,
                file_name: Some("torrent.torrent".to_string()),
                mime: Some("application/x-bittorrent".to_string()),
            },
        }
    );

    let (stage, action) = step(&state, stage, ok_answer());
    assert_eq!(stage, Stage::Enqueued);
    assert_eq!(action, Action::Reply(Notice::Enqueued));
}

#[test]
fn scenario_status_200_with_body_fails_is_a_failure() {
    let state = state();
    let (stage, _) = step(&state, Stage::Start, Event::Inbound(text_from(42, "magnet:?xt=1")));
    let (stage, _) = step(&state, stage, Event::LoginAnswered(Some(200)));
    let (stage, action) = step(
        &state,
        stage,
        Event::SubmissionAnswered(Some(HttpResponse { status: 200, body: "Fails.".to_string() })),
    );
    assert_eq!(
        stage,
        Stage::Failed(Failure::SubmissionError(ClientError::SubmissionRejected {
            response: Some("Fails.".to_string()),
        }))
    );
    assert_eq!(action, Action::Reply(Notice::Failed));
}

#[test]
fn failed_login_ends_the_ingestion_without_submission() {
    let state = state();
    for status in [None, Some(401u16), Some(403), Some(500), Some(302)] {
        let (stage, _) = step(&state, Stage::Start, Event::Inbound(text_from(42, "magnet:?xt=1")));
        let (mut stage, action) = step(&state, stage, Event::LoginAnswered(status));
        assert_eq!(
            stage,
            Stage::Failed(Failure::SubmissionError(ClientError::AuthenticationFailed))
        );
        assert_eq!(action, Action::Reply(Notice::Failed));
        for event in [Event::LoginAnswered(Some(200)), ok_answer(), Event::FileFetched(None)] {
            let (next, action) = step(&state, stage, event);
            assert_eq!(action, Action::Nothing);
            assert!(matches!(next, Stage::Failed(_)));
            stage = next;
        }
    }
}

#[test]
fn failed_fetch_ends_the_ingestion() {
    let state = state();
    let (stage, _) = step(&state, Stage::Start, Event::Inbound(document_from(42, "f")));
    let (stage, action) = step(&state, stage, Event::FileFetched(None));
    assert_eq!(stage, Stage::Failed(Failure::FetchError));
    assert_eq!(action, Action::Reply(Notice::Failed));
}

#[test]
fn missing_answer_to_submission_is_a_failure() {
    let state = state();
    let (stage, _) = step(&state, Stage::Start, Event::Inbound(text_from(42, "magnet:?xt=1")));
    let (stage, _) = step(&state, stage, Event::LoginAnswered(Some(200)));
    let (stage, action) = step(&state, stage, Event::SubmissionAnswered(None));
    assert_eq!(
        stage,
        Stage::Failed(Failure::SubmissionError(ClientError::SubmissionRejected { response: None }))
    );
    assert_eq!(action, Action::Reply(Notice::Failed));
}

#[test]
fn invalid_configured_address_fails_the_submission() {
    let state = state_with("42", "no address");
    let (stage, action) = step(&state, Stage::Start, Event::Inbound(text_from(42, "magnet:?xt=1")));
    assert_eq!(stage, Stage::Failed(Failure::SubmissionError(ClientError::InvalidEndpoint)));
    assert_eq!(action, Action::Reply(Notice::Failed));
}

#[test]
fn text_without_magnet_prefix_is_ignored() {
    let state = state();
    let texts = ["", "hello", "magnet:", "magnet:xt", " magnet:?xt=1", "Magnet:?xt=1", "/commands"];
    for text in texts {
        let (stage, action) = step(&state, Stage::Start, Event::Inbound(text_from(42, text)));
        assert_eq!(stage, Stage::Ignored);
        assert_eq!(action, Action::Nothing);
    }
}

#[test]
fn other_payload_is_ignored() {
    let state = state();
    let message = Message { sender: Some(42), payload: Payload::Other };
    assert_eq!(torrents_handler(&state, message), (Stage::Ignored, Action::Nothing));
}

#[test]
fn message_without_sender_is_rejected() {
    let state = state();
    let payload = Payload::Text { text: "magnet:?xt=1".to_string() };
    let message = Message { sender: None, payload };
    assert_eq!(torrents_handler(&state, message), (Stage::Rejected, Action::Nothing));
}

#[test]
fn unexpected_event_changes_nothing() {
    let state = state();
    let (stage, action) = step(&state, Stage::Start, Event::LoginAnswered(Some(200)));
    assert_eq!((stage, action), (Stage::Start, Action::Nothing));
    let (stage, action) = step(&state, Stage::PendingFileFetch, ok_answer());
    assert_eq!((stage, action), (Stage::PendingFileFetch, Action::Nothing));
    let (pending, _) = step(&state, Stage::Start, Event::Inbound(text_from(42, "magnet:?xt=1")));
    let (stage, action) = step(&state, pending.clone(), ok_answer());
    assert_eq!((stage, action), (pending, Action::Nothing));
}

#[test]
fn classify_tells_magnet_links_files_and_the_rest() {
    assert_eq!(
        classify(Payload::Text { text: "magnet:?xt=urn:btih:ABC".to_string() }),
        Classification::MagnetLink("magnet:?xt=urn:btih:ABC".to_string())
    );
    assert_eq!(
        classify(Payload::Text { text: "magnet:?".to_string() }),
        Classification::MagnetLink("magnet:?".to_string())
    );
    assert_eq!(classify(Payload::Text { text: "magnet:".to_string() }), Classification::Ignored);
    assert_eq!(
        classify(Payload::Text { text: "see magnet:?xt=1".to_string() }),
        Classification::Ignored
    );
    assert_eq!(
        classify(Payload::Document { file_id: "abc".to_string() }),
        Classification::TorrentFile("abc".to_string())
    );
    assert_eq!(classify(Payload::Other), Classification::Ignored);
}

#[test]
fn add_new_torrent_opens_a_session_and_logs_in() {
    let state = state();
    let (stage, action) = add_new_torrent(&state, RequestType::File(vec![1, 2]));
    match stage {
        Stage::PendingLogin { client, source } => {
            assert_eq!(client.base_url(), "http://localhost:8080/");
            assert!(!client.is_authenticated());
            assert_eq!(source, RequestType::File(vec![1, 2]));
        },
        other => panic!("expected a pending login, got {:?}", other),
    }
    assert!(matches!(action, Action::Login(_)));
}

#[test]
fn add_torrent_by_magnet_submits_the_text_as_url() {
    let state = state();
    let (stage, _) = add_torrent_by_magnet(&state, "magnet:?xt=9".to_string());
    match stage {
        Stage::PendingLogin { source, .. } => {
            assert_eq!(source, RequestType::Url("magnet:?xt=9".to_string()));
        },
        other => panic!("expected a pending login, got {:?}", other),
    }
}

#[test]
fn add_torrent_by_file_without_bytes_fails() {
    let state = state();
    assert_eq!(
        add_torrent_by_file(&state, None),
        (Stage::Failed(Failure::FetchError), Action::Reply(Notice::Failed))
    );
}

#[test]
fn notice_for_tells_only_of_enqueued_and_failed() {
    assert_eq!(notice_for(&Stage::Enqueued), Some(Notice::Enqueued));
    assert_eq!(notice_for(&Stage::Failed(Failure::FetchError)), Some(Notice::Failed));
    assert_eq!(notice_for(&Stage::Rejected), None);
    assert_eq!(notice_for(&Stage::Ignored), None);
    assert_eq!(notice_for(&Stage::Start), None);
    assert_eq!(notice_for(&Stage::PendingFileFetch), None);
}

#[test]
fn torrent_file_url_is_built_from_token_and_path() {
    assert_eq!(
        torrent_file_url("123:abc", "documents/file_7.torrent"),
        "https://api.telegram.org/file/bot123:abc/documents/file_7.torrent"
    );
}

#[test]
fn login_requested_waits_for_the_answer_or_fails() {
    let client = QBittorrentClient::from_parsed(Some("http://h/".to_string())).unwrap();
    let request = client.login_request(Some("http://h/login".to_string()), "u", "p").unwrap();
    let source = RequestType::Url("magnet:?xt=1".to_string());
    assert_eq!(
        login_requested(client.clone(), Ok(request.clone()), source.clone()),
        (
            Stage::PendingLogin { client: client.clone(), source: source.clone() },
            Action::Login(request)
        )
    );
    assert_eq!(
        login_requested(client, Err(ClientError::InvalidEndpoint), source),
        (
            Stage::Failed(Failure::SubmissionError(ClientError::InvalidEndpoint)),
            Action::Reply(Notice::Failed)
        )
    );
}

#[test]
fn submission_requested_waits_for_the_answer_or_fails() {
    let mut client = QBittorrentClient::from_parsed(Some("http://h/".to_string())).unwrap();
    client.login_answered(Some(200)).unwrap();
    let request = client
        .submission_request(Some("http://h/add".to_string()), RequestType::File(vec![7]))
        .unwrap();
    assert_eq!(
        submission_requested(client.clone(), Ok(request.clone())),
        (Stage::PendingSubmission { client: client.clone() }, Action::Submit(request))
    );
    assert_eq!(
        submission_requested(client, Err(ClientError::AuthenticationFailed)),
        (
            Stage::Failed(Failure::SubmissionError(ClientError::AuthenticationFailed)),
            Action::Reply(Notice::Failed)
        )
    );
}
