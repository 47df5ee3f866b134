use simplemm::database::DbAction;
use simplemm::error::Error;
use simplemm::request::{
    handle_subscribe, new_subscriptions, process_request, send_mail_for_subscription, sender_of,
    some_addresses, Response,
};
use simplemm::state::{start_server, start_server_at, stop_server, ServerState};
use simplemm::types::{Action, Command, Config, Subscription, Timestamp};

fn config() -> Config {
    Config {
        db_url: "mysql://lists@localhost/lists".to_string(),
        uid: 33,
        gid: 44,
        pid_file: "/run/simplemmd.pid".to_string(),
        working_dir: "/".to_string(),
        socket: "/run/simplemmd.sock".to_string(),
    }
}

fn server() -> ServerState {
    start_server_at(&config(), Timestamp { seconds: 1_700_000_000, nanos: 250 })
}

fn subscribe(list_name: Option<&str>, data: Option<&str>) -> Command {
    Command {
        action: Action::Subscribe,
        originator: "tester".to_string(),
        list_name: list_name.map(|name| name.to_string()),
        data: data.map(|text| text.to_string()),
    }
}

fn is_uuid(text: &str) -> bool {
    let characters: Vec<char> = text.chars().collect();
    characters.len() == 36
        && characters.iter().enumerate().all(|(i, c)| {
            if i == 8 || i == 13 || i == 18 || i == 23 {
                *c == '-'
            } else {
                c.is_ascii_digit() || ('a'..='f').contains(c)
            }
        })
        && characters[14] == '4'
        && "89ab".contains(characters[19])
}

#[test]
fn a_request_from_two_senders_makes_two_rows_for_the_list() {
    let mail = "From: a@b.com, \"q p\"@c.com\nSubject: subscribe\n\nplease\n";
    let server = server();
    let enrollment =
        handle_subscribe(subscribe(Some("list@example.com"), Some(mail)), &server).unwrap();
    let enrollment = enrollment
        .database_replied(Ok(None))
        .database_replied(Ok(None))
        .database_replied(Ok(None));
    assert_eq!(
        enrollment.action(),
        DbAction::FindList {
            statement: "SELECT id FROM mailing_lists WHERE email = :email".to_string(),
            email: "list@example.com".to_string()
        }
    );
    let enrollment = enrollment.database_replied(Ok(Some(12)));
    match enrollment.action() {
        DbAction::InsertBatch { rows, .. } => {
            assert_eq!(rows.len(), 2);
            assert_eq!(rows[0].email, "a@b.com");
            assert_eq!(rows[1].email, "\"q p\"@c.com");
            for row in &rows {
                assert_eq!(row.list_id, 12);
                assert_eq!(row.request, mail);
                assert!(is_uuid(&row.uuid));
            }
            assert_ne!(rows[0].uuid, rows[1].uuid);
        }
        other => panic!("an insert was due, not {:?}", other),
    }
}

#[test]
fn a_request_without_data_is_refused() {
    let refused = handle_subscribe(subscribe(Some("list@example.com"), None), &server());
    assert_eq!(refused.err(), Some(Error::SubscriptionRequestWithoutData));
}

#[test]
fn a_mail_without_senders_is_refused() {
    let mail = "Subject: hello\n\nbody\n";
    let refused = handle_subscribe(subscribe(Some("list@example.com"), Some(mail)), &server());
    assert_eq!(
        refused.err(),
        Some(Error::EmptyOrMissingHeader {
            header: "FROM".to_string(),
            request: mail.to_string()
        })
    );
}

#[test]
fn the_name_of_the_header_may_be_written_in_any_case() {
    let mail = "FROM: a@b.com\n\nbody\n";
    assert!(handle_subscribe(subscribe(Some("list@example.com"), Some(mail)), &server()).is_ok());
}

#[test]
fn a_header_without_an_address_is_refused() {
    let mail = "From: nobody in particular\n\nbody\n";
    let refused = handle_subscribe(subscribe(Some("list@example.com"), Some(mail)), &server());
    assert_eq!(
        refused.err(),
        Some(Error::CouldNotParseHeader { header: "FROM".to_string(), request: mail.to_string() })
    );
}

#[test]
fn a_request_without_a_list_is_refused() {
    let mail = "From: a@b.com\n\nbody\n";
    let refused = handle_subscribe(subscribe(None, Some(mail)), &server());
    assert_eq!(
        refused.err(),
        Some(Error::RequestWithoutListName {
            request_type: "SUBSCRIBE".to_string(),
            request: mail.to_string()
        })
    );
}

#[test]
fn the_data_is_looked_at_before_the_list() {
    let refused = handle_subscribe(subscribe(None, None), &server());
    assert_eq!(refused.err(), Some(Error::SubscriptionRequestWithoutData));
    let refused = handle_subscribe(subscribe(None, Some("Subject: x\n\n")), &server());
    assert!(matches!(refused, Err(Error::EmptyOrMissingHeader { .. })));
}

#[test]
fn a_stopped_server_enrolls_nobody() {
    let server = server();
    stop_server(&server).finish();
    let mail = "From: a@b.com\n\nbody\n";
    let refused = handle_subscribe(subscribe(Some("list@example.com"), Some(mail)), &server);
    assert_eq!(
        refused.err(),
        Some(Error::ServerStateError { source: "the server is not running".to_string() })
    );
}

#[test]
fn the_sender_is_taken_from_what_the_search_gave() {
    assert_eq!(sender_of("mail", Ok(Some("a@b".to_string()))), Ok("a@b".to_string()));
    assert_eq!(
        sender_of("mail", Ok(None)),
        Err(Error::EmptyOrMissingHeader { header: "FROM".to_string(), request: "mail".to_string() })
    );
    assert_eq!(
        sender_of("mail", Err(mailparse::MailParseError::Generic("broken mail"))),
        Err(Error::MailParseError { source: "broken mail".to_string() })
    );
}

#[test]
fn no_address_is_a_failure() {
    assert_eq!(
        some_addresses("mail", Vec::new()),
        Err(Error::CouldNotParseHeader { header: "FROM".to_string(), request: "mail".to_string() })
    );
    assert_eq!(some_addresses("mail", vec!["a@b".to_string()]), Ok(vec!["a@b".to_string()]));
}

#[test]
fn each_address_gets_a_fresh_identifier() {
    let subscriptions =
        new_subscriptions(vec!["a@b".to_string(), "c@d".to_string(), "a@b".to_string()]);
    assert_eq!(subscriptions.len(), 3);
    assert_eq!(subscriptions[0].email, "a@b");
    assert_eq!(subscriptions[1].email, "c@d");
    assert_eq!(subscriptions[2].email, "a@b");
    for subscription in &subscriptions {
        assert!(is_uuid(&subscription.uuid));
    }
    assert_ne!(subscriptions[0].uuid, subscriptions[1].uuid);
    assert_ne!(subscriptions[0].uuid, subscriptions[2].uuid);
    assert!(new_subscriptions(Vec::new()).is_empty());
}

#[test]
fn nothing_follows_an_insert_yet() {
    let subscription = Subscription { email: "a@b".to_string(), uuid: "u".to_string() };
    assert_eq!(send_mail_for_subscription(&subscription), Ok(()));
}

#[test]
fn alive_is_answered_with_the_state() {
    let server = server();
    let command = Command {
        action: Action::Alive,
        originator: "tester".to_string(),
        list_name: None,
        data: None,
    };
    match process_request(command, &server) {
        Response::Alive(Ok(state)) => {
            assert_eq!(state.config, config());
            assert_eq!(state.start_time, Timestamp { seconds: 1_700_000_000, nanos: 250 });
            assert_eq!(state.server_version, "0.1.0");
        }
        _ => panic!("the state was due"),
    }
}

#[test]
fn stop_empties_the_cell_and_alive_then_fails() {
    let server = server();
    let stop = Command {
        action: Action::Stop,
        originator: "tester".to_string(),
        list_name: None,
        data: None,
    };
    match process_request(stop, &server) {
        Response::Stopping(shutdown) => {
            assert_eq!(shutdown.files(), vec!["/run/simplemmd.sock", "/run/simplemmd.pid"]);
            shutdown.finish();
        }
        _ => panic!("a stop was due"),
    }
    let alive = Command {
        action: Action::Alive,
        originator: "tester".to_string(),
        list_name: None,
        data: None,
    };
    match process_request(alive, &server) {
        Response::Alive(Err(error)) => assert_eq!(
            error,
            Error::ServerStateError { source: "the server is not running".to_string() }
        ),
        _ => panic!("a failure was due"),
    }
}

#[test]
fn subscribe_is_answered_with_an_enrollment() {
    let server = server();
    let command = subscribe(Some("list@example.com"), Some("From: a@b.com\n\n"));
    match process_request(command, &server) {
        Response::Enrolling(Ok(enrollment)) => assert_eq!(
            enrollment.action(),
            DbAction::Connect { db_url: "mysql://lists@localhost/lists".to_string() }
        ),
        _ => panic!("an enrollment was due"),
    }
    match process_request(subscribe(None, None), &server) {
        Response::Enrolling(Err(error)) => {
            assert_eq!(error, Error::SubscriptionRequestWithoutData)
        }
        _ => panic!("a refusal was due"),
    }
}

#[test]
fn a_server_starts_at_the_time_of_the_clock() {
    let server = start_server(&config());
    let state = simplemm::state::get_server_state(&server).unwrap();
    assert_eq!(state.config, config());
    assert_eq!(state.server_version, "0.1.0");
    assert!(state.start_time.seconds > 1_600_000_000);
    assert!(state.start_time.nanos < 1_000_000_000);
}
