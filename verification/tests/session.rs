use webex_courier::delivery::DeliveryReply;
use webex_courier::failure::Failure;
use webex_courier::lookup::LookupReply;
use webex_courier::request::{Attachment, DeliveryRequest, Entry, LookupRequest};
use webex_courier::session::{
    begin, resolve_arguments, Action, Event, Invocation, Outcome, Session, Step, Stream,
};
use webex_courier::status::Status;

fn arguments(texts: &[&str]) -> Vec<String> {
    texts.iter().map(|text| text.to_string()).collect()
}

fn alice() -> Vec<String> {
    arguments(&["alice@example.com", "/tmp/report.pdf", "Here it is"])
}

fn invocation() -> Invocation {
    Invocation {
        recipient: "alice@example.com".to_string(),
        file_path: "/tmp/report.pdf".to_string(),
        message: "Here it is".to_string(),
    }
}

fn entry(name: &str, value: &str) -> Entry {
    Entry { name: name.to_string(), value: value.to_string() }
}

fn status(code: u16) -> Status {
    Status::from_code(code).unwrap()
}

fn looked_up(code: u16, body: &str) -> Event {
    Event::LookedUp(LookupReply::Received { status: status(code), body: body.to_string() })
}

fn uploaded(code: u16) -> Event {
    Event::Uploaded(DeliveryReply::Received { status: status(code) })
}

fn failure(step: &Step) -> &Failure {
    assert_eq!(step.session, Session::Finished);
    match &step.action {
        Action::Finish(Outcome::Failed(failure)) => failure,
        other => panic!("no failure: {:?}", other),
    }
}

fn looking_up() -> Session {
    begin("TOKEN", "courier", &alice()).session.step(Event::FileChecked { exists: true }).unwrap().session
}

fn delivering() -> Session {
    looking_up().step(looked_up(200, "{\"items\":[{\"id\":\"P123\"}]}")).unwrap().session
}

fn every_event() -> Vec<Event> {
    vec![
        Event::FileChecked { exists: true },
        Event::FileChecked { exists: false },
        Event::LookedUp(LookupReply::SendFailed { detail: "x".to_string() }),
        Event::LookedUp(LookupReply::BodyUnreadable { detail: "x".to_string() }),
        looked_up(200, "{\"items\":[{\"id\":\"P123\"}]}"),
        looked_up(500, ""),
        Event::Uploaded(DeliveryReply::FormFailed { detail: "x".to_string() }),
        Event::Uploaded(DeliveryReply::SendFailed { detail: "x".to_string() }),
        uploaded(200),
        uploaded(400),
        Event::RejectionRead { body: None },
        Event::RejectionRead { body: Some("x".to_string()) },
    ]
}

#[test]
fn three_arguments_are_resolved() {
    assert_eq!(resolve_arguments("courier", &alice()), Ok(invocation()));
    assert_eq!(
        resolve_arguments("", &arguments(&["", "", ""])),
        Ok(Invocation { recipient: String::new(), file_path: String::new(), message: String::new() })
    );
}

#[test]
fn any_other_number_of_arguments_is_a_usage_failure() {
    let lines = [
        arguments(&[]),
        arguments(&["alice@example.com"]),
        arguments(&["alice@example.com", "/tmp/report.pdf"]),
        arguments(&["alice@example.com", "/tmp/report.pdf", "Here", "it is"]),
    ];
    for line in lines {
        assert_eq!(
            resolve_arguments("courier", &line),
            Err(Failure::Usage { program: "courier".to_string() })
        );
    }
}

#[test]
fn wrong_argument_count_ends_the_run_with_the_usage_line() {
    for count in [0usize, 1, 2, 4, 5, 40] {
        let mut line: Vec<String> = Vec::new();
        while line.len() < count {
            line.push("x".to_string());
        }
        let step = begin("TOKEN", "./bin/courier", &line);
        assert_eq!(failure(&step), &Failure::Usage { program: "./bin/courier".to_string() });
        match &step.action {
            Action::Finish(outcome) => {
                assert_eq!(outcome.exit_code(), 1);
                assert_eq!(outcome.stream(), Stream::Stderr);
                assert_eq!(
                    outcome.line(),
                    "Usage: ./bin/courier <recipient_email> <file_path> <message_text>"
                );
                assert!(outcome.line().contains("./bin/courier"));
            },
            other => panic!("not finished: {:?}", other),
        }
        for event in every_event() {
            assert_eq!(step.session.step(event), None);
        }
    }
}

#[test]
fn well_formed_command_line_has_the_file_checked() {
    let step = begin("TOKEN", "courier", &alice());
    assert_eq!(step.action, Action::CheckFile { path: "/tmp/report.pdf".to_string() });
    assert_eq!(
        step.session,
        Session::CheckingFile { token: "TOKEN".to_string(), invocation: invocation() }
    );
}

#[test]
fn missing_file_ends_the_run_before_any_request() {
    let first = begin("TOKEN", "courier", &alice());
    assert_eq!(first.action, Action::CheckFile { path: "/tmp/report.pdf".to_string() });
    let second = first.session.step(Event::FileChecked { exists: false }).unwrap();
    assert_eq!(failure(&second), &Failure::FileMissing { path: "/tmp/report.pdf".to_string() });
    match &second.action {
        Action::Finish(outcome) => {
            assert_eq!(outcome.exit_code(), 1);
            assert_eq!(outcome.stream(), Stream::Stderr);
            assert_eq!(outcome.line(), "Error: File not found at '/tmp/report.pdf'");
        },
        other => panic!("not finished: {:?}", other),
    }
    for event in every_event() {
        assert_eq!(second.session.step(event), None);
    }
}

#[test]
fn no_request_is_made_while_the_file_is_unchecked() {
    let first = begin("TOKEN", "courier", &alice());
    for event in every_event() {
        if event == (Event::FileChecked { exists: true }) {
            continue;
        }
        match first.session.step(event) {
            None => {},
            Some(step) => assert!(matches!(step.action, Action::Finish(_))),
        }
    }
}

#[test]
fn found_file_has_the_recipient_looked_up() {
    let step = begin("TOKEN", "courier", &alice()).session.step(Event::FileChecked { exists: true }).unwrap();
    assert_eq!(
        step.action,
        Action::Lookup(LookupRequest {
            url: "https://webexapis.com/v1/people?email=alice@example.com".to_string(),
            headers: vec![
                entry("Authorization", "Bearer TOKEN"),
                entry("Content-Type", "application/json"),
            ],
        })
    );
    assert_eq!(
        step.session,
        Session::LookingUp { token: "TOKEN".to_string(), invocation: invocation() }
    );
}

#[test]
fn empty_lookup_result_ends_the_run_without_delivery() {
    let step = looking_up().step(looked_up(200, "{\"items\":[]}")).unwrap();
    assert_eq!(failure(&step), &Failure::NoMatch { email: "alice@example.com".to_string() });
    match &step.action {
        Action::Finish(outcome) => {
            assert_eq!(outcome.exit_code(), 1);
            assert_eq!(outcome.stream(), Stream::Stderr);
            assert_eq!(outcome.line(), "Error: No person found with email: alice@example.com");
            assert!(outcome.line().contains("alice@example.com"));
        },
        other => panic!("not finished: {:?}", other),
    }
    for event in every_event() {
        assert_eq!(step.session.step(event), None);
    }
}

#[test]
fn successful_run_delivers_to_the_person_found() {
    let first = begin("TOKEN", "courier", &alice());
    let second = first.session.step(Event::FileChecked { exists: true }).unwrap();
    let third = second.session.step(looked_up(200, "{\"items\":[{\"id\":\"P123\"}]}")).unwrap();
    assert_eq!(
        third.action,
        Action::Deliver(DeliveryRequest {
            url: "https://webexapis.com/v1/messages".to_string(),
            headers: vec![entry("Authorization", "Bearer TOKEN")],
            fields: vec![entry("toPersonId", "P123"), entry("text", "Here it is")],
            file: Attachment { field: "files".to_string(), path: "/tmp/report.pdf".to_string() },
        })
    );
    assert_eq!(third.session, Session::Delivering { recipient: "alice@example.com".to_string() });
    let fourth = third.session.step(uploaded(200)).unwrap();
    assert_eq!(fourth.session, Session::Finished);
    assert_eq!(
        fourth.action,
        Action::Finish(Outcome::Sent { recipient: "alice@example.com".to_string() })
    );
    match &fourth.action {
        Action::Finish(outcome) => {
            assert_eq!(outcome.exit_code(), 0);
            assert_eq!(outcome.stream(), Stream::Stdout);
            assert_eq!(outcome.line(), "File sent to alice@example.com successfully.");
            assert!(outcome.line().contains("alice@example.com"));
        },
        other => panic!("not finished: {:?}", other),
    }
    for event in every_event() {
        assert_eq!(fourth.session.step(event), None);
    }
}

#[test]
fn refused_delivery_reports_status_and_body() {
    let refused = delivering().step(uploaded(400)).unwrap();
    assert_eq!(refused.action, Action::ReadRejection);
    assert_eq!(refused.session, Session::ReadingRejection { status: status(400) });
    let last = refused
        .session
        .step(Event::RejectionRead { body: Some("{\"message\":\"bad request\"}".to_string()) })
        .unwrap();
    assert_eq!(
        failure(&last),
        &Failure::DeliveryStatus {
            status: status(400),
            body: "{\"message\":\"bad request\"}".to_string(),
        }
    );
    match &last.action {
        Action::Finish(outcome) => {
            assert_eq!(outcome.exit_code(), 1);
            assert_eq!(outcome.stream(), Stream::Stderr);
            let line = outcome.line();
            assert_eq!(
                line,
                "Error: POST request failed with status 400 Bad Request: {\"message\":\"bad request\"}"
            );
            assert!(line.contains("400"));
            assert!(line.contains("bad request"));
        },
        other => panic!("not finished: {:?}", other),
    }
}

#[test]
fn refused_delivery_with_unreadable_body_still_reports_the_status() {
    let refused = delivering().step(uploaded(503)).unwrap();
    let last = refused.session.step(Event::RejectionRead { body: None }).unwrap();
    match &last.action {
        Action::Finish(outcome) => {
            assert_eq!(outcome.exit_code(), 1);
            assert_eq!(
                outcome.line(),
                "Error: POST request failed with status 503 Service Unavailable: Failed to read response text"
            );
        },
        other => panic!("not finished: {:?}", other),
    }
}

#[test]
fn lookup_reply_that_is_no_json_ends_the_run_without_delivery() {
    let step = looking_up().step(looked_up(200, "{\"items\":[{\"id\":")).unwrap();
    assert_eq!(
        failure(&step),
        &Failure::LookupParse { detail: "EOF while parsing a value at line 1 column 16".to_string() }
    );
    match &step.action {
        Action::Finish(outcome) => {
            assert_eq!(outcome.exit_code(), 1);
            assert_eq!(outcome.stream(), Stream::Stderr);
            assert_eq!(
                outcome.line(),
                "Error: Failed to parse JSON: EOF while parsing a value at line 1 column 16"
            );
        },
        other => panic!("not finished: {:?}", other),
    }
    for event in every_event() {
        assert_eq!(step.session.step(event), None);
    }
}

#[test]
fn every_failed_lookup_ends_the_run() {
    let replies = vec![
        (
            Event::LookedUp(LookupReply::SendFailed { detail: "no route".to_string() }),
            "Error: Failed to send GET request: no route",
        ),
        (
            Event::LookedUp(LookupReply::BodyUnreadable { detail: "cut off".to_string() }),
            "Error: Failed to read response text: cut off",
        ),
        (looked_up(401, "who?"), "Error: GET request failed with status 401 Unauthorized: who?"),
        (looked_up(200, "{}"), "Error: No 'items' field in response"),
        (looked_up(200, "{\"items\":[{}]}"), "Error: No 'id' in person data"),
    ];
    for (event, line) in replies {
        let step = looking_up().step(event).unwrap();
        assert_eq!(step.session, Session::Finished);
        match &step.action {
            Action::Finish(outcome) => {
                assert_eq!(outcome.exit_code(), 1);
                assert_eq!(outcome.stream(), Stream::Stderr);
                assert_eq!(outcome.line(), line);
            },
            other => panic!("not finished: {:?}", other),
        }
    }
}

#[test]
fn every_failed_upload_ends_the_run() {
    let replies = vec![
        (
            Event::Uploaded(DeliveryReply::FormFailed { detail: "Permission denied".to_string() }),
            "Error: Failed to create multipart form: Permission denied",
        ),
        (
            Event::Uploaded(DeliveryReply::SendFailed { detail: "no route".to_string() }),
            "Error: Failed to send POST request: no route",
        ),
    ];
    for (event, line) in replies {
        let step = delivering().step(event).unwrap();
        assert_eq!(step.session, Session::Finished);
        match &step.action {
            Action::Finish(outcome) => {
                assert_eq!(outcome.exit_code(), 1);
                assert_eq!(outcome.line(), line);
            },
            other => panic!("not finished: {:?}", other),
        }
    }
}

#[test]
fn events_that_a_session_does_not_wait_for_are_turned_away() {
    let checking = begin("TOKEN", "courier", &alice()).session;
    let looking = looking_up();
    let delivering = delivering();
    let reading = delivering.step(uploaded(404)).unwrap().session;
    for index in 0..every_event().len() {
        let event = || every_event().swap_remove(index);
        let file = matches!(event(), Event::FileChecked { .. });
        let lookup = matches!(event(), Event::LookedUp(_));
        let upload = matches!(event(), Event::Uploaded(_));
        let body = matches!(event(), Event::RejectionRead { .. });
        assert_eq!(checking.step(event()).is_some(), file);
        assert_eq!(looking.step(event()).is_some(), lookup);
        assert_eq!(delivering.step(event()).is_some(), upload);
        assert_eq!(reading.step(event()).is_some(), body);
        assert_eq!(Session::Finished.step(event()), None);
    }
}

#[test]
fn nothing_is_asked_for_twice() {
    let first = begin("TOKEN", "courier", &alice());
    let second = first.session.step(Event::FileChecked { exists: true }).unwrap();
    assert!(matches!(second.action, Action::Lookup(_)));
    assert_eq!(second.session.step(Event::FileChecked { exists: true }), None);
    let third = second.session.step(looked_up(200, "{\"items\":[{\"id\":\"P123\"}]}")).unwrap();
    assert!(matches!(third.action, Action::Deliver(_)));
    assert_eq!(third.session.step(looked_up(200, "{\"items\":[{\"id\":\"P123\"}]}")), None);
    let fourth = third.session.step(uploaded(500)).unwrap();
    assert_eq!(fourth.action, Action::ReadRejection);
    assert_eq!(fourth.session.step(uploaded(500)), None);
    let fifth = fourth.session.step(Event::RejectionRead { body: None }).unwrap();
    assert!(matches!(fifth.action, Action::Finish(_)));
    assert_eq!(fifth.session, Session::Finished);
    assert_eq!(fifth.session.step(Event::RejectionRead { body: None }), None);
}
