use mailcore::extract_text_bodies;
use mailcore::BodyFetchOutcome;
use mailcore::Email;
use mailcore::MimePart;
use mailcore::Error;
use mailcore::ImapConnector;
use mailcore::ListOutcome;
use mailcore::SearchOutcome;
use mailcore::ServerInfo;
use mailcore::SessionState;
use mailcore::StepOutcome;
use mailcore::SummaryFetchOutcome;

fn server_info() -> ServerInfo {
    ServerInfo {
        host: String::from("imap.example.org"),
        port: 993,
        login: String::from("user"),
        password: String::from("correct-horse-battery"),
    }
}

fn strings(items: &[&str]) -> Vec<String> {
    items.iter().map(|s| String::from(*s)).collect()
}

fn ready_connector() -> ImapConnector {
    let mut c = ImapConnector::new(server_info());
    c.tls_handshake_done(StepOutcome::Done).unwrap();
    c.login_done(StepOutcome::Done).unwrap();
    c
}

fn summary(uid: &str) -> Email {
    Email {
        uid: String::from(uid),
        subject: format!("subject {}", uid),
        sender: String::from("alice@example.org"),
        recipients: strings(&["bob@example.org"]),
        date: String::from("2024-01-01 00:00:00"),
    }
}

#[test]
fn session_walks_its_states() {
    let mut c = ImapConnector::new(server_info());
    assert!(matches!(c.state, SessionState::Disconnected));
    c.tls_handshake_done(StepOutcome::Done).unwrap();
    assert!(matches!(c.state, SessionState::ConnectedTls));
    c.login_done(StepOutcome::Done).unwrap();
    assert!(matches!(c.state, SessionState::Authenticated));
    c.mailbox_selected(&String::from("INBOX"), StepOutcome::Done).unwrap();
    match &c.state {
        SessionState::MailboxSelected(name) => assert_eq!(name, "INBOX"),
        other => panic!("unexpected state {:?}", other),
    }
    // A repeated select simply re-targets the session.
    c.mailbox_selected(&String::from("Sent"), StepOutcome::Done).unwrap();
    match &c.state {
        SessionState::MailboxSelected(name) => assert_eq!(name, "Sent"),
        other => panic!("unexpected state {:?}", other),
    }
}

#[test]
fn a_closed_session_is_never_reused() {
    let mut c = ready_connector();
    c.close();
    assert!(matches!(c.state, SessionState::Closed));
}

#[test]
fn transport_failure_is_distinct_and_discards_the_session() {
    let mut c = ImapConnector::new(server_info());
    let e = c
        .tls_handshake_done(StepOutcome::Failed(String::from("handshake refused")))
        .unwrap_err();
    assert!(matches!(e, Error::CreateTlsConnectorError(ref d) if d == "handshake refused"));
    assert!(matches!(c.state, SessionState::Closed));
}

#[test]
fn rejected_login_is_an_authentication_failure() {
    let mut c = ImapConnector::new(server_info());
    c.tls_handshake_done(StepOutcome::Done).unwrap();
    let e = c.login_done(StepOutcome::Failed(String::from("bad credentials"))).unwrap_err();
    assert!(matches!(e, Error::CreateImapSession(ref d) if d == "bad credentials"));
    assert!(matches!(c.state, SessionState::Closed));
}

#[test]
fn listing_maps_every_entry_in_server_order() {
    let mut c = ready_connector();
    let ms = c
        .list_mailboxes(ListOutcome::Listed(strings(&["INBOX", "Sent", "Archive/2024"])))
        .unwrap();
    let names: Vec<&str> = ms.iter().map(|m| m.name.as_str()).collect();
    assert_eq!(names, vec!["INBOX", "Sent", "Archive/2024"]);
}

#[test]
fn zero_mailboxes_list_as_empty_not_as_an_error() {
    let mut c = ready_connector();
    let ms = c.list_mailboxes(ListOutcome::Listed(Vec::new())).unwrap();
    assert!(ms.is_empty());
}

#[test]
fn failed_listing_surfaces_the_server_message() {
    let mut c = ready_connector();
    let e = c.list_mailboxes(ListOutcome::Failed(String::from("LIST rejected"))).unwrap_err();
    assert!(matches!(e, Error::CreateImapSession(ref d) if d == "LIST rejected"));
}

#[test]
fn search_plans_at_most_twenty_uids() {
    let mut c = ready_connector();
    let uids: Vec<String> = (1..=25).map(|n| n.to_string()).collect();
    let plan = c
        .search_summaries(&String::from("INBOX"), StepOutcome::Done, SearchOutcome::Found(uids))
        .unwrap();
    assert_eq!(plan.uids.len(), 20);
    assert_eq!(plan.uids[0], "1");
    assert_eq!(plan.uids[19], "20");
    assert_eq!(
        plan.set,
        "1,2,3,4,5,6,7,8,9,10,11,12,13,14,15,16,17,18,19,20"
    );
}

#[test]
fn search_with_few_matches_plans_them_all() {
    let mut c = ready_connector();
    let plan = c
        .search_summaries(
            &String::from("INBOX"),
            StepOutcome::Done,
            SearchOutcome::Found(strings(&["1", "2", "3"])),
        )
        .unwrap();
    assert_eq!(plan.uids, strings(&["1", "2", "3"]));
    assert_eq!(plan.set, "1,2,3");
}

#[test]
fn read_emails_returns_all_three_in_server_order() {
    // Mailbox INBOX holds UIDs 1, 2 and 3; the query matches all three.
    let mut c = ready_connector();
    let plan = c
        .search_summaries(
            &String::from("INBOX"),
            StepOutcome::Done,
            SearchOutcome::Found(strings(&["1", "2", "3"])),
        )
        .unwrap();
    let fetched = vec![summary("1"), summary("2"), summary("3")];
    let emails = c.read_emails(&plan, SummaryFetchOutcome::Fetched(fetched)).unwrap();
    assert_eq!(emails.len(), 3);
    assert_eq!(emails[0].uid, "1");
    assert_eq!(emails[1].uid, "2");
    assert_eq!(emails[2].uid, "3");
}

#[test]
fn read_emails_with_no_match_returns_empty_not_an_error() {
    // The same mailbox, a query that matches nothing.
    let mut c = ready_connector();
    let plan = c
        .search_summaries(
            &String::from("INBOX"),
            StepOutcome::Done,
            SearchOutcome::Found(Vec::new()),
        )
        .unwrap();
    assert!(plan.uids.is_empty());
    assert_eq!(plan.set, "");
    let emails = c.read_emails(&plan, SummaryFetchOutcome::Fetched(Vec::new())).unwrap();
    assert!(emails.is_empty());
}

#[test]
fn read_emails_never_exceeds_the_cap() {
    let mut c = ready_connector();
    let uids: Vec<String> = (1..=30).map(|n| n.to_string()).collect();
    let plan = c
        .search_summaries(&String::from("INBOX"), StepOutcome::Done, SearchOutcome::Found(uids))
        .unwrap();
    // Even a server that answers beyond the planned window cannot push the
    // result over the cap.
    let fetched: Vec<Email> = (1..=30).map(|n| summary(&n.to_string())).collect();
    let emails = c.read_emails(&plan, SummaryFetchOutcome::Fetched(fetched)).unwrap();
    assert_eq!(emails.len(), 20);
}

#[test]
fn failed_select_surfaces_before_any_search() {
    let mut c = ready_connector();
    let e = c
        .search_summaries(
            &String::from("INBOX"),
            StepOutcome::Failed(String::from("SELECT rejected")),
            SearchOutcome::Found(strings(&["1"])),
        )
        .unwrap_err();
    assert!(matches!(e, Error::CreateImapSession(ref d) if d == "SELECT rejected"));
}

#[test]
fn failed_search_surfaces_the_server_message() {
    let mut c = ready_connector();
    let e = c
        .search_summaries(
            &String::from("INBOX"),
            StepOutcome::Done,
            SearchOutcome::Failed(String::from("SEARCH rejected")),
        )
        .unwrap_err();
    assert!(matches!(e, Error::CreateImapSession(ref d) if d == "SEARCH rejected"));
}

#[test]
fn missing_uid_fails_with_not_found_carrying_the_uid() {
    // UID 99 does not exist in the mailbox: no fetch result comes back.
    let mut c = ready_connector();
    let e = c
        .read_email_body(
            &String::from("INBOX"),
            StepOutcome::Done,
            &String::from("99"),
            &String::from("text/plain"),
            BodyFetchOutcome::NoResult,
        )
        .unwrap_err();
    match e {
        Error::ReadEmailNotFoundError(uid) => assert_eq!(uid, "99"),
        other => panic!("unexpected error {:?}", other),
    }
}

#[test]
fn email_without_the_requested_part_fails_with_empty_part() {
    // UID 2 exists but carries only an HTML part: requesting text/plain is
    // the distinct empty-part condition, not the not-found one.
    let raw = b"Content-Type: text/html\r\n\r\n<p>hello</p>".to_vec();
    let mut c = ready_connector();
    let e = c
        .read_email_body(
            &String::from("INBOX"),
            StepOutcome::Done,
            &String::from("2"),
            &String::from("text/plain"),
            BodyFetchOutcome::Payload(Some(raw)),
        )
        .unwrap_err();
    match e {
        Error::ReadEmailEmptyPartError(uid, mime) => {
            assert_eq!(uid, "2");
            assert_eq!(mime, "text/plain");
        },
        other => panic!("unexpected error {:?}", other),
    }
}

#[test]
fn absent_payload_is_an_empty_body_not_a_protocol_error() {
    // The fetch result exists but its payload is absent: treated as an
    // empty body. A message without headers defaults to one empty
    // text/plain part, so that type extracts as empty text, while any
    // other type is the empty-part condition.
    let mut c = ready_connector();
    let body = c
        .read_email_body(
            &String::from("INBOX"),
            StepOutcome::Done,
            &String::from("7"),
            &String::from("text/plain"),
            BodyFetchOutcome::Payload(None),
        )
        .unwrap();
    assert_eq!(body, "");
    let e = c
        .read_email_body(
            &String::from("INBOX"),
            StepOutcome::Done,
            &String::from("7"),
            &String::from("text/html"),
            BodyFetchOutcome::Payload(None),
        )
        .unwrap_err();
    assert!(matches!(e, Error::ReadEmailEmptyPartError(_, _)));
}

#[test]
fn single_part_body_comes_back_verbatim() {
    let raw = b"Content-Type: text/plain\r\n\r\nhello there".to_vec();
    let mut c = ready_connector();
    let body = c
        .read_email_body(
            &String::from("INBOX"),
            StepOutcome::Done,
            &String::from("1"),
            &String::from("text/plain"),
            BodyFetchOutcome::Payload(Some(raw)),
        )
        .unwrap();
    assert_eq!(body, "hello there");
}

#[test]
fn transfer_encoding_is_undone_before_extraction() {
    // A quoted-printable body: the extracted text is the decoded one, not
    // the wire bytes.
    let raw =
        "Content-Type: text/plain\r\nContent-Transfer-Encoding: quoted-printable\r\n\r\nhello=20world=21"
        .as_bytes()
        .to_vec();
    let mut c = ready_connector();
    let body = c
        .read_email_body(
            &String::from("INBOX"),
            StepOutcome::Done,
            &String::from("1"),
            &String::from("text/plain"),
            BodyFetchOutcome::Payload(Some(raw)),
        )
        .unwrap();
    assert_eq!(body, "hello world!");
}

#[test]
fn matching_parts_concatenate_in_document_order() {
    let raw = "Content-Type: multipart/alternative; boundary=\"sep\"\r\n\r\n--sep\r\nContent-Type: text/plain\r\n\r\nfirst\r\n--sep\r\nContent-Type: text/html\r\n\r\n<p>markup</p>\r\n--sep\r\nContent-Type: text/plain\r\n\r\nsecond\r\n--sep--\r\n"
        .as_bytes()
        .to_vec();
    let mut c = ready_connector();
    let body = c
        .read_email_body(
            &String::from("INBOX"),
            StepOutcome::Done,
            &String::from("5"),
            &String::from("text/plain"),
            BodyFetchOutcome::Payload(Some(raw)),
        )
        .unwrap();
    let first = body.find("first").expect("first part extracted");
    let second = body.find("second").expect("second part extracted");
    assert!(first < second);
    assert!(!body.contains("markup"));
}

#[test]
fn malformed_payload_is_a_parse_error() {
    // A header block that starts with a space is no MIME message: the
    // distinct parse condition, after a successful fetch.
    let raw = b" overhanging: line\r\n\r\nx".to_vec();
    let mut c = ready_connector();
    let e = c
        .read_email_body(
            &String::from("INBOX"),
            StepOutcome::Done,
            &String::from("3"),
            &String::from("text/plain"),
            BodyFetchOutcome::Payload(Some(raw)),
        )
        .unwrap_err();
    assert!(matches!(e, Error::ParseEmailError(_)));
}

#[test]
fn extraction_filters_by_the_requested_type() {
    let parts = vec![
        MimePart { mime: String::from("text/plain"), body: String::from("one ") },
        MimePart { mime: String::from("text/html"), body: String::from("<p>two</p>") },
        MimePart { mime: String::from("text/plain"), body: String::from("three") },
    ];
    assert_eq!(
        extract_text_bodies(&String::from("text/plain"), &parts),
        Some(String::from("one three"))
    );
    assert_eq!(
        extract_text_bodies(&String::from("text/html"), &parts),
        Some(String::from("<p>two</p>"))
    );
    assert_eq!(extract_text_bodies(&String::from("image/png"), &parts), None);
}

#[test]
fn failed_body_fetch_surfaces_the_server_message() {
    let mut c = ready_connector();
    let e = c
        .read_email_body(
            &String::from("INBOX"),
            StepOutcome::Done,
            &String::from("1"),
            &String::from("text/plain"),
            BodyFetchOutcome::Failed(String::from("FETCH rejected")),
        )
        .unwrap_err();
    assert!(matches!(e, Error::CreateImapSession(ref d) if d == "FETCH rejected"));
}

#[test]
fn errors_render_with_the_connector_prefix() {
    let not_found = Error::ReadEmailNotFoundError(String::from("42"));
    assert_eq!(not_found.display(), "(imap): no email found for uid 42");
    let empty = Error::ReadEmailEmptyPartError(String::from("2"), String::from("text/plain"));
    assert_eq!(empty.display(), "(imap): no text/plain content found for uid 2");
    let tls = Error::CreateTlsConnectorError(String::from("handshake refused"));
    assert_eq!(tls.display(), "(imap): handshake refused");
    let proto = Error::CreateImapSession(String::from("NO such mailbox"));
    assert_eq!(proto.display(), "(imap): NO such mailbox");
    let parse = Error::ParseEmailError(String::from("broken header"));
    assert_eq!(parse.display(), "(imap): broken header");
}
