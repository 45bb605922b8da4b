use cert_renewal::{
    renewal_needed, Acme, Action, App, AuthorizationInfo, AuthorizationStatus, Backoff,
    Certificate, ChallengeError, ChallengeType, Event, OrderStatus, Outcome, PleskAPI,
    PleskDNSResponse, PleskDNSResponseAction, PleskDNSResponseData, PleskDNSResponseResult,
    PleskError, RunError, WaitStep, SECONDS_PER_DAY,
};
use cert_renewal::ExpiryError;
use cert_renewal::{read_credentials, write_credentials, CredentialsError};

const NOW: i64 = 1_700_000_000;

fn data(status: &str, errtext: Option<&str>, id: Option<&str>) -> PleskDNSResponseData {
    PleskDNSResponseData {
        status: status.to_string(),
        errcode: None,
        errtext: errtext.map(|s| s.to_string()),
        id: id.map(|s| s.to_string()),
    }
}

fn add_reply(d: PleskDNSResponseData) -> PleskDNSResponse {
    PleskDNSResponse {
        dns: PleskDNSResponseAction { add_rec: Some(PleskDNSResponseResult { result: d }), del_rec: None },
    }
}

fn del_reply(d: PleskDNSResponseData) -> PleskDNSResponse {
    PleskDNSResponse {
        dns: PleskDNSResponseAction { add_rec: None, del_rec: Some(PleskDNSResponseResult { result: d }) },
    }
}

fn api() -> PleskAPI {
    PleskAPI::new("https://panel.example.com:8443".to_string(), "12".to_string(), "admin".to_string(), "pw".to_string())
}

#[test]
fn renewal_due_when_expiry_is_inside_threshold() {
    let cert = Certificate::new(Some(NOW + 10 * SECONDS_PER_DAY));
    assert_eq!(cert.expires_in_days(30, NOW), Ok(true));
    assert_eq!(cert.expires_in_days(5, NOW), Ok(false));
    assert!(renewal_needed(&Some(Certificate::new(Some(NOW + 10 * SECONDS_PER_DAY))), 30, NOW));
    assert!(!renewal_needed(&Some(Certificate::new(Some(NOW + 10 * SECONDS_PER_DAY))), 5, NOW));
}

#[test]
fn expiry_edge_cases() {
    let cert = Certificate::new(Some(NOW + 10 * SECONDS_PER_DAY));
    assert_eq!(cert.expires_in_days(10, NOW), Ok(false));
    assert_eq!(cert.expires_in_days(11, NOW), Ok(true));
    assert!(renewal_needed(&None, 30, NOW));
    assert_eq!(Certificate::new(Some(i64::MAX)).expires_in_days(0, NOW), Ok(false));
    assert_eq!(Certificate::new(Some(i64::MIN)).expires_in_days(u32::MAX, i64::MAX), Ok(true));
}

#[test]
fn missing_peer_certificate_fails_the_check_and_renews() {
    assert_eq!(Certificate::new(None).expires_in_days(30, NOW), Err(ExpiryError::NoPeerCertificate));
    assert!(renewal_needed(&Some(Certificate::new(None)), 30, NOW));
    assert!(renewal_needed(&Some(Certificate::new(None)), 0, NOW));
}

#[test]
fn output_files_are_named_after_the_domain() {
    let acme = Acme::new("example.com".to_string());
    assert_eq!(acme.certificate_path("/out"), "/out/wildcard.example.com.cert.pem");
    assert_eq!(acme.private_key_path("/out"), "/out/wildcard.example.com.privkey.pem");
    assert_eq!(acme.certificate_path("/out/"), "/out/wildcard.example.com.cert.pem");
    assert_eq!(acme.private_key_path(""), "wildcard.example.com.privkey.pem");
}

#[test]
fn ordered_name_is_the_wildcard() {
    assert_eq!(Acme::new("example.com".to_string()).get_domain(), "*.example.com");
}

#[test]
fn provider_error_text_is_kept_verbatim() {
    let text = "Record already exists: _acme-challenge";
    let r = PleskAPI::add_challenge_result(&add_reply(data("error", Some(text), None)), "<raw/>");
    match r {
        Err(PleskError::Provider(t)) => assert_eq!(t, text),
        other => panic!("unexpected {:?}", other),
    }
    let r = PleskAPI::remove_challenge_result(&del_reply(data("error", Some(text), None)), "<raw/>");
    match r {
        Err(e) => {
            assert!(matches!(e, PleskError::Provider(_)));
            assert!(e.message().contains(text));
            assert_eq!(e.message(), format!("Plesk API error: {}", text));
        }
        Ok(()) => panic!("removal should fail"),
    }
}

#[test]
fn provider_id_is_returned_unchanged() {
    let r = PleskAPI::add_challenge_result(&add_reply(data("ok", None, Some("4711"))), "<raw/>");
    assert_eq!(r.unwrap(), "4711");
    assert!(PleskAPI::remove_challenge_result(&del_reply(data("ok", None, None)), "<raw/>").is_ok());
}

#[test]
fn malformed_replies_are_schema_errors() {
    let r = PleskAPI::add_challenge_result(&del_reply(data("ok", None, Some("1"))), "<packet/>");
    match r {
        Err(PleskError::Unrecognized(t)) => assert_eq!(t, "<packet/>"),
        other => panic!("unexpected {:?}", other),
    }
    assert!(matches!(
        PleskAPI::add_challenge_result(&add_reply(data("ok", None, None)), ""),
        Err(PleskError::MissingField)
    ));
    assert!(matches!(
        PleskAPI::add_challenge_result(&add_reply(data("error", None, None)), ""),
        Err(PleskError::MissingField)
    ));
    assert!(matches!(
        PleskAPI::remove_challenge_result(&add_reply(data("ok", None, None)), "x"),
        Err(PleskError::Unrecognized(_))
    ));
    assert_eq!(PleskError::Unrecognized("x".to_string()).message(), "Response could not be parsed: x");
}

#[test]
fn request_bodies_and_endpoint() {
    let a = api();
    assert_eq!(a.get_api_url(), "https://panel.example.com:8443/enterprise/control/agent.php");
    assert_eq!(
        a.add_challenge_request("abc-XYZ_1"),
        "<packet><dns><add_rec><site-id>12</site-id><type>TXT</type><host>_acme-challenge</host>\
         <value>abc-XYZ_1</value></add_rec></dns></packet>"
    );
    assert_eq!(
        PleskAPI::remove_challenge_request("4711"),
        "<packet><dns><del_rec><filter><id>4711</id></filter></del_rec></dns></packet>"
    );
}

#[test]
fn backoff_doubles_from_five_seconds() {
    let mut b = Backoff::new(20);
    assert_eq!(b.delay_secs, 5);
    let mut delays = vec![b.delay_secs];
    let mut elevated = vec![];
    for _ in 0..12 {
        match b.observe(OrderStatus::Pending) {
            WaitStep::Retry { delay_secs, elevated: e } => {
                delays.push(delay_secs);
                elevated.push(e);
            }
            other => panic!("unexpected {:?}", other),
        }
    }
    assert_eq!(delays, vec![5, 10, 20, 40, 80, 160, 320, 640, 1280, 2560, 5120, 10240, 20480]);
    for w in delays.windows(2) {
        assert!(w[0] <= w[1]);
    }
    assert_eq!(elevated, vec![false, false, false, false, false, false, false, false, true, true, true, true]);
    assert_eq!(b.observe(OrderStatus::Ready), WaitStep::Ready);
    assert_eq!(b.observe(OrderStatus::Invalid), WaitStep::Invalid);
}

#[test]
fn backoff_budget_ends_the_wait() {
    let mut b = Backoff::new(3);
    assert!(matches!(b.observe(OrderStatus::Processing), WaitStep::Retry { delay_secs: 10, .. }));
    assert!(matches!(b.observe(OrderStatus::Pending), WaitStep::Retry { delay_secs: 20, .. }));
    assert_eq!(b.observe(OrderStatus::Pending), WaitStep::GaveUp);
    let mut longest = Backoff::new(61);
    let mut last = 0;
    while let WaitStep::Retry { delay_secs, .. } = longest.observe(OrderStatus::Pending) {
        last = delay_secs;
    }
    assert_eq!(last, 5u64 << 60);
}

fn auth(status: AuthorizationStatus, challenges: Vec<ChallengeType>) -> AuthorizationInfo {
    AuthorizationInfo { status, challenges }
}

#[test]
fn challenge_choice_skips_valid_authorizations() {
    let auths = vec![
        auth(AuthorizationStatus::Valid, vec![ChallengeType::Dns01]),
        auth(AuthorizationStatus::Pending, vec![ChallengeType::Http01, ChallengeType::TlsAlpn01, ChallengeType::Dns01]),
    ];
    assert_eq!(Acme::get_challenge(&auths), Ok((1, 2)));
}

#[test]
fn challenge_choice_errors() {
    let unexpected = vec![
        auth(AuthorizationStatus::Valid, vec![]),
        auth(AuthorizationStatus::Expired, vec![ChallengeType::Dns01]),
        auth(AuthorizationStatus::Pending, vec![ChallengeType::Dns01]),
    ];
    assert_eq!(
        Acme::get_challenge(&unexpected),
        Err(ChallengeError::UnexpectedAuthorization(AuthorizationStatus::Expired))
    );
    let no_dns = vec![auth(AuthorizationStatus::Pending, vec![ChallengeType::Http01])];
    assert_eq!(Acme::get_challenge(&no_dns), Err(ChallengeError::NoDns01Challenge));
    let all_valid = vec![auth(AuthorizationStatus::Valid, vec![ChallengeType::Dns01])];
    assert_eq!(Acme::get_challenge(&all_valid), Err(ChallengeError::NotFound));
    assert_eq!(Acme::get_challenge(&vec![]), Err(ChallengeError::NotFound));
}

fn drive(events: Vec<Event>) -> (App, Vec<Action>) {
    let mut app = App::new();
    let mut actions = vec![App::first_action()];
    for e in events {
        actions.push(app.step(e));
    }
    (app, actions)
}

fn count(actions: &[Action], f: fn(&Action) -> bool) -> usize {
    actions.iter().filter(|a| f(a)).count()
}

#[test]
fn successful_run_adds_once_and_removes_once() {
    let (app, actions) = drive(vec![
        Event::Done,
        Event::Order(OrderStatus::Pending),
        Event::DnsValue("token-digest".to_string()),
        Event::RecordId("77".to_string()),
        Event::Done,
        Event::Order(OrderStatus::Pending),
        Event::Done,
        Event::Order(OrderStatus::Pending),
        Event::Done,
        Event::Order(OrderStatus::Ready),
        Event::Done,
        Event::Done,
    ]);
    assert!(matches!(actions[0], Action::LoadAccount));
    assert!(matches!(actions[1], Action::FetchOrder));
    assert!(matches!(actions[2], Action::ComputeDnsValue));
    assert!(matches!(&actions[3], Action::AddRecord(v) if v == "token-digest"));
    assert!(matches!(actions[4], Action::SignalReadyAndWait));
    assert!(matches!(actions[6], Action::Sleep(2)));
    assert!(matches!(actions[10], Action::Finalize));
    assert!(matches!(&actions[11], Action::RemoveRecord(Some(id)) if id == "77"));
    assert!(matches!(actions[12], Action::Finish(Outcome::Success)));
    assert_eq!(count(&actions, |a| matches!(a, Action::AddRecord(_))), 1);
    assert_eq!(count(&actions, |a| matches!(a, Action::RemoveRecord(_))), 1);
    assert!(app.is_finished());
    assert!(app.record.is_none());
}

#[test]
fn invalid_order_removes_record_and_fails() {
    let (app, actions) = drive(vec![
        Event::Done,
        Event::Order(OrderStatus::Pending),
        Event::DnsValue("v".to_string()),
        Event::RecordId("9".to_string()),
        Event::Done,
        Event::Order(OrderStatus::Invalid),
        Event::Done,
        Event::Done,
    ]);
    assert!(matches!(&actions[6], Action::RemoveRecord(Some(id)) if id == "9"));
    assert!(matches!(actions[7], Action::Finish(Outcome::Failure(RunError::OrderInvalid))));
    assert!(matches!(actions[8], Action::Finish(Outcome::Failure(RunError::OrderInvalid))));
    assert_eq!(count(&actions, |a| matches!(a, Action::RemoveRecord(_))), 1);
    assert!(app.is_finished());
}

#[test]
fn authority_error_after_provisioning_still_cleans_up() {
    let (_, actions) = drive(vec![
        Event::Done,
        Event::Order(OrderStatus::Pending),
        Event::DnsValue("v".to_string()),
        Event::RecordId("5".to_string()),
        Event::Failed("refresh failed".to_string()),
        Event::Failed("removal failed".to_string()),
    ]);
    assert!(matches!(&actions[5], Action::RemoveRecord(Some(id)) if id == "5"));
    assert!(matches!(&actions[6], Action::Finish(Outcome::Failure(RunError::Authority(m))) if m == "refresh failed"));
}

#[test]
fn dns_add_failure_aborts_without_signalling_ready() {
    let (_, actions) = drive(vec![
        Event::Done,
        Event::Order(OrderStatus::Pending),
        Event::DnsValue("v".to_string()),
        Event::Failed("quota".to_string()),
        Event::Done,
    ]);
    assert!(matches!(actions[4], Action::RemoveRecord(None)));
    assert!(matches!(&actions[5], Action::Finish(Outcome::Failure(RunError::DnsProvider(m))) if m == "quota"));
    assert_eq!(count(&actions, |a| matches!(a, Action::SignalReadyAndWait)), 0);
}

#[test]
fn loaded_account_is_not_created_again() {
    let (_, actions) = drive(vec![Event::Done, Event::Order(OrderStatus::Valid), Event::Done]);
    assert_eq!(count(&actions, |a| matches!(a, Action::CreateAccount)), 0);
    assert!(matches!(actions[2], Action::RemoveRecord(None)));
    assert!(matches!(actions[3], Action::Finish(Outcome::Success)));
}

#[test]
fn missing_account_is_created_and_creation_failure_is_fatal() {
    let (_, actions) = drive(vec![Event::Failed("no file".to_string()), Event::Done, Event::Order(OrderStatus::Processing)]);
    assert!(matches!(actions[1], Action::CreateAccount));
    assert!(matches!(actions[2], Action::FetchOrder));
    assert!(matches!(actions[3], Action::Sleep(2)));
    let (_, actions) = drive(vec![Event::Failed("no file".to_string()), Event::Failed("rejected".to_string()), Event::Done]);
    assert!(matches!(actions[2], Action::RemoveRecord(None)));
    assert!(matches!(&actions[3], Action::Finish(Outcome::Failure(RunError::AccountCreation(m))) if m == "rejected"));
}

#[test]
fn unexpected_event_ends_the_run() {
    let (_, actions) = drive(vec![Event::Done, Event::RecordId("1".to_string()), Event::Done]);
    assert!(matches!(actions[2], Action::RemoveRecord(None)));
    assert!(matches!(actions[3], Action::Finish(Outcome::Failure(RunError::UnexpectedEvent))));
}

#[test]
fn account_credentials_survive_a_round_trip() {
    let stored = r#"{"id":"https://acme.example/acct/1","key_pkcs8":"AAAA","directory":"https://acme.example/directory"}"#;
    let creds = read_credentials(stored).unwrap();
    let written = write_credentials(&creds);
    let again = read_credentials(&written).unwrap();
    assert_eq!(write_credentials(&again), written);
    assert!(written.contains("https://acme.example/acct/1"));
}

#[test]
fn malformed_credentials_are_rejected() {
    assert!(matches!(read_credentials(""), Err(CredentialsError::Malformed(_))));
    assert!(matches!(read_credentials("{\"id\": 3}"), Err(CredentialsError::Malformed(_))));
}
