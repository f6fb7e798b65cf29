use mf_cli::error::AuthError;
use mf_cli::flow::{AuthorizationFlow, FlowAction, FlowEvent, FlowStep, InputField};
use mf_cli::record::CredentialRecord;

const AUTHORIZE_URL: &str = "https://moneyforward.com/oauth/authorize?client_id=abc&redirect_uri=http://localhost/cb&response_type=code&scope=read%20write";

fn text(s: &str) -> FlowEvent {
    FlowEvent::Text(s.to_string())
}

fn confirm_url(flow: &AuthorizationFlow) -> String {
    match flow.action() {
        FlowAction::Confirm { url } => url,
        other => panic!("expected a question of consent, got {:?}", other),
    }
}

fn browser_url(flow: &AuthorizationFlow) -> String {
    match flow.action() {
        FlowAction::OpenBrowser { url } => url,
        other => panic!("expected a launch, got {:?}", other),
    }
}

fn asked_field(flow: &AuthorizationFlow) -> InputField {
    match flow.action() {
        FlowAction::Ask { field } => field,
        other => panic!("expected a question, got {:?}", other),
    }
}

fn flow_at_authorize_consent() -> AuthorizationFlow {
    let mut flow = AuthorizationFlow::start();
    flow.advance(FlowEvent::Consent(false)).unwrap();
    flow.advance(text("abc")).unwrap();
    flow.advance(text("xyz")).unwrap();
    flow.advance(text("read write")).unwrap();
    flow.advance(text("http://localhost/cb")).unwrap();
    flow
}

#[test]
fn flow_starts_empty_with_the_registration_question() {
    let flow = AuthorizationFlow::start();
    assert_eq!(flow.step(), FlowStep::RegistrationConsent);
    assert_eq!(*flow.record(), CredentialRecord::new());
    assert_eq!(confirm_url(&flow), "https://moneyforward.com/apps");
    assert_eq!(flow.warning(), None);
    assert!(!flow.is_complete());
}

#[test]
fn flow_runs_through_every_step_with_consent() {
    let mut flow = AuthorizationFlow::start();
    assert_eq!(flow.advance(FlowEvent::Consent(true)), Ok(()));
    assert_eq!(flow.step(), FlowStep::RegistrationLaunch);
    assert_eq!(browser_url(&flow), "https://moneyforward.com/apps");

    assert_eq!(flow.advance(FlowEvent::Launched(true)), Ok(()));
    assert_eq!(flow.step(), FlowStep::ClientId);
    assert_eq!(asked_field(&flow), InputField::ClientId);
    assert_eq!(flow.warning(), None);

    assert_eq!(flow.advance(text("abc")), Ok(()));
    assert_eq!(flow.record().client_id, "abc");
    assert_eq!(asked_field(&flow), InputField::ClientSecret);

    assert_eq!(flow.advance(text("xyz")), Ok(()));
    assert_eq!(flow.record().client_secret, "xyz");
    assert_eq!(asked_field(&flow), InputField::Scope);

    assert_eq!(flow.advance(text("read write")), Ok(()));
    assert_eq!(flow.record().scope, "read write");
    assert_eq!(asked_field(&flow), InputField::RedirectUri);

    assert_eq!(flow.advance(text("http://localhost/cb")), Ok(()));
    assert_eq!(flow.record().redirect_uri, "http://localhost/cb");
    assert_eq!(flow.step(), FlowStep::AuthorizeConsent);
    assert_eq!(confirm_url(&flow), AUTHORIZE_URL);

    assert_eq!(flow.advance(FlowEvent::Consent(true)), Ok(()));
    assert_eq!(flow.step(), FlowStep::AuthorizeLaunch);
    assert_eq!(browser_url(&flow), AUTHORIZE_URL);

    assert_eq!(flow.advance(FlowEvent::Launched(true)), Ok(()));
    assert_eq!(asked_field(&flow), InputField::AuthorizationCode);
    assert_eq!(flow.warning(), None);

    assert_eq!(flow.advance(text("c0de")), Ok(()));
    assert!(flow.is_complete());
    assert_eq!(flow.step(), FlowStep::Complete);
    assert!(matches!(flow.action(), FlowAction::Finished));

    let record = flow.into_record();
    assert_eq!(
        record,
        CredentialRecord {
            client_id: "abc".to_string(),
            client_secret: "xyz".to_string(),
            scope: "read write".to_string(),
            redirect_uri: "http://localhost/cb".to_string(),
            authorization_code: "c0de".to_string(),
            access_token: String::new(),
            refresh_token: String::new(),
            access_token_expiry: 0,
        }
    );
}

#[test]
fn flow_skips_the_browser_without_consent() {
    let mut flow = AuthorizationFlow::start();
    assert_eq!(flow.advance(FlowEvent::Consent(false)), Ok(()));
    assert_eq!(flow.step(), FlowStep::ClientId);
    assert_eq!(flow.warning(), None);

    let mut flow = flow_at_authorize_consent();
    assert_eq!(flow.advance(FlowEvent::Consent(false)), Ok(()));
    assert_eq!(flow.step(), FlowStep::AuthorizationCode);
    assert_eq!(flow.warning(), None);
}

#[test]
fn flow_goes_on_when_the_registration_page_cannot_be_opened() {
    let mut flow = AuthorizationFlow::start();
    flow.advance(FlowEvent::Consent(true)).unwrap();
    assert_eq!(flow.advance(FlowEvent::Launched(false)), Ok(()));
    assert_eq!(flow.step(), FlowStep::ClientId);
    assert_eq!(asked_field(&flow), InputField::ClientId);
    assert_eq!(
        flow.warning(),
        Some(AuthError::BrowserLaunchFailed { url: "https://moneyforward.com/apps".to_string() })
    );
    assert_eq!(*flow.record(), CredentialRecord::new());
    flow.advance(text("abc")).unwrap();
    assert_eq!(flow.warning(), None);
}

#[test]
fn flow_goes_on_when_the_authorization_url_cannot_be_opened() {
    let mut flow = flow_at_authorize_consent();
    flow.advance(FlowEvent::Consent(true)).unwrap();
    assert_eq!(flow.advance(FlowEvent::Launched(false)), Ok(()));
    assert_eq!(flow.step(), FlowStep::AuthorizationCode);
    assert_eq!(
        flow.warning(),
        Some(AuthError::BrowserLaunchFailed { url: AUTHORIZE_URL.to_string() })
    );
    assert_eq!(flow.advance(text("c0de")), Ok(()));
    assert!(flow.is_complete());
    assert_eq!(flow.warning(), None);
}

#[test]
fn flow_refuses_a_blank_answer_at_every_question() {
    let mut flow = AuthorizationFlow::start();
    flow.advance(FlowEvent::Consent(false)).unwrap();
    let answers = ["abc", "xyz", "read write", "http://localhost/cb"];
    let steps = [FlowStep::ClientId, FlowStep::ClientSecret, FlowStep::Scope, FlowStep::RedirectUri];
    for (answer, step) in answers.iter().zip(steps.iter()) {
        let before = flow.record().clone();
        assert_eq!(flow.advance(text("")), Err(AuthError::InvalidInput));
        assert_eq!(flow.step(), *step);
        assert_eq!(*flow.record(), before);
        assert_eq!(flow.advance(text(answer)), Ok(()));
    }
    flow.advance(FlowEvent::Consent(false)).unwrap();
    let before = flow.record().clone();
    assert_eq!(flow.advance(text("")), Err(AuthError::InvalidInput));
    assert_eq!(flow.step(), FlowStep::AuthorizationCode);
    assert_eq!(*flow.record(), before);
    assert_eq!(flow.advance(text("c0de")), Ok(()));
    assert!(flow.is_complete());
}

#[test]
fn flow_takes_a_text_of_spaces_as_an_answer() {
    let mut flow = AuthorizationFlow::start();
    flow.advance(FlowEvent::Consent(false)).unwrap();
    assert_eq!(flow.advance(text(" ")), Ok(()));
    assert_eq!(flow.record().client_id, " ");
}

#[test]
fn flow_refuses_an_event_of_the_wrong_kind() {
    let mut flow = AuthorizationFlow::start();
    assert_eq!(flow.advance(text("abc")), Err(AuthError::InvalidInput));
    assert_eq!(flow.advance(FlowEvent::Launched(true)), Err(AuthError::InvalidInput));
    assert_eq!(flow.step(), FlowStep::RegistrationConsent);

    flow.advance(FlowEvent::Consent(true)).unwrap();
    assert_eq!(flow.advance(FlowEvent::Consent(true)), Err(AuthError::InvalidInput));
    assert_eq!(flow.advance(text("abc")), Err(AuthError::InvalidInput));
    assert_eq!(flow.step(), FlowStep::RegistrationLaunch);

    flow.advance(FlowEvent::Launched(true)).unwrap();
    assert_eq!(flow.advance(FlowEvent::Consent(true)), Err(AuthError::InvalidInput));
    assert_eq!(flow.advance(FlowEvent::Launched(false)), Err(AuthError::InvalidInput));
    assert_eq!(flow.step(), FlowStep::ClientId);
    assert_eq!(flow.warning(), None);
    assert_eq!(*flow.record(), CredentialRecord::new());
}

#[test]
fn flow_keeps_its_warning_over_a_refused_answer() {
    let mut flow = AuthorizationFlow::start();
    flow.advance(FlowEvent::Consent(true)).unwrap();
    flow.advance(FlowEvent::Launched(false)).unwrap();
    assert_eq!(flow.advance(text("")), Err(AuthError::InvalidInput));
    assert!(matches!(flow.warning(), Some(AuthError::BrowserLaunchFailed { .. })));
}

#[test]
fn complete_flow_takes_nothing_more() {
    let mut flow = flow_at_authorize_consent();
    flow.advance(FlowEvent::Consent(false)).unwrap();
    flow.advance(text("c0de")).unwrap();
    let before = flow.record().clone();
    assert_eq!(flow.advance(text("again")), Err(AuthError::InvalidInput));
    assert_eq!(flow.advance(FlowEvent::Consent(true)), Err(AuthError::InvalidInput));
    assert_eq!(flow.advance(FlowEvent::Launched(true)), Err(AuthError::InvalidInput));
    assert!(flow.is_complete());
    assert_eq!(*flow.record(), before);
}

#[test]
fn flow_never_holds_tokens() {
    let mut flow = flow_at_authorize_consent();
    flow.advance(FlowEvent::Consent(false)).unwrap();
    flow.advance(text("c0de")).unwrap();
    let record = flow.into_record();
    assert_eq!(record.access_token, "");
    assert_eq!(record.refresh_token, "");
    assert_eq!(record.access_token_expiry, 0);
}
