//! The interactive steps that obtain an authorization code.
//!
//! The flow is a fixed sequence of steps. At each step it names one thing
//! for the caller to do: ask the user's consent to open a page, open it, or
//! ask for a line of text. The caller does it and reports what happened;
//! the flow takes the answer into its working record and moves on. An answer
//! that is blank, or that is no answer to the pending step, is refused and
//! leaves the flow where it was, so the step can be tried again.
use vstd::prelude::*;
use crate::authorize::{authorize_url, authorize_url_of, REGISTRATION_URL};
use crate::error::{AuthError, AuthErrorView};
use crate::record::{CredentialRecord, RecordView};

verus! {

/// The steps of the flow, in order.
#[derive(Debug, Clone, Copy, PartialEq, Eq, Structural)]
pub enum FlowStep {
    /// Asking whether to open the provider's registration page.
    RegistrationConsent,
    /// Opening the registration page.
    RegistrationLaunch,
    /// Asking for the client identifier.
    ClientId,
    /// Asking for the client secret.
    ClientSecret,
    /// Asking for the scope.
    Scope,
    /// Asking for the redirect URI.
    RedirectUri,
    /// Asking whether to open the authorization URL.
    AuthorizeConsent,
    /// Opening the authorization URL.
    AuthorizeLaunch,
    /// Asking for the authorization code.
    AuthorizationCode,
    /// Every answer is in.
    Complete,
}

impl FlowStep {
    /// The place of a step in the sequence.
    pub open spec fn index(self) -> nat {
        match self {
            FlowStep::RegistrationConsent => 0,
            FlowStep::RegistrationLaunch => 1,
            FlowStep::ClientId => 2,
            FlowStep::ClientSecret => 3,
            FlowStep::Scope => 4,
            FlowStep::RedirectUri => 5,
            FlowStep::AuthorizeConsent => 6,
            FlowStep::AuthorizeLaunch => 7,
            FlowStep::AuthorizationCode => 8,
            FlowStep::Complete => 9,
        }
    }
}

/// The texts that the flow asks for.
#[derive(Debug, Clone, Copy, PartialEq, Eq, Structural)]
pub enum InputField {
    ClientId,
    ClientSecret,
    Scope,
    RedirectUri,
    AuthorizationCode,
}

/// What a [`FlowEvent`] holds.
#[verifier::ext_equal]
pub enum FlowEventView {
    Consent(bool),
    Launched(bool),
    Text(Seq<char>),
}

/// What the caller reports back to the flow.
#[derive(Debug)]
pub enum FlowEvent {
    /// The user's answer to a question of consent.
    Consent(bool),
    /// Whether the browser could be started.
    Launched(bool),
    /// A line of text that the user entered.
    Text(String),
}

impl View for FlowEvent {
    type V = FlowEventView;

    open spec fn view(&self) -> FlowEventView {
        match self {
            FlowEvent::Consent(yes) => FlowEventView::Consent(*yes),
            FlowEvent::Launched(ok) => FlowEventView::Launched(*ok),
            FlowEvent::Text(text) => FlowEventView::Text(text@),
        }
    }
}

/// What a [`FlowAction`] holds.
#[verifier::ext_equal]
pub enum FlowActionView {
    Confirm { url: Seq<char> },
    OpenBrowser { url: Seq<char> },
    Ask { field: InputField },
    Finished,
}

/// What the flow wants done next.
#[derive(Debug)]
pub enum FlowAction {
    /// Show `url` and ask whether to open it in a browser; report
    /// `Consent`.
    Confirm { url: String },
    /// Open `url` in a browser without waiting for it; report `Launched`.
    OpenBrowser { url: String },
    /// Ask for the text of `field`; report `Text`.
    Ask { field: InputField },
    /// Nothing: the working record is ready for the exchange.
    Finished,
}

impl View for FlowAction {
    type V = FlowActionView;

    open spec fn view(&self) -> FlowActionView {
        match self {
            FlowAction::Confirm { url } => FlowActionView::Confirm { url: url@ },
            FlowAction::OpenBrowser { url } => FlowActionView::OpenBrowser { url: url@ },
            FlowAction::Ask { field } => FlowActionView::Ask { field: *field },
            FlowAction::Finished => FlowActionView::Finished,
        }
    }
}

/// The state of an [`AuthorizationFlow`], as mathematical values.
#[verifier::ext_equal]
pub struct FlowView {
    /// The step whose answer is awaited.
    pub step: FlowStep,
    /// The working record: the answers so far.
    pub record: RecordView,
    /// Whether the step before this one tried to open a browser and could
    /// not.
    pub launch_failed: bool,
}

impl FlowView {
    /// A flow that has asked nothing yet. Its working record is empty: a
    /// setup takes nothing over from an earlier one.
    pub open spec fn start() -> FlowView {
        FlowView {
            step: FlowStep::RegistrationConsent,
            record: RecordView::empty(),
            launch_failed: false,
        }
    }

    /// What holds of every flow: the working record holds an answer, and a
    /// non-empty one, for exactly the texts that were asked for before the
    /// pending step; it holds no tokens; and a failed launch is remembered
    /// only at the step that follows a launch.
    pub open spec fn wf(self) -> bool {
        let i = self.step.index();
        &&& self.record.client_id.len() > 0 <==> i > 2
        &&& self.record.client_secret.len() > 0 <==> i > 3
        &&& self.record.scope.len() > 0 <==> i > 4
        &&& self.record.redirect_uri.len() > 0 <==> i > 5
        &&& self.record.authorization_code.len() > 0 <==> i > 8
        &&& self.record.has_no_tokens()
        &&& self.launch_failed ==> self.step == FlowStep::ClientId || self.step
            == FlowStep::AuthorizationCode
    }

    /// The URL that the consent and launch steps are about: the
    /// registration page early in the flow, the authorization URL of the
    /// working record later.
    pub open spec fn url(self) -> Seq<char> {
        if self.step.index() <= 2 {
            REGISTRATION_URL@
        } else {
            authorize_url_of(self.record)
        }
    }

    /// What the caller is to do at the pending step.
    pub open spec fn action(self) -> FlowActionView {
        match self.step {
            FlowStep::RegistrationConsent | FlowStep::AuthorizeConsent => FlowActionView::Confirm {
                url: self.url(),
            },
            FlowStep::RegistrationLaunch | FlowStep::AuthorizeLaunch => FlowActionView::OpenBrowser {
                url: self.url(),
            },
            FlowStep::ClientId => FlowActionView::Ask { field: InputField::ClientId },
            FlowStep::ClientSecret => FlowActionView::Ask { field: InputField::ClientSecret },
            FlowStep::Scope => FlowActionView::Ask { field: InputField::Scope },
            FlowStep::RedirectUri => FlowActionView::Ask { field: InputField::RedirectUri },
            FlowStep::AuthorizationCode => FlowActionView::Ask {
                field: InputField::AuthorizationCode,
            },
            FlowStep::Complete => FlowActionView::Finished,
        }
    }

    /// The warning that the caller is to show before it goes on: after a
    /// launch that failed, the URL that could not be opened.
    pub open spec fn warning(self) -> Option<AuthErrorView> {
        if self.launch_failed {
            Some(AuthErrorView::BrowserLaunchFailed { url: self.url() })
        } else {
            None
        }
    }

    /// Whether `event` answers the pending step: consent where consent was
    /// asked, the outcome of a launch where a page was to be opened, and a
    /// text that is not empty where a text was asked for.
    pub open spec fn accepts(self, event: FlowEventView) -> bool {
        match self.step {
            FlowStep::RegistrationConsent | FlowStep::AuthorizeConsent => event is Consent,
            FlowStep::RegistrationLaunch | FlowStep::AuthorizeLaunch => event is Launched,
            FlowStep::ClientId
            | FlowStep::ClientSecret
            | FlowStep::Scope
            | FlowStep::RedirectUri
            | FlowStep::AuthorizationCode => event is Text && event->Text_0.len() > 0,
            FlowStep::Complete => false,
        }
    }

    /// The flow after an event that it accepts.
    ///
    /// Consent leads to the launch, refusal past it. A launch leads on
    /// whether or not it worked. A text goes into its field of the working
    /// record at once.
    pub open spec fn after(self, event: FlowEventView) -> FlowView {
        match (self.step, event) {
            (FlowStep::RegistrationConsent, FlowEventView::Consent(yes)) => FlowView {
                step: if yes {
                    FlowStep::RegistrationLaunch
                } else {
                    FlowStep::ClientId
                },
                launch_failed: false,
                ..self
            },
            (FlowStep::RegistrationLaunch, FlowEventView::Launched(ok)) => FlowView {
                step: FlowStep::ClientId,
                launch_failed: !ok,
                ..self
            },
            (FlowStep::ClientId, FlowEventView::Text(text)) => FlowView {
                step: FlowStep::ClientSecret,
                record: RecordView { client_id: text, ..self.record },
                launch_failed: false,
            },
            (FlowStep::ClientSecret, FlowEventView::Text(text)) => FlowView {
                step: FlowStep::Scope,
                record: RecordView { client_secret: text, ..self.record },
                launch_failed: false,
            },
            (FlowStep::Scope, FlowEventView::Text(text)) => FlowView {
                step: FlowStep::RedirectUri,
                record: RecordView { scope: text, ..self.record },
                launch_failed: false,
            },
            (FlowStep::RedirectUri, FlowEventView::Text(text)) => FlowView {
                step: FlowStep::AuthorizeConsent,
                record: RecordView { redirect_uri: text, ..self.record },
                launch_failed: false,
            },
            (FlowStep::AuthorizeConsent, FlowEventView::Consent(yes)) => FlowView {
                step: if yes {
                    FlowStep::AuthorizeLaunch
                } else {
                    FlowStep::AuthorizationCode
                },
                launch_failed: false,
                ..self
            },
            (FlowStep::AuthorizeLaunch, FlowEventView::Launched(ok)) => FlowView {
                step: FlowStep::AuthorizationCode,
                launch_failed: !ok,
                ..self
            },
            (FlowStep::AuthorizationCode, FlowEventView::Text(text)) => FlowView {
                step: FlowStep::Complete,
                record: RecordView { authorization_code: text, ..self.record },
                launch_failed: false,
            },
            _ => self,
        }
    }
}

/// The flow that walks the user through obtaining an authorization code.
pub struct AuthorizationFlow {
    step: FlowStep,
    record: CredentialRecord,
    launch_failed: bool,
}

impl View for AuthorizationFlow {
    type V = FlowView;

    closed spec fn view(&self) -> FlowView {
        FlowView { step: self.step, record: self.record@, launch_failed: self.launch_failed }
    }
}

impl AuthorizationFlow {
    #[verifier::type_invariant]
    spec fn valid(self) -> bool {
        self@.wf()
    }

    /// A flow that has asked nothing yet, with an empty working record.
    pub fn start() -> (flow: AuthorizationFlow)
        ensures
            flow@ == FlowView::start(),
            flow@.wf(),
    {
        AuthorizationFlow {
            step: FlowStep::RegistrationConsent,
            record: CredentialRecord::new(),
            launch_failed: false,
        }
    }

    /// The step whose answer is awaited.
    pub fn step(&self) -> (step: FlowStep)
        ensures
            step == self@.step,
            self@.wf(),
    {
        proof {
            use_type_invariant(self);
        }
        self.step
    }

    /// Whether every answer is in. The working record then holds the client
    /// identifier, the client secret, the scope, the redirect URI and the
    /// authorization code, none of them empty.
    pub fn is_complete(&self) -> (done: bool)
        ensures
            done == (self@.step == FlowStep::Complete),
            self@.wf(),
    {
        proof {
            use_type_invariant(self);
        }
        match self.step {
            FlowStep::Complete => true,
            _ => false,
        }
    }

    /// The working record: the answers so far.
    pub fn record(&self) -> (record: &CredentialRecord)
        ensures
            record@ == self@.record,
            self@.wf(),
    {
        proof {
            use_type_invariant(self);
        }
        &self.record
    }

    /// The URL that the consent and launch steps are about.
    fn url(&self) -> (url: String)
        ensures
            url@ == self@.url(),
    {
        match self.step {
            FlowStep::RegistrationConsent | FlowStep::RegistrationLaunch | FlowStep::ClientId => {
                String::from_str(REGISTRATION_URL)
            },
            _ => authorize_url(&self.record),
        }
    }

    /// What the caller is to do next.
    pub fn action(&self) -> (action: FlowAction)
        ensures
            action@ == self@.action(),
    {
        match self.step {
            FlowStep::RegistrationConsent | FlowStep::AuthorizeConsent => FlowAction::Confirm {
                url: self.url(),
            },
            FlowStep::RegistrationLaunch | FlowStep::AuthorizeLaunch => FlowAction::OpenBrowser {
                url: self.url(),
            },
            FlowStep::ClientId => FlowAction::Ask { field: InputField::ClientId },
            FlowStep::ClientSecret => FlowAction::Ask { field: InputField::ClientSecret },
            FlowStep::Scope => FlowAction::Ask { field: InputField::Scope },
            FlowStep::RedirectUri => FlowAction::Ask { field: InputField::RedirectUri },
            FlowStep::AuthorizationCode => FlowAction::Ask { field: InputField::AuthorizationCode },
            FlowStep::Complete => FlowAction::Finished,
        }
    }

    /// The warning to show before going on: `BrowserLaunchFailed`, with the
    /// URL that the user should open by hand, exactly when the launch just
    /// before the pending step failed.
    pub fn warning(&self) -> (warning: Option<AuthError>)
        ensures
            match warning {
                Some(e) => self@.warning() == Some(e@),
                None => self@.warning() is None,
            },
    {
        if self.launch_failed {
            Some(AuthError::BrowserLaunchFailed { url: self.url() })
        } else {
            None
        }
    }

    /// Takes the caller's report for the pending step.
    ///
    /// Where the event answers the step, the flow moves on as
    /// [`FlowView::after`] says. Where it does not (a blank text, or an
    /// event of another kind), the result is `InvalidInput` and the flow
    /// stays as it was.
    pub fn advance(&mut self, event: FlowEvent) -> (r: Result<(), AuthError>)
        ensures
            r is Ok <==> old(self)@.accepts(event@),
            r is Ok ==> final(self)@ == old(self)@.after(event@),
            r is Err ==> final(self)@ == old(self)@,
            r is Err ==> r.unwrap_err()@ == AuthErrorView::InvalidInput,
            final(self)@.wf(),
    {
        proof {
            use_type_invariant(&*self);
        }
        let mut record = self.record.clone();
        let step = self.step;
        let next: FlowStep;
        let mut launch_failed = false;
        match (step, event) {
            (FlowStep::RegistrationConsent, FlowEvent::Consent(yes)) => {
                next =
                if yes {
                    FlowStep::RegistrationLaunch
                } else {
                    FlowStep::ClientId
                };
            },
            (FlowStep::RegistrationLaunch, FlowEvent::Launched(ok)) => {
                next = FlowStep::ClientId;
                launch_failed = !ok;
            },
            (FlowStep::AuthorizeConsent, FlowEvent::Consent(yes)) => {
                next =
                if yes {
                    FlowStep::AuthorizeLaunch
                } else {
                    FlowStep::AuthorizationCode
                };
            },
            (FlowStep::AuthorizeLaunch, FlowEvent::Launched(ok)) => {
                next = FlowStep::AuthorizationCode;
                launch_failed = !ok;
            },
            (step, FlowEvent::Text(text)) => {
                if text.as_str().is_empty() {
                    return Err(AuthError::InvalidInput);
                }
                match step {
                    FlowStep::ClientId => {
                        record.client_id = text;
                        next = FlowStep::ClientSecret;
                    },
                    FlowStep::ClientSecret => {
                        record.client_secret = text;
                        next = FlowStep::Scope;
                    },
                    FlowStep::Scope => {
                        record.scope = text;
                        next = FlowStep::RedirectUri;
                    },
                    FlowStep::RedirectUri => {
                        record.redirect_uri = text;
                        next = FlowStep::AuthorizeConsent;
                    },
                    FlowStep::AuthorizationCode => {
                        record.authorization_code = text;
                        next = FlowStep::Complete;
                    },
                    _ => {
                        return Err(AuthError::InvalidInput);
                    },
                }
            },
            _ => {
                return Err(AuthError::InvalidInput);
            },
        }
        *self = AuthorizationFlow { step: next, record, launch_failed };
        Ok(())
    }

    /// Gives up the flow for its working record.
    pub fn into_record(self) -> (record: CredentialRecord)
        ensures
            record@ == self@.record,
            self@.wf(),
    {
        proof {
            use_type_invariant(&self);
        }
        self.record
    }
}

/// A flow stays well formed: after any event that it accepts, the working
/// record again holds exactly the answers asked for so far, none of them
/// empty, and no tokens.
pub proof fn law_flow_stays_well_formed(flow: FlowView, event: FlowEventView)
    requires
        flow.wf(),
        flow.accepts(event),
    ensures
        flow.after(event).wf(),
{
}

/// A blank text is never taken for an answer, at any step.
pub proof fn law_blank_answer_is_refused(flow: FlowView)
    ensures
        !flow.accepts(FlowEventView::Text(Seq::empty())),
{
}

/// A browser that cannot be opened does not stop the flow: the flow goes
/// on to the same step, with the same working record, as when the browser
/// opened, and warns with the very URL that was to be opened.
pub proof fn law_failed_launch_is_not_fatal(flow: FlowView)
    requires
        flow.wf(),
        flow.step == FlowStep::RegistrationLaunch || flow.step == FlowStep::AuthorizeLaunch,
    ensures
        flow.accepts(FlowEventView::Launched(false)),
        flow.after(FlowEventView::Launched(false)).step == flow.after(
            FlowEventView::Launched(true),
        ).step,
        flow.after(FlowEventView::Launched(false)).record == flow.record,
        flow.after(FlowEventView::Launched(false)).warning() == Some(
            AuthErrorView::BrowserLaunchFailed { url: flow.url() },
        ),
        flow.action() == (FlowActionView::OpenBrowser { url: flow.url() }),
{
}

/// The working record of a complete flow is ready for the exchange: the
/// client identifier, the client secret, the scope, the redirect URI and
/// the authorization code are all there, and it holds no tokens yet.
pub proof fn law_complete_flow_is_ready(flow: FlowView)
    requires
        flow.wf(),
        flow.step == FlowStep::Complete,
    ensures
        flow.record.holds_every_answer(),
        flow.record.has_no_tokens(),
{
}

} // verus!
