//! The three commands: setup, token refresh and token expiry.
//!
//! A command runs as a [`Session`]. The session never acts on the outside
//! world itself. It names the one thing to do next (put a question to the
//! user, open a page, post a token request, write the record to durable
//! storage, or report), the caller does it and hands back what happened, and
//! the session decides what follows. The caller sends each request once and
//! repeats nothing on its own.
//!
//! A session works on a [`CredentialStore`], which it changes at one point
//! only: when the caller confirms that a record with newly granted tokens
//! was written.
use vstd::prelude::*;
use crate::error::{AuthError, AuthErrorView};
use crate::exchange::{
    exchange,
    exchange_request,
    exchange_request_of,
    exchange_result,
    grants,
    refresh,
    refresh_request,
    refresh_request_of,
    refresh_result,
    TokenReply,
    TokenReplyView,
    TokenRequest,
    TokenRequestView,
};
use crate::expiry::{expired_at, is_expired, time_until_expiry};
use crate::flow::{
    AuthorizationFlow,
    FlowAction,
    FlowActionView,
    FlowEvent,
    FlowEventView,
    FlowStep,
    FlowView,
};
use crate::record::{CredentialRecord, RecordView};
use crate::store::{CredentialStore, PersistedView};

verus! {

/// The commands.
#[derive(Debug, Clone, Copy, PartialEq, Eq, Structural)]
pub enum Command {
    /// Obtain an authorization code, exchange it for tokens, store them.
    Setup,
    /// Trade the stored refresh token for new tokens, store them.
    TokenRefresh,
    /// Report whether the stored access token has expired.
    TokenExpiry,
}

/// The two ways of asking the token endpoint for tokens.
#[derive(Debug, Clone, Copy, PartialEq, Eq, Structural)]
pub enum Grant {
    AuthorizationCode,
    RefreshToken,
}

/// What a [`Report`] holds.
#[verifier::ext_equal]
pub enum ReportView {
    Stored(RecordView),
    Expiry { expired: bool, remaining: int },
}

/// What a command that succeeded has to say.
#[derive(Debug)]
pub enum Report {
    /// Tokens were granted and this record was stored.
    Stored(CredentialRecord),
    /// Whether the access token has expired, and the seconds that remain
    /// until it does, negative once it has.
    Expiry { expired: bool, remaining: i128 },
}

impl View for Report {
    type V = ReportView;

    open spec fn view(&self) -> ReportView {
        match self {
            Report::Stored(record) => ReportView::Stored(record@),
            Report::Expiry { expired, remaining } => ReportView::Expiry {
                expired: *expired,
                remaining: *remaining as int,
            },
        }
    }
}

/// How a command ended, as mathematical values.
pub open spec fn outcome_view(outcome: Result<Report, AuthError>) -> Result<
    ReportView,
    AuthErrorView,
> {
    match outcome {
        Ok(report) => Ok(report@),
        Err(e) => Err(e@),
    }
}

/// What an [`Event`] holds.
#[verifier::ext_equal]
pub enum EventView {
    Prompt(FlowEventView),
    Reply(TokenReplyView),
    Saved(bool),
}

/// What the caller hands back to a session.
#[derive(Debug)]
pub enum Event {
    /// The outcome of a prompt or of opening a page.
    Prompt(FlowEvent),
    /// What came back for the token request.
    Reply(TokenReply),
    /// Whether the record was written to durable storage.
    Saved(bool),
}

impl View for Event {
    type V = EventView;

    open spec fn view(&self) -> EventView {
        match self {
            Event::Prompt(answer) => EventView::Prompt(answer@),
            Event::Reply(reply) => EventView::Reply(reply@),
            Event::Saved(ok) => EventView::Saved(*ok),
        }
    }
}

/// What an [`Action`] holds.
#[verifier::ext_equal]
pub enum ActionView {
    Prompt(FlowActionView),
    Post(TokenRequestView),
    Save(RecordView),
    Report(Result<ReportView, AuthErrorView>),
}

/// What a session wants done next.
#[derive(Debug)]
pub enum Action {
    /// Do what the authorization flow asks for; hand back `Prompt`.
    Prompt(FlowAction),
    /// Post this request to the token endpoint, once; hand back `Reply`.
    Post(TokenRequest),
    /// Write this record to durable storage, whole; hand back `Saved`.
    Save(CredentialRecord),
    /// Nothing more: the command has ended, like this.
    Report(Result<Report, AuthError>),
}

impl View for Action {
    type V = ActionView;

    open spec fn view(&self) -> ActionView {
        match self {
            Action::Prompt(action) => ActionView::Prompt(action@),
            Action::Post(request) => ActionView::Post(request@),
            Action::Save(record) => ActionView::Save(record@),
            Action::Report(outcome) => ActionView::Report(outcome_view(*outcome)),
        }
    }
}

/// Where a session stands, as mathematical values.
#[verifier::ext_equal]
pub enum PhaseView {
    /// Setup: the authorization flow is running.
    Authorizing(FlowView),
    /// A token request for `record` is out.
    Requesting { grant: Grant, record: RecordView },
    /// This record, with newly granted tokens, is being written.
    Saving(RecordView),
    /// The command has ended.
    Finished(Result<ReportView, AuthErrorView>),
}

/// The state of a [`Session`], as mathematical values.
#[verifier::ext_equal]
pub struct SessionView {
    /// The command that is run.
    pub command: Command,
    /// What durable storage holds.
    pub store: PersistedView,
    pub phase: PhaseView,
}

/// What the expiry command reports for a record at `now`.
///
/// A record without an access token has nothing to report on: no setup was
/// completed. Otherwise the report says whether the token has expired and
/// how many seconds remain.
pub open spec fn expiry_report_of(record: RecordView, now: nat) -> Result<
    ReportView,
    AuthErrorView,
> {
    if record.access_token.len() == 0 {
        Err(AuthErrorView::NoCredentialsConfigured)
    } else {
        Ok(
            ReportView::Expiry {
                expired: expired_at(record.access_token_expiry, now),
                remaining: record.access_token_expiry - now,
            },
        )
    }
}

/// The token request of a grant for a record.
pub open spec fn request_of(grant: Grant, record: RecordView) -> TokenRequestView {
    match grant {
        Grant::AuthorizationCode => exchange_request_of(record),
        Grant::RefreshToken => refresh_request_of(record),
    }
}

/// What a reply to the token request of a grant comes to.
pub open spec fn reply_result(
    grant: Grant,
    record: RecordView,
    reply: TokenReplyView,
    now: nat,
) -> Result<RecordView, AuthErrorView> {
    match grant {
        Grant::AuthorizationCode => exchange_result(record, reply, now),
        Grant::RefreshToken => refresh_result(record, reply, now),
    }
}

impl SessionView {
    /// The session of a command, on what storage holds, begun at `now`.
    ///
    /// Every command loads the record first, and ends at once with the
    /// storage failure where that fails. Setup then starts a fresh
    /// authorization flow, whatever was loaded. Refresh asks for tokens, or
    /// ends with `NoCredentialsConfigured` where the record holds no refresh
    /// token. Expiry ends at once with its report.
    pub open spec fn begin(command: Command, store: PersistedView, now: nat) -> SessionView {
        SessionView {
            command,
            store,
            phase: match store.loaded() {
                Err(e) => PhaseView::Finished(Err(e)),
                Ok(record) => match command {
                    Command::Setup => PhaseView::Authorizing(FlowView::start()),
                    Command::TokenRefresh => if record.refresh_token.len() == 0 {
                        PhaseView::Finished(Err(AuthErrorView::NoCredentialsConfigured))
                    } else {
                        PhaseView::Requesting { grant: Grant::RefreshToken, record }
                    },
                    Command::TokenExpiry => PhaseView::Finished(expiry_report_of(record, now)),
                },
            },
        }
    }

    /// What holds of every session.
    ///
    /// * Only setup runs the flow, and while it does the flow is well formed
    ///   and not yet complete.
    /// * Only setup exchanges a code, and the record it asks tokens for is
    ///   the working record of a complete flow: every answer is there, and
    ///   no tokens.
    /// * Only refresh trades a refresh token, and the record it asks tokens
    ///   for is the stored one, with a refresh token.
    /// * A record that is being written, or that was stored, comes from
    ///   setup or refresh; from setup, it holds every answer. Once stored,
    ///   it is what the store holds.
    /// * Only the expiry command reports on expiry.
    pub open spec fn wf(self) -> bool {
        match self.phase {
            PhaseView::Authorizing(flow) => {
                &&& self.command == Command::Setup
                &&& flow.wf()
                &&& flow.step != FlowStep::Complete
            },
            PhaseView::Requesting { grant: Grant::AuthorizationCode, record } => {
                &&& self.command == Command::Setup
                &&& record.holds_every_answer()
                &&& record.has_no_tokens()
            },
            PhaseView::Requesting { grant: Grant::RefreshToken, record } => {
                &&& self.command == Command::TokenRefresh
                &&& record.refresh_token.len() > 0
                &&& self.store.loaded() == Ok::<RecordView, AuthErrorView>(record)
            },
            PhaseView::Saving(record) => {
                &&& self.command != Command::TokenExpiry
                &&& self.command == Command::Setup ==> record.holds_every_answer()
            },
            PhaseView::Finished(Ok(ReportView::Stored(record))) => {
                &&& self.command != Command::TokenExpiry
                &&& self.command == Command::Setup ==> record.holds_every_answer()
                &&& self.store.loaded() == Ok::<RecordView, AuthErrorView>(record)
            },
            PhaseView::Finished(Ok(ReportView::Expiry { .. })) => self.command
                == Command::TokenExpiry,
            PhaseView::Finished(Err(_)) => true,
        }
    }

    /// What the caller is to do next.
    pub open spec fn action(self) -> ActionView {
        match self.phase {
            PhaseView::Authorizing(flow) => ActionView::Prompt(flow.action()),
            PhaseView::Requesting { grant, record } => ActionView::Post(request_of(grant, record)),
            PhaseView::Saving(record) => ActionView::Save(record),
            PhaseView::Finished(outcome) => ActionView::Report(outcome),
        }
    }

    /// The warning that the caller is to show before it goes on.
    pub open spec fn warning(self) -> Option<AuthErrorView> {
        match self.phase {
            PhaseView::Authorizing(flow) => flow.warning(),
            _ => None,
        }
    }

    /// The session after the caller handed back `event` at `now`.
    ///
    /// * While the flow runs, an answer that the flow refuses ends the
    ///   command with `InvalidInput`; the answer that completes the flow
    ///   sends the exchange request.
    /// * A reply that grants tokens leads to saving the record with the new
    ///   tokens; any other reply ends the command with the token failure.
    /// * A confirmed write puts the record in the store and ends the
    ///   command with it; a failed write ends it with `StorageFailure`.
    /// * An event that does not answer the pending action changes nothing,
    ///   and nothing changes once the command has ended.
    pub open spec fn step(self, event: EventView, now: nat) -> SessionView {
        match (self.phase, event) {
            (PhaseView::Authorizing(flow), EventView::Prompt(answer)) => SessionView {
                phase: if !flow.accepts(answer) {
                    PhaseView::Finished(Err(AuthErrorView::InvalidInput))
                } else if flow.after(answer).step == FlowStep::Complete {
                    PhaseView::Requesting {
                        grant: Grant::AuthorizationCode,
                        record: flow.after(answer).record,
                    }
                } else {
                    PhaseView::Authorizing(flow.after(answer))
                },
                ..self
            },
            (PhaseView::Requesting { grant, record }, EventView::Reply(reply)) => SessionView {
                phase: match reply_result(grant, record, reply, now) {
                    Ok(updated) => PhaseView::Saving(updated),
                    Err(e) => PhaseView::Finished(Err(e)),
                },
                ..self
            },
            (PhaseView::Saving(record), EventView::Saved(ok)) => if ok {
                SessionView {
                    store: self.store.saved(record),
                    phase: PhaseView::Finished(Ok(ReportView::Stored(record))),
                    ..self
                }
            } else {
                SessionView {
                    phase: PhaseView::Finished(Err(AuthErrorView::StorageFailure)),
                    ..self
                }
            },
            _ => self,
        }
    }
}

/// What the expiry command reports for `record` at `now`.
///
/// Fails with `NoCredentialsConfigured` exactly when the record holds no
/// access token. Changes nothing.
pub fn token_expiry(record: &CredentialRecord, now: u64) -> (r: Result<Report, AuthError>)
    ensures
        outcome_view(r) == expiry_report_of(record@, now as nat),
{
    if record.access_token.as_str().is_empty() {
        Err(AuthError::NoCredentialsConfigured)
    } else {
        Ok(
            Report::Expiry {
                expired: is_expired(record, now),
                remaining: time_until_expiry(record, now),
            },
        )
    }
}

enum Phase {
    Authorizing(AuthorizationFlow),
    Requesting { grant: Grant, record: CredentialRecord },
    Saving(CredentialRecord),
    Finished(Result<Report, AuthError>),
}

impl View for Phase {
    type V = PhaseView;

    closed spec fn view(&self) -> PhaseView {
        match self {
            Phase::Authorizing(flow) => PhaseView::Authorizing(flow@),
            Phase::Requesting { grant, record } => PhaseView::Requesting {
                grant: *grant,
                record: record@,
            },
            Phase::Saving(record) => PhaseView::Saving(record@),
            Phase::Finished(outcome) => PhaseView::Finished(outcome_view(*outcome)),
        }
    }
}

/// One run of a command.
pub struct Session {
    command: Command,
    store: CredentialStore,
    phase: Phase,
}

impl View for Session {
    type V = SessionView;

    closed spec fn view(&self) -> SessionView {
        SessionView { command: self.command, store: self.store@, phase: self.phase@ }
    }
}

fn copy_outcome(outcome: &Result<Report, AuthError>) -> (r: Result<Report, AuthError>)
    ensures
        outcome_view(r) == outcome_view(*outcome),
{
    match outcome {
        Ok(Report::Stored(record)) => Ok(Report::Stored(record.clone())),
        Ok(Report::Expiry { expired, remaining }) => Ok(
            Report::Expiry { expired: *expired, remaining: *remaining },
        ),
        Err(e) => Err(e.clone()),
    }
}

impl Session {
    #[verifier::type_invariant]
    spec fn valid(self) -> bool {
        self@.wf()
    }

    /// Begins `command` on `store`, at the time `now`.
    pub fn begin(command: Command, store: CredentialStore, now: u64) -> (session: Session)
        ensures
            session@ == SessionView::begin(command, store@, now as nat),
            session@.wf(),
    {
        let phase = match store.load() {
            Err(e) => Phase::Finished(Err(e)),
            Ok(record) => match command {
                Command::Setup => {
                    let flow = AuthorizationFlow::start();
                    Phase::Authorizing(flow)
                },
                Command::TokenRefresh => {
                    if record.refresh_token.as_str().is_empty() {
                        Phase::Finished(Err(AuthError::NoCredentialsConfigured))
                    } else {
                        Phase::Requesting { grant: Grant::RefreshToken, record }
                    }
                },
                Command::TokenExpiry => Phase::Finished(token_expiry(&record, now)),
            },
        };
        Session { command, store, phase }
    }

    /// The command that is run.
    pub fn command(&self) -> (command: Command)
        ensures
            command == self@.command,
    {
        self.command
    }

    /// What the caller is to do next.
    pub fn action(&self) -> (action: Action)
        ensures
            action@ == self@.action(),
            self@.wf(),
    {
        proof {
            use_type_invariant(self);
        }
        match &self.phase {
            Phase::Authorizing(flow) => Action::Prompt(flow.action()),
            Phase::Requesting { grant, record } => {
                let built = match grant {
                    Grant::AuthorizationCode => exchange_request(record),
                    Grant::RefreshToken => refresh_request(record),
                };
                match built {
                    Ok(request) => Action::Post(request),
                    // Not reached: a request is out only for a record that
                    // holds what the grant asks for.
                    Err(e) => Action::Report(Err(e)),
                }
            },
            Phase::Saving(record) => Action::Save(record.clone()),
            Phase::Finished(outcome) => Action::Report(copy_outcome(outcome)),
        }
    }

    /// The warning that the caller is to show before it goes on: after a
    /// browser failed to open, `BrowserLaunchFailed` with the URL.
    pub fn warning(&self) -> (warning: Option<AuthError>)
        ensures
            match warning {
                Some(e) => self@.warning() == Some(e@),
                None => self@.warning() is None,
            },
    {
        match &self.phase {
            Phase::Authorizing(flow) => flow.warning(),
            _ => None,
        }
    }

    /// Whether the command has ended.
    pub fn is_finished(&self) -> (done: bool)
        ensures
            done == (self@.phase is Finished),
    {
        match &self.phase {
            Phase::Finished(_) => true,
            _ => false,
        }
    }

    /// The store, as the session leaves it.
    pub fn store(&self) -> (store: &CredentialStore)
        ensures
            store@ == self@.store,
    {
        &self.store
    }

    /// Takes what the caller hands back, at the time `now`, and moves on.
    pub fn step(self, event: Event, now: u64) -> (next: Session)
        ensures
            next@ == self@.step(event@, now as nat),
            next@.wf(),
    {
        proof {
            use_type_invariant(&self);
        }
        let Session { command, store, phase } = self;
        match (phase, event) {
            (Phase::Authorizing(flow), Event::Prompt(answer)) => {
                let mut flow = flow;
                match flow.advance(answer) {
                    Err(e) => Session { command, store, phase: Phase::Finished(Err(e)) },
                    Ok(()) => {
                        if flow.is_complete() {
                            let record = flow.into_record();
                            Session {
                                command,
                                store,
                                phase: Phase::Requesting { grant: Grant::AuthorizationCode, record },
                            }
                        } else {
                            Session { command, store, phase: Phase::Authorizing(flow) }
                        }
                    },
                }
            },
            (Phase::Requesting { grant, record }, Event::Reply(reply)) => {
                let result = match grant {
                    Grant::AuthorizationCode => exchange(&record, &reply, now),
                    Grant::RefreshToken => refresh(&record, &reply, now),
                };
                match result {
                    Ok(updated) => Session { command, store, phase: Phase::Saving(updated) },
                    Err(e) => Session { command, store, phase: Phase::Finished(Err(e)) },
                }
            },
            (Phase::Saving(record), Event::Saved(ok)) => {
                if ok {
                    let mut store = store;
                    store.save(record.clone());
                    Session { command, store, phase: Phase::Finished(Ok(Report::Stored(record))) }
                } else {
                    Session { command, store, phase: Phase::Finished(Err(AuthError::StorageFailure)) }
                }
            },
            (phase, _) => Session { command, store, phase },
        }
    }
}

/// A session is well formed from the start.
pub proof fn law_session_begins_well_formed(command: Command, store: PersistedView, now: nat)
    ensures
        SessionView::begin(command, store, now).wf(),
{
}

/// A session stays well formed, whatever is handed back to it.
pub proof fn law_session_stays_well_formed(session: SessionView, event: EventView, now: nat)
    requires
        session.wf(),
    ensures
        session.step(event, now).wf(),
{
    if let (PhaseView::Authorizing(flow), EventView::Prompt(answer)) = (session.phase, event) {
        if flow.accepts(answer) {
            crate::flow::law_flow_stays_well_formed(flow, answer);
        }
    }
}

/// A command that has ended stays ended: no event changes its session, and
/// all that is left to do is to report.
pub proof fn law_finished_is_final(session: SessionView, event: EventView, now: nat)
    requires
        session.phase is Finished,
    ensures
        session.step(event, now) == session,
        session.action() is Report,
        session.warning() is None,
{
}

/// Setup takes nothing over: whatever record was stored, the flow starts
/// with an empty working record, and the store is left as it was.
pub proof fn law_setup_starts_empty(store: PersistedView, now: nat)
    requires
        store.loaded() is Ok,
    ensures
        SessionView::begin(Command::Setup, store, now).phase == PhaseView::Authorizing(
            FlowView::start(),
        ),
        FlowView::start().record == RecordView::empty(),
        SessionView::begin(Command::Setup, store, now).store == store,
{
}

/// A storage failure on loading ends every command at once, with that
/// failure; a record that is merely missing does not.
pub proof fn law_unreadable_store_is_fatal(command: Command, now: nat)
    ensures
        SessionView::begin(command, PersistedView::Unreadable, now).phase == PhaseView::Finished(
            Err(AuthErrorView::StorageFailure),
        ),
        SessionView::begin(Command::Setup, PersistedView::Missing, now).phase is Authorizing,
{
}

/// Refresh before any setup was completed fails with
/// `NoCredentialsConfigured` and sends nothing: the command ends at once,
/// so no request is ever posted for it.
pub proof fn law_refresh_without_token_sends_nothing(store: PersistedView, now: nat)
    requires
        store.loaded() is Ok,
        store.loaded()->Ok_0.refresh_token.len() == 0,
    ensures
        SessionView::begin(Command::TokenRefresh, store, now).phase == PhaseView::Finished(
            Err(AuthErrorView::NoCredentialsConfigured),
        ),
        SessionView::begin(Command::TokenRefresh, store, now).action() == ActionView::Report(
            Err(AuthErrorView::NoCredentialsConfigured),
        ),
        forall|event: EventView, later: nat|
            (#[trigger] SessionView::begin(Command::TokenRefresh, store, now).step(event, later))
                == SessionView::begin(Command::TokenRefresh, store, now),
{
}

/// The expiry command only reads: it ends at once, with the report for the
/// stored record, and leaves the store as it was.
pub proof fn law_expiry_only_reads(store: PersistedView, now: nat)
    requires
        store.loaded() is Ok,
    ensures
        SessionView::begin(Command::TokenExpiry, store, now).phase == PhaseView::Finished(
            expiry_report_of(store.loaded()->Ok_0, now),
        ),
        SessionView::begin(Command::TokenExpiry, store, now).store == store,
{
}

/// A reply that grants no tokens (any status but 200, a body that is no
/// token response) ends the command with the token failure of its grant,
/// carrying the reply's status and body, and changes nothing in the store:
/// the stored access token and refresh token stay as they were.
pub proof fn law_refused_reply_changes_nothing(
    session: SessionView,
    reply: TokenReplyView,
    now: nat,
)
    requires
        session.wf(),
        session.phase is Requesting,
        !grants(reply, now),
    ensures
        session.step(EventView::Reply(reply), now).store == session.store,
        session.phase->Requesting_grant == Grant::AuthorizationCode ==> session.step(
            EventView::Reply(reply),
            now,
        ).phase == PhaseView::Finished(
            Err(AuthErrorView::TokenExchangeFailed { status: reply.status, body: reply.body }),
        ),
        session.phase->Requesting_grant == Grant::RefreshToken ==> session.step(
            EventView::Reply(reply),
            now,
        ).phase == PhaseView::Finished(
            Err(AuthErrorView::TokenRefreshFailed { status: reply.status, body: reply.body }),
        ),
        session.step(EventView::Reply(reply), now).action() is Report,
{
}

/// A reply that grants tokens leads to saving the record with the reply's
/// access token and refresh token and with the expiry `now + expires_in`.
pub proof fn law_granted_reply_is_saved(session: SessionView, reply: TokenReplyView, now: nat)
    requires
        session.wf(),
        session.phase is Requesting,
        grants(reply, now),
    ensures
        session.step(EventView::Reply(reply), now).phase is Saving,
        session.step(EventView::Reply(reply), now).store == session.store,
        ({
            let saving = session.step(EventView::Reply(reply), now).phase->Saving_0;
            &&& session.step(EventView::Reply(reply), now).action() == ActionView::Save(saving)
            &&& saving.access_token == reply.token.unwrap().access_token
            &&& saving.refresh_token == reply.token.unwrap().refresh_token
            &&& saving.access_token_expiry == now + reply.token.unwrap().expires_in
            &&& saving.client_id == session.phase->Requesting_record.client_id
            &&& saving.client_secret == session.phase->Requesting_record.client_secret
            &&& saving.scope == session.phase->Requesting_record.scope
            &&& saving.redirect_uri == session.phase->Requesting_record.redirect_uri
            &&& saving.authorization_code
                == session.phase->Requesting_record.authorization_code
        }),
{
}

/// The store changes at one point only: when the write of a record with
/// newly granted tokens is confirmed. It then holds exactly that record.
/// Every other step, and so every failure, leaves it as it was.
pub proof fn law_store_changes_only_on_confirmed_save(
    session: SessionView,
    event: EventView,
    now: nat,
)
    ensures
        session.phase is Saving && event == EventView::Saved(true) ==> session.step(
            event,
            now,
        ).store.loaded() == Ok::<RecordView, AuthErrorView>(session.phase->Saving_0),
        !(session.phase is Saving && event == EventView::Saved(true)) ==> session.step(
            event,
            now,
        ).store == session.store,
{
}

/// Nothing is saved that was not granted: a session comes to save a record
/// only through a reply that grants tokens to the request that was out.
pub proof fn law_saving_follows_a_grant(session: SessionView, event: EventView, now: nat)
    requires
        !(session.phase is Saving),
        session.step(event, now).phase is Saving,
    ensures
        session.phase is Requesting,
        event is Reply,
        grants(event->Reply_0, now),
{
}

/// A setup that succeeded stored a record that holds every answer: the
/// client identifier, the client secret, the scope, the redirect URI and
/// the authorization code are all there, none of them empty, and the store
/// holds that very record.
pub proof fn law_successful_setup_holds_every_answer(session: SessionView)
    requires
        session.wf(),
        session.command == Command::Setup,
        session.phase is Finished,
        session.phase->Finished_0 is Ok,
    ensures
        session.phase->Finished_0->Ok_0 is Stored,
        session.phase->Finished_0->Ok_0->Stored_0.holds_every_answer(),
        session.store.loaded() == Ok::<RecordView, AuthErrorView>(
            session.phase->Finished_0->Ok_0->Stored_0,
        ),
{
}

/// The exchange step of a setup, from the request to the store. Where the
/// reply has status 200 and a token response for its body, and the lifetime
/// ends at a time that a record can hold, the session asks for the record to
/// be written, and once the write is confirmed the store holds it: the
/// answers as the user gave them, the reply's tokens, and the expiry
/// `now + expires_in`, where `now` is the time at which the reply was handed
/// in, and no expiry from before.
pub proof fn law_granted_setup_is_stored(
    session: SessionView,
    reply: TokenReplyView,
    now: nat,
    later: nat,
)
    requires
        session.wf(),
        session.phase is Requesting,
        session.phase->Requesting_grant == Grant::AuthorizationCode,
        reply.status == Some(crate::exchange::STATUS_OK),
        reply.token is Some,
        crate::expiry::lifetime_fits(now, reply.token.unwrap().expires_in),
    ensures
        ({
            let asked = session.phase->Requesting_record;
            let written = session.step(EventView::Reply(reply), now);
            let ended = written.step(EventView::Saved(true), later);
            let stored = asked.with_tokens(
                reply.token.unwrap().access_token,
                reply.token.unwrap().refresh_token,
                (now + reply.token.unwrap().expires_in) as nat,
            );
            &&& session.action() == ActionView::Post(exchange_request_of(asked))
            &&& written.action() == ActionView::Save(stored)
            &&& written.store == session.store
            &&& ended.phase == PhaseView::Finished(Ok(ReportView::Stored(stored)))
            &&& ended.store.loaded() == Ok::<RecordView, AuthErrorView>(stored)
            &&& stored.access_token_expiry == now + reply.token.unwrap().expires_in
            &&& stored.holds_every_answer()
        }),
{
}

/// A refresh, from the stored record to the store. Where the stored record
/// holds a refresh token, the reply has status 200 and a token response for
/// its body, and the lifetime ends at a time that a record can hold, the
/// session posts the refresh request for the stored record, asks for the
/// record to be written, and once the write is confirmed the store holds
/// it: the reply's tokens, and the expiry `now + expires_in`, from this
/// reply and the time at which it was handed in, not from the expiry that
/// was stored.
pub proof fn law_granted_refresh_is_stored(
    store: PersistedView,
    reply: TokenReplyView,
    begun: nat,
    now: nat,
    later: nat,
)
    requires
        store.loaded() is Ok,
        store.loaded()->Ok_0.refresh_token.len() > 0,
        reply.status == Some(crate::exchange::STATUS_OK),
        reply.token is Some,
        crate::expiry::lifetime_fits(now, reply.token.unwrap().expires_in),
    ensures
        ({
            let before = store.loaded()->Ok_0;
            let session = SessionView::begin(Command::TokenRefresh, store, begun);
            let written = session.step(EventView::Reply(reply), now);
            let ended = written.step(EventView::Saved(true), later);
            let stored = before.with_tokens(
                reply.token.unwrap().access_token,
                reply.token.unwrap().refresh_token,
                (now + reply.token.unwrap().expires_in) as nat,
            );
            &&& session.action() == ActionView::Post(refresh_request_of(before))
            &&& written.action() == ActionView::Save(stored)
            &&& written.store == store
            &&& ended.phase == PhaseView::Finished(Ok(ReportView::Stored(stored)))
            &&& ended.store.loaded() == Ok::<RecordView, AuthErrorView>(stored)
            &&& stored.access_token_expiry == now + reply.token.unwrap().expires_in
        }),
{
}

/// An authorization code is exchanged once. A request for tokens comes to
/// be out in a running session only by the answer that completes the flow,
/// and then for the code that the user gave in that very answer. The reply
/// ends the request, whatever it is. And once a record is being written, or
/// the command has ended, the session asks for nothing more from the user
/// or from the token endpoint.
pub proof fn law_code_is_exchanged_once(session: SessionView, event: EventView, now: nat)
    requires
        session.wf(),
    ensures
        !(session.phase is Requesting) && session.step(event, now).phase is Requesting ==> {
            &&& session.phase is Authorizing
            &&& event is Prompt
            &&& event->Prompt_0 is Text
            &&& session.step(event, now).phase->Requesting_grant == Grant::AuthorizationCode
            &&& session.step(event, now).phase->Requesting_record.authorization_code
                == event->Prompt_0->Text_0
        },
        session.phase is Requesting && event is Reply ==> !(session.step(
            event,
            now,
        ).phase is Requesting),
        session.phase is Saving || session.phase is Finished ==> {
            &&& !(session.step(event, now).phase is Requesting)
            &&& !(session.step(event, now).phase is Authorizing)
        },
{
}

} // verus!
