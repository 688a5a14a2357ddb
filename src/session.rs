use vstd::prelude::*;

use crate::text::char_count;
use crate::verification::{
    carries_tokens, submission_outcome, HttpAnswer, Submission, VerificationOutcome,
};

verus! {

/// Where one enrollment stands.
#[derive(Clone, Copy, Debug, PartialEq, Eq, Structural)]
pub enum SessionState {
    AwaitingConfirmation,
    CollectingUsername,
    CollectingPassword,
    Verifying,
    AwaitingMfaCode,
    Succeeded,
    Cancelled,
    Failed,
}

impl SessionState {
    pub open spec fn is_terminal(self) -> bool {
        self is Succeeded || self is Cancelled || self is Failed
    }
}

/// The edges of the enrollment: confirmation, then username, password and
/// verification, which ends, loops back to the username, or asks for a second
/// factor. A timeout, a rejected input or a transport failure ends any live state
/// in `Failed`.
pub open spec fn is_edge(a: SessionState, b: SessionState) -> bool {
    match a {
        SessionState::AwaitingConfirmation => b is CollectingUsername || b is Cancelled
            || b is Failed,
        SessionState::CollectingUsername => b is CollectingPassword || b is Failed,
        SessionState::CollectingPassword => b is Verifying || b is Failed,
        SessionState::Verifying => b is Succeeded || b is CollectingUsername
            || b is AwaitingMfaCode || b is Failed,
        SessionState::AwaitingMfaCode => b is Succeeded || b is Failed,
        _ => false,
    }
}

/// The two affordances offered with the explanation, and anything else.
#[derive(Clone, Copy, Debug, PartialEq, Eq, Structural)]
pub enum ConfirmationChoice {
    Proceed,
    Cancel,
    Other,
}

/// Why a session ended in `Failed`.
#[derive(Clone, Copy, Debug, PartialEq, Eq, Structural)]
pub enum FailureReason {
    /// No qualifying reply came within the bound.
    InputTimeout,
    /// The reply was empty, or a second-factor code was not six characters.
    InputRejected,
    /// The provider did not accept the second-factor round.
    SecondFactorRejected,
    /// The provider could not be reached or its answer could not be read.
    ProviderTransportFailure,
    /// A message or reaction could not be sent, or a wait could not be set up.
    ReplyChannelFailure,
}

/// How a session ended.
#[derive(Clone, Copy, Debug, PartialEq, Eq, Structural)]
pub enum Ending {
    Succeeded,
    Cancelled,
    Failed(FailureReason),
}

/// What the driver of a session does next.
#[derive(Clone, Copy, Debug, PartialEq, Eq, Structural)]
pub enum Action {
    /// The event was not one the session waits for: keep waiting.
    Wait,
    /// Prompt for the username; `retry` after credentials were refused.
    AskUsername { retry: bool },
    AskPassword,
    AskMfaCode,
    /// Run the verification client on `Session::submission`.
    Verify,
    /// Send the one explanatory message for this ending.
    Finish(Ending),
}

/// What the driver observed.
pub enum Event {
    /// A reaction on the explanation message, by this user.
    Reaction { user_id: u64, choice: ConfirmationChoice },
    /// A reply in the private conversation.
    Reply(String),
    /// The bounded wait ended with nothing.
    TimedOut,
    /// The verification client finished.
    Verified(VerificationOutcome),
    /// The reply channel failed; the session cannot go on.
    ChannelFailure,
}

/// One enrollment: its identity, where it stands, and the credentials it holds
/// while it runs.
pub struct Session {
    session_id: u64,
    user_id: u64,
    state: SessionState,
    username: String,
    password: String,
    mfa_code: Option<String>,
    mfa_pending: bool,
    rounds: u64,
}

/// The abstract value of a session.
pub struct SessionView {
    pub session_id: u64,
    pub user_id: u64,
    pub state: SessionState,
    pub username: Seq<char>,
    pub password: Seq<char>,
    pub mfa_code: Option<Seq<char>>,
    pub mfa_pending: bool,
    /// Username/password rounds begun so far.
    pub rounds: u64,
}

impl View for Session {
    type V = SessionView;

    closed spec fn view(&self) -> SessionView {
        SessionView {
            session_id: self.session_id,
            user_id: self.user_id,
            state: self.state,
            username: self.username@,
            password: self.password@,
            mfa_code: match self.mfa_code {
                Some(c) => Some(c@),
                None => None,
            },
            mfa_pending: self.mfa_pending,
            rounds: self.rounds,
        }
    }
}

/// A fresh session, waiting for the confirmation.
pub open spec fn initial(session_id: u64, user_id: u64) -> SessionView {
    SessionView {
        session_id,
        user_id,
        state: SessionState::AwaitingConfirmation,
        username: Seq::empty(),
        password: Seq::empty(),
        mfa_code: None,
        mfa_pending: false,
        rounds: 0,
    }
}

/// The session ended in `s`; only success keeps the credentials.
pub open spec fn ended(v: SessionView, s: SessionState) -> SessionView {
    if s is Succeeded {
        SessionView { state: s, ..v }
    } else {
        SessionView {
            state: s,
            username: Seq::empty(),
            password: Seq::empty(),
            mfa_code: None,
            ..v
        }
    }
}

pub open spec fn fail(v: SessionView, why: FailureReason) -> (SessionView, Action) {
    (ended(v, SessionState::Failed), Action::Finish(Ending::Failed(why)))
}

pub open spec fn next_round(rounds: u64) -> u64 {
    if rounds < u64::MAX {
        (rounds + 1) as u64
    } else {
        rounds
    }
}

/// The length of a second-factor code.
pub const MFA_CODE_LEN: usize = 6;

/// One step of the enrollment: the new session and what to do next.
pub open spec fn step_spec(v: SessionView, e: Event) -> (SessionView, Action) {
    if !v.state.is_terminal() && e is ChannelFailure {
        fail(v, FailureReason::ReplyChannelFailure)
    } else {
        step_live_spec(v, e)
    }
}

/// A step on any event but a channel failure.
pub open spec fn step_live_spec(v: SessionView, e: Event) -> (SessionView, Action) {
    match v.state {
        SessionState::AwaitingConfirmation => match e {
            Event::Reaction { user_id, choice } => {
                if user_id != v.user_id {
                    (v, Action::Wait)
                } else {
                    match choice {
                        ConfirmationChoice::Proceed => (
                            SessionView { state: SessionState::CollectingUsername, rounds: 1, ..v },
                            Action::AskUsername { retry: false },
                        ),
                        ConfirmationChoice::Cancel => (
                            ended(v, SessionState::Cancelled),
                            Action::Finish(Ending::Cancelled),
                        ),
                        ConfirmationChoice::Other => (v, Action::Wait),
                    }
                }
            },
            Event::TimedOut => fail(v, FailureReason::InputTimeout),
            _ => (v, Action::Wait),
        },
        SessionState::CollectingUsername => match e {
            Event::Reply(s) => {
                if s@.len() == 0 {
                    fail(v, FailureReason::InputRejected)
                } else {
                    (
                        SessionView { state: SessionState::CollectingPassword, username: s@, ..v },
                        Action::AskPassword,
                    )
                }
            },
            Event::TimedOut => fail(v, FailureReason::InputTimeout),
            _ => (v, Action::Wait),
        },
        SessionState::CollectingPassword => match e {
            Event::Reply(s) => {
                if s@.len() == 0 {
                    fail(v, FailureReason::InputRejected)
                } else {
                    (
                        SessionView { state: SessionState::Verifying, password: s@, ..v },
                        Action::Verify,
                    )
                }
            },
            Event::TimedOut => fail(v, FailureReason::InputTimeout),
            _ => (v, Action::Wait),
        },
        SessionState::Verifying => match e {
            Event::Verified(o) => match o {
                VerificationOutcome::Success => (
                    ended(v, SessionState::Succeeded),
                    Action::Finish(Ending::Succeeded),
                ),
                VerificationOutcome::InvalidCredentials => (
                    SessionView {
                        state: SessionState::CollectingUsername,
                        username: Seq::empty(),
                        password: Seq::empty(),
                        rounds: next_round(v.rounds),
                        ..v
                    },
                    Action::AskUsername { retry: true },
                ),
                VerificationOutcome::MfaRequired => (
                    SessionView { state: SessionState::AwaitingMfaCode, mfa_pending: true, ..v },
                    Action::AskMfaCode,
                ),
                VerificationOutcome::TransportError(_) => fail(
                    v,
                    FailureReason::ProviderTransportFailure,
                ),
            },
            _ => (v, Action::Wait),
        },
        SessionState::AwaitingMfaCode => if v.mfa_code is None {
            match e {
                Event::Reply(c) => {
                    if c@.len() == MFA_CODE_LEN {
                        (SessionView { mfa_code: Some(c@), ..v }, Action::Verify)
                    } else {
                        fail(v, FailureReason::InputRejected)
                    }
                },
                Event::TimedOut => fail(v, FailureReason::InputTimeout),
                _ => (v, Action::Wait),
            }
        } else {
            match e {
                Event::Verified(o) => match o {
                    VerificationOutcome::Success => (
                        ended(v, SessionState::Succeeded),
                        Action::Finish(Ending::Succeeded),
                    ),
                    VerificationOutcome::TransportError(_) => fail(
                        v,
                        FailureReason::ProviderTransportFailure,
                    ),
                    _ => fail(v, FailureReason::SecondFactorRejected),
                },
                _ => (v, Action::Wait),
            }
        },
        _ => (v, Action::Wait),
    }
}

/// A session waits for a verification: after the password, or after the code.
pub open spec fn awaits_verification(v: SessionView) -> bool {
    v.state is Verifying || (v.state is AwaitingMfaCode && v.mfa_code is Some)
}

impl Session {
    /// The session's well-formedness: credentials are held only while they are
    /// needed, and a code only in the second-factor round.
    pub open spec fn wf(&self) -> bool {
        let v = self@;
        &&& (v.state is AwaitingConfirmation || v.state is CollectingUsername || v.state is Cancelled
            || v.state is Failed) ==> v.username.len() == 0 && v.password.len() == 0
        &&& v.state is CollectingPassword ==> v.password.len() == 0
        &&& !(v.state is AwaitingMfaCode || v.state is Succeeded) ==> v.mfa_code is None
        &&& v.state is AwaitingMfaCode ==> v.mfa_pending
    }

    /// A fresh session; sessions are created through `ActiveSessions::open`, which
    /// keeps one per user.
    pub(crate) fn new(session_id: u64, user_id: u64) -> (s: Session)
        ensures
            s@ == initial(session_id, user_id),
            s.wf(),
    {
        Session {
            session_id,
            user_id,
            state: SessionState::AwaitingConfirmation,
            username: String::new(),
            password: String::new(),
            mfa_code: None,
            mfa_pending: false,
            rounds: 0,
        }
    }

    pub fn session_id(&self) -> (r: u64)
        ensures
            r == self@.session_id,
    {
        self.session_id
    }

    pub fn user_id(&self) -> (r: u64)
        ensures
            r == self@.user_id,
    {
        self.user_id
    }

    pub fn state(&self) -> (r: SessionState)
        ensures
            r == self@.state,
    {
        self.state
    }

    /// Username/password rounds begun so far.
    pub fn rounds(&self) -> (r: u64)
        ensures
            r == self@.rounds,
    {
        self.rounds
    }

    pub fn mfa_pending(&self) -> (r: bool)
        ensures
            r == self@.mfa_pending,
    {
        self.mfa_pending
    }

    pub fn is_terminal(&self) -> (r: bool)
        ensures
            r == self@.state.is_terminal(),
    {
        match self.state {
            SessionState::Succeeded | SessionState::Cancelled | SessionState::Failed => true,
            _ => false,
        }
    }

    /// What a new session asks first: the confirmation.
    pub fn opening_prompt_needed(&self) -> (r: bool)
        ensures
            r == (self@.state is AwaitingConfirmation),
    {
        match self.state {
            SessionState::AwaitingConfirmation => true,
            _ => false,
        }
    }

    /// What the verification client is to send, while the session waits for one.
    pub fn submission(&self) -> (r: Option<Submission>)
        ensures
            r is Some <==> awaits_verification(self@),
            r matches Some(sub) ==> {
                &&& sub.username@ == self@.username
                &&& sub.password@ == self@.password
                &&& match sub.mfa_token {
                    Some(t) => self@.mfa_code == Some(t@),
                    None => self@.mfa_code is None,
                }
            },
    {
        let waiting = match self.state {
            SessionState::Verifying => true,
            SessionState::AwaitingMfaCode => self.mfa_code.is_some(),
            _ => false,
        };
        if !waiting {
            return None;
        }
        let mfa_token = match &self.mfa_code {
            Some(c) => Some(c.clone()),
            None => None,
        };
        Some(Submission { username: self.username.clone(), password: self.password.clone(), mfa_token })
    }

    /// The verified credentials, handed out only once the session succeeded.
    pub fn verified_account(&self) -> (r: Option<(String, String)>)
        ensures
            r is Some <==> self@.state is Succeeded,
            r matches Some(p) ==> p.0@ == self@.username && p.1@ == self@.password,
    {
        match self.state {
            SessionState::Succeeded => Some((self.username.clone(), self.password.clone())),
            _ => None,
        }
    }

    fn end(&mut self, s: SessionState)
        ensures
            final(self)@ == ended(old(self)@, s),
    {
        self.state = s;
        if !matches!(s, SessionState::Succeeded) {
            self.username = String::new();
            self.password = String::new();
            self.mfa_code = None;
        }
    }

    fn fail(&mut self, why: FailureReason) -> (a: Action)
        ensures
            (final(self)@, a) == fail(old(self)@, why),
    {
        self.end(SessionState::Failed);
        Action::Finish(Ending::Failed(why))
    }

    /// Advances the session by one observed event.
    pub fn step(&mut self, e: Event) -> (a: Action)
        requires
            old(self).wf(),
        ensures
            final(self).wf(),
            (final(self)@, a) == step_spec(old(self)@, e),
    {
        if !self.is_terminal() {
            if let Event::ChannelFailure = e {
                return self.fail(FailureReason::ReplyChannelFailure);
            }
        }
        match self.state {
            SessionState::AwaitingConfirmation => match e {
                Event::Reaction { user_id, choice } => {
                    if user_id != self.user_id {
                        return Action::Wait;
                    }
                    match choice {
                        ConfirmationChoice::Proceed => {
                            self.state = SessionState::CollectingUsername;
                            self.rounds = 1;
                            Action::AskUsername { retry: false }
                        },
                        ConfirmationChoice::Cancel => {
                            self.end(SessionState::Cancelled);
                            Action::Finish(Ending::Cancelled)
                        },
                        ConfirmationChoice::Other => Action::Wait,
                    }
                },
                Event::TimedOut => self.fail(FailureReason::InputTimeout),
                _ => Action::Wait,
            },
            SessionState::CollectingUsername => match e {
                Event::Reply(s) => {
                    if s.as_str().is_empty() {
                        self.fail(FailureReason::InputRejected)
                    } else {
                        self.username = s;
                        self.state = SessionState::CollectingPassword;
                        Action::AskPassword
                    }
                },
                Event::TimedOut => self.fail(FailureReason::InputTimeout),
                _ => Action::Wait,
            },
            SessionState::CollectingPassword => match e {
                Event::Reply(s) => {
                    if s.as_str().is_empty() {
                        self.fail(FailureReason::InputRejected)
                    } else {
                        self.password = s;
                        self.state = SessionState::Verifying;
                        Action::Verify
                    }
                },
                Event::TimedOut => self.fail(FailureReason::InputTimeout),
                _ => Action::Wait,
            },
            SessionState::Verifying => match e {
                Event::Verified(o) => match o {
                    VerificationOutcome::Success => {
                        self.end(SessionState::Succeeded);
                        Action::Finish(Ending::Succeeded)
                    },
                    VerificationOutcome::InvalidCredentials => {
                        self.state = SessionState::CollectingUsername;
                        self.username = String::new();
                        self.password = String::new();
                        if self.rounds < u64::MAX {
                            self.rounds = self.rounds + 1;
                        }
                        Action::AskUsername { retry: true }
                    },
                    VerificationOutcome::MfaRequired => {
                        self.state = SessionState::AwaitingMfaCode;
                        self.mfa_pending = true;
                        Action::AskMfaCode
                    },
                    VerificationOutcome::TransportError(_) => self.fail(
                        FailureReason::ProviderTransportFailure,
                    ),
                },
                _ => Action::Wait,
            },
            SessionState::AwaitingMfaCode => {
                if self.mfa_code.is_none() {
                    match e {
                        Event::Reply(c) => {
                            if char_count(c.as_str()) == MFA_CODE_LEN {
                                self.mfa_code = Some(c);
                                Action::Verify
                            } else {
                                self.fail(FailureReason::InputRejected)
                            }
                        },
                        Event::TimedOut => self.fail(FailureReason::InputTimeout),
                        _ => Action::Wait,
                    }
                } else {
                    match e {
                        Event::Verified(o) => match o {
                            VerificationOutcome::Success => {
                                self.end(SessionState::Succeeded);
                                Action::Finish(Ending::Succeeded)
                            },
                            VerificationOutcome::TransportError(_) => self.fail(
                                FailureReason::ProviderTransportFailure,
                            ),
                            _ => self.fail(FailureReason::SecondFactorRejected),
                        },
                        _ => Action::Wait,
                    }
                }
            },
            _ => Action::Wait,
        }
    }
}

/// The session after each event of `events` in turn.
pub open spec fn run(v: SessionView, events: Seq<Event>) -> SessionView
    decreases events.len(),
{
    if events.len() == 0 {
        v
    } else {
        run(step_spec(v, events[0]).0, events.drop_first())
    }
}

/// The actions asked for by each event of `events` in turn.
pub open spec fn run_actions(v: SessionView, events: Seq<Event>) -> Seq<Action>
    decreases events.len(),
{
    if events.len() == 0 {
        Seq::empty()
    } else {
        seq![step_spec(v, events[0]).1] + run_actions(step_spec(v, events[0]).0, events.drop_first())
    }
}

/// Each step follows an edge of the enrollment or stays in its state, and an
/// ended session ignores whatever comes.
pub proof fn lemma_steps_follow_edges(v: SessionView, e: Event)
    ensures
        step_spec(v, e).0.state == v.state || is_edge(v.state, step_spec(v, e).0.state),
        v.state.is_terminal() ==> step_spec(v, e) == (v, Action::Wait),
{
}

/// A session that has ended stays as it is and asks for nothing, whatever events
/// follow: it never reaches a second terminal state.
pub proof fn lemma_ended_stays_ended(v: SessionView, events: Seq<Event>)
    requires
        v.state.is_terminal(),
    ensures
        run(v, events) == v,
        run_actions(v, events) == Seq::new(events.len(), |i: int| Action::Wait),
    decreases events.len(),
{
    if events.len() > 0 {
        lemma_ended_stays_ended(v, events.drop_first());
        assert(run_actions(v, events) =~= Seq::new(events.len(), |i: int| Action::Wait));
    }
}

/// Credentials that the provider accepts without a second factor: its answer is a
/// `response` whose redirect carries both tokens, the verification gives `Success`,
/// and the session ends `Succeeded`.
pub proof fn lemma_accepted_credentials_succeed(v: SessionView, a: HttpAnswer)
    requires
        v.state is Verifying,
        a.reply matches Some(r) && r.kind@ == "response"@ && (r.redirect_uri matches Some(u)
            && carries_tokens(u@)),
    ensures
        submission_outcome(Ok(a)) == VerificationOutcome::Success,
        step_spec(v, Event::Verified(submission_outcome(Ok(a)))).0.state is Succeeded,
        step_spec(v, Event::Verified(submission_outcome(Ok(a)))).1 == Action::Finish(
            Ending::Succeeded,
        ),
{
}

/// A second-factor code whose length is not six ends the session in `Failed`, and no
/// later event leads to another verification.
pub proof fn lemma_bad_code_fails_without_verifying(
    v: SessionView,
    code: String,
    later: Seq<Event>,
)
    requires
        v.state is AwaitingMfaCode,
        v.mfa_code is None,
        code@.len() != MFA_CODE_LEN,
    ensures
        step_spec(v, Event::Reply(code)).0.state is Failed,
        step_spec(v, Event::Reply(code)).1 == Action::Finish(
            Ending::Failed(FailureReason::InputRejected),
        ),
        !run_actions(step_spec(v, Event::Reply(code)).0, later).contains(Action::Verify),
{
    let after = step_spec(v, Event::Reply(code)).0;
    lemma_ended_stays_ended(after, later);
    if run_actions(after, later).contains(Action::Verify) {
        let k = choose|k: int|
            0 <= k < run_actions(after, later).len() && run_actions(after, later)[k]
                == Action::Verify;
        assert(run_actions(after, later)[k] == Action::Wait);
    }
}

proof fn lemma_run_push(v: SessionView, events: Seq<Event>, e: Event)
    ensures
        run(v, events.push(e)) == step_spec(run(v, events), e).0,
    decreases events.len(),
{
    if events.len() == 0 {
        assert(events.push(e).drop_first() =~= Seq::<Event>::empty());
        assert(run(step_spec(v, e).0, Seq::<Event>::empty()) == step_spec(v, e).0);
        assert(events.push(e)[0] == e);
    } else {
        assert(events.push(e).drop_first() =~= events.drop_first().push(e));
        assert(events.push(e)[0] == events[0]);
        lemma_run_push(step_spec(v, events[0]).0, events.drop_first(), e);
    }
}

/// Along any run of events, each state is the one before it or is reached from it
/// by an edge of the enrollment.
pub proof fn lemma_runs_follow_edges(v: SessionView, events: Seq<Event>, k: int)
    requires
        0 <= k < events.len(),
    ensures
        run(v, events.take(k + 1)).state == run(v, events.take(k)).state || is_edge(
            run(v, events.take(k)).state,
            run(v, events.take(k + 1)).state,
        ),
{
    assert(events.take(k + 1) =~= events.take(k).push(events[k]));
    lemma_run_push(v, events.take(k), events[k]);
    lemma_steps_follow_edges(run(v, events.take(k)), events[k]);
}

} // verus!
