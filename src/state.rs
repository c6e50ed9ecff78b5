use vstd::prelude::*;
use vstd::string::*;

use crate::client::{connect_plan, is_stale_auth, plans, ConnectPlan, OpError};
use crate::config::AppConfig;
use crate::ops::Operation;

verus! {

/// The settings together with the one live connection, if any. `C` is the
/// connection handle of the networking layer.
pub struct AppState<C> {
    pub app_config: AppConfig,
    pub etcd_client: Option<C>,
}

/// Why a request was not carried out.
#[derive(Clone, Debug)]
pub enum SessionError {
    /// No profile is active, or the active name matches no profile.
    NoActiveProfile,
    /// The active profile forbids writes.
    Locked,
    /// Opening the connection failed; the connection layer's description.
    ConnectFailed(String),
    /// The request failed on the server; its description.
    Remote(String),
}

impl SessionError {
    pub open spec fn message_of(&self) -> Seq<char> {
        match self {
            SessionError::NoActiveProfile => "No current profile set"@,
            SessionError::Locked => "Current profile is locked"@,
            SessionError::ConnectFailed(m) => "Failed to connect to etcd: "@ + m@,
            SessionError::Remote(m) => m@,
        }
    }

    /// The single human-readable string handed to the user.
    pub fn message(&self) -> (r: String)
        ensures
            r@ == self.message_of(),
    {
        proof {
            reveal_strlit("No current profile set");
            reveal_strlit("Current profile is locked");
            reveal_strlit("Failed to connect to etcd: ");
        }
        match self {
            SessionError::NoActiveProfile => String::from_str("No current profile set"),
            SessionError::Locked => String::from_str("Current profile is locked"),
            SessionError::ConnectFailed(m) => {
                let mut s = String::from_str("Failed to connect to etcd: ");
                s.append(m.as_str());
                s
            },
            SessionError::Remote(m) => m.clone(),
        }
    }
}

/// What the caller is to do next for a request in progress.
#[derive(Clone, Debug)]
pub enum Action {
    /// Open a connection with this plan and report the outcome.
    Connect(ConnectPlan),
    /// Send the request over the held connection and report the outcome.
    Execute,
    /// The request succeeded; hand its reply to the user.
    Finish,
    /// The request is over and failed.
    Fail(SessionError),
}

/// What happened since the last action.
pub enum Event<C> {
    /// A request is about to start.
    Begin,
    /// The connection asked for was opened.
    Connected(C),
    /// The connection asked for could not be opened.
    ConnectFailed(String),
    /// The request succeeded.
    Succeeded,
    /// The request failed.
    Failed(OpError),
}

/// Book-keeping of one request: how often it was sent, and whether it writes.
#[derive(Clone, Copy, Debug, PartialEq, Eq, Structural)]
pub struct OpRun {
    pub attempts: u8,
    pub mutating: bool,
}

/// One more attempt, without overflow.
pub open spec fn bumped(run: OpRun) -> OpRun {
    OpRun {
        attempts: if run.attempts < 255 { (run.attempts + 1) as u8 } else { run.attempts },
        mutating: run.mutating,
    }
}

/// The outcome of obtaining a connection for a request from state `s`.
pub open spec fn acquired<C>(
    s: AppState<C>,
    run: OpRun,
    s2: AppState<C>,
    run2: OpRun,
    a: Action,
) -> bool {
    &&& s2 == s
    &&& if run.mutating && s.app_config.current_locked() {
        run2 == run && a == Action::Fail(SessionError::Locked)
    } else if !s.app_config.resolves() {
        run2 == run && a == Action::Fail(SessionError::NoActiveProfile)
    } else if s.etcd_client is Some {
        run2 == bumped(run) && a == Action::Execute
    } else {
        run2 == run && a is Connect && plans(a->Connect_0, s.app_config.current())
    }
}

/// One step of a request: from state `s` and book-keeping `run`, event `ev`
/// leads to state `s2`, book-keeping `run2` and action `a`.
pub open spec fn steps<C>(
    s: AppState<C>,
    run: OpRun,
    ev: Event<C>,
    s2: AppState<C>,
    run2: OpRun,
    a: Action,
) -> bool {
    match ev {
        Event::Begin => acquired(s, run, s2, run2, a),
        Event::Connected(c) => {
            &&& s2 == AppState { app_config: s.app_config, etcd_client: Some(c) }
            &&& run2 == bumped(run)
            &&& a == Action::Execute
        },
        Event::ConnectFailed(m) => {
            &&& s2 == s
            &&& run2 == run
            &&& a is Fail
            &&& a->Fail_0 is ConnectFailed
            &&& a->Fail_0->ConnectFailed_0@ == m@
        },
        Event::Succeeded => s2 == s && run2 == run && a == Action::Finish,
        Event::Failed(e) => if is_stale_auth(e) && run.attempts < 2 {
            acquired(AppState { app_config: s.app_config, etcd_client: None }, run, s2, run2, a)
        } else {
            &&& s2 == s
            &&& run2 == run
            &&& a is Fail
            &&& a->Fail_0 is Remote
            &&& a->Fail_0->Remote_0@ == e.text_of()
        },
    }
}

/// Replacing the settings of `s` with `config` gives `s2`, and `changed`
/// tells whether the active-profile name changed.
pub open spec fn switched<C>(s: AppState<C>, config: AppConfig, s2: AppState<C>, changed: bool) -> bool {
    &&& changed == (s.app_config.active_name() != config.active_name())
    &&& s2.app_config == config
    &&& changed ==> s2.etcd_client is None
    &&& !changed ==> s2.etcd_client == s.etcd_client
}

impl OpRun {
    /// Book-keeping for a request that has not been sent yet.
    pub fn new(mutating: bool) -> (r: OpRun)
        ensures
            r.attempts == 0,
            r.mutating == mutating,
    {
        OpRun { attempts: 0, mutating }
    }
}

impl<C> AppState<C> {
    /// A session over `app_config`, with no connection yet.
    pub fn new(app_config: AppConfig) -> (r: AppState<C>)
        ensures
            r.app_config == app_config,
            r.etcd_client is None,
    {
        AppState { app_config, etcd_client: None }
    }

    /// The connection is in place.
    pub fn is_connected(&self) -> (r: bool)
        ensures
            r == self.etcd_client is Some,
    {
        self.etcd_client.is_some()
    }

    /// Drops the held connection, if any.
    pub fn reset_client(&mut self)
        ensures
            final(self).app_config == old(self).app_config,
            final(self).etcd_client is None,
    {
        self.etcd_client = None;
    }

    /// Replaces the settings. When the active-profile name changes, the held
    /// connection is dropped and the result is true; no connection is opened
    /// until the next request.
    pub fn update_config(&mut self, config: AppConfig) -> (r: bool)
        ensures
            switched(*old(self), config, *final(self), r),
    {
        let changed = match (&self.app_config.current_profile, &config.current_profile) {
            (Some(a), Some(b)) => !(*a == *b),
            (None, None) => false,
            _ => true,
        };
        self.app_config = config;
        if changed {
            self.etcd_client = None;
        }
        changed
    }

    fn acquire(&self, run: &mut OpRun) -> (a: Action)
        ensures
            acquired(*self, *old(run), *self, *final(run), a),
    {
        match self.app_config.get_current_profile() {
            None => Action::Fail(SessionError::NoActiveProfile),
            Some(profile) => {
                if run.mutating && profile.locked == Some(true) {
                    Action::Fail(SessionError::Locked)
                } else if self.etcd_client.is_some() {
                    if run.attempts < 255 {
                        run.attempts = run.attempts + 1;
                    }
                    Action::Execute
                } else {
                    Action::Connect(connect_plan(profile))
                }
            },
        }
    }

    /// Advances a request by one event. A request starts with `Begin`: writes
    /// under a locked profile and requests without an active profile fail at
    /// once; otherwise the held connection is used, or one is asked for. A
    /// failure that says the token expired drops the connection and reissues
    /// the request once; any other failure, or a second such one, ends it.
    pub fn step(&mut self, run: &mut OpRun, ev: Event<C>) -> (a: Action)
        ensures
            steps(*old(self), *old(run), ev, *final(self), *final(run), a),
    {
        match ev {
            Event::Begin => self.acquire(run),
            Event::Connected(c) => {
                self.etcd_client = Some(c);
                if run.attempts < 255 {
                    run.attempts = run.attempts + 1;
                }
                Action::Execute
            },
            Event::ConnectFailed(m) => Action::Fail(SessionError::ConnectFailed(m)),
            Event::Succeeded => Action::Finish,
            Event::Failed(e) => {
                if e.is_expired_token() && run.attempts < 2 {
                    self.etcd_client = None;
                    self.acquire(run)
                } else {
                    Action::Fail(SessionError::Remote(e.describe()))
                }
            },
        }
    }
}

/// A write under a locked profile ends at its first step: no connection is
/// asked for and nothing is sent.
pub proof fn lemma_locked_write_fails_locally<C>(
    op: Operation,
    s: AppState<C>,
    run: OpRun,
    s2: AppState<C>,
    run2: OpRun,
    a: Action,
)
    requires
        op.mutates(),
        run == (OpRun { attempts: 0, mutating: op.mutates() }),
        s.app_config.current_locked(),
        steps(s, run, Event::Begin, s2, run2, a),
    ensures
        a == Action::Fail(SessionError::Locked),
        s2 == s,
        run2 == run,
{
}

/// Without an active profile every request ends at its first step with
/// `NoActiveProfile`: no connection is asked for and nothing is sent.
pub proof fn lemma_no_profile_fails_locally<C>(
    s: AppState<C>,
    run: OpRun,
    s2: AppState<C>,
    run2: OpRun,
    a: Action,
)
    requires
        !s.app_config.resolves(),
        steps(s, run, Event::Begin, s2, run2, a),
    ensures
        a == Action::Fail(SessionError::NoActiveProfile),
        s2 == s,
        run2 == run,
{
}

/// On a connected session, a request whose first sending meets an expired
/// token and whose second succeeds is sent exactly twice, asks for exactly
/// one new connection (for the active profile), and succeeds.
pub proof fn lemma_stale_token_then_success<C>(
    s0: AppState<C>,
    r0: OpRun,
    s1: AppState<C>,
    r1: OpRun,
    a1: Action,
    e: OpError,
    s2: AppState<C>,
    r2: OpRun,
    a2: Action,
    c: C,
    s3: AppState<C>,
    r3: OpRun,
    a3: Action,
    s4: AppState<C>,
    r4: OpRun,
    a4: Action,
)
    requires
        s0.app_config.resolves(),
        !(r0.mutating && s0.app_config.current_locked()),
        s0.etcd_client is Some,
        r0.attempts == 0,
        is_stale_auth(e),
        steps(s0, r0, Event::Begin, s1, r1, a1),
        steps(s1, r1, Event::Failed(e), s2, r2, a2),
        steps(s2, r2, Event::Connected(c), s3, r3, a3),
        steps(s3, r3, Event::Succeeded, s4, r4, a4),
    ensures
        a1 == Action::Execute,
        a2 is Connect,
        plans(a2->Connect_0, s0.app_config.current()),
        a3 == Action::Execute,
        a4 == Action::Finish,
        r4.attempts == 2,
        s4.etcd_client == Some(c),
        s4.app_config == s0.app_config,
{
}

/// When every sending meets an expired token, the request is sent exactly
/// twice and then fails with the second failure's description.
pub proof fn lemma_stale_token_twice_fails<C>(
    s0: AppState<C>,
    r0: OpRun,
    s1: AppState<C>,
    r1: OpRun,
    a1: Action,
    e1: OpError,
    s2: AppState<C>,
    r2: OpRun,
    a2: Action,
    c: C,
    s3: AppState<C>,
    r3: OpRun,
    a3: Action,
    e2: OpError,
    s4: AppState<C>,
    r4: OpRun,
    a4: Action,
)
    requires
        s0.app_config.resolves(),
        !(r0.mutating && s0.app_config.current_locked()),
        s0.etcd_client is Some,
        r0.attempts == 0,
        is_stale_auth(e1),
        is_stale_auth(e2),
        steps(s0, r0, Event::Begin, s1, r1, a1),
        steps(s1, r1, Event::Failed(e1), s2, r2, a2),
        steps(s2, r2, Event::Connected(c), s3, r3, a3),
        steps(s3, r3, Event::Failed(e2), s4, r4, a4),
    ensures
        a1 == Action::Execute,
        a2 is Connect,
        a3 == Action::Execute,
        r4.attempts == 2,
        a4 is Fail,
        a4->Fail_0 is Remote,
        a4->Fail_0->Remote_0@ == e2.text_of(),
{
}

/// Switching the active profile drops the connection; the next request asks
/// for exactly one new connection, for the new profile, before it is sent.
pub proof fn lemma_switch_reconnects_once<C>(
    s0: AppState<C>,
    config: AppConfig,
    s1: AppState<C>,
    changed: bool,
    r1: OpRun,
    s2: AppState<C>,
    r2: OpRun,
    a2: Action,
    c: C,
    s3: AppState<C>,
    r3: OpRun,
    a3: Action,
)
    requires
        s0.etcd_client is Some,
        s0.app_config.active_name() != config.active_name(),
        config.resolves(),
        !(r1.mutating && config.current_locked()),
        r1.attempts == 0,
        switched(s0, config, s1, changed),
        steps(s1, r1, Event::Begin, s2, r2, a2),
        steps(s2, r2, Event::Connected(c), s3, r3, a3),
    ensures
        changed,
        s1.etcd_client is None,
        a2 is Connect,
        plans(a2->Connect_0, config.current()),
        a3 == Action::Execute,
        r3.attempts == 1,
{
}

} // verus!
