use std::collections::HashMap;

use async_imap::types::Capabilities as ServerCapabilities;
use vstd::prelude::*;

use crate::capabilities::{advertised_atoms, record_of, wants_identification, Capabilities};
use crate::client::{Client, Phase};
use crate::error::ConnectError;

verus! {

/// How the client proves its identity.
#[derive(Clone, Copy, Debug, PartialEq, Eq, Structural)]
pub enum AuthMethod {
    /// A user name and a password.
    Login,
    /// A negotiated mechanism driven by a caller-supplied authenticator.
    Mechanism,
}

/// An operation that turns an established connection into a session.
#[derive(Clone, Copy, Debug, PartialEq, Eq, Structural)]
pub enum SetupStep {
    /// Run the authentication exchange.
    Authenticate,
    /// Send the capability command and read the advertised tokens.
    ListCapabilities,
    /// Send the identification command with the client's identity.
    Identify,
    /// The session is authenticated and its capabilities are known.
    Established,
    /// Setting up the session failed; the connection is to be dropped.
    Fail(ConnectError),
}

/// The outcome of a setup operation, as far as it decides what comes next.
#[derive(Clone, Copy, Debug, PartialEq, Eq, Structural)]
pub enum SetupEvent {
    /// The server accepted the authentication.
    Accepted,
    /// The server rejected the authentication.
    Rejected,
    /// The server listed its capabilities; the flag tells whether the
    /// identification extension was among them.
    Listed(bool),
    /// The capability or identification response was missing or malformed.
    Unanswered,
    /// The server answered the identification command.
    Identified,
}

/// Whether a setup operation still waits for its outcome.
pub open spec fn pending(step: SetupStep) -> bool {
    step == SetupStep::Authenticate || step == SetupStep::ListCapabilities || step
        == SetupStep::Identify
}

/// The operation that follows `step` when its outcome is `e`.
pub open spec fn setup_next(step: SetupStep, e: SetupEvent) -> SetupStep {
    match step {
        SetupStep::Authenticate => if e == SetupEvent::Accepted {
            SetupStep::ListCapabilities
        } else {
            SetupStep::Fail(ConnectError::Auth)
        },
        SetupStep::ListCapabilities => match e {
            SetupEvent::Listed(id) => if id {
                SetupStep::Identify
            } else {
                SetupStep::Established
            },
            _ => SetupStep::Fail(ConnectError::Protocol),
        },
        SetupStep::Identify => if e == SetupEvent::Identified {
            SetupStep::Established
        } else {
            SetupStep::Fail(ConnectError::Protocol)
        },
        _ => step,
    }
}

/// Where a sequence of outcomes leads from `step`.
pub open spec fn setup_run(step: SetupStep, events: Seq<SetupEvent>) -> SetupStep
    decreases events.len(),
{
    if events.len() == 0 {
        step
    } else {
        setup_run(setup_next(step, events[0]), events.drop_first())
    }
}

/// The operations requested, in order, while the outcomes `events` come in.
pub open spec fn requests(step: SetupStep, events: Seq<SetupEvent>) -> Seq<SetupStep>
    decreases events.len(),
{
    if events.len() == 0 || !pending(step) {
        Seq::empty()
    } else {
        seq![step] + requests(setup_next(step, events[0]), events.drop_first())
    }
}

/// Turning an established connection into a session: authentication, then
/// capability discovery, then, where the server offers it, identification.
pub struct Setup {
    method: AuthMethod,
    step: SetupStep,
    record: Option<Capabilities>,
}

impl Client {
    /// Starts a password login on a ready connection, which it consumes.
    pub fn login(self) -> (r: Setup)
        requires
            self@.phase == Phase::Ready,
        ensures
            r.step_spec() == SetupStep::Authenticate,
            r.method_spec() == AuthMethod::Login,
            r.well_formed(),
    {
        Setup { method: AuthMethod::Login, step: SetupStep::Authenticate, record: None }
    }

    /// Starts a mechanism-based authentication on a ready connection, which it
    /// consumes.
    pub fn authenticate(self) -> (r: Setup)
        requires
            self@.phase == Phase::Ready,
        ensures
            r.step_spec() == SetupStep::Authenticate,
            r.method_spec() == AuthMethod::Mechanism,
            r.well_formed(),
    {
        Setup { method: AuthMethod::Mechanism, step: SetupStep::Authenticate, record: None }
    }
}

impl Setup {
    pub closed spec fn step_spec(&self) -> SetupStep {
        self.step
    }

    pub closed spec fn method_spec(&self) -> AuthMethod {
        self.method
    }

    /// The capability record gathered so far.
    pub closed spec fn record_spec(&self) -> Option<Capabilities> {
        self.record
    }

    /// Nothing is known of the capabilities before they are listed; once
    /// established, the record is complete.
    pub open spec fn well_formed(&self) -> bool {
        &&& (self.step_spec() == SetupStep::Authenticate || self.step_spec()
            == SetupStep::ListCapabilities) ==> self.record_spec() is None
        &&& self.step_spec() == SetupStep::Identify ==> self.record_spec() is Some
            && self.record_spec()->Some_0.server_id is None
        &&& self.step_spec() == SetupStep::Established ==> self.record_spec() is Some
    }

    /// The operation to perform next.
    pub fn step(&self) -> (r: SetupStep)
        ensures
            r == self.step_spec(),
    {
        self.step
    }

    /// How the client authenticates.
    pub fn method(&self) -> (r: AuthMethod)
        ensures
            r == self.method_spec(),
    {
        self.method
    }

    /// Takes the outcome of the authentication exchange.
    pub fn on_authenticated(&mut self, accepted: bool) -> (r: SetupStep)
        requires
            old(self).step_spec() == SetupStep::Authenticate,
            old(self).well_formed(),
        ensures
            r == final(self).step_spec(),
            r == setup_next(
                SetupStep::Authenticate,
                if accepted { SetupEvent::Accepted } else { SetupEvent::Rejected },
            ),
            final(self).record_spec() is None,
            final(self).method_spec() == old(self).method_spec(),
            final(self).well_formed(),
    {
        self.step = if accepted { SetupStep::ListCapabilities } else { SetupStep::Fail(ConnectError::Auth) };
        self.step
    }

    /// Takes the server's capability response, `None` where it was missing
    /// or malformed.
    pub fn on_capabilities(&mut self, caps: Option<&ServerCapabilities>) -> (r: SetupStep)
        requires
            old(self).step_spec() == SetupStep::ListCapabilities,
            old(self).well_formed(),
        ensures
            r == final(self).step_spec(),
            caps is None ==> r == SetupStep::Fail(ConnectError::Protocol)
                && final(self).record_spec() is None,
            caps is Some ==> ({
                let atoms = advertised_atoms(*caps->Some_0);
                &&& r == setup_next(SetupStep::ListCapabilities, SetupEvent::Listed(atoms.contains("ID"@)))
                &&& final(self).record_spec() == Some(record_of(atoms, None))
            }),
            final(self).method_spec() == old(self).method_spec(),
            final(self).well_formed(),
    {
        match caps {
            None => {
                self.step = SetupStep::Fail(ConnectError::Protocol);
            },
            Some(c) => {
                let identify = wants_identification(c);
                self.record = Some(Capabilities::from_server(c, None));
                self.step = if identify { SetupStep::Identify } else { SetupStep::Established };
            },
        }
        self.step
    }

    /// Takes the server's reply to the identification command, `None` where
    /// the exchange failed. What the server returned is kept as it is.
    pub fn on_identified(&mut self, reply: Option<Option<HashMap<String, String>>>) -> (r: SetupStep)
        requires
            old(self).step_spec() == SetupStep::Identify,
            old(self).well_formed(),
        ensures
            r == final(self).step_spec(),
            reply is None ==> r == SetupStep::Fail(ConnectError::Protocol),
            reply is Some ==> r == SetupStep::Established && final(self).record_spec() == Some(
                Capabilities { server_id: reply->Some_0, ..old(self).record_spec()->Some_0 },
            ),
            final(self).method_spec() == old(self).method_spec(),
            final(self).well_formed(),
    {
        match reply {
            None => {
                self.step = SetupStep::Fail(ConnectError::Protocol);
            },
            Some(server_id) => {
                let c = self.record.take().unwrap();
                self.record = Some(Capabilities { server_id, ..c });
                self.step = SetupStep::Established;
            },
        }
        self.step
    }

    /// The negotiated capabilities of an established session.
    pub fn into_capabilities(self) -> (r: Capabilities)
        requires
            self.step_spec() == SetupStep::Established,
            self.well_formed(),
        ensures
            self.record_spec() == Some(r),
    {
        self.record.unwrap()
    }
}

} // verus!

verus! {

proof fn lemma_finished_setup(step: SetupStep, events: Seq<SetupEvent>)
    requires
        !pending(step),
    ensures
        requests(step, events) == Seq::<SetupStep>::empty(),
        setup_run(step, events) == step,
    decreases events.len(),
{
    if events.len() > 0 {
        assert(setup_next(step, events[0]) == step);
        lemma_finished_setup(step, events.drop_first());
    }
}

proof fn lemma_unfold(step: SetupStep, events: Seq<SetupEvent>)
    requires
        events.len() > 0,
        pending(step),
    ensures
        requests(step, events) == seq![step] + requests(
            setup_next(step, events[0]),
            events.drop_first(),
        ),
        setup_run(step, events) == setup_run(setup_next(step, events[0]), events.drop_first()),
{
}

/// Capability discovery comes only after the server accepted the
/// authentication, as the second request, and so at most once; every session
/// that is established went through it; identification is requested only
/// after the server listed the identification extension, and then at most
/// once; a rejected authentication ends the setup with nothing more requested.
pub proof fn lemma_discovery_after_auth(events: Seq<SetupEvent>)
    ensures
        ({
            let r = requests(SetupStep::Authenticate, events);
            let end = setup_run(SetupStep::Authenticate, events);
            &&& r.len() <= 3
            &&& forall|i: int|
                0 <= i < r.len() && #[trigger] r[i] == SetupStep::ListCapabilities ==> i == 1
                    && events[0] == SetupEvent::Accepted
            &&& forall|i: int|
                0 <= i < r.len() && #[trigger] r[i] == SetupStep::Identify ==> i == 2 && events[1]
                    == SetupEvent::Listed(true)
            &&& end == SetupStep::Established ==> r.len() >= 2 && r[0] == SetupStep::Authenticate
                && r[1] == SetupStep::ListCapabilities
            &&& end == SetupStep::Established && events[1] == SetupEvent::Listed(false) ==> r
                =~= seq![SetupStep::Authenticate, SetupStep::ListCapabilities]
            &&& events.len() > 0 && events[0] != SetupEvent::Accepted ==> r =~= seq![
                SetupStep::Authenticate,
            ] && end == SetupStep::Fail(ConnectError::Auth)
        }),
{
    if events.len() > 0 {
        let d1 = events.drop_first();
        let s1 = setup_next(SetupStep::Authenticate, events[0]);
        lemma_unfold(SetupStep::Authenticate, events);
        if s1 != SetupStep::ListCapabilities {
            lemma_finished_setup(s1, d1);
        } else if d1.len() > 0 {
            assert(d1[0] == events[1]);
            let d2 = d1.drop_first();
            let s2 = setup_next(s1, d1[0]);
            lemma_unfold(s1, d1);
            if s2 != SetupStep::Identify {
                lemma_finished_setup(s2, d2);
            } else if d2.len() > 0 {
                lemma_unfold(s2, d2);
                lemma_finished_setup(setup_next(s2, d2[0]), d2.drop_first());
            }
        }
    }
}

} // verus!
