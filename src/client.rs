use vstd::prelude::*;

use crate::error::ConnectError;
use crate::transport::{path_for, plan, plan_len, plan_step, select_path, uses_tls, SecurityMode, Step, TransportPath};

verus! {

/// The result of the operation the connection asked for last.
#[derive(Clone, Copy, Debug, PartialEq, Eq, Structural)]
pub enum Event {
    /// The transport opened, the TLS handshake finished or the greeting was read.
    Completed,
    /// The operation failed, or its response was missing or malformed.
    Failed,
    /// The tagged response to a command, with its status.
    Reply(ReplyStatus),
}

/// The status of a tagged command response.
#[derive(Clone, Copy, Debug, PartialEq, Eq, Structural)]
pub enum ReplyStatus {
    /// `OK`: the command succeeded.
    Okay,
    /// `NO`: the server refused the command.
    No,
    /// `BAD`: the server did not accept the command as valid.
    Bad,
}

/// Where a connection attempt stands.
#[derive(Clone, Copy, Debug, PartialEq, Eq, Structural)]
pub enum Phase {
    /// An operation of the plan is still to be performed.
    Running,
    /// Every operation of the plan succeeded.
    Ready,
    /// An operation failed with this error.
    Failed(ConnectError),
}

/// The abstract state of a connection attempt.
pub struct ClientState {
    pub path: TransportPath,
    pub strict_tls: bool,
    /// How many operations of the plan have completed.
    pub pos: nat,
    /// Whether the stream is TLS-wrapped.
    pub tls: bool,
    pub phase: Phase,
}

/// The state in which an attempt along `path` starts.
pub open spec fn initial(path: TransportPath, strict_tls: bool) -> ClientState {
    ClientState { path, strict_tls, pos: 0, tls: false, phase: Phase::Running }
}

/// Whether `e` is the successful outcome of `step`.
pub open spec fn accepts(step: Step, e: Event) -> bool {
    match step {
        Step::SendStartTls => e == Event::Reply(ReplyStatus::Okay),
        _ => e == Event::Completed,
    }
}

/// The error with which a failed `step` aborts the attempt.
pub open spec fn error_of(step: Step) -> ConnectError {
    match step {
        Step::OpenTcp | Step::OpenTunnel => ConnectError::Connect,
        Step::WrapTls => ConnectError::Tls,
        Step::SendStartTls => ConnectError::Upgrade,
        _ => ConnectError::Protocol,
    }
}

/// The operation a state asks for.
pub open spec fn current_step(s: ClientState) -> Step {
    match s.phase {
        Phase::Running => plan(s.path)[s.pos as int],
        Phase::Ready => Step::Ready,
        Phase::Failed(e) => Step::Fail(e),
    }
}

/// The state after event `e`. A finished attempt ignores further events.
pub open spec fn next(s: ClientState, e: Event) -> ClientState {
    if s.phase != Phase::Running {
        s
    } else {
        let step = plan(s.path)[s.pos as int];
        if accepts(step, e) {
            let pos = s.pos + 1;
            ClientState {
                pos,
                tls: s.tls || step == Step::WrapTls,
                phase: if pos == plan(s.path).len() { Phase::Ready } else { Phase::Running },
                ..s
            }
        } else {
            ClientState { phase: Phase::Failed(error_of(step)), ..s }
        }
    }
}

/// The state after a sequence of events.
pub open spec fn run(s: ClientState, events: Seq<Event>) -> ClientState
    decreases events.len(),
{
    if events.len() == 0 {
        s
    } else {
        run(next(s, events[0]), events.drop_first())
    }
}

/// The operations performed so far: the completed ones, and the one that failed.
pub open spec fn performed(s: ClientState) -> Seq<Step> {
    match s.phase {
        Phase::Failed(_) => plan(s.path).take(s.pos as int + 1),
        _ => plan(s.path).take(s.pos as int),
    }
}

/// The states reachable from an initial state.
pub open spec fn well_formed(s: ClientState) -> bool {
    &&& s.pos <= plan(s.path).len()
    &&& s.phase == Phase::Running ==> s.pos < plan(s.path).len()
    &&& s.phase == Phase::Ready ==> s.pos == plan(s.path).len()
    &&& s.phase is Failed ==> s.pos < plan(s.path).len() && s.phase->Failed_0 == error_of(
        plan(s.path)[s.pos as int],
    )
    &&& s.tls == plan(s.path).take(s.pos as int).contains(Step::WrapTls)
}

/// A connection attempt: it names the operation to perform next and takes the
/// outcome of each, until the connection is ready or has failed.
pub struct Client {
    path: TransportPath,
    strict_tls: bool,
    pos: usize,
    tls: bool,
    phase: Phase,
}

impl View for Client {
    type V = ClientState;

    closed spec fn view(&self) -> ClientState {
        ClientState {
            path: self.path,
            strict_tls: self.strict_tls,
            pos: self.pos as nat,
            tls: self.tls,
            phase: self.phase,
        }
    }
}

proof fn lemma_take_push(s: Seq<Step>, n: int)
    requires
        0 <= n < s.len(),
    ensures
        s.take(n + 1) == s.take(n).push(s[n]),
        s.take(n + 1).contains(Step::WrapTls) == (s.take(n).contains(Step::WrapTls) || s[n]
            == Step::WrapTls),
{
    assert(s.take(n + 1) =~= s.take(n).push(s[n]));
    if s.take(n).contains(Step::WrapTls) {
        let i = choose|i: int| 0 <= i < n && #[trigger] s.take(n)[i] == Step::WrapTls;
        assert(s.take(n + 1)[i] == Step::WrapTls);
    }
    if s[n] == Step::WrapTls {
        assert(s.take(n + 1)[n] == Step::WrapTls);
    }
    if s.take(n + 1).contains(Step::WrapTls) {
        let i = choose|i: int| 0 <= i < n + 1 && #[trigger] s.take(n + 1)[i] == Step::WrapTls;
        if i < n {
            assert(s.take(n)[i] == Step::WrapTls);
        }
    }
}

/// Every event keeps a connection attempt well formed.
pub proof fn lemma_next_well_formed(s: ClientState, e: Event)
    requires
        well_formed(s),
    ensures
        well_formed(next(s, e)),
{
    if s.phase == Phase::Running {
        lemma_take_push(plan(s.path), s.pos as int);
    }
}

impl Client {
    /// Starts a connection attempt. The security mode and whether a proxy is
    /// configured select the transport path; `strict_tls` is passed on to the
    /// proxy tunnel and to the TLS handshake. An unresolved security mode is a
    /// configuration error.
    pub fn connect(strict_tls: bool, proxy: bool, security: SecurityMode) -> (r: Result<
        Client,
        ConnectError,
    >)
        ensures
            security == SecurityMode::Automatic ==> r == Err::<Client, ConnectError>(
                ConnectError::Configuration,
            ),
            security != SecurityMode::Automatic ==> r is Ok && r->Ok_0@ == initial(
                path_for(security, proxy)->Some_0,
                strict_tls,
            ) && r->Ok_0.well_formed(),
    {
        proof {
            assert(plan(path_for(security, proxy)->Some_0).take(0) =~= Seq::<Step>::empty());
        }
        match select_path(security, proxy) {
            Ok(path) => Ok(Client { path, strict_tls, pos: 0, tls: false, phase: Phase::Running }),
            Err(e) => Err(e),
        }
    }

    /// The attempt is in a state that `connect` and `advance` can reach.
    pub closed spec fn well_formed(&self) -> bool {
        well_formed(self@)
    }

    /// The transport path this attempt follows.
    pub fn path(&self) -> (r: TransportPath)
        ensures
            r == self@.path,
    {
        self.path
    }

    /// Whether certificates and host names are checked strictly.
    pub fn strict_tls(&self) -> (r: bool)
        ensures
            r == self@.strict_tls,
    {
        self.strict_tls
    }

    /// Whether the stream is TLS-wrapped by now.
    pub fn is_tls(&self) -> (r: bool)
        ensures
            r == self@.tls,
    {
        self.tls
    }

    /// Whether the connection is established and may be authenticated.
    pub fn is_ready(&self) -> (r: bool)
        ensures
            r == (self@.phase == Phase::Ready),
    {
        self.phase == Phase::Ready
    }

    /// The operation to perform next.
    pub fn step(&self) -> (r: Step)
        requires
            self.well_formed(),
        ensures
            r == current_step(self@),
    {
        match self.phase {
            Phase::Running => plan_step(self.path, self.pos),
            Phase::Ready => Step::Ready,
            Phase::Failed(e) => Step::Fail(e),
        }
    }

    /// Takes the outcome of the operation asked for last and returns the next one.
    pub fn advance(&mut self, event: Event) -> (r: Step)
        requires
            old(self).well_formed(),
        ensures
            final(self)@ == next(old(self)@, event),
            final(self).well_formed(),
            r == current_step(final(self)@),
    {
        proof {
            lemma_next_well_formed(self@, event);
        }
        if self.phase == Phase::Running {
            let step = plan_step(self.path, self.pos);
            let ok = match step {
                Step::SendStartTls => event == Event::Reply(ReplyStatus::Okay),
                _ => event == Event::Completed,
            };
            if ok {
                self.pos = self.pos + 1;
                if step == Step::WrapTls {
                    self.tls = true;
                }
                if self.pos == plan_len(self.path) {
                    self.phase = Phase::Ready;
                }
            } else {
                let e = match step {
                    Step::OpenTcp | Step::OpenTunnel => ConnectError::Connect,
                    Step::WrapTls => ConnectError::Tls,
                    Step::SendStartTls => ConnectError::Upgrade,
                    _ => ConnectError::Protocol,
                };
                self.phase = Phase::Failed(e);
            }
        }
        self.step()
    }
}

} // verus!

verus! {

/// Every sequence of events keeps a connection attempt well formed.
pub proof fn lemma_run_well_formed(s: ClientState, events: Seq<Event>)
    requires
        well_formed(s),
    ensures
        well_formed(run(s, events)),
    decreases events.len(),
{
    if events.len() > 0 {
        lemma_next_well_formed(s, events[0]);
        lemma_run_well_formed(next(s, events[0]), events.drop_first());
    }
}

/// A finished attempt, ready or failed, stays as it is whatever events follow.
pub proof fn lemma_finished_is_final(s: ClientState, events: Seq<Event>)
    requires
        s.phase != Phase::Running,
    ensures
        run(s, events) == s,
    decreases events.len(),
{
    if events.len() > 0 {
        lemma_finished_is_final(next(s, events[0]), events.drop_first());
    }
}

/// Once the stream is TLS-wrapped it is never cleartext again, whatever
/// events follow.
pub proof fn lemma_tls_never_unwrapped(s: ClientState, events: Seq<Event>)
    requires
        s.tls,
    ensures
        run(s, events).tls,
    decreases events.len(),
{
    if events.len() > 0 {
        lemma_tls_never_unwrapped(next(s, events[0]), events.drop_first());
    }
}

/// Whatever the events, an attempt started by `connect` follows the path that
/// the table selects, and once ready it has performed that path's whole plan
/// and its stream is TLS-wrapped exactly on the paths of the TLS modes.
pub proof fn lemma_ready_matches_path(
    mode: SecurityMode,
    proxy: bool,
    strict_tls: bool,
    events: Seq<Event>,
)
    requires
        mode != SecurityMode::Automatic,
    ensures
        ({
            let path = path_for(mode, proxy)->Some_0;
            let s = run(initial(path, strict_tls), events);
            &&& s.path == path
            &&& s.strict_tls == strict_tls
            &&& s.phase == Phase::Ready ==> performed(s) == plan(path) && s.tls == uses_tls(
                path,
            )
        }),
{
    let path = path_for(mode, proxy)->Some_0;
    let s0 = initial(path, strict_tls);
    assert(plan(path).take(0) =~= Seq::<Step>::empty());
    lemma_run_well_formed(s0, events);
    lemma_run_keeps_path(s0, events);
    let s = run(s0, events);
    crate::transport::lemma_plan_order(path);
    if s.phase == Phase::Ready {
        assert(plan(path).take(plan(path).len() as int) =~= plan(path));
    }
}

proof fn lemma_run_keeps_path(s: ClientState, events: Seq<Event>)
    ensures
        run(s, events).path == s.path,
        run(s, events).strict_tls == s.strict_tls,
    decreases events.len(),
{
    if events.len() > 0 {
        lemma_run_keeps_path(next(s, events[0]), events.drop_first());
    }
}

/// Fail-closed upgrade: when the response to STARTTLS is anything but a
/// positive one, the attempt fails with an upgrade error and never becomes
/// ready, whatever events follow.
pub proof fn lemma_upgrade_fail_closed(s: ClientState, e: Event, rest: Seq<Event>)
    requires
        well_formed(s),
        current_step(s) == Step::SendStartTls,
        e != Event::Reply(ReplyStatus::Okay),
    ensures
        run(next(s, e), rest).phase == Phase::Failed(ConnectError::Upgrade),
        run(next(s, e), rest).tls == s.tls,
{
    lemma_finished_is_final(next(s, e), rest);
}

/// The successful outcome of each operation of a plan.
pub open spec fn successes(path: TransportPath) -> Seq<Event> {
    plan(path).map_values(
        |st: Step|
            if st == Step::SendStartTls {
                Event::Reply(ReplyStatus::Okay)
            } else {
                Event::Completed
            },
    )
}

/// When every operation succeeds, the attempt ends ready after performing
/// its whole plan, TLS-wrapped exactly on the paths of the TLS modes.
pub proof fn lemma_all_succeed_is_ready(path: TransportPath, strict_tls: bool)
    ensures
        run(initial(path, strict_tls), successes(path)).phase == Phase::Ready,
        run(initial(path, strict_tls), successes(path)).tls == uses_tls(path),
        performed(run(initial(path, strict_tls), successes(path))) == plan(path),
{
    reveal_with_fuel(run, 5);
    let s0 = initial(path, strict_tls);
    let ev = successes(path);
    let p = plan(path);
    assert(p.take(p.len() as int) =~= p);
    assert(p.take(0) =~= Seq::<Step>::empty());
    lemma_run_well_formed(s0, ev);
    crate::transport::lemma_plan_order(path);
    let s1 = next(s0, ev[0]);
    let s2 = next(s1, ev[1]);
    assert(ev.drop_first()[0] == ev[1]);
    assert(s2.pos == 2);
    if p.len() > 2 {
        let s3 = next(s2, ev[2]);
        assert(ev.drop_first().drop_first()[0] == ev[2]);
        assert(s3.pos == 3);
        if p.len() > 3 {
            assert(ev.drop_first().drop_first().drop_first()[0] == ev[3]);
            assert(next(s3, ev[3]).pos == 4);
        }
    }
}

/// When the transport cannot be opened the attempt fails with a connect
/// error, performs nothing else, and stays failed whatever events follow.
pub proof fn lemma_open_failure_is_connect_error(
    path: TransportPath,
    strict_tls: bool,
    e: Event,
    rest: Seq<Event>,
)
    requires
        e != Event::Completed,
    ensures
        run(next(initial(path, strict_tls), e), rest).phase == Phase::Failed(ConnectError::Connect),
        performed(run(next(initial(path, strict_tls), e), rest)) == plan(path).take(1),
{
    crate::transport::lemma_plan_order(path);
    lemma_finished_is_final(next(initial(path, strict_tls), e), rest);
}

} // verus!
