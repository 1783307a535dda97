//! The tunnel supervisor: it lays out every tunnel before anything runs, then
//! hands the tunnels out one by one and decides what follows each event.

use std::collections::VecDeque;
use vstd::prelude::*;
use crate::dispatch::{dispatch, dispatch_of, Connector, Dispatch, Listener, ReverseTunnel, Tunnel};
use crate::endpoint::{Direction, LocalToRemote, Platform, ProtocolKind};
use crate::error::ConfigError;

verus! {

/// Names a tunnel by the list its description came in and its place there.
#[derive(Clone, Copy, Debug, PartialEq, Eq, Structural)]
pub struct TunnelId {
    pub direction: Direction,
    pub index: usize,
}

/// A tunnel that is due to run.
#[derive(Clone, Debug, PartialEq, Eq)]
pub struct Planned {
    pub id: TunnelId,
    pub tunnel: Tunnel,
}

/// What is done for a description that came in the list of one direction. A
/// description of the other direction has no business there and is passed
/// over.
pub open spec fn placed(list: Direction, endpoint: LocalToRemote, platform: Platform) -> Dispatch {
    if endpoint.direction == list {
        dispatch_of(endpoint, platform)
    } else {
        Dispatch::Skip
    }
}

/// The tunnels that the descriptions of one list give, in the order of the
/// list, or the first rejection among them.
pub open spec fn plan_list(
    list: Direction,
    endpoints: Seq<LocalToRemote>,
    platform: Platform,
) -> Result<Seq<Planned>, ConfigError>
    decreases endpoints.len(),
{
    if endpoints.len() == 0 {
        Ok(Seq::empty())
    } else {
        match plan_list(list, endpoints.drop_last(), platform) {
            Err(error) => Err(error),
            Ok(earlier) => match placed(list, endpoints.last(), platform) {
                Dispatch::Rejected(error) => Err(error),
                Dispatch::Skip => Ok(earlier),
                Dispatch::Run(tunnel) => Ok(
                    earlier.push(
                        Planned {
                            id: TunnelId {
                                direction: list,
                                index: (endpoints.len() - 1) as usize,
                            },
                            tunnel,
                        },
                    ),
                ),
            },
        }
    }
}

/// The tunnels of a whole configuration: the remote-initiated ones first,
/// then the local-initiated ones, or the first rejection in that order.
pub open spec fn plan_of(
    local_to_remote: Seq<LocalToRemote>,
    remote_to_local: Seq<LocalToRemote>,
    platform: Platform,
) -> Result<Seq<Planned>, ConfigError> {
    match plan_list(Direction::RemoteInitiated, remote_to_local, platform) {
        Err(error) => Err(error),
        Ok(reverse) => match plan_list(Direction::LocalInitiated, local_to_remote, platform) {
            Err(error) => Err(error),
            Ok(forward) => Ok(reverse + forward),
        },
    }
}

/// Lays out the tunnels of one list behind those already in `queue`. On a
/// rejection the queue is of no further use.
fn plan_into(
    list: Direction,
    endpoints: Vec<LocalToRemote>,
    platform: Platform,
    queue: &mut VecDeque<Planned>,
) -> (r: Result<(), ConfigError>)
    ensures
        match plan_list(list, endpoints@, platform) {
            Ok(tunnels) => r is Ok && final(queue)@ == old(queue)@ + tunnels,
            Err(error) => r == Err::<(), ConfigError>(error),
        },
{
    let mut index: usize = 0;
    let total = endpoints.len();
    let ghost before = queue@;
    for endpoint in it: endpoints
        invariant
            index == it.index(),
            endpoints@.len() == total,
            it.seq() == endpoints@,
            plan_list(list, endpoints@.take(index as int), platform) matches Ok(tunnels)
                && queue@ == before + tunnels,
    {
        let ghost prefix = endpoints@.take(index as int);
        let ghost next = endpoints@.take(index + 1);
        assert(next.drop_last() == prefix);
        let outcome = if endpoint.direction == list {
            dispatch(endpoint, platform)
        } else {
            Dispatch::Skip
        };
        match outcome {
            Dispatch::Rejected(error) => {
                proof {
                    lemma_plan_list_fails_on(list, endpoints@, platform, index as int);
                }
                return Err(error);
            },
            Dispatch::Skip => {},
            Dispatch::Run(tunnel) => {
                queue.push_back(Planned { id: TunnelId { direction: list, index }, tunnel });
            },
        }
        index = index + 1;
    }
    assert(endpoints@.take(index as int) == endpoints@);
    Ok(())
}

/// A rejection stays: once the descriptions up to some place are rejected,
/// so is every longer list, with the same error.
proof fn lemma_plan_list_fails_on(
    list: Direction,
    endpoints: Seq<LocalToRemote>,
    platform: Platform,
    upto: int,
)
    requires
        0 <= upto < endpoints.len(),
        plan_list(list, endpoints.take(upto + 1), platform) is Err,
    ensures
        plan_list(list, endpoints, platform) == plan_list(
            list,
            endpoints.take(upto + 1),
            platform,
        ),
    decreases endpoints.len(),
{
    if upto + 1 == endpoints.len() {
        assert(endpoints.take(upto + 1) == endpoints);
    } else {
        assert(endpoints.drop_last().take(upto + 1) == endpoints.take(upto + 1));
        lemma_plan_list_fails_on(list, endpoints.drop_last(), platform, upto);
    }
}

/// What the surrounding program reports to the supervisor.
#[derive(Clone, Copy, Debug, PartialEq, Eq, Structural)]
pub enum Event {
    /// The last action is carried out; what comes next?
    Next,
    /// The listener that was asked for is bound and ready.
    ListenerReady,
    /// The listener that was asked for could not be built.
    ListenerFailed,
    /// The stdio bridge reported that it closed.
    StdioClosed,
    /// An interrupt signal arrived.
    Interrupted,
    /// The grace period is over.
    GraceElapsed,
}

/// What the supervisor asks the surrounding program to do.
#[derive(Clone, Debug, PartialEq, Eq)]
pub enum Action {
    /// Start a task that runs this reverse tunnel until it ends, then
    /// report `Next`.
    RunReverse { id: TunnelId, connector: Connector, announce: ReverseTunnel },
    /// Build this listener and report `ListenerReady` or `ListenerFailed`.
    BuildListener { id: TunnelId, listener: Listener },
    /// Start a task that runs a forward tunnel on the listener just built,
    /// then report `Next`.
    RunForward { id: TunnelId },
    /// Tell the user that this tunnel could not be started, then report
    /// `Next`.
    ReportFailure { id: TunnelId },
    /// Wait until the stdio bridge closes or an interrupt arrives, whichever
    /// comes first, and report it.
    AwaitShutdown,
    /// Wait this long, then report `GraceElapsed`.
    Sleep { millis: u64 },
    /// End the process with this status.
    Exit { status: i32 },
    /// Every tunnel is handed out; the tasks run on by themselves.
    Done,
    /// The event has no bearing on what the supervisor waits for.
    Idle,
}

/// Where the supervisor stands.
#[derive(Clone, Copy, Debug, PartialEq, Eq, Structural)]
pub enum Phase {
    /// Tunnels are handed out, one for each `Next`.
    Dispatching,
    /// A listener was asked for and its fate is not known yet.
    AwaitingListener { id: TunnelId, stdio: bool },
    /// The stdio tunnel runs; nothing else is handed out any more.
    StdioRunning,
    /// The stdio tunnel is over or an interrupt arrived; the exit is due
    /// after the grace period.
    Grace,
    /// The exit was ordered.
    Exited,
}

/// How long the stdio tunnel is given to flush and log before the process
/// ends, in milliseconds.
pub const GRACE_PERIOD_MILLIS: u64 = 1000;

/// The status with which the process ends after a stdio tunnel.
pub const EXIT_SUCCESS: i32 = 0;

/// Hands out the tunnels of a configuration and follows their start-up.
///
/// The supervisor does nothing by itself: [`Supervisor::step`] takes what
/// happened and says what to do next.
#[derive(Clone, Debug, PartialEq, Eq)]
pub struct Supervisor {
    queue: VecDeque<Planned>,
    phase: Phase,
    started: Vec<TunnelId>,
}

/// A supervisor as a plain value.
pub struct SupervisorView {
    /// The tunnels still to be handed out, next one first.
    pub queue: Seq<Planned>,
    pub phase: Phase,
    /// The tunnels for which a task was started, in that order.
    pub started: Seq<TunnelId>,
}

impl View for Supervisor {
    type V = SupervisorView;

    closed spec fn view(&self) -> SupervisorView {
        SupervisorView { queue: self.queue@, phase: self.phase, started: self.started@ }
    }
}

/// The supervisor at its start, with all its tunnels before it.
pub open spec fn initial(queue: Seq<Planned>) -> SupervisorView {
    SupervisorView { queue, phase: Phase::Dispatching, started: Seq::empty() }
}

/// Handing out the next tunnel. A reverse tunnel is started at once. For a
/// forward tunnel the listener is asked for first, and the supervisor waits
/// for its fate.
pub open spec fn hand_out(s: SupervisorView) -> (SupervisorView, Action) {
    if s.queue.len() == 0 {
        (s, Action::Done)
    } else {
        let id = s.queue[0].id;
        let rest = s.queue.skip(1);
        match s.queue[0].tunnel {
            Tunnel::Reverse { connector, announce } => (
                SupervisorView {
                    queue: rest,
                    phase: Phase::Dispatching,
                    started: s.started.push(id),
                },
                Action::RunReverse { id, connector, announce },
            ),
            Tunnel::Forward { listener } => (
                SupervisorView {
                    queue: rest,
                    phase: Phase::AwaitingListener {
                        id,
                        stdio: listener.spec_kind() == ProtocolKind::Stdio,
                    },
                    started: s.started,
                },
                Action::BuildListener { id, listener },
            ),
        }
    }
}

/// The state that follows an event, and the action that answers it.
pub open spec fn step_of(s: SupervisorView, event: Event) -> (SupervisorView, Action) {
    match s.phase {
        Phase::Dispatching => match event {
            Event::Next => hand_out(s),
            _ => (s, Action::Idle),
        },
        Phase::AwaitingListener { id, stdio } => match event {
            Event::ListenerReady => (
                SupervisorView {
                    queue: s.queue,
                    phase: if stdio {
                        Phase::StdioRunning
                    } else {
                        Phase::Dispatching
                    },
                    started: s.started.push(id),
                },
                Action::RunForward { id },
            ),
            Event::ListenerFailed => (
                SupervisorView { queue: s.queue, phase: Phase::Dispatching, started: s.started },
                Action::ReportFailure { id },
            ),
            _ => (s, Action::Idle),
        },
        Phase::StdioRunning => match event {
            Event::Next => (s, Action::AwaitShutdown),
            Event::StdioClosed | Event::Interrupted => (
                SupervisorView { queue: s.queue, phase: Phase::Grace, started: s.started },
                Action::Sleep { millis: GRACE_PERIOD_MILLIS },
            ),
            _ => (s, Action::Idle),
        },
        Phase::Grace => match event {
            Event::GraceElapsed => (
                SupervisorView { queue: s.queue, phase: Phase::Exited, started: s.started },
                Action::Exit { status: EXIT_SUCCESS },
            ),
            _ => (s, Action::Idle),
        },
        Phase::Exited => (s, Action::Exit { status: EXIT_SUCCESS }),
    }
}

impl Supervisor {
    /// Lays out every tunnel of a configuration. Nothing is started: a
    /// description that the platform cannot serve fails the whole
    /// configuration here, before any tunnel runs.
    pub fn new(
        local_to_remote: Vec<LocalToRemote>,
        remote_to_local: Vec<LocalToRemote>,
        platform: Platform,
    ) -> (r: Result<Supervisor, ConfigError>)
        ensures
            match plan_of(local_to_remote@, remote_to_local@, platform) {
                Ok(queue) => r matches Ok(supervisor) && supervisor@ == initial(queue),
                Err(error) => r matches Err(e) && e == error,
            },
    {
        let mut queue: VecDeque<Planned> = VecDeque::new();
        match plan_into(Direction::RemoteInitiated, remote_to_local, platform, &mut queue) {
            Err(error) => { return Err(error); },
            Ok(()) => {},
        }
        match plan_into(Direction::LocalInitiated, local_to_remote, platform, &mut queue) {
            Err(error) => { return Err(error); },
            Ok(()) => {},
        }
        Ok(Supervisor { queue, phase: Phase::Dispatching, started: Vec::new() })
    }

    /// Where the supervisor stands.
    pub fn phase(&self) -> (r: Phase)
        ensures
            r == self@.phase,
    {
        self.phase
    }

    /// The number of tunnels that are still to be handed out.
    pub fn pending(&self) -> (r: usize)
        ensures
            r == self@.queue.len(),
    {
        self.queue.len()
    }

    /// The tunnels for which a task was started so far, in that order.
    pub fn started(&self) -> (r: &Vec<TunnelId>)
        ensures
            r@ == self@.started,
    {
        &self.started
    }

    /// Takes what happened and says what to do next.
    pub fn step(self, event: Event) -> (r: (Supervisor, Action))
        ensures
            r.0@ == step_of(self@, event).0,
            r.1 == step_of(self@, event).1,
    {
        let Supervisor { mut queue, phase, mut started } = self;
        match phase {
            Phase::Dispatching => match event {
                Event::Next => match queue.pop_front() {
                    None => (Supervisor { queue, phase, started }, Action::Done),
                    Some(planned) => {
                        let Planned { id, tunnel } = planned;
                        match tunnel {
                            Tunnel::Reverse { connector, announce } => {
                                started.push(id);
                                (
                                    Supervisor { queue, phase: Phase::Dispatching, started },
                                    Action::RunReverse { id, connector, announce },
                                )
                            },
                            Tunnel::Forward { listener } => {
                                let stdio = listener.kind() == ProtocolKind::Stdio;
                                (
                                    Supervisor {
                                        queue,
                                        phase: Phase::AwaitingListener { id, stdio },
                                        started,
                                    },
                                    Action::BuildListener { id, listener },
                                )
                            },
                        }
                    },
                },
                _ => (Supervisor { queue, phase, started }, Action::Idle),
            },
            Phase::AwaitingListener { id, stdio } => match event {
                Event::ListenerReady => {
                    started.push(id);
                    let phase = if stdio {
                        Phase::StdioRunning
                    } else {
                        Phase::Dispatching
                    };
                    (Supervisor { queue, phase, started }, Action::RunForward { id })
                },
                Event::ListenerFailed => (
                    Supervisor { queue, phase: Phase::Dispatching, started },
                    Action::ReportFailure { id },
                ),
                _ => (Supervisor { queue, phase, started }, Action::Idle),
            },
            Phase::StdioRunning => match event {
                Event::Next => (Supervisor { queue, phase, started }, Action::AwaitShutdown),
                Event::StdioClosed | Event::Interrupted => (
                    Supervisor { queue, phase: Phase::Grace, started },
                    Action::Sleep { millis: GRACE_PERIOD_MILLIS },
                ),
                _ => (Supervisor { queue, phase, started }, Action::Idle),
            },
            Phase::Grace => match event {
                Event::GraceElapsed => (
                    Supervisor { queue, phase: Phase::Exited, started },
                    Action::Exit { status: EXIT_SUCCESS },
                ),
                _ => (Supervisor { queue, phase, started }, Action::Idle),
            },
            Phase::Exited => (
                Supervisor { queue, phase, started },
                Action::Exit { status: EXIT_SUCCESS },
            ),
        }
    }
}

/// What a planned tunnel is handed out as: a reverse tunnel to run, or a
/// listener to build.
pub open spec fn offer(planned: Planned) -> Action {
    match planned.tunnel {
        Tunnel::Reverse { connector, announce } => Action::RunReverse {
            id: planned.id,
            connector,
            announce,
        },
        Tunnel::Forward { listener } => Action::BuildListener { id: planned.id, listener },
    }
}

/// The tunnel bridges the standard input and output of the process.
pub open spec fn is_stdio(planned: Planned) -> bool {
    planned.tunnel matches Tunnel::Forward { listener } && listener.spec_kind()
        == ProtocolKind::Stdio
}

/// The actions of a whole start-up, from a supervisor that is handing out
/// tunnels, where `binds` tells of each tunnel whether its listener can be
/// built. The start-up is over when every tunnel is handed out or a stdio
/// tunnel runs.
pub open spec fn startup(s: SupervisorView, binds: spec_fn(TunnelId) -> bool) -> Seq<Action>
    decreases s.queue.len(),
{
    let (asked, first) = step_of(s, Event::Next);
    match first {
        Action::RunReverse { .. } => seq![first] + startup(asked, binds),
        Action::BuildListener { id, .. } => {
            let event = if binds(id) {
                Event::ListenerReady
            } else {
                Event::ListenerFailed
            };
            let (answered, second) = step_of(asked, event);
            seq![first, second] + (if answered.phase == Phase::Dispatching {
                startup(answered, binds)
            } else {
                Seq::empty()
            })
        },
        _ => seq![first],
    }
}

/// A list is rejected exactly when one of its descriptions is, and the error
/// is that of the first such description.
pub proof fn lemma_plan_list_rejects(
    list: Direction,
    endpoints: Seq<LocalToRemote>,
    platform: Platform,
)
    ensures
        match plan_list(list, endpoints, platform) {
            Ok(_) => forall|i: int|
                0 <= i < endpoints.len() ==> !(#[trigger] placed(list, endpoints[i], platform)
                    is Rejected),
            Err(error) => exists|i: int|
                {
                    &&& 0 <= i < endpoints.len()
                    &&& #[trigger] placed(list, endpoints[i], platform) == Dispatch::Rejected(
                        error,
                    )
                    &&& forall|j: int|
                        0 <= j < i ==> !(#[trigger] placed(list, endpoints[j], platform)
                            is Rejected)
                },
        },
    decreases endpoints.len(),
{
    if endpoints.len() > 0 {
        let earlier = endpoints.drop_last();
        lemma_plan_list_rejects(list, earlier, platform);
        assert forall|i: int| 0 <= i < earlier.len() implies earlier[i] == endpoints[i] by {}
    }
}

/// Of a list that is not rejected, every description that can run is planned
/// exactly once, and nothing else is: the planned tunnels are those of the
/// descriptions that run, in the order of the list, each named by the place
/// of its description.
pub proof fn lemma_plan_list_one_tunnel_each(
    list: Direction,
    endpoints: Seq<LocalToRemote>,
    platform: Platform,
)
    requires
        endpoints.len() <= usize::MAX,
    ensures
        plan_list(list, endpoints, platform) matches Ok(queue) ==> {
            &&& queue.len() <= endpoints.len()
            &&& forall|k: int|
                0 <= k < queue.len() ==> {
                    &&& (#[trigger] queue[k]).id.direction == list
                    &&& queue[k].id.index < endpoints.len()
                    &&& placed(list, endpoints[queue[k].id.index as int], platform)
                        == Dispatch::Run(queue[k].tunnel)
                }
            &&& forall|j: int, k: int|
                0 <= j < k < queue.len() ==> (#[trigger] queue[j]).id.index < (
                #[trigger] queue[k]).id.index
            &&& forall|i: int|
                0 <= i < endpoints.len() && (#[trigger] placed(list, endpoints[i], platform)
                    is Run) ==> exists|k: int|
                    0 <= k < queue.len() && (#[trigger] queue[k]).id.index == i
        },
    decreases endpoints.len(),
{
    if endpoints.len() > 0 {
        let earlier = endpoints.drop_last();
        let last = endpoints.len() - 1;
        lemma_plan_list_one_tunnel_each(list, earlier, platform);
        assert forall|i: int| 0 <= i < earlier.len() implies earlier[i] == endpoints[i] by {}
        if let Ok(queue) = plan_list(list, endpoints, platform) {
            let before = plan_list(list, earlier, platform)->Ok_0;
            assert forall|i: int|
                0 <= i < endpoints.len() && (#[trigger] placed(list, endpoints[i], platform)
                    is Run) implies exists|k: int|
                0 <= k < queue.len() && (#[trigger] queue[k]).id.index == i by {
                if i < last {
                    let k = choose|k: int|
                        0 <= k < before.len() && (#[trigger] before[k]).id.index == i;
                    assert(queue[k] == before[k]);
                } else {
                    assert(queue[queue.len() - 1].id.index == i);
                }
            }
        }
    }
}

/// A configuration is rejected exactly when one of its descriptions is. No
/// supervisor exists for such a configuration, so none of its tunnels is
/// ever handed out.
pub proof fn lemma_rejected_before_any_task(
    local_to_remote: Seq<LocalToRemote>,
    remote_to_local: Seq<LocalToRemote>,
    platform: Platform,
)
    ensures
        plan_of(local_to_remote, remote_to_local, platform) is Err <==> {
            ||| exists|i: int|
                0 <= i < remote_to_local.len() && #[trigger] placed(
                    Direction::RemoteInitiated,
                    remote_to_local[i],
                    platform,
                ) is Rejected
            ||| exists|i: int|
                0 <= i < local_to_remote.len() && #[trigger] placed(
                    Direction::LocalInitiated,
                    local_to_remote[i],
                    platform,
                ) is Rejected
        },
{
    lemma_plan_list_rejects(Direction::RemoteInitiated, remote_to_local, platform);
    lemma_plan_list_rejects(Direction::LocalInitiated, local_to_remote, platform);
}

/// A listener that cannot be built costs its own tunnel and nothing else.
/// The failure is reported, no task is started for it, and the supervisor
/// goes on handing out from the very queue it would have gone on with, had
/// the listener been built.
pub proof fn lemma_listener_failure_is_contained(s: SupervisorView, id: TunnelId, stdio: bool)
    requires
        s.phase == (Phase::AwaitingListener { id, stdio }),
    ensures
        step_of(s, Event::ListenerFailed) == (
            SupervisorView { queue: s.queue, phase: Phase::Dispatching, started: s.started },
            Action::ReportFailure { id },
        ),
        step_of(s, Event::ListenerReady).1 == (Action::RunForward { id }),
        step_of(s, Event::ListenerReady).0.queue == s.queue,
        step_of(s, Event::ListenerReady).0.started == s.started.push(id),
        !stdio ==> step_of(s, Event::ListenerReady).0.phase == Phase::Dispatching,
{
}

/// Whatever listeners fail, every tunnel is handed out all the same, as long
/// as no stdio tunnel before it got to run: its reverse tunnel is started or
/// its listener is asked for.
pub proof fn lemma_startup_reaches_every_tunnel(
    s: SupervisorView,
    binds: spec_fn(TunnelId) -> bool,
    k: int,
)
    requires
        s.phase == Phase::Dispatching,
        0 <= k < s.queue.len(),
        forall|j: int| 0 <= j < k ==> !(is_stdio(#[trigger] s.queue[j]) && binds(s.queue[j].id)),
    ensures
        startup(s, binds).contains(offer(s.queue[k])),
    decreases k,
{
    let (asked, first) = step_of(s, Event::Next);
    if k == 0 {
        assert(startup(s, binds)[0] == offer(s.queue[0]));
    } else {
        let next = match first {
            Action::BuildListener { id, .. } => step_of(
                asked,
                if binds(id) {
                    Event::ListenerReady
                } else {
                    Event::ListenerFailed
                },
            ).0,
            _ => asked,
        };
        let lead = match first {
            Action::BuildListener { id, .. } => seq![
                first,
                step_of(
                    asked,
                    if binds(id) {
                        Event::ListenerReady
                    } else {
                        Event::ListenerFailed
                    },
                ).1,
            ],
            _ => seq![first],
        };
        lemma_startup_reaches_every_tunnel(next, binds, k - 1);
        let rest = startup(next, binds);
        let at = choose|at: int| 0 <= at < rest.len() && rest[at] == offer(s.queue[k]);
        assert((lead + rest)[lead.len() + at] == offer(s.queue[k]));
    }
}

/// The tunnels that a run of actions hands out, in their order: those whose
/// reverse tunnel it starts and those whose listener it asks for.
pub open spec fn handed_out(actions: Seq<Action>) -> Seq<TunnelId>
    decreases actions.len(),
{
    if actions.len() == 0 {
        Seq::empty()
    } else {
        let later = handed_out(actions.skip(1));
        match actions[0] {
            Action::RunReverse { id, .. } => seq![id] + later,
            Action::BuildListener { id, .. } => seq![id] + later,
            _ => later,
        }
    }
}

/// How many tunnels of a queue a start-up gets to: all of them, or those up
/// to the first stdio tunnel whose listener can be built, that one included.
pub open spec fn reach(queue: Seq<Planned>, binds: spec_fn(TunnelId) -> bool) -> nat
    decreases queue.len(),
{
    if queue.len() == 0 {
        0
    } else if is_stdio(queue[0]) && binds(queue[0].id) {
        1
    } else {
        1 + reach(queue.skip(1), binds)
    }
}

/// The names of the tunnels of a queue, in their order.
pub open spec fn ids(queue: Seq<Planned>) -> Seq<TunnelId> {
    queue.map_values(|planned: Planned| planned.id)
}

/// A start-up hands out the tunnels of its queue in their order, each one
/// once, whatever listeners fail: all of them, or those up to the first
/// stdio tunnel that gets to run.
pub proof fn lemma_startup_hands_out_each_tunnel_once(
    s: SupervisorView,
    binds: spec_fn(TunnelId) -> bool,
)
    requires
        s.phase == Phase::Dispatching,
    ensures
        reach(s.queue, binds) <= s.queue.len(),
        handed_out(startup(s, binds)) == ids(s.queue.take(reach(s.queue, binds) as int)),
    decreases s.queue.len(),
{
    reveal_with_fuel(handed_out, 3);
    let (asked, first) = step_of(s, Event::Next);
    if s.queue.len() > 0 {
        match first {
            Action::RunReverse { .. } => {
                lemma_startup_hands_out_each_tunnel_once(asked, binds);
                let tail = startup(asked, binds);
                assert((seq![first] + tail).skip(1) == tail);
            },
            Action::BuildListener { id, .. } => {
                let event = if binds(id) {
                    Event::ListenerReady
                } else {
                    Event::ListenerFailed
                };
                let (answered, second) = step_of(asked, event);
                let tail = if answered.phase == Phase::Dispatching {
                    startup(answered, binds)
                } else {
                    Seq::empty()
                };
                assert((seq![first, second] + tail).skip(1) == seq![second] + tail);
                assert((seq![second] + tail).skip(1) == tail);
                if answered.phase == Phase::Dispatching {
                    lemma_startup_hands_out_each_tunnel_once(answered, binds);
                }
            },
            _ => {},
        }
    }
}

/// No two tunnels of a configuration share a name: each description gives
/// at most one tunnel, named by its list and its place there.
pub proof fn lemma_planned_names_differ(
    local_to_remote: Seq<LocalToRemote>,
    remote_to_local: Seq<LocalToRemote>,
    platform: Platform,
)
    requires
        local_to_remote.len() <= usize::MAX,
        remote_to_local.len() <= usize::MAX,
    ensures
        plan_of(local_to_remote, remote_to_local, platform) matches Ok(queue) ==> forall|
            j: int,
            k: int,
        |
            0 <= j < k < queue.len() ==> (#[trigger] queue[j]).id != (#[trigger] queue[k]).id,
{
    lemma_plan_list_one_tunnel_each(Direction::RemoteInitiated, remote_to_local, platform);
    lemma_plan_list_one_tunnel_each(Direction::LocalInitiated, local_to_remote, platform);
}

/// Once the stdio tunnel runs, its closing and an interrupt do the same
/// thing, whichever comes first: the grace period is ordered, and when it is
/// over the process is told to exit with success. What arrives during the
/// grace period changes nothing.
pub proof fn lemma_stdio_ends_the_process(s: SupervisorView, event: Event)
    requires
        s.phase == Phase::StdioRunning,
        event == Event::StdioClosed || event == Event::Interrupted,
    ensures
        ({
            let grace = SupervisorView { queue: s.queue, phase: Phase::Grace, started: s.started };
            let exited = SupervisorView {
                queue: s.queue,
                phase: Phase::Exited,
                started: s.started,
            };
            &&& step_of(s, event) == (grace, Action::Sleep { millis: GRACE_PERIOD_MILLIS })
            &&& step_of(grace, Event::GraceElapsed) == (
                exited,
                Action::Exit { status: EXIT_SUCCESS },
            )
            &&& forall|other: Event|
                other != Event::GraceElapsed ==> #[trigger] step_of(grace, other) == (
                    grace,
                    Action::Idle,
                )
        }),
        GRACE_PERIOD_MILLIS == 1000,
        EXIT_SUCCESS == 0,
{
}

/// A stdio tunnel has the process to itself from the moment it runs: the
/// supervisor hands out no further tunnel and starts no further task, and
/// what is left in its queue stays there.
pub proof fn lemma_stdio_holds_back_the_rest(s: SupervisorView, event: Event)
    requires
        s.phase == Phase::StdioRunning || s.phase == Phase::Grace || s.phase == Phase::Exited,
    ensures
        ({
            let (next, action) = step_of(s, event);
            &&& next.queue == s.queue
            &&& next.started == s.started
            &&& next.phase == Phase::StdioRunning || next.phase == Phase::Grace || next.phase
                == Phase::Exited
            &&& action is AwaitShutdown || action is Sleep || action is Exit || action is Idle
        }),
{
}

/// The process is told to exit on one path only: a stdio tunnel ran, it
/// closed or an interrupt arrived, and the grace period went by. Nothing
/// else that happens to a tunnel ends the process.
pub proof fn lemma_exit_only_after_stdio(s: SupervisorView, event: Event)
    ensures
        ({
            let (next, action) = step_of(s, event);
            &&& action is Exit ==> {
                ||| s.phase == Phase::Grace && event == Event::GraceElapsed
                ||| s.phase == Phase::Exited
            }
            &&& action is Exit ==> action == (Action::Exit { status: EXIT_SUCCESS })
            &&& next.phase == Phase::Exited ==> s.phase == Phase::Grace || s.phase == Phase::Exited
            &&& next.phase == Phase::Grace ==> s.phase == Phase::StdioRunning || s.phase
                == Phase::Grace
            &&& next.phase == Phase::StdioRunning ==> {
                ||| s.phase == Phase::StdioRunning
                ||| s.phase matches Phase::AwaitingListener { stdio, .. } && stdio && event
                    == Event::ListenerReady
            }
        }),
{
}

} // verus!
