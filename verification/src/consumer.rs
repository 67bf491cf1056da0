//! The consume-dispatch-commit loop, as a state machine: the surrounding
//! process pulls from the broker, runs handlers and sends commits, and feeds
//! every result back as an event; this machine decides, per event, what to do
//! next. Per message it routes the decoded kind to a handler, absorbs decode
//! failures, unknown kinds and handler failures without stalling, and only
//! then requests the commit — so a commit is never issued for a message whose
//! routing has not resolved, and the committed offset never moves backwards.

use vstd::prelude::*;

use crate::registry::{lookup, HandlerKind, HandlerRegistry};
use crate::wire::{decode_kind, json_parses, str_field_of, Decoded};

verus! {

/// How the routing of one message resolved. Every pulled message resolves in
/// exactly one of these ways, and each of them advances the offset.
#[derive(Debug, Clone, PartialEq, Eq)]
pub enum Resolution {
    /// The payload was not a JSON document: malformed, logged, not retried.
    DecodeFailed,
    /// The document had no string `type` field: equally malformed.
    MissingKind,
    /// No handler is registered for the kind: logged and skipped.
    UnknownKind(String),
    /// A handler ran and reported success or failure; either way the message
    /// counts as handled at this layer.
    Handled { kind: String, succeeded: bool },
}

/// A resolution with its strings as sequences.
pub enum ResolutionModel {
    DecodeFailed,
    MissingKind,
    UnknownKind(Seq<char>),
    Handled { kind: Seq<char>, succeeded: bool },
}

impl View for Resolution {
    type V = ResolutionModel;

    closed spec fn view(&self) -> ResolutionModel {
        match self {
            Resolution::DecodeFailed => ResolutionModel::DecodeFailed,
            Resolution::MissingKind => ResolutionModel::MissingKind,
            Resolution::UnknownKind(k) => ResolutionModel::UnknownKind(k@),
            Resolution::Handled { kind, succeeded } => ResolutionModel::Handled {
                kind: kind@,
                succeeded: *succeeded,
            },
        }
    }
}

/// What the surrounding process reports to the machine.
#[derive(Debug, Clone, PartialEq, Eq)]
pub enum Event {
    /// Subscribing to the topic succeeded.
    SubscribeSucceeded,
    /// Subscribing failed; the consumer cannot run.
    SubscribeFailed,
    /// The broker delivered the message at `offset` with this payload text.
    MessageArrived { offset: u64, text: String },
    /// A pull returned a transport or broker error.
    PullFailed,
    /// The handler the machine asked for has returned.
    HandlerFinished { succeeded: bool },
    /// The process was asked to shut down.
    ShutdownRequested,
}

/// An event with its strings as sequences and its offsets as integers.
pub enum EventModel {
    SubscribeSucceeded,
    SubscribeFailed,
    MessageArrived { offset: int, text: Seq<char> },
    PullFailed,
    HandlerFinished { succeeded: bool },
    ShutdownRequested,
}

impl View for Event {
    type V = EventModel;

    closed spec fn view(&self) -> EventModel {
        match self {
            Event::SubscribeSucceeded => EventModel::SubscribeSucceeded,
            Event::SubscribeFailed => EventModel::SubscribeFailed,
            Event::MessageArrived { offset, text } => EventModel::MessageArrived {
                offset: *offset as int,
                text: text@,
            },
            Event::PullFailed => EventModel::PullFailed,
            Event::HandlerFinished { succeeded } => EventModel::HandlerFinished {
                succeeded: *succeeded,
            },
            Event::ShutdownRequested => EventModel::ShutdownRequested,
        }
    }
}

/// What the machine asks the surrounding process to do next.
#[derive(Debug, Clone, PartialEq, Eq)]
pub enum Action {
    /// Nothing to do: keep pulling, or ignore an event that cannot occur in
    /// the current phase.
    Proceed,
    /// The pull failed: log it and pull again; pull errors never stop the
    /// loop and never advance the offset.
    Retry,
    /// Run this handler on the message's document text, then report back
    /// with a handler-finished event.
    InvokeHandler { handler: HandlerKind, kind: String, text: String },
    /// Request the broker to record `next` as the committed offset, and log
    /// the resolution. Commits are fire-and-forget: the loop pulls on.
    Commit { next: u64, outcome: Resolution },
    /// Stop the loop: cleanly on shutdown, fatally on a failed subscription.
    Stop { fatal: bool },
}

/// An action with its strings as sequences and its offsets as integers.
pub enum ActionModel {
    Proceed,
    Retry,
    InvokeHandler { handler: HandlerKind, kind: Seq<char>, text: Seq<char> },
    Commit { next: int, outcome: ResolutionModel },
    Stop { fatal: bool },
}

impl View for Action {
    type V = ActionModel;

    closed spec fn view(&self) -> ActionModel {
        match self {
            Action::Proceed => ActionModel::Proceed,
            Action::Retry => ActionModel::Retry,
            Action::InvokeHandler { handler, kind, text } => ActionModel::InvokeHandler {
                handler: *handler,
                kind: kind@,
                text: text@,
            },
            Action::Commit { next, outcome } => ActionModel::Commit {
                next: *next as int,
                outcome: outcome@,
            },
            Action::Stop { fatal } => ActionModel::Stop { fatal: *fatal },
        }
    }
}

/// Where the machine stands.
pub enum PhaseModel {
    /// Created; the subscription has not been confirmed yet.
    Starting,
    /// Subscribed and pulling messages.
    Running,
    /// A handler is in flight for the message at `offset`.
    AwaitingHandler { offset: int, kind: Seq<char> },
    /// Shut down; no further pulls or commits.
    Stopped,
}

/// The machine as the contracts see it.
#[verifier::ext_equal]
pub struct ConsumerModel {
    pub registry: Seq<(Seq<char>, HandlerKind)>,
    pub phase: PhaseModel,
    pub committed: int,
}

/// How a message routes: the decode outcome joined with the registry lookup.
pub enum RouteModel {
    DecodeFailed,
    MissingKind,
    UnknownKind(Seq<char>),
    Dispatch { kind: Seq<char>, handler: HandlerKind },
}

/// Routes a payload text against a registry: malformed texts and unknown
/// kinds resolve on the spot; a registered kind is dispatched to its handler.
pub open spec fn route_model(
    registry: Seq<(Seq<char>, HandlerKind)>,
    text: Seq<char>,
) -> RouteModel {
    if !json_parses(text) {
        RouteModel::DecodeFailed
    } else {
        match str_field_of(text, "type"@) {
            None => RouteModel::MissingKind,
            Some(kind) => match lookup(registry, kind) {
                None => RouteModel::UnknownKind(kind),
                Some(handler) => RouteModel::Dispatch { kind, handler },
            },
        }
    }
}

/// How a message finally resolves, given how it routes and, if a handler
/// runs, whether that handler succeeds.
pub open spec fn resolution_model(
    registry: Seq<(Seq<char>, HandlerKind)>,
    text: Seq<char>,
    succeeded: bool,
) -> ResolutionModel {
    match route_model(registry, text) {
        RouteModel::DecodeFailed => ResolutionModel::DecodeFailed,
        RouteModel::MissingKind => ResolutionModel::MissingKind,
        RouteModel::UnknownKind(kind) => ResolutionModel::UnknownKind(kind),
        RouteModel::Dispatch { kind, handler: _ } => ResolutionModel::Handled { kind, succeeded },
    }
}

/// The committed offset after recording `next`: it never moves backwards.
pub open spec fn committed_after(committed: int, next: int) -> int {
    if next > committed {
        next
    } else {
        committed
    }
}

/// Resolving the message at `offset`: the machine returns to pulling, records
/// the new offset monotonically, and asks for exactly one commit carrying the
/// resolution.
pub open spec fn commit_model(c: ConsumerModel, offset: int, outcome: ResolutionModel) -> (
    ConsumerModel,
    ActionModel,
) {
    (
        ConsumerModel {
            registry: c.registry,
            phase: PhaseModel::Running,
            committed: committed_after(c.committed, offset + 1),
        },
        ActionModel::Commit { next: offset + 1, outcome },
    )
}

/// The whole machine: next state and requested action for every phase and
/// event. Events that cannot occur in a phase are ignored.
pub open spec fn step_model(c: ConsumerModel, ev: EventModel) -> (ConsumerModel, ActionModel) {
    match (c.phase, ev) {
        (PhaseModel::Starting, EventModel::SubscribeSucceeded) => (
            ConsumerModel { phase: PhaseModel::Running, ..c },
            ActionModel::Proceed,
        ),
        (PhaseModel::Starting, EventModel::SubscribeFailed) => (
            ConsumerModel { phase: PhaseModel::Stopped, ..c },
            ActionModel::Stop { fatal: true },
        ),
        (PhaseModel::Running, EventModel::MessageArrived { offset, text }) => match route_model(
            c.registry,
            text,
        ) {
            RouteModel::DecodeFailed => commit_model(c, offset, ResolutionModel::DecodeFailed),
            RouteModel::MissingKind => commit_model(c, offset, ResolutionModel::MissingKind),
            RouteModel::UnknownKind(kind) => commit_model(
                c,
                offset,
                ResolutionModel::UnknownKind(kind),
            ),
            RouteModel::Dispatch { kind, handler } => (
                ConsumerModel { phase: PhaseModel::AwaitingHandler { offset, kind }, ..c },
                ActionModel::InvokeHandler { handler, kind, text },
            ),
        },
        (PhaseModel::Running, EventModel::PullFailed) => (c, ActionModel::Retry),
        (PhaseModel::Running, EventModel::ShutdownRequested) => (
            ConsumerModel { phase: PhaseModel::Stopped, ..c },
            ActionModel::Stop { fatal: false },
        ),
        (
            PhaseModel::AwaitingHandler { offset, kind },
            EventModel::HandlerFinished { succeeded },
        ) => commit_model(c, offset, ResolutionModel::Handled { kind, succeeded }),
        _ => (c, ActionModel::Proceed),
    }
}

/// The machine's representation invariant: offsets in flight leave room for
/// the one-past-the-message commit position.
pub open spec fn model_wf(c: ConsumerModel) -> bool {
    &&& 0 <= c.committed <= u64::MAX
    &&& (c.phase matches PhaseModel::AwaitingHandler { offset, .. } ==> 0 <= offset < u64::MAX)
}

/// The phase, without the in-flight data.
#[derive(Clone, Copy, Debug, PartialEq, Eq, Structural)]
enum PhaseTag {
    Starting,
    Running,
    AwaitingHandler,
    Stopped,
}

/// One consumer instance's share of the loop: the registry it routes with,
/// its phase, and the highest commit position it has requested.
pub struct Consumer {
    registry: HandlerRegistry,
    phase: PhaseTag,
    inflight_offset: u64,
    inflight_kind: String,
    committed: u64,
}

impl View for Consumer {
    type V = ConsumerModel;

    closed spec fn view(&self) -> ConsumerModel {
        ConsumerModel {
            registry: self.registry@,
            phase: match self.phase {
                PhaseTag::Starting => PhaseModel::Starting,
                PhaseTag::Running => PhaseModel::Running,
                PhaseTag::AwaitingHandler => PhaseModel::AwaitingHandler {
                    offset: self.inflight_offset as int,
                    kind: self.inflight_kind@,
                },
                PhaseTag::Stopped => PhaseModel::Stopped,
            },
            committed: self.committed as int,
        }
    }
}

impl Consumer {
    /// A consumer that has not subscribed yet, with nothing committed.
    pub fn new(registry: HandlerRegistry) -> (r: Consumer)
        ensures
            r@ == (ConsumerModel {
                registry: registry@,
                phase: PhaseModel::Starting,
                committed: 0,
            }),
            model_wf(r@),
    {
        Consumer {
            registry,
            phase: PhaseTag::Starting,
            inflight_offset: 0,
            inflight_kind: String::new(),
            committed: 0,
        }
    }

    /// The highest commit position requested so far.
    pub fn committed(&self) -> (r: u64)
        ensures
            r == self@.committed,
    {
        self.committed
    }

    /// Whether the machine has stopped.
    pub fn stopped(&self) -> (r: bool)
        ensures
            r == (self@.phase is Stopped),
    {
        self.phase == PhaseTag::Stopped
    }

    /// Resolves the message at `offset`: back to pulling, offset recorded
    /// monotonically, one commit requested.
    fn finish_message(&mut self, offset: u64, outcome: Resolution) -> (a: Action)
        requires
            offset < u64::MAX,
        ensures
            (final(self)@, a@) == commit_model(old(self)@, offset as int, outcome@),
    {
        self.phase = PhaseTag::Running;
        let next = offset + 1;
        if next > self.committed {
            self.committed = next;
        }
        Action::Commit { next, outcome }
    }

    /// Feeds one event to the machine and carries out its transition,
    /// returning the action the caller must perform. The committed offset
    /// never moves backwards, and the registry never changes.
    pub fn step(&mut self, event: Event) -> (a: Action)
        requires
            model_wf(old(self)@),
            event@ matches EventModel::MessageArrived { offset, .. } ==> offset < u64::MAX,
        ensures
            (final(self)@, a@) == step_model(old(self)@, event@),
            model_wf(final(self)@),
            final(self)@.committed >= old(self)@.committed,
            final(self)@.registry == old(self)@.registry,
    {
        match event {
            Event::SubscribeSucceeded => {
                if self.phase == PhaseTag::Starting {
                    self.phase = PhaseTag::Running;
                }
                Action::Proceed
            },
            Event::SubscribeFailed => {
                if self.phase == PhaseTag::Starting {
                    self.phase = PhaseTag::Stopped;
                    Action::Stop { fatal: true }
                } else {
                    Action::Proceed
                }
            },
            Event::MessageArrived { offset, text } => {
                if self.phase == PhaseTag::Running {
                    match decode_kind(text.as_str()) {
                        Decoded::NotJson => self.finish_message(
                            offset,
                            Resolution::DecodeFailed,
                        ),
                        Decoded::NoKind => self.finish_message(offset, Resolution::MissingKind),
                        Decoded::Kind(kind) => match self.registry.resolve(kind.as_str()) {
                            None => self.finish_message(offset, Resolution::UnknownKind(kind)),
                            Some(handler) => {
                                self.phase = PhaseTag::AwaitingHandler;
                                self.inflight_offset = offset;
                                self.inflight_kind = kind.clone();
                                Action::InvokeHandler { handler, kind, text }
                            },
                        },
                    }
                } else {
                    Action::Proceed
                }
            },
            Event::PullFailed => {
                if self.phase == PhaseTag::Running {
                    Action::Retry
                } else {
                    Action::Proceed
                }
            },
            Event::HandlerFinished { succeeded } => {
                if self.phase == PhaseTag::AwaitingHandler {
                    let offset = self.inflight_offset;
                    let kind = self.inflight_kind.clone();
                    self.finish_message(offset, Resolution::Handled { kind, succeeded })
                } else {
                    Action::Proceed
                }
            },
            Event::ShutdownRequested => {
                if self.phase == PhaseTag::Running {
                    self.phase = PhaseTag::Stopped;
                    Action::Stop { fatal: false }
                } else {
                    Action::Proceed
                }
            },
        }
    }
}

/// The machine after one whole message: the arrival step and, when a handler
/// was invoked, the completion step that reports the handler's result.
pub open spec fn after_message(
    c: ConsumerModel,
    offset: int,
    text: Seq<char>,
    succeeded: bool,
) -> ConsumerModel {
    let (c1, a1) = step_model(c, EventModel::MessageArrived { offset, text });
    if route_model(c.registry, text) is Dispatch {
        step_model(c1, EventModel::HandlerFinished { succeeded }).0
    } else {
        c1
    }
}

/// The actions the machine requests while one whole message is processed.
pub open spec fn message_actions(
    c: ConsumerModel,
    offset: int,
    text: Seq<char>,
    succeeded: bool,
) -> Seq<ActionModel> {
    let (c1, a1) = step_model(c, EventModel::MessageArrived { offset, text });
    if route_model(c.registry, text) is Dispatch {
        seq![a1, step_model(c1, EventModel::HandlerFinished { succeeded }).1]
    } else {
        seq![a1]
    }
}

/// The commits among a run's actions, in the order they were requested.
pub open spec fn commits_of(actions: Seq<ActionModel>) -> Seq<ActionModel> {
    actions.filter(|a: ActionModel| a is Commit)
}

/// The commit that resolving the message at `offset` with this text must
/// carry.
pub open spec fn commit_for(
    registry: Seq<(Seq<char>, HandlerKind)>,
    offset: int,
    text: Seq<char>,
    succeeded: bool,
) -> ActionModel {
    ActionModel::Commit { next: offset + 1, outcome: resolution_model(registry, text, succeeded) }
}

/// The machine after a batch of messages, each processed to its resolution.
pub open spec fn run_state(c: ConsumerModel, msgs: Seq<(int, Seq<char>, bool)>) -> ConsumerModel
    decreases msgs.len(),
{
    if msgs.len() == 0 {
        c
    } else {
        run_state(after_message(c, msgs[0].0, msgs[0].1, msgs[0].2), msgs.drop_first())
    }
}

/// Every action a batch of messages makes the machine request, in order.
pub open spec fn run_actions(c: ConsumerModel, msgs: Seq<(int, Seq<char>, bool)>) -> Seq<
    ActionModel,
>
    decreases msgs.len(),
{
    if msgs.len() == 0 {
        Seq::empty()
    } else {
        message_actions(c, msgs[0].0, msgs[0].1, msgs[0].2) + run_actions(
            after_message(c, msgs[0].0, msgs[0].1, msgs[0].2),
            msgs.drop_first(),
        )
    }
}

/// The committed offset never moves backwards, whatever the event.
pub proof fn lemma_committed_monotone(c: ConsumerModel, ev: EventModel)
    ensures
        step_model(c, ev).0.committed >= c.committed,
{
}

/// Commit-after-resolution: the machine requests a commit only for a message
/// whose routing has resolved — either the arrival itself resolved it (a
/// malformed text or an unregistered kind), or the handler invoked for it has
/// returned. The commit position is one past that message, and the commit
/// carries the message's own resolution.
pub proof fn lemma_commit_only_after_resolution(c: ConsumerModel, ev: EventModel)
    requires
        step_model(c, ev).1 is Commit,
    ensures
        ({
            let a = step_model(c, ev).1;
            ||| ({
                &&& c.phase is Running
                &&& ev matches EventModel::MessageArrived { offset, text }
                &&& !(route_model(c.registry, text) is Dispatch)
                &&& a == ActionModel::Commit {
                    next: offset + 1,
                    outcome: resolution_model(c.registry, text, true),
                }
            })
            ||| ({
                &&& c.phase matches PhaseModel::AwaitingHandler { offset, kind }
                &&& ev matches EventModel::HandlerFinished { succeeded }
                &&& a == ActionModel::Commit {
                    next: offset + 1,
                    outcome: ResolutionModel::Handled { kind, succeeded },
                }
            })
        }),
{
}

/// At-least-once, exactly one resolution per delivery: a message processed
/// from the running state resolves in exactly one way and the machine
/// requests exactly one commit for it — at once for a malformed text or an
/// unregistered kind, and after the handler returns (successfully or not) for
/// a registered one. Either way the machine is back to pulling, with the
/// commit position moved past the message and never backwards.
pub proof fn lemma_message_lifecycle(
    c: ConsumerModel,
    offset: int,
    text: Seq<char>,
    succeeded: bool,
)
    requires
        c.phase is Running,
    ensures
        after_message(c, offset, text, succeeded).phase is Running,
        after_message(c, offset, text, succeeded).registry == c.registry,
        after_message(c, offset, text, succeeded).committed == committed_after(
            c.committed,
            offset + 1,
        ),
        ({
            let acts = message_actions(c, offset, text, succeeded);
            let commit = commit_for(c.registry, offset, text, succeeded);
            match route_model(c.registry, text) {
                RouteModel::Dispatch { kind, handler } => acts == seq![
                    ActionModel::InvokeHandler { handler, kind, text },
                    commit,
                ],
                _ => acts == seq![commit],
            }
        }),
{
    let acts = message_actions(c, offset, text, succeeded);
    let commit = commit_for(c.registry, offset, text, succeeded);
    match route_model(c.registry, text) {
        RouteModel::Dispatch { kind, handler } => {
            assert(acts =~= seq![ActionModel::InvokeHandler { handler, kind, text }, commit]);
        },
        _ => {
            assert(acts =~= seq![commit]);
        },
    }
}

/// Per-partition order preservation: a consumer that processes the messages
/// of a partition in arrival order requests one commit per message, in that
/// same order, each carrying its own message's position and resolution — so
/// the routing of earlier messages, including failed, malformed and unknown
/// ones, never reorders or swallows later ones. The batch leaves the machine
/// pulling, with its registry untouched.
pub proof fn lemma_run_order(c: ConsumerModel, msgs: Seq<(int, Seq<char>, bool)>)
    requires
        c.phase is Running,
    ensures
        run_state(c, msgs).phase is Running,
        run_state(c, msgs).registry == c.registry,
        commits_of(run_actions(c, msgs)) == Seq::new(
            msgs.len(),
            |i: int| commit_for(c.registry, msgs[i].0, msgs[i].1, msgs[i].2),
        ),
    decreases msgs.len(),
{
    let pred = |a: ActionModel| a is Commit;
    let expected = Seq::new(
        msgs.len(),
        |i: int| commit_for(c.registry, msgs[i].0, msgs[i].1, msgs[i].2),
    );
    if msgs.len() == 0 {
        reveal_with_fuel(Seq::filter, 1);
        assert(commits_of(run_actions(c, msgs)) =~= expected);
    } else {
        let (offset, text, succeeded) = (msgs[0].0, msgs[0].1, msgs[0].2);
        let c1 = after_message(c, offset, text, succeeded);
        let first = message_actions(c, offset, text, succeeded);
        let rest = run_actions(c1, msgs.drop_first());
        lemma_message_lifecycle(c, offset, text, succeeded);
        lemma_run_order(c1, msgs.drop_first());
        Seq::filter_distributes_over_add(first, rest, pred);
        reveal_with_fuel(Seq::filter, 3);
        assert(first.filter(pred) =~= seq![commit_for(c.registry, offset, text, succeeded)]);
        assert(commits_of(run_actions(c, msgs)) =~= seq![
            commit_for(c.registry, offset, text, succeeded),
        ] + commits_of(rest));
        assert(commits_of(run_actions(c, msgs)) =~= expected);
    }
}

/// Non-blocking failure isolation: a message that resolves without a handler
/// — because its text does not decode, lacks a string kind, or names an
/// unregistered kind — is committed past at once, and the message after it is
/// processed exactly as it would have been on its own: same actions, same
/// resolution. A bad message never stalls its partition.
pub proof fn lemma_bad_message_nonblocking(
    c: ConsumerModel,
    o1: int,
    t1: Seq<char>,
    o2: int,
    t2: Seq<char>,
    ok2: bool,
)
    requires
        c.phase is Running,
    ensures
        !(route_model(c.registry, t1) is Dispatch) ==> ({
            let c1 = after_message(c, o1, t1, true);
            &&& message_actions(c, o1, t1, true) == seq![commit_for(c.registry, o1, t1, true)]
            &&& c1.phase is Running
            &&& c1.registry == c.registry
            &&& message_actions(c1, o2, t2, ok2) == message_actions(c, o2, t2, ok2)
        }),
{
    if !(route_model(c.registry, t1) is Dispatch) {
        lemma_message_lifecycle(c, o1, t1, true);
        let c1 = after_message(c, o1, t1, true);
        assert(message_actions(c1, o2, t2, ok2) =~= message_actions(c, o2, t2, ok2));
    }
}

/// The tuning options the consumer is created with: explicit commits only,
/// no partition-eof signal, and a six-second session timeout.
pub fn consumer_options() -> (r: Vec<(&'static str, &'static str)>)
    ensures
        r@.len() == 3,
        r@[0].0@ == "enable.partition.eof"@ && r@[0].1@ == "false"@,
        r@[1].0@ == "session.timeout.ms"@ && r@[1].1@ == "6000"@,
        r@[2].0@ == "enable.auto.commit"@ && r@[2].1@ == "false"@,
{
    let mut r: Vec<(&'static str, &'static str)> = Vec::new();
    r.push(("enable.partition.eof", "false"));
    r.push(("session.timeout.ms", "6000"));
    r.push(("enable.auto.commit", "false"));
    r
}

} // verus!
