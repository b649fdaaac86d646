use vstd::prelude::*;

use crate::plan::{lemma_sequenced_plan_runs_every_cycle, runs_cycles_in_order, cycles_actions, all_cycles, horn_actions, sequenced_actions, HornAction};
use crate::request::{
    opt_request_view, request_is_processable, ActivateHornRequest, ActivateHornRequestView,
    HornMode, HornModeValue,
};

verus! {

/// Where the relay stands.
pub enum RelayState {
    /// Waiting for the next request.
    Idle,
    /// Carrying out `plan`; step `current` has been handed out and not yet completed.
    Busy { plan: Vec<HornAction>, current: usize },
    /// The request channel has closed; nothing more is done.
    Closed,
}

/// The mathematical content of a [`RelayState`].
pub enum RelayStateView {
    Idle,
    Busy { plan: Seq<HornAction>, current: nat },
    Closed,
}

impl View for RelayState {
    type V = RelayStateView;

    open spec fn view(&self) -> RelayStateView {
        match self {
            RelayState::Idle => RelayStateView::Idle,
            RelayState::Busy { plan, current } => RelayStateView::Busy {
                plan: plan@,
                current: *current as nat,
            },
            RelayState::Closed => RelayStateView::Closed,
        }
    }
}

/// What can happen to the relay.
pub enum RelayEvent {
    /// A message came in on the request channel; `None` asks for the horn to be switched off.
    Message(Option<ActivateHornRequest>),
    /// The step last handed out has been carried out.
    ActionDone,
    /// The request channel has closed.
    ChannelClosed,
}

/// The mathematical content of a [`RelayEvent`].
pub enum RelayEventView {
    Message(Option<ActivateHornRequestView>),
    ActionDone,
    ChannelClosed,
}

impl View for RelayEvent {
    type V = RelayEventView;

    open spec fn view(&self) -> RelayEventView {
        match self {
            RelayEvent::Message(m) => RelayEventView::Message(opt_request_view(*m)),
            RelayEvent::ActionDone => RelayEventView::ActionDone,
            RelayEvent::ChannelClosed => RelayEventView::ChannelClosed,
        }
    }
}

/// The state in which the relay starts carrying out `plan`, and the first step to hand out.
pub open spec fn start_plan(plan: Seq<HornAction>) -> (RelayStateView, Option<HornAction>) {
    if plan.len() == 0 {
        (RelayStateView::Idle, None)
    } else {
        (RelayStateView::Busy { plan, current: 0 }, Some(plan[0]))
    }
}

/// One step of the relay: the state after an event, and the horn step to carry out next, if any.
///
/// The relay starts carrying out each message it receives. A message that
/// comes in while a request is being carried out stops that request, and the
/// new message is carried out in its place. When the channel closes the relay
/// stops for good.
pub open spec fn relay_step(s: RelayStateView, e: RelayEventView) -> (RelayStateView, Option<HornAction>) {
    match s {
        RelayStateView::Closed => (RelayStateView::Closed, None),
        RelayStateView::Idle => match e {
            RelayEventView::Message(m) => start_plan(horn_actions(m)),
            RelayEventView::ActionDone => (RelayStateView::Idle, None),
            RelayEventView::ChannelClosed => (RelayStateView::Closed, None),
        },
        RelayStateView::Busy { plan, current } => match e {
            RelayEventView::Message(m) => start_plan(horn_actions(m)),
            RelayEventView::ActionDone => if current + 1 < plan.len() {
                (
                    RelayStateView::Busy { plan, current: current + 1 },
                    Some(plan[current + 1 as int]),
                )
            } else {
                (RelayStateView::Idle, None)
            },
            RelayEventView::ChannelClosed => (RelayStateView::Closed, None),
        },
    }
}

/// The relay can take an event unless it would have to carry out a request
/// whose mode the service does not know.
pub open spec fn relay_accepts(s: RelayStateView, e: RelayEventView) -> bool {
    match (s, e) {
        (RelayStateView::Idle, RelayEventView::Message(m)) => request_is_processable(m),
        (RelayStateView::Busy { .. }, RelayEventView::Message(m)) => request_is_processable(m),
        _ => true,
    }
}

/// Whether the relay waits or is busy, it takes every message that can be
/// carried out, and only those: no request, or a request in a known mode.
/// Completions and the channel closing are always taken, and a closed relay
/// takes everything.
pub proof fn lemma_relay_accepts_every_processable_message(s: RelayStateView, e: RelayEventView)
    ensures
        s is Closed ==> relay_accepts(s, e),
        !(e is Message) ==> relay_accepts(s, e),
        e matches RelayEventView::Message(m) ==> (!(s is Closed) ==> (relay_accepts(s, e) <==> match m {
            Some(r) => r.mode is Known,
            None => true,
        })),
{
}

/// The steps handed out by one relay step.
pub open spec fn emitted(a: Option<HornAction>) -> Seq<HornAction> {
    match a {
        Some(x) => seq![x],
        None => seq![],
    }
}

/// The state after a series of events, and every horn step handed out on the way.
pub open spec fn relay_run(s: RelayStateView, events: Seq<RelayEventView>) -> (RelayStateView, Seq<HornAction>)
    decreases events.len(),
{
    if events.len() == 0 {
        (s, seq![])
    } else {
        let (s1, a) = relay_step(s, events[0]);
        let (s2, rest) = relay_run(s1, events.drop_first());
        (s2, emitted(a) + rest)
    }
}

/// `n` completions of handed-out steps in a row.
pub open spec fn actions_done(n: nat) -> Seq<RelayEventView> {
    Seq::new(n, |i: int| RelayEventView::ActionDone)
}

/// Once the request channel has closed the relay does nothing more, whatever happens.
pub proof fn lemma_closed_relay_stays_closed(events: Seq<RelayEventView>)
    ensures
        relay_run(RelayStateView::Closed, events) == (RelayStateView::Closed, Seq::<HornAction>::empty()),
    decreases events.len(),
{
    if events.len() > 0 {
        lemma_closed_relay_stays_closed(events.drop_first());
        assert(emitted(None) + Seq::<HornAction>::empty() =~= Seq::<HornAction>::empty());
    }
}

/// When the request channel closes the relay stops, whatever it was doing.
pub proof fn lemma_channel_close_stops_relay(s: RelayStateView)
    ensures
        relay_step(s, RelayEventView::ChannelClosed) == (RelayStateView::Closed, None::<HornAction>),
{
}

/// A message that comes in while a request is being carried out stops that
/// request: the relay starts carrying out the new message in its place.
pub proof fn lemma_message_while_busy_replaces_plan(
    plan: Seq<HornAction>,
    current: nat,
    m: Option<ActivateHornRequestView>,
)
    ensures
        relay_step(RelayStateView::Busy { plan, current }, RelayEventView::Message(m))
            == start_plan(horn_actions(m)),
{
}

/// From step `current` of a plan, completing each handed-out step hands out
/// the rest of the plan in order and leaves the relay idle.
pub proof fn lemma_busy_relay_finishes_plan(plan: Seq<HornAction>, current: nat)
    requires
        current < plan.len(),
    ensures
        relay_run(
            RelayStateView::Busy { plan, current },
            actions_done((plan.len() - current) as nat),
        ) == (RelayStateView::Idle, plan.subrange(current + 1 as int, plan.len() as int)),
    decreases plan.len() - current,
{
    let k = (plan.len() - current) as nat;
    let events = actions_done(k);
    assert(events[0] == RelayEventView::ActionDone);
    assert(events.drop_first() =~= actions_done((k - 1) as nat));
    let s0 = RelayStateView::Busy { plan, current };
    let step = relay_step(s0, RelayEventView::ActionDone);
    let rest = relay_run(step.0, events.drop_first());
    assert(relay_run(s0, events) == (rest.0, emitted(step.1) + rest.1));
    if current + 1 < plan.len() {
        lemma_busy_relay_finishes_plan(plan, (current + 1) as nat);
        assert(step == (RelayStateView::Busy { plan, current: (current + 1) as nat }, Some(plan[current + 1 as int])));
        assert(seq![plan[current + 1 as int]] + plan.subrange(current + 2 as int, plan.len() as int)
            =~= plan.subrange(current + 1 as int, plan.len() as int));
    } else {
        assert(actions_done((k - 1) as nat) =~= Seq::<RelayEventView>::empty());
        assert(emitted(None) + Seq::<HornAction>::empty()
            =~= plan.subrange(current + 1 as int, plan.len() as int));
    }
}

/// An idle relay that receives a message, and then sees each step it hands out
/// completed, hands out exactly the steps that carry out the message, in
/// order, and is idle again afterwards.
pub proof fn lemma_request_runs_to_completion(m: Option<ActivateHornRequestView>)
    ensures
        ({
            let plan = horn_actions(m);
            relay_run(
                RelayStateView::Idle,
                seq![RelayEventView::Message(m)] + actions_done(plan.len()),
            ) == (RelayStateView::Idle, plan)
        }),
{
    let plan = horn_actions(m);
    let events = seq![RelayEventView::Message(m)] + actions_done(plan.len());
    assert(events[0] == RelayEventView::Message(m));
    assert(events.drop_first() =~= actions_done(plan.len()));
    let step = relay_step(RelayStateView::Idle, events[0]);
    let rest = relay_run(step.0, events.drop_first());
    assert(relay_run(RelayStateView::Idle, events) == (rest.0, emitted(step.1) + rest.1));
    if plan.len() == 0 {
        assert(actions_done(0) =~= Seq::<RelayEventView>::empty());
        assert(emitted(None) + Seq::<HornAction>::empty() =~= plan);
    } else {
        lemma_busy_relay_finishes_plan(plan, 0);
        assert(seq![plan[0]] + plan.subrange(1, plan.len() as int) =~= plan);
    }
}

/// A message that interrupts a running request is carried out in full: after
/// it, with each handed-out step completed, the relay has handed out exactly
/// the steps of the new message, and nothing more of the interrupted one, and
/// is idle again.
pub proof fn lemma_interrupting_request_runs_in_full(
    plan: Seq<HornAction>,
    current: nat,
    next: Option<ActivateHornRequestView>,
)
    ensures
        ({
            let next_plan = horn_actions(next);
            relay_run(
                RelayStateView::Busy { plan, current },
                seq![RelayEventView::Message(next)] + actions_done(next_plan.len()),
            ) == (RelayStateView::Idle, next_plan)
        }),
{
    let next_plan = horn_actions(next);
    let events = seq![RelayEventView::Message(next)] + actions_done(next_plan.len());
    let s0 = RelayStateView::Busy { plan, current };
    assert(events[0] == RelayEventView::Message(next));
    assert(events.drop_first() =~= actions_done(next_plan.len()));
    let step = relay_step(s0, events[0]);
    let rest = relay_run(step.0, events.drop_first());
    assert(relay_run(s0, events) == (rest.0, emitted(step.1) + rest.1));
    let idle_step = relay_step(RelayStateView::Idle, events[0]);
    let idle_rest = relay_run(idle_step.0, events.drop_first());
    assert(relay_run(RelayStateView::Idle, events) == (idle_rest.0, emitted(idle_step.1) + idle_rest.1));
    assert(step == idle_step);
    lemma_request_runs_to_completion(next);
}

/// Takes horn requests from the request channel and hands out, one at a
/// time, the horn signals and waits that relay them to the databroker.
pub struct HornRequestKuksaRelay {
    state: RelayState,
}

impl View for HornRequestKuksaRelay {
    type V = RelayStateView;

    closed spec fn view(&self) -> RelayStateView {
        self.state@
    }
}

impl HornRequestKuksaRelay {
    /// A busy relay always points at a step of its plan.
    #[verifier::type_invariant]
    closed spec fn well_formed(self) -> bool {
        match self.state {
            RelayState::Busy { plan, current } => current < plan@.len(),
            _ => true,
        }
    }

    /// A relay that waits for its first request.
    pub fn new() -> (relay: HornRequestKuksaRelay)
        ensures
            relay@ == RelayStateView::Idle,
    {
        HornRequestKuksaRelay { state: RelayState::Idle }
    }

    /// The signals and waits that relay a request.
    ///
    /// No request switches the horn off; otherwise the mode decides what is sent.
    pub fn send_request(&self, request: Option<ActivateHornRequest>) -> (actions: Vec<HornAction>)
        requires
            request_is_processable(opt_request_view(request)),
        ensures
            actions@ == horn_actions(opt_request_view(request)),
            request is None ==> actions@ == seq![HornAction::SetHornActive(false)],
            request matches Some(r) ==> (r.mode == HornModeValue::Known(HornMode::Sequenced)
                ==> runs_cycles_in_order(actions@, r@.command.flatten())),
            request matches Some(r) ==> (r.mode == HornModeValue::Known(HornMode::Continuous)
                ==> actions@ == seq![HornAction::SetHornActive(true)]),
    {
        proof {
            if request is Some && request.unwrap().mode == HornModeValue::Known(HornMode::Sequenced) {
                lemma_sequenced_plan_runs_every_cycle(request.unwrap()@);
            }
        }
        match request {
            None => self.send_deactivate_horn_request(),
            Some(r) => match r.mode {
                HornModeValue::Known(HornMode::Sequenced) => self.send_sequential_horn_request_to_kuksa(r),
                HornModeValue::Known(HornMode::Continuous) => self.send_continuous_horn_request_to_kuksa(),
                HornModeValue::Known(HornMode::Unknown) => vec![HornAction::ReportMode(HornMode::Unknown)],
                HornModeValue::Known(HornMode::Unspecified) => vec![HornAction::ReportMode(HornMode::Unspecified)],
                HornModeValue::Unrecognized(_) => Vec::new(),
            },
        }
    }

    /// The signal that switches the horn off.
    pub fn send_deactivate_horn_request(&self) -> (actions: Vec<HornAction>)
        ensures
            actions@ == seq![HornAction::SetHornActive(false)],
    {
        vec![HornAction::SetHornActive(false)]
    }

    /// The signal that switches the horn on until further notice.
    pub fn send_continuous_horn_request_to_kuksa(&self) -> (actions: Vec<HornAction>)
        ensures
            actions@ == seq![HornAction::SetHornActive(true)],
    {
        vec![HornAction::SetHornActive(true)]
    }

    /// For each sequence in the request, and each cycle in it, the signal that
    /// switches the horn on, a wait of the on time, the signal that switches it
    /// off and a wait of the off time.
    pub fn send_sequential_horn_request_to_kuksa(&self, request: ActivateHornRequest) -> (actions: Vec<HornAction>)
        ensures
            actions@ == cycles_actions(all_cycles(request@.command)),
    {
        sequenced_actions(&request)
    }

    /// Whether the relay can take `event` now.
    pub fn accepts(&self, event: &RelayEvent) -> (b: bool)
        ensures
            b == relay_accepts(self@, event@),
            !(event is Message) ==> b,
            self@ is Closed ==> b,
            event matches RelayEvent::Message(m) ==> (!(self@ is Closed)
                ==> (b <==> crate::request::request_is_processable(opt_request_view(*m)))),
    {
        match (&self.state, event) {
            (RelayState::Idle, RelayEvent::Message(m)) => crate::request::is_processable(m),
            (RelayState::Busy { .. }, RelayEvent::Message(m)) => crate::request::is_processable(m),
            _ => true,
        }
    }

    /// Whether the relay waits for a request.
    pub fn is_idle(&self) -> (b: bool)
        ensures
            b == (self@ is Idle),
    {
        match self.state {
            RelayState::Idle => true,
            _ => false,
        }
    }

    /// Whether the request channel has closed.
    pub fn is_closed(&self) -> (b: bool)
        ensures
            b == (self@ is Closed),
    {
        match self.state {
            RelayState::Closed => true,
            _ => false,
        }
    }

    /// The step being carried out, if any.
    pub fn current_action(&self) -> (a: Option<HornAction>)
        ensures
            a == (match self@ {
                RelayStateView::Busy { plan, current } => Some(plan[current as int]),
                _ => None,
            }),
    {
        proof {
            use_type_invariant(self);
        }
        match &self.state {
            RelayState::Busy { plan, current } => Some(plan[*current]),
            _ => None,
        }
    }

    /// The state in which the relay starts carrying out a request, and the
    /// first step to hand out.
    fn start_request(&self, request: Option<ActivateHornRequest>) -> (r: (RelayState, Option<HornAction>))
        requires
            request_is_processable(opt_request_view(request)),
        ensures
            (r.0@, r.1) == start_plan(horn_actions(opt_request_view(request))),
            r.0 matches RelayState::Busy { plan, current } ==> current < plan@.len(),
    {
        let plan = self.send_request(request);
        if plan.len() == 0 {
            (RelayState::Idle, None)
        } else {
            let first = plan[0];
            (RelayState::Busy { plan, current: 0 }, Some(first))
        }
    }

    /// Takes one event and returns the horn step to carry out next, if any.
    pub fn handle_event(&mut self, event: RelayEvent) -> (action: Option<HornAction>)
        requires
            relay_accepts(old(self)@, event@),
        ensures
            (final(self)@, action) == relay_step(old(self)@, event@),
            final(self)@ matches RelayStateView::Busy { plan, current } ==> current < plan.len(),
    {
        proof {
            use_type_invariant(&*self);
        }
        let mut previous = RelayState::Idle;
        std::mem::swap(&mut previous, &mut self.state);
        let (next, action) = match previous {
            RelayState::Closed => (RelayState::Closed, None),
            RelayState::Idle => match event {
                RelayEvent::Message(m) => self.start_request(m),
                RelayEvent::ActionDone => (RelayState::Idle, None),
                RelayEvent::ChannelClosed => (RelayState::Closed, None),
            },
            RelayState::Busy { plan, current } => match event {
                RelayEvent::Message(m) => self.start_request(m),
                RelayEvent::ActionDone => {
                    let len = plan.len();
                    if current + 1 < len {
                        let a = plan[current + 1];
                        (RelayState::Busy { plan, current: current + 1 }, Some(a))
                    } else {
                        (RelayState::Idle, None)
                    }
                },
                RelayEvent::ChannelClosed => (RelayState::Closed, None),
            },
        };
        self.state = next;
        action
    }
}

} // verus!
