use vstd::prelude::*;

use crate::channel::Closed;
use crate::channel::Queue;
use crate::channel::QueueModel;
use crate::channel::Received;
use crate::state::spec_profile_of;
use crate::state::PpdValue;
use crate::state::Profile;
use crate::state::RepaintHandle;

verus! {

/// Where the bridge stands in its life: waiting for the consumer's first
/// command, running its concurrent units, or returned to its caller.
#[derive(Clone, Copy, Debug, PartialEq, Eq, Structural)]
pub enum Phase {
    AwaitHandle,
    Active,
    Terminated,
}

/// What the dispatcher asks its runner to do after one step: perform a write
/// against the external service, nothing this step, or wind the loop down.
#[derive(Clone, Copy, Debug, PartialEq, Eq, Structural)]
pub enum DispatchAction {
    WriteProfile(Profile),
    WriteToggle(bool),
    Idle,
    Stop,
}

/// The mathematical content of the bridge: both queues, the one-time repaint
/// registration, which concurrent units still run, the cancellation flag, how
/// many redraws have been requested, and the phase.
#[verifier::ext_equal]
pub struct BridgeModel {
    pub commands: QueueModel,
    pub events: QueueModel,
    pub repaint_handle: Option<RepaintHandle>,
    pub handle_decided: bool,
    pub profile_listener_alive: bool,
    pub toggle_listener_alive: bool,
    pub dispatcher_alive: bool,
    pub cancelled: bool,
    pub repaint_requests: u64,
    pub phase: Phase,
}

/// A fresh bridge: both queues empty and open, no handle registered yet,
/// every unit ready to run, not cancelled, waiting for the first command.
pub open spec fn spec_init() -> BridgeModel {
    BridgeModel {
        commands: QueueModel { items: Seq::empty(), closed: false },
        events: QueueModel { items: Seq::empty(), closed: false },
        repaint_handle: None,
        handle_decided: false,
        profile_listener_alive: true,
        toggle_listener_alive: true,
        dispatcher_alive: true,
        cancelled: false,
        repaint_requests: 0,
        phase: Phase::AwaitHandle,
    }
}

/// The bridge's internal consistency: a handle can only be held once the
/// registrar has decided, and the registrar has not decided while the bridge
/// still awaits the first command.
pub open spec fn spec_wf(m: BridgeModel) -> bool {
    &&& m.repaint_handle is Some ==> m.handle_decided
    &&& m.phase is AwaitHandle ==> !m.handle_decided
}

/// The consumer offers a command: enqueued unless the command queue is shut.
pub open spec fn spec_send_command(m: BridgeModel, c: PpdValue) -> BridgeModel {
    if m.commands.closed {
        m
    } else {
        BridgeModel {
            commands: QueueModel { items: m.commands.items.push(c), ..m.commands },
            ..m
        }
    }
}

/// The consumer drops its producer: the command queue is shut, messages in
/// flight stay receivable.
pub open spec fn spec_close_commands(m: BridgeModel) -> BridgeModel {
    BridgeModel { commands: QueueModel { closed: true, ..m.commands }, ..m }
}

/// The consumer drops its event receiver: the event queue is shut.
pub open spec fn spec_close_events(m: BridgeModel) -> BridgeModel {
    BridgeModel { events: QueueModel { closed: true, ..m.events }, ..m }
}

/// The cancellation signal is triggered; triggering it again changes nothing.
pub open spec fn spec_cancel(m: BridgeModel) -> BridgeModel {
    BridgeModel { cancelled: true, ..m }
}

/// The consumer polls the event queue once, without suspending.
pub open spec fn spec_try_receive_event(m: BridgeModel) -> (BridgeModel, Option<PpdValue>) {
    if m.events.items.len() == 0 {
        (m, None)
    } else {
        (
            BridgeModel {
                events: QueueModel { items: m.events.items.drop_first(), ..m.events },
                ..m
            },
            Some(m.events.items.first()),
        )
    }
}

/// The registrar's single step. While the bridge awaits its first command and
/// is not cancelled: a first command decides the registration — a `Context`
/// command registers its handle, any other command means no handle is
/// available and is discarded, never re-queued — and a shut, drained command
/// queue decides that no handle is available. Either way the bridge turns
/// active. With no command yet, the registrar stays suspended.
pub open spec fn spec_await_handle(m: BridgeModel) -> BridgeModel {
    if !(m.phase is AwaitHandle) || m.cancelled {
        m
    } else if m.commands.items.len() > 0 {
        BridgeModel {
            commands: QueueModel { items: m.commands.items.drop_first(), ..m.commands },
            repaint_handle: match m.commands.items.first() {
                PpdValue::Context(h) => Some(h),
                _ => None,
            },
            handle_decided: true,
            phase: Phase::Active,
            ..m
        }
    } else if m.commands.closed {
        BridgeModel { handle_decided: true, phase: Phase::Active, ..m }
    } else {
        m
    }
}

/// One dispatcher step: a stopped dispatcher stays stopped; cancellation
/// preempts a suspended dispatcher; before the registrar has run the
/// dispatcher is not running yet; otherwise the oldest command is popped and
/// turned into its action — a write for a setting command, nothing for a late
/// `Context` registration — and a shut, drained command queue stops the loop.
pub open spec fn spec_dispatch(m: BridgeModel) -> (BridgeModel, DispatchAction) {
    if !m.dispatcher_alive {
        (m, DispatchAction::Stop)
    } else if m.cancelled {
        (BridgeModel { dispatcher_alive: false, ..m }, DispatchAction::Stop)
    } else if m.phase is AwaitHandle {
        (m, DispatchAction::Idle)
    } else if m.commands.items.len() > 0 {
        let rest = BridgeModel {
            commands: QueueModel { items: m.commands.items.drop_first(), ..m.commands },
            ..m
        };
        match m.commands.items.first() {
            PpdValue::Profile(p) => (rest, DispatchAction::WriteProfile(p)),
            PpdValue::BatteryAware(b) => (rest, DispatchAction::WriteToggle(b)),
            PpdValue::Context(_) => (rest, DispatchAction::Idle),
        }
    } else if m.commands.closed {
        (BridgeModel { dispatcher_alive: false, ..m }, DispatchAction::Stop)
    } else {
        (m, DispatchAction::Idle)
    }
}

/// The runner reports how a write against the external service went: a failed
/// write stops the dispatcher at once, with nothing retried.
pub open spec fn spec_on_write_result(m: BridgeModel, ok: bool) -> BridgeModel {
    if ok {
        m
    } else {
        BridgeModel { dispatcher_alive: false, ..m }
    }
}

/// One more redraw request, if a handle was registered. The count saturates
/// rather than wrap.
pub open spec fn spec_bump_repaints(n: u64, h: Option<RepaintHandle>) -> u64 {
    if h is None {
        n
    } else if n < u64::MAX {
        (n + 1) as u64
    } else {
        n
    }
}

/// The profile listener handles one notification, `None` standing for a value
/// that did not decode. A stopped listener, or one whose subscription does not
/// exist yet, sees nothing; cancellation preempts it; a decode failure or a
/// shut event queue stops it for good; otherwise the decoded profile is
/// enqueued as an event, in arrival order, and a redraw is requested if a
/// handle was registered.
pub open spec fn spec_on_profile_notification(m: BridgeModel, decoded: Option<Seq<char>>) -> BridgeModel {
    if !m.profile_listener_alive || m.phase is AwaitHandle {
        m
    } else if m.cancelled {
        BridgeModel { profile_listener_alive: false, ..m }
    } else {
        match decoded {
            Option::None => BridgeModel { profile_listener_alive: false, ..m },
            Option::Some(s) => if m.events.closed {
                BridgeModel { profile_listener_alive: false, ..m }
            } else {
                BridgeModel {
                    events: QueueModel {
                        items: m.events.items.push(PpdValue::Profile(spec_profile_of(s))),
                        ..m.events
                    },
                    repaint_requests: spec_bump_repaints(m.repaint_requests, m.repaint_handle),
                    ..m
                }
            },
        }
    }
}

/// The toggle listener handles one notification, exactly as the profile
/// listener does; a toggle notification needs no decoding beyond the raw
/// boolean.
pub open spec fn spec_on_toggle_notification(m: BridgeModel, decoded: Option<bool>) -> BridgeModel {
    if !m.toggle_listener_alive || m.phase is AwaitHandle {
        m
    } else if m.cancelled {
        BridgeModel { toggle_listener_alive: false, ..m }
    } else {
        match decoded {
            Option::None => BridgeModel { toggle_listener_alive: false, ..m },
            Option::Some(b) => if m.events.closed {
                BridgeModel { toggle_listener_alive: false, ..m }
            } else {
                BridgeModel {
                    events: QueueModel {
                        items: m.events.items.push(PpdValue::BatteryAware(b)),
                        ..m.events
                    },
                    repaint_requests: spec_bump_repaints(m.repaint_requests, m.repaint_handle),
                    ..m
                }
            },
        }
    }
}

/// Whether the entry point's wait is over: cancellation fired or some
/// concurrent unit finished, whichever came first.
pub open spec fn spec_should_return(m: BridgeModel) -> bool {
    m.cancelled || !m.profile_listener_alive || !m.toggle_listener_alive || !m.dispatcher_alive
}

/// The entry point returns to its caller.
pub open spec fn spec_terminate(m: BridgeModel) -> BridgeModel {
    BridgeModel { phase: Phase::Terminated, ..m }
}

/// The bridge after the profile listener has handled every notification in
/// `names`, oldest first.
pub open spec fn spec_deliver_profiles(m: BridgeModel, names: Seq<Seq<char>>) -> BridgeModel
    decreases names.len(),
{
    if names.len() == 0 {
        m
    } else {
        spec_deliver_profiles(
            spec_on_profile_notification(m, Some(names.first())),
            names.drop_first(),
        )
    }
}

/// The bridge after the toggle listener has handled every notification in
/// `values`, oldest first.
pub open spec fn spec_deliver_toggles(m: BridgeModel, values: Seq<bool>) -> BridgeModel
    decreases values.len(),
{
    if values.len() == 0 {
        m
    } else {
        spec_deliver_toggles(
            spec_on_toggle_notification(m, Some(values.first())),
            values.drop_first(),
        )
    }
}

/// The bidirectional synchronization bridge, as one explicit state machine.
/// Every step an asynchronous runner would take — the registrar consuming the
/// first command, a listener handling one notification, the dispatcher
/// popping one command and learning how the write went — is one method here,
/// and each method's contract ties it to the matching `spec_` transition.
pub struct Bridge {
    commands: Queue,
    events: Queue,
    repaint_handle: Option<RepaintHandle>,
    handle_decided: bool,
    profile_listener_alive: bool,
    toggle_listener_alive: bool,
    dispatcher_alive: bool,
    cancelled: bool,
    repaint_requests: u64,
    phase: Phase,
}

impl View for Bridge {
    type V = BridgeModel;

    closed spec fn view(&self) -> BridgeModel {
        BridgeModel {
            commands: self.commands@,
            events: self.events@,
            repaint_handle: self.repaint_handle,
            handle_decided: self.handle_decided,
            profile_listener_alive: self.profile_listener_alive,
            toggle_listener_alive: self.toggle_listener_alive,
            dispatcher_alive: self.dispatcher_alive,
            cancelled: self.cancelled,
            repaint_requests: self.repaint_requests,
            phase: self.phase,
        }
    }
}

impl Bridge {
    pub fn new() -> (b: Bridge)
        ensures
            b@ == spec_init(),
    {
        let b = Bridge {
            commands: Queue::new(),
            events: Queue::new(),
            repaint_handle: None,
            handle_decided: false,
            profile_listener_alive: true,
            toggle_listener_alive: true,
            dispatcher_alive: true,
            cancelled: false,
            repaint_requests: 0,
            phase: Phase::AwaitHandle,
        };
        assert(b@ =~= spec_init());
        b
    }

    /// The consumer's non-blocking send; it fails exactly when the command
    /// queue has been shut.
    pub fn send_command(&mut self, c: PpdValue) -> (r: Result<(), Closed>)
        ensures
            final(self)@ == spec_send_command(old(self)@, c),
            r is Ok <==> !old(self)@.commands.closed,
    {
        let r = self.commands.send(c);
        assert(self@ =~= spec_send_command(old(self)@, c));
        r
    }

    /// The consumer's non-blocking poll of the event queue.
    pub fn try_receive_event(&mut self) -> (r: Option<PpdValue>)
        ensures
            final(self)@ == spec_try_receive_event(old(self)@).0,
            r == spec_try_receive_event(old(self)@).1,
    {
        let r = self.events.try_receive();
        assert(self@ =~= spec_try_receive_event(old(self)@).0);
        r
    }

    /// Whether an event is waiting to be polled.
    pub fn event_pending(&self) -> (b: bool)
        ensures
            b == (self@.events.items.len() > 0),
    {
        self.events.len() > 0
    }

    /// The consumer drops its command producer.
    pub fn close_commands(&mut self)
        ensures
            final(self)@ == spec_close_commands(old(self)@),
    {
        self.commands.close();
        assert(self@ =~= spec_close_commands(old(self)@));
    }

    /// The consumer drops its event receiver.
    pub fn close_events(&mut self)
        ensures
            final(self)@ == spec_close_events(old(self)@),
    {
        self.events.close();
        assert(self@ =~= spec_close_events(old(self)@));
    }

    /// Trigger the shared cancellation signal. Idempotent.
    pub fn cancel(&mut self)
        ensures
            final(self)@ == spec_cancel(old(self)@),
    {
        self.cancelled = true;
        assert(self@ =~= spec_cancel(old(self)@));
    }

    /// The registrar's step; `done` says whether the bridge is now active.
    pub fn await_handle_step(&mut self) -> (done: bool)
        ensures
            final(self)@ == spec_await_handle(old(self)@),
            done == (spec_await_handle(old(self)@).phase is Active),
    {
        if !(self.phase == Phase::AwaitHandle) || self.cancelled {
            assert(self@ =~= spec_await_handle(old(self)@));
            self.phase == Phase::Active
        } else {
            match self.commands.receive() {
                Received::Msg(c) => {
                    self.repaint_handle = match c {
                        PpdValue::Context(h) => Some(h),
                        _ => None,
                    };
                    self.handle_decided = true;
                    self.phase = Phase::Active;
                    assert(self@ =~= spec_await_handle(old(self)@));
                    true
                },
                Received::Shut => {
                    self.handle_decided = true;
                    self.phase = Phase::Active;
                    assert(self@ =~= spec_await_handle(old(self)@));
                    true
                },
                Received::Pending => {
                    assert(self@ =~= spec_await_handle(old(self)@));
                    false
                },
            }
        }
    }

    /// One dispatcher step; the caller performs the returned action and then
    /// reports a write's outcome through `on_write_result`.
    pub fn dispatcher_next(&mut self) -> (a: DispatchAction)
        ensures
            final(self)@ == spec_dispatch(old(self)@).0,
            a == spec_dispatch(old(self)@).1,
    {
        if !self.dispatcher_alive {
            assert(self@ =~= spec_dispatch(old(self)@).0);
            DispatchAction::Stop
        } else if self.cancelled {
            self.dispatcher_alive = false;
            assert(self@ =~= spec_dispatch(old(self)@).0);
            DispatchAction::Stop
        } else if self.phase == Phase::AwaitHandle {
            assert(self@ =~= spec_dispatch(old(self)@).0);
            DispatchAction::Idle
        } else {
            match self.commands.receive() {
                Received::Msg(c) => {
                    assert(self@ =~= spec_dispatch(old(self)@).0);
                    match c {
                        PpdValue::Profile(p) => DispatchAction::WriteProfile(p),
                        PpdValue::BatteryAware(b) => DispatchAction::WriteToggle(b),
                        PpdValue::Context(_) => DispatchAction::Idle,
                    }
                },
                Received::Shut => {
                    self.dispatcher_alive = false;
                    assert(self@ =~= spec_dispatch(old(self)@).0);
                    DispatchAction::Stop
                },
                Received::Pending => {
                    assert(self@ =~= spec_dispatch(old(self)@).0);
                    DispatchAction::Idle
                },
            }
        }
    }

    /// The runner reports how the write it performed went.
    pub fn on_write_result(&mut self, ok: bool)
        ensures
            final(self)@ == spec_on_write_result(old(self)@, ok),
    {
        if !ok {
            self.dispatcher_alive = false;
        }
        assert(self@ =~= spec_on_write_result(old(self)@, ok));
    }

    /// The profile listener handles one decoded notification.
    pub fn on_profile_notification(&mut self, name: &str)
        ensures
            final(self)@ == spec_on_profile_notification(old(self)@, Some(name@)),
    {
        if !self.profile_listener_alive || self.phase == Phase::AwaitHandle {
            assert(self@ =~= spec_on_profile_notification(old(self)@, Some(name@)));
        } else if self.cancelled {
            self.profile_listener_alive = false;
            assert(self@ =~= spec_on_profile_notification(old(self)@, Some(name@)));
        } else {
            let p = Profile::from_name(name);
            match self.events.send(PpdValue::Profile(p)) {
                Ok(_) => {
                    self.bump_repaints();
                },
                Err(_) => {
                    self.profile_listener_alive = false;
                },
            }
            assert(self@ =~= spec_on_profile_notification(old(self)@, Some(name@)));
        }
    }

    /// The profile listener meets a notification that does not decode; this is
    /// fatal for that listener only.
    pub fn on_profile_decode_failure(&mut self)
        ensures
            final(self)@ == spec_on_profile_notification(old(self)@, Option::<Seq<char>>::None),
    {
        if !self.profile_listener_alive || self.phase == Phase::AwaitHandle {
        } else {
            self.profile_listener_alive = false;
        }
        assert(self@ =~= spec_on_profile_notification(old(self)@, Option::<Seq<char>>::None));
    }

    /// The toggle listener handles one decoded notification.
    pub fn on_toggle_notification(&mut self, value: bool)
        ensures
            final(self)@ == spec_on_toggle_notification(old(self)@, Some(value)),
    {
        if !self.toggle_listener_alive || self.phase == Phase::AwaitHandle {
            assert(self@ =~= spec_on_toggle_notification(old(self)@, Some(value)));
        } else if self.cancelled {
            self.toggle_listener_alive = false;
            assert(self@ =~= spec_on_toggle_notification(old(self)@, Some(value)));
        } else {
            match self.events.send(PpdValue::BatteryAware(value)) {
                Ok(_) => {
                    self.bump_repaints();
                },
                Err(_) => {
                    self.toggle_listener_alive = false;
                },
            }
            assert(self@ =~= spec_on_toggle_notification(old(self)@, Some(value)));
        }
    }

    /// The toggle listener meets a notification that does not decode.
    pub fn on_toggle_decode_failure(&mut self)
        ensures
            final(self)@ == spec_on_toggle_notification(old(self)@, Option::<bool>::None),
    {
        if !self.toggle_listener_alive || self.phase == Phase::AwaitHandle {
        } else {
            self.toggle_listener_alive = false;
        }
        assert(self@ =~= spec_on_toggle_notification(old(self)@, Option::<bool>::None));
    }

    /// Request one redraw through the registered handle, if any.
    fn bump_repaints(&mut self)
        ensures
            final(self)@ == (BridgeModel {
                repaint_requests: spec_bump_repaints(
                    old(self)@.repaint_requests,
                    old(self)@.repaint_handle,
                ),
                ..old(self)@
            }),
    {
        if self.repaint_handle.is_some() {
            if self.repaint_requests < u64::MAX {
                self.repaint_requests = self.repaint_requests + 1;
            }
        }
        assert(self@ =~= (BridgeModel {
            repaint_requests: spec_bump_repaints(
                old(self)@.repaint_requests,
                old(self)@.repaint_handle,
            ),
            ..old(self)@
        }));
    }

    /// Whether the entry point's wait is over.
    pub fn should_return(&self) -> (r: bool)
        ensures
            r == spec_should_return(self@),
    {
        self.cancelled || !self.profile_listener_alive || !self.toggle_listener_alive
            || !self.dispatcher_alive
    }

    /// The entry point returns to its caller.
    pub fn terminate(&mut self)
        ensures
            final(self)@ == spec_terminate(old(self)@),
    {
        self.phase = Phase::Terminated;
        assert(self@ =~= spec_terminate(old(self)@));
    }

    /// The handle registered by the consumer's first command, if any.
    pub fn repaint_handle(&self) -> (h: Option<RepaintHandle>)
        ensures
            h == self@.repaint_handle,
    {
        self.repaint_handle
    }

    /// How many redraws the listeners have requested so far.
    pub fn repaint_requests(&self) -> (n: u64)
        ensures
            n == self@.repaint_requests,
    {
        self.repaint_requests
    }

    /// Where the bridge stands in its life.
    pub fn phase(&self) -> (p: Phase)
        ensures
            p == self@.phase,
    {
        self.phase
    }

    /// Whether the profile listener still runs.
    pub fn profile_listener_runs(&self) -> (b: bool)
        ensures
            b == self@.profile_listener_alive,
    {
        self.profile_listener_alive
    }

    /// Whether the toggle listener still runs.
    pub fn toggle_listener_runs(&self) -> (b: bool)
        ensures
            b == self@.toggle_listener_alive,
    {
        self.toggle_listener_alive
    }

    /// Whether the dispatcher still runs.
    pub fn dispatcher_runs(&self) -> (b: bool)
        ensures
            b == self@.dispatcher_alive,
    {
        self.dispatcher_alive
    }
}

} // verus!
