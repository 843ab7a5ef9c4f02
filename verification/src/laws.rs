use vstd::prelude::*;

use crate::bridge::spec_await_handle;
use crate::bridge::spec_cancel;
use crate::bridge::spec_close_commands;
use crate::bridge::spec_close_events;
use crate::bridge::spec_deliver_profiles;
use crate::bridge::spec_deliver_toggles;
use crate::bridge::spec_dispatch;
use crate::bridge::spec_on_profile_notification;
use crate::bridge::spec_on_toggle_notification;
use crate::bridge::spec_on_write_result;
use crate::bridge::spec_send_command;
use crate::bridge::spec_should_return;
use crate::bridge::spec_terminate;
use crate::bridge::spec_try_receive_event;
use crate::bridge::spec_wf;
use crate::bridge::BridgeModel;
use crate::bridge::DispatchAction;
use crate::state::spec_profile_of;
use crate::state::PpdValue;
use crate::state::RepaintHandle;
use crate::ui::spec_apply_event;
use crate::ui::spec_apply_events;
use crate::ui::AppModel;

verus! {

/// The event the profile listener enqueues for one notification.
pub open spec fn profile_event_of(s: Seq<char>) -> PpdValue {
    PpdValue::Profile(spec_profile_of(s))
}

/// The events the profile listener enqueues for a whole notification stream,
/// in the order the external service emitted it.
pub open spec fn profile_events_of(names: Seq<Seq<char>>) -> Seq<PpdValue> {
    names.map_values(|s: Seq<char>| profile_event_of(s))
}

proof fn lemma_profile_delivery_in_order(m: BridgeModel, names: Seq<Seq<char>>)
    requires
        m.phase is Active,
        m.profile_listener_alive,
        !m.events.closed,
        !m.cancelled,
    ensures
        spec_deliver_profiles(m, names).events.items == m.events.items + profile_events_of(names),
        spec_deliver_profiles(m, names).profile_listener_alive,
        spec_deliver_profiles(m, names).phase == m.phase,
        !spec_deliver_profiles(m, names).events.closed,
        !spec_deliver_profiles(m, names).cancelled,
    decreases names.len(),
{
    if names.len() == 0 {
        assert(m.events.items + profile_events_of(names) =~= m.events.items);
    } else {
        let m1 = spec_on_profile_notification(m, Some(names.first()));
        lemma_profile_delivery_in_order(m1, names.drop_first());
        assert(m.events.items + profile_events_of(names) =~= m1.events.items
            + profile_events_of(names.drop_first()));
    }
}

/// Applying the events of one queue and then those of another is applying
/// their concatenation.
pub proof fn lemma_apply_events_append(a: AppModel, xs: Seq<PpdValue>, ys: Seq<PpdValue>)
    ensures
        spec_apply_events(a, xs + ys) == spec_apply_events(spec_apply_events(a, xs), ys),
    decreases xs.len(),
{
    if xs.len() == 0 {
        assert(xs + ys =~= ys);
    } else {
        assert((xs + ys).drop_first() =~= xs.drop_first() + ys);
        lemma_apply_events_append(spec_apply_event(a, xs.first()), xs.drop_first(), ys);
    }
}

proof fn lemma_drained_profile_is_last(a: AppModel, names: Seq<Seq<char>>)
    requires
        names.len() > 0,
    ensures
        spec_apply_events(a, profile_events_of(names)).current_profile == spec_profile_of(
            names.last(),
        ),
    decreases names.len(),
{
    let a1 = spec_apply_event(a, profile_event_of(names.first()));
    if names.len() == 1 {
        assert(profile_events_of(names).drop_first() =~= profile_events_of(names.drop_first()));
        assert(profile_events_of(names.drop_first()) =~= Seq::<PpdValue>::empty());
    } else {
        assert(profile_events_of(names).drop_first() =~= profile_events_of(names.drop_first()));
        lemma_drained_profile_is_last(a1, names.drop_first());
        assert(names.drop_first().last() == names.last());
    }
}

/// For every sequence of external notifications of the profile setting: the
/// event queue yields them in the same relative order the service emitted
/// them, and a consumer that afterwards drains the whole queue observes the
/// last notification's decoded value.
pub proof fn lemma_profile_stream_order_and_last_value(
    m: BridgeModel,
    names: Seq<Seq<char>>,
    a: AppModel,
)
    requires
        m.phase is Active,
        m.profile_listener_alive,
        !m.events.closed,
        !m.cancelled,
    ensures
        spec_deliver_profiles(m, names).events.items == m.events.items + profile_events_of(names),
        forall|i: int|
            0 <= i < names.len() ==> spec_deliver_profiles(m, names).events.items[m.events.items.len()
                + i] == profile_event_of(names[i]),
        names.len() > 0 ==> spec_apply_events(
            a,
            spec_deliver_profiles(m, names).events.items,
        ).current_profile == spec_profile_of(names.last()),
{
    lemma_profile_delivery_in_order(m, names);
    if names.len() > 0 {
        lemma_apply_events_append(a, m.events.items, profile_events_of(names));
        lemma_drained_profile_is_last(spec_apply_events(a, m.events.items), names);
    }
}

/// The event the toggle listener enqueues for one notification.
pub open spec fn toggle_event_of(b: bool) -> PpdValue {
    PpdValue::BatteryAware(b)
}

/// The events the toggle listener enqueues for a whole notification stream,
/// in the order the external service emitted it.
pub open spec fn toggle_events_of(values: Seq<bool>) -> Seq<PpdValue> {
    values.map_values(|b: bool| toggle_event_of(b))
}

/// The toggle stream enjoys the same delivery guarantee as the profile
/// stream: while its listener runs against an open event queue and no
/// cancellation, handling the notifications in `values` appends exactly their
/// events, in emission order, and a consumer that afterwards drains the whole
/// queue observes the last notification's value.
pub proof fn lemma_toggle_stream_order_and_last_value(
    m: BridgeModel,
    values: Seq<bool>,
    a: AppModel,
)
    requires
        m.phase is Active,
        m.toggle_listener_alive,
        !m.events.closed,
        !m.cancelled,
    ensures
        spec_deliver_toggles(m, values).events.items == m.events.items + toggle_events_of(values),
        spec_deliver_toggles(m, values).toggle_listener_alive,
        forall|i: int|
            0 <= i < values.len() ==> spec_deliver_toggles(m, values).events.items[m.events.items.len()
                + i] == toggle_event_of(values[i]),
        values.len() > 0 ==> spec_apply_events(
            a,
            spec_deliver_toggles(m, values).events.items,
        ).battery_aware == values.last(),
{
    lemma_toggle_delivery_in_order(m, values);
    if values.len() > 0 {
        lemma_apply_events_append(a, m.events.items, toggle_events_of(values));
        lemma_drained_toggle_is_last(spec_apply_events(a, m.events.items), values);
    }
}

proof fn lemma_toggle_delivery_in_order(m: BridgeModel, values: Seq<bool>)
    requires
        m.phase is Active,
        m.toggle_listener_alive,
        !m.events.closed,
        !m.cancelled,
    ensures
        spec_deliver_toggles(m, values).events.items == m.events.items + toggle_events_of(values),
        spec_deliver_toggles(m, values).toggle_listener_alive,
        spec_deliver_toggles(m, values).phase == m.phase,
        !spec_deliver_toggles(m, values).events.closed,
        !spec_deliver_toggles(m, values).cancelled,
    decreases values.len(),
{
    if values.len() == 0 {
        assert(m.events.items + toggle_events_of(values) =~= m.events.items);
    } else {
        let m1 = spec_on_toggle_notification(m, Some(values.first()));
        lemma_toggle_delivery_in_order(m1, values.drop_first());
        assert(m.events.items + toggle_events_of(values) =~= m1.events.items + toggle_events_of(
            values.drop_first(),
        ));
    }
}

proof fn lemma_drained_toggle_is_last(a: AppModel, values: Seq<bool>)
    requires
        values.len() > 0,
    ensures
        spec_apply_events(a, toggle_events_of(values)).battery_aware == values.last(),
    decreases values.len(),
{
    let a1 = spec_apply_event(a, toggle_event_of(values.first()));
    assert(toggle_events_of(values).drop_first() =~= toggle_events_of(values.drop_first()));
    if values.len() == 1 {
        assert(toggle_events_of(values.drop_first()) =~= Seq::<PpdValue>::empty());
    } else {
        lemma_drained_toggle_is_last(a1, values.drop_first());
        assert(values.drop_first().last() == values.last());
    }
}

/// Registering a repaint handle a second time never replaces the first: the
/// registrar takes `Context(h1)` from the first slot, and when the dispatcher
/// later meets `Context(h2)` it discards it without any write, so the handle
/// in use is still `h1`.
pub proof fn lemma_second_registration_ignored(
    m: BridgeModel,
    h1: RepaintHandle,
    h2: RepaintHandle,
)
    requires
        m.phase is AwaitHandle,
        !m.cancelled,
        m.dispatcher_alive,
        m.commands.items.len() >= 2,
        m.commands.items[0] == PpdValue::Context(h1),
        m.commands.items[1] == PpdValue::Context(h2),
    ensures
        spec_await_handle(m).repaint_handle == Some(h1),
        spec_dispatch(spec_await_handle(m)).0.repaint_handle == Some(h1),
        spec_dispatch(spec_await_handle(m)).1 is Idle,
{
    let m1 = spec_await_handle(m);
    assert(m.commands.items.first() == PpdValue::Context(h1));
    assert(m1.commands.items.first() == PpdValue::Context(h2));
}

/// A failed write is fatal for the dispatcher and only for it: the dispatcher
/// stops at once, a stopped dispatcher pops and applies nothing ever again,
/// and no later command revives it.
pub proof fn lemma_write_failure_is_fatal(m: BridgeModel)
    ensures
        !spec_on_write_result(m, false).dispatcher_alive,
        spec_on_write_result(m, false).profile_listener_alive == m.profile_listener_alive,
        spec_on_write_result(m, false).toggle_listener_alive == m.toggle_listener_alive,
        forall|m2: BridgeModel|
            !m2.dispatcher_alive ==> #[trigger] spec_dispatch(m2) == (m2, DispatchAction::Stop),
        forall|m2: BridgeModel, c: PpdValue|
            !m2.dispatcher_alive ==> !(#[trigger] spec_send_command(m2, c)).dispatcher_alive,
{
}

/// Closing the command queue's producer terminates the dispatcher loop on its
/// very next step, without a write and without touching anything else.
pub proof fn lemma_closed_commands_stop_dispatcher(m: BridgeModel)
    requires
        m.phase is Active,
        m.dispatcher_alive,
        !m.cancelled,
        m.commands.items.len() == 0,
    ensures
        spec_dispatch(spec_close_commands(m)).1 is Stop,
        !spec_dispatch(spec_close_commands(m)).0.dispatcher_alive,
        spec_dispatch(spec_close_commands(m)).0.events == m.events,
        spec_dispatch(spec_close_commands(m)).0.repaint_handle == m.repaint_handle,
{
}

/// Whether a step from `m` to `m2` keeps the one-time registration as it was.
pub open spec fn keeps_registration(m: BridgeModel, m2: BridgeModel) -> bool {
    m2.repaint_handle == m.repaint_handle && m2.handle_decided == m.handle_decided
}

/// The repaint handle is fixed for the bridge's life: once the registrar has
/// decided, no step of any unit replaces or withdraws the registration.
pub proof fn lemma_registration_fixed_for_life(
    m: BridgeModel,
    c: PpdValue,
    s: Option<Seq<char>>,
    v: Option<bool>,
    ok: bool,
)
    requires
        spec_wf(m),
        m.handle_decided,
    ensures
        keeps_registration(m, spec_send_command(m, c)),
        keeps_registration(m, spec_close_commands(m)),
        keeps_registration(m, spec_close_events(m)),
        keeps_registration(m, spec_cancel(m)),
        keeps_registration(m, spec_try_receive_event(m).0),
        keeps_registration(m, spec_await_handle(m)),
        keeps_registration(m, spec_dispatch(m).0),
        keeps_registration(m, spec_on_write_result(m, ok)),
        keeps_registration(m, spec_on_profile_notification(m, s)),
        keeps_registration(m, spec_on_toggle_notification(m, v)),
        keeps_registration(m, spec_terminate(m)),
{
}

/// Every step preserves the bridge's internal consistency.
pub proof fn lemma_steps_preserve_wf(
    m: BridgeModel,
    c: PpdValue,
    s: Option<Seq<char>>,
    v: Option<bool>,
    ok: bool,
)
    requires
        spec_wf(m),
    ensures
        spec_wf(spec_send_command(m, c)),
        spec_wf(spec_close_commands(m)),
        spec_wf(spec_close_events(m)),
        spec_wf(spec_cancel(m)),
        spec_wf(spec_try_receive_event(m).0),
        spec_wf(spec_await_handle(m)),
        spec_wf(spec_dispatch(m).0),
        spec_wf(spec_on_write_result(m, ok)),
        spec_wf(spec_on_profile_notification(m, s)),
        spec_wf(spec_on_toggle_notification(m, v)),
        spec_wf(spec_terminate(m)),
{
}

/// Events are never a local echo of commands: no consumer-side, registrar or
/// dispatcher step enqueues an event — in particular a successful write does
/// not — so every event on the queue reflects a notification a listener
/// observed from the external service.
pub proof fn lemma_no_local_echo(m: BridgeModel, c: PpdValue, ok: bool)
    ensures
        spec_send_command(m, c).events.items == m.events.items,
        spec_close_commands(m).events.items == m.events.items,
        spec_cancel(m).events.items == m.events.items,
        spec_await_handle(m).events.items == m.events.items,
        spec_dispatch(m).0.events.items == m.events.items,
        spec_on_write_result(m, ok).events.items == m.events.items,
        spec_terminate(m).events.items == m.events.items,
{
}

/// Triggering cancellation makes the bridge entry point stop waiting at once,
/// whatever every unit is suspended on — no notification or command has to
/// arrive first — and triggering it twice is the same as triggering it once.
pub proof fn lemma_cancellation_returns_promptly(m: BridgeModel)
    ensures
        spec_cancel(m).cancelled,
        spec_should_return(spec_cancel(m)),
        spec_cancel(spec_cancel(m)) == spec_cancel(m),
{
}

} // verus!
