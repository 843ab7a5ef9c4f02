use vstd::prelude::*;

use crate::bridge::Bridge;
use crate::bridge::BridgeModel;
use crate::channel::QueueModel;
use crate::state::PpdValue;
use crate::state::Profile;

verus! {

/// The mathematical content of the consumer's state: the selectable profiles,
/// the profile and toggle values as last observed, and whether the one-time
/// registration command has been issued.
#[verifier::ext_equal]
pub struct AppModel {
    pub profiles: Seq<Profile>,
    pub current_profile: Profile,
    pub battery_aware: bool,
    pub context_sent: bool,
}

/// The consumer's own state: what its controls show. It never blocks on the
/// bridge; once per frame it drains whatever events are available and sends
/// commands fire-and-forget.
pub struct PpdApp {
    pub profiles: Vec<Profile>,
    pub current_profile: Profile,
    pub battery_aware: bool,
    context_sent: bool,
}

impl View for PpdApp {
    type V = AppModel;

    closed spec fn view(&self) -> AppModel {
        AppModel {
            profiles: self.profiles@,
            current_profile: self.current_profile,
            battery_aware: self.battery_aware,
            context_sent: self.context_sent,
        }
    }
}

/// One event applied to the consumer's state: a profile event replaces the
/// observed profile, a toggle event replaces the observed toggle, and a
/// registration value carries nothing for the consumer.
pub open spec fn spec_apply_event(a: AppModel, e: PpdValue) -> AppModel {
    match e {
        PpdValue::Profile(p) => AppModel { current_profile: p, ..a },
        PpdValue::BatteryAware(b) => AppModel { battery_aware: b, ..a },
        PpdValue::Context(_) => a,
    }
}

/// The consumer's state after applying each event in `evs`, oldest first.
pub open spec fn spec_apply_events(a: AppModel, evs: Seq<PpdValue>) -> AppModel
    decreases evs.len(),
{
    if evs.len() == 0 {
        a
    } else {
        spec_apply_events(spec_apply_event(a, evs.first()), evs.drop_first())
    }
}

impl PpdApp {
    pub fn new(profiles: Vec<Profile>, current_profile: Profile, battery_aware: bool) -> (app:
        PpdApp)
        ensures
            app@.profiles == profiles@,
            app@.current_profile == current_profile,
            app@.battery_aware == battery_aware,
            !app@.context_sent,
    {
        PpdApp { profiles, current_profile, battery_aware, context_sent: false }
    }

    /// Replace the observed profile.
    pub fn update_profile(&mut self, profile: Profile)
        ensures
            final(self)@ == (AppModel { current_profile: profile, ..old(self)@ }),
    {
        self.current_profile = profile;
        assert(self@ =~= (AppModel { current_profile: profile, ..old(self)@ }));
    }

    /// Replace the observed toggle.
    pub fn update_battery_aware(&mut self, value: bool)
        ensures
            final(self)@ == (AppModel { battery_aware: value, ..old(self)@ }),
    {
        self.battery_aware = value;
        assert(self@ =~= (AppModel { battery_aware: value, ..old(self)@ }));
    }

    /// Apply one event received from the bridge.
    pub fn apply_event(&mut self, event: &PpdValue)
        ensures
            final(self)@ == spec_apply_event(old(self)@, *event),
    {
        match event {
            PpdValue::Profile(p) => self.update_profile(*p),
            PpdValue::BatteryAware(b) => self.update_battery_aware(*b),
            PpdValue::Context(_) => {
                assert(self@ =~= spec_apply_event(old(self)@, *event));
            },
        }
    }

    /// Whether the one-time registration command still has to be sent; true at
    /// most once over the consumer's life.
    pub fn take_context_send(&mut self) -> (send: bool)
        ensures
            send == !old(self)@.context_sent,
            final(self)@ == (AppModel { context_sent: true, ..old(self)@ }),
    {
        let send = !self.context_sent;
        self.context_sent = true;
        assert(self@ =~= (AppModel { context_sent: true, ..old(self)@ }));
        send
    }

    /// The command a click on the toggle control asks the bridge to dispatch:
    /// the opposite of the observed toggle value.
    pub fn toggle_command(&self) -> (c: PpdValue)
        ensures
            c == PpdValue::BatteryAware(!self@.battery_aware),
    {
        PpdValue::BatteryAware(!self.battery_aware)
    }

    /// One frame's drain: poll the bridge until no event is available, and
    /// apply each event in the order the queue yields them.
    pub fn drain_events(&mut self, bridge: &mut Bridge)
        ensures
            final(self)@ == spec_apply_events(old(self)@, old(bridge)@.events.items),
            final(bridge)@ == (BridgeModel {
                events: QueueModel { items: Seq::empty(), ..old(bridge)@.events },
                ..old(bridge)@
            }),
    {
        while bridge.event_pending()
            invariant
                spec_apply_events(self@, bridge@.events.items) == spec_apply_events(
                    old(self)@,
                    old(bridge)@.events.items,
                ),
                bridge@ == (BridgeModel {
                    events: QueueModel { items: bridge@.events.items, ..old(bridge)@.events },
                    ..old(bridge)@
                }),
            decreases bridge@.events.items.len(),
        {
            match bridge.try_receive_event() {
                Some(e) => {
                    self.apply_event(&e);
                },
                None => {
                    proof {
                        assert(false);
                    }
                },
            }
        }
        assert(bridge@.events.items =~= Seq::<PpdValue>::empty());
        assert(bridge@ =~= (BridgeModel {
            events: QueueModel { items: Seq::empty(), ..old(bridge)@.events },
            ..old(bridge)@
        }));
    }
}

} // verus!
