//! Synchronization bridge between a frame-driven consumer and an external
//! settings service that pushes change notifications.
//!
//! The bridge is modeled as an explicit state machine: commands flow from the
//! consumer through a command queue to a dispatcher that writes to the
//! external service, and notifications flow from the external service through
//! listeners into an event queue that the consumer drains once per frame.

mod bridge;
mod channel;
mod laws;
mod state;
mod toggle_switch;
mod ui;

pub use bridge::spec_await_handle;
pub use bridge::spec_bump_repaints;
pub use bridge::spec_cancel;
pub use bridge::spec_close_commands;
pub use bridge::spec_close_events;
pub use bridge::spec_deliver_profiles;
pub use bridge::spec_deliver_toggles;
pub use bridge::spec_dispatch;
pub use bridge::spec_init;
pub use bridge::spec_on_profile_notification;
pub use bridge::spec_on_toggle_notification;
pub use bridge::spec_on_write_result;
pub use bridge::spec_send_command;
pub use bridge::spec_should_return;
pub use bridge::spec_terminate;
pub use bridge::spec_try_receive_event;
pub use bridge::spec_wf;
pub use bridge::Bridge;
pub use bridge::BridgeModel;
pub use bridge::DispatchAction;
pub use bridge::Phase;
pub use channel::Closed;
pub use channel::Queue;
pub use channel::QueueModel;
pub use channel::Received;
pub use laws::keeps_registration;
pub use laws::lemma_apply_events_append;
pub use laws::lemma_cancellation_returns_promptly;
pub use laws::lemma_closed_commands_stop_dispatcher;
pub use laws::lemma_no_local_echo;
pub use laws::lemma_profile_stream_order_and_last_value;
pub use laws::lemma_registration_fixed_for_life;
pub use laws::lemma_second_registration_ignored;
pub use laws::lemma_steps_preserve_wf;
pub use laws::lemma_toggle_stream_order_and_last_value;
pub use laws::lemma_write_failure_is_fatal;
pub use laws::profile_event_of;
pub use laws::profile_events_of;
pub use laws::toggle_event_of;
pub use laws::toggle_events_of;
pub use state::lemma_profile_name_round_trip;
pub use state::spec_profile_name;
pub use state::spec_profile_of;
pub use state::Profile;
pub use state::PpdValue;
pub use state::RepaintHandle;
pub use toggle_switch::ToggleSwitch;
pub use ui::spec_apply_event;
pub use ui::spec_apply_events;
pub use ui::AppModel;
pub use ui::PpdApp;
