//! The logic of the collaboration user interface: what the call actions do,
//! who sees the channels feature, and how the time of a message is shown.

pub mod actions;
pub mod calendar;
pub mod decimal;
pub mod features;
pub mod format;
pub mod timestamp;

pub use actions::{
    toggle_deafen, toggle_mute, toggle_screen_sharing, CallEvent, Dispatch, RoomCommand,
};
pub use calendar::Date;
pub use features::is_channels_feature_enabled;
pub use format::{format_local_timestamp, format_timestamp};
pub use timestamp::{LocalDateTime, Timestamp, UtcOffset};
