//! Decisions behind the call actions: given what the action reads of the
//! active room, which event is reported and which command the room is given.

use vstd::prelude::*;

verus! {

/// A state change that the room carries out.
#[derive(Clone, Copy, Debug, PartialEq, Eq, Structural)]
pub enum RoomCommand {
    ShareScreen,
    UnshareScreen,
    ToggleMute,
    ToggleDeafen,
}

/// A call event that is reported before the room changes state.
#[derive(Clone, Copy, Debug, PartialEq, Eq, Structural)]
pub enum CallEvent {
    EnableScreenShare,
    DisableScreenShare,
    EnableMicrophone,
    DisableMicrophone,
}

impl CallEvent {
    /// The operation name under which the event is reported.
    pub open spec fn operation_text(self) -> Seq<char> {
        match self {
            CallEvent::EnableScreenShare => "enable screen share"@,
            CallEvent::DisableScreenShare => "disable screen share"@,
            CallEvent::EnableMicrophone => "enable microphone"@,
            CallEvent::DisableMicrophone => "disable microphone"@,
        }
    }

    /// The operation name under which the event is reported.
    pub fn operation(&self) -> (name: &'static str)
        ensures
            name@ == self.operation_text(),
    {
        match self {
            CallEvent::EnableScreenShare => "enable screen share",
            CallEvent::DisableScreenShare => "disable screen share",
            CallEvent::EnableMicrophone => "enable microphone",
            CallEvent::DisableMicrophone => "disable microphone",
        }
    }
}

/// The response to an action: the event to report first, if any, and the
/// command that the room is given afterwards.
#[derive(Clone, Copy, Debug, PartialEq, Eq)]
pub struct Dispatch {
    pub event: Option<CallEvent>,
    pub command: RoomCommand,
}

/// The response to the screen-sharing action in a room: a room that shares
/// its screen stops, any other starts, and the matching event is reported.
pub open spec fn screen_sharing_dispatch(is_screen_sharing: bool) -> Dispatch {
    if is_screen_sharing {
        Dispatch {
            event: Some(CallEvent::DisableScreenShare),
            command: RoomCommand::UnshareScreen,
        }
    } else {
        Dispatch {
            event: Some(CallEvent::EnableScreenShare),
            command: RoomCommand::ShareScreen,
        }
    }
}

/// The response to the mute action in a room: the mute state is toggled, and
/// the event says what that does to the microphone.
pub open spec fn mute_dispatch(is_muted: bool) -> Dispatch {
    Dispatch {
        event: Some(
            if is_muted {
                CallEvent::EnableMicrophone
            } else {
                CallEvent::DisableMicrophone
            },
        ),
        command: RoomCommand::ToggleMute,
    }
}

/// The response to the deafen action in a room: the deafen state is toggled
/// and nothing is reported.
pub open spec fn deafen_dispatch() -> Dispatch {
    Dispatch { event: None, command: RoomCommand::ToggleDeafen }
}

/// Decides what the screen-sharing action does. `is_screen_sharing` is `None`
/// where there is no active room, and nothing happens then; else it says
/// whether the room shares its screen.
pub fn toggle_screen_sharing(is_screen_sharing: Option<bool>) -> (dispatch: Option<Dispatch>)
    ensures
        dispatch == match is_screen_sharing {
            Some(sharing) => Some(screen_sharing_dispatch(sharing)),
            None => None,
        },
{
    match is_screen_sharing {
        Some(true) => Some(
            Dispatch {
                event: Some(CallEvent::DisableScreenShare),
                command: RoomCommand::UnshareScreen,
            },
        ),
        Some(false) => Some(
            Dispatch {
                event: Some(CallEvent::EnableScreenShare),
                command: RoomCommand::ShareScreen,
            },
        ),
        None => None,
    }
}

/// Decides what the mute action does. `is_muted` is `None` where there is no
/// active room, and nothing happens then; else it says whether the room is
/// muted.
pub fn toggle_mute(is_muted: Option<bool>) -> (dispatch: Option<Dispatch>)
    ensures
        dispatch == match is_muted {
            Some(muted) => Some(mute_dispatch(muted)),
            None => None,
        },
{
    match is_muted {
        Some(muted) => {
            let event = if muted {
                CallEvent::EnableMicrophone
            } else {
                CallEvent::DisableMicrophone
            };
            Some(Dispatch { event: Some(event), command: RoomCommand::ToggleMute })
        },
        None => None,
    }
}

/// Decides what the deafen action does. Without an active room nothing
/// happens.
pub fn toggle_deafen(has_room: bool) -> (dispatch: Option<Dispatch>)
    ensures
        dispatch == if has_room {
            Some(deafen_dispatch())
        } else {
            None
        },
{
    if has_room {
        Some(Dispatch { event: None, command: RoomCommand::ToggleDeafen })
    } else {
        None
    }
}

} // verus!
