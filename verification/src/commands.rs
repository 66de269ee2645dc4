//! The two commands of the shell and what each of them answers.

use std::collections::HashMap;
use vstd::prelude::*;

verus! {

/// Name of the event that tells the UI layer which hotkey mapping was taken.
pub const HOTKEY_REGISTERED_EVENT: &'static str = "native://hotkey-registered";

/// An event owed to the UI layer: its name and the mapping it carries.
pub struct Notification {
    pub event: &'static str,
    pub payload: HashMap<String, String>,
}

/// What `register_hotkeys` answers: the command's result and the one event
/// that goes out with it.
pub struct HotkeyReply {
    pub result: Result<(), String>,
    pub notification: Notification,
}

/// Plays an audio asset, named by a path or an asset identifier.
///
/// The identifier is opaque: it is neither validated nor resolved, and no
/// playback engine is attached. Every request succeeds.
pub fn play_audio(path_or_asset_id: String) -> (result: Result<(), String>)
    ensures
        result == Ok::<(), String>(()),
{
    let _ = path_or_asset_id;
    Ok(())
}

/// Registers a mapping from hotkey combinations to actions.
///
/// The mapping is taken as it is: no combination is validated and no conflict
/// is looked for. Every request succeeds, and exactly one event named
/// `HOTKEY_REGISTERED_EVENT` is owed, which carries the mapping unchanged.
pub fn register_hotkeys(map: HashMap<String, String>) -> (reply: HotkeyReply)
    ensures
        reply.result == Ok::<(), String>(()),
        reply.notification.event@ == HOTKEY_REGISTERED_EVENT@,
        reply.notification.payload == map,
{
    HotkeyReply {
        result: Ok(()),
        notification: Notification { event: HOTKEY_REGISTERED_EVENT, payload: map },
    }
}

} // verus!
