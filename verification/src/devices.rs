//! Device picker: the list of Spotify Connect devices, moving the selection, and deciding whether
//! playback can be transferred to the selected device.

use vstd::prelude::*;

use crate::keys::{Key, KeyCode};
use crate::text::{decimal, push_decimal, push_str};
use crate::theme;

verus! {

/// One device in the list. Transfer needs an `id`; `is_restricted` means it cannot be controlled.
#[derive(Debug)]
pub struct DeviceEntry {
    pub name: String,
    /// Transfer target id (some Connect devices have none).
    pub id: Option<String>,
    pub type_label: String,
    pub volume: Option<u32>,
    pub is_active: bool,
    pub is_restricted: bool,
}

/// State of the device picker overlay.
#[derive(Debug)]
pub struct DevicePickerState {
    pub items: Vec<DeviceEntry>,
    pub selected: usize,
    pub message: Option<String>,
}

/// What the key handler asks the caller to do.
#[derive(Debug, Clone, Copy, PartialEq, Eq, Structural)]
pub enum DeviceAction {
    Nothing,
    /// Close the overlay.
    Close,
    /// Transfer playback to the selected device.
    Transfer,
    /// Fetch the list again.
    Reload,
}

/// What a key asks of the device picker: `Esc` closes, `Enter` transfers, `r` reloads.
pub open spec fn device_action_spec(key: Key) -> DeviceAction {
    match key.code {
        KeyCode::Esc => DeviceAction::Close,
        KeyCode::Enter => DeviceAction::Transfer,
        KeyCode::Char(c) => if c == 'r' { DeviceAction::Reload } else { DeviceAction::Nothing },
        _ => DeviceAction::Nothing,
    }
}

/// The picker's selection after a key: `↑`/`↓` move it within the list, other keys keep it.
pub open spec fn device_selection_after(s0: DevicePickerState, key: Key) -> usize {
    match key.code {
        KeyCode::Up => if s0.selected > 0 { (s0.selected - 1) as usize } else { 0 },
        KeyCode::Down => if s0.selected + 1 < s0.items@.len() { (s0.selected + 1) as usize } else { s0.selected },
        _ => s0.selected,
    }
}

/// Move the selection for `↑`/`↓` and say what else a key asks for: `Esc` closes, `Enter`
/// transfers, `r` reloads. Other keys do nothing.
pub fn key_action(key: Key, state: &mut DevicePickerState) -> (a: DeviceAction)
    ensures
        a == device_action_spec(key),
        *final(state) == (DevicePickerState { selected: device_selection_after(*old(state), key), ..*old(state) }),
        final(state).items == old(state).items,
        final(state).message == old(state).message,
        match key.code {
            KeyCode::Esc => a == DeviceAction::Close && final(state).selected == old(state).selected,
            KeyCode::Up => a == DeviceAction::Nothing
                && final(state).selected == (if old(state).selected > 0 { old(state).selected - 1 } else { 0 }),
            KeyCode::Down => a == DeviceAction::Nothing
                && final(state).selected == (if old(state).selected + 1 < old(state).items@.len() {
                    old(state).selected + 1
                } else {
                    old(state).selected as int
                }),
            KeyCode::Enter => a == DeviceAction::Transfer && final(state).selected == old(state).selected,
            KeyCode::Char(c) => a == (if c == 'r' { DeviceAction::Reload } else { DeviceAction::Nothing })
                && final(state).selected == old(state).selected,
            _ => a == DeviceAction::Nothing && final(state).selected == old(state).selected,
        },
{
    match key.code {
        KeyCode::Esc => DeviceAction::Close,
        KeyCode::Up => {
            state.selected = if state.selected > 0 { state.selected - 1 } else { 0 };
            DeviceAction::Nothing
        },
        KeyCode::Down => {
            if state.selected < state.items.len() && state.selected + 1 < state.items.len() {
                state.selected = state.selected + 1;
            }
            DeviceAction::Nothing
        },
        KeyCode::Enter => DeviceAction::Transfer,
        KeyCode::Char(c) => if c == 'r' { DeviceAction::Reload } else { DeviceAction::Nothing },
        _ => DeviceAction::Nothing,
    }
}

/// The index of the first active device, if any.
pub open spec fn first_active(items: Seq<DeviceEntry>, i: int) -> bool {
    0 <= i < items.len() && items[i].is_active && forall|j: int| 0 <= j < i ==> !items[j].is_active
}

fn first_active_index(items: &[DeviceEntry]) -> (r: Option<usize>)
    ensures
        match r {
            Some(i) => first_active(items@, i as int),
            None => forall|j: int| 0 <= j < items@.len() ==> !items@[j].is_active,
        },
{
    let mut i: usize = 0;
    while i < items.len()
        invariant
            i <= items@.len(),
            forall|j: int| 0 <= j < i ==> !items@[j].is_active,
        decreases items.len() - i,
    {
        if items[i].is_active {
            return Some(i);
        }
        i = i + 1;
    }
    None
}

impl DevicePickerState {
    /// The picker for a freshly fetched list: the selection starts on the active device (or the
    /// first one), and an empty list is messaged rather than shown blank.
    pub fn from_list(items: Vec<DeviceEntry>) -> (s: DevicePickerState)
        ensures
            s.items == items,
            (exists|i: int| 0 <= i < items@.len() && items@[i].is_active) ==> first_active(items@, s.selected as int),
            (forall|i: int| 0 <= i < items@.len() ==> !items@[i].is_active) ==> s.selected == 0,
            items@.len() == 0 ==> (s.message matches Some(m) && m@ == "No playable devices. Please open the Spotify app"@),
            items@.len() > 0 ==> s.message is None,
    {
        let selected: usize = match first_active_index(&items) {
            Some(i) => i,
            None => 0,
        };
        let message = if items.len() == 0 {
            Some(String::from_str("No playable devices. Please open the Spotify app"))
        } else {
            None
        };
        DevicePickerState { items, selected, message }
    }

    /// The hint line above the list: the message when there is one, else the device count and the
    /// keys.
    pub fn hint(&self) -> (r: String)
        ensures
            match self.message {
                Some(m) => r == m,
                None => r@ == decimal(self.items@.len()) + " devices — ↑↓ select / Enter transfer / r refresh / Esc back"@,
            },
    {
        match &self.message {
            Some(m) => m.clone(),
            None => {
                let mut r = String::new();
                push_decimal(&mut r, self.items.len() as u128);
                push_str(&mut r, " devices — ↑↓ select / Enter transfer / r refresh / Esc back");
                r
            },
        }
    }

    /// The row to highlight: the selection, unless the list is empty.
    pub fn highlighted(&self) -> (r: Option<usize>)
        ensures
            r == (if self.items@.len() > 0 { Some(self.selected) } else { None }),
    {
        if self.items.len() > 0 { Some(self.selected) } else { None }
    }
}

/// Whether transferring to the selected device goes ahead.
#[derive(Debug)]
pub enum TransferPlan {
    /// No device is selected: nothing to do.
    Nothing,
    /// The device cannot be transferred to; the message says why.
    Refuse(String),
    /// Transfer to the device with this id; `name` is shown once it succeeded.
    Go { id: String, name: String },
}

/// What `transfer_plan` decides for the selected device.
pub open spec fn transfer_plan_ok(items: Seq<DeviceEntry>, selected: int, p: TransferPlan) -> bool {
    if 0 <= selected < items.len() {
        let d = items[selected];
        if d.is_restricted {
            p matches TransferPlan::Refuse(m) && m@ == "'"@ + d.name@ + "' is restricted and cannot be transferred to"@
        } else {
            match d.id {
                Some(id) => p matches TransferPlan::Go { id: i, name: n } && i == id && n == d.name,
                None => p matches TransferPlan::Refuse(m) && m@ == "'"@ + d.name@ + "' has no ID and cannot be transferred to"@,
            }
        }
    } else {
        p is Nothing
    }
}

/// Decide the transfer for the selected device: a restricted device or one without an id is
/// refused up front with a message.
pub fn transfer_plan(state: &DevicePickerState) -> (p: TransferPlan)
    ensures
        transfer_plan_ok(state.items@, state.selected as int, p),
{
    if state.selected >= state.items.len() {
        return TransferPlan::Nothing;
    }
    let d = &state.items[state.selected];
    if d.is_restricted {
        let mut m = String::from_str("'");
        push_str(&mut m, d.name.as_str());
        push_str(&mut m, "' is restricted and cannot be transferred to");
        return TransferPlan::Refuse(m);
    }
    match &d.id {
        Some(id) => TransferPlan::Go { id: id.clone(), name: d.name.clone() },
        None => {
            let mut m = String::from_str("'");
            push_str(&mut m, d.name.as_str());
            push_str(&mut m, "' has no ID and cannot be transferred to");
            TransferPlan::Refuse(m)
        },
    }
}

/// The status shown once playback moved to the named device.
pub fn transfer_done_status(name: &str) -> (r: String)
    ensures
        r@ == theme::PLAY@ + " Moved playback to '"@ + name@ + "'"@,
{
    let mut r = String::from_str(theme::PLAY);
    push_str(&mut r, " Moved playback to '");
    push_str(&mut r, name);
    push_str(&mut r, "'");
    r
}

} // verus!
