//! What the library tells its consumers, and what they tell it.
use crate::ffi::{Action, InterfaceType};
use vstd::prelude::*;

verus! {

/// The appearance that the shell is asked to take.
#[derive(Debug, Clone, Copy, PartialEq, Eq, Structural)]
pub enum Theme {
    Light,
    Dark,
    System,
}

/// The channel whose power the status bar shows.
#[derive(Debug, Clone, Copy, PartialEq, Eq, Structural)]
pub enum StatusBarItem {
    System,
    Screen,
    Heatpipe,
}

/// A preference that the user has changed.
#[derive(Debug, PartialEq, Eq)]
pub enum PreferenceEvent {
    Theme(Theme),
    AnimationsEnabled(bool),
    /// Milliseconds between two polls.
    UpdateInterval(u32),
    Language(String),
    StatusBarItem(StatusBarItem),
    StatusBarShowCharging(bool),
}

/// A companion device has come or gone.
#[derive(Debug, PartialEq, Eq)]
pub struct DeviceEvent {
    pub udid: String,
    pub name: String,
    pub interface: InterfaceType,
    pub action: Action,
}

impl Clone for DeviceEvent {
    fn clone(&self) -> (r: Self)
        ensures
            r == *self,
    {
        DeviceEvent {
            udid: self.udid.clone(),
            name: self.name.clone(),
            interface: self.interface,
            action: self.action,
        }
    }
}

/// The text that the status bar is to show.
#[derive(Debug, PartialEq, Eq)]
pub struct PowerUpdatedEvent(pub String);

/// The main window has finished loading.
#[derive(Debug, Clone, Copy, PartialEq, Eq, Structural)]
pub struct WindowLoadedEvent;

/// A charging session has been written to the history.
#[derive(Debug, Clone, Copy, PartialEq, Eq, Structural)]
pub struct HistoryRecordedEvent;

/// An entry of the application menu.
#[derive(Debug, Clone, Copy, PartialEq, Eq, Structural)]
pub enum MenuEvent {
    Preferences,
    Close,
}

} // verus!
