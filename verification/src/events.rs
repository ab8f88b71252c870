//! Outbound configuration events and native check-state commands.
//!
//! A configuration event is a fire-and-forget notification to the frontend:
//! a name and a payload. Payloads are plain values; the two numeric payloads
//! are carried as integers (pointer size in pixels, sensitivity in hundredths
//! of the unit threshold) and the shell converts them to the wire's floating
//! point values (`5` becomes `5.0`, `4` becomes `0.04`) when emitting.

use vstd::prelude::*;
use vstd::string::StringExecFns;

verus! {

/// Display mode of the overlay: the event payloads `"laser"` and `"off"`.
#[derive(Clone, Copy, Debug, PartialEq, Eq)]
pub enum Mode {
    Laser,
    Off,
}

/// Payload of a configuration event.
#[derive(Clone, Copy, Debug, PartialEq, Eq)]
pub enum EventValue {
    /// A feedback toggle's new state.
    Flag { on: bool },
    /// The display mode's name.
    ModeName { mode: Mode },
    /// Pointer size in pixels: the wire value is `px` as a float.
    SizePx { px: u64 },
    /// Sensitivity in hundredths: the wire value is `hundredths / 100.0`.
    SensHundredths { hundredths: u64 },
}

impl Mode {
    /// The wire spelling of the mode: `"laser"` or `"off"`.
    pub open spec fn spec_payload_text(self) -> Seq<char> {
        match self {
            Mode::Laser => "laser"@,
            Mode::Off => "off"@,
        }
    }

    /// Builds the wire spelling of the mode.
    pub fn payload_text(&self) -> (r: String)
        ensures
            r@ == self.spec_payload_text(),
    {
        match self {
            Mode::Laser => String::from_str("laser"),
            Mode::Off => String::from_str("off"),
        }
    }
}

/// A configuration event: `name` and payload `value`.
#[derive(Clone, Debug, PartialEq, Eq)]
pub struct ConfigEvent {
    pub name: String,
    pub value: EventValue,
}

/// Mathematical model of a configuration event.
pub ghost struct ConfigEventView {
    pub name: Seq<char>,
    pub value: EventValue,
}

impl View for ConfigEvent {
    type V = ConfigEventView;

    open spec fn view(&self) -> ConfigEventView {
        ConfigEventView { name: self.name@, value: self.value }
    }
}

/// An order to the host toolkit: set the named item's checked flag.
#[derive(Clone, Debug, PartialEq, Eq)]
pub struct CheckCommand {
    pub item_id: String,
    pub checked: bool,
}

/// Mathematical model of a check-state command.
pub ghost struct CheckCommandView {
    pub item_id: Seq<char>,
    pub checked: bool,
}

impl View for CheckCommand {
    type V = CheckCommandView;

    open spec fn view(&self) -> CheckCommandView {
        CheckCommandView { item_id: self.item_id@, checked: self.checked }
    }
}

} // verus!
