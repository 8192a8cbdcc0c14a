//! Smart devices and the capability that renders their status as text.

use vstd::prelude::*;
use crate::render::{bool_str, dec_str, bool_to_string, i16_to_string};

verus! {

/// A mains socket with a display name and an on/off state.
pub struct SmartSocket {
    pub name: String,
    pub state: bool,
}

/// A thermometer with a display name, an on/off state and a temperature
/// reading.
pub struct SmartThermometer {
    pub name: String,
    pub state: bool,
    pub temperature: i16,
}

/// The status string of a socket: `Device: {name}, state: {state}`.
pub open spec fn socket_status(name: Seq<char>, state: bool) -> Seq<char> {
    "Device: "@ + name + ", state: "@ + bool_str(state)
}

/// The status string of a thermometer:
/// `Device: {name}, state: {state}, temperature: {temperature}`.
pub open spec fn thermometer_status(name: Seq<char>, state: bool, temperature: int) -> Seq<char> {
    socket_status(name, state) + ", temperature: "@ + dec_str(temperature)
}

/// Renders a device's current status as a human-readable string.
pub trait DeviceState {
    /// The exact string this device's status renders to.
    spec fn state_string(&self) -> Seq<char>;

    fn get_state(&self) -> (r: String)
        ensures
            r@ == self.state_string(),
    ;
}

impl DeviceState for SmartSocket {
    open spec fn state_string(&self) -> Seq<char> {
        socket_status(self.name@, self.state)
    }

    fn get_state(&self) -> (r: String) {
        let mut s = "Device: ".to_owned();
        s.append(self.name.as_str());
        s.append(", state: ");
        let state = bool_to_string(self.state);
        s.append(state.as_str());
        proof {
            assert(s@ =~= self.state_string());
        }
        s
    }
}

impl DeviceState for SmartThermometer {
    open spec fn state_string(&self) -> Seq<char> {
        thermometer_status(self.name@, self.state, self.temperature as int)
    }

    fn get_state(&self) -> (r: String) {
        let mut s = "Device: ".to_owned();
        s.append(self.name.as_str());
        s.append(", state: ");
        let state = bool_to_string(self.state);
        s.append(state.as_str());
        s.append(", temperature: ");
        let temperature = i16_to_string(self.temperature);
        s.append(temperature.as_str());
        proof {
            assert(s@ =~= self.state_string());
        }
        s
    }
}

/// Rendering is deterministic: two sockets with the same observable state
/// render to the same status string.
pub proof fn lemma_socket_status_deterministic(a: &SmartSocket, b: &SmartSocket)
    requires
        a.name@ == b.name@,
        a.state == b.state,
    ensures
        a.state_string() == b.state_string(),
{
}

/// Rendering is deterministic: two thermometers with the same observable
/// state render to the same status string.
pub proof fn lemma_thermometer_status_deterministic(
    a: &SmartThermometer,
    b: &SmartThermometer,
)
    requires
        a.name@ == b.name@,
        a.state == b.state,
        a.temperature == b.temperature,
    ensures
        a.state_string() == b.state_string(),
{
}

} // verus!
