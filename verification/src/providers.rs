//! Device-info providers: capabilities that compose a status report for a
//! house, consulting the house for device presence before reporting.

use vstd::prelude::*;
use crate::devices::{DeviceState, SmartSocket, SmartThermometer, socket_status, thermometer_status};
use crate::house::SmartHouse;

verus! {

/// The fallback report when the required device labels are absent.
pub open spec fn fallback_report() -> Seq<char> {
    "There aren't any available devices"@
}

/// The composite report of the borrowing provider: both device reports,
/// joined with the fixed separators.
pub open spec fn composite_report(socket_report: Seq<char>, thermo_report: Seq<char>) -> Seq<char> {
    "SOCKET - "@ + socket_report + " \r\n           THERMO - "@ + thermo_report
}

/// Produces a composite status report for a house.
pub trait DeviceInfoProvider {
    /// The exact report this provider produces for the given house.
    spec fn report_string(&self, house: &SmartHouse) -> Seq<char>;

    fn get_device_state(&self, house: &SmartHouse) -> (report: String)
        ensures
            report@ == self.report_string(house),
    ;
}

/// A provider that exclusively owns its socket.
pub struct OwningDeviceInfoProvider {
    pub socket: SmartSocket,
}

impl DeviceInfoProvider for OwningDeviceInfoProvider {
    /// The socket's status if some room lists "socket", else the fallback.
    open spec fn report_string(&self, house: &SmartHouse) -> Seq<char> {
        if house.spec_has_device("socket"@) {
            self.socket.state_string()
        } else {
            fallback_report()
        }
    }

    fn get_device_state(&self, house: &SmartHouse) -> (report: String) {
        let default_result = "There aren't any available devices".to_owned();
        let has_device = house.exists_device("socket");

        if !has_device {
            return default_result;
        }

        self.socket.get_state()
    }
}

/// A provider that borrows its socket and thermometer; both referents must
/// outlive the provider.
pub struct BorrowingDeviceInfoProvider<'a, 'b> {
    pub socket: &'a SmartSocket,
    pub thermo: &'b SmartThermometer,
}

impl<'a, 'b> DeviceInfoProvider for BorrowingDeviceInfoProvider<'a, 'b> {
    /// The fallback if no room lists "socket" nor "thermometer"; otherwise
    /// the composite report of both devices, whichever label was found.
    open spec fn report_string(&self, house: &SmartHouse) -> Seq<char> {
        if !house.spec_has_device("socket"@) && !house.spec_has_device("thermometer"@) {
            fallback_report()
        } else {
            composite_report(self.socket.state_string(), self.thermo.state_string())
        }
    }

    fn get_device_state(&self, house: &SmartHouse) -> (report: String) {
        let default_result = "There aren't any available devices".to_owned();
        let has_socket = house.exists_device("socket");
        let has_thermo = house.exists_device("thermometer");

        if !has_socket && !has_thermo {
            return default_result;
        }

        let socket_report = self.socket.get_state();
        let thermo_report = self.thermo.get_state();

        let mut report = "SOCKET - ".to_owned();
        report.append(socket_report.as_str());
        report.append(" \r\n           THERMO - ");
        report.append(thermo_report.as_str());
        proof {
            assert(report@ =~= self.report_string(house));
        }
        report
    }
}

/// A house with "socket" in at least one room makes the owning provider's
/// report exactly the socket's formatted status string.
pub proof fn lemma_owning_report_when_socket_present(
    provider: &OwningDeviceInfoProvider,
    house: &SmartHouse,
)
    requires
        house.spec_has_device("socket"@),
    ensures
        provider.report_string(house) == socket_status(
            provider.socket.name@,
            provider.socket.state,
        ),
{
}

/// A house with neither "socket" nor "thermometer" in any room makes the
/// borrowing provider's report exactly the fallback string.
pub proof fn lemma_borrowing_report_fallback(
    provider: &BorrowingDeviceInfoProvider,
    house: &SmartHouse,
)
    requires
        !house.spec_has_device("socket"@),
        !house.spec_has_device("thermometer"@),
    ensures
        provider.report_string(house) == fallback_report(),
{
}

/// A house with "thermometer" only still makes the borrowing provider's
/// report include both the socket's and the thermometer's formatted status.
pub proof fn lemma_borrowing_report_includes_both(
    provider: &BorrowingDeviceInfoProvider,
    house: &SmartHouse,
)
    requires
        house.spec_has_device("thermometer"@),
        !house.spec_has_device("socket"@),
    ensures
        provider.report_string(house) == composite_report(
            socket_status(provider.socket.name@, provider.socket.state),
            thermometer_status(
                provider.thermo.name@,
                provider.thermo.state,
                provider.thermo.temperature as int,
            ),
        ),
{
}

} // verus!
