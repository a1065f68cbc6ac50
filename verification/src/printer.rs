//! The privileged printer lifecycle: a binary state machine (not installed /
//! installed) over a virtual output device with a fixed well-known name. The
//! OS device registry is the single source of truth; this module builds the
//! privileged scripts that move the registry between the two states, decides
//! from a non-elevated query's output whether the device exists, and prepares
//! the command lines the host hands to its shell. The scripts run through the
//! elevated runner; the host performs the launches.

use vstd::prelude::*;
use vstd::string::*;

use crate::text::{str_equal, trim_spec, trim_str};

verus! {

/// The virtual device's fixed well-known name.
pub open spec fn printer_name_spec() -> Seq<char> {
    "Open PDF Studio"@
}

/// The device name the lifecycle manages.
pub fn printer_name() -> (r: String)
    ensures
        r@ == printer_name_spec(),
{
    String::from_str("Open PDF Studio")
}

/// The privileged script that installs the device: a best-effort removal of
/// any pre-existing device of the name (errors ignored, which makes install
/// idempotent), then creation bound to the built-in virtual document driver
/// and the interactive prompt-for-destination port.
pub open spec fn install_script_spec() -> Seq<char> {
    "$ErrorActionPreference = 'Stop'\n$printerName = 'Open PDF Studio'\ntry { Remove-Printer -Name $printerName -ErrorAction SilentlyContinue } catch {}\nAdd-Printer -Name $printerName -DriverName 'Microsoft Print to PDF' -PortName 'PORTPROMPT:'"@
}

/// Build the install script.
pub fn install_script() -> (r: String)
    ensures
        r@ == install_script_spec(),
{
    String::from_str(
        "$ErrorActionPreference = 'Stop'\n$printerName = 'Open PDF Studio'\ntry { Remove-Printer -Name $printerName -ErrorAction SilentlyContinue } catch {}\nAdd-Printer -Name $printerName -DriverName 'Microsoft Print to PDF' -PortName 'PORTPROMPT:'",
    )
}

/// The privileged script that removes the device: tolerant of an already
/// absent device (so removal is idempotent), and it also clears orphaned port
/// artifacts left by a legacy naming pattern of earlier versions.
pub open spec fn remove_script_spec() -> Seq<char> {
    "$ErrorActionPreference = 'Stop'\n$printerName = 'Open PDF Studio'\nif (Get-Printer -Name $printerName -ErrorAction SilentlyContinue) { Remove-Printer -Name $printerName }\nGet-PrinterPort | Where-Object { $_.Name -like '*OpenPDFStudio*print-capture*' } | Remove-PrinterPort"@
}

/// Build the removal script.
pub fn remove_script() -> (r: String)
    ensures
        r@ == remove_script_spec(),
{
    String::from_str(
        "$ErrorActionPreference = 'Stop'\n$printerName = 'Open PDF Studio'\nif (Get-Printer -Name $printerName -ErrorAction SilentlyContinue) { Remove-Printer -Name $printerName }\nGet-PrinterPort | Where-Object { $_.Name -like '*OpenPDFStudio*print-capture*' } | Remove-PrinterPort",
    )
}

/// The non-elevated, non-mutating query whose output names the device when it
/// exists and is empty when it does not.
pub open spec fn is_installed_query_spec() -> Seq<char> {
    "Get-Printer -Name 'Open PDF Studio' -ErrorAction SilentlyContinue | Select-Object -ExpandProperty Name"@
}

/// Build the installation query.
pub fn is_installed_query() -> (r: String)
    ensures
        r@ == is_installed_query_spec(),
{
    String::from_str(
        "Get-Printer -Name 'Open PDF Studio' -ErrorAction SilentlyContinue | Select-Object -ExpandProperty Name",
    )
}

/// The device is reported installed exactly when the query's output, trimmed,
/// is the fixed name — an exact match, nothing looser.
pub fn query_reports_installed(output: &String) -> (r: bool)
    ensures
        r == (trim_spec(output@) == printer_name_spec()),
{
    let t = trim_str(output.as_str());
    str_equal(t, "Open PDF Studio")
}

/// The registry after a successful install: the device of the fixed name
/// exists (creation follows a best-effort removal, so a pre-existing device
/// does not multiply).
pub open spec fn install_effect(devices: Set<Seq<char>>) -> Set<Seq<char>> {
    devices.insert(printer_name_spec())
}

/// The registry after a successful removal: no device of the fixed name.
pub open spec fn remove_effect(devices: Set<Seq<char>>) -> Set<Seq<char>> {
    devices.remove(printer_name_spec())
}

/// What the installation query reports over a registry.
pub open spec fn reports_installed(devices: Set<Seq<char>>) -> bool {
    devices.contains(printer_name_spec())
}

/// The lifecycle over the device registry: after an install the query reports
/// the device installed, after a removal it does not, and both operations are
/// idempotent. Devices under other names are never touched.
pub proof fn lemma_printer_lifecycle(devices: Set<Seq<char>>, other: Seq<char>)
    requires
        other != printer_name_spec(),
    ensures
        reports_installed(install_effect(devices)),
        !reports_installed(remove_effect(devices)),
        install_effect(install_effect(devices)) == install_effect(devices),
        remove_effect(remove_effect(devices)) == remove_effect(devices),
        install_effect(devices).contains(other) == devices.contains(other),
        remove_effect(devices).contains(other) == devices.contains(other),
{
    assert(install_effect(install_effect(devices)) =~= install_effect(devices));
    assert(remove_effect(remove_effect(devices)) =~= remove_effect(devices));
}

} // verus!
