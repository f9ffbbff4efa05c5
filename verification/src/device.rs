use vstd::prelude::*;
use vstd::string::*;

use crate::storage::DeviceRegistration;

verus! {

/// What the server answers to a device registration; every field may be missing.
#[derive(Debug, Clone)]
pub struct DeviceCreateResponse {
    pub device_id: Option<String>,
    pub device_name: Option<String>,
    pub platform: Option<String>,
}

/// The platform label: operating system, a space, architecture.
pub fn platform_label(os: &str, arch: &str) -> (r: String)
    ensures
        r@ == os@ + " "@ + arch@,
{
    let mut s = String::from_str(os);
    s.append(" ");
    s.append(arch);
    s
}

/// The host name, or `unknown` when it could not be read.
pub open spec fn device_name_text(host: Option<String>) -> Seq<char> {
    match host {
        Some(h) => h@,
        None => "unknown"@,
    }
}

/// The host name, or `unknown` when it could not be read.
pub fn host_name_or_unknown(host: Option<String>) -> (r: String)
    ensures
        r@ == device_name_text(host),
{
    match host {
        Some(h) => h,
        None => String::from_str("unknown"),
    }
}

/// A device is named by its host name whenever one was read, and `unknown`
/// only when none could be read.
pub proof fn law_device_name_is_host_name(host: Option<String>)
    ensures
        host matches Some(h) ==> device_name_text(host) == h@,
        host is None ==> device_name_text(host) == "unknown"@,
{
}

/// Reads this machine's host name. Trusted: calls `whoami::fallible::hostname`
/// and keeps the name when it could be read; nothing is claimed of the value,
/// which depends on the machine.
#[verifier::external_body]
fn read_hostname() -> (r: Option<String>) {
    whoami::fallible::hostname().ok()
}

/// The name this machine goes by: `host_name_or_unknown` of the host name
/// read from the system. Nothing is claimed of the result, which depends on
/// the machine; what is made of a reading is stated by `host_name_or_unknown`.
pub fn this_device_name() -> (r: String)
{
    host_name_or_unknown(read_hostname())
}

/// Whether a device still has to be registered for the user: only when none
/// is stored for them.
pub fn needs_registration(existing: &Option<DeviceRegistration>) -> (r: bool)
    ensures
        r == existing is None,
{
    existing.is_none()
}

/// The error text when the server's answer has no device id.
pub open spec fn missing_device_id_message() -> Seq<char> {
    "response missing device_id"@
}

/// The registration to store from the server's answer: the device id must be
/// there; a missing name or platform falls back to this machine's.
pub fn registration_from_response(
    user_id: String,
    response: DeviceCreateResponse,
    fallback_name: String,
    fallback_platform: String,
) -> (r: Result<DeviceRegistration, String>)
    ensures
        r is Ok <==> response.device_id is Some,
        r matches Err(m) ==> m@ == missing_device_id_message(),
        r matches Ok(d) ==> {
            &&& d.user_id == user_id
            &&& Some(d.device_id) == response.device_id
            &&& d.device_name == (match response.device_name {
                Some(n) => n,
                None => fallback_name,
            })
            &&& d.platform == (match response.platform {
                Some(p) => p,
                None => fallback_platform,
            })
        },
{
    let device_id = match response.device_id {
        Some(id) => id,
        None => {
            return Err(String::from_str("response missing device_id"));
        },
    };
    let device_name = match response.device_name {
        Some(n) => n,
        None => fallback_name,
    };
    let platform = match response.platform {
        Some(p) => p,
        None => fallback_platform,
    };
    Ok(DeviceRegistration { user_id, device_id, device_name, platform })
}

} // verus!
