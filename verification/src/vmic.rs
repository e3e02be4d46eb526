use vstd::prelude::*;
use vstd::string::*;

use crate::strutil::{chars_contain_str, chars_of, lower_chars, spec_contains_seq, spec_lower};
use crate::types::VirtualMicStatus;

verus! {

/// Where the virtual microphone's driver service stands, as read from a
/// service-manager query.
#[derive(Clone, Copy, Debug, PartialEq, Eq, Structural)]
pub enum DriverServiceState {
    Running,
    Stopped,
    NotFound,
    Unknown,
}

/// What a service-manager query's output means, judged case-insensitively:
/// a not-found report, a running service, a stopped or stopping service,
/// any other successful query, or a failed one.
pub open spec fn spec_classify_service_query(text: Seq<char>, success: bool) -> (
    DriverServiceState,
    Seq<char>,
) {
    let lower = spec_lower(text);
    if spec_contains_seq(lower, "failed 1060"@) || spec_contains_seq(lower, "does not exist"@) {
        (DriverServiceState::NotFound, "not installed"@)
    } else if spec_contains_seq(lower, "running"@) {
        (DriverServiceState::Running, "running"@)
    } else if spec_contains_seq(lower, "stopped"@) || spec_contains_seq(lower, "stop pending"@) {
        (DriverServiceState::Stopped, "installed but not running"@)
    } else if success {
        (DriverServiceState::Unknown, "registered (state unknown)"@)
    } else {
        (DriverServiceState::Unknown, "query failed (check administrator rights)"@)
    }
}

/// Classifies the combined output of a driver-service query, together with
/// whether the query itself succeeded, into a service state and a short
/// human-readable label.
pub fn classify_service_query(text: &str, success: bool) -> (r: (DriverServiceState, String))
    ensures
        r.0 == spec_classify_service_query(text@, success).0,
        r.1@ == spec_classify_service_query(text@, success).1,
{
    let chars = chars_of(text);
    let lower = lower_chars(&chars);
    if chars_contain_str(&lower, "failed 1060") || chars_contain_str(&lower, "does not exist") {
        (DriverServiceState::NotFound, String::from_str("not installed"))
    } else if chars_contain_str(&lower, "running") {
        (DriverServiceState::Running, String::from_str("running"))
    } else if chars_contain_str(&lower, "stopped") || chars_contain_str(&lower, "stop pending") {
        (DriverServiceState::Stopped, String::from_str("installed but not running"))
    } else if success {
        (DriverServiceState::Unknown, String::from_str("registered (state unknown)"))
    } else {
        (DriverServiceState::Unknown, String::from_str("query failed (check administrator rights)"))
    }
}

/// Whether a device name names the virtual microphone endpoint, judged
/// case-insensitively against the known spellings of its name.
pub open spec fn spec_is_vmic_endpoint_name(name: Seq<char>) -> bool {
    let lower = spec_lower(name);
    spec_contains_seq(lower, "windows mic ctrl virtual mic"@) || spec_contains_seq(
        lower,
        "windowsmicctrl virtual mic"@,
    ) || spec_contains_seq(lower, "wmc virtual mic"@)
}

/// Whether a capture-device name belongs to the virtual microphone.
pub fn is_vmic_endpoint_name(name: &str) -> (r: bool)
    ensures
        r == spec_is_vmic_endpoint_name(name@),
{
    let chars = chars_of(name);
    let lower = lower_chars(&chars);
    chars_contain_str(&lower, "windows mic ctrl virtual mic") || chars_contain_str(
        &lower,
        "windowsmicctrl virtual mic",
    ) || chars_contain_str(&lower, "wmc virtual mic")
}

/// Finds the first enumerated capture device that is the virtual
/// microphone endpoint, by name.
pub fn find_vmic_endpoint(names: &Vec<String>) -> (r: Option<String>)
    ensures
        match r {
            Some(name) => exists|i: int|
                0 <= i < names@.len() && (#[trigger] names@[i])@ == name@
                    && spec_is_vmic_endpoint_name(name@) && (forall|j: int|
                    0 <= j < i ==> !spec_is_vmic_endpoint_name((#[trigger] names@[j])@)),
            None => forall|i: int|
                0 <= i < names@.len() ==> !spec_is_vmic_endpoint_name((#[trigger] names@[i])@),
        },
{
    let n = names.len();
    let mut i: usize = 0;
    while i < n
        invariant
            i <= n,
            n == names@.len(),
            forall|j: int|
                0 <= j < i ==> !spec_is_vmic_endpoint_name((#[trigger] names@[j])@),
        decreases n - i,
    {
        if is_vmic_endpoint_name(names[i].as_str()) {
            return Some(names[i].clone());
        }
        i = i + 1;
    }
    None
}

/// Whether a boot-configuration listing reports test signing as on: it
/// must name the option and answer yes, judged case-insensitively.
pub fn test_signing_enabled(text: &str) -> (r: bool)
    ensures
        r == (spec_contains_seq(spec_lower(text@), "testsigning"@) && spec_contains_seq(
            spec_lower(text@),
            "yes"@,
        )),
{
    let chars = chars_of(text);
    let lower = lower_chars(&chars);
    chars_contain_str(&lower, "testsigning") && chars_contain_str(&lower, "yes")
}

/// The test-signing part of the status detail.
pub open spec fn spec_test_signing_text(test_signing: Option<bool>) -> Seq<char> {
    match test_signing {
        Some(true) => "enabled"@,
        Some(false) => "disabled"@,
        None => "unknown"@,
    }
}

/// The detail line of the virtual microphone status.
pub open spec fn spec_vmic_detail(
    endpoint: Option<String>,
    service_label: Seq<char>,
    test_signing: Option<bool>,
) -> Seq<char> {
    let tail = "; driver service: "@ + service_label + "; test signing: "@
        + spec_test_signing_text(test_signing);
    match endpoint {
        Some(name) => "virtual microphone capture endpoint detected: "@ + name@ + tail,
        None => "no virtual microphone capture endpoint detected"@ + tail,
    }
}

/// Builds the virtual microphone status from what the platform probes
/// found: the backend name, readiness exactly when a capture endpoint was
/// detected, and a detail line naming the endpoint, the driver service
/// state and the test-signing state.
pub fn initialize(
    endpoint: Option<String>,
    service_label: &str,
    test_signing: Option<bool>,
) -> (r: VirtualMicStatus)
    ensures
        r.backend@ == "windows-kernel-driver"@,
        r.ready == (endpoint is Some),
        r.detail@ == spec_vmic_detail(endpoint, service_label@, test_signing),
{
    let (ready, mut detail) = match &endpoint {
        Some(name) => {
            let mut d = String::from_str("virtual microphone capture endpoint detected: ");
            d.append(name.as_str());
            (true, d)
        },
        None => (false, String::from_str("no virtual microphone capture endpoint detected")),
    };
    detail.append("; driver service: ");
    detail.append(service_label);
    detail.append("; test signing: ");
    match test_signing {
        Some(true) => detail.append("enabled"),
        Some(false) => detail.append("disabled"),
        None => detail.append("unknown"),
    }
    VirtualMicStatus { backend: String::from_str("windows-kernel-driver"), ready, detail }
}

} // verus!
