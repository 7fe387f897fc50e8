use vstd::prelude::*;
use crate::text::{decimal, decimal_of, joined, owned};

verus! {

/// First wait before registering again, in seconds.
pub const INITIAL_BACKOFF_SECS: u64 = 5;

/// Longest wait before registering again, in seconds.
pub const MAX_BACKOFF_SECS: u64 = 300;

/// Seconds between two heartbeats.
pub const HEARTBEAT_INTERVAL_SECS: u64 = 30;

/// The wait after `current`: doubled, up to the longest wait.
pub open spec fn next_backoff_of(current: nat) -> nat {
    if 2 * current < MAX_BACKOFF_SECS { 2 * current } else { MAX_BACKOFF_SECS as nat }
}

/// The wait that follows a failed attempt after waiting `current` seconds.
pub fn next_backoff(current: u64) -> (r: u64)
    ensures
        r == next_backoff_of(current as nat),
{
    if current >= MAX_BACKOFF_SECS / 2 {
        MAX_BACKOFF_SECS
    } else {
        current * 2
    }
}

/// What came of a request to the registry: an HTTP status, or no answer.
#[derive(Clone, Copy, Debug, PartialEq, Eq, Structural)]
pub enum CallOutcome {
    Answered(u16),
    Unreachable,
}

/// What to do after a registration attempt.
#[derive(Clone, Copy, Debug, PartialEq, Eq, Structural)]
pub enum AfterRegistration {
    /// Registered: start the heartbeats; the next failure waits this long.
    Heartbeat { backoff: u64 },
    /// Wait `wait` seconds and register again; the failure after waits `backoff`.
    Retry { wait: u64, backoff: u64 },
}

/// Whether a call was answered with a 2xx status.
pub open spec fn succeeded(outcome: CallOutcome) -> bool {
    outcome matches CallOutcome::Answered(s) && 200 <= s <= 299
}

/// The decision after a registration attempt made while the wait was `backoff`.
pub open spec fn after_registration_of(outcome: CallOutcome, backoff: u64) -> AfterRegistration {
    if succeeded(outcome) {
        AfterRegistration::Heartbeat { backoff: INITIAL_BACKOFF_SECS }
    } else {
        AfterRegistration::Retry { wait: backoff, backoff: next_backoff_of(backoff as nat) as u64 }
    }
}

/// A registration succeeds on a 2xx answer; it then resets the wait,
/// otherwise it waits and doubles the wait.
pub fn after_registration(outcome: CallOutcome, backoff: u64) -> (r: AfterRegistration)
    ensures
        r == after_registration_of(outcome, backoff),
{
    match outcome {
        CallOutcome::Answered(s) => {
            if 200 <= s && s <= 299 {
                return AfterRegistration::Heartbeat { backoff: INITIAL_BACKOFF_SECS };
            }
        },
        CallOutcome::Unreachable => {},
    }
    AfterRegistration::Retry { wait: backoff, backoff: next_backoff(backoff) }
}

/// Whether to keep sending heartbeats after one: the registry forgot the
/// instance (404) or could not be reached, and it must register again;
/// any other answer keeps the heartbeats going.
pub fn keep_heartbeat(outcome: CallOutcome) -> (r: bool)
    ensures
        r <==> (outcome matches CallOutcome::Answered(s) && s != 404),
{
    match outcome {
        CallOutcome::Answered(s) => s != 404,
        CallOutcome::Unreachable => false,
    }
}

/// A port and whether it is enabled (`"true"` / `"false"`).
pub struct PortInfo {
    pub port: u16,
    pub enabled: String,
}

/// The data-center description.
pub struct DataCenterInfo {
    pub class: String,
    pub name: String,
}

/// The lease of an instance.
pub struct LeaseInfo {
    pub duration_in_secs: u32,
}

/// Instance metadata.
pub struct MetaData {
    pub instance_id: String,
}

/// The description of this instance that the registry keeps.
pub struct InstanceInfo {
    pub instance_id: String,
    pub host_name: String,
    pub app: String,
    pub ip_addr: String,
    pub status: String,
    pub port: PortInfo,
    pub secure_port: PortInfo,
    pub data_center_info: DataCenterInfo,
    pub lease_info: LeaseInfo,
    pub metadata: MetaData,
    pub home_page_url: String,
    pub status_page_url: String,
    pub health_check_url: String,
    pub vip_address: String,
    pub secure_vip_address: String,
}

/// The registration body.
pub struct EurekaInstanceWrapper {
    pub instance: InstanceInfo,
}

/// `http://<ip>:<port><suffix>`.
pub open spec fn page_url_of(ip: Seq<char>, port: u16, suffix: Seq<char>) -> Seq<char> {
    "http://"@ + ip + ":"@ + decimal_of(port as nat) + suffix
}

/// The address of one of this instance's pages.
pub fn page_url(ip: &str, port: u16, suffix: &str) -> (r: String)
    ensures
        r@ == page_url_of(ip@, port, suffix@),
{
    let a = joined("http://", ip);
    let b = joined(a.as_str(), ":");
    let c = joined(b.as_str(), decimal(port as u64).as_str());
    joined(c.as_str(), suffix)
}

/// `<hostname>:<app>:<port>`.
pub fn instance_id(hostname: &str, app_name: &str, port: u16) -> (r: String)
    ensures
        r@ == hostname@ + ":"@ + app_name@ + ":"@ + decimal_of(port as nat),
{
    let a = joined(hostname, ":");
    let b = joined(a.as_str(), app_name);
    let c = joined(b.as_str(), ":");
    joined(c.as_str(), decimal(port as u64).as_str())
}

/// The registration address: `<registry>/apps/<app>`.
pub fn register_url(registry_url: &str, app_name: &str) -> (r: String)
    ensures
        r@ == registry_url@ + "/apps/"@ + app_name@,
{
    let a = joined(registry_url, "/apps/");
    joined(a.as_str(), app_name)
}

/// The heartbeat address: `<registry>/apps/<app>/<instance>`.
pub fn heartbeat_url(registry_url: &str, app_name: &str, instance: &str) -> (r: String)
    ensures
        r@ == registry_url@ + "/apps/"@ + app_name@ + "/"@ + instance@,
{
    let a = register_url(registry_url, app_name);
    let b = joined(a.as_str(), "/");
    joined(b.as_str(), instance)
}

/// The registration body of this instance: up, on `port` (the secure port
/// 443 disabled), with a 90-second lease and its pages under `ip:port`.
pub fn create_payload(instance_id: &str, hostname: &str, ip: &str, app_name: &str, port: u16) -> (r: EurekaInstanceWrapper)
    ensures
        r.instance.instance_id@ == instance_id@,
        r.instance.host_name@ == hostname@,
        r.instance.app@ == app_name@,
        r.instance.ip_addr@ == ip@,
        r.instance.status@ == "UP"@,
        r.instance.port.port == port,
        r.instance.port.enabled@ == "true"@,
        r.instance.secure_port.port == 443,
        r.instance.secure_port.enabled@ == "false"@,
        r.instance.data_center_info.class@ == "com.netflix.appinfo.InstanceInfo$DefaultDataCenterInfo"@,
        r.instance.data_center_info.name@ == "MyOwn"@,
        r.instance.lease_info.duration_in_secs == 90,
        r.instance.metadata.instance_id@ == instance_id@,
        r.instance.home_page_url@ == page_url_of(ip@, port, "/"@),
        r.instance.status_page_url@ == page_url_of(ip@, port, "/info"@),
        r.instance.health_check_url@ == page_url_of(ip@, port, "/health"@),
        r.instance.vip_address@ == app_name@,
        r.instance.secure_vip_address@ == app_name@,
{
    let instance = InstanceInfo {
        instance_id: owned(instance_id),
        host_name: owned(hostname),
        app: owned(app_name),
        ip_addr: owned(ip),
        status: owned("UP"),
        port: PortInfo { port, enabled: owned("true") },
        secure_port: PortInfo { port: 443, enabled: owned("false") },
        data_center_info: DataCenterInfo {
            class: owned("com.netflix.appinfo.InstanceInfo$DefaultDataCenterInfo"),
            name: owned("MyOwn"),
        },
        lease_info: LeaseInfo { duration_in_secs: 90 },
        metadata: MetaData { instance_id: owned(instance_id) },
        home_page_url: page_url(ip, port, "/"),
        status_page_url: page_url(ip, port, "/info"),
        health_check_url: page_url(ip, port, "/health"),
        vip_address: owned(app_name),
        secure_vip_address: owned(app_name),
    };
    EurekaInstanceWrapper { instance }
}

} // verus!
