use vstd::prelude::*;
use vstd::string::StringExecFns;

use crate::http::HTTP;
use crate::ssh::SSH;
use crate::status::ServerLastStatus;
use crate::teamspeak::TeamSpeak;
use crate::text::{lower_of, lowercase, same_text};

verus! {

/// The protocols that a service can be probed with.
#[derive(Clone, Copy, Debug, PartialEq, Eq, Structural)]
pub enum ServiceType {
    HTTP,
    SSH,
    TeamSpeak,
}

/// The protocol that a lowercase protocol name stands for, if any.
pub open spec fn service_type_named(name: Seq<char>) -> Option<ServiceType> {
    if name == "teamspeak"@ || name == "ts"@ {
        Some(ServiceType::TeamSpeak)
    } else if name == "ssh"@ {
        Some(ServiceType::SSH)
    } else if name == "http"@ {
        Some(ServiceType::HTTP)
    } else {
        None
    }
}

impl ServiceType {
    /// The protocol named by an already lowercase name: `teamspeak` or `ts`,
    /// `ssh`, `http`; `None` for anything else.
    pub fn from_lowercase_name(name: &str) -> (r: Option<ServiceType>)
        ensures
            r == service_type_named(name@),
    {
        if same_text(name, "teamspeak") || same_text(name, "ts") {
            Some(ServiceType::TeamSpeak)
        } else if same_text(name, "ssh") {
            Some(ServiceType::SSH)
        } else if same_text(name, "http") {
            Some(ServiceType::HTTP)
        } else {
            None
        }
    }

    /// The protocol named by `name`, in any case.
    pub fn from_name(name: &str) -> (r: Option<ServiceType>)
        ensures
            r == service_type_named(lower_of(name@)),
    {
        let lower = lowercase(name);
        ServiceType::from_lowercase_name(lower.as_str())
    }
}

/// A probe built for one call, for the protocol of a service.
pub enum Probe {
    HTTP(HTTP),
    SSH(SSH),
    TeamSpeak(TeamSpeak),
}

/// A configured service whose protocol name is not known.
#[derive(Clone, Debug)]
pub struct ConfigError {
    service_type: String,
    report_uuid: String,
}

/// The text that describes a rejected protocol name.
pub open spec fn config_error_message(service_type: Seq<char>, report_uuid: Seq<char>) -> Seq<char> {
    "Unexpected service type: "@ + service_type + ", report uuid => "@ + report_uuid
}

impl ConfigError {
    pub closed spec fn spec_service_type(&self) -> Seq<char> {
        self.service_type@
    }

    pub closed spec fn spec_report_uuid(&self) -> Seq<char> {
        self.report_uuid@
    }

    /// The protocol name as it was configured.
    pub fn service_type(&self) -> (r: &str)
        ensures
            r@ == self.spec_service_type(),
    {
        self.service_type.as_str()
    }

    /// The report id of the rejected service.
    pub fn report_uuid(&self) -> (r: &str)
        ensures
            r@ == self.spec_report_uuid(),
    {
        self.report_uuid.as_str()
    }

    /// A message that names the protocol and the report id.
    pub fn message(&self) -> (r: String)
        ensures
            r@ == config_error_message(self.spec_service_type(), self.spec_report_uuid()),
    {
        let r = String::from_str("Unexpected service type: ");
        let r = r.concat(self.service_type.as_str());
        let r = r.concat(", report uuid => ");
        r.concat(self.report_uuid.as_str())
    }
}

/// One monitored service: where it is, which report it belongs to, how it is
/// probed, and what was last observed of it.
#[derive(Clone, Debug)]
pub struct ServiceWrapper {
    last_status: ServerLastStatus,
    remote_address: String,
    report_uuid: String,
    service_type: ServiceType,
}

/// The model of a `ServiceWrapper`.
pub struct ServiceWrapperView {
    pub last_status: ServerLastStatus,
    pub remote_address: Seq<char>,
    pub report_uuid: Seq<char>,
    pub service_type: ServiceType,
}

impl View for ServiceWrapper {
    type V = ServiceWrapperView;

    closed spec fn view(&self) -> ServiceWrapperView {
        ServiceWrapperView {
            last_status: self.last_status,
            remote_address: self.remote_address@,
            report_uuid: self.report_uuid@,
            service_type: self.service_type,
        }
    }
}

/// The status after a probe result `observed` is folded into `status`, and
/// whether that changed it: it changes exactly when the status's health
/// differs from the result.
pub open spec fn spec_update(status: ServerLastStatus, observed: bool) -> (ServerLastStatus, bool) {
    if status.spec_healthy() != observed {
        (ServerLastStatus::spec_from_bool(observed), true)
    } else {
        (status, false)
    }
}

/// Whether `p` is the probe of a service of type `t` at `address`.
pub open spec fn probe_for(p: Probe, t: ServiceType, address: Seq<char>) -> bool {
    match p {
        Probe::HTTP(h) => t == ServiceType::HTTP && h@ == address,
        Probe::SSH(s) => t == ServiceType::SSH && s@ == address,
        Probe::TeamSpeak(ts) => t == ServiceType::TeamSpeak && ts@ == address,
    }
}

impl ServiceWrapper {
    /// A wrapper for a configured service, healthy until a probe says
    /// otherwise. The protocol name is taken in any case; a name that is not
    /// `teamspeak`, `ts`, `ssh` or `http` is rejected with an error that holds
    /// the name and the report id.
    pub fn from_config(service_type: &str, remote_address: &str, report_uuid: &str) -> (r: Result<
        ServiceWrapper,
        ConfigError,
    >)
        ensures
            match service_type_named(lower_of(service_type@)) {
                Some(t) => r matches Ok(w) && w@.service_type == t && w@.remote_address
                    == remote_address@ && w@.report_uuid == report_uuid@ && w@.last_status
                    is Optional,
                None => r matches Err(e) && e.spec_service_type() == service_type@
                    && e.spec_report_uuid() == report_uuid@,
            },
    {
        match ServiceType::from_name(service_type) {
            Some(t) => Ok(
                ServiceWrapper {
                    last_status: ServerLastStatus::Optional,
                    remote_address: remote_address.to_owned(),
                    report_uuid: report_uuid.to_owned(),
                    service_type: t,
                },
            ),
            None => Err(
                ConfigError {
                    service_type: service_type.to_owned(),
                    report_uuid: report_uuid.to_owned(),
                },
            ),
        }
    }

    pub fn report_uuid(&self) -> (r: &str)
        ensures
            r@ == self@.report_uuid,
    {
        self.report_uuid.as_str()
    }

    pub fn service_type(&self) -> (r: &ServiceType)
        ensures
            *r == self@.service_type,
    {
        &self.service_type
    }

    pub fn last_status(&self) -> (r: &ServerLastStatus)
        ensures
            *r == self@.last_status,
    {
        &self.last_status
    }

    pub fn remote_address(&self) -> (r: &str)
        ensures
            r@ == self@.remote_address,
    {
        self.remote_address.as_str()
    }

    /// A fresh probe for this service's protocol and address.
    pub fn probe(&self) -> (r: Probe)
        ensures
            probe_for(r, self@.service_type, self@.remote_address),
    {
        match self.service_type {
            ServiceType::HTTP => Probe::HTTP(HTTP::new(self.remote_address.as_str())),
            ServiceType::SSH => Probe::SSH(SSH::new(self.remote_address.as_str())),
            ServiceType::TeamSpeak => Probe::TeamSpeak(
                TeamSpeak::new(self.remote_address.as_str()),
            ),
        }
    }

    /// Folds a probe result into the last status. When the status's health
    /// differs from `last_status`, the status becomes `Optional` or `Outage`
    /// after it and `true` is returned; otherwise nothing changes and `false`
    /// is returned. Nothing else in the wrapper changes.
    pub fn update_last_status(&mut self, last_status: bool) -> (changed: bool)
        ensures
            (final(self)@.last_status, changed) == spec_update(old(self)@.last_status, last_status),
            final(self)@.remote_address == old(self)@.remote_address,
            final(self)@.report_uuid == old(self)@.report_uuid,
            final(self)@.service_type == old(self)@.service_type,
    {
        if self.last_status != last_status {
            self.last_status = ServerLastStatus::from(last_status);
            true
        } else {
            false
        }
    }
}

/// Folding the same result in twice: the second time changes nothing and
/// reports no change.
pub proof fn lemma_update_repeat_is_noop(status: ServerLastStatus, observed: bool)
    ensures
        spec_update(spec_update(status, observed).0, observed) == (
            spec_update(status, observed).0,
            false,
        ),
{
}

/// Folding in a result and then its opposite: the second always reports a
/// change, and leaves the status that the second result stands for.
pub proof fn lemma_update_flip_changes(status: ServerLastStatus, first: bool, second: bool)
    requires
        first != second,
    ensures
        spec_update(spec_update(status, first).0, second) == (
            ServerLastStatus::spec_from_bool(second),
            true,
        ),
{
}

/// On a fresh wrapper, whose status is `Optional`, a first result changes the
/// status exactly when it is `false`; a second, different result then changes
/// it again, and repeating the first result changes nothing.
pub proof fn lemma_fresh_wrapper_updates(first: bool, second: bool)
    requires
        first != second,
    ensures
        spec_update(ServerLastStatus::Optional, first).1 == !first,
        spec_update(spec_update(ServerLastStatus::Optional, first).0, second).1,
        !spec_update(spec_update(ServerLastStatus::Optional, first).0, first).1,
{
}

/// Updating never brings back `Unknown`: after any update that changed the
/// status, it is `Optional` or `Outage`.
pub proof fn lemma_update_never_unknown(status: ServerLastStatus, observed: bool)
    ensures
        spec_update(status, observed).1 ==> !(spec_update(status, observed).0 is Unknown),
        spec_update(status, observed).0.spec_healthy() == observed,
{
}

} // verus!
