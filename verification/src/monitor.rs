//! Monitored targets: what is checked, where, and how often.

use crate::decimal::{decimal, push_decimal};
use crate::error::EngineError;
use crate::history::ToBool;
use vstd::prelude::*;
use vstd::string::StringExecFns;

verus! {

/// Scheme under which a target is contacted. It decides the address's
/// scheme and nothing else.
#[derive(Clone, Copy, Debug, PartialEq, Eq, Structural)]
pub enum Protocol {
    HTTP,
    HTTPS,
}

impl Protocol {
    /// The scheme as it is written in an address.
    pub open spec fn scheme(self) -> Seq<char> {
        match self {
            Protocol::HTTP => "http"@,
            Protocol::HTTPS => "https"@,
        }
    }

    /// The scheme in lower case: `http` or `https`.
    pub fn as_str(&self) -> (s: &'static str)
        ensures
            s@ == self.scheme(),
    {
        match self {
            Protocol::HTTP => "http",
            Protocol::HTTPS => "https",
        }
    }

    /// The scheme as an owned string, the text that the protocol displays as.
    pub fn to_string(&self) -> (s: String)
        ensures
            s@ == self.scheme(),
    {
        String::from_str(self.as_str())
    }
}

/// A target that is checked periodically.
#[derive(Debug)]
pub struct Monitor {
    pub id: i64,
    pub name: String,
    pub ip: String,
    pub port: Option<i64>,
    pub protocol: Protocol,
    pub interval: i64,
    pub paused: bool,
}

/// Mathematical content of a [`Monitor`].
pub struct MonitorView {
    pub id: i64,
    pub name: Seq<char>,
    pub ip: Seq<char>,
    pub port: Option<int>,
    pub protocol: Protocol,
    pub interval: int,
    pub paused: bool,
}

impl MonitorView {
    /// A monitor is valid when it is checked at a positive interval.
    pub open spec fn valid(self) -> bool {
        self.interval > 0
    }

    /// Host, followed by a colon and the port where there is one.
    pub open spec fn hostname(self) -> Seq<char> {
        match self.port {
            Some(port) => self.ip + ":"@ + decimal(port),
            None => self.ip,
        }
    }

    /// Scheme, `://` and the host name.
    pub open spec fn address(self) -> Seq<char> {
        self.protocol.scheme() + "://"@ + self.hostname()
    }
}

impl View for Monitor {
    type V = MonitorView;

    open spec fn view(&self) -> MonitorView {
        MonitorView {
            id: self.id,
            name: self.name@,
            ip: self.ip@,
            port: match self.port {
                Some(port) => Some(port as int),
                None => None,
            },
            protocol: self.protocol,
            interval: self.interval as int,
            paused: self.paused,
        }
    }
}

impl Clone for Monitor {
    fn clone(&self) -> (copy: Self)
        ensures
            copy == *self,
    {
        Monitor {
            id: self.id,
            name: self.name.clone(),
            ip: self.ip.clone(),
            port: self.port,
            protocol: self.protocol,
            interval: self.interval,
            paused: self.paused,
        }
    }
}

impl Monitor {
    /// Rebuilds a monitor from the columns of a stored row, where `paused`
    /// is kept as an integer flag. The store keeps no protocol: a stored
    /// monitor is contacted over plain HTTP.
    pub fn from_row(
        id: i64,
        name: String,
        ip: String,
        port: Option<i64>,
        interval: i64,
        paused: i64,
    ) -> (monitor: Monitor)
        requires
            paused.is_flag(),
        ensures
            monitor == (Monitor {
                id,
                name,
                ip,
                port,
                protocol: Protocol::HTTP,
                interval,
                paused: paused.flag(),
            }),
    {
        Monitor { id, name, ip, port, protocol: Protocol::HTTP, interval, paused: paused.to_bool() }
    }

    /// Whether the monitor may enter the registry: its interval is positive.
    pub fn is_valid(&self) -> (valid: bool)
        ensures
            valid == self@.valid(),
    {
        self.interval > 0
    }

    /// Host and, where the monitor has one, port: `example.com:443`.
    pub fn hostname(&self) -> (text: String)
        ensures
            text@ == self@.hostname(),
    {
        let mut text = self.ip.clone();
        match self.port {
            Some(port) => {
                text.append(":");
                push_decimal(&mut text, port);
                assert(text@ =~= self@.hostname());
            },
            None => {},
        }
        text
    }

    /// Full address that a probe contacts: `https://example.com:443`.
    pub fn address(&self) -> (text: String)
        ensures
            text@ == self@.address(),
    {
        let mut text = self.protocol.to_string();
        text.append("://");
        let host = self.hostname();
        text.append(host.as_str());
        assert(text@ =~= self@.address());
        text
    }
}

/// What a caller supplies to define a monitor: everything but its
/// identity, protocol and pause state.
#[derive(Debug)]
pub struct CreateMonitor {
    pub name: String,
    pub ip: String,
    pub port: Option<i64>,
    pub interval: i64,
}

impl CreateMonitor {
    /// A definition is acceptable when its interval is positive.
    pub open spec fn valid(self) -> bool {
        self.interval > 0
    }

    /// The monitor that the definition describes, under the given identity,
    /// protocol and pause state.
    pub open spec fn monitor(self, id: i64, protocol: Protocol, paused: bool) -> Monitor {
        Monitor {
            id,
            name: self.name,
            ip: self.ip,
            port: self.port,
            protocol,
            interval: self.interval,
            paused,
        }
    }

    /// Whether the definition is acceptable: its interval is positive.
    pub fn is_valid(&self) -> (valid: bool)
        ensures
            valid == self.valid(),
    {
        self.interval > 0
    }

    /// Makes the monitor that this definition describes, under the given
    /// identity, protocol and pause state. A definition whose interval is
    /// not positive is refused.
    pub fn to_monitor(
        &self,
        id: i64,
        protocol: Protocol,
        paused: bool,
    ) -> (result: Result<Monitor, EngineError>)
        ensures
            match result {
                Ok(monitor) => self.valid() && monitor@.valid()
                    && monitor == self.monitor(id, protocol, paused),
                Err(error) => !self.valid() && error == EngineError::Validation,
            },
    {
        if self.interval <= 0 {
            return Err(EngineError::Validation);
        }
        Ok(
            Monitor {
                id,
                name: self.name.clone(),
                ip: self.ip.clone(),
                port: self.port,
                protocol,
                interval: self.interval,
                paused,
            },
        )
    }
}

} // verus!
