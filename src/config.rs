//! The daemon's configuration records, and the choices made from them.
use vstd::prelude::*;
use crate::PORT;

verus! {

/// Configuration relating to the network.
#[derive(Debug)]
pub struct Network {
    pub ip: String,
    pub ip6: String,
    pub port: Option<u16>,
}

/// Configuration relating to the logging subsystem.
#[derive(Debug)]
pub struct Log {
    pub level: String,
    pub file: Option<String>,
    pub format: Option<String>,
}

/// Configuration relating to daemonization.
#[derive(Debug)]
pub struct Daemon {
    pub pid_file: Option<String>,
    pub working_directory: Option<String>,
    pub user: Option<String>,
    pub user_id: Option<u32>,
    pub group: Option<String>,
    pub group_id: Option<u32>,
    pub umask: Option<u32>,
}

/// A user or group, by name or by numeric id.
#[derive(Debug, PartialEq, Eq)]
pub enum Principal {
    Name(String),
    Id(u32),
}

/// Whom to become when privileges are dropped: the name if given, else the
/// id if given, else `nobody`.
pub open spec fn spec_principal(name: Option<String>, id: Option<u32>, r: Principal) -> bool {
    match name {
        Some(n) => r is Name && r->Name_0@ == n@,
        None => match id {
            Some(i) => r == Principal::Id(i),
            None => r is Name && r->Name_0@ == "nobody"@,
        },
    }
}

fn principal(name: &Option<String>, id: Option<u32>) -> (r: Principal)
    ensures
        spec_principal(*name, id, r),
{
    match name {
        Some(n) => Principal::Name(n.clone()),
        None => match id {
            Some(i) => Principal::Id(i),
            None => Principal::Name("nobody".to_owned()),
        },
    }
}

impl Network {
    /// The port to bind: the configured one, or the well-known NTP port.
    pub fn port_or_default(&self) -> (r: u16)
        ensures
            r == match self.port {
                Some(p) => p,
                None => PORT,
            },
    {
        match self.port {
            Some(p) => p,
            None => PORT,
        }
    }
}

impl Daemon {
    /// The user to drop to after binding the socket.
    pub fn user_target(&self) -> (r: Principal)
        ensures
            spec_principal(self.user, self.user_id, r),
    {
        principal(&self.user, self.user_id)
    }

    /// The group to drop to after binding the socket.
    pub fn group_target(&self) -> (r: Principal)
        ensures
            spec_principal(self.group, self.group_id, r),
    {
        principal(&self.group, self.group_id)
    }
}

} // verus!
