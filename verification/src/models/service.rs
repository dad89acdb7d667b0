//! Services: each service is served by exactly one agent.

use vstd::prelude::*;
use crate::models::task::opt_text;

verus! {

/// Availability of a service's agent.
#[derive(Debug, Clone, Copy, PartialEq, Eq, Structural)]
pub enum AgentStatus {
    /// Connected and with free capacity.
    Online,
    /// Not connected.
    Offline,
    /// Connected, all slots in use.
    Busy,
}

impl AgentStatus {
    /// The lowercase name of the status.
    pub open spec fn name(self) -> Seq<char> {
        match self {
            AgentStatus::Online => "online"@,
            AgentStatus::Offline => "offline"@,
            AgentStatus::Busy => "busy"@,
        }
    }

    /// The lowercase name of the status.
    pub fn to_string(&self) -> (res: String)
        ensures
            res@ == self.name(),
    {
        match self {
            AgentStatus::Online => String::from_str("online"),
            AgentStatus::Offline => String::from_str("offline"),
            AgentStatus::Busy => String::from_str("busy"),
        }
    }

    /// The status with the given name, if there is one.
    pub fn parse(s: &str) -> (res: Option<AgentStatus>)
        ensures
            res matches Some(st) ==> st.name() == s@,
            res is None ==> forall|st: AgentStatus| st.name() != s@,
    {
        proof {
            reveal_strlit("online");
            reveal_strlit("offline");
            reveal_strlit("busy");
        }
        let chars = crate::text::str_chars(s);
        if crate::text::chars_equal(&chars, "online") {
            Some(AgentStatus::Online)
        } else if crate::text::chars_equal(&chars, "offline") {
            Some(AgentStatus::Offline)
        } else if crate::text::chars_equal(&chars, "busy") {
            Some(AgentStatus::Busy)
        } else {
            proof {
                assert forall|st: AgentStatus| st.name() != s@ by {
                    match st {
                        AgentStatus::Online => {},
                        AgentStatus::Offline => {},
                        AgentStatus::Busy => {},
                    }
                }
            }
            None
        }
    }
}

/// Different agent statuses have different names.
pub proof fn lemma_agent_status_name_injective(a: AgentStatus, b: AgentStatus)
    ensures
        a.name() == b.name() ==> a == b,
{
    reveal_strlit("online");
    reveal_strlit("offline");
    reveal_strlit("busy");
    if a.name() == b.name() {
        match a {
            AgentStatus::Online => {
                match b {
                    AgentStatus::Online => {},
                    AgentStatus::Offline => { assert("online"@[1] != "offline"@[1]); },
                    AgentStatus::Busy => { assert("online"@.len() != "busy"@.len()); },
                }
            },
            AgentStatus::Offline => {
                match b {
                    AgentStatus::Online => { assert("online"@[1] != "offline"@[1]); },
                    AgentStatus::Offline => {},
                    AgentStatus::Busy => { assert("offline"@.len() != "busy"@.len()); },
                }
            },
            AgentStatus::Busy => {
                match b {
                    AgentStatus::Online => { assert("online"@.len() != "busy"@.len()); },
                    AgentStatus::Offline => { assert("offline"@.len() != "busy"@.len()); },
                    AgentStatus::Busy => {},
                }
            },
        }
    }
}

impl Default for AgentStatus {
    /// Agents start offline.
    fn default() -> (res: Self)
        ensures
            res == AgentStatus::Offline,
    {
        AgentStatus::Offline
    }
}

/// Registration state of a service's agent.
#[derive(Debug, Clone, Copy, PartialEq, Eq, Structural)]
pub enum RegistrationStatus {
    /// Created with a registration token; no agent has registered yet.
    Pending,
    /// An agent has registered and holds the service's API key.
    Active,
    /// Registration was revoked.
    Revoked,
}

impl RegistrationStatus {
    /// The lowercase name of the status.
    pub open spec fn name(self) -> Seq<char> {
        match self {
            RegistrationStatus::Pending => "pending"@,
            RegistrationStatus::Active => "active"@,
            RegistrationStatus::Revoked => "revoked"@,
        }
    }

    /// The lowercase name of the status.
    pub fn to_string(&self) -> (res: String)
        ensures
            res@ == self.name(),
    {
        match self {
            RegistrationStatus::Pending => String::from_str("pending"),
            RegistrationStatus::Active => String::from_str("active"),
            RegistrationStatus::Revoked => String::from_str("revoked"),
        }
    }
}

impl Default for RegistrationStatus {
    /// Services start pending.
    fn default() -> (res: Self)
        ensures
            res == RegistrationStatus::Pending,
    {
        RegistrationStatus::Pending
    }
}

/// A service together with its agent's state. Times are milliseconds since
/// the Unix epoch.
#[derive(Debug, Clone)]
pub struct Service {
    /// Service id, which is also the agent's id.
    pub id: String,
    pub name: String,
    pub description: String,
    /// How to use the service.
    pub usage: String,
    /// Keyed hash of the agent's API key.
    pub agent_api_key: Option<String>,
    pub agent_status: AgentStatus,
    /// Number of tasks the agent runs at once.
    pub agent_capacity: i64,
    /// Number of tasks the agent runs now.
    pub agent_current_load: i64,
    pub agent_last_heartbeat: Option<i64>,
    /// One-time token with which the agent registers.
    pub registration_token: Option<String>,
    /// "pending", "active" or "revoked".
    pub registration_status: String,
    /// Whether every client may use the service.
    pub is_public: bool,
    pub created_at: i64,
}

impl Service {
    /// A copy of the row.
    pub fn copy(&self) -> (res: Service)
        ensures
            res == *self,
    {
        Service {
            id: self.id.clone(),
            name: self.name.clone(),
            description: self.description.clone(),
            usage: self.usage.clone(),
            agent_api_key: crate::text::clone_opt(&self.agent_api_key),
            agent_status: self.agent_status,
            agent_capacity: self.agent_capacity,
            agent_current_load: self.agent_current_load,
            agent_last_heartbeat: self.agent_last_heartbeat,
            registration_token: crate::text::clone_opt(&self.registration_token),
            registration_status: self.registration_status.clone(),
            is_public: self.is_public,
            created_at: self.created_at,
        }
    }
}

/// A service as a mathematical value.
pub struct ServiceView {
    pub id: Seq<char>,
    pub name: Seq<char>,
    pub description: Seq<char>,
    pub usage: Seq<char>,
    pub agent_api_key: Option<Seq<char>>,
    pub agent_status: AgentStatus,
    pub agent_capacity: int,
    pub agent_current_load: int,
    pub agent_last_heartbeat: Option<i64>,
    pub registration_token: Option<Seq<char>>,
    pub registration_status: Seq<char>,
    pub is_public: bool,
    pub created_at: i64,
}

impl View for Service {
    type V = ServiceView;

    open spec fn view(&self) -> ServiceView {
        ServiceView {
            id: self.id@,
            name: self.name@,
            description: self.description@,
            usage: self.usage@,
            agent_api_key: opt_text(self.agent_api_key),
            agent_status: self.agent_status,
            agent_capacity: self.agent_capacity as int,
            agent_current_load: self.agent_current_load as int,
            agent_last_heartbeat: self.agent_last_heartbeat,
            registration_token: opt_text(self.registration_token),
            registration_status: self.registration_status@,
            is_public: self.is_public,
            created_at: self.created_at,
        }
    }
}

impl ServiceView {
    /// The agent took one more task: the load grows by one, and the agent is
    /// busy once the load reaches its capacity.
    pub open spec fn after_accept(self) -> ServiceView {
        ServiceView {
            agent_current_load: self.agent_current_load + 1,
            agent_status: if self.agent_current_load + 1 >= self.agent_capacity {
                AgentStatus::Busy
            } else {
                self.agent_status
            },
            ..self
        }
    }

    /// The agent finished one task: the load shrinks by one (not below zero),
    /// and a busy agent with a free slot again is online.
    pub open spec fn after_finish(self) -> ServiceView {
        ServiceView {
            agent_current_load: if self.agent_current_load > 0 {
                self.agent_current_load - 1
            } else {
                0
            },
            agent_status: if self.agent_current_load > 0 && self.agent_current_load - 1
                < self.agent_capacity && self.agent_status is Busy {
                AgentStatus::Online
            } else {
                self.agent_status
            },
            ..self
        }
    }

    /// A heartbeat at time `now`: it is recorded, and an offline agent comes
    /// back online.
    pub open spec fn after_heartbeat(self, now: i64) -> ServiceView {
        ServiceView {
            agent_last_heartbeat: Some(now),
            agent_status: if self.agent_status is Offline {
                AgentStatus::Online
            } else {
                self.agent_status
            },
            ..self
        }
    }

    /// Whether the agent is taken offline by a heartbeat check with the given
    /// threshold: it is not offline, and its last heartbeat is older.
    pub open spec fn stale(self, threshold: i64) -> bool {
        &&& !(self.agent_status is Offline)
        &&& self.agent_last_heartbeat matches Some(h) && h < threshold
    }

    /// The agent is taken offline: no load.
    pub open spec fn taken_offline(self) -> ServiceView {
        ServiceView { agent_status: AgentStatus::Offline, agent_current_load: 0, ..self }
    }

    /// The agent reports its load and/or capacity.
    pub open spec fn with_load(self, current_load: Option<i64>, capacity: Option<i64>) -> ServiceView {
        ServiceView {
            agent_current_load: match current_load {
                Some(l) => l as int,
                None => self.agent_current_load,
            },
            agent_capacity: match capacity {
                Some(c) => c as int,
                None => self.agent_capacity,
            },
            ..self
        }
    }

    /// An agent registers with the service at time `now`: it holds the key
    /// with hash `key_hash`, is online with the given capacity and no load,
    /// and the registration token is used up.
    pub open spec fn registered(self, key_hash: Seq<char>, capacity: int, now: i64) -> ServiceView {
        ServiceView {
            agent_api_key: Some(key_hash),
            agent_status: AgentStatus::Online,
            agent_capacity: capacity,
            agent_current_load: 0,
            agent_last_heartbeat: Some(now),
            registration_status: "active"@,
            registration_token: None,
            ..self
        }
    }

    /// Free slots: capacity minus load, and zero where the load exceeds the
    /// capacity.
    pub open spec fn available_slots(self) -> int {
        if self.agent_capacity >= self.agent_current_load {
            self.agent_capacity - self.agent_current_load
        } else {
            0
        }
    }
}

/// A line of the service list.
#[derive(Debug)]
pub struct ServiceListItem {
    pub id: String,
    pub name: String,
    pub description: String,
    pub agent_status: AgentStatus,
    pub registration_status: String,
    pub agent_last_heartbeat: Option<i64>,
    /// "public" or "restricted".
    pub access_type: String,
    /// Whether the caller may use the service.
    pub has_permission: bool,
}

/// Request to create a service.
#[derive(Debug, Clone)]
pub struct CreateServiceRequest {
    pub id: Option<String>,
    pub name: String,
    pub description: String,
    pub usage: String,
    pub is_public: bool,
}

/// Default of `CreateServiceRequest::is_public`: services are public unless
/// the request says otherwise.
pub fn default_true() -> (res: bool)
    ensures
        res,
{
    true
}

/// Request to change a service.
#[derive(Debug, Clone)]
pub struct UpdateServiceRequest {
    pub name: Option<String>,
    pub description: Option<String>,
    pub usage: Option<String>,
    pub is_public: Option<bool>,
}

/// Answer to the creation of a service, with the registration token.
#[derive(Debug)]
pub struct CreateServiceResponse {
    pub id: String,
    pub name: String,
    pub description: String,
    pub usage: String,
    pub registration_status: String,
    pub registration_token: String,
    pub created_at: i64,
}

/// A service as the admin API shows it.
#[derive(Debug)]
pub struct ServiceResponse {
    pub id: String,
    pub name: String,
    pub description: String,
    pub usage: String,
    pub agent_status: AgentStatus,
    pub registration_status: String,
    pub agent_capacity: i64,
    pub agent_current_load: i64,
    pub agent_last_heartbeat: Option<i64>,
    pub is_public: bool,
    pub created_at: i64,
}

impl ServiceResponse {
    /// The response for a service: its fields without key and token.
    pub fn from_service(service: Service) -> (res: ServiceResponse)
        ensures
            res.id == service.id,
            res.name == service.name,
            res.description == service.description,
            res.usage == service.usage,
            res.agent_status == service.agent_status,
            res.registration_status == service.registration_status,
            res.agent_capacity == service.agent_capacity,
            res.agent_current_load == service.agent_current_load,
            res.agent_last_heartbeat == service.agent_last_heartbeat,
            res.is_public == service.is_public,
            res.created_at == service.created_at,
    {
        ServiceResponse {
            id: service.id,
            name: service.name,
            description: service.description,
            usage: service.usage,
            agent_status: service.agent_status,
            registration_status: service.registration_status,
            agent_capacity: service.agent_capacity,
            agent_current_load: service.agent_current_load,
            agent_last_heartbeat: service.agent_last_heartbeat,
            is_public: service.is_public,
            created_at: service.created_at,
        }
    }
}

/// The usage text of a service.
#[derive(Debug)]
pub struct ServiceUsageResponse {
    pub id: String,
    pub name: String,
    pub usage: String,
}

/// A user's permission to use a restricted service.
#[derive(Debug, Clone)]
pub struct UserServicePermission {
    pub id: String,
    pub user_id: String,
    pub service_id: String,
    pub granted_at: i64,
}

/// A permission as the admin API lists it.
#[derive(Debug, Clone)]
pub struct UserPermissionResponse {
    pub service_id: String,
    pub service_name: String,
    pub granted_at: i64,
}

/// Answer to the deletion of a service.
#[derive(Debug)]
pub struct DeleteServiceResponse {
    pub deleted: bool,
    /// Active tasks that were cancelled.
    pub tasks_cancelled: i64,
    /// Finished tasks that were kept.
    pub tasks_retained: i64,
}

} // verus!
