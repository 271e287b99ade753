//! Containers: their lifecycle states and the value objects that describe them.
use crate::domain::error::DomainError;
use crate::text::{
    capitalised, uncapitalised, decimal, lowercase, push_decimal, push_text, str_eq, string_of, to_lowercase_string,
};
use vstd::prelude::*;
use vstd::string::*;
use vstd::utf8::*;

verus! {

/// The lifecycle state of a container, as the Docker engine names it.
#[derive(Debug, Clone, Copy, PartialEq, Eq, Structural)]
pub enum ContainerState {
    Running,
    Paused,
    Stopped,
    Exited,
    Dead,
    Created,
    Removing,
    Restarting,
}

/// The state that an already lowercased engine state name denotes; every
/// name the engine does not use means `Stopped`.
pub open spec fn container_state_named(s: Seq<char>) -> ContainerState {
    if s == "running"@ {
        ContainerState::Running
    } else if s == "paused"@ {
        ContainerState::Paused
    } else if s == "exited"@ {
        ContainerState::Exited
    } else if s == "dead"@ {
        ContainerState::Dead
    } else if s == "created"@ {
        ContainerState::Created
    } else if s == "removing"@ {
        ContainerState::Removing
    } else if s == "restarting"@ {
        ContainerState::Restarting
    } else {
        ContainerState::Stopped
    }
}

/// The display name of a state.
pub open spec fn container_state_label(s: ContainerState) -> Seq<char> {
    match s {
        ContainerState::Running => "Running"@,
        ContainerState::Paused => "Paused"@,
        ContainerState::Stopped => "Stopped"@,
        ContainerState::Exited => "Exited"@,
        ContainerState::Dead => "Dead"@,
        ContainerState::Created => "Created"@,
        ContainerState::Removing => "Removing"@,
        ContainerState::Restarting => "Restarting"@,
    }
}

/// The engine's state words name the states of the same name: a word that
/// names a state other than the fallback `Stopped` is that state's label
/// with a lowercase first letter, and every state's label, so written,
/// names that state.
pub proof fn law_state_words_name_their_states(w: Seq<char>, s: ContainerState)
    ensures
        container_state_named(w) != ContainerState::Stopped ==> container_state_label(
            container_state_named(w),
        ) == capitalised(w),
        container_state_named(uncapitalised(container_state_label(s))) == s,
{
    reveal_strlit("running");
    reveal_strlit("paused");
    reveal_strlit("exited");
    reveal_strlit("dead");
    reveal_strlit("created");
    reveal_strlit("removing");
    reveal_strlit("restarting");
    reveal_strlit("stopped");
    reveal_strlit("Running");
    reveal_strlit("Paused");
    reveal_strlit("Exited");
    reveal_strlit("Dead");
    reveal_strlit("Created");
    reveal_strlit("Removing");
    reveal_strlit("Restarting");
    reveal_strlit("Stopped");
    assert(capitalised("running"@) =~= "Running"@);
    assert(capitalised("paused"@) =~= "Paused"@);
    assert(capitalised("exited"@) =~= "Exited"@);
    assert(capitalised("dead"@) =~= "Dead"@);
    assert(capitalised("created"@) =~= "Created"@);
    assert(capitalised("removing"@) =~= "Removing"@);
    assert(capitalised("restarting"@) =~= "Restarting"@);
    assert(uncapitalised("Running"@) =~= "running"@);
    assert(uncapitalised("Paused"@) =~= "paused"@);
    assert(uncapitalised("Exited"@) =~= "exited"@);
    assert(uncapitalised("Dead"@) =~= "dead"@);
    assert(uncapitalised("Created"@) =~= "created"@);
    assert(uncapitalised("Removing"@) =~= "removing"@);
    assert(uncapitalised("Restarting"@) =~= "restarting"@);
    assert(uncapitalised("Stopped"@) =~= "stopped"@);
    assert("stopped"@ != "running"@ && "stopped"@ != "paused"@ && "stopped"@ != "exited"@
        && "stopped"@ != "dead"@ && "stopped"@ != "created"@ && "stopped"@ != "removing"@
        && "stopped"@ != "restarting"@) by {
        assert("stopped"@[0] != "running"@[0]);
        assert("stopped"@[0] != "paused"@[0]);
        assert("stopped"@[0] != "exited"@[0]);
        assert("stopped"@[0] != "dead"@[0]);
        assert("stopped"@[0] != "created"@[0]);
        assert("stopped"@[0] != "removing"@[0]);
        assert("stopped"@[0] != "restarting"@[0]);
    }
}

impl ContainerState {
    /// A running, paused or restarting container is active.
    pub open spec fn active(self) -> bool {
        self is Running || self is Paused || self is Restarting
    }

    /// The state for an already lowercased state name.
    pub fn from_lowercase(s: &str) -> (r: ContainerState)
        ensures
            r == container_state_named(s@),
    {
        if str_eq(s, "running") {
            ContainerState::Running
        } else if str_eq(s, "paused") {
            ContainerState::Paused
        } else if str_eq(s, "exited") {
            ContainerState::Exited
        } else if str_eq(s, "dead") {
            ContainerState::Dead
        } else if str_eq(s, "created") {
            ContainerState::Created
        } else if str_eq(s, "removing") {
            ContainerState::Removing
        } else if str_eq(s, "restarting") {
            ContainerState::Restarting
        } else {
            ContainerState::Stopped
        }
    }

    /// Reads a state name in any letter case; an unknown name means `Stopped`.
    pub fn parse(s: &str) -> (r: ContainerState)
        ensures
            r == container_state_named(lowercase(s@)),
    {
        let lower = to_lowercase_string(s);
        ContainerState::from_lowercase(lower.as_str())
    }

    pub fn is_running(&self) -> (r: bool)
        ensures
            r == (*self is Running),
    {
        matches!(self, ContainerState::Running)
    }

    pub fn is_active(&self) -> (r: bool)
        ensures
            r == self.active(),
    {
        matches!(self, ContainerState::Running | ContainerState::Paused | ContainerState::Restarting)
    }

    pub fn can_be_started(&self) -> (r: bool)
        ensures
            r == (*self is Stopped || *self is Exited || *self is Created),
    {
        matches!(self, ContainerState::Stopped | ContainerState::Exited | ContainerState::Created)
    }

    pub fn can_be_stopped(&self) -> (r: bool)
        ensures
            r == self.active(),
    {
        matches!(self, ContainerState::Running | ContainerState::Paused | ContainerState::Restarting)
    }

    pub fn can_be_paused(&self) -> (r: bool)
        ensures
            r == (*self is Running),
    {
        matches!(self, ContainerState::Running)
    }

    pub fn can_be_unpaused(&self) -> (r: bool)
        ensures
            r == (*self is Paused),
    {
        matches!(self, ContainerState::Paused)
    }

    pub fn can_be_restarted(&self) -> (r: bool)
        ensures
            r == self.active(),
    {
        matches!(self, ContainerState::Running | ContainerState::Paused | ContainerState::Restarting)
    }

    /// Only a container that is not active can be deleted without force.
    pub fn can_be_deleted(&self) -> (r: bool)
        ensures
            r == !self.active(),
    {
        !self.is_active()
    }

    /// The display name of the state.
    pub fn label(&self) -> (r: &'static str)
        ensures
            r@ == container_state_label(*self),
    {
        match self {
            ContainerState::Running => "Running",
            ContainerState::Paused => "Paused",
            ContainerState::Stopped => "Stopped",
            ContainerState::Exited => "Exited",
            ContainerState::Dead => "Dead",
            ContainerState::Created => "Created",
            ContainerState::Removing => "Removing",
            ContainerState::Restarting => "Restarting",
        }
    }
}

impl std::str::FromStr for ContainerState {
    type Err = std::convert::Infallible;

    fn from_str(s: &str) -> (r: Result<Self, Self::Err>)
        ensures
            r == Ok::<ContainerState, std::convert::Infallible>(container_state_named(lowercase(s@))),
    {
        Ok(ContainerState::parse(s))
    }
}

/// The part of an identifier shown in lists: its first twelve bytes when it
/// is longer than that (the engine's identifiers are ASCII hexadecimal).
pub open spec fn short_id_bytes(id: Seq<char>) -> Seq<u8> {
    if encode_utf8(id).len() > 12 {
        encode_utf8(id).subrange(0, 12)
    } else {
        encode_utf8(id)
    }
}

/// Cuts a text to its first twelve bytes when it is longer, as a byte-range
/// slice does; the cut must fall on a character boundary.
pub fn first_twelve_bytes(s: &str) -> (r: &str)
    requires
        encode_utf8(s@).len() > 12 ==> is_char_boundary(encode_utf8(s@), 12),
    ensures
        encode_utf8(r@) == short_id_bytes(s@),
        encode_utf8(s@).len() <= 12 ==> r@ == s@,
{
    let byte_len = s.as_bytes().len();
    if byte_len > 12 {
        let (head, _tail) = s.split_at(12);
        head
    } else {
        s
    }
}

/// The identifier of a container; never empty.
#[derive(Debug, Clone, PartialEq, Eq, Hash)]
pub struct ContainerId(String);

impl View for ContainerId {
    type V = Seq<char>;

    closed spec fn view(&self) -> Seq<char> {
        self.0@
    }
}

impl ContainerId {
    /// Accepts any identifier but the empty one.
    pub fn new(id: &str) -> (r: Result<ContainerId, DomainError>)
        ensures
            id@.len() == 0 <==> r is Err,
            r matches Ok(c) ==> c@ == id@,
            r matches Err(e) ==> e is InvalidContainerId && e.message_view()
                == "Container ID cannot be empty"@,
    {
        if id.is_empty() {
            return Err(DomainError::InvalidContainerId(string_of("Container ID cannot be empty")));
        }
        Ok(ContainerId(string_of(id)))
    }

    pub fn as_str(&self) -> (r: &str)
        ensures
            r@ == self@,
    {
        self.0.as_str()
    }

    /// The identifier cut to its first twelve bytes.
    pub fn short(&self) -> (r: &str)
        requires
            encode_utf8(self@).len() > 12 ==> is_char_boundary(encode_utf8(self@), 12),
        ensures
            encode_utf8(r@) == short_id_bytes(self@),
            encode_utf8(self@).len() <= 12 ==> r@ == self@,
    {
        first_twelve_bytes(self.0.as_str())
    }
}

/// A published (or only exposed) port of a container.
#[derive(Debug, Clone, PartialEq, Eq)]
pub struct PortMapping {
    pub private_port: u16,
    pub public_port: Option<u16>,
    pub protocol: String,
}

/// How a port is shown: `public:private/protocol`, or `private/protocol`
/// when it is not published.
pub open spec fn port_text(private_port: u16, public_port: Option<u16>, protocol: Seq<char>) -> Seq<
    char,
> {
    match public_port {
        Some(p) => decimal(p as nat) + seq![':'] + decimal(private_port as nat) + seq!['/']
            + protocol,
        None => decimal(private_port as nat) + seq!['/'] + protocol,
    }
}

impl PortMapping {
    pub fn new(private_port: u16, public_port: Option<u16>, protocol: &str) -> (r: PortMapping)
        ensures
            r.private_port == private_port,
            r.public_port == public_port,
            r.protocol@ == protocol@,
    {
        PortMapping { private_port, public_port, protocol: string_of(protocol) }
    }

    /// The port as it is displayed.
    pub fn to_text(&self) -> (r: String)
        ensures
            r@ == port_text(self.private_port, self.public_port, self.protocol@),
    {
        let mut out = String::new();
        match self.public_port {
            Some(p) => {
                push_decimal(&mut out, p as u64);
                crate::text::push_char(&mut out, ':');
            },
            None => {},
        }
        push_decimal(&mut out, self.private_port as u64);
        crate::text::push_char(&mut out, '/');
        push_text(&mut out, self.protocol.as_str());
        assert(out@ =~= port_text(self.private_port, self.public_port, self.protocol@));
        out
    }
}

/// A network a container is attached to.
#[derive(Debug, Clone, PartialEq, Eq)]
pub struct NetworkInfo {
    pub name: String,
    pub ip_address: String,
}

/// How a network is shown: its name, followed by the address in brackets
/// when the container has one there.
pub open spec fn network_text(name: Seq<char>, ip: Seq<char>) -> Seq<char> {
    if ip.len() == 0 {
        name
    } else {
        name + seq![' ', '('] + ip + seq![')']
    }
}

impl NetworkInfo {
    pub fn new(name: &str, ip_address: &str) -> (r: NetworkInfo)
        ensures
            r.name@ == name@,
            r.ip_address@ == ip_address@,
    {
        NetworkInfo { name: string_of(name), ip_address: string_of(ip_address) }
    }

    /// The network as it is displayed.
    pub fn to_text(&self) -> (r: String)
        ensures
            r@ == network_text(self.name@, self.ip_address@),
    {
        let mut out = string_of(self.name.as_str());
        if !self.ip_address.as_str().is_empty() {
            crate::text::push_char(&mut out, ' ');
            crate::text::push_char(&mut out, '(');
            push_text(&mut out, self.ip_address.as_str());
            crate::text::push_char(&mut out, ')');
        }
        assert(out@ =~= network_text(self.name@, self.ip_address@));
        out
    }
}

/// A volume or host path mounted into a container.
#[derive(Debug, Clone, PartialEq, Eq)]
pub struct MountInfo {
    pub source: String,
    pub destination: String,
    pub mode: String,
}

impl MountInfo {
    pub fn new(source: &str, destination: &str, mode: &str) -> (r: MountInfo)
        ensures
            r.source@ == source@,
            r.destination@ == destination@,
            r.mode@ == mode@,
    {
        MountInfo {
            source: string_of(source),
            destination: string_of(destination),
            mode: string_of(mode),
        }
    }
}

/// A point in time: seconds since the Unix epoch and the nanoseconds into
/// that second.
#[derive(Debug, Clone, Copy, PartialEq, Eq, Structural)]
pub struct Timestamp {
    pub secs: i64,
    pub nanos: u32,
}

/// A container as the engine describes it.
#[derive(Debug, Clone)]
pub struct Container {
    pub id: ContainerId,
    pub name: String,
    pub image: String,
    pub state: ContainerState,
    pub status: String,
    pub created: Timestamp,
    pub ports: Vec<PortMapping>,
    pub networks: Vec<NetworkInfo>,
    pub mounts: Vec<MountInfo>,
    pub env_vars: Vec<String>,
}

impl Container {
    /// A container without ports, networks, mounts or environment.
    pub fn new(
        id: ContainerId,
        name: String,
        image: String,
        state: ContainerState,
        status: String,
        created: Timestamp,
    ) -> (r: Container)
        ensures
            r.id == id,
            r.name == name,
            r.image == image,
            r.state == state,
            r.status == status,
            r.created == created,
            r.ports@.len() == 0,
            r.networks@.len() == 0,
            r.mounts@.len() == 0,
            r.env_vars@.len() == 0,
    {
        Container {
            id,
            name,
            image,
            state,
            status,
            created,
            ports: Vec::new(),
            networks: Vec::new(),
            mounts: Vec::new(),
            env_vars: Vec::new(),
        }
    }

    pub fn with_ports(self, ports: Vec<PortMapping>) -> (r: Container)
        ensures
            r == (Container { ports, ..self }),
    {
        Container { ports, ..self }
    }

    pub fn with_networks(self, networks: Vec<NetworkInfo>) -> (r: Container)
        ensures
            r == (Container { networks, ..self }),
    {
        Container { networks, ..self }
    }

    pub fn with_mounts(self, mounts: Vec<MountInfo>) -> (r: Container)
        ensures
            r == (Container { mounts, ..self }),
    {
        Container { mounts, ..self }
    }

    pub fn with_env_vars(self, env_vars: Vec<String>) -> (r: Container)
        ensures
            r == (Container { env_vars, ..self }),
    {
        Container { env_vars, ..self }
    }

    pub fn id(&self) -> (r: &ContainerId)
        ensures
            *r == self.id,
    {
        &self.id
    }

    pub fn name(&self) -> (r: &str)
        ensures
            r@ == self.name@,
    {
        self.name.as_str()
    }

    pub fn image(&self) -> (r: &str)
        ensures
            r@ == self.image@,
    {
        self.image.as_str()
    }

    pub fn state(&self) -> (r: ContainerState)
        ensures
            r == self.state,
    {
        self.state
    }

    pub fn status(&self) -> (r: &str)
        ensures
            r@ == self.status@,
    {
        self.status.as_str()
    }

    pub fn created(&self) -> (r: Timestamp)
        ensures
            r == self.created,
    {
        self.created
    }

    pub fn ports(&self) -> (r: &Vec<PortMapping>)
        ensures
            r@ == self.ports@,
    {
        &self.ports
    }

    pub fn networks(&self) -> (r: &Vec<NetworkInfo>)
        ensures
            r@ == self.networks@,
    {
        &self.networks
    }

    pub fn mounts(&self) -> (r: &Vec<MountInfo>)
        ensures
            r@ == self.mounts@,
    {
        &self.mounts
    }

    pub fn env_vars(&self) -> (r: &Vec<String>)
        ensures
            r@ == self.env_vars@,
    {
        &self.env_vars
    }
}

} // verus!
