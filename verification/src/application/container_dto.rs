//! What the container screens show, and the live statistics stream events.
use crate::domain::byte_size::ByteSize;
use crate::domain::container::{container_state_label, ContainerState};
use vstd::prelude::*;

verus! {

/// A container as the container screens show it.
#[derive(Debug, Clone)]
pub struct ContainerDto {
    pub id: String,
    pub short_id: String,
    pub name: String,
    pub image: String,
    pub state: ContainerState,
    pub status: String,
    pub created: String,
    pub ports: String,
    pub networks: String,
    pub can_start: bool,
    pub can_stop: bool,
    pub can_delete: bool,
    pub can_restart: bool,
    pub can_pause: bool,
    pub can_unpause: bool,
    pub env_vars: Vec<String>,
    pub runtime_stats: Option<ContainerRuntimeStatsDto>,
}

impl ContainerDto {
    /// The display name of the container's state.
    pub fn state_display(&self) -> (r: &'static str)
        ensures
            r@ == container_state_label(self.state),
    {
        self.state.label()
    }
}

/// The logs of one container.
#[derive(Debug, Clone)]
pub struct ContainerLogsDto {
    pub container_id: String,
    pub container_name: String,
    pub logs: String,
}

/// One sample of a container's resource use. The CPU share and the memory
/// share are kept as the integer counters they are computed from:
/// the CPU share is `cpu_delta / system_delta * online_cpus * 100` percent
/// (zero when either delta is zero), the memory share is
/// `memory_used / memory_cap * 100` percent (zero when either is zero).
#[derive(Debug, Clone, Copy, PartialEq, Eq, Structural)]
pub struct ContainerRuntimeStatsDto {
    pub cpu_delta: u64,
    pub system_delta: u64,
    pub online_cpus: u64,
    pub memory_used: u64,
    pub memory_cap: u64,
    pub memory_usage: ByteSize,
    pub memory_limit: ByteSize,
    pub network_rx: ByteSize,
    pub network_tx: ByteSize,
}

impl ContainerRuntimeStatsDto {
    /// Whether the CPU share is a real quotient, not the zero that stands
    /// for "no CPU time measured".
    pub fn has_cpu_share(&self) -> (r: bool)
        ensures
            r == (self.cpu_delta != 0 && self.system_delta != 0),
    {
        self.cpu_delta != 0 && self.system_delta != 0
    }

    /// Whether the memory share is a real quotient, not the zero that stands
    /// for "no usage or no limit".
    pub fn has_memory_share(&self) -> (r: bool)
        ensures
            r == (self.memory_used != 0 && self.memory_cap != 0),
    {
        self.memory_used != 0 && self.memory_cap != 0
    }

    /// Whether the container runs under a memory limit.
    pub fn has_memory_limit(&self) -> (r: bool)
        ensures
            r == (self.memory_limit.bytes > 0),
    {
        self.memory_limit.bytes() > 0
    }
}

/// A new statistics sample for one container.
#[derive(Debug, Clone, PartialEq, Eq)]
pub struct ContainerStatsUpdate {
    pub container_id: String,
    pub stats: ContainerRuntimeStatsDto,
}

/// What the statistics stream delivers.
#[derive(Debug, Clone, PartialEq, Eq)]
pub enum ContainerStatsEvent {
    Update(ContainerStatsUpdate),
    Error { container_id: String, message: String },
}

} // verus!
