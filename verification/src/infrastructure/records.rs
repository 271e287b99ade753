//! What the engine reports about a container, as plain values.
use vstd::prelude::*;

verus! {

/// A port in a container listing. `protocol` is the engine's protocol
/// name as its enumeration spells it (`TCP`, `UDP`, ...).
#[derive(Debug, Clone)]
pub struct PortRecord {
    pub private_port: u16,
    pub public_port: Option<u16>,
    pub protocol: Option<String>,
}

/// A mount in a container listing or inspection.
#[derive(Debug, Clone)]
pub struct MountRecord {
    pub name: Option<String>,
    pub source: Option<String>,
    pub destination: Option<String>,
    pub mode: Option<String>,
}

/// A network endpoint of a container: the network's name and the address.
#[derive(Debug, Clone)]
pub struct NetworkRecord {
    pub name: String,
    pub ip_address: Option<String>,
}

/// A label of a container.
#[derive(Debug, Clone)]
pub struct LabelRecord {
    pub key: String,
    pub value: String,
}

/// One entry of the engine's container listing. `state` is the engine's
/// state word (`running`, `exited`, ...); `created` is in seconds since the
/// Unix epoch; labels, networks and mounts are listed once each.
#[derive(Debug, Clone)]
pub struct ContainerSummaryRecord {
    pub id: Option<String>,
    pub names: Option<Vec<String>>,
    pub image: Option<String>,
    pub state: Option<String>,
    pub status: Option<String>,
    pub created: Option<i64>,
    pub labels: Option<Vec<LabelRecord>>,
    pub ports: Option<Vec<PortRecord>>,
    pub networks: Option<Vec<NetworkRecord>>,
    pub mounts: Option<Vec<MountRecord>>,
}

/// The host ports bound to one exposed container port (`80/tcp`).
#[derive(Debug, Clone)]
pub struct PortBindingRecord {
    pub key: String,
    pub host_ports: Option<Vec<Option<String>>>,
}

/// What the engine's inspection of one container reports. `status` is the
/// engine's state as its enumeration spells it (`RUNNING`, ...); `created`
/// is an RFC 3339 text.
#[derive(Debug, Clone)]
pub struct ContainerInspectRecord {
    pub id: Option<String>,
    pub name: Option<String>,
    pub image: Option<String>,
    pub status: Option<String>,
    pub created: Option<String>,
    pub env: Option<Vec<String>>,
    pub ports: Option<Vec<PortBindingRecord>>,
    pub networks: Option<Vec<NetworkRecord>>,
    pub mounts: Option<Vec<MountRecord>>,
}

/// The traffic counters of one network interface.
#[derive(Debug, Clone, Copy, PartialEq, Eq, Structural)]
pub struct NetworkTrafficRecord {
    pub rx_bytes: Option<u64>,
    pub tx_bytes: Option<u64>,
}

/// A named memory counter.
#[derive(Debug, Clone)]
pub struct MemoryStatRecord {
    pub key: String,
    pub value: u64,
}

/// One sample of the engine's statistics stream for a container: the
/// current and previous CPU counters, the memory counters and the traffic
/// of each interface. `percpu_count` is the number of per-CPU counters.
#[derive(Debug, Clone)]
pub struct ContainerStatsRecord {
    pub cpu_total: Option<u64>,
    pub precpu_total: Option<u64>,
    pub system_cpu: Option<u64>,
    pub presystem_cpu: Option<u64>,
    pub online_cpus: Option<u32>,
    pub percpu_count: Option<u64>,
    pub memory_usage: Option<u64>,
    pub memory_limit: Option<u64>,
    pub memory_stats: Option<Vec<MemoryStatRecord>>,
    pub networks: Option<Vec<NetworkTrafficRecord>>,
}

/// The first name of a listing entry, `unknown` when it has none.
pub open spec fn first_name(names: Option<Vec<String>>) -> Seq<char> {
    match names {
        Some(v) => if v@.len() > 0 {
            v@[0]@
        } else {
            "unknown"@
        },
        None => "unknown"@,
    }
}

/// A text field, or the given default when it is missing.
pub open spec fn text_or(t: Option<String>, default: Seq<char>) -> Seq<char> {
    match t {
        Some(s) => s@,
        None => default,
    }
}

/// The first name of a listing entry, `unknown` when it has none.
pub fn first_name_of(names: &Option<Vec<String>>) -> (r: String)
    ensures
        r@ == first_name(*names),
{
    match names {
        Some(v) => {
            if v.len() > 0 {
                v[0].clone()
            } else {
                crate::text::string_of("unknown")
            }
        },
        None => crate::text::string_of("unknown"),
    }
}

/// A text field, or the given default when it is missing.
pub fn text_or_default(t: &Option<String>, default: &str) -> (r: String)
    ensures
        r@ == text_or(*t, default@),
{
    match t {
        Some(s) => s.clone(),
        None => crate::text::string_of(default),
    }
}

/// The value of the first label with the given key.
pub open spec fn first_label(labels: Seq<LabelRecord>, key: Seq<char>) -> Option<Seq<char>>
    decreases labels.len(),
{
    if labels.len() == 0 {
        None
    } else if labels[0].key@ == key {
        Some(labels[0].value@)
    } else {
        first_label(labels.drop_first(), key)
    }
}

/// The value of the label with the given key, if the container has it.
pub open spec fn label_value(labels: Option<Vec<LabelRecord>>, key: Seq<char>) -> Option<Seq<char>> {
    match labels {
        Some(v) => first_label(v@, key),
        None => None,
    }
}

/// The value of the label with the given key, if the container has it.
pub fn find_label<'a>(labels: &'a Option<Vec<LabelRecord>>, key: &str) -> (r: Option<&'a String>)
    ensures
        match label_value(*labels, key@) {
            Some(v) => r matches Some(s) && s@ == v,
            None => r is None,
        },
{
    match labels {
        None => None,
        Some(v) => {
            let mut i: usize = 0;
            assert(v@.subrange(0, v@.len() as int) =~= v@);
            while i < v.len()
                invariant
                    label_value(*labels, key@) == first_label(v@, key@),
                    i <= v@.len(),
                    first_label(v@, key@) == first_label(v@.subrange(i as int, v@.len() as int), key@),
                decreases v@.len() - i,
            {
                assert(v@.subrange(i as int, v@.len() as int).drop_first() =~= v@.subrange(
                    i + 1,
                    v@.len() as int,
                ));
                if crate::text::str_eq(v[i].key.as_str(), key) {
                    let ghost rest = v@.subrange(i as int, v@.len() as int);
                    assert(rest[0] == v@[i as int]);
                    assert(rest.len() > 0 && rest[0].key@ == key@);
                    assert(first_label(rest, key@) == Some(rest[0].value@));
                    assert(label_value(*labels, key@) == first_label(v@, key@));
                    return Some(&v[i].value);
                }
                i = i + 1;
            }
            None
        },
    }
}

} // verus!
