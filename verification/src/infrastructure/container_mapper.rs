//! Building containers and statistics samples from what the engine reports.
use crate::application::container_dto::{ContainerRuntimeStatsDto, ContainerStatsUpdate};
use crate::domain::byte_size::ByteSize;
use crate::domain::container::{
    container_state_named, Container, ContainerId, ContainerState, MountInfo, NetworkInfo,
    PortMapping, Timestamp,
};
use crate::infrastructure::clock::{
    parse_rfc3339, rfc3339_instant, seconds_representable, utc_seconds_representable,
};
use crate::infrastructure::records::{
    first_name, first_name_of, text_or, text_or_default, ContainerInspectRecord,
    ContainerStatsRecord, ContainerSummaryRecord, MemoryStatRecord, MountRecord,
    NetworkRecord, NetworkTrafficRecord, PortBindingRecord, PortRecord,
};
use crate::infrastructure::stack_mapper::protocol_text;
use crate::text::{texts, lowercase, parse_u16, parse_u16_spec, str_eq, string_of, to_lowercase_string};
use vstd::prelude::*;
use vstd::string::*;

verus! {

/// A port mapping built from a listing port.
pub open spec fn port_of(m: PortMapping, p: PortRecord) -> bool {
    m.private_port == p.private_port && m.public_port == p.public_port && m.protocol@
        == protocol_text(p)
}

/// A network built from an endpoint; a missing address is empty.
pub open spec fn network_of(n: NetworkInfo, r: NetworkRecord) -> bool {
    n.name@ == r.name@ && n.ip_address@ == text_or(r.ip_address, Seq::empty())
}

/// Whether a mount can be shown: it has a name or a source, and a
/// destination.
pub open spec fn mount_usable(m: MountRecord) -> bool {
    (m.name is Some || m.source is Some) && m.destination is Some
}

/// A mount built from a usable mount record: the volume name (else the
/// host path), the destination, and the mode (`rw` when unset).
pub open spec fn mount_of(mi: MountInfo, m: MountRecord) -> bool {
    &&& mi.source@ == (match m.name {
        Some(n) => n@,
        None => m.source->0@,
    })
    &&& mi.destination@ == m.destination->0@
    &&& mi.mode@ == text_or(m.mode, "rw"@)
}

/// The state a reported state word denotes; `Stopped` when none is reported.
pub open spec fn reported_state(s: Option<String>) -> ContainerState {
    match s {
        Some(t) => container_state_named(lowercase(t@)),
        None => ContainerState::Stopped,
    }
}

/// The creation time of a listing entry: its seconds when the calendar can
/// hold them, else the current time.
pub open spec fn listing_created(created: Option<i64>, now: Timestamp) -> Timestamp {
    match created {
        Some(ts) => if utc_seconds_representable(ts as int) {
            Timestamp { secs: ts, nanos: 0 }
        } else {
            now
        },
        None => now,
    }
}

/// The creation time of an inspected container: the instant its RFC 3339
/// text denotes, else the current time.
pub open spec fn inspect_created(created: Option<String>, now: Timestamp) -> Timestamp {
    match created {
        Some(c) => match rfc3339_instant(c@) {
            Some(instant) => Timestamp { secs: instant.0, nanos: instant.1 },
            None => now,
        },
        None => now,
    }
}

/// Whether an identifier field holds a usable (non-empty) identifier.
pub open spec fn has_usable_id(id: Option<String>) -> bool {
    id matches Some(i) && i@.len() > 0
}

/// The networks of a container, one per endpoint, in order.
pub open spec fn networks_of(ns: Seq<NetworkInfo>, rs: Option<Vec<NetworkRecord>>) -> bool {
    match rs {
        Some(v) => ns.len() == v@.len() && forall|k: int|
            0 <= k < ns.len() ==> network_of(#[trigger] ns[k], v@[k]),
        None => ns.len() == 0,
    }
}

/// The usable mounts of a container, in order.
pub open spec fn usable_mounts(rs: Option<Vec<MountRecord>>) -> Seq<MountRecord> {
    match rs {
        Some(v) => v@.filter(|m: MountRecord| mount_usable(m)),
        None => Seq::empty(),
    }
}

/// The mounts of a container: one per usable mount record, in order.
pub open spec fn mounts_of(ms: Seq<MountInfo>, rs: Option<Vec<MountRecord>>) -> bool {
    ms.len() == usable_mounts(rs).len() && forall|k: int|
        0 <= k < ms.len() ==> mount_of(#[trigger] ms[k], usable_mounts(rs)[k])
}

/// The ports of a listing entry, one per port, in order.
pub open spec fn ports_of(ps: Seq<PortMapping>, rs: Option<Vec<PortRecord>>) -> bool {
    match rs {
        Some(v) => ps.len() == v@.len() && forall|k: int|
            0 <= k < ps.len() ==> port_of(#[trigger] ps[k], v@[k]),
        None => ps.len() == 0,
    }
}

/// The text before the first `/` (all of it when there is none).
pub open spec fn first_segment(s: Seq<char>) -> Seq<char>
    decreases s.len(),
{
    if s.len() == 0 || s[0] == '/' {
        Seq::empty()
    } else {
        seq![s[0]] + first_segment(s.drop_first())
    }
}

/// The text after the first `/`, if there is one.
pub open spec fn after_first_slash(s: Seq<char>) -> Option<Seq<char>>
    decreases s.len(),
{
    if s.len() == 0 {
        None
    } else if s[0] == '/' {
        Some(s.drop_first())
    } else {
        after_first_slash(s.drop_first())
    }
}

/// The container port an exposed-port key (`80/tcp`) names: the number
/// before the first `/`, zero when it is not a 16-bit number.
pub open spec fn key_port(key: Seq<char>) -> u16 {
    match parse_u16_spec(first_segment(key)) {
        Some(p) => p,
        None => 0,
    }
}

/// The protocol an exposed-port key names: the part after the first `/`
/// (up to a further `/`), `tcp` when there is none.
pub open spec fn key_protocol(key: Seq<char>) -> Seq<char> {
    match after_first_slash(key) {
        Some(rest) => first_segment(rest),
        None => "tcp"@,
    }
}

/// The host port a binding publishes, when it is a 16-bit number.
pub open spec fn host_port_of(h: Option<String>) -> Option<u16> {
    match h {
        Some(t) => parse_u16_spec(t@),
        None => None,
    }
}

/// The port mappings of one exposed port: one per host binding, or a single
/// unpublished one when it has no binding list.
pub open spec fn binding_ports(b: PortBindingRecord) -> Seq<(u16, Option<u16>, Seq<char>)> {
    match b.host_ports {
        Some(hs) => hs@.map_values(
            |h: Option<String>| (key_port(b.key@), host_port_of(h), key_protocol(b.key@)),
        ),
        None => seq![(key_port(b.key@), None, key_protocol(b.key@))],
    }
}

/// The port mappings of all exposed ports, in order.
pub open spec fn inspect_ports(bs: Seq<PortBindingRecord>) -> Seq<(u16, Option<u16>, Seq<char>)>
    decreases bs.len(),
{
    if bs.len() == 0 {
        Seq::empty()
    } else {
        inspect_ports(bs.drop_last()) + binding_ports(bs.last())
    }
}

/// Whether port mappings are the given triples.
pub open spec fn ports_are(ps: Seq<PortMapping>, ts: Seq<(u16, Option<u16>, Seq<char>)>) -> bool {
    ps.len() == ts.len() && forall|k: int|
        0 <= k < ps.len() ==> (#[trigger] ps[k]).private_port == ts[k].0 && ps[k].public_port
            == ts[k].1 && ps[k].protocol@ == ts[k].2
}

/// The port mappings of an inspected container.
pub open spec fn inspect_ports_of(rs: Option<Vec<PortBindingRecord>>) -> Seq<
    (u16, Option<u16>, Seq<char>),
> {
    match rs {
        Some(v) => inspect_ports(v@),
        None => Seq::empty(),
    }
}

fn map_ports(ports: &Option<Vec<PortRecord>>) -> (r: Vec<PortMapping>)
    ensures
        ports_of(r@, *ports),
{
    let mut out: Vec<PortMapping> = Vec::new();
    match ports {
        None => out,
        Some(v) => {
            let mut i: usize = 0;
            while i < v.len()
                invariant
                    i <= v@.len(),
                    out@.len() == i,
                    forall|k: int| 0 <= k < i ==> port_of(#[trigger] out@[k], v@[k]),
                decreases v@.len() - i,
            {
                let p = &v[i];
                let protocol = match &p.protocol {
                    Some(t) => to_lowercase_string(t.as_str()),
                    None => string_of("tcp"),
                };
                out.push(PortMapping::new(p.private_port, p.public_port, protocol.as_str()));
                i = i + 1;
            }
            out
        },
    }
}

fn map_networks(networks: &Option<Vec<NetworkRecord>>) -> (r: Vec<NetworkInfo>)
    ensures
        networks_of(r@, *networks),
{
    let mut out: Vec<NetworkInfo> = Vec::new();
    match networks {
        None => out,
        Some(v) => {
            let mut i: usize = 0;
            while i < v.len()
                invariant
                    i <= v@.len(),
                    out@.len() == i,
                    forall|k: int| 0 <= k < i ==> network_of(#[trigger] out@[k], v@[k]),
                decreases v@.len() - i,
            {
                let n = &v[i];
                let ip = text_or_default(&n.ip_address, "");
                proof {
                    reveal_strlit("");
                    assert(""@ =~= Seq::<char>::empty());
                }
                out.push(NetworkInfo::new(n.name.as_str(), ip.as_str()));
                i = i + 1;
            }
            out
        },
    }
}

fn map_mounts(mounts: &Option<Vec<MountRecord>>) -> (r: Vec<MountInfo>)
    ensures
        mounts_of(r@, *mounts),
{
    let mut out: Vec<MountInfo> = Vec::new();
    match mounts {
        None => {
            assert(usable_mounts(*mounts) =~= Seq::<MountRecord>::empty());
            out
        },
        Some(v) => {
            let ghost pred = |m: MountRecord| mount_usable(m);
            let mut i: usize = 0;
            while i < v.len()
                invariant
                    i <= v@.len(),
                    pred == (|m: MountRecord| mount_usable(m)),
                    out@.len() == v@.subrange(0, i as int).filter(pred).len(),
                    forall|k: int|
                        0 <= k < out@.len() ==> mount_of(
                            #[trigger] out@[k],
                            v@.subrange(0, i as int).filter(pred)[k],
                        ),
                decreases v@.len() - i,
            {
                let m = &v[i];
                proof {
                    reveal_with_fuel(Seq::filter, 1);
                    assert(v@.subrange(0, i + 1).drop_last() =~= v@.subrange(0, i as int));
                }
                let source: Option<&String> = match &m.name {
                    Some(n) => Some(n),
                    None => match &m.source {
                        Some(s) => Some(s),
                        None => None,
                    },
                };
                match (source, &m.destination) {
                    (Some(src), Some(dst)) => {
                        let mode = text_or_default(&m.mode, "rw");
                        out.push(MountInfo::new(src.as_str(), dst.as_str(), mode.as_str()));
                    },
                    _ => {},
                }
                i = i + 1;
            }
            assert(v@.subrange(0, i as int) =~= v@);
            out
        },
    }
}

/// The container built from a listing entry with a usable identifier.
pub open spec fn container_of_summary(c: Container, summary: ContainerSummaryRecord, now: Timestamp) -> bool {
    &&& c.id@ == summary.id->0@
    &&& c.name@ == first_name(summary.names)
    &&& c.image@ == text_or(summary.image, "unknown"@)
    &&& c.state == reported_state(summary.state)
    &&& c.status@ == text_or(summary.status, Seq::empty())
    &&& c.created == listing_created(summary.created, now)
    &&& ports_of(c.ports@, summary.ports)
    &&& networks_of(c.networks@, summary.networks)
    &&& mounts_of(c.mounts@, summary.mounts)
    &&& c.env_vars@.len() == 0
}

/// The listing entries that have a usable identifier, in order.
pub open spec fn usable_entries(summaries: Seq<ContainerSummaryRecord>) -> Seq<ContainerSummaryRecord> {
    summaries.filter(|s: ContainerSummaryRecord| has_usable_id(s.id))
}

/// Builds containers from the engine's listing and inspection, and
/// statistics samples from its statistics stream.
pub struct ContainerInfraMapper;

impl ContainerInfraMapper {
    /// The container for a listing entry; `None` when the entry has no usable
    /// identifier. `now` stands in for a creation time the entry lacks.
    pub fn from_docker(summary: &ContainerSummaryRecord, now: Timestamp) -> (r: Option<Container>)
        ensures
            r is None <==> !has_usable_id(summary.id),
            r matches Some(c) ==> container_of_summary(c, *summary, now),
    {
        let id = match &summary.id {
            Some(id) => id,
            None => return None,
        };
        let container_id = match ContainerId::new(id.as_str()) {
            Ok(c) => c,
            Err(_) => return None,
        };
        let name = first_name_of(&summary.names);
        let image = text_or_default(&summary.image, "unknown");
        let state = match &summary.state {
            Some(s) => ContainerState::parse(s.as_str()),
            None => ContainerState::Stopped,
        };
        let status = text_or_default(&summary.status, "");
        proof {
            reveal_strlit("");
            assert(""@ =~= Seq::<char>::empty());
        }
        let created = match summary.created {
            Some(ts) => {
                if seconds_representable(ts) {
                    Timestamp { secs: ts, nanos: 0 }
                } else {
                    now
                }
            },
            None => now,
        };
        let ports = map_ports(&summary.ports);
        let networks = map_networks(&summary.networks);
        let mounts = map_mounts(&summary.mounts);
        Some(
            Container::new(container_id, name, image, state, status, created).with_ports(
                ports,
            ).with_networks(networks).with_mounts(mounts),
        )
    }

    /// The containers of a listing: one per entry with a usable identifier,
    /// in order; `now` stands in for creation times the entries lack.
    pub fn from_listing(summaries: &Vec<ContainerSummaryRecord>, now: Timestamp) -> (r: Vec<
        Container,
    >)
        ensures
            r@.len() == usable_entries(summaries@).len(),
            forall|k: int|
                0 <= k < r@.len() ==> container_of_summary(
                    #[trigger] r@[k],
                    usable_entries(summaries@)[k],
                    now,
                ),
    {
        let ghost pred = |s: ContainerSummaryRecord| has_usable_id(s.id);
        let mut out: Vec<Container> = Vec::new();
        let mut i: usize = 0;
        while i < summaries.len()
            invariant
                i <= summaries@.len(),
                pred == (|s: ContainerSummaryRecord| has_usable_id(s.id)),
                out@.len() == summaries@.subrange(0, i as int).filter(pred).len(),
                forall|k: int|
                    0 <= k < out@.len() ==> container_of_summary(
                        #[trigger] out@[k],
                        summaries@.subrange(0, i as int).filter(pred)[k],
                        now,
                    ),
            decreases summaries@.len() - i,
        {
            proof {
                reveal_with_fuel(Seq::filter, 1);
                assert(summaries@.subrange(0, i + 1).drop_last() =~= summaries@.subrange(
                    0,
                    i as int,
                ));
            }
            match Self::from_docker(&summaries[i], now) {
                Some(c) => out.push(c),
                None => {},
            }
            i = i + 1;
        }
        assert(summaries@.subrange(0, i as int) =~= summaries@);
        out
    }

    /// The container for an inspection; `None` when it has no usable
    /// identifier. `now` stands in for a creation time it lacks.
    pub fn from_inspect(response: &ContainerInspectRecord, now: Timestamp) -> (r: Option<
        Container,
    >)
        ensures
            r is None <==> !has_usable_id(response.id),
            r matches Some(c) ==> {
                &&& c.id@ == response.id->0@
                &&& c.name@ == text_or(response.name, "unknown"@)
                &&& c.image@ == text_or(response.image, "unknown"@)
                &&& c.state == (match response.status {
                    Some(s) => container_state_named(lowercase(lowercase(s@))),
                    None => ContainerState::Stopped,
                })
                &&& c.status@ == text_or(response.status, Seq::empty())
                &&& c.created == inspect_created(response.created, now)
                &&& ports_are(c.ports@, inspect_ports_of(response.ports))
                &&& networks_of(c.networks@, response.networks)
                &&& mounts_of(c.mounts@, response.mounts)
                &&& texts(c.env_vars@) == (match response.env {
                    Some(e) => texts(e@),
                    None => Seq::empty(),
                })
            },
    {
        let id = match &response.id {
            Some(id) => id,
            None => return None,
        };
        let container_id = match ContainerId::new(id.as_str()) {
            Ok(c) => c,
            Err(_) => return None,
        };
        let name = text_or_default(&response.name, "unknown");
        let image = text_or_default(&response.image, "unknown");
        let state = match &response.status {
            Some(s) => {
                let lower = to_lowercase_string(s.as_str());
                ContainerState::parse(lower.as_str())
            },
            None => ContainerState::Stopped,
        };
        let status = text_or_default(&response.status, "");
        proof {
            reveal_strlit("");
        }
        let created = match &response.created {
            Some(c) => match parse_rfc3339(c.as_str()) {
                Some((secs, nanos)) => Timestamp { secs, nanos },
                None => now,
            },
            None => now,
        };
        let env_vars: Vec<String> = match &response.env {
            Some(e) => copy_strings(e),
            None => Vec::new(),
        };
        let ports = map_inspect_ports(&response.ports);
        let networks = map_networks(&response.networks);
        let mounts = map_mounts(&response.mounts);
        Some(
            Container::new(container_id, name, image, state, status, created).with_ports(
                ports,
            ).with_networks(networks).with_mounts(mounts).with_env_vars(env_vars),
        )
    }

    /// A statistics sample as the screens show it.
    pub fn stats_update(container_id: &str, stats: &ContainerStatsRecord) -> (r:
        ContainerStatsUpdate)
        ensures
            r.container_id@ == container_id@,
            r.stats == runtime_stats_of(*stats),
    {
        let cpu_total = unwrap_or_zero(stats.cpu_total);
        let precpu_total = unwrap_or_zero(stats.precpu_total);
        let system = unwrap_or_zero(stats.system_cpu);
        let presystem = unwrap_or_zero(stats.presystem_cpu);
        let cpu_count: u64 = match stats.online_cpus {
            Some(n) => n as u64,
            None => match stats.percpu_count {
                Some(c) => c,
                None => 1,
            },
        };
        let working_set = Self::memory_working_set(stats);
        let limit = unwrap_or_zero(stats.memory_limit);
        let (rx, tx) = Self::network_totals(&stats.networks);
        ContainerStatsUpdate {
            container_id: string_of(container_id),
            stats: ContainerRuntimeStatsDto {
                cpu_delta: cpu_total.saturating_sub(precpu_total),
                system_delta: system.saturating_sub(presystem),
                online_cpus: cpu_count,
                memory_used: working_set,
                memory_cap: limit,
                memory_usage: Self::to_byte_size(working_set),
                memory_limit: Self::to_byte_size(limit),
                network_rx: Self::to_byte_size(rx),
                network_tx: Self::to_byte_size(tx),
            },
        }
    }

    /// The memory in use without the reclaimable page cache (cgroups v1
    /// reports it as `total_inactive_file`, v2 as `inactive_file`).
    pub fn memory_working_set(stats: &ContainerStatsRecord) -> (r: u64)
        ensures
            r == working_set_of(*stats),
    {
        let usage = unwrap_or_zero(stats.memory_usage);
        let cache = match &stats.memory_stats {
            Some(v) => match find_stat(v, "total_inactive_file") {
                Some(x) => x,
                None => match find_stat(v, "inactive_file") {
                    Some(x) => x,
                    None => 0,
                },
            },
            None => 0,
        };
        usage.saturating_sub(cache)
    }

    /// The bytes received and sent over all interfaces, each sum stopping at
    /// the largest 64-bit number.
    pub fn network_totals(networks: &Option<Vec<NetworkTrafficRecord>>) -> (r: (u64, u64))
        ensures
            r == (match networks {
                Some(v) => (rx_total(v@), tx_total(v@)),
                None => (0u64, 0u64),
            }),
    {
        match networks {
            None => (0, 0),
            Some(v) => {
                let mut rx: u64 = 0;
                let mut tx: u64 = 0;
                let mut i: usize = 0;
                while i < v.len()
                    invariant
                        i <= v@.len(),
                        rx == rx_total(v@.subrange(0, i as int)),
                        tx == tx_total(v@.subrange(0, i as int)),
                    decreases v@.len() - i,
                {
                    proof {
                        assert(v@.subrange(0, i + 1).drop_last() =~= v@.subrange(0, i as int));
                    }
                    rx = rx.saturating_add(unwrap_or_zero(v[i].rx_bytes));
                    tx = tx.saturating_add(unwrap_or_zero(v[i].tx_bytes));
                    i = i + 1;
                }
                assert(v@.subrange(0, i as int) =~= v@);
                (rx, tx)
            },
        }
    }

    /// A byte count as a signed size, held at the largest signed value.
    pub fn to_byte_size(bytes: u64) -> (r: ByteSize)
        ensures
            r.bytes == (if bytes > i64::MAX as u64 {
                i64::MAX
            } else {
                bytes as i64
            }),
    {
        let clamped = if bytes > i64::MAX as u64 {
            i64::MAX as u64
        } else {
            bytes
        };
        ByteSize::new(clamped as i64)
    }
}

/// A present counter, or zero.
pub open spec fn or_zero(v: Option<u64>) -> u64 {
    match v {
        Some(x) => x,
        None => 0,
    }
}

fn unwrap_or_zero(v: Option<u64>) -> (r: u64)
    ensures
        r == or_zero(v),
{
    match v {
        Some(x) => x,
        None => 0,
    }
}

/// `a - b`, or zero when `b` is larger.
pub open spec fn sat_sub(a: u64, b: u64) -> u64 {
    if a >= b {
        (a - b) as u64
    } else {
        0
    }
}

/// `a + b`, or the largest 64-bit number when the sum does not fit.
pub open spec fn sat_add(a: u64, b: u64) -> u64 {
    if a + b <= u64::MAX {
        (a + b) as u64
    } else {
        u64::MAX
    }
}

/// The received bytes of all interfaces.
pub open spec fn rx_total(ns: Seq<NetworkTrafficRecord>) -> u64
    decreases ns.len(),
{
    if ns.len() == 0 {
        0
    } else {
        sat_add(rx_total(ns.drop_last()), or_zero(ns.last().rx_bytes))
    }
}

/// The sent bytes of all interfaces.
pub open spec fn tx_total(ns: Seq<NetworkTrafficRecord>) -> u64
    decreases ns.len(),
{
    if ns.len() == 0 {
        0
    } else {
        sat_add(tx_total(ns.drop_last()), or_zero(ns.last().tx_bytes))
    }
}

/// The value of the first memory counter with the given name.
pub open spec fn first_stat(stats: Seq<MemoryStatRecord>, key: Seq<char>) -> Option<u64>
    decreases stats.len(),
{
    if stats.len() == 0 {
        None
    } else if stats[0].key@ == key {
        Some(stats[0].value)
    } else {
        first_stat(stats.drop_first(), key)
    }
}

fn find_stat(stats: &Vec<MemoryStatRecord>, key: &str) -> (r: Option<u64>)
    ensures
        r == first_stat(stats@, key@),
{
    let mut i: usize = 0;
    assert(stats@.subrange(0, stats@.len() as int) =~= stats@);
    while i < stats.len()
        invariant
            i <= stats@.len(),
            first_stat(stats@, key@) == first_stat(
                stats@.subrange(i as int, stats@.len() as int),
                key@,
            ),
        decreases stats@.len() - i,
    {
        let ghost rest = stats@.subrange(i as int, stats@.len() as int);
        assert(rest.drop_first() =~= stats@.subrange(i + 1, stats@.len() as int));
        assert(rest[0] == stats@[i as int]);
        if str_eq(stats[i].key.as_str(), key) {
            return Some(stats[i].value);
        }
        i = i + 1;
    }
    None
}

/// The reclaimable page cache a sample reports.
pub open spec fn page_cache_of(s: ContainerStatsRecord) -> u64 {
    match s.memory_stats {
        Some(v) => match first_stat(v@, "total_inactive_file"@) {
            Some(x) => x,
            None => match first_stat(v@, "inactive_file"@) {
                Some(x) => x,
                None => 0,
            },
        },
        None => 0,
    }
}

/// The memory in use without the page cache.
pub open spec fn working_set_of(s: ContainerStatsRecord) -> u64 {
    sat_sub(or_zero(s.memory_usage), page_cache_of(s))
}

/// A byte count held at the largest signed value.
pub open spec fn clamped_size(b: u64) -> ByteSize {
    ByteSize {
        bytes: if b > i64::MAX as u64 {
            i64::MAX
        } else {
            b as i64
        },
    }
}

/// The number of CPUs a sample reports: the online CPUs, else the number of
/// per-CPU counters, else one.
pub open spec fn cpu_count_of(s: ContainerStatsRecord) -> u64 {
    match s.online_cpus {
        Some(n) => n as u64,
        None => match s.percpu_count {
            Some(c) => c,
            None => 1,
        },
    }
}

/// The statistics the screens show for a sample.
pub open spec fn runtime_stats_of(s: ContainerStatsRecord) -> ContainerRuntimeStatsDto {
    let (rx, tx) = match s.networks {
        Some(v) => (rx_total(v@), tx_total(v@)),
        None => (0u64, 0u64),
    };
    ContainerRuntimeStatsDto {
        cpu_delta: sat_sub(or_zero(s.cpu_total), or_zero(s.precpu_total)),
        system_delta: sat_sub(or_zero(s.system_cpu), or_zero(s.presystem_cpu)),
        online_cpus: cpu_count_of(s),
        memory_used: working_set_of(s),
        memory_cap: or_zero(s.memory_limit),
        memory_usage: clamped_size(working_set_of(s)),
        memory_limit: clamped_size(or_zero(s.memory_limit)),
        network_rx: clamped_size(rx),
        network_tx: clamped_size(tx),
    }
}

fn copy_strings(v: &Vec<String>) -> (r: Vec<String>)
    ensures
        texts(r@) == texts(v@),
{
    let mut out: Vec<String> = Vec::new();
    let mut i: usize = 0;
    while i < v.len()
        invariant
            i <= v@.len(),
            out@.len() == i,
            forall|k: int| 0 <= k < i ==> #[trigger] out@[k]@ == v@[k]@,
        decreases v@.len() - i,
    {
        out.push(v[i].clone());
        i = i + 1;
    }
    assert(texts(out@) =~= texts(v@));
    out
}

proof fn lemma_first_segment_prefix(s: Seq<char>, i: int)
    requires
        0 <= i <= s.len(),
        forall|j: int| 0 <= j < i ==> s[j] != '/',
    ensures
        first_segment(s) == s.subrange(0, i) + first_segment(s.subrange(i, s.len() as int)),
        after_first_slash(s) == after_first_slash(s.subrange(i, s.len() as int)),
    decreases i,
{
    if i > 0 {
        let t = s.drop_first();
        assert forall|j: int| 0 <= j < i - 1 implies t[j] != '/' by {
            assert(t[j] == s[j + 1]);
        }
        lemma_first_segment_prefix(t, i - 1);
        assert(t.subrange(i - 1, t.len() as int) =~= s.subrange(i, s.len() as int));
        assert(s.subrange(0, i) =~= seq![s[0]] + t.subrange(0, i - 1));
    } else {
        assert(s.subrange(0, s.len() as int) =~= s);
    }
}

/// The index of the first `/` at or after `from`, or the length.
fn slash_from(v: &Vec<char>, from: usize) -> (r: usize)
    requires
        from <= v@.len(),
    ensures
        from <= r <= v@.len(),
        forall|j: int| from <= j < r ==> v@[j] != '/',
        r < v@.len() ==> v@[r as int] == '/',
{
    let mut i = from;
    while i < v.len() && v[i] != '/'
        invariant
            from <= i <= v@.len(),
            forall|j: int| from <= j < i ==> v@[j] != '/',
        decreases v@.len() - i,
    {
        i = i + 1;
    }
    i
}

fn chars_between(v: &Vec<char>, from: usize, to: usize) -> (r: String)
    requires
        from <= to <= v@.len(),
    ensures
        r@ == v@.subrange(from as int, to as int),
{
    let mut out = String::new();
    let mut i = from;
    while i < to
        invariant
            from <= i <= to,
            to <= v@.len(),
            out@ == v@.subrange(from as int, i as int),
        decreases to - i,
    {
        crate::text::push_char(&mut out, v[i]);
        i = i + 1;
        assert(out@ =~= v@.subrange(from as int, i as int));
    }
    out
}

/// The container port and the protocol an exposed-port key names.
fn split_port_key(key: &str) -> (r: (u16, String))
    ensures
        r.0 == key_port(key@),
        r.1@ == key_protocol(key@),
{
    let v = crate::text::chars_of(key);
    let n = v.len();
    let first_end = slash_from(&v, 0);
    let head = chars_between(&v, 0, first_end);
    proof {
        lemma_first_segment_prefix(v@, first_end as int);
        if first_end < n {
            assert(v@.subrange(first_end as int, n as int)[0] == '/');
        } else {
            assert(v@.subrange(n as int, n as int) =~= Seq::<char>::empty());
        }
        assert(first_segment(v@) == head@);
    }
    let port = match parse_u16(head.as_str()) {
        Some(p) => p,
        None => 0,
    };
    if first_end == n {
        return (port, string_of("tcp"));
    }
    let second_end = slash_from(&v, first_end + 1);
    let protocol = chars_between(&v, first_end + 1, second_end);
    proof {
        let rest = v@.subrange(first_end + 1, n as int);
        assert(v@.subrange(first_end as int, n as int).drop_first() =~= rest);
        assert(after_first_slash(v@) == Some(rest));
        let k = second_end - (first_end + 1);
        assert forall|j: int| 0 <= j < k implies rest[j] != '/' by {
            assert(rest[j] == v@[first_end + 1 + j]);
        }
        lemma_first_segment_prefix(rest, k);
        assert(rest.subrange(0, k) =~= v@.subrange(first_end + 1, second_end as int));
        if second_end < n {
            assert(rest.subrange(k, rest.len() as int)[0] == '/');
        } else {
            assert(rest.subrange(k, rest.len() as int) =~= Seq::<char>::empty());
        }
    }
    (port, protocol)
}

fn map_inspect_ports(ports: &Option<Vec<PortBindingRecord>>) -> (r: Vec<PortMapping>)
    ensures
        ports_are(r@, inspect_ports_of(*ports)),
{
    let mut out: Vec<PortMapping> = Vec::new();
    match ports {
        None => out,
        Some(v) => {
            let mut i: usize = 0;
            while i < v.len()
                invariant
                    i <= v@.len(),
                    ports_are(out@, inspect_ports(v@.subrange(0, i as int))),
                decreases v@.len() - i,
            {
                let b = &v[i];
                let (private_port, protocol) = split_port_key(b.key.as_str());
                let ghost before = out@;
                let ghost entries = binding_ports(*b);
                proof {
                    assert(v@.subrange(0, i + 1).drop_last() =~= v@.subrange(0, i as int));
                    assert(v@.subrange(0, i + 1).last() == *b);
                }
                match &b.host_ports {
                    Some(hs) => {
                        let mut k: usize = 0;
                        while k < hs.len()
                            invariant
                                k <= hs@.len(),
                                b.host_ports == Some(*hs),
                                entries == binding_ports(*b),
                                private_port == key_port(b.key@),
                                protocol@ == key_protocol(b.key@),
                                ports_are(before, inspect_ports(v@.subrange(0, i as int))),
                                ports_are(
                                    out@,
                                    inspect_ports(v@.subrange(0, i as int)) + entries.subrange(
                                        0,
                                        k as int,
                                    ),
                                ),
                            decreases hs@.len() - k,
                        {
                            let public_port = match &hs[k] {
                                Some(h) => parse_u16(h.as_str()),
                                None => None,
                            };
                            out.push(PortMapping::new(private_port, public_port, protocol.as_str()));
                            k = k + 1;
                            proof {
                                let base = inspect_ports(v@.subrange(0, i as int));
                                assert(base + entries.subrange(0, k as int) =~= (base
                                    + entries.subrange(0, k - 1)).push(entries[k - 1]));
                            }
                        }
                        assert(entries.subrange(0, k as int) =~= entries);
                    },
                    None => {
                        out.push(PortMapping::new(private_port, None, protocol.as_str()));
                        proof {
                            let base = inspect_ports(v@.subrange(0, i as int));
                            assert(base + entries =~= base.push(entries[0]));
                        }
                    },
                }
                i = i + 1;
            }
            assert(v@.subrange(0, i as int) =~= v@);
            out
        },
    }
}

} // verus!
