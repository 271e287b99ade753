//! Grouping the engine's container listing into Compose stacks.
use crate::domain::container::port_text;
use crate::domain::stack::{stack_state_named, Stack, StackContainer, StackContainerState, StackName, STANDALONE};
use crate::infrastructure::records::{
    find_label, first_name, first_name_of, label_value, text_or, text_or_default,
    ContainerSummaryRecord, PortRecord,
};
use crate::text::{
    joined, lowercase, push_decimal, push_text, str_eq, str_lt, string_of, text_lt, to_lowercase_string,
};
use vstd::prelude::*;

verus! {

/// The label by which Compose marks the project of a container.
pub const COMPOSE_PROJECT_LABEL: &'static str = "com.docker.compose.project";

/// The stack a listing entry belongs to: its Compose project, or the
/// standalone group when it has none.
pub open spec fn group_key(r: ContainerSummaryRecord) -> Seq<char> {
    match label_value(r.labels, COMPOSE_PROJECT_LABEL@) {
        Some(v) => v,
        None => STANDALONE@,
    }
}

/// The protocol a port is shown with: the engine's name in lower case,
/// `tcp` when it has none.
pub open spec fn protocol_text(p: PortRecord) -> Seq<char> {
    match p.protocol {
        Some(t) => lowercase(t@),
        None => "tcp"@,
    }
}


/// How a container's ports are shown in a stack: each port as
/// `public:private/protocol` (or `private/protocol`), separated by `, `;
/// a dash when there are none.
pub open spec fn ports_text(ports: Option<Vec<PortRecord>>) -> Seq<char> {
    let items = match ports {
        Some(v) => v@.map_values(|p: PortRecord| port_text(p.private_port, p.public_port, protocol_text(p))),
        None => Seq::empty(),
    };
    if items.len() == 0 {
        seq!['-']
    } else {
        joined(items, seq![',', ' '])
    }
}

/// The state a listing entry reports; `Stopped` when it reports none.
pub open spec fn reported_stack_state(r: ContainerSummaryRecord) -> StackContainerState {
    match r.state {
        Some(s) => stack_state_named(lowercase(s@)),
        None => StackContainerState::Stopped,
    }
}

/// The stack container built from a listing entry that has an identifier.
pub open spec fn stack_container_of(c: StackContainer, r: ContainerSummaryRecord) -> bool {
    &&& r.id is Some
    &&& c.id@ == r.id->0@
    &&& c.name@ == first_name(r.names)
    &&& c.image@ == text_or(r.image, "unknown"@)
    &&& c.state == reported_stack_state(r)
    &&& c.status@ == text_or(r.status, Seq::empty())
    &&& c.ports@ == ports_text(r.ports)
}

/// The listing entries that become containers of the stack named `key`, in
/// listing order: those in the group that have an identifier.
pub open spec fn members(records: Seq<ContainerSummaryRecord>, key: Seq<char>) -> Seq<
    ContainerSummaryRecord,
> {
    records.filter(|r: ContainerSummaryRecord| group_key(r) == key && r.id is Some)
}

/// Stacks are listed by name, with the standalone group last.
pub open spec fn stack_before(a: Seq<char>, b: Seq<char>) -> bool {
    let sa = a == STANDALONE@;
    let sb = b == STANDALONE@;
    (!sa && sb) || (sa == sb && text_lt(a, b))
}

/// A stack built from the listing: a non-empty group name used by some
/// entry, with one container per member entry, in listing order.
pub open spec fn stack_of_listing(s: Stack, records: Seq<ContainerSummaryRecord>) -> bool {
    &&& s.name@.len() > 0
    &&& exists|j: int| 0 <= j < records.len() && group_key(#[trigger] records[j]) == s.name@
    &&& s.containers@.len() == members(records, s.name@).len()
    &&& forall|k: int|
        0 <= k < s.containers@.len() ==> stack_container_of(
            #[trigger] s.containers@[k],
            members(records, s.name@)[k],
        )
}

/// Stacks in listing order: by name, standalone last.
pub open spec fn stacks_ordered(stacks: Seq<Stack>) -> bool {
    forall|i: int| 0 <= i < stacks.len() - 1 ==> stack_before(#[trigger] stacks[i].name@, stacks[i + 1].name@)
}

/// No two stacks share a name.
pub open spec fn stack_names_distinct(stacks: Seq<Stack>) -> bool {
    forall|i: int, j: int| 0 <= i < stacks.len() && 0 <= j < stacks.len() && i != j ==> #[trigger] stacks[i].name@ != #[trigger] stacks[j].name@
}

/// The length of the longest common prefix of two texts.
pub open spec fn common_prefix_len(a: Seq<char>, b: Seq<char>) -> nat
    decreases a.len(),
{
    if a.len() == 0 || b.len() == 0 || a[0] != b[0] {
        0
    } else {
        1 + common_prefix_len(a.drop_first(), b.drop_first())
    }
}

proof fn lemma_common_prefix(a: Seq<char>, b: Seq<char>)
    ensures
        common_prefix_len(a, b) <= a.len(),
        common_prefix_len(a, b) <= b.len(),
        a.subrange(0, common_prefix_len(a, b) as int) == b.subrange(0, common_prefix_len(a, b) as int),
        common_prefix_len(a, b) < a.len() && common_prefix_len(a, b) < b.len() ==> a[common_prefix_len(a, b) as int] != b[common_prefix_len(a, b) as int],
    decreases a.len(),
{
    if !(a.len() == 0 || b.len() == 0 || a[0] != b[0]) {
        let (a1, b1) = (a.drop_first(), b.drop_first());
        lemma_common_prefix(a1, b1);
        let k = common_prefix_len(a1, b1);
        assert(a.subrange(0, (k + 1) as int) =~= seq![a[0]] + a1.subrange(0, k as int));
        assert(b.subrange(0, (k + 1) as int) =~= seq![b[0]] + b1.subrange(0, k as int));
    }
}

/// Two different texts are ordered one way or the other.
pub proof fn lemma_text_lt_total(a: Seq<char>, b: Seq<char>)
    requires
        a != b,
    ensures
        text_lt(a, b) || text_lt(b, a),
{
    lemma_common_prefix(a, b);
    let k = common_prefix_len(a, b) as int;
    if k < a.len() && k < b.len() {
        if a[k] < b[k] {
            assert(text_lt(a, b));
        } else {
            assert(b.subrange(0, k) == a.subrange(0, k));
            assert(text_lt(b, a));
        }
    } else if k == a.len() && k < b.len() {
        assert(text_lt(a, b));
    } else if k == b.len() && k < a.len() {
        assert(b.subrange(0, k) == a.subrange(0, k));
        assert(text_lt(b, a));
    } else {
        assert(a =~= a.subrange(0, k));
        assert(b =~= b.subrange(0, k));
    }
}

/// The standalone-last order is total on different names.
pub proof fn lemma_stack_before_total(a: Seq<char>, b: Seq<char>)
    requires
        a != b,
    ensures
        stack_before(a, b) || stack_before(b, a),
{
    lemma_text_lt_total(a, b);
}

/// Which stack an entry belongs to.
pub fn group_key_of(r: &ContainerSummaryRecord) -> (k: String)
    ensures
        k@ == group_key(*r),
{
    match find_label(&r.labels, COMPOSE_PROJECT_LABEL) {
        Some(v) => v.clone(),
        None => string_of(STANDALONE),
    }
}

fn protocol_of(p: &PortRecord) -> (r: String)
    ensures
        r@ == protocol_text(*p),
{
    match &p.protocol {
        Some(t) => to_lowercase_string(t.as_str()),
        None => string_of("tcp"),
    }
}

/// How a container's ports are shown in a stack.
pub fn map_ports(ports: &Option<Vec<PortRecord>>) -> (r: String)
    ensures
        r@ == ports_text(*ports),
{
    let ghost items = match ports {
        Some(v) => v@.map_values(|p: PortRecord| port_text(p.private_port, p.public_port, protocol_text(p))),
        None => Seq::<Seq<char>>::empty(),
    };
    proof {
        reveal_strlit("-");
    }
    match ports {
        None => string_of("-"),
        Some(v) => {
            if v.len() == 0 {
                return string_of("-");
            }
            let mut out = String::new();
            let mut i: usize = 0;
            while i < v.len()
                invariant
                    i <= v@.len(),
                    v@.len() > 0,
                    items == v@.map_values(|p: PortRecord| port_text(p.private_port, p.public_port, protocol_text(p))),
                    out@ == joined(items.subrange(0, i as int), seq![',', ' ']),
                decreases v@.len() - i,
            {
                let p = &v[i];
                let protocol = protocol_of(p);
                let ghost before = out@;
                if i > 0 {
                    push_text(&mut out, ", ");
                }
                match p.public_port {
                    Some(public) => {
                        push_decimal(&mut out, public as u64);
                        crate::text::push_char(&mut out, ':');
                    },
                    None => {},
                }
                push_decimal(&mut out, p.private_port as u64);
                crate::text::push_char(&mut out, '/');
                push_text(&mut out, protocol.as_str());
                proof {
                    reveal_strlit(", ");
                    let entry = port_text(p.private_port, p.public_port, protocol_text(*p));
                    assert(items[i as int] == entry);
                    assert(items.subrange(0, i + 1).drop_last() =~= items.subrange(0, i as int));
                    if i == 0 {
                        assert(out@ =~= entry);
                        assert(items.subrange(0, 1) =~= seq![entry]);
                    } else {
                        assert(out@ =~= before + seq![',', ' '] + entry);
                    }
                }
                i = i + 1;
            }
            assert(items.subrange(0, i as int) =~= items);
            out
        },
    }
}

/// The stack container for a listing entry; entries without an identifier
/// are skipped.
pub fn map_container(r: &ContainerSummaryRecord) -> (c: Option<StackContainer>)
    ensures
        r.id is None <==> c is None,
        c matches Some(sc) ==> stack_container_of(sc, *r),
{
    let id = match &r.id {
        Some(id) => id.clone(),
        None => return None,
    };
    let name = first_name_of(&r.names);
    let image = text_or_default(&r.image, "unknown");
    let state = match &r.state {
        Some(s) => StackContainerState::parse(s.as_str()),
        None => StackContainerState::Stopped,
    };
    let status = text_or_default(&r.status, "");
    proof {
        reveal_strlit("");
    }
    let ports = map_ports(&r.ports);
    let c = StackContainer { id, name, image, state, status, ports };
    assert(c.status@ == text_or(r.status, Seq::empty()));
    assert(c.state == reported_stack_state(*r));
    Some(c)
}

/// The containers of the stack named `key`.
fn members_of(records: &Vec<ContainerSummaryRecord>, key: &str) -> (r: Vec<StackContainer>)
    ensures
        r@.len() == members(records@, key@).len(),
        forall|k: int| 0 <= k < r@.len() ==> stack_container_of(#[trigger] r@[k], members(records@, key@)[k]),
{
    let ghost pred = |r: ContainerSummaryRecord| group_key(r) == key@ && r.id is Some;
    let mut out: Vec<StackContainer> = Vec::new();
    let mut j: usize = 0;
    while j < records.len()
        invariant
            j <= records@.len(),
            pred == (|r: ContainerSummaryRecord| group_key(r) == key@ && r.id is Some),
            out@.len() == records@.subrange(0, j as int).filter(pred).len(),
            forall|k: int| 0 <= k < out@.len() ==> stack_container_of(#[trigger] out@[k], records@.subrange(0, j as int).filter(pred)[k]),
        decreases records@.len() - j,
    {
        let rec = &records[j];
        let k = group_key_of(rec);
        proof {
            reveal_with_fuel(Seq::filter, 1);
            assert(records@.subrange(0, j + 1).drop_last() =~= records@.subrange(0, j as int));
        }
        if str_eq(k.as_str(), key) {
            match map_container(rec) {
                Some(c) => {
                    out.push(c);
                },
                None => {},
            }
        }
        j = j + 1;
    }
    assert(records@.subrange(0, j as int) =~= records@);
    out
}

fn stack_name_before(a: &StackName, b: &StackName) -> (r: bool)
    ensures
        r == stack_before(a@, b@),
{
    let sa = a.is_standalone();
    let sb = b.is_standalone();
    (!sa && sb) || (sa == sb && str_lt(a.as_str(), b.as_str()))
}

fn name_listed(stacks: &Vec<Stack>, name: &str) -> (r: bool)
    ensures
        r == exists|q: int| 0 <= q < stacks@.len() && #[trigger] stacks@[q].name@ == name@,
{
    let mut q: usize = 0;
    while q < stacks.len()
        invariant
            q <= stacks@.len(),
            forall|t: int| 0 <= t < q ==> #[trigger] stacks@[t].name@ != name@,
        decreases stacks@.len() - q,
    {
        if str_eq(stacks[q].name.as_str(), name) {
            return true;
        }
        q = q + 1;
    }
    false
}

/// Puts a stack into an ordered list of stacks with other names, keeping
/// the order.
fn insert_ordered(stacks: &mut Vec<Stack>, s: Stack)
    requires
        stacks_ordered(old(stacks)@),
        stack_names_distinct(old(stacks)@),
        forall|q: int| 0 <= q < old(stacks)@.len() ==> #[trigger] old(stacks)@[q].name@ != s.name@,
    ensures
        stacks_ordered(final(stacks)@),
        stack_names_distinct(final(stacks)@),
        exists|p: int| 0 <= p <= old(stacks)@.len() && final(stacks)@ == old(stacks)@.insert(p, s),
{
    let mut p: usize = 0;
    while p < stacks.len() && stack_name_before(&stacks[p].name, &s.name)
        invariant
            p <= stacks@.len(),
            forall|t: int| 0 <= t < p ==> stack_before(#[trigger] stacks@[t].name@, s.name@),
        decreases stacks@.len() - p,
    {
        p = p + 1;
    }
    let ghost before = stacks@;
    proof {
        if p < before.len() {
            lemma_stack_before_total(before[p as int].name@, s.name@);
        }
    }
    stacks.insert(p, s);
    proof {
        let after = stacks@;
        assert forall|i: int| 0 <= i < after.len() - 1 implies stack_before(#[trigger] after[i].name@, after[i + 1].name@) by {
            if i < p - 1 {
                assert(after[i] == before[i] && after[i + 1] == before[i + 1]);
            } else if i == p - 1 {
                assert(after[i] == before[i] && after[i + 1] == s);
            } else if i == p {
                assert(after[i] == s && after[i + 1] == before[i]);
            } else {
                assert(after[i] == before[i - 1] && after[i + 1] == before[i]);
            }
        }
        assert forall|i: int, j: int| 0 <= i < after.len() && 0 <= j < after.len() && i != j implies #[trigger] after[i].name@ != #[trigger] after[j].name@ by {
            let bi = if i < p { i } else { i - 1 };
            let bj = if j < p { j } else { j - 1 };
            if i != p && j != p {
                assert(after[i] == before[bi] && after[j] == before[bj]);
            } else if i == p {
                assert(after[j] == before[bj]);
            } else {
                assert(after[i] == before[bi]);
            }
        }
    }
}

/// Groups the engine's container listing into stacks by the Compose project
/// label (the standalone group for containers without it), skips entries
/// without an identifier and groups with an empty name, and lists the
/// stacks by name with the standalone group last.
pub struct StackInfraMapper;

impl StackInfraMapper {
    pub fn group_into_stacks(summaries: Vec<ContainerSummaryRecord>) -> (r: Vec<Stack>)
        ensures
            forall|i: int| 0 <= i < r@.len() ==> stack_of_listing(#[trigger] r@[i], summaries@),
            forall|j: int| 0 <= j < summaries@.len() && group_key(#[trigger] summaries@[j]).len() > 0 ==> exists|i: int| 0 <= i < r@.len() && r@[i].name@ == group_key(summaries@[j]),
            stack_names_distinct(r@),
            stacks_ordered(r@),
    {
        let mut stacks: Vec<Stack> = Vec::new();
        let mut j: usize = 0;
        while j < summaries.len()
            invariant
                j <= summaries@.len(),
                forall|i: int| 0 <= i < stacks@.len() ==> stack_of_listing(#[trigger] stacks@[i], summaries@),
                forall|t: int| 0 <= t < j && group_key(#[trigger] summaries@[t]).len() > 0 ==> exists|i: int| 0 <= i < stacks@.len() && stacks@[i].name@ == group_key(summaries@[t]),
                stack_names_distinct(stacks@),
                stacks_ordered(stacks@),
            decreases summaries@.len() - j,
        {
            let key = group_key_of(&summaries[j]);
            if !key.as_str().is_empty() && !name_listed(&stacks, key.as_str()) {
                match StackName::new(key.as_str()) {
                    Ok(name) => {
                        let containers = members_of(&summaries, key.as_str());
                        let stack = Stack::new(name, containers);
                        let ghost before = stacks@;
                        assert(group_key(summaries@[j as int]) == stack.name@);
                        assert(stack_of_listing(stack, summaries@));
                        insert_ordered(&mut stacks, stack);
                        proof {
                            let p = choose|p: int| 0 <= p <= before.len() && stacks@ == before.insert(p, stack);
                            assert forall|i: int| 0 <= i < stacks@.len() implies stack_of_listing(#[trigger] stacks@[i], summaries@) by {
                                if i < p {
                                    assert(stacks@[i] == before[i]);
                                } else if i > p {
                                    assert(stacks@[i] == before[i - 1]);
                                }
                            }
                            assert forall|t: int| 0 <= t <= j && group_key(#[trigger] summaries@[t]).len() > 0 implies exists|i: int| 0 <= i < stacks@.len() && stacks@[i].name@ == group_key(summaries@[t]) by {
                                if t == j {
                                    assert(stacks@[p] == stack);
                                } else {
                                    let i0 = choose|i: int| 0 <= i < before.len() && before[i].name@ == group_key(summaries@[t]);
                                    if i0 < p {
                                        assert(stacks@[i0] == before[i0]);
                                    } else {
                                        assert(stacks@[i0 + 1] == before[i0]);
                                    }
                                }
                            }
                        }
                    },
                    Err(_) => {},
                }
            }
            j = j + 1;
        }
        stacks
    }
}

} // verus!
