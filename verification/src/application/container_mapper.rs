//! Building what the container screens show from the domain.
use crate::application::container_dto::ContainerDto;
use crate::domain::container::{
    network_text, port_text, short_id_bytes, Container, ContainerState,
};
use crate::infrastructure::clock::{
    format_utc_seconds, utc_calendar_text, utc_seconds_representable,
};
use crate::text::{joined, push_text, string_of, texts};
use vstd::prelude::*;
use vstd::utf8::{encode_utf8, is_char_boundary};

verus! {

/// The separator between the entries of a list shown in one cell.
pub const LIST_SEPARATOR: &'static str = ", ";

/// Joins texts with a separator between neighbours.
pub fn join_texts(items: &Vec<String>, sep: &str) -> (r: String)
    ensures
        r@ == joined(texts(items@), sep@),
{
    let mut out = String::new();
    let mut i: usize = 0;
    while i < items.len()
        invariant
            i <= items@.len(),
            out@ == joined(texts(items@).subrange(0, i as int), sep@),
        decreases items@.len() - i,
    {
        let ghost before = out@;
        if i > 0 {
            push_text(&mut out, sep);
        }
        push_text(&mut out, items[i].as_str());
        proof {
            let t = texts(items@);
            assert(t.subrange(0, i + 1).drop_last() =~= t.subrange(0, i as int));
            assert(t.subrange(0, i + 1).last() == items@[i as int]@);
            if i == 0 {
                assert(out@ =~= items@[0]@);
            } else {
                assert(out@ =~= before + sep@ + items@[i as int]@);
            }
        }
        i = i + 1;
    }
    assert(texts(items@).subrange(0, i as int) =~= texts(items@));
    out
}

/// Whether a container's short identifier can be cut from it.
pub open spec fn container_id_cuttable(c: Container) -> bool {
    encode_utf8(c.id@).len() > 12 ==> is_char_boundary(encode_utf8(c.id@), 12)
}

/// The transfer object for a container: its values, its ports and networks
/// each listed as they are shown and separated by `, `, the operations its
/// state allows, and no statistics yet.
pub open spec fn container_dto_of(d: ContainerDto, c: Container) -> bool {
    &&& d.id@ == c.id@
    &&& encode_utf8(d.short_id@) == short_id_bytes(c.id@)
    &&& d.name@ == c.name@
    &&& d.image@ == c.image@
    &&& d.state == c.state
    &&& d.status@ == c.status@
    &&& d.created@ == utc_calendar_text(c.created.secs as int)
    &&& d.ports@ == joined(
        c.ports@.map_values(|p: crate::domain::container::PortMapping| port_text(p.private_port, p.public_port, p.protocol@)),
        LIST_SEPARATOR@,
    )
    &&& d.networks@ == joined(
        c.networks@.map_values(|n: crate::domain::container::NetworkInfo| n.name@),
        LIST_SEPARATOR@,
    )
    &&& d.can_start == (c.state is Stopped || c.state is Exited || c.state is Created)
    &&& d.can_stop == c.state.active()
    &&& d.can_delete == !c.state.active()
    &&& d.can_restart == c.state.active()
    &&& d.can_pause == (c.state is Running)
    &&& d.can_unpause == (c.state is Paused)
    &&& texts(d.env_vars@) == texts(c.env_vars@)
    &&& d.runtime_stats is None
}

/// Builds the container transfer objects.
pub struct ContainerMapper;

impl ContainerMapper {
    /// The transfer object for a container; `None` when the calendar cannot
    /// hold its creation time.
    pub fn to_dto(container: &Container) -> (r: Option<ContainerDto>)
        requires
            container_id_cuttable(*container),
        ensures
            r is Some <==> utc_seconds_representable(container.created.secs as int),
            r matches Some(d) ==> container_dto_of(d, *container),
    {
        let created = match format_utc_seconds(container.created.secs) {
            Some(text) => text,
            None => return None,
        };
        let mut port_texts: Vec<String> = Vec::new();
        let mut i: usize = 0;
        while i < container.ports.len()
            invariant
                i <= container.ports@.len(),
                texts(port_texts@) == container.ports@.subrange(0, i as int).map_values(
                    |p: crate::domain::container::PortMapping| port_text(p.private_port, p.public_port, p.protocol@),
                ),
            decreases container.ports@.len() - i,
        {
            let ghost before = port_texts@;
            let text = container.ports[i].to_text();
            port_texts.push(text);
            proof {
                let f = |p: crate::domain::container::PortMapping| port_text(p.private_port, p.public_port, p.protocol@);
                assert(texts(port_texts@) =~= texts(before).push(text@));
                assert(container.ports@.subrange(0, i + 1) =~= container.ports@.subrange(0, i as int).push(container.ports@[i as int]));
                assert(container.ports@.subrange(0, i as int).push(container.ports@[i as int]).map_values(f)
                    =~= container.ports@.subrange(0, i as int).map_values(f).push(f(container.ports@[i as int])));
            }
            i = i + 1;
        }
        assert(container.ports@.subrange(0, i as int) =~= container.ports@);
        let mut network_names: Vec<String> = Vec::new();
        let mut j: usize = 0;
        while j < container.networks.len()
            invariant
                j <= container.networks@.len(),
                texts(network_names@) == container.networks@.subrange(0, j as int).map_values(
                    |n: crate::domain::container::NetworkInfo| n.name@,
                ),
            decreases container.networks@.len() - j,
        {
            let ghost before = network_names@;
            let name = string_of(container.networks[j].name.as_str());
            network_names.push(name);
            proof {
                let f = |n: crate::domain::container::NetworkInfo| n.name@;
                assert(texts(network_names@) =~= texts(before).push(name@));
                assert(container.networks@.subrange(0, j + 1) =~= container.networks@.subrange(0, j as int).push(container.networks@[j as int]));
                assert(container.networks@.subrange(0, j as int).push(container.networks@[j as int]).map_values(f)
                    =~= container.networks@.subrange(0, j as int).map_values(f).push(f(container.networks@[j as int])));
            }
            j = j + 1;
        }
        assert(container.networks@.subrange(0, j as int) =~= container.networks@);
        let mut env_vars: Vec<String> = Vec::new();
        let mut k: usize = 0;
        while k < container.env_vars.len()
            invariant
                k <= container.env_vars@.len(),
                texts(env_vars@) == texts(container.env_vars@.subrange(0, k as int)),
            decreases container.env_vars@.len() - k,
        {
            let ghost before = env_vars@;
            let var = string_of(container.env_vars[k].as_str());
            env_vars.push(var);
            proof {
                assert(texts(env_vars@) =~= texts(before).push(var@));
                assert(texts(container.env_vars@.subrange(0, k + 1)) =~= texts(
                    container.env_vars@.subrange(0, k as int),
                ).push(container.env_vars@[k as int]@));
            }
            k = k + 1;
        }
        assert(container.env_vars@.subrange(0, k as int) =~= container.env_vars@);
        let state: ContainerState = container.state;
        Some(
            ContainerDto {
                id: string_of(container.id.as_str()),
                short_id: string_of(container.id.short()),
                name: string_of(container.name.as_str()),
                image: string_of(container.image.as_str()),
                state,
                status: string_of(container.status.as_str()),
                created,
                ports: join_texts(&port_texts, LIST_SEPARATOR),
                networks: join_texts(&network_names, LIST_SEPARATOR),
                can_start: state.can_be_started(),
                can_stop: state.can_be_stopped(),
                can_delete: state.can_be_deleted(),
                can_restart: state.can_be_restarted(),
                can_pause: state.can_be_paused(),
                can_unpause: state.can_be_unpaused(),
                env_vars,
                runtime_stats: None,
            },
        )
    }
}

} // verus!
