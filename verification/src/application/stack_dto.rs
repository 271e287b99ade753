//! What the stack screens show, and how it is built from the domain.
use crate::domain::stack::{
    running_count_of, stack_state_label, without_leading, Stack, StackContainer,
    StackContainerState,
};
use crate::text::string_of;
use vstd::prelude::*;

verus! {

/// A container of a stack as the stack screens show it.
#[derive(Debug, Clone)]
pub struct StackContainerDto {
    pub id: String,
    pub name: String,
    pub image: String,
    pub state: StackContainerState,
    pub status: String,
    pub ports: String,
    pub can_start: bool,
    pub can_stop: bool,
}

impl StackContainerDto {
    /// The display name of the container's state.
    pub fn state_display(&self) -> (r: &'static str)
        ensures
            r@ == stack_state_label(self.state),
    {
        self.state.label()
    }
}

/// Whether two stack containers show the same values.
pub open spec fn stack_container_same(a: StackContainerDto, b: StackContainerDto) -> bool {
    &&& a.id@ == b.id@
    &&& a.name@ == b.name@
    &&& a.image@ == b.image@
    &&& a.state == b.state
    &&& a.status@ == b.status@
    &&& a.ports@ == b.ports@
    &&& a.can_start == b.can_start
    &&& a.can_stop == b.can_stop
}

/// Whether two lists of stack containers show the same values, in order.
pub open spec fn stack_containers_same(a: Seq<StackContainerDto>, b: Seq<StackContainerDto>) -> bool {
    a.len() == b.len() && forall|k: int|
        0 <= k < a.len() ==> stack_container_same(#[trigger] a[k], b[k])
}

impl StackContainerDto {
    /// A copy of the container's values.
    pub fn duplicate(&self) -> (r: StackContainerDto)
        ensures
            stack_container_same(r, *self),
    {
        StackContainerDto {
            id: string_of(self.id.as_str()),
            name: string_of(self.name.as_str()),
            image: string_of(self.image.as_str()),
            state: self.state,
            status: string_of(self.status.as_str()),
            ports: string_of(self.ports.as_str()),
            can_start: self.can_start,
            can_stop: self.can_stop,
        }
    }
}

/// A copy of a list of stack containers.
pub fn copy_stack_containers(v: &Vec<StackContainerDto>) -> (r: Vec<StackContainerDto>)
    ensures
        stack_containers_same(r@, v@),
{
    let mut out: Vec<StackContainerDto> = Vec::new();
    let mut i: usize = 0;
    while i < v.len()
        invariant
            i <= v@.len(),
            out@.len() == i,
            forall|k: int| 0 <= k < i ==> stack_container_same(#[trigger] out@[k], v@[k]),
        decreases v@.len() - i,
    {
        out.push(v[i].duplicate());
        i = i + 1;
    }
    out
}

/// A stack as the stack screens show it.
#[derive(Debug, Clone)]
pub struct StackDto {
    pub name: String,
    pub container_count: usize,
    pub running_count: usize,
    pub containers: Vec<StackContainerDto>,
}

/// The transfer object for a stack container: the name loses its leading
/// slashes and the two capabilities follow from the state.
pub open spec fn container_dto_of(d: StackContainerDto, c: StackContainer) -> bool {
    &&& d.id@ == c.id@
    &&& d.name@ == without_leading(c.name@, '/')
    &&& d.image@ == c.image@
    &&& d.state == c.state
    &&& d.status@ == c.status@
    &&& d.ports@ == c.ports@
    &&& d.can_start == c.state.startable()
    &&& d.can_stop == c.state.stoppable()
}

/// The transfer object for a stack: its name, its counts, and one entry per
/// container in the same order.
pub open spec fn stack_dto_of(d: StackDto, s: Stack) -> bool {
    &&& d.name@ == s.name@
    &&& d.container_count == s.containers@.len()
    &&& d.running_count == running_count_of(s.containers@)
    &&& d.containers@.len() == s.containers@.len()
    &&& forall|k: int|
        0 <= k < d.containers@.len() ==> container_dto_of(
            #[trigger] d.containers@[k],
            s.containers@[k],
        )
}

/// Builds the stack transfer objects.
pub struct StackMapper;

impl StackMapper {
    pub fn to_container_dto(container: &StackContainer) -> (r: StackContainerDto)
        ensures
            container_dto_of(r, *container),
    {
        StackContainerDto {
            id: string_of(container.id()),
            name: string_of(container.display_name()),
            image: string_of(container.image()),
            state: container.state(),
            status: string_of(container.status()),
            ports: string_of(container.ports()),
            can_start: container.can_be_started(),
            can_stop: container.can_be_stopped(),
        }
    }

    pub fn to_dto(stack: &Stack) -> (r: StackDto)
        ensures
            stack_dto_of(r, *stack),
    {
        let mut containers: Vec<StackContainerDto> = Vec::new();
        let mut i: usize = 0;
        while i < stack.containers.len()
            invariant
                i <= stack.containers@.len(),
                containers@.len() == i,
                forall|k: int|
                    0 <= k < i ==> container_dto_of(#[trigger] containers@[k], stack.containers@[k]),
            decreases stack.containers@.len() - i,
        {
            let dto = Self::to_container_dto(&stack.containers[i]);
            containers.push(dto);
            i = i + 1;
        }
        StackDto {
            name: string_of(stack.name().as_str()),
            container_count: stack.container_count(),
            running_count: stack.running_count(),
            containers,
        }
    }

    pub fn to_dto_list(stacks: &[Stack]) -> (r: Vec<StackDto>)
        ensures
            r@.len() == stacks@.len(),
            forall|k: int| 0 <= k < r@.len() ==> stack_dto_of(#[trigger] r@[k], stacks@[k]),
    {
        let mut out: Vec<StackDto> = Vec::new();
        let mut i: usize = 0;
        while i < stacks.len()
            invariant
                i <= stacks@.len(),
                out@.len() == i,
                forall|k: int| 0 <= k < i ==> stack_dto_of(#[trigger] out@[k], stacks@[k]),
            decreases stacks@.len() - i,
        {
            let dto = Self::to_dto(&stacks[i]);
            out.push(dto);
            i = i + 1;
        }
        out
    }
}

} // verus!
