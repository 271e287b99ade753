//! The state of the stack screens.
use crate::application::stack_dto::{StackContainerDto, StackDto};
use crate::presentation::filter::FilterState;
use crate::presentation::selection::{after_select, moved_down, moved_up, resized, TableSelection};
use crate::text::{contains_str, contains_text, lowercase, occurs_at, str_eq, to_lowercase_string};
use vstd::prelude::*;

verus! {

/// Whether a stack matches a filter text: its name contains the text,
/// ignoring letter case.
pub open spec fn stack_matches(v: StackDto, filter: Seq<char>) -> bool {
    contains_text(lowercase(v.name@), lowercase(filter))
}

/// The stacks a filter text lets through, in their order; an empty
/// filter lets every stack through.
pub open spec fn filtered_stacks_of(cs: Seq<StackDto>, filter: Seq<char>) -> Seq<
    StackDto,
> {
    if filter.len() == 0 {
        cs
    } else {
        cs.filter(|c: StackDto| stack_matches(c, filter))
    }
}

/// The stacks, by reference, that a filter text lets through.
pub fn filter_stacks<'a>(stacks: &'a [StackDto], filter: &str) -> (r: Vec<
    &'a StackDto,
>)
    ensures
        r@.map_values(|c: &StackDto| *c) == filtered_stacks_of(stacks@, filter@),
{
    let mut out: Vec<&StackDto> = Vec::new();
    if filter.is_empty() {
        let mut i: usize = 0;
        while i < stacks.len()
            invariant
                i <= stacks@.len(),
                out@.map_values(|c: &StackDto| *c) == stacks@.subrange(0, i as int),
            decreases stacks@.len() - i,
        {
            let c = &stacks[i];
            let ghost before = out@;
            out.push(c);
            assert(out@ == before.push(c));
            assert(out@.map_values(|c: &StackDto| *c) =~= before.map_values(
                |c: &StackDto| *c,
            ).push(*c));
            i = i + 1;
            assert(out@.map_values(|c: &StackDto| *c) =~= stacks@.subrange(0, i as int));
        }
        assert(stacks@.subrange(0, i as int) =~= stacks@);
        return out;
    }
    let lower_filter = to_lowercase_string(filter);
    let ghost pred = |c: StackDto| stack_matches(c, filter@);
    let mut i: usize = 0;
    while i < stacks.len()
        invariant
            i <= stacks@.len(),
            lower_filter@ == lowercase(filter@),
            pred == (|c: StackDto| stack_matches(c, filter@)),
            out@.map_values(|c: &StackDto| *c) == stacks@.subrange(0, i as int).filter(
                pred,
            ),
        decreases stacks@.len() - i,
    {
        let c = &stacks[i];
        let name_lower = to_lowercase_string(c.name.as_str());
        let keep = contains_str(name_lower.as_str(), lower_filter.as_str());
        proof {
            reveal_with_fuel(Seq::filter, 1);
            assert(stacks@.subrange(0, i + 1).drop_last() =~= stacks@.subrange(
                0,
                i as int,
            ));
            assert(keep == pred(stacks@[i as int]));
        }
        if keep {
            out.push(c);
        }
        i = i + 1;
        assert(out@.map_values(|c: &StackDto| *c) =~= stacks@.subrange(0, i as int).filter(
            pred,
        ));
    }
    assert(stacks@.subrange(0, i as int) =~= stacks@);
    out
}

/// The state of the stack list and stack container screens.
pub struct StackPresenter {
    pub stacks: Vec<StackDto>,
    pub selection: TableSelection,
    pub stack_containers: Vec<StackContainerDto>,
    pub container_selection: TableSelection,
    pub loading: bool,
    pub error: Option<String>,
    pub filter: FilterState,
}

impl StackPresenter {
    /// The stacks the current filter text lets through.
    pub open spec fn visible(&self) -> Seq<StackDto> {
        filtered_stacks_of(self.stacks@, self.filter.value@)
    }

    /// An empty presenter.
    pub fn new() -> (r: StackPresenter)
        ensures
            r.stacks@.len() == 0,
            r.selection.selected is None,
            r.selection.items_count == 0,
            r.stack_containers@.len() == 0,
            r.container_selection.selected is None,
            r.container_selection.items_count == 0,
            !r.loading,
            r.error is None,
            r.filter.value@.len() == 0,
            !r.filter.active,
    {
        StackPresenter {
            stacks: Vec::new(),
            selection: TableSelection::new(),
            stack_containers: Vec::new(),
            container_selection: TableSelection::new(),
            loading: false,
            error: None,
            filter: FilterState::new(),
        }
    }

    fn update_filtered_selection(&mut self)
        ensures
            *final(self) == (StackPresenter {
                selection: resized(old(self).selection, old(self).visible().len()),
                ..*old(self)
            }),
    {
        let count = filter_stacks(&self.stacks, self.filter.value()).len();
        self.selection.set_items(count);
    }

    /// Replaces the list, brings the selection into range and clears the error.
    pub fn set_stacks(&mut self, stacks: Vec<StackDto>)
        ensures
            *final(self) == (StackPresenter {
                stacks,
                selection: resized(
                    old(self).selection,
                    filtered_stacks_of(stacks@, old(self).filter.value@).len(),
                ),
                error: None,
                ..*old(self)
            }),
    {
        self.stacks = stacks;
        self.update_filtered_selection();
        self.error = None;
    }

    pub fn set_error(&mut self, error: String)
        ensures
            *final(self) == (StackPresenter { error: Some(error), ..*old(self) }),
    {
        self.error = Some(error);
    }

    pub fn clear_error(&mut self)
        ensures
            *final(self) == (StackPresenter { error: None, ..*old(self) }),
    {
        self.error = None;
    }

    /// The stacks shown under the current filter.
    pub fn filtered_stacks(&self) -> (r: Vec<&StackDto>)
        ensures
            r@.map_values(|c: &StackDto| *c) == self.visible(),
    {
        filter_stacks(&self.stacks, self.filter.value())
    }

    /// The selected row among the shown stacks.
    pub fn selected_stack(&self) -> (r: Option<&StackDto>)
        ensures
            match self.selection.selected {
                Some(i) => if i < self.visible().len() {
                    r matches Some(c) && *c == self.visible()[i as int]
                } else {
                    r is None
                },
                None => r is None,
            },
    {
        let filtered = self.filtered_stacks();
        match self.selection.selected() {
            Some(i) => {
                if i < filtered.len() {
                    assert(filtered@.map_values(|c: &StackDto| *c)[i as int] == *filtered@[i as int]);
                    Some(filtered[i])
                } else {
                    None
                }
            },
            None => None,
        }
    }

    pub fn navigate_up(&mut self)
        ensures
            *final(self) == (StackPresenter {
                selection: moved_up(old(self).selection),
                ..*old(self)
            }),
    {
        self.selection.previous();
    }

    pub fn navigate_down(&mut self)
        ensures
            *final(self) == (StackPresenter {
                selection: moved_down(old(self).selection),
                ..*old(self)
            }),
    {
        self.selection.next();
    }

    /// Opens the filter input; the text is kept.
    pub fn activate_filter(&mut self)
        ensures
            final(self).filter.active,
            final(self).filter.value@ == old(self).filter.value@,
            *final(self) == (StackPresenter { filter: final(self).filter, ..*old(self) }),
    {
        self.filter.activate();
    }

    /// Closes the filter, which then lets every stack through.
    pub fn deactivate_filter(&mut self)
        ensures
            !final(self).filter.active,
            final(self).filter.value@.len() == 0,
            *final(self) == (StackPresenter {
                filter: final(self).filter,
                selection: resized(old(self).selection, old(self).stacks@.len()),
                ..*old(self)
            }),
    {
        self.filter.deactivate();
        self.update_filtered_selection();
    }

    pub fn push_filter_char(&mut self, c: char)
        ensures
            final(self).filter.value@ == old(self).filter.value@.push(c),
            final(self).filter.active == old(self).filter.active,
            *final(self) == (StackPresenter {
                filter: final(self).filter,
                selection: resized(old(self).selection, final(self).visible().len()),
                ..*old(self)
            }),
    {
        self.filter.push_char(c);
        self.update_filtered_selection();
    }

    pub fn pop_filter_char(&mut self)
        ensures
            old(self).filter.value@.len() > 0 ==> final(self).filter.value@ == old(
                self,
            ).filter.value@.drop_last(),
            old(self).filter.value@.len() == 0 ==> final(self).filter.value@ == old(
                self,
            ).filter.value@,
            final(self).filter.active == old(self).filter.active,
            *final(self) == (StackPresenter {
                filter: final(self).filter,
                selection: resized(old(self).selection, final(self).visible().len()),
                ..*old(self)
            }),
    {
        self.filter.pop_char();
        self.update_filtered_selection();
    }

    /// The first shown stack with the given name.
    pub open spec fn first_named(shown: Seq<StackDto>, name: Seq<char>, from: int) -> Option<int>
        decreases shown.len() - from,
    {
        if from < 0 || from >= shown.len() {
            None
        } else if shown[from].name@ == name {
            Some(from)
        } else {
            Self::first_named(shown, name, from + 1)
        }
    }

    /// Selects the first shown stack with the given name; the selection
    /// stays as it is when no shown stack has that name.
    pub fn select_stack_by_name(&mut self, name: &str)
        ensures
            *final(self) == (StackPresenter {
                selection: match Self::first_named(old(self).visible(), name@, 0) {
                    Some(i) => TableSelection {
                        selected: after_select(Some(i as usize), old(self).selection.items_count),
                        items_count: old(self).selection.items_count,
                    },
                    None => old(self).selection,
                },
                ..*old(self)
            }),
    {
        let mut found: Option<usize> = None;
        {
            let filtered = self.filtered_stacks();
            let ghost shown = self.visible();
            let mut i: usize = 0;
            while i < filtered.len()
                invariant_except_break
                    found is None,
                invariant
                    i <= filtered@.len(),
                    filtered@.map_values(|c: &StackDto| *c) == shown,
                    Self::first_named(shown, name@, 0) == Self::first_named(shown, name@, i as int),
                ensures
                    found matches Some(k) ==> Self::first_named(shown, name@, 0) == Some(k as int),
                    found is None ==> Self::first_named(shown, name@, 0) is None,
                decreases filtered@.len() - i,
            {
                assert(filtered@.map_values(|c: &StackDto| *c)[i as int] == *filtered@[i as int]);
                if str_eq(filtered[i].name.as_str(), name) {
                    found = Some(i);
                    break;
                }
                i = i + 1;
            }
        }
        if let Some(index) = found {
            self.selection.select(Some(index));
        }
    }

    /// Shows the containers of a stack and brings their selection into range.
    pub fn set_stack_containers(&mut self, containers: Vec<StackContainerDto>)
        ensures
            *final(self) == (StackPresenter {
                stack_containers: containers,
                container_selection: resized(old(self).container_selection, containers@.len()),
                ..*old(self)
            }),
    {
        let count = containers.len();
        self.stack_containers = containers;
        self.container_selection.set_items(count);
    }

    /// The selected container of the shown stack.
    pub fn selected_stack_container(&self) -> (r: Option<&StackContainerDto>)
        ensures
            match self.container_selection.selected {
                Some(i) => if i < self.stack_containers@.len() {
                    r matches Some(c) && *c == self.stack_containers@[i as int]
                } else {
                    r is None
                },
                None => r is None,
            },
    {
        match self.container_selection.selected() {
            Some(i) => {
                if i < self.stack_containers.len() {
                    Some(&self.stack_containers[i])
                } else {
                    None
                }
            },
            None => None,
        }
    }

    pub fn navigate_container_up(&mut self)
        ensures
            *final(self) == (StackPresenter {
                container_selection: moved_up(old(self).container_selection),
                ..*old(self)
            }),
    {
        self.container_selection.previous();
    }

    pub fn navigate_container_down(&mut self)
        ensures
            *final(self) == (StackPresenter {
                container_selection: moved_down(old(self).container_selection),
                ..*old(self)
            }),
    {
        self.container_selection.next();
    }

    pub fn is_filter_active(&self) -> (r: bool)
        ensures
            r == self.filter.active,
    {
        self.filter.is_active()
    }

    pub fn active_filter(&self) -> (r: Option<&str>)
        ensures
            self.filter.active ==> (r matches Some(v) && v@ == self.filter.value@),
            !self.filter.active ==> r is None,
    {
        self.filter.active_value()
    }
}

/// Whatever the filter text, the shown stacks come from the list and
/// are never more than the list.
pub proof fn law_filter_shows_a_part(cs: Seq<StackDto>, filter: Seq<char>)
    ensures
        filtered_stacks_of(cs, filter).len() <= cs.len(),
        forall|c: StackDto| #[trigger]
            filtered_stacks_of(cs, filter).contains(c) ==> cs.contains(c),
{
    if filter.len() > 0 {
        let pred = |c: StackDto| stack_matches(c, filter);
        cs.lemma_filter_len(pred);
        assert forall|c: StackDto| #[trigger] cs.filter(pred).contains(c) implies cs.contains(
            c,
        ) by {
            cs.lemma_filter_contains_rev(pred, c);
        }
    }
}

/// A filter text shows the stacks of the list whose lowercased name
/// holds the lowercased filter text at some position (anywhere in it, not
/// only at the start), and no others; an empty filter shows every one.
pub proof fn law_filter_finds_text_anywhere(cs: Seq<StackDto>, filter: Seq<char>, v: StackDto)
    ensures
        filter.len() == 0 ==> filtered_stacks_of(cs, filter) == cs,
        filter.len() > 0 ==> (filtered_stacks_of(cs, filter).contains(v) <==> (cs.contains(v) && ((exists|i: int|
            #![trigger lowercase(v.name@).subrange(i, i + lowercase(filter).len())]
            0 <= i && i + lowercase(filter).len() <= lowercase(v.name@).len()
                && lowercase(v.name@).subrange(i, i + lowercase(filter).len()) == lowercase(filter))))),
{
    let pred = |c: StackDto| stack_matches(c, filter);
    if filter.len() > 0 {
        if contains_text(lowercase(v.name@), lowercase(filter)) {
            let i = choose|i: int| occurs_at(lowercase(v.name@), lowercase(filter), i);
            assert(lowercase(v.name@).subrange(i, i + lowercase(filter).len()) == lowercase(filter));
        }
        if (exists|i: int|
            #![trigger lowercase(v.name@).subrange(i, i + lowercase(filter).len())]
            0 <= i && i + lowercase(filter).len() <= lowercase(v.name@).len()
                && lowercase(v.name@).subrange(i, i + lowercase(filter).len()) == lowercase(filter)) {
            let i = choose|i: int|
                #![trigger lowercase(v.name@).subrange(i, i + lowercase(filter).len())]
                0 <= i && i + lowercase(filter).len() <= lowercase(v.name@).len()
                    && lowercase(v.name@).subrange(i, i + lowercase(filter).len()) == lowercase(filter);
            assert(occurs_at(lowercase(v.name@), lowercase(filter), i));
        }
        if cs.filter(pred).contains(v) {
            cs.lemma_filter_contains_rev(pred, v);
        }
        if cs.contains(v) && pred(v) {
            let k = choose|k: int| 0 <= k < cs.len() && cs[k] == v;
            cs.lemma_filter_contains(pred, k);
        }
    }
}

} // verus!
