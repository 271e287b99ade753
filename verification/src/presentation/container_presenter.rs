//! The state of the container screens.
use crate::application::container_dto::{ContainerDto, ContainerLogsDto, ContainerStatsUpdate};
use crate::presentation::filter::FilterState;
use crate::presentation::selection::{moved_down, moved_up, resized, TableSelection};
use crate::text::{
    contains_str, contains_string, contains_text, lowercase, occurs_at, str_eq, texts, to_lowercase_string,
};
use vstd::prelude::*;

verus! {

/// Whether a container matches a filter text: its name or its image contains
/// the text, ignoring letter case.
pub open spec fn container_matches(c: ContainerDto, filter: Seq<char>) -> bool {
    contains_text(lowercase(c.name@), lowercase(filter)) || contains_text(
        lowercase(c.image@),
        lowercase(filter),
    )
}

/// The containers a filter text lets through, in their order; an empty
/// filter lets every container through.
pub open spec fn filtered_containers_of(cs: Seq<ContainerDto>, filter: Seq<char>) -> Seq<
    ContainerDto,
> {
    if filter.len() == 0 {
        cs
    } else {
        cs.filter(|c: ContainerDto| container_matches(c, filter))
    }
}

/// The containers, by reference, that a filter text lets through.
pub fn filter_containers<'a>(containers: &'a Vec<ContainerDto>, filter: &str) -> (r: Vec<
    &'a ContainerDto,
>)
    ensures
        r@.map_values(|c: &ContainerDto| *c) == filtered_containers_of(containers@, filter@),
{
    let mut out: Vec<&ContainerDto> = Vec::new();
    if filter.is_empty() {
        let mut i: usize = 0;
        while i < containers.len()
            invariant
                i <= containers@.len(),
                out@.map_values(|c: &ContainerDto| *c) == containers@.subrange(0, i as int),
            decreases containers@.len() - i,
        {
            let c = &containers[i];
            let ghost before = out@;
            out.push(c);
            assert(out@ == before.push(c));
            assert(out@.map_values(|c: &ContainerDto| *c) =~= before.map_values(
                |c: &ContainerDto| *c,
            ).push(*c));
            i = i + 1;
            assert(out@.map_values(|c: &ContainerDto| *c) =~= containers@.subrange(0, i as int));
        }
        assert(containers@.subrange(0, i as int) =~= containers@);
        return out;
    }
    let lower_filter = to_lowercase_string(filter);
    let ghost pred = |c: ContainerDto| container_matches(c, filter@);
    let mut i: usize = 0;
    while i < containers.len()
        invariant
            i <= containers@.len(),
            lower_filter@ == lowercase(filter@),
            pred == (|c: ContainerDto| container_matches(c, filter@)),
            out@.map_values(|c: &ContainerDto| *c) == containers@.subrange(0, i as int).filter(
                pred,
            ),
        decreases containers@.len() - i,
    {
        let c = &containers[i];
        let name_lower = to_lowercase_string(c.name.as_str());
        let image_lower = to_lowercase_string(c.image.as_str());
        let keep = contains_str(name_lower.as_str(), lower_filter.as_str()) || contains_str(
            image_lower.as_str(),
            lower_filter.as_str(),
        );
        proof {
            reveal_with_fuel(Seq::filter, 1);
            assert(containers@.subrange(0, i + 1).drop_last() =~= containers@.subrange(
                0,
                i as int,
            ));
            assert(keep == pred(containers@[i as int]));
        }
        if keep {
            out.push(c);
        }
        i = i + 1;
        assert(out@.map_values(|c: &ContainerDto| *c) =~= containers@.subrange(0, i as int).filter(
            pred,
        ));
    }
    assert(containers@.subrange(0, i as int) =~= containers@);
    out
}

/// The state of the container list, log and detail screens.
pub struct ContainerPresenter {
    pub containers: Vec<ContainerDto>,
    pub selection: TableSelection,
    pub logs: Option<ContainerLogsDto>,
    pub logs_scroll: u16,
    pub selected_container: Option<ContainerDto>,
    pub loading: bool,
    pub error: Option<String>,
    pub filter: FilterState,
}

impl ContainerPresenter {
    /// The containers the current filter text lets through.
    pub open spec fn visible(&self) -> Seq<ContainerDto> {
        filtered_containers_of(self.containers@, self.filter.value@)
    }

    /// An empty presenter.
    pub fn new() -> (r: ContainerPresenter)
        ensures
            r.containers@.len() == 0,
            r.selection.selected is None,
            r.selection.items_count == 0,
            r.logs is None,
            r.logs_scroll == 0,
            r.selected_container is None,
            !r.loading,
            r.error is None,
            r.filter.value@.len() == 0,
            !r.filter.active,
    {
        ContainerPresenter {
            containers: Vec::new(),
            selection: TableSelection::new(),
            logs: None,
            logs_scroll: 0,
            selected_container: None,
            loading: false,
            error: None,
            filter: FilterState::new(),
        }
    }

    fn update_filtered_selection(&mut self)
        ensures
            *final(self) == (ContainerPresenter {
                selection: resized(old(self).selection, old(self).visible().len()),
                ..*old(self)
            }),
    {
        let count = filter_containers(&self.containers, self.filter.value()).len();
        self.selection.set_items(count);
    }

    /// Replaces the list, brings the selection into range and clears the error.
    pub fn set_containers(&mut self, containers: Vec<ContainerDto>)
        ensures
            *final(self) == (ContainerPresenter {
                containers,
                selection: resized(
                    old(self).selection,
                    filtered_containers_of(containers@, old(self).filter.value@).len(),
                ),
                error: None,
                ..*old(self)
            }),
    {
        self.containers = containers;
        self.update_filtered_selection();
        self.error = None;
    }

    pub fn set_error(&mut self, error: String)
        ensures
            *final(self) == (ContainerPresenter { error: Some(error), ..*old(self) }),
    {
        self.error = Some(error);
    }

    pub fn clear_error(&mut self)
        ensures
            *final(self) == (ContainerPresenter { error: None, ..*old(self) }),
    {
        self.error = None;
    }

    /// The containers shown under the current filter.
    pub fn filtered_containers(&self) -> (r: Vec<&ContainerDto>)
        ensures
            r@.map_values(|c: &ContainerDto| *c) == self.visible(),
    {
        filter_containers(&self.containers, self.filter.value())
    }

    /// The selected row among the shown containers.
    pub fn selected_container(&self) -> (r: Option<&ContainerDto>)
        ensures
            match self.selection.selected {
                Some(i) => if i < self.visible().len() {
                    r matches Some(c) && *c == self.visible()[i as int]
                } else {
                    r is None
                },
                None => r is None,
            },
    {
        let filtered = self.filtered_containers();
        match self.selection.selected() {
            Some(i) => {
                if i < filtered.len() {
                    assert(filtered@.map_values(|c: &ContainerDto| *c)[i as int] == *filtered@[i as int]);
                    Some(filtered[i])
                } else {
                    None
                }
            },
            None => None,
        }
    }

    /// Shows the logs from their beginning.
    pub fn set_logs(&mut self, logs: ContainerLogsDto)
        ensures
            *final(self) == (ContainerPresenter { logs: Some(logs), logs_scroll: 0, ..*old(self) }),
    {
        self.logs = Some(logs);
        self.logs_scroll = 0;
    }

    pub fn clear_logs(&mut self)
        ensures
            *final(self) == (ContainerPresenter { logs: None, logs_scroll: 0, ..*old(self) }),
    {
        self.logs = None;
        self.logs_scroll = 0;
    }

    pub fn set_details(&mut self, container: ContainerDto)
        ensures
            *final(self) == (ContainerPresenter {
                selected_container: Some(container),
                ..*old(self)
            }),
    {
        self.selected_container = Some(container);
    }

    pub fn clear_details(&mut self)
        ensures
            *final(self) == (ContainerPresenter { selected_container: None, ..*old(self) }),
    {
        self.selected_container = None;
    }

    /// Scrolls the logs up, stopping at the top.
    pub fn scroll_logs_up(&mut self, amount: u16)
        ensures
            *final(self) == (ContainerPresenter {
                logs_scroll: if old(self).logs_scroll >= amount {
                    (old(self).logs_scroll - amount) as u16
                } else {
                    0u16
                },
                ..*old(self)
            }),
    {
        self.logs_scroll = self.logs_scroll.saturating_sub(amount);
    }

    /// Scrolls the logs down, stopping at the largest offset.
    pub fn scroll_logs_down(&mut self, amount: u16)
        ensures
            *final(self) == (ContainerPresenter {
                logs_scroll: if old(self).logs_scroll + amount <= u16::MAX {
                    (old(self).logs_scroll + amount) as u16
                } else {
                    u16::MAX
                },
                ..*old(self)
            }),
    {
        self.logs_scroll = self.logs_scroll.saturating_add(amount);
    }

    pub fn navigate_up(&mut self)
        ensures
            *final(self) == (ContainerPresenter {
                selection: moved_up(old(self).selection),
                ..*old(self)
            }),
    {
        self.selection.previous();
    }

    pub fn navigate_down(&mut self)
        ensures
            *final(self) == (ContainerPresenter {
                selection: moved_down(old(self).selection),
                ..*old(self)
            }),
    {
        self.selection.next();
    }

    /// Opens the filter input; the text is kept.
    pub fn activate_filter(&mut self)
        ensures
            final(self).filter.active,
            final(self).filter.value@ == old(self).filter.value@,
            *final(self) == (ContainerPresenter { filter: final(self).filter, ..*old(self) }),
    {
        self.filter.activate();
    }

    /// Closes the filter, which then lets every container through.
    pub fn deactivate_filter(&mut self)
        ensures
            !final(self).filter.active,
            final(self).filter.value@.len() == 0,
            *final(self) == (ContainerPresenter {
                filter: final(self).filter,
                selection: resized(old(self).selection, old(self).containers@.len()),
                ..*old(self)
            }),
    {
        self.filter.deactivate();
        self.update_filtered_selection();
    }

    pub fn push_filter_char(&mut self, c: char)
        ensures
            final(self).filter.value@ == old(self).filter.value@.push(c),
            final(self).filter.active == old(self).filter.active,
            *final(self) == (ContainerPresenter {
                filter: final(self).filter,
                selection: resized(old(self).selection, final(self).visible().len()),
                ..*old(self)
            }),
    {
        self.filter.push_char(c);
        self.update_filtered_selection();
    }

    pub fn pop_filter_char(&mut self)
        ensures
            old(self).filter.value@.len() > 0 ==> final(self).filter.value@ == old(
                self,
            ).filter.value@.drop_last(),
            old(self).filter.value@.len() == 0 ==> final(self).filter.value@ == old(
                self,
            ).filter.value@,
            final(self).filter.active == old(self).filter.active,
            *final(self) == (ContainerPresenter {
                filter: final(self).filter,
                selection: resized(old(self).selection, final(self).visible().len()),
                ..*old(self)
            }),
    {
        self.filter.pop_char();
        self.update_filtered_selection();
    }

    pub fn is_filter_active(&self) -> (r: bool)
        ensures
            r == self.filter.active,
    {
        self.filter.is_active()
    }

    pub fn active_filter(&self) -> (r: Option<&str>)
        ensures
            self.filter.active ==> (r matches Some(v) && v@ == self.filter.value@),
            !self.filter.active ==> r is None,
    {
        self.filter.active_value()
    }

    /// Shows a statistics sample on the container it belongs to.
    pub fn apply_stats_update(&mut self, update: ContainerStatsUpdate)
        ensures
            final(self).containers@.len() == old(self).containers@.len(),
            forall|k: int|
                0 <= k < old(self).containers@.len() ==> #[trigger] final(self).containers@[k]
                    == (if old(self).containers@[k].id@ == update.container_id@ {
                    ContainerDto { runtime_stats: Some(update.stats), ..old(self).containers@[k] }
                } else {
                    old(self).containers@[k]
                }),
            *final(self) == (ContainerPresenter {
                containers: final(self).containers,
                ..*old(self)
            }),
    {
        let mut i: usize = 0;
        while i < self.containers.len()
            invariant
                i <= self.containers@.len(),
                self.containers@.len() == old(self).containers@.len(),
                forall|k: int|
                    0 <= k < i ==> #[trigger] self.containers@[k] == (if old(
                        self,
                    ).containers@[k].id@ == update.container_id@ {
                        ContainerDto { runtime_stats: Some(update.stats), ..old(self).containers@[k] }
                    } else {
                        old(self).containers@[k]
                    }),
                forall|k: int|
                    i <= k < self.containers@.len() ==> #[trigger] self.containers@[k] == old(
                        self,
                    ).containers@[k],
                *self == (ContainerPresenter { containers: self.containers, ..*old(self) }),
            decreases self.containers@.len() - i,
        {
            if str_eq(self.containers[i].id.as_str(), update.container_id.as_str()) {
                self.containers[i].runtime_stats = Some(update.stats);
            }
            i = i + 1;
        }
    }

    /// Forgets the statistics of every container.
    pub fn clear_runtime_stats(&mut self)
        ensures
            final(self).containers@.len() == old(self).containers@.len(),
            forall|k: int|
                0 <= k < old(self).containers@.len() ==> #[trigger] final(self).containers@[k]
                    == (ContainerDto { runtime_stats: None, ..old(self).containers@[k] }),
            *final(self) == (ContainerPresenter {
                containers: final(self).containers,
                ..*old(self)
            }),
    {
        let mut i: usize = 0;
        while i < self.containers.len()
            invariant
                i <= self.containers@.len(),
                self.containers@.len() == old(self).containers@.len(),
                forall|k: int|
                    0 <= k < i ==> #[trigger] self.containers@[k] == (ContainerDto {
                        runtime_stats: None,
                        ..old(self).containers@[k]
                    }),
                forall|k: int|
                    i <= k < self.containers@.len() ==> #[trigger] self.containers@[k] == old(
                        self,
                    ).containers@[k],
                *self == (ContainerPresenter { containers: self.containers, ..*old(self) }),
            decreases self.containers@.len() - i,
        {
            self.containers[i].runtime_stats = None;
            i = i + 1;
        }
    }

    /// Keeps the statistics of the given containers and forgets the others.
    pub fn retain_runtime_stats(&mut self, active_ids: &Vec<String>)
        ensures
            final(self).containers@.len() == old(self).containers@.len(),
            forall|k: int|
                0 <= k < old(self).containers@.len() ==> #[trigger] final(self).containers@[k]
                    == (if texts(active_ids@).contains(old(self).containers@[k].id@) {
                    old(self).containers@[k]
                } else {
                    ContainerDto { runtime_stats: None, ..old(self).containers@[k] }
                }),
            *final(self) == (ContainerPresenter {
                containers: final(self).containers,
                ..*old(self)
            }),
    {
        let mut i: usize = 0;
        while i < self.containers.len()
            invariant
                i <= self.containers@.len(),
                self.containers@.len() == old(self).containers@.len(),
                forall|k: int|
                    0 <= k < i ==> #[trigger] self.containers@[k] == (if texts(active_ids@).contains(
                        old(self).containers@[k].id@,
                    ) {
                        old(self).containers@[k]
                    } else {
                        ContainerDto { runtime_stats: None, ..old(self).containers@[k] }
                    }),
                forall|k: int|
                    i <= k < self.containers@.len() ==> #[trigger] self.containers@[k] == old(
                        self,
                    ).containers@[k],
                *self == (ContainerPresenter { containers: self.containers, ..*old(self) }),
            decreases self.containers@.len() - i,
        {
            if !contains_string(active_ids, self.containers[i].id.as_str()) {
                self.containers[i].runtime_stats = None;
            }
            i = i + 1;
        }
    }
}

/// Whatever the filter text, the shown containers come from the list and
/// are never more than the list.
pub proof fn law_filter_shows_a_part(cs: Seq<ContainerDto>, filter: Seq<char>)
    ensures
        filtered_containers_of(cs, filter).len() <= cs.len(),
        forall|c: ContainerDto| #[trigger]
            filtered_containers_of(cs, filter).contains(c) ==> cs.contains(c),
{
    if filter.len() > 0 {
        let pred = |c: ContainerDto| container_matches(c, filter);
        cs.lemma_filter_len(pred);
        assert forall|c: ContainerDto| #[trigger] cs.filter(pred).contains(c) implies cs.contains(
            c,
        ) by {
            cs.lemma_filter_contains_rev(pred, c);
        }
    }
}

/// A filter text shows the containers of the list whose lowercased name or image
/// holds the lowercased filter text at some position (anywhere in it, not
/// only at the start), and no others; an empty filter shows every one.
pub proof fn law_filter_finds_text_anywhere(cs: Seq<ContainerDto>, filter: Seq<char>, v: ContainerDto)
    ensures
        filter.len() == 0 ==> filtered_containers_of(cs, filter) == cs,
        filter.len() > 0 ==> (filtered_containers_of(cs, filter).contains(v) <==> (cs.contains(v) && ((exists|i: int|
            #![trigger lowercase(v.name@).subrange(i, i + lowercase(filter).len())]
            0 <= i && i + lowercase(filter).len() <= lowercase(v.name@).len()
                && lowercase(v.name@).subrange(i, i + lowercase(filter).len()) == lowercase(filter)) || (exists|i: int|
            #![trigger lowercase(v.image@).subrange(i, i + lowercase(filter).len())]
            0 <= i && i + lowercase(filter).len() <= lowercase(v.image@).len()
                && lowercase(v.image@).subrange(i, i + lowercase(filter).len()) == lowercase(filter))))),
{
    let pred = |c: ContainerDto| container_matches(c, filter);
    if filter.len() > 0 {
        if contains_text(lowercase(v.name@), lowercase(filter)) {
            let i = choose|i: int| occurs_at(lowercase(v.name@), lowercase(filter), i);
            assert(lowercase(v.name@).subrange(i, i + lowercase(filter).len()) == lowercase(filter));
        }
        if (exists|i: int|
            #![trigger lowercase(v.name@).subrange(i, i + lowercase(filter).len())]
            0 <= i && i + lowercase(filter).len() <= lowercase(v.name@).len()
                && lowercase(v.name@).subrange(i, i + lowercase(filter).len()) == lowercase(filter)) {
            let i = choose|i: int|
                #![trigger lowercase(v.name@).subrange(i, i + lowercase(filter).len())]
                0 <= i && i + lowercase(filter).len() <= lowercase(v.name@).len()
                    && lowercase(v.name@).subrange(i, i + lowercase(filter).len()) == lowercase(filter);
            assert(occurs_at(lowercase(v.name@), lowercase(filter), i));
        }
        if contains_text(lowercase(v.image@), lowercase(filter)) {
            let i = choose|i: int| occurs_at(lowercase(v.image@), lowercase(filter), i);
            assert(lowercase(v.image@).subrange(i, i + lowercase(filter).len()) == lowercase(filter));
        }
        if (exists|i: int|
            #![trigger lowercase(v.image@).subrange(i, i + lowercase(filter).len())]
            0 <= i && i + lowercase(filter).len() <= lowercase(v.image@).len()
                && lowercase(v.image@).subrange(i, i + lowercase(filter).len()) == lowercase(filter)) {
            let i = choose|i: int|
                #![trigger lowercase(v.image@).subrange(i, i + lowercase(filter).len())]
                0 <= i && i + lowercase(filter).len() <= lowercase(v.image@).len()
                    && lowercase(v.image@).subrange(i, i + lowercase(filter).len()) == lowercase(filter);
            assert(occurs_at(lowercase(v.image@), lowercase(filter), i));
        }
        if cs.filter(pred).contains(v) {
            cs.lemma_filter_contains_rev(pred, v);
        }
        if cs.contains(v) && pred(v) {
            let k = choose|k: int| 0 <= k < cs.len() && cs[k] == v;
            cs.lemma_filter_contains(pred, k);
        }
    }
}

} // verus!
