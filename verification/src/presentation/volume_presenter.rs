//! The state of the volume screens.
use crate::application::volume_dto::VolumeDto;
use crate::presentation::filter::FilterState;
use crate::presentation::selection::{moved_down, moved_up, resized, TableSelection};
use crate::text::{contains_str, contains_text, lowercase, occurs_at, to_lowercase_string};
use vstd::prelude::*;

verus! {

/// Whether a volume matches a filter text: its name contains the text,
/// ignoring letter case.
pub open spec fn volume_matches(v: VolumeDto, filter: Seq<char>) -> bool {
    contains_text(lowercase(v.name@), lowercase(filter))
}

/// The volumes a filter text lets through, in their order; an empty
/// filter lets every volume through.
pub open spec fn filtered_volumes_of(cs: Seq<VolumeDto>, filter: Seq<char>) -> Seq<
    VolumeDto,
> {
    if filter.len() == 0 {
        cs
    } else {
        cs.filter(|c: VolumeDto| volume_matches(c, filter))
    }
}

/// The volumes, by reference, that a filter text lets through.
pub fn filter_volumes<'a>(volumes: &'a [VolumeDto], filter: &str) -> (r: Vec<
    &'a VolumeDto,
>)
    ensures
        r@.map_values(|c: &VolumeDto| *c) == filtered_volumes_of(volumes@, filter@),
{
    let mut out: Vec<&VolumeDto> = Vec::new();
    if filter.is_empty() {
        let mut i: usize = 0;
        while i < volumes.len()
            invariant
                i <= volumes@.len(),
                out@.map_values(|c: &VolumeDto| *c) == volumes@.subrange(0, i as int),
            decreases volumes@.len() - i,
        {
            let c = &volumes[i];
            let ghost before = out@;
            out.push(c);
            assert(out@ == before.push(c));
            assert(out@.map_values(|c: &VolumeDto| *c) =~= before.map_values(
                |c: &VolumeDto| *c,
            ).push(*c));
            i = i + 1;
            assert(out@.map_values(|c: &VolumeDto| *c) =~= volumes@.subrange(0, i as int));
        }
        assert(volumes@.subrange(0, i as int) =~= volumes@);
        return out;
    }
    let lower_filter = to_lowercase_string(filter);
    let ghost pred = |c: VolumeDto| volume_matches(c, filter@);
    let mut i: usize = 0;
    while i < volumes.len()
        invariant
            i <= volumes@.len(),
            lower_filter@ == lowercase(filter@),
            pred == (|c: VolumeDto| volume_matches(c, filter@)),
            out@.map_values(|c: &VolumeDto| *c) == volumes@.subrange(0, i as int).filter(
                pred,
            ),
        decreases volumes@.len() - i,
    {
        let c = &volumes[i];
        let name_lower = to_lowercase_string(c.name.as_str());
        let keep = contains_str(name_lower.as_str(), lower_filter.as_str());
        proof {
            reveal_with_fuel(Seq::filter, 1);
            assert(volumes@.subrange(0, i + 1).drop_last() =~= volumes@.subrange(
                0,
                i as int,
            ));
            assert(keep == pred(volumes@[i as int]));
        }
        if keep {
            out.push(c);
        }
        i = i + 1;
        assert(out@.map_values(|c: &VolumeDto| *c) =~= volumes@.subrange(0, i as int).filter(
            pred,
        ));
    }
    assert(volumes@.subrange(0, i as int) =~= volumes@);
    out
}

/// The state of the volume list, log and detail screens.
pub struct VolumePresenter {
    pub volumes: Vec<VolumeDto>,
    pub selection: TableSelection,
    pub selected_volume: Option<VolumeDto>,
    pub loading: bool,
    pub error: Option<String>,
    pub filter: FilterState,
}

impl VolumePresenter {
    /// The volumes the current filter text lets through.
    pub open spec fn visible(&self) -> Seq<VolumeDto> {
        filtered_volumes_of(self.volumes@, self.filter.value@)
    }

    /// An empty presenter.
    pub fn new() -> (r: VolumePresenter)
        ensures
            r.volumes@.len() == 0,
            r.selection.selected is None,
            r.selection.items_count == 0,
            r.selected_volume is None,
            !r.loading,
            r.error is None,
            r.filter.value@.len() == 0,
            !r.filter.active,
    {
        VolumePresenter {
            volumes: Vec::new(),
            selection: TableSelection::new(),
            selected_volume: None,
            loading: false,
            error: None,
            filter: FilterState::new(),
        }
    }

    fn update_filtered_selection(&mut self)
        ensures
            *final(self) == (VolumePresenter {
                selection: resized(old(self).selection, old(self).visible().len()),
                ..*old(self)
            }),
    {
        let count = filter_volumes(&self.volumes, self.filter.value()).len();
        self.selection.set_items(count);
    }

    /// Replaces the list, brings the selection into range and clears the error.
    pub fn set_volumes(&mut self, volumes: Vec<VolumeDto>)
        ensures
            *final(self) == (VolumePresenter {
                volumes,
                selection: resized(
                    old(self).selection,
                    filtered_volumes_of(volumes@, old(self).filter.value@).len(),
                ),
                error: None,
                ..*old(self)
            }),
    {
        self.volumes = volumes;
        self.update_filtered_selection();
        self.error = None;
    }

    pub fn set_error(&mut self, error: String)
        ensures
            *final(self) == (VolumePresenter { error: Some(error), ..*old(self) }),
    {
        self.error = Some(error);
    }

    pub fn clear_error(&mut self)
        ensures
            *final(self) == (VolumePresenter { error: None, ..*old(self) }),
    {
        self.error = None;
    }

    /// The volumes shown under the current filter.
    pub fn filtered_volumes(&self) -> (r: Vec<&VolumeDto>)
        ensures
            r@.map_values(|c: &VolumeDto| *c) == self.visible(),
    {
        filter_volumes(&self.volumes, self.filter.value())
    }

    /// The selected row among the shown volumes.
    pub fn selected_volume(&self) -> (r: Option<&VolumeDto>)
        ensures
            match self.selection.selected {
                Some(i) => if i < self.visible().len() {
                    r matches Some(c) && *c == self.visible()[i as int]
                } else {
                    r is None
                },
                None => r is None,
            },
    {
        let filtered = self.filtered_volumes();
        match self.selection.selected() {
            Some(i) => {
                if i < filtered.len() {
                    assert(filtered@.map_values(|c: &VolumeDto| *c)[i as int] == *filtered@[i as int]);
                    Some(filtered[i])
                } else {
                    None
                }
            },
            None => None,
        }
    }

    pub fn set_details(&mut self, volume: VolumeDto)
        ensures
            *final(self) == (VolumePresenter { selected_volume: Some(volume), ..*old(self) }),
    {
        self.selected_volume = Some(volume);
    }

    pub fn clear_details(&mut self)
        ensures
            *final(self) == (VolumePresenter { selected_volume: None, ..*old(self) }),
    {
        self.selected_volume = None;
    }

    pub fn navigate_up(&mut self)
        ensures
            *final(self) == (VolumePresenter {
                selection: moved_up(old(self).selection),
                ..*old(self)
            }),
    {
        self.selection.previous();
    }

    pub fn navigate_down(&mut self)
        ensures
            *final(self) == (VolumePresenter {
                selection: moved_down(old(self).selection),
                ..*old(self)
            }),
    {
        self.selection.next();
    }

    /// Opens the filter input; the text is kept.
    pub fn activate_filter(&mut self)
        ensures
            final(self).filter.active,
            final(self).filter.value@ == old(self).filter.value@,
            *final(self) == (VolumePresenter { filter: final(self).filter, ..*old(self) }),
    {
        self.filter.activate();
    }

    /// Closes the filter, which then lets every volume through.
    pub fn deactivate_filter(&mut self)
        ensures
            !final(self).filter.active,
            final(self).filter.value@.len() == 0,
            *final(self) == (VolumePresenter {
                filter: final(self).filter,
                selection: resized(old(self).selection, old(self).volumes@.len()),
                ..*old(self)
            }),
    {
        self.filter.deactivate();
        self.update_filtered_selection();
    }

    pub fn push_filter_char(&mut self, c: char)
        ensures
            final(self).filter.value@ == old(self).filter.value@.push(c),
            final(self).filter.active == old(self).filter.active,
            *final(self) == (VolumePresenter {
                filter: final(self).filter,
                selection: resized(old(self).selection, final(self).visible().len()),
                ..*old(self)
            }),
    {
        self.filter.push_char(c);
        self.update_filtered_selection();
    }

    pub fn pop_filter_char(&mut self)
        ensures
            old(self).filter.value@.len() > 0 ==> final(self).filter.value@ == old(
                self,
            ).filter.value@.drop_last(),
            old(self).filter.value@.len() == 0 ==> final(self).filter.value@ == old(
                self,
            ).filter.value@,
            final(self).filter.active == old(self).filter.active,
            *final(self) == (VolumePresenter {
                filter: final(self).filter,
                selection: resized(old(self).selection, final(self).visible().len()),
                ..*old(self)
            }),
    {
        self.filter.pop_char();
        self.update_filtered_selection();
    }

    pub fn is_filter_active(&self) -> (r: bool)
        ensures
            r == self.filter.active,
    {
        self.filter.is_active()
    }

    pub fn active_filter(&self) -> (r: Option<&str>)
        ensures
            self.filter.active ==> (r matches Some(v) && v@ == self.filter.value@),
            !self.filter.active ==> r is None,
    {
        self.filter.active_value()
    }
}

/// Whatever the filter text, the shown volumes come from the list and
/// are never more than the list.
pub proof fn law_filter_shows_a_part(cs: Seq<VolumeDto>, filter: Seq<char>)
    ensures
        filtered_volumes_of(cs, filter).len() <= cs.len(),
        forall|c: VolumeDto| #[trigger]
            filtered_volumes_of(cs, filter).contains(c) ==> cs.contains(c),
{
    if filter.len() > 0 {
        let pred = |c: VolumeDto| volume_matches(c, filter);
        cs.lemma_filter_len(pred);
        assert forall|c: VolumeDto| #[trigger] cs.filter(pred).contains(c) implies cs.contains(
            c,
        ) by {
            cs.lemma_filter_contains_rev(pred, c);
        }
    }
}

/// A filter text shows the volumes of the list whose lowercased name
/// holds the lowercased filter text at some position (anywhere in it, not
/// only at the start), and no others; an empty filter shows every one.
pub proof fn law_filter_finds_text_anywhere(cs: Seq<VolumeDto>, filter: Seq<char>, v: VolumeDto)
    ensures
        filter.len() == 0 ==> filtered_volumes_of(cs, filter) == cs,
        filter.len() > 0 ==> (filtered_volumes_of(cs, filter).contains(v) <==> (cs.contains(v) && ((exists|i: int|
            #![trigger lowercase(v.name@).subrange(i, i + lowercase(filter).len())]
            0 <= i && i + lowercase(filter).len() <= lowercase(v.name@).len()
                && lowercase(v.name@).subrange(i, i + lowercase(filter).len()) == lowercase(filter))))),
{
    let pred = |c: VolumeDto| volume_matches(c, filter);
    if filter.len() > 0 {
        if contains_text(lowercase(v.name@), lowercase(filter)) {
            let i = choose|i: int| occurs_at(lowercase(v.name@), lowercase(filter), i);
            assert(lowercase(v.name@).subrange(i, i + lowercase(filter).len()) == lowercase(filter));
        }
        if (exists|i: int|
            #![trigger lowercase(v.name@).subrange(i, i + lowercase(filter).len())]
            0 <= i && i + lowercase(filter).len() <= lowercase(v.name@).len()
                && lowercase(v.name@).subrange(i, i + lowercase(filter).len()) == lowercase(filter)) {
            let i = choose|i: int|
                #![trigger lowercase(v.name@).subrange(i, i + lowercase(filter).len())]
                0 <= i && i + lowercase(filter).len() <= lowercase(v.name@).len()
                    && lowercase(v.name@).subrange(i, i + lowercase(filter).len()) == lowercase(filter);
            assert(occurs_at(lowercase(v.name@), lowercase(filter), i));
        }
        if cs.filter(pred).contains(v) {
            cs.lemma_filter_contains_rev(pred, v);
        }
        if cs.contains(v) && pred(v) {
            let k = choose|k: int| 0 <= k < cs.len() && cs[k] == v;
            cs.lemma_filter_contains(pred, k);
        }
    }
}

} // verus!
