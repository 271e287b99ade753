//! The state of the image screens.
use crate::application::image_dto::ImageDto;
use crate::presentation::filter::FilterState;
use crate::presentation::selection::{moved_down, moved_up, resized, TableSelection};
use crate::text::{contains_str, contains_text, lowercase, occurs_at, to_lowercase_string};
use vstd::prelude::*;

verus! {

/// Whether an image matches a filter text: its full name contains the text,
/// ignoring letter case.
pub open spec fn image_matches(v: ImageDto, filter: Seq<char>) -> bool {
    contains_text(lowercase(v.full_name@), lowercase(filter))
}

/// The images a filter text lets through, in their order; an empty
/// filter lets every image through.
pub open spec fn filtered_images_of(cs: Seq<ImageDto>, filter: Seq<char>) -> Seq<
    ImageDto,
> {
    if filter.len() == 0 {
        cs
    } else {
        cs.filter(|c: ImageDto| image_matches(c, filter))
    }
}

/// The images, by reference, that a filter text lets through.
pub fn filter_images<'a>(images: &'a [ImageDto], filter: &str) -> (r: Vec<
    &'a ImageDto,
>)
    ensures
        r@.map_values(|c: &ImageDto| *c) == filtered_images_of(images@, filter@),
{
    let mut out: Vec<&ImageDto> = Vec::new();
    if filter.is_empty() {
        let mut i: usize = 0;
        while i < images.len()
            invariant
                i <= images@.len(),
                out@.map_values(|c: &ImageDto| *c) == images@.subrange(0, i as int),
            decreases images@.len() - i,
        {
            let c = &images[i];
            let ghost before = out@;
            out.push(c);
            assert(out@ == before.push(c));
            assert(out@.map_values(|c: &ImageDto| *c) =~= before.map_values(
                |c: &ImageDto| *c,
            ).push(*c));
            i = i + 1;
            assert(out@.map_values(|c: &ImageDto| *c) =~= images@.subrange(0, i as int));
        }
        assert(images@.subrange(0, i as int) =~= images@);
        return out;
    }
    let lower_filter = to_lowercase_string(filter);
    let ghost pred = |c: ImageDto| image_matches(c, filter@);
    let mut i: usize = 0;
    while i < images.len()
        invariant
            i <= images@.len(),
            lower_filter@ == lowercase(filter@),
            pred == (|c: ImageDto| image_matches(c, filter@)),
            out@.map_values(|c: &ImageDto| *c) == images@.subrange(0, i as int).filter(
                pred,
            ),
        decreases images@.len() - i,
    {
        let c = &images[i];
        let name_lower = to_lowercase_string(c.full_name.as_str());
        let keep = contains_str(name_lower.as_str(), lower_filter.as_str());
        proof {
            reveal_with_fuel(Seq::filter, 1);
            assert(images@.subrange(0, i + 1).drop_last() =~= images@.subrange(
                0,
                i as int,
            ));
            assert(keep == pred(images@[i as int]));
        }
        if keep {
            out.push(c);
        }
        i = i + 1;
        assert(out@.map_values(|c: &ImageDto| *c) =~= images@.subrange(0, i as int).filter(
            pred,
        ));
    }
    assert(images@.subrange(0, i as int) =~= images@);
    out
}

/// The state of the image list, log and detail screens.
pub struct ImagePresenter {
    pub images: Vec<ImageDto>,
    pub selection: TableSelection,
    pub selected_image: Option<ImageDto>,
    pub loading: bool,
    pub error: Option<String>,
    pub filter: FilterState,
}

impl ImagePresenter {
    /// The images the current filter text lets through.
    pub open spec fn visible(&self) -> Seq<ImageDto> {
        filtered_images_of(self.images@, self.filter.value@)
    }

    /// An empty presenter.
    pub fn new() -> (r: ImagePresenter)
        ensures
            r.images@.len() == 0,
            r.selection.selected is None,
            r.selection.items_count == 0,
            r.selected_image is None,
            !r.loading,
            r.error is None,
            r.filter.value@.len() == 0,
            !r.filter.active,
    {
        ImagePresenter {
            images: Vec::new(),
            selection: TableSelection::new(),
            selected_image: None,
            loading: false,
            error: None,
            filter: FilterState::new(),
        }
    }

    fn update_filtered_selection(&mut self)
        ensures
            *final(self) == (ImagePresenter {
                selection: resized(old(self).selection, old(self).visible().len()),
                ..*old(self)
            }),
    {
        let count = filter_images(&self.images, self.filter.value()).len();
        self.selection.set_items(count);
    }

    /// Replaces the list, brings the selection into range and clears the error.
    pub fn set_images(&mut self, images: Vec<ImageDto>)
        ensures
            *final(self) == (ImagePresenter {
                images,
                selection: resized(
                    old(self).selection,
                    filtered_images_of(images@, old(self).filter.value@).len(),
                ),
                error: None,
                ..*old(self)
            }),
    {
        self.images = images;
        self.update_filtered_selection();
        self.error = None;
    }

    pub fn set_error(&mut self, error: String)
        ensures
            *final(self) == (ImagePresenter { error: Some(error), ..*old(self) }),
    {
        self.error = Some(error);
    }

    pub fn clear_error(&mut self)
        ensures
            *final(self) == (ImagePresenter { error: None, ..*old(self) }),
    {
        self.error = None;
    }

    /// The images shown under the current filter.
    pub fn filtered_images(&self) -> (r: Vec<&ImageDto>)
        ensures
            r@.map_values(|c: &ImageDto| *c) == self.visible(),
    {
        filter_images(&self.images, self.filter.value())
    }

    /// The selected row among the shown images.
    pub fn selected_image(&self) -> (r: Option<&ImageDto>)
        ensures
            match self.selection.selected {
                Some(i) => if i < self.visible().len() {
                    r matches Some(c) && *c == self.visible()[i as int]
                } else {
                    r is None
                },
                None => r is None,
            },
    {
        let filtered = self.filtered_images();
        match self.selection.selected() {
            Some(i) => {
                if i < filtered.len() {
                    assert(filtered@.map_values(|c: &ImageDto| *c)[i as int] == *filtered@[i as int]);
                    Some(filtered[i])
                } else {
                    None
                }
            },
            None => None,
        }
    }

    pub fn set_details(&mut self, image: ImageDto)
        ensures
            *final(self) == (ImagePresenter { selected_image: Some(image), ..*old(self) }),
    {
        self.selected_image = Some(image);
    }

    pub fn clear_details(&mut self)
        ensures
            *final(self) == (ImagePresenter { selected_image: None, ..*old(self) }),
    {
        self.selected_image = None;
    }

    pub fn navigate_up(&mut self)
        ensures
            *final(self) == (ImagePresenter {
                selection: moved_up(old(self).selection),
                ..*old(self)
            }),
    {
        self.selection.previous();
    }

    pub fn navigate_down(&mut self)
        ensures
            *final(self) == (ImagePresenter {
                selection: moved_down(old(self).selection),
                ..*old(self)
            }),
    {
        self.selection.next();
    }

    /// Opens the filter input; the text is kept.
    pub fn activate_filter(&mut self)
        ensures
            final(self).filter.active,
            final(self).filter.value@ == old(self).filter.value@,
            *final(self) == (ImagePresenter { filter: final(self).filter, ..*old(self) }),
    {
        self.filter.activate();
    }

    /// Closes the filter, which then lets every image through.
    pub fn deactivate_filter(&mut self)
        ensures
            !final(self).filter.active,
            final(self).filter.value@.len() == 0,
            *final(self) == (ImagePresenter {
                filter: final(self).filter,
                selection: resized(old(self).selection, old(self).images@.len()),
                ..*old(self)
            }),
    {
        self.filter.deactivate();
        self.update_filtered_selection();
    }

    pub fn push_filter_char(&mut self, c: char)
        ensures
            final(self).filter.value@ == old(self).filter.value@.push(c),
            final(self).filter.active == old(self).filter.active,
            *final(self) == (ImagePresenter {
                filter: final(self).filter,
                selection: resized(old(self).selection, final(self).visible().len()),
                ..*old(self)
            }),
    {
        self.filter.push_char(c);
        self.update_filtered_selection();
    }

    pub fn pop_filter_char(&mut self)
        ensures
            old(self).filter.value@.len() > 0 ==> final(self).filter.value@ == old(
                self,
            ).filter.value@.drop_last(),
            old(self).filter.value@.len() == 0 ==> final(self).filter.value@ == old(
                self,
            ).filter.value@,
            final(self).filter.active == old(self).filter.active,
            *final(self) == (ImagePresenter {
                filter: final(self).filter,
                selection: resized(old(self).selection, final(self).visible().len()),
                ..*old(self)
            }),
    {
        self.filter.pop_char();
        self.update_filtered_selection();
    }

    pub fn is_filter_active(&self) -> (r: bool)
        ensures
            r == self.filter.active,
    {
        self.filter.is_active()
    }

    pub fn active_filter(&self) -> (r: Option<&str>)
        ensures
            self.filter.active ==> (r matches Some(v) && v@ == self.filter.value@),
            !self.filter.active ==> r is None,
    {
        self.filter.active_value()
    }
}

/// Whatever the filter text, the shown images come from the list and
/// are never more than the list.
pub proof fn law_filter_shows_a_part(cs: Seq<ImageDto>, filter: Seq<char>)
    ensures
        filtered_images_of(cs, filter).len() <= cs.len(),
        forall|c: ImageDto| #[trigger]
            filtered_images_of(cs, filter).contains(c) ==> cs.contains(c),
{
    if filter.len() > 0 {
        let pred = |c: ImageDto| image_matches(c, filter);
        cs.lemma_filter_len(pred);
        assert forall|c: ImageDto| #[trigger] cs.filter(pred).contains(c) implies cs.contains(
            c,
        ) by {
            cs.lemma_filter_contains_rev(pred, c);
        }
    }
}

/// A filter text shows the images of the list whose lowercased full name
/// holds the lowercased filter text at some position (anywhere in it, not
/// only at the start), and no others; an empty filter shows every one.
pub proof fn law_filter_finds_text_anywhere(cs: Seq<ImageDto>, filter: Seq<char>, v: ImageDto)
    ensures
        filter.len() == 0 ==> filtered_images_of(cs, filter) == cs,
        filter.len() > 0 ==> (filtered_images_of(cs, filter).contains(v) <==> (cs.contains(v) && ((exists|i: int|
            #![trigger lowercase(v.full_name@).subrange(i, i + lowercase(filter).len())]
            0 <= i && i + lowercase(filter).len() <= lowercase(v.full_name@).len()
                && lowercase(v.full_name@).subrange(i, i + lowercase(filter).len()) == lowercase(filter))))),
{
    let pred = |c: ImageDto| image_matches(c, filter);
    if filter.len() > 0 {
        if contains_text(lowercase(v.full_name@), lowercase(filter)) {
            let i = choose|i: int| occurs_at(lowercase(v.full_name@), lowercase(filter), i);
            assert(lowercase(v.full_name@).subrange(i, i + lowercase(filter).len()) == lowercase(filter));
        }
        if (exists|i: int|
            #![trigger lowercase(v.full_name@).subrange(i, i + lowercase(filter).len())]
            0 <= i && i + lowercase(filter).len() <= lowercase(v.full_name@).len()
                && lowercase(v.full_name@).subrange(i, i + lowercase(filter).len()) == lowercase(filter)) {
            let i = choose|i: int|
                #![trigger lowercase(v.full_name@).subrange(i, i + lowercase(filter).len())]
                0 <= i && i + lowercase(filter).len() <= lowercase(v.full_name@).len()
                    && lowercase(v.full_name@).subrange(i, i + lowercase(filter).len()) == lowercase(filter);
            assert(occurs_at(lowercase(v.full_name@), lowercase(filter), i));
        }
        if cs.filter(pred).contains(v) {
            cs.lemma_filter_contains_rev(pred, v);
        }
        if cs.contains(v) && pred(v) {
            let k = choose|k: int| 0 <= k < cs.len() && cs[k] == v;
            cs.lemma_filter_contains(pred, k);
        }
    }
}

} // verus!
