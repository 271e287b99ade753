//! Building what the image screens show from the domain.
use crate::application::image_dto::ImageDto;
use crate::domain::container::short_id_bytes;
use crate::domain::image::{digest_part, image_full_name, is_unset, Image};
use crate::infrastructure::clock::{
    format_utc_seconds, utc_calendar_text, utc_seconds_representable,
};
use crate::text::{string_of, strip_prefix_or_keep};
use vstd::prelude::*;
use vstd::utf8::{encode_utf8, is_char_boundary};

verus! {

/// Whether an image's short identifier can be cut from its digest: the
/// twelfth byte does not fall inside a character.
pub open spec fn short_id_cuttable(image: Image) -> bool {
    encode_utf8(digest_part(image.id@)).len() > 12 ==> is_char_boundary(
        encode_utf8(digest_part(image.id@)),
        12,
    )
}

/// The transfer object for an image, with `size` as the size's display
/// text.
pub open spec fn image_dto_of(d: ImageDto, image: Image, size: Seq<char>) -> bool {
    &&& d.id@ == image.id@
    &&& encode_utf8(d.short_id@) == short_id_bytes(digest_part(image.id@))
    &&& d.repository@ == image.repository@
    &&& d.tag@ == image.tag@
    &&& d.full_name@ == image_full_name(image.repository@, image.tag@)
    &&& d.size@ == size
    &&& d.created@ == utc_calendar_text(image.created as int)
    &&& d.in_use == image.in_use
    &&& d.is_dangling == (is_unset(image.repository@) && is_unset(image.tag@))
    &&& d.can_delete == !image.in_use
}

/// The position of the last `:` of a text, if it has one.
pub open spec fn last_colon(s: Seq<char>) -> Option<int>
    decreases s.len(),
{
    if s.len() == 0 {
        None
    } else if s.last() == ':' {
        Some(s.len() - 1)
    } else {
        last_colon(s.drop_last())
    }
}

/// The repository and tag an image reference names: the text before and
/// after its last `:`; the tag is unset (`<none>`) when there is no `:`.
pub open spec fn reference_parts(reference: Seq<char>) -> (Seq<char>, Seq<char>) {
    match last_colon(reference) {
        Some(i) => (reference.subrange(0, i), reference.subrange(i + 1, reference.len() as int)),
        None => (reference, "<none>"@),
    }
}

/// The repository and tag of an image from its first reference; both unset
/// (`<none>`) for an image without references.
pub fn repository_and_tag(references: &Vec<String>) -> (r: (String, String))
    ensures
        references@.len() == 0 ==> r.0@ == "<none>"@ && r.1@ == "<none>"@,
        references@.len() > 0 ==> (r.0@, r.1@) == reference_parts(references@[0]@),
{
    if references.len() == 0 {
        return (string_of("<none>"), string_of("<none>"));
    }
    let reference = references[0].as_str();
    let n = reference.unicode_len();
    let mut i: usize = n;
    assert(reference@.subrange(0, n as int) =~= reference@);
    while i > 0
        invariant
            i <= n,
            n == reference@.len(),
            references@.len() > 0,
            reference@ == references@[0]@,
            last_colon(reference@) == last_colon(reference@.subrange(0, i as int)),
        decreases i,
    {
        assert(reference@.subrange(0, i as int).drop_last() =~= reference@.subrange(0, i - 1));
        if reference.get_char(i - 1) == ':' {
            let repository = reference.substring_char(0, i - 1);
            let tag = reference.substring_char(i, n);
            assert(reference@.subrange(0, i as int).last() == ':');
            return (string_of(repository), string_of(tag));
        }
        i = i - 1;
    }
    assert(reference@.subrange(0, 0) =~= Seq::<char>::empty());
    (string_of(reference), string_of("<none>"))
}

/// Builds the image transfer objects.
pub struct ImageMapper;

impl ImageMapper {
    /// The transfer object for an image whose size is shown as `size_text`;
    /// `None` when the calendar cannot hold the creation time.
    pub fn to_dto(image: &Image, size_text: &str) -> (r: Option<ImageDto>)
        requires
            short_id_cuttable(*image),
        ensures
            r is Some <==> utc_seconds_representable(image.created as int),
            r matches Some(d) ==> image_dto_of(d, *image, size_text@),
    {
        let created = match format_utc_seconds(image.created()) {
            Some(text) => text,
            None => return None,
        };
        Some(
            ImageDto {
                id: string_of(image.id().as_str()),
                short_id: string_of(image.id().short()),
                repository: string_of(image.repository()),
                tag: string_of(image.tag()),
                full_name: image.full_name(),
                size: string_of(size_text),
                created,
                in_use: image.in_use(),
                is_dangling: image.is_dangling(),
                can_delete: image.can_be_deleted(),
            },
        )
    }

    /// The transfer objects for images whose sizes are shown as the texts
    /// at the same positions; `None` when the two lists differ in length or
    /// the calendar cannot hold some creation time.
    pub fn to_dto_list(images: &[Image], size_texts: &[String]) -> (r: Option<Vec<ImageDto>>)
        requires
            forall|k: int| 0 <= k < images@.len() ==> short_id_cuttable(#[trigger] images@[k]),
        ensures
            r is Some <==> (images@.len() == size_texts@.len() && forall|k: int|
                0 <= k < images@.len() ==> utc_seconds_representable(
                    (#[trigger] images@[k]).created as int,
                )),
            r matches Some(ds) ==> ds@.len() == images@.len() && forall|k: int|
                0 <= k < ds@.len() ==> image_dto_of(
                    #[trigger] ds@[k],
                    images@[k],
                    size_texts@[k]@,
                ),
    {
        if images.len() != size_texts.len() {
            return None;
        }
        let mut out: Vec<ImageDto> = Vec::new();
        let mut i: usize = 0;
        while i < images.len()
            invariant
                i <= images@.len(),
                images@.len() == size_texts@.len(),
                forall|k: int| 0 <= k < images@.len() ==> short_id_cuttable(#[trigger] images@[k]),
                forall|k: int|
                    0 <= k < i ==> utc_seconds_representable(
                        (#[trigger] images@[k]).created as int,
                    ),
                out@.len() == i,
                forall|k: int|
                    0 <= k < i ==> image_dto_of(#[trigger] out@[k], images@[k], size_texts@[k]@),
            decreases images@.len() - i,
        {
            match Self::to_dto(&images[i], size_texts[i].as_str()) {
                Some(dto) => out.push(dto),
                None => return None,
            }
            i = i + 1;
        }
        Some(out)
    }
}

} // verus!
