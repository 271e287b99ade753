use crate::text::string_of;
use vstd::prelude::*;

verus! {

/// An image as the image screens show it.
#[derive(Debug, Clone)]
pub struct ImageDto {
    pub id: String,
    pub short_id: String,
    pub repository: String,
    pub tag: String,
    pub full_name: String,
    pub size: String,
    pub created: String,
    pub in_use: bool,
    pub is_dangling: bool,
    pub can_delete: bool,
}

/// Whether two images show the same values.
pub open spec fn image_same(a: ImageDto, b: ImageDto) -> bool {
    &&& a.id@ == b.id@
    &&& a.short_id@ == b.short_id@
    &&& a.repository@ == b.repository@
    &&& a.tag@ == b.tag@
    &&& a.full_name@ == b.full_name@
    &&& a.size@ == b.size@
    &&& a.created@ == b.created@
    &&& a.in_use == b.in_use
    &&& a.is_dangling == b.is_dangling
    &&& a.can_delete == b.can_delete
}

impl ImageDto {
    /// A copy of the image's values.
    pub fn duplicate(&self) -> (r: ImageDto)
        ensures
            image_same(r, *self),
    {
        ImageDto {
            id: string_of(self.id.as_str()),
            short_id: string_of(self.short_id.as_str()),
            repository: string_of(self.repository.as_str()),
            tag: string_of(self.tag.as_str()),
            full_name: string_of(self.full_name.as_str()),
            size: string_of(self.size.as_str()),
            created: string_of(self.created.as_str()),
            in_use: self.in_use,
            is_dangling: self.is_dangling,
            can_delete: self.can_delete,
        }
    }
}

} // verus!
