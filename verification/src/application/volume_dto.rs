use crate::text::string_of;
use vstd::prelude::*;

verus! {

/// A volume as the volume screens show it.
#[derive(Debug, Clone)]
pub struct VolumeDto {
    pub id: String,
    pub name: String,
    pub driver: String,
    pub mountpoint: String,
    pub size: String,
    pub created: String,
    pub in_use: bool,
    pub linked_containers: Vec<String>,
    pub can_delete: bool,
}

impl VolumeDto {
    /// A volume as the screens show it: its name is its identifier, it is in
    /// use when some container mounts it, and only a volume not in use can
    /// be deleted.
    pub fn new(
        name: &str,
        driver: &str,
        mountpoint: &str,
        size: &str,
        created: &str,
        linked_containers: Vec<String>,
    ) -> (r: VolumeDto)
        ensures
            r.id@ == name@,
            r.name@ == name@,
            r.driver@ == driver@,
            r.mountpoint@ == mountpoint@,
            r.size@ == size@,
            r.created@ == created@,
            r.linked_containers == linked_containers,
            r.in_use == (linked_containers@.len() > 0),
            r.can_delete == (linked_containers@.len() == 0),
    {
        let in_use = linked_containers.len() > 0;
        VolumeDto {
            id: string_of(name),
            name: string_of(name),
            driver: string_of(driver),
            mountpoint: string_of(mountpoint),
            size: string_of(size),
            created: string_of(created),
            in_use,
            linked_containers,
            can_delete: !in_use,
        }
    }
}

} // verus!
