//! Volumes: their identifier.
use crate::domain::byte_size::ByteSize;
use crate::domain::error::DomainError;
use crate::text::string_of;
use vstd::prelude::*;

verus! {

/// The size of a volume.
pub type VolumeSize = ByteSize;

/// The identifier of a volume; never empty.
#[derive(Debug, Clone, PartialEq, Eq, Hash)]
pub struct VolumeId(String);

impl View for VolumeId {
    type V = Seq<char>;

    closed spec fn view(&self) -> Seq<char> {
        self.0@
    }
}

impl VolumeId {
    /// Accepts any identifier but the empty one.
    pub fn new(id: &str) -> (r: Result<VolumeId, DomainError>)
        ensures
            id@.len() == 0 <==> r is Err,
            r matches Ok(v) ==> v@ == id@,
            r matches Err(e) ==> e is InvalidVolumeId && e.message_view()
                == "Volume ID cannot be empty"@,
    {
        if id.is_empty() {
            return Err(DomainError::InvalidVolumeId(string_of("Volume ID cannot be empty")));
        }
        Ok(VolumeId(string_of(id)))
    }

    pub fn as_str(&self) -> (r: &str)
        ensures
            r@ == self@,
    {
        self.0.as_str()
    }
}

} // verus!
