use vstd::prelude::*;

verus! {

/// A value object was given a value that its rules refuse.
#[derive(Debug, Clone)]
pub enum DomainError {
    InvalidContainerId(String),
    InvalidImageId(String),
    InvalidVolumeId(String),
    InvalidStackName(String),
}

impl DomainError {
    /// The explanation carried by the error.
    pub open spec fn message_view(&self) -> Seq<char> {
        match self {
            DomainError::InvalidContainerId(m) => m@,
            DomainError::InvalidImageId(m) => m@,
            DomainError::InvalidVolumeId(m) => m@,
            DomainError::InvalidStackName(m) => m@,
        }
    }

    /// The explanation carried by the error.
    pub fn message(&self) -> (r: &str)
        ensures
            r@ == self.message_view(),
    {
        match self {
            DomainError::InvalidContainerId(m) => m.as_str(),
            DomainError::InvalidImageId(m) => m.as_str(),
            DomainError::InvalidVolumeId(m) => m.as_str(),
            DomainError::InvalidStackName(m) => m.as_str(),
        }
    }
}

} // verus!
