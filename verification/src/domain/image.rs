//! Images: identifiers and the image entity with its naming rules.
use crate::domain::byte_size::ByteSize;
use crate::domain::container::{first_twelve_bytes, short_id_bytes};
use crate::domain::error::DomainError;
use crate::text::{push_text, str_eq, string_of, strip_prefix_or_keep, without_prefix};
use vstd::prelude::*;
use vstd::string::*;
use vstd::utf8::*;

verus! {

/// The size of an image.
pub type ImageSize = ByteSize;

/// The identifier of an image; never empty. It usually carries the digest
/// algorithm as a `sha256:` prefix.
#[derive(Debug, Clone, PartialEq, Eq, Hash)]
pub struct ImageId(String);

impl View for ImageId {
    type V = Seq<char>;

    closed spec fn view(&self) -> Seq<char> {
        self.0@
    }
}

/// An identifier without its `sha256:` prefix.
pub open spec fn digest_part(id: Seq<char>) -> Seq<char> {
    without_prefix(id, "sha256:"@)
}

impl ImageId {
    /// Accepts any identifier but the empty one.
    pub fn new(id: &str) -> (r: Result<ImageId, DomainError>)
        ensures
            id@.len() == 0 <==> r is Err,
            r matches Ok(i) ==> i@ == id@,
            r matches Err(e) ==> e is InvalidImageId && e.message_view()
                == "Image ID cannot be empty"@,
    {
        if id.is_empty() {
            return Err(DomainError::InvalidImageId(string_of("Image ID cannot be empty")));
        }
        Ok(ImageId(string_of(id)))
    }

    pub fn as_str(&self) -> (r: &str)
        ensures
            r@ == self@,
    {
        self.0.as_str()
    }

    /// The digest without its `sha256:` prefix, cut to its first twelve bytes.
    pub fn short(&self) -> (r: &str)
        requires
            encode_utf8(digest_part(self@)).len() > 12 ==> is_char_boundary(
                encode_utf8(digest_part(self@)),
                12,
            ),
        ensures
            encode_utf8(r@) == short_id_bytes(digest_part(self@)),
            encode_utf8(digest_part(self@)).len() <= 12 ==> r@ == digest_part(self@),
    {
        let digest = strip_prefix_or_keep(self.0.as_str(), "sha256:");
        first_twelve_bytes(digest)
    }
}

/// Whether a repository or tag is missing: empty or the engine's `<none>`.
pub open spec fn is_unset(s: Seq<char>) -> bool {
    s.len() == 0 || s == "<none>"@
}

/// The name an image is shown by: `repository:tag`; the repository alone
/// when the tag is missing; `<none>:tag` when only the repository is.
pub open spec fn image_full_name(repository: Seq<char>, tag: Seq<char>) -> Seq<char> {
    if is_unset(tag) {
        repository
    } else if is_unset(repository) {
        "<none>:"@ + tag
    } else {
        repository + seq![':'] + tag
    }
}

/// An image stored by the engine. `created` is the creation time in seconds
/// since the Unix epoch.
#[derive(Debug, Clone)]
pub struct Image {
    pub id: ImageId,
    pub repository: String,
    pub tag: String,
    pub size: ImageSize,
    pub created: i64,
    pub in_use: bool,
}

fn is_unset_text(s: &str) -> (r: bool)
    ensures
        r == is_unset(s@),
{
    s.is_empty() || str_eq(s, "<none>")
}

impl Image {
    /// A new image, not in use.
    pub fn new(id: ImageId, repository: &str, tag: &str, size: ImageSize, created: i64) -> (r:
        Image)
        ensures
            r.id == id,
            r.repository@ == repository@,
            r.tag@ == tag@,
            r.size == size,
            r.created == created,
            !r.in_use,
    {
        Image {
            id,
            repository: string_of(repository),
            tag: string_of(tag),
            size,
            created,
            in_use: false,
        }
    }

    /// The same image, marked as used (or not) by a container.
    pub fn with_in_use(self, in_use: bool) -> (r: Image)
        ensures
            r == (Image { in_use, ..self }),
    {
        Image { in_use, ..self }
    }

    pub fn id(&self) -> (r: &ImageId)
        ensures
            *r == self.id,
    {
        &self.id
    }

    pub fn repository(&self) -> (r: &str)
        ensures
            r@ == self.repository@,
    {
        self.repository.as_str()
    }

    pub fn tag(&self) -> (r: &str)
        ensures
            r@ == self.tag@,
    {
        self.tag.as_str()
    }

    pub fn size(&self) -> (r: ImageSize)
        ensures
            r == self.size,
    {
        self.size
    }

    pub fn created(&self) -> (r: i64)
        ensures
            r == self.created,
    {
        self.created
    }

    pub fn in_use(&self) -> (r: bool)
        ensures
            r == self.in_use,
    {
        self.in_use
    }

    /// An image can be deleted without force only when no container uses it.
    pub fn can_be_deleted(&self) -> (r: bool)
        ensures
            r == !self.in_use,
    {
        !self.in_use
    }

    pub fn full_name(&self) -> (r: String)
        ensures
            r@ == image_full_name(self.repository@, self.tag@),
    {
        if is_unset_text(self.tag.as_str()) {
            string_of(self.repository.as_str())
        } else if is_unset_text(self.repository.as_str()) {
            let mut out = string_of("<none>:");
            push_text(&mut out, self.tag.as_str());
            out
        } else {
            let mut out = string_of(self.repository.as_str());
            crate::text::push_char(&mut out, ':');
            push_text(&mut out, self.tag.as_str());
            assert(out@ =~= image_full_name(self.repository@, self.tag@));
            out
        }
    }

    /// An image is dangling when it has neither a repository nor a tag.
    pub fn is_dangling(&self) -> (r: bool)
        ensures
            r == (is_unset(self.repository@) && is_unset(self.tag@)),
    {
        is_unset_text(self.repository.as_str()) && is_unset_text(self.tag.as_str())
    }
}

} // verus!
