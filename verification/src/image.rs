//! Container image coordinates and their defaults.

use vstd::prelude::*;
use vstd::string::{StrSliceExecFns, StringExecFns};
use crate::text::{opt_str_view, or_text};

verus! {

/// Repository used when the image names none.
pub const DEFAULT_ZK_CONTAINER_REPOSITORY: &'static str = "default_zk_container_repository";

/// Tag used when the image names none.
pub const DEFAULT_ZK_CONTAINER_VERSION: &'static str = "default_zk_container_version";

/// Pull policy used when the image names none.
pub const DEFAULT_ZK_CONTAINER_POLICY: &'static str = "default_zk_container_policy";

/// Coordinates of the container image that ensemble members run.
#[derive(Clone, Debug, PartialEq, Eq)]
pub struct ContainerImage {
    pub repository: Option<String>,
    pub tag: Option<String>,
    pub pull_policy: Option<String>,
}

/// Mathematical value of a [`ContainerImage`].
pub struct ContainerImageView {
    pub repository: Option<Seq<char>>,
    pub tag: Option<Seq<char>>,
    pub pull_policy: Option<Seq<char>>,
}

impl View for ContainerImage {
    type V = ContainerImageView;

    open spec fn view(&self) -> ContainerImageView {
        ContainerImageView {
            repository: opt_str_view(self.repository),
            tag: opt_str_view(self.tag),
            pull_policy: opt_str_view(self.pull_policy),
        }
    }
}

impl ContainerImageView {
    /// The image with no coordinate stated.
    pub open spec fn unset() -> ContainerImageView {
        ContainerImageView { repository: None, tag: None, pull_policy: None }
    }

    /// The image with each missing coordinate replaced by its fallback.
    pub open spec fn defaulted(self) -> ContainerImageView {
        ContainerImageView {
            repository: or_text(self.repository, DEFAULT_ZK_CONTAINER_REPOSITORY@),
            tag: or_text(self.tag, DEFAULT_ZK_CONTAINER_VERSION@),
            pull_policy: or_text(self.pull_policy, DEFAULT_ZK_CONTAINER_POLICY@),
        }
    }

    /// Whether every coordinate is stated.
    pub open spec fn is_complete(self) -> bool {
        self.repository is Some && self.tag is Some && self.pull_policy is Some
    }

    /// `repository:tag` when both are stated, else the empty text.
    pub open spec fn reference(self) -> Seq<char> {
        if self.repository is Some && self.tag is Some {
            self.repository->0 + seq![':'] + self.tag->0
        } else {
            Seq::empty()
        }
    }
}

/// Whether the colon at `colon` sets off the tag of the first `upto` characters of
/// `reference`: neither a colon nor a slash follows it.
pub open spec fn sets_off_tag(reference: Seq<char>, colon: int, upto: int) -> bool {
    &&& 0 <= colon < upto <= reference.len()
    &&& reference[colon] == ':'
    &&& forall|j: int| colon < j < upto ==> reference[j] != ':' && reference[j] != '/'
}

/// Whether `tag` is the tag of the image reference `reference`: what follows its last
/// colon, unless a slash follows that colon. A colon before a slash belongs to a
/// registry's port, and a reference without such a colon has no tag.
pub open spec fn is_tag_of(tag: Option<Seq<char>>, reference: Seq<char>) -> bool {
    match tag {
        Some(text) => exists|colon: int|
            #[trigger] sets_off_tag(reference, colon, reference.len() as int)
                && text == reference.skip(colon + 1),
        None => forall|colon: int|
            !#[trigger] sets_off_tag(reference, colon, reference.len() as int),
    }
}

/// The tag of the image reference `reference`, as in `repository:tag`.
pub fn image_tag(reference: &str) -> (tag: Option<String>)
    ensures
        is_tag_of(opt_str_view(tag), reference@),
{
    let n = reference.unicode_len();
    let mut i: usize = 0;
    let mut colon: Option<usize> = None;
    for c in it: reference.chars()
        invariant
            it.seq() == reference@,
            n == reference@.len(),
            i == it.index(),
            match colon {
                Some(at) => sets_off_tag(reference@, at as int, i as int),
                None => forall|k: int| !#[trigger] sets_off_tag(reference@, k, i as int),
            },
    {
        let ghost next = i + 1;
        if c == ':' {
            colon = Some(i);
        } else if c == '/' {
            colon = None;
            assert forall|k: int| !#[trigger] sets_off_tag(reference@, k, next) by {
                if 0 <= k < i && reference@[k] == ':' {
                    assert(reference@[i as int] == '/');
                }
            }
        } else if colon.is_none() {
            assert forall|k: int| !#[trigger] sets_off_tag(reference@, k, next) by {
                if sets_off_tag(reference@, k, next) {
                    assert(sets_off_tag(reference@, k, i as int));
                }
            }
        }
        i += 1;
    }
    match colon {
        Some(at) => {
            let tag = reference.substring_char(at + 1, n).to_owned();
            assert(tag@ =~= reference@.skip(at + 1));
            Some(tag)
        },
        None => None,
    }
}

impl ContainerImage {
    /// An image with no coordinate stated.
    pub fn new() -> (image: ContainerImage)
        ensures
            image@ == ContainerImageView::unset(),
    {
        ContainerImage { repository: None, tag: None, pull_policy: None }
    }

    /// Fills each missing coordinate with its fallback and says whether any was missing.
    pub fn with_defaults(&mut self) -> (changed: bool)
        ensures
            final(self)@ == old(self)@.defaulted(),
            changed == !old(self)@.is_complete(),
            final(self)@.is_complete(),
    {
        let mut changed = false;
        if self.repository.is_none() {
            self.repository = Some(DEFAULT_ZK_CONTAINER_REPOSITORY.to_owned());
            changed = true;
        }
        if self.tag.is_none() {
            self.tag = Some(DEFAULT_ZK_CONTAINER_VERSION.to_owned());
            changed = true;
        }
        if self.pull_policy.is_none() {
            self.pull_policy = Some(DEFAULT_ZK_CONTAINER_POLICY.to_owned());
            changed = true;
        }
        changed
    }

    /// The image reference `repository:tag`, or the empty string while either part is missing.
    pub fn to_string(&self) -> (text: String)
        ensures
            text@ == self@.reference(),
    {
        match (&self.repository, &self.tag) {
            (Some(repository), Some(tag)) => {
                let mut text = repository.clone();
                proof {
                    reveal_strlit(":");
                }
                text.append(":");
                text.append(tag.as_str());
                assert(text@ =~= self@.reference());
                text
            },
            _ => String::new(),
        }
    }
}

} // verus!
