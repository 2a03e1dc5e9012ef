//! Storage of ensemble members: persistent volume claims or ephemeral volumes.

use vstd::prelude::*;
use crate::pod::opt_map_view;
use crate::string_map::StringMap;
use crate::text::{opt_str_view, opt_strs_view, or_text};

verus! {

/// Capacity requested for a member's volume when the claim states none.
pub const DEFAULT_ZOOKEEPER_CACHE_VOLUME_SIZE: &'static str = "20Gi";

/// Reclaim policy of a member's volume when none is stated.
pub const DEFAULT_VOLUME_RECLAIM_POLICY: &'static str = "Retain";

/// Access mode of a member's volume when the claim states none.
pub const DEFAULT_ACCESS_MODE: &'static str = "ReadWriteOnce";

/// Storage type under which members keep their data on persistent volumes.
pub const STORAGE_TYPE_PERSISTENCE: &'static str = "persistence";

/// Storage type under which members keep their data on volumes that live as long as the pod.
pub const STORAGE_TYPE_EPHEMERAL: &'static str = "ephemeral";

/// Whether `c` can stand in the number that a quantity begins with: a sign, a digit or
/// the decimal point.
pub open spec fn is_number_char(c: char) -> bool {
    c == '+' || c == '-' || c == '.' || ('0' <= c && c <= '9')
}

/// Length of the number that the quantity `q` begins with: its longest prefix of signs,
/// digits and decimal points. What follows is the unit or an exponent.
pub open spec fn number_len(q: Seq<char>) -> nat
    decreases q.len(),
{
    if q.len() == 0 || !is_number_char(q[0]) {
        0
    } else {
        1 + number_len(q.skip(1))
    }
}

/// Whether the quantity `q` amounts to nothing: the number that it begins with holds no
/// digit from 1 to 9. A text that begins with no number at all amounts to nothing.
pub open spec fn is_zero_quantity(q: Seq<char>) -> bool {
    forall|i: int| 0 <= i < number_len(q) ==> !('1' <= #[trigger] q[i] && q[i] <= '9')
}

/// Whether the quantity `quantity` amounts to nothing.
pub fn quantity_is_zero(quantity: &str) -> (zero: bool)
    ensures
        zero == is_zero_quantity(quantity@),
{
    assert(quantity@.skip(0) =~= quantity@);
    for c in it: quantity.chars()
        invariant
            it.seq() == quantity@,
            number_len(quantity@) == it.index() + number_len(quantity@.skip(it.index())),
            forall|j: int|
                0 <= j < it.index() ==> !('1' <= #[trigger] quantity@[j] && quantity@[j] <= '9'),
    {
        let in_number = c == '+' || c == '-' || c == '.' || ('0' <= c && c <= '9');
        if !in_number {
            return true;
        }
        if '1' <= c && c <= '9' {
            return false;
        }
        assert(quantity@.skip(it.index()).skip(1) =~= quantity@.skip(it.index() + 1));
    }
    assert(quantity@.skip(quantity@.len() as int) =~= Seq::<char>::empty());
    true
}

/// The default capacity is a quantity that does not amount to nothing.
pub proof fn lemma_default_volume_size_is_not_zero()
    ensures
        !is_zero_quantity(DEFAULT_ZOOKEEPER_CACHE_VOLUME_SIZE@),
{
    reveal_strlit("20Gi");
    let q = DEFAULT_ZOOKEEPER_CACHE_VOLUME_SIZE@;
    assert(q.len() == 4 && q[0] == '2');
    assert(is_number_char(q[0]));
    assert(number_len(q) >= 1);
    assert('1' <= q[0] && q[0] <= '9');
}

/// What a member's volume claim asks for.
#[derive(Clone, Debug, PartialEq, Eq)]
pub struct VolumeClaimSpec {
    pub access_modes: Option<Vec<String>>,
    pub storage_request: Option<String>,
}

/// Mathematical value of a [`VolumeClaimSpec`].
pub struct VolumeClaimSpecView {
    pub access_modes: Option<Seq<Seq<char>>>,
    pub storage_request: Option<Seq<char>>,
}

impl View for VolumeClaimSpec {
    type V = VolumeClaimSpecView;

    open spec fn view(&self) -> VolumeClaimSpecView {
        VolumeClaimSpecView {
            access_modes: opt_strs_view(self.access_modes),
            storage_request: opt_str_view(self.storage_request),
        }
    }
}

impl VolumeClaimSpecView {
    /// The claim that asks for nothing.
    pub open spec fn unset() -> VolumeClaimSpecView {
        VolumeClaimSpecView { access_modes: None, storage_request: None }
    }

    /// Whether the claim names at least one access mode.
    pub open spec fn has_access_mode(self) -> bool {
        self.access_modes is Some && self.access_modes->0.len() > 0
    }

    /// Whether the claim asks for a capacity that does not amount to nothing.
    pub open spec fn has_storage_request(self) -> bool {
        self.storage_request is Some && !is_zero_quantity(self.storage_request->0)
    }

    /// The claim with its gaps filled: `ReadWriteOnce` where it names no access mode, and
    /// the default capacity where it asks for none or for nothing.
    pub open spec fn defaulted(self) -> VolumeClaimSpecView {
        VolumeClaimSpecView {
            access_modes: if self.has_access_mode() {
                self.access_modes
            } else {
                Some(seq![DEFAULT_ACCESS_MODE@])
            },
            storage_request: if self.has_storage_request() {
                self.storage_request
            } else {
                Some(DEFAULT_ZOOKEEPER_CACHE_VOLUME_SIZE@)
            },
        }
    }

    /// Whether the claim names an access mode and asks for a capacity.
    pub open spec fn is_complete(self) -> bool {
        self.has_access_mode() && self.has_storage_request()
    }
}

impl VolumeClaimSpec {
    /// A claim that asks for nothing.
    pub fn new() -> (claim: VolumeClaimSpec)
        ensures
            claim@ == VolumeClaimSpecView::unset(),
    {
        VolumeClaimSpec { access_modes: None, storage_request: None }
    }

    /// Fills the gaps of the claim and says whether there was any.
    pub fn with_defaults(&mut self) -> (changed: bool)
        ensures
            final(self)@ == old(self)@.defaulted(),
            changed == !old(self)@.is_complete(),
            final(self)@.is_complete(),
    {
        proof {
            lemma_default_volume_size_is_not_zero();
        }
        let mut changed = false;
        let has_access_mode = match &self.access_modes {
            Some(modes) => modes.len() > 0,
            None => false,
        };
        if !has_access_mode {
            let mut modes: Vec<String> = Vec::new();
            modes.push(DEFAULT_ACCESS_MODE.to_owned());
            assert(crate::text::strs_view(modes@) =~= seq![DEFAULT_ACCESS_MODE@]);
            self.access_modes = Some(modes);
            changed = true;
        }
        let has_storage_request = match &self.storage_request {
            Some(request) => !quantity_is_zero(request.as_str()),
            None => false,
        };
        if !has_storage_request {
            self.storage_request = Some(DEFAULT_ZOOKEEPER_CACHE_VOLUME_SIZE.to_owned());
            changed = true;
        }
        changed
    }
}

/// Persistent storage of ensemble members.
#[derive(Clone, Debug, PartialEq, Eq)]
pub struct Persistence {
    pub volume_reclaim_policy: Option<String>,
    pub persistent_volume_claim_spec: Option<VolumeClaimSpec>,
    pub annotations: Option<StringMap>,
}

/// Mathematical value of a [`Persistence`].
pub struct PersistenceView {
    pub volume_reclaim_policy: Option<Seq<char>>,
    pub persistent_volume_claim_spec: Option<VolumeClaimSpecView>,
    pub annotations: Option<Map<Seq<char>, Seq<char>>>,
}

impl View for Persistence {
    type V = PersistenceView;

    open spec fn view(&self) -> PersistenceView {
        PersistenceView {
            volume_reclaim_policy: opt_str_view(self.volume_reclaim_policy),
            persistent_volume_claim_spec: match self.persistent_volume_claim_spec {
                Some(claim) => Some(claim@),
                None => None,
            },
            annotations: opt_map_view(self.annotations),
        }
    }
}

impl PersistenceView {
    /// Persistent storage with nothing stated.
    pub open spec fn unset() -> PersistenceView {
        PersistenceView {
            volume_reclaim_policy: None,
            persistent_volume_claim_spec: None,
            annotations: None,
        }
    }

    /// The storage with its gaps filled: volumes are retained unless a reclaim policy is
    /// stated, and the claim exists and has no gap. The annotations are kept as they are.
    pub open spec fn defaulted(self) -> PersistenceView {
        PersistenceView {
            volume_reclaim_policy: or_text(
                self.volume_reclaim_policy,
                DEFAULT_VOLUME_RECLAIM_POLICY@,
            ),
            persistent_volume_claim_spec: Some(
                match self.persistent_volume_claim_spec {
                    Some(claim) => claim.defaulted(),
                    None => VolumeClaimSpecView::unset().defaulted(),
                },
            ),
            annotations: self.annotations,
        }
    }

    /// Whether a reclaim policy is stated and the claim exists and has no gap.
    pub open spec fn is_complete(self) -> bool {
        &&& self.volume_reclaim_policy is Some
        &&& self.persistent_volume_claim_spec is Some
        &&& self.persistent_volume_claim_spec->0.is_complete()
    }
}

impl Persistence {
    /// Persistent storage with nothing stated.
    pub fn new() -> (persistence: Persistence)
        ensures
            persistence@ == PersistenceView::unset(),
    {
        Persistence {
            volume_reclaim_policy: None,
            persistent_volume_claim_spec: None,
            annotations: None,
        }
    }

    /// Fills the gaps of the storage and says whether there was any.
    pub fn with_defaults(&mut self) -> (changed: bool)
        ensures
            final(self)@ == old(self)@.defaulted(),
            changed == !old(self)@.is_complete(),
            final(self)@.is_complete(),
    {
        let mut changed = false;
        if self.volume_reclaim_policy.is_none() {
            self.volume_reclaim_policy = Some(DEFAULT_VOLUME_RECLAIM_POLICY.to_owned());
            changed = true;
        }
        let mut claim = match self.persistent_volume_claim_spec.take() {
            Some(claim) => claim,
            None => {
                changed = true;
                VolumeClaimSpec::new()
            },
        };
        if claim.with_defaults() {
            changed = true;
        }
        self.persistent_volume_claim_spec = Some(claim);
        changed
    }
}

/// A volume that lives as long as the pod that mounts it.
#[derive(Clone, Debug, PartialEq, Eq)]
pub struct EmptyDirVolumeSource {
    pub medium: Option<String>,
    pub size_limit: Option<String>,
}

/// Mathematical value of an [`EmptyDirVolumeSource`].
pub struct EmptyDirVolumeSourceView {
    pub medium: Option<Seq<char>>,
    pub size_limit: Option<Seq<char>>,
}

impl View for EmptyDirVolumeSource {
    type V = EmptyDirVolumeSourceView;

    open spec fn view(&self) -> EmptyDirVolumeSourceView {
        EmptyDirVolumeSourceView {
            medium: opt_str_view(self.medium),
            size_limit: opt_str_view(self.size_limit),
        }
    }
}

impl EmptyDirVolumeSourceView {
    /// The volume on the node's default medium, without a size limit.
    pub open spec fn unset() -> EmptyDirVolumeSourceView {
        EmptyDirVolumeSourceView { medium: None, size_limit: None }
    }
}

/// Ephemeral storage of ensemble members.
#[derive(Clone, Debug, PartialEq, Eq)]
pub struct Ephemeral {
    pub emptydirvolumesource: Option<EmptyDirVolumeSource>,
}

/// Mathematical value of an [`Ephemeral`].
pub struct EphemeralView {
    pub emptydirvolumesource: Option<EmptyDirVolumeSourceView>,
}

impl View for Ephemeral {
    type V = EphemeralView;

    open spec fn view(&self) -> EphemeralView {
        EphemeralView {
            emptydirvolumesource: match self.emptydirvolumesource {
                Some(source) => Some(source@),
                None => None,
            },
        }
    }
}

impl EphemeralView {
    /// Ephemeral storage with no volume source stated.
    pub open spec fn unset() -> EphemeralView {
        EphemeralView { emptydirvolumesource: None }
    }

    /// The storage with a volume source: the stated one, or the default volume.
    pub open spec fn defaulted(self) -> EphemeralView {
        EphemeralView {
            emptydirvolumesource: match self.emptydirvolumesource {
                Some(_) => self.emptydirvolumesource,
                None => Some(EmptyDirVolumeSourceView::unset()),
            },
        }
    }

    /// Whether a volume source is stated.
    pub open spec fn is_complete(self) -> bool {
        self.emptydirvolumesource is Some
    }
}

impl Ephemeral {
    /// Ephemeral storage with no volume source stated.
    pub fn new() -> (ephemeral: Ephemeral)
        ensures
            ephemeral@ == EphemeralView::unset(),
    {
        Ephemeral { emptydirvolumesource: None }
    }

    /// Gives the storage the default volume source if it states none, and says whether it
    /// stated none.
    pub fn with_defaults(&mut self) -> (changed: bool)
        ensures
            final(self)@ == old(self)@.defaulted(),
            changed == !old(self)@.is_complete(),
            final(self)@.is_complete(),
    {
        if self.emptydirvolumesource.is_none() {
            self.emptydirvolumesource = Some(
                EmptyDirVolumeSource { medium: None, size_limit: None },
            );
            true
        } else {
            false
        }
    }
}

} // verus!
