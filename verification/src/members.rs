//! Membership of the ensemble as observed: which members are ready and which are not.

use vstd::prelude::*;
use crate::text::{clone_strs, contains_str, opt_str_view, same_strs, strs_view};

verus! {

/// What was observed of one member of the ensemble.
#[derive(Clone, Debug, PartialEq, Eq)]
pub struct MemberObservation {
    /// The member's identifier.
    pub name: String,
    /// Whether the member reports that it is ready.
    pub ready: bool,
    /// The image tag that the member runs, where it is known.
    pub version: Option<String>,
}

/// Mathematical value of a [`MemberObservation`].
pub struct MemberObservationView {
    pub name: Seq<char>,
    pub ready: bool,
    pub version: Option<Seq<char>>,
}

impl View for MemberObservation {
    type V = MemberObservationView;

    open spec fn view(&self) -> MemberObservationView {
        MemberObservationView {
            name: self.name@,
            ready: self.ready,
            version: opt_str_view(self.version),
        }
    }
}

/// Status with which a pod says that one of its conditions holds.
pub const POD_CONDITION_TRUE: &'static str = "True";

/// Whether a pod whose conditions have these statuses is ready: each of them holds.
pub open spec fn all_hold(statuses: Seq<Seq<char>>) -> bool {
    forall|i: int| 0 <= i < statuses.len() ==> #[trigger] statuses[i] == POD_CONDITION_TRUE@
}

/// Whether a pod whose conditions have these statuses is ready.
pub fn pod_is_ready(statuses: &Vec<String>) -> (ready: bool)
    ensures
        ready == all_hold(strs_view(statuses@)),
{
    let wanted = POD_CONDITION_TRUE.to_owned();
    let mut i: usize = 0;
    while i < statuses.len()
        invariant
            i <= statuses.len(),
            wanted@ == POD_CONDITION_TRUE@,
            forall|j: int| 0 <= j < i ==> #[trigger] strs_view(statuses@)[j] == POD_CONDITION_TRUE@,
        decreases statuses.len() - i,
    {
        if statuses[i] != wanted {
            assert(strs_view(statuses@)[i as int] != POD_CONDITION_TRUE@);
            return false;
        }
        i += 1;
    }
    true
}

/// The values of a list of observations, in order.
pub open spec fn observations_view(obs: Seq<MemberObservation>) -> Seq<MemberObservationView> {
    obs.map_values(|o: MemberObservation| o@)
}

/// Whether a member called `name` is among the observations.
pub open spec fn is_observed(obs: Seq<MemberObservationView>, name: Seq<char>) -> bool {
    exists|i: int| 0 <= i < obs.len() && (#[trigger] obs[i]).name == name
}

/// The members of the given readiness, in the order in which they were observed. Where
/// a member was observed more than once, its first observation counts.
pub open spec fn members_where(obs: Seq<MemberObservationView>, ready: bool) -> Seq<Seq<char>>
    decreases obs.len(),
{
    if obs.len() == 0 {
        Seq::empty()
    } else {
        let before = members_where(obs.drop_last(), ready);
        let seen = obs.last();
        if seen.ready == ready && !is_observed(obs.drop_last(), seen.name) {
            before.push(seen.name)
        } else {
            before
        }
    }
}

/// The members that are ready.
pub open spec fn ready_members(obs: Seq<MemberObservationView>) -> Seq<Seq<char>> {
    members_where(obs, true)
}

/// The members that are not ready.
pub open spec fn unready_members(obs: Seq<MemberObservationView>) -> Seq<Seq<char>> {
    members_where(obs, false)
}

/// Every member that was observed is either ready or not, and no other name is listed.
pub proof fn lemma_observed_iff_listed(obs: Seq<MemberObservationView>, name: Seq<char>)
    ensures
        is_observed(obs, name) <==> ready_members(obs).contains(name) || unready_members(
            obs,
        ).contains(name),
    decreases obs.len(),
{
    if obs.len() > 0 {
        let init = obs.drop_last();
        let seen = obs.last();
        lemma_observed_iff_listed(init, name);
        lemma_observed_iff_listed(init, seen.name);
        let r0 = ready_members(init);
        let u0 = unready_members(init);
        let r = ready_members(obs);
        let u = unready_members(obs);
        if is_observed(obs, name) {
            let i = choose|i: int| 0 <= i < obs.len() && (#[trigger] obs[i]).name == name;
            if i < init.len() {
                assert(init[i].name == name);
                assert(is_observed(init, name));
            } else {
                assert(name == seen.name);
            }
            if is_observed(init, name) {
                if r0.contains(name) {
                    let k = choose|k: int| 0 <= k < r0.len() && r0[k] == name;
                    assert(r[k] == name);
                } else {
                    let k = choose|k: int| 0 <= k < u0.len() && u0[k] == name;
                    assert(u[k] == name);
                }
            } else {
                if seen.ready {
                    assert(r[r0.len() as int] == name);
                } else {
                    assert(u[u0.len() as int] == name);
                }
            }
        }
        if r.contains(name) {
            let k = choose|k: int| 0 <= k < r.len() && r[k] == name;
            if k < r0.len() {
                assert(r0[k] == name);
                assert(r0.contains(name));
                let i = choose|i: int| 0 <= i < init.len() && (#[trigger] init[i]).name == name;
                assert(obs[i].name == name);
            } else {
                assert(obs[obs.len() - 1].name == name);
            }
        }
        if u.contains(name) {
            let k = choose|k: int| 0 <= k < u.len() && u[k] == name;
            if k < u0.len() {
                assert(u0[k] == name);
                assert(u0.contains(name));
                let i = choose|i: int| 0 <= i < init.len() && (#[trigger] init[i]).name == name;
                assert(obs[i].name == name);
            } else {
                assert(obs[obs.len() - 1].name == name);
            }
        }
    }
}

/// No member is listed twice: neither among the ready, nor among the unready, nor in
/// both lists.
pub proof fn lemma_members_are_distinct(obs: Seq<MemberObservationView>)
    ensures
        ready_members(obs).no_duplicates(),
        unready_members(obs).no_duplicates(),
        forall|name: Seq<char>|
            !(ready_members(obs).contains(name) && unready_members(obs).contains(name)),
        ready_members(obs).len() + unready_members(obs).len() <= obs.len(),
    decreases obs.len(),
{
    if obs.len() > 0 {
        let init = obs.drop_last();
        let seen = obs.last();
        lemma_members_are_distinct(init);
        lemma_observed_iff_listed(init, seen.name);
        let r0 = ready_members(init);
        let u0 = unready_members(init);
        let r = ready_members(obs);
        let u = unready_members(obs);
        assert forall|name: Seq<char>| !(r.contains(name) && u.contains(name)) by {
            if r.contains(name) && u.contains(name) {
                let a = choose|a: int| 0 <= a < r.len() && r[a] == name;
                let b = choose|b: int| 0 <= b < u.len() && u[b] == name;
                if a < r0.len() {
                    assert(r0[a] == name);
                }
                if b < u0.len() {
                    assert(u0[b] == name);
                }
                assert(r0.contains(name) || u0.contains(name));
                assert(!(r0.contains(name) && u0.contains(name)));
            }
        }
        assert forall|i: int, j: int| 0 <= i < r.len() && 0 <= j < r.len() && i != j implies r[i]
            != r[j] by {
            if i < r0.len() {
                assert(r0[i] == r[i]);
            }
            if j < r0.len() {
                assert(r0[j] == r[j]);
            }
        }
        assert forall|i: int, j: int| 0 <= i < u.len() && 0 <= j < u.len() && i != j implies u[i]
            != u[j] by {
            if i < u0.len() {
                assert(u0[i] == u[i]);
            }
            if j < u0.len() {
                assert(u0[j] == u[j]);
            }
        }
    }
}

/// The ready and the unready members of the ensemble. No member is listed twice.
#[derive(Debug, PartialEq, Eq)]
pub struct MembersStatus {
    ready: Vec<String>,
    unready: Vec<String>,
}

/// Mathematical value of a [`MembersStatus`].
pub struct MembersStatusView {
    pub ready: Seq<Seq<char>>,
    pub unready: Seq<Seq<char>>,
}

impl MembersStatusView {
    /// Whether no member is listed twice.
    pub open spec fn is_distinct(self) -> bool {
        &&& self.ready.no_duplicates()
        &&& self.unready.no_duplicates()
        &&& forall|name: Seq<char>| !(self.ready.contains(name) && self.unready.contains(name))
    }

    /// The membership that a list of observations shows.
    pub open spec fn observed(obs: Seq<MemberObservationView>) -> MembersStatusView {
        MembersStatusView { ready: ready_members(obs), unready: unready_members(obs) }
    }
}

impl View for MembersStatus {
    type V = MembersStatusView;

    closed spec fn view(&self) -> MembersStatusView {
        MembersStatusView { ready: strs_view(self.ready@), unready: strs_view(self.unready@) }
    }
}

/// The number `n` as a count of members, as near as 32 bits can hold it.
pub open spec fn member_count(n: nat) -> i32 {
    if n > i32::MAX {
        i32::MAX
    } else {
        n as i32
    }
}

impl MembersStatus {
    #[verifier::type_invariant]
    closed spec fn listed_once(&self) -> bool {
        self@.is_distinct()
    }

    /// A membership without members.
    pub fn new() -> (members: MembersStatus)
        ensures
            members@ == MembersStatusView::observed(Seq::empty()),
            members@.is_distinct(),
    {
        let members = MembersStatus { ready: Vec::new(), unready: Vec::new() };
        assert(members@.ready =~= Seq::<Seq<char>>::empty());
        assert(members@.unready =~= Seq::<Seq<char>>::empty());
        members
    }

    /// The membership that `observations` show: each member once, under its first
    /// observation, in the order of the observations.
    pub fn from_observations(observations: &Vec<MemberObservation>) -> (members: MembersStatus)
        ensures
            members@ == MembersStatusView::observed(observations_view(observations@)),
            members@.is_distinct(),
    {
        let ghost obs = observations_view(observations@);
        let mut ready: Vec<String> = Vec::new();
        let mut unready: Vec<String> = Vec::new();
        let mut i: usize = 0;
        assert(strs_view(ready@) =~= ready_members(obs.take(0)));
        assert(strs_view(unready@) =~= unready_members(obs.take(0)));
        while i < observations.len()
            invariant
                i <= observations.len(),
                obs == observations_view(observations@),
                strs_view(ready@) == ready_members(obs.take(i as int)),
                strs_view(unready@) == unready_members(obs.take(i as int)),
            decreases observations.len() - i,
        {
            let seen = &observations[i];
            proof {
                lemma_observed_iff_listed(obs.take(i as int), seen.name@);
                assert(obs.take(i + 1).drop_last() =~= obs.take(i as int));
                assert(obs.take(i + 1).last() == seen@);
            }
            let known = contains_str(&ready, &seen.name) || contains_str(&unready, &seen.name);
            if !known {
                if seen.ready {
                    ready.push(seen.name.clone());
                    assert(strs_view(ready@) =~= ready_members(obs.take(i as int)).push(seen.name@));
                } else {
                    unready.push(seen.name.clone());
                    assert(strs_view(unready@) =~= unready_members(obs.take(i as int)).push(
                        seen.name@,
                    ));
                }
            }
            i += 1;
        }
        proof {
            assert(obs.take(i as int) =~= obs);
            lemma_members_are_distinct(obs);
        }
        MembersStatus { ready, unready }
    }

    /// The members that are ready.
    pub fn ready(&self) -> (names: &Vec<String>)
        ensures
            strs_view(names@) == self@.ready,
            self@.is_distinct(),
    {
        proof {
            use_type_invariant(self);
        }
        &self.ready
    }

    /// The members that are not ready.
    pub fn unready(&self) -> (names: &Vec<String>)
        ensures
            strs_view(names@) == self@.unready,
            self@.is_distinct(),
    {
        proof {
            use_type_invariant(self);
        }
        &self.unready
    }

    /// Whether two memberships list the same members in the same order.
    pub fn same_as(&self, other: &MembersStatus) -> (same: bool)
        ensures
            same == (self@ == other@),
    {
        same_strs(&self.ready, &other.ready) && same_strs(&self.unready, &other.unready)
    }

    /// Number of members that are ready.
    pub fn ready_replicas(&self) -> (n: i32)
        ensures
            n == member_count(self@.ready.len()),
            0 <= n <= self@.replicas(),
    {
        count(self.ready.len())
    }

    /// Number of members, ready or not.
    pub fn replicas(&self) -> (n: i32)
        ensures
            n == self@.replicas(),
    {
        let ready = self.ready.len();
        let unready = self.unready.len();
        if unready > usize::MAX - ready {
            i32::MAX
        } else {
            count(ready + unready)
        }
    }
}

impl MembersStatusView {
    /// Number of members, ready or not.
    pub open spec fn replicas(self) -> i32 {
        member_count(self.ready.len() + self.unready.len())
    }

    /// Number of members that are ready.
    pub open spec fn ready_replicas(self) -> i32 {
        member_count(self.ready.len())
    }
}

/// `n` as a count of members.
fn count(n: usize) -> (c: i32)
    ensures
        c == member_count(n as nat),
{
    if n > 0x7fff_ffff {
        i32::MAX
    } else {
        n as i32
    }
}

impl Clone for MembersStatus {
    /// The same membership.
    fn clone(&self) -> (copy: MembersStatus)
        ensures
            copy@ == self@,
    {
        proof {
            use_type_invariant(self);
        }
        let ready = clone_strs(&self.ready);
        let unready = clone_strs(&self.unready);
        MembersStatus { ready, unready }
    }
}

} // verus!
