//! Conditions of a cluster: what is known of its readiness, its upgrade and its errors.

use vstd::prelude::*;

verus! {

/// What a condition is about.
#[derive(Clone, Copy, Debug, PartialEq, Eq, Structural)]
pub enum ClusterConditionType {
    PodsReady,
    Upgrading,
    Error,
}

/// Whether a condition holds.
#[derive(Clone, Copy, Debug, PartialEq, Eq, Structural)]
pub enum ConditionStatus {
    True,
    False,
    Unknown,
}

impl ConditionStatus {
    /// The status as it is written in a status document.
    pub open spec fn text(self) -> Seq<char> {
        match self {
            ConditionStatus::True => "True"@,
            ConditionStatus::False => "False"@,
            ConditionStatus::Unknown => "Unknown"@,
        }
    }

    /// The status as it is written in a status document.
    pub fn as_str(&self) -> (text: &'static str)
        ensures
            text@ == self.text(),
    {
        match self {
            ConditionStatus::True => "True",
            ConditionStatus::False => "False",
            ConditionStatus::Unknown => "Unknown",
        }
    }

    /// The status that `text` stands for in a status document. A text that is neither
    /// `True` nor `False` stands for an unknown status.
    pub open spec fn of_text(text: Seq<char>) -> ConditionStatus {
        if text == "True"@ {
            ConditionStatus::True
        } else if text == "False"@ {
            ConditionStatus::False
        } else {
            ConditionStatus::Unknown
        }
    }

    /// Reading what was written gives the status back.
    pub proof fn lemma_text_is_read_back(self)
        ensures
            ConditionStatus::of_text(self.text()) == self,
    {
        reveal_strlit("True");
        reveal_strlit("False");
        reveal_strlit("Unknown");
        assert("True"@.len() == 4 && "False"@.len() == 5 && "Unknown"@.len() == 7);
    }

    /// The status that `text` stands for in a status document.
    pub fn from_text(text: &str) -> (status: ConditionStatus)
        ensures
            status == ConditionStatus::of_text(text@),
    {
        let word = text.to_owned();
        if word == "True".to_owned() {
            ConditionStatus::True
        } else if word == "False".to_owned() {
            ConditionStatus::False
        } else {
            ConditionStatus::Unknown
        }
    }

    /// The status that holds when `holds` is true, and its contrary.
    pub fn of(holds: bool) -> (status: ConditionStatus)
        ensures
            status == (if holds {
                ConditionStatus::True
            } else {
                ConditionStatus::False
            }),
    {
        if holds {
            ConditionStatus::True
        } else {
            ConditionStatus::False
        }
    }
}

/// One condition of a cluster.
#[derive(Clone, Debug, PartialEq, Eq)]
pub struct ClusterCondition {
    pub condition_type: ClusterConditionType,
    pub status: ConditionStatus,
    pub reason: String,
    pub message: String,
    /// When status, reason or message last changed.
    pub last_update_time: String,
    /// When the status last changed.
    pub last_transition_time: String,
}

/// Mathematical value of a [`ClusterCondition`].
pub struct ClusterConditionView {
    pub condition_type: ClusterConditionType,
    pub status: ConditionStatus,
    pub reason: Seq<char>,
    pub message: Seq<char>,
    pub last_update_time: Seq<char>,
    pub last_transition_time: Seq<char>,
}

impl View for ClusterCondition {
    type V = ClusterConditionView;

    open spec fn view(&self) -> ClusterConditionView {
        ClusterConditionView {
            condition_type: self.condition_type,
            status: self.status,
            reason: self.reason@,
            message: self.message@,
            last_update_time: self.last_update_time@,
            last_transition_time: self.last_transition_time@,
        }
    }
}

impl ClusterCondition {
    /// Whether two conditions say the same and carry the same times.
    pub fn same_as(&self, other: &ClusterCondition) -> (same: bool)
        ensures
            same == (self@ == other@),
    {
        self.condition_type == other.condition_type && self.status == other.status && self.reason
            == other.reason && self.message == other.message && self.last_update_time
            == other.last_update_time && self.last_transition_time == other.last_transition_time
    }
}

/// What is newly known of a condition: its status and why.
pub struct ConditionReport {
    pub condition_type: ClusterConditionType,
    pub status: ConditionStatus,
    pub reason: Seq<char>,
    pub message: Seq<char>,
}

impl ClusterConditionView {
    /// Whether the condition says what `report` says.
    pub open spec fn says(self, report: ConditionReport) -> bool {
        &&& self.condition_type == report.condition_type
        &&& self.status == report.status
        &&& self.reason == report.reason
        &&& self.message == report.message
    }

    /// The condition after `report` came in at the time `now`.
    ///
    /// A report that says nothing new leaves the condition untouched. Otherwise the
    /// condition takes over the report and is updated at `now`; its transition time moves
    /// to `now` only if the status changed.
    pub open spec fn updated(self, report: ConditionReport, now: Seq<char>) -> ClusterConditionView {
        if self.says(report) {
            self
        } else {
            ClusterConditionView {
                condition_type: report.condition_type,
                status: report.status,
                reason: report.reason,
                message: report.message,
                last_update_time: now,
                last_transition_time: if self.status == report.status {
                    self.last_transition_time
                } else {
                    now
                },
            }
        }
    }

    /// The condition that `report` opens at the time `now`.
    pub open spec fn opened(report: ConditionReport, now: Seq<char>) -> ClusterConditionView {
        ClusterConditionView {
            condition_type: report.condition_type,
            status: report.status,
            reason: report.reason,
            message: report.message,
            last_update_time: now,
            last_transition_time: now,
        }
    }
}

/// The values of a list of conditions, in order.
pub open spec fn conditions_view(conditions: Seq<ClusterCondition>) -> Seq<ClusterConditionView> {
    conditions.map_values(|c: ClusterCondition| c@)
}

/// Index of the first condition of the type `kind`, or the number of conditions if there
/// is none.
pub open spec fn position_of(conditions: Seq<ClusterConditionView>, kind: ClusterConditionType) -> int
    decreases conditions.len(),
{
    if conditions.len() == 0 {
        0
    } else if conditions[0].condition_type == kind {
        0
    } else {
        1 + position_of(conditions.skip(1), kind)
    }
}

/// Whether no two conditions have the same type.
pub open spec fn one_per_type(conditions: Seq<ClusterConditionView>) -> bool {
    forall|i: int, j: int|
        0 <= i < j < conditions.len() ==> (#[trigger] conditions[i]).condition_type
            != (#[trigger] conditions[j]).condition_type
}

/// The conditions after `report` came in at the time `now`: the condition of the report's
/// type is updated at its place, or opened at the end if there was none.
pub open spec fn with_report(
    conditions: Seq<ClusterConditionView>,
    report: ConditionReport,
    now: Seq<char>,
) -> Seq<ClusterConditionView> {
    let at = position_of(conditions, report.condition_type);
    if 0 <= at < conditions.len() {
        conditions.update(at, conditions[at].updated(report, now))
    } else {
        conditions.push(ClusterConditionView::opened(report, now))
    }
}

/// The first condition of a type lies in the list or just behind it, and no condition
/// before it has the type.
pub proof fn lemma_position_of(conditions: Seq<ClusterConditionView>, kind: ClusterConditionType)
    ensures
        0 <= position_of(conditions, kind) <= conditions.len(),
        position_of(conditions, kind) < conditions.len() ==> conditions[position_of(
            conditions,
            kind,
        )].condition_type == kind,
        forall|i: int|
            0 <= i < position_of(conditions, kind) ==> (#[trigger] conditions[i]).condition_type
                != kind,
    decreases conditions.len(),
{
    if conditions.len() > 0 && conditions[0].condition_type != kind {
        lemma_position_of(conditions.skip(1), kind);
        assert forall|i: int| 0 <= i < position_of(conditions, kind) implies (
        #[trigger] conditions[i]).condition_type != kind by {
            if i > 0 {
                assert(conditions.skip(1)[i - 1] == conditions[i]);
            }
        }
    }
}

/// A report keeps the list at one condition for each type, and leaves the conditions of
/// the other types as they are.
pub proof fn lemma_report_keeps_one_per_type(
    conditions: Seq<ClusterConditionView>,
    report: ConditionReport,
    now: Seq<char>,
)
    requires
        one_per_type(conditions),
    ensures
        one_per_type(with_report(conditions, report, now)),
        forall|i: int|
            0 <= i < conditions.len() && (#[trigger] conditions[i]).condition_type
                != report.condition_type ==> with_report(conditions, report, now)[i]
                == conditions[i],
{
    lemma_position_of(conditions, report.condition_type);
}

/// The condition of a type is found at the same place in a list that differs from
/// another only behind that place, or only in conditions of other types.
proof fn lemma_position_of_agrees(
    before: Seq<ClusterConditionView>,
    after: Seq<ClusterConditionView>,
    kind: ClusterConditionType,
)
    requires
        before.len() <= after.len(),
        forall|i: int|
            0 <= i < before.len() ==> ((#[trigger] before[i]).condition_type == kind
                <==> after[i].condition_type == kind),
        forall|i: int|
            before.len() <= i < after.len() ==> (#[trigger] after[i]).condition_type != kind
                || position_of(before, kind) >= before.len(),
    ensures
        position_of(before, kind) < before.len() ==> position_of(after, kind) == position_of(
            before,
            kind,
        ),
        position_of(before, kind) >= before.len() ==> position_of(after, kind) >= before.len(),
    decreases before.len(),
{
    lemma_position_of(before, kind);
    lemma_position_of(after, kind);
    if before.len() > 0 {
        if before[0].condition_type != kind {
            assert forall|i: int| 0 <= i < before.skip(1).len() implies ((
            #[trigger] before.skip(1)[i]).condition_type == kind <==> after.skip(
                1,
            )[i].condition_type == kind) by {
                assert(before.skip(1)[i] == before[i + 1]);
                assert(after.skip(1)[i] == after[i + 1]);
            }
            assert forall|i: int| before.skip(1).len() <= i < after.skip(1).len() implies (
            #[trigger] after.skip(1)[i]).condition_type != kind || position_of(
                before.skip(1),
                kind,
            ) >= before.skip(1).len() by {
                assert(after.skip(1)[i] == after[i + 1]);
            }
            lemma_position_of_agrees(before.skip(1), after.skip(1), kind);
        }
    }
}

/// After a report the list holds a condition of the report's type that says what the
/// report says, and the condition of every other type is the one that was there.
pub proof fn lemma_report_is_recorded(
    conditions: Seq<ClusterConditionView>,
    report: ConditionReport,
    now: Seq<char>,
    other: ClusterConditionType,
)
    ensures
        ({
            let after = with_report(conditions, report, now);
            let at = position_of(after, report.condition_type);
            &&& 0 <= at < after.len()
            &&& after[at].says(report)
            &&& other != report.condition_type && position_of(conditions, other)
                < conditions.len() ==> position_of(after, other) == position_of(conditions, other)
                && after[position_of(after, other)] == conditions[position_of(conditions, other)]
            &&& other != report.condition_type && position_of(conditions, other)
                >= conditions.len() ==> position_of(after, other) >= after.len()
        }),
{
    let after = with_report(conditions, report, now);
    lemma_position_of(conditions, report.condition_type);
    lemma_position_of(conditions, other);
    lemma_position_of(after, report.condition_type);
    lemma_position_of(after, other);
    lemma_position_of_agrees(conditions, after, report.condition_type);
    let at = position_of(conditions, report.condition_type);
    if at >= conditions.len() {
        assert(after[conditions.len() as int].condition_type == report.condition_type);
    } else {
        assert(after[at].says(report));
    }
    if other != report.condition_type {
        lemma_position_of_agrees(conditions, after, other);
        if position_of(conditions, other) < conditions.len() {
            assert(after[position_of(conditions, other)] == conditions[position_of(
                conditions,
                other,
            )]);
        } else if at >= conditions.len() {
            assert(after[conditions.len() as int].condition_type != other);
        }
    }
}

/// The conditions of a cluster, in the order in which they were opened, with at most one
/// condition for each type.
#[derive(Debug, PartialEq, Eq)]
pub struct ConditionList {
    entries: Vec<ClusterCondition>,
}

impl View for ConditionList {
    type V = Seq<ClusterConditionView>;

    closed spec fn view(&self) -> Seq<ClusterConditionView> {
        conditions_view(self.entries@)
    }
}

impl ConditionList {
    #[verifier::type_invariant]
    closed spec fn typed_once(&self) -> bool {
        one_per_type(self@)
    }

    /// A list without conditions.
    pub fn new() -> (list: ConditionList)
        ensures
            list@ == Seq::<ClusterConditionView>::empty(),
    {
        let list = ConditionList { entries: Vec::new() };
        assert(list@ =~= Seq::<ClusterConditionView>::empty());
        list
    }

    /// Number of conditions.
    pub fn len(&self) -> (n: usize)
        ensures
            n == self@.len(),
            one_per_type(self@),
    {
        proof {
            use_type_invariant(self);
        }
        self.entries.len()
    }

    /// The condition at `index`, in the order in which the conditions were opened.
    pub fn at(&self, index: usize) -> (condition: &ClusterCondition)
        requires
            index < self@.len(),
        ensures
            condition@ == self@[index as int],
    {
        &self.entries[index]
    }

    /// Index of the condition of the type `kind`, or the number of conditions if there
    /// is none.
    fn find(&self, kind: ClusterConditionType) -> (at: usize)
        ensures
            at == position_of(self@, kind),
            at <= self@.len(),
    {
        let mut i: usize = 0;
        assert(self@.skip(0) =~= self@);
        while i < self.entries.len()
            invariant
                i <= self.entries.len(),
                position_of(self@, kind) == i + position_of(self@.skip(i as int), kind),
            decreases self.entries.len() - i,
        {
            if self.entries[i].condition_type == kind {
                return i;
            }
            assert(self@.skip(i as int).skip(1) =~= self@.skip(i + 1));
            i += 1;
        }
        i
    }

    /// The condition of the type `kind`, if one was opened.
    pub fn get(&self, kind: ClusterConditionType) -> (condition: Option<&ClusterCondition>)
        ensures
            match condition {
                Some(c) => position_of(self@, kind) < self@.len() && c@ == self@[position_of(
                    self@,
                    kind,
                )],
                None => position_of(self@, kind) >= self@.len(),
            },
    {
        let at = self.find(kind);
        if at < self.entries.len() {
            Some(&self.entries[at])
        } else {
            None
        }
    }

    /// Whether the condition of the type `kind` was opened and has the status `status`.
    pub fn has_status(&self, kind: ClusterConditionType, status: ConditionStatus) -> (holds: bool)
        ensures
            holds == (position_of(self@, kind) < self@.len() && self@[position_of(
                self@,
                kind,
            )].status == status),
    {
        match self.get(kind) {
            Some(condition) => condition.status == status,
            None => false,
        }
    }

    /// Puts `condition` at the end of the list as it is, times included, unless the list
    /// has a condition of its type already. Says whether it was put there.
    pub fn restore(&mut self, condition: ClusterCondition) -> (added: bool)
        ensures
            added == (position_of(old(self)@, condition.condition_type) >= old(self)@.len()),
            added ==> final(self)@ == old(self)@.push(condition@),
            !added ==> final(self)@ == old(self)@,
            one_per_type(final(self)@),
    {
        proof {
            use_type_invariant(&*self);
            lemma_position_of(self@, condition.condition_type);
        }
        let at = self.find(condition.condition_type);
        if at < self.entries.len() {
            return false;
        }
        let mut taken = ConditionList::new();
        std::mem::swap(self, &mut taken);
        let ConditionList { mut entries } = taken;
        entries.push(condition);
        assert(conditions_view(entries@) =~= old(self)@.push(condition@));
        *self = ConditionList { entries };
        true
    }

    /// Takes note that the condition `kind` has the status `status`, for the given reason,
    /// at the time `now`.
    ///
    /// A condition of that type is updated at its place: untouched if nothing is new, and
    /// with a new transition time only if its status changed. If there is none, one is
    /// opened at the end of the list.
    pub fn set(
        &mut self,
        kind: ClusterConditionType,
        status: ConditionStatus,
        reason: &str,
        message: &str,
        now: &str,
    )
        ensures
            final(self)@ == with_report(
                old(self)@,
                ConditionReport { condition_type: kind, status, reason: reason@, message: message@ },
                now@,
            ),
            one_per_type(final(self)@),
    {
        let ghost report = ConditionReport {
            condition_type: kind,
            status,
            reason: reason@,
            message: message@,
        };
        proof {
            use_type_invariant(&*self);
            lemma_report_keeps_one_per_type(self@, report, now@);
        }
        let at = self.find(kind);
        let mut taken = ConditionList::new();
        std::mem::swap(self, &mut taken);
        let ConditionList { mut entries } = taken;
        if at < entries.len() {
            let reason_text = reason.to_owned();
            let message_text = message.to_owned();
            let current = &entries[at];
            let same_status = current.status == status;
            let same = same_status && current.reason == reason_text && current.message
                == message_text;
            if !same {
                let last_transition_time = if same_status {
                    current.last_transition_time.clone()
                } else {
                    now.to_owned()
                };
                let updated = ClusterCondition {
                    condition_type: kind,
                    status,
                    reason: reason_text,
                    message: message_text,
                    last_update_time: now.to_owned(),
                    last_transition_time,
                };
                entries.set(at, updated);
            }
            assert(conditions_view(entries@) =~= with_report(old(self)@, report, now@));
        } else {
            entries.push(
                ClusterCondition {
                    condition_type: kind,
                    status,
                    reason: reason.to_owned(),
                    message: message.to_owned(),
                    last_update_time: now.to_owned(),
                    last_transition_time: now.to_owned(),
                },
            );
            assert(conditions_view(entries@) =~= with_report(old(self)@, report, now@));
        }
        *self = ConditionList { entries };
    }
}

impl ConditionList {
    /// Whether two lists hold the same conditions in the same order.
    pub fn same_as(&self, other: &ConditionList) -> (same: bool)
        ensures
            same == (self@ == other@),
    {
        if self.entries.len() != other.entries.len() {
            assert(self@.len() != other@.len());
            return false;
        }
        let mut i: usize = 0;
        while i < self.entries.len()
            invariant
                i <= self.entries.len(),
                self.entries.len() == other.entries.len(),
                forall|j: int| 0 <= j < i ==> (#[trigger] self.entries[j])@ == other.entries[j]@,
            decreases self.entries.len() - i,
        {
            if !self.entries[i].same_as(&other.entries[i]) {
                assert(self@[i as int] != other@[i as int]);
                return false;
            }
            i += 1;
        }
        assert(self@ =~= other@);
        true
    }
}

impl Clone for ConditionList {
    /// The same conditions.
    fn clone(&self) -> (copy: ConditionList)
        ensures
            copy@ == self@,
    {
        proof {
            use_type_invariant(self);
        }
        let mut entries: Vec<ClusterCondition> = Vec::new();
        let mut i: usize = 0;
        while i < self.entries.len()
            invariant
                i <= self.entries.len(),
                entries.len() == i,
                forall|j: int| 0 <= j < i ==> (#[trigger] entries[j])@ == self.entries[j]@,
            decreases self.entries.len() - i,
        {
            let c = &self.entries[i];
            entries.push(
                ClusterCondition {
                    condition_type: c.condition_type,
                    status: c.status,
                    reason: c.reason.clone(),
                    message: c.message.clone(),
                    last_update_time: c.last_update_time.clone(),
                    last_transition_time: c.last_transition_time.clone(),
                },
            );
            i += 1;
        }
        assert(conditions_view(entries@) =~= self@);
        ConditionList { entries }
    }
}

} // verus!
