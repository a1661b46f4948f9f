//! The summary of identity assertions: one entry for each assertion that was
//! met, keyed by its location, in the order in which the assertions were
//! first met.

use crate::error::ErrorKind;
use crate::trust::{same_text, TrustVerifier};
use vstd::prelude::*;

verus! {

/// What a verification strategy ended in for one assertion.
#[derive(Clone, Debug, PartialEq, Eq)]
pub enum Finding {
    /// The credential was verified; the text describes the named actor.
    Verified(String),
    /// The credential was refused, for this reason.
    Failed(String),
    /// The strategy could not decide, for this reason.
    Indeterminate(String),
    /// The strategy did not answer within its time limit.
    TimedOut,
}

/// The reason given for a refusal that came without one.
pub open spec fn spec_unexplained() -> Seq<char> {
    "identity assertion failed validation"@
}

impl Finding {
    /// Takes the answer of a validator that hands back a description of the
    /// named actor where it accepts a credential, and nothing where it
    /// refuses it; `reason` is what it logged for the refusal, if anything.
    pub fn from_answer(actor: Option<String>, reason: Option<String>) -> (finding: Finding)
        ensures
            match (actor, reason) {
                (Some(description), _) => finding == Finding::Verified(description),
                (None, Some(logged)) => finding == Finding::Failed(logged),
                (None, None) => finding matches Finding::Failed(text) && text@
                    == spec_unexplained(),
            },
    {
        match actor {
            Some(description) => Finding::Verified(description),
            None => match reason {
                Some(logged) => Finding::Failed(logged),
                None => Finding::Failed("identity assertion failed validation".to_owned()),
            },
        }
    }
}

/// An identity assertion as it was met in a manifest.
#[derive(Clone, Debug, PartialEq, Eq)]
pub enum Assertion {
    /// The assertion was read: the kind of credential it declares, and what
    /// the strategy for that kind ended in. The finding counts only where a
    /// strategy is registered for the kind.
    Parsed { credential_kind: String, finding: Finding },
    /// The assertion could not be read, so that no strategy was asked.
    Unparsed,
}

/// One visit of an identity assertion: its location in the manifest store,
/// and what was met there.
#[derive(Clone, Debug, PartialEq, Eq)]
pub struct AssertionRecord {
    pub location: String,
    pub assertion: Assertion,
}

/// The verdict on one identity assertion.
#[derive(Clone, Copy, Debug, PartialEq, Eq, Structural)]
pub enum Status {
    Verified,
    Failed,
    Indeterminate,
}

/// The entry of the summary for one identity assertion: where it stands,
/// the verdict on it, and the detail that goes with the verdict.
#[derive(Clone, Debug, PartialEq, Eq)]
pub struct IdentitySummary {
    pub location: String,
    pub status: Status,
    pub detail: String,
}

/// An [`IdentitySummary`] as a plain value.
pub struct SummaryView {
    pub location: Seq<char>,
    pub status: Status,
    pub detail: Seq<char>,
}

impl View for IdentitySummary {
    type V = SummaryView;

    open spec fn view(&self) -> SummaryView {
        SummaryView { location: self.location@, status: self.status, detail: self.detail@ }
    }
}

/// Whether `text` begins with `prefix`.
pub open spec fn spec_starts_with(text: Seq<char>, prefix: Seq<char>) -> bool {
    prefix.len() <= text.len() && text.subrange(0, prefix.len() as int) == prefix
}

/// Whether an assertion with this label is an identity assertion: the label
/// is `cawg.identity`, alone or followed by `__` and the mark of an instance.
pub open spec fn spec_is_identity_label(label: Seq<char>) -> bool {
    label == "cawg.identity"@ || spec_starts_with(label, "cawg.identity__"@)
}

/// The reason given where no registered strategy answers for a kind.
pub open spec fn spec_unsupported_kind() -> Seq<char> {
    "unsupported credential kind"@
}

/// The reason given where a strategy ran out of time.
pub open spec fn spec_timeout() -> Seq<char> {
    "timeout"@
}

/// The reason given where an assertion could not be read.
pub open spec fn spec_unparsed() -> Seq<char> {
    "assertion could not be parsed"@
}

/// The verdict on an assertion and its detail.
///
/// An assertion that could not be read is indeterminate. So is one whose
/// kind no registered strategy answers for, whatever finding came with it.
/// Otherwise the finding of the strategy stands, and a strategy that ran out
/// of time leaves the assertion indeterminate.
pub open spec fn spec_verdict(verifier: TrustVerifier, assertion: Assertion) -> (
    Status,
    Seq<char>,
) {
    match assertion {
        Assertion::Unparsed => (Status::Indeterminate, spec_unparsed()),
        Assertion::Parsed { credential_kind, finding } => {
            if verifier.spec_select(credential_kind@) is None {
                (Status::Indeterminate, spec_unsupported_kind())
            } else {
                match finding {
                    Finding::Verified(actor) => (Status::Verified, actor@),
                    Finding::Failed(reason) => (Status::Failed, reason@),
                    Finding::Indeterminate(reason) => (Status::Indeterminate, reason@),
                    Finding::TimedOut => (Status::Indeterminate, spec_timeout()),
                }
            }
        },
    }
}

/// The entry of the summary for one record.
pub open spec fn spec_summary_of(verifier: TrustVerifier, record: AssertionRecord) -> SummaryView {
    SummaryView {
        location: record.location@,
        status: spec_verdict(verifier, record.assertion).0,
        detail: spec_verdict(verifier, record.assertion).1,
    }
}

/// Whether `location` is that of one of the first `n` records.
pub open spec fn spec_among(records: Seq<AssertionRecord>, n: int, location: Seq<char>) -> bool {
    exists|j: int| 0 <= j < n && (#[trigger] records[j]).location@ == location
}

/// Whether the location of record `i` was met before it. Such a record is a
/// second visit of an assertion that has its entry already.
pub open spec fn spec_met_before(records: Seq<AssertionRecord>, i: int) -> bool {
    spec_among(records, i, records[i].location@)
}

/// The first `n` records without the second visits among them.
pub open spec fn spec_first_visits(records: Seq<AssertionRecord>, n: int) -> Seq<AssertionRecord>
    decreases n,
{
    if n <= 0 {
        Seq::empty()
    } else if spec_met_before(records, n - 1) {
        spec_first_visits(records, n - 1)
    } else {
        spec_first_visits(records, n - 1).push(records[n - 1])
    }
}

/// The summary of a sequence of records: the entry of each record that is
/// the first at its location, in the order of the records.
pub open spec fn spec_summarize(
    verifier: TrustVerifier,
    records: Seq<AssertionRecord>,
) -> Seq<SummaryView> {
    let visits = spec_first_visits(records, records.len() as int);
    Seq::new(visits.len(), |k: int| spec_summary_of(verifier, visits[k]))
}

/// The entries of a summary as plain values.
pub open spec fn spec_views(entries: Seq<IdentitySummary>) -> Seq<SummaryView> {
    Seq::new(entries.len(), |k: int| entries[k]@)
}

impl IdentitySummary {
    /// The category under which this entry counts as a failure: a trust
    /// verification failure unless the assertion was verified.
    pub open spec fn spec_failure(self) -> Option<ErrorKind> {
        if self.status == Status::Verified {
            None
        } else {
            Some(ErrorKind::TrustVerification)
        }
    }

    /// The category under which this entry counts as a failure, if it does.
    /// It is never one that ends the call.
    pub fn failure(&self) -> (kind: Option<ErrorKind>)
        ensures
            kind == self.spec_failure(),
            kind matches Some(k) ==> !k.spec_aborts_call(),
    {
        match self.status {
            Status::Verified => None,
            _ => Some(ErrorKind::TrustVerification),
        }
    }
}

/// Whether `text` begins with `prefix`.
fn starts_with(text: &str, prefix: &str) -> (begins: bool)
    ensures
        begins == spec_starts_with(text@, prefix@),
{
    let n = prefix.unicode_len();
    let m = text.unicode_len();
    if n > m {
        return false;
    }
    let mut k: usize = 0;
    while k < n
        invariant
            k <= n <= m,
            n == prefix@.len(),
            m == text@.len(),
            forall|j: int| 0 <= j < k ==> text@[j] == prefix@[j],
        decreases n - k,
    {
        if text.get_char(k) != prefix.get_char(k) {
            assert(text@.subrange(0, n as int)[k as int] != prefix@[k as int]);
            return false;
        }
        k += 1;
    }
    assert(text@.subrange(0, n as int) =~= prefix@);
    true
}

/// Whether an assertion with this label is an identity assertion.
pub fn is_identity_label(label: &str) -> (identity: bool)
    ensures
        identity == spec_is_identity_label(label@),
{
    same_text(label, "cawg.identity") || starts_with(label, "cawg.identity__")
}

/// The entry of the summary for one record.
pub fn summary_of(verifier: &TrustVerifier, record: &AssertionRecord) -> (entry: IdentitySummary)
    ensures
        entry@ == spec_summary_of(*verifier, *record),
{
    let location = record.location.clone();
    match &record.assertion {
        Assertion::Unparsed => IdentitySummary {
            location,
            status: Status::Indeterminate,
            detail: "assertion could not be parsed".to_owned(),
        },
        Assertion::Parsed { credential_kind, finding } => {
            if verifier.select(credential_kind.as_str()).is_none() {
                IdentitySummary {
                    location,
                    status: Status::Indeterminate,
                    detail: "unsupported credential kind".to_owned(),
                }
            } else {
                match finding {
                    Finding::Verified(actor) => IdentitySummary {
                        location,
                        status: Status::Verified,
                        detail: actor.clone(),
                    },
                    Finding::Failed(reason) => IdentitySummary {
                        location,
                        status: Status::Failed,
                        detail: reason.clone(),
                    },
                    Finding::Indeterminate(reason) => IdentitySummary {
                        location,
                        status: Status::Indeterminate,
                        detail: reason.clone(),
                    },
                    Finding::TimedOut => IdentitySummary {
                        location,
                        status: Status::Indeterminate,
                        detail: "timeout".to_owned(),
                    },
                }
            }
        },
    }
}

/// Whether one of the entries stands at `location`.
fn has_entry_at(entries: &Vec<IdentitySummary>, location: &String) -> (found: bool)
    ensures
        found == exists|k: int|
            0 <= k < entries@.len() && (#[trigger] entries@[k]).location@ == location@,
{
    let mut k: usize = 0;
    while k < entries.len()
        invariant
            k <= entries.len(),
            forall|m: int| 0 <= m < k ==> (#[trigger] entries@[m]).location@ != location@,
        decreases entries.len() - k,
    {
        if entries[k].location == *location {
            return true;
        }
        k += 1;
    }
    false
}

/// Summarizes the identity assertions of a manifest store.
///
/// The summary holds one entry for each location, that of the record that
/// came first for it, and the entries follow the order of the records. A
/// record whose location was met before adds nothing: an assertion that was
/// summarized is not summarized again. No record ends the summarization,
/// whatever it holds.
pub fn summarize(verifier: &TrustVerifier, records: &Vec<AssertionRecord>) -> (entries: Vec<
    IdentitySummary,
>)
    ensures
        spec_views(entries@) == spec_summarize(*verifier, records@),
        entries@.len() <= records@.len(),
{
    let mut entries: Vec<IdentitySummary> = Vec::new();
    let mut i: usize = 0;
    while i < records.len()
        invariant
            i <= records.len(),
            entries@.len() == spec_first_visits(records@, i as int).len(),
            entries@.len() <= i,
            forall|k: int|
                0 <= k < entries@.len() ==> (#[trigger] entries@[k])@ == spec_summary_of(
                    *verifier,
                    spec_first_visits(records@, i as int)[k],
                ),
        decreases records.len() - i,
    {
        let ghost visits = spec_first_visits(records@, i as int);
        let found = has_entry_at(&entries, &records[i].location);
        proof {
            let location = records@[i as int].location@;
            lemma_visits_hold_what_was_met(records@, i as int, location);
            if found {
                let k = choose|k: int|
                    0 <= k < entries@.len() && (#[trigger] entries@[k]).location@ == location;
                assert(visits[k].location@ == location);
            }
            if spec_among(visits, visits.len() as int, location) {
                let k = choose|k: int|
                    0 <= k < visits.len() && (#[trigger] visits[k]).location@ == location;
                assert(entries@[k].location@ == location);
            }
            assert(found == spec_met_before(records@, i as int));
        }
        if !found {
            entries.push(summary_of(verifier, &records[i]));
        }
        i += 1;
    }
    assert(spec_views(entries@) =~= spec_summarize(*verifier, records@));
    entries
}

/// The first visits among the first `n` records stand at the locations of
/// those records, and at no others.
proof fn lemma_visits_hold_what_was_met(
    records: Seq<AssertionRecord>,
    n: int,
    location: Seq<char>,
)
    requires
        0 <= n <= records.len(),
    ensures
        spec_among(
            spec_first_visits(records, n),
            spec_first_visits(records, n).len() as int,
            location,
        ) == spec_among(records, n, location),
    decreases n,
{
    if n > 0 {
        let before = spec_first_visits(records, n - 1);
        let visits = spec_first_visits(records, n);
        lemma_visits_hold_what_was_met(records, n - 1, location);
        if spec_among(records, n - 1, location) {
            let j = choose|j: int| 0 <= j < n - 1 && (#[trigger] records[j]).location@ == location;
            assert(0 <= j < n && records[j].location@ == location);
            let k = choose|k: int|
                0 <= k < before.len() && (#[trigger] before[k]).location@ == location;
            assert(0 <= k < visits.len() && visits[k].location@ == location);
        }
        if spec_met_before(records, n - 1) {
            assert(visits == before);
            if spec_among(records, n, location) && !spec_among(records, n - 1, location) {
                let j = choose|j: int| 0 <= j < n && (#[trigger] records[j]).location@ == location;
                assert(j == n - 1);
                let earlier = choose|e: int|
                    0 <= e < n - 1 && (#[trigger] records[e]).location@ == records[n
                        - 1].location@;
                assert(records[earlier].location@ == location);
            }
        } else {
            assert(visits == before.push(records[n - 1]));
            assert(visits[before.len() as int] == records[n - 1]);
            if spec_among(visits, visits.len() as int, location) && !spec_among(
                before,
                before.len() as int,
                location,
            ) {
                let k = choose|k: int|
                    0 <= k < visits.len() && (#[trigger] visits[k]).location@ == location;
                if k < before.len() {
                    assert(before[k].location@ == location);
                }
                assert(records[n - 1].location@ == location);
            }
            if spec_among(records, n, location) && !spec_among(records, n - 1, location) {
                let j = choose|j: int| 0 <= j < n && (#[trigger] records[j]).location@ == location;
                assert(j == n - 1);
                assert(visits[before.len() as int].location@ == location);
            }
        }
    }
}

/// No two of the first visits stand at the same location.
proof fn lemma_visits_differ(records: Seq<AssertionRecord>, n: int, a: int, b: int)
    requires
        0 <= n <= records.len(),
        0 <= a < b < spec_first_visits(records, n).len(),
    ensures
        spec_first_visits(records, n)[a].location@ != spec_first_visits(records, n)[b].location@,
    decreases n,
{
    let before = spec_first_visits(records, n - 1);
    if spec_met_before(records, n - 1) || b < before.len() {
        lemma_visits_differ(records, n - 1, a, b);
    } else {
        let location = records[n - 1].location@;
        lemma_visits_hold_what_was_met(records, n - 1, location);
        assert(before[a].location@ != location);
    }
}

/// A record that is the first at its location is a first visit: it stands
/// among the first visits at the place that the first visits before it leave
/// free.
proof fn lemma_visit_has_its_place(records: Seq<AssertionRecord>, i: int, n: int)
    requires
        0 <= i < n <= records.len(),
        !spec_met_before(records, i),
    ensures
        spec_first_visits(records, i).len() < spec_first_visits(records, n).len(),
        spec_first_visits(records, n)[spec_first_visits(records, i).len() as int] == records[i],
    decreases n,
{
    if n > i + 1 {
        lemma_visit_has_its_place(records, i, n - 1);
    }
}

/// Replacing a record by one at the same location changes nothing about
/// which records are first visits, and changes the first visits at most at
/// the place of that record.
proof fn lemma_visits_after_replacing(
    records: Seq<AssertionRecord>,
    i: int,
    other: AssertionRecord,
    n: int,
)
    requires
        0 <= i < records.len(),
        0 <= n <= records.len(),
        other.location@ == records[i].location@,
    ensures
        spec_first_visits(records.update(i, other), n) == if i < n && !spec_met_before(
            records,
            i,
        ) {
            spec_first_visits(records, n).update(
                spec_first_visits(records, i).len() as int,
                other,
            )
        } else {
            spec_first_visits(records, n)
        },
    decreases n,
{
    let replaced = records.update(i, other);
    if n > 0 {
        lemma_visits_after_replacing(records, i, other, n - 1);
        lemma_same_locations_met(records, i, other, n - 1);
        if i < n && !spec_met_before(records, i) {
            lemma_visit_has_its_place(records, i, n);
            if i < n - 1 {
                lemma_visit_has_its_place(records, i, n - 1);
            }
        }
        assert(spec_first_visits(replaced, n) =~= if i < n && !spec_met_before(records, i) {
            spec_first_visits(records, n).update(
                spec_first_visits(records, i).len() as int,
                other,
            )
        } else {
            spec_first_visits(records, n)
        });
    }
}

/// Replacing a record by one at the same location leaves it as it was
/// whether a location was met before a record.
proof fn lemma_same_locations_met(
    records: Seq<AssertionRecord>,
    i: int,
    other: AssertionRecord,
    m: int,
)
    requires
        0 <= i < records.len(),
        0 <= m < records.len(),
        other.location@ == records[i].location@,
    ensures
        spec_met_before(records.update(i, other), m) == spec_met_before(records, m),
{
    let replaced = records.update(i, other);
    assert(replaced[m].location@ == records[m].location@);
    if spec_met_before(records, m) {
        let j = choose|j: int|
            0 <= j < m && (#[trigger] records[j]).location@ == records[m].location@;
        assert(replaced[j].location@ == records[j].location@);
    }
    if spec_met_before(replaced, m) {
        let j = choose|j: int|
            0 <= j < m && (#[trigger] replaced[j]).location@ == replaced[m].location@;
        assert(records[j].location@ == replaced[j].location@);
    }
}

/// Where there is no identity assertion, the summary is the empty sequence.
pub proof fn lemma_nothing_to_summarize(verifier: TrustVerifier)
    ensures
        spec_summarize(verifier, Seq::<AssertionRecord>::empty()) == Seq::<SummaryView>::empty(),
{
    assert(spec_summarize(verifier, Seq::<AssertionRecord>::empty()) =~= Seq::<
        SummaryView,
    >::empty());
}

/// A summary holds at most one entry for a location: no assertion is
/// summarized twice, however often it was visited.
pub proof fn lemma_one_entry_per_location(
    verifier: TrustVerifier,
    records: Seq<AssertionRecord>,
    a: int,
    b: int,
)
    requires
        0 <= a < spec_summarize(verifier, records).len(),
        0 <= b < spec_summarize(verifier, records).len(),
        a != b,
    ensures
        spec_summarize(verifier, records)[a].location != spec_summarize(
            verifier,
            records,
        )[b].location,
{
    if a < b {
        lemma_visits_differ(records, records.len() as int, a, b);
    } else {
        lemma_visits_differ(records, records.len() as int, b, a);
    }
}

/// Every record has its location in the summary, and every entry of the
/// summary stands at the location of a record.
pub proof fn lemma_summary_covers_the_records(
    verifier: TrustVerifier,
    records: Seq<AssertionRecord>,
    location: Seq<char>,
)
    ensures
        (exists|k: int|
            0 <= k < spec_summarize(verifier, records).len() && (#[trigger] spec_summarize(
                verifier,
                records,
            )[k]).location == location) <==> spec_among(
            records,
            records.len() as int,
            location,
        ),
{
    let n = records.len() as int;
    let visits = spec_first_visits(records, n);
    let summary = spec_summarize(verifier, records);
    lemma_visits_hold_what_was_met(records, n, location);
    if spec_among(visits, visits.len() as int, location) {
        let k = choose|k: int|
            0 <= k < visits.len() && (#[trigger] visits[k]).location@ == location;
        assert(summary[k].location == location);
    }
    if exists|k: int| 0 <= k < summary.len() && (#[trigger] summary[k]).location == location {
        let k = choose|k: int|
            0 <= k < summary.len() && (#[trigger] summary[k]).location == location;
        assert(visits[k].location@ == location);
    }
}

/// The entries follow the order of the records: a record that is the first
/// at its location has its entry at the place that counts the first visits
/// before it, the entry is the one that the record alone decides, and of two
/// such records the earlier has the earlier entry.
pub proof fn lemma_entries_follow_the_records(
    verifier: TrustVerifier,
    records: Seq<AssertionRecord>,
    i: int,
    j: int,
)
    requires
        0 <= i < j < records.len(),
        !spec_met_before(records, i),
        !spec_met_before(records, j),
    ensures
        spec_first_visits(records, i).len() < spec_first_visits(records, j).len()
            < spec_summarize(verifier, records).len(),
        spec_summarize(verifier, records)[spec_first_visits(records, i).len() as int]
            == spec_summary_of(verifier, records[i]),
        spec_summarize(verifier, records)[spec_first_visits(records, j).len() as int]
            == spec_summary_of(verifier, records[j]),
{
    lemma_visit_has_its_place(records, i, j);
    lemma_visit_has_its_place(records, i, records.len() as int);
    lemma_visit_has_its_place(records, j, records.len() as int);
}

/// An assertion whose credential kind has no registered strategy gets
/// exactly one entry, marked indeterminate for an unsupported credential
/// kind, and it does not touch the entries of the other assertions:
/// whatever else is met at its location, they stay as they are.
///
/// The record that stands for the assertion is the first at its location.
pub proof fn lemma_unsupported_kind_is_indeterminate(
    verifier: TrustVerifier,
    records: Seq<AssertionRecord>,
    i: int,
    other: AssertionRecord,
)
    requires
        0 <= i < records.len(),
        !spec_met_before(records, i),
        records[i].assertion matches Assertion::Parsed { credential_kind, .. }
            && verifier.spec_select(credential_kind@) is None,
        other.location@ == records[i].location@,
    ensures
        ({
            let summary = spec_summarize(verifier, records);
            let replaced = spec_summarize(verifier, records.update(i, other));
            let k = spec_first_visits(records, i).len() as int;
            &&& 0 <= k < summary.len()
            &&& summary[k] == (SummaryView {
                location: records[i].location@,
                status: Status::Indeterminate,
                detail: spec_unsupported_kind(),
            })
            &&& forall|m: int|
                0 <= m < summary.len() && m != k ==> (#[trigger] summary[m]).location
                    != records[i].location@
            &&& replaced.len() == summary.len()
            &&& forall|m: int|
                0 <= m < summary.len() && m != k ==> #[trigger] replaced[m] == summary[m]
        }),
{
    let n = records.len() as int;
    let summary = spec_summarize(verifier, records);
    let k = spec_first_visits(records, i).len() as int;
    lemma_visit_has_its_place(records, i, n);
    lemma_visits_after_replacing(records, i, other, n);
    assert forall|m: int| 0 <= m < summary.len() && m != k implies (#[trigger] summary[m]).location
        != records[i].location@ by {
        lemma_one_entry_per_location(verifier, records, m, k);
    }
}

} // verus!
