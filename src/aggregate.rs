//! Issues: the aggregate of all events that share a grouping key within a project.
use vstd::prelude::*;
use crate::text::str_eq;

verus! {

/// Where an issue stands; only a user moves it.
#[derive(Debug, Clone, Copy, PartialEq, Eq, Structural)]
pub enum IssueStatus {
    Unresolved,
    Resolved,
    Ignored,
}

/// An issue. Times are milliseconds since the Unix epoch.
pub struct Issue {
    pub id: String,
    pub project_id: String,
    pub fingerprint: String,
    pub title: String,
    pub status: IssueStatus,
    pub level: String,
    pub first_seen: i64,
    pub last_seen: i64,
    pub count: u64,
    pub user_count: u64,
}

/// An issue's contents as plain values.
pub ghost struct IssueView {
    pub id: Seq<char>,
    pub project_id: Seq<char>,
    pub fingerprint: Seq<char>,
    pub title: Seq<char>,
    pub status: IssueStatus,
    pub level: Seq<char>,
    pub first_seen: i64,
    pub last_seen: i64,
    pub count: u64,
    pub user_count: u64,
}

impl View for Issue {
    type V = IssueView;

    open spec fn view(&self) -> IssueView {
        IssueView {
            id: self.id@,
            project_id: self.project_id@,
            fingerprint: self.fingerprint@,
            title: self.title@,
            status: self.status,
            level: self.level@,
            first_seen: self.first_seen,
            last_seen: self.last_seen,
            count: self.count,
            user_count: self.user_count,
        }
    }
}

impl Issue {
    /// A field-by-field copy.
    pub fn snapshot(&self) -> (r: Issue)
        ensures
            r@ == self@,
    {
        Issue {
            id: self.id.clone(),
            project_id: self.project_id.clone(),
            fingerprint: self.fingerprint.clone(),
            title: self.title.clone(),
            status: self.status,
            level: self.level.clone(),
            first_seen: self.first_seen,
            last_seen: self.last_seen,
            count: self.count,
            user_count: self.user_count,
        }
    }
}

pub open spec fn has_key(i: IssueView, project: Seq<char>, fingerprint: Seq<char>) -> bool {
    i.project_id == project && i.fingerprint == fingerprint
}

/// No two issues share a project and a grouping key.
pub open spec fn keys_unique(s: Seq<IssueView>) -> bool {
    forall|a: int, b: int|
        0 <= a < s.len() && 0 <= b < s.len() && a != b ==> !has_key(s[a], s[b].project_id, s[b].fingerprint)
}

pub open spec fn key_present(s: Seq<IssueView>, project: Seq<char>, fingerprint: Seq<char>) -> bool {
    exists|i: int| 0 <= i < s.len() && #[trigger] has_key(s[i], project, fingerprint)
}

/// One more occurrence at `now`: the count goes up by one (it stops at the largest value)
/// and the issue was last seen now.
pub open spec fn bumped(i: IssueView, now: i64) -> IssueView {
    IssueView {
        count: if i.count < u64::MAX { (i.count + 1) as u64 } else { i.count },
        last_seen: now,
        ..i
    }
}

/// A new unresolved issue seen once, at `now`.
pub open spec fn new_issue(
    id: Seq<char>,
    project: Seq<char>,
    fingerprint: Seq<char>,
    title: Seq<char>,
    level: Seq<char>,
    now: i64,
) -> IssueView {
    IssueView {
        id,
        project_id: project,
        fingerprint,
        title,
        status: IssueStatus::Unresolved,
        level,
        first_seen: now,
        last_seen: now,
        count: 1,
        user_count: 0,
    }
}

/// The issues after one occurrence of the key: the issue of the key counts it, or a new
/// issue is added at the end.
pub open spec fn aggregated(
    s: Seq<IssueView>,
    project: Seq<char>,
    fingerprint: Seq<char>,
    title: Seq<char>,
    level: Seq<char>,
    now: i64,
    id: Seq<char>,
) -> Seq<IssueView> {
    if key_present(s, project, fingerprint) {
        let i = choose|i: int| 0 <= i < s.len() && #[trigger] has_key(s[i], project, fingerprint);
        s.update(i, bumped(s[i], now))
    } else {
        s.push(new_issue(id, project, fingerprint, title, level, now))
    }
}

/// The issue that one occurrence of the key lands on, after counting it.
pub open spec fn landed(
    s: Seq<IssueView>,
    project: Seq<char>,
    fingerprint: Seq<char>,
    title: Seq<char>,
    level: Seq<char>,
    now: i64,
    id: Seq<char>,
) -> IssueView {
    if key_present(s, project, fingerprint) {
        let i = choose|i: int| 0 <= i < s.len() && #[trigger] has_key(s[i], project, fingerprint);
        bumped(s[i], now)
    } else {
        new_issue(id, project, fingerprint, title, level, now)
    }
}

/// Issues keyed by project and grouping key; creating and counting go through `&mut`, so
/// each find-or-create is one indivisible step.
pub struct IssueStore {
    issues: Vec<Issue>,
}

impl IssueStore {
    pub closed spec fn view(&self) -> Seq<IssueView> {
        self.issues@.map_values(|i: Issue| i@)
    }

    pub open spec fn wf(&self) -> bool {
        keys_unique(self.view())
    }

    pub fn new() -> (r: IssueStore)
        ensures
            r.wf(),
            r.view() == Seq::<IssueView>::empty(),
    {
        let r = IssueStore { issues: Vec::new() };
        proof {
            assert(r.view() =~= Seq::<IssueView>::empty());
        }
        r
    }

    pub fn len(&self) -> (r: usize)
        ensures
            r == self.view().len(),
    {
        self.issues.len()
    }

    /// The issue at a position.
    pub fn get(&self, index: usize) -> (r: Issue)
        requires
            index < self.view().len(),
        ensures
            r@ == self.view()[index as int],
    {
        self.issues[index].snapshot()
    }

    /// Moves the issue at `index` to a status, as a user does; nothing else changes.
    pub fn set_status(&mut self, index: usize, status: IssueStatus)
        requires
            old(self).wf(),
            index < old(self).view().len(),
        ensures
            final(self).wf(),
            final(self).view() == old(self).view().update(index as int, IssueView { status, ..old(self).view()[index as int] }),
    {
        let ghost s = self.view();
        assert(keys_unique(s));
        let mut issue = self.issues[index].snapshot();
        issue.status = status;
        self.issues.set(index, issue);
        proof {
            assert(self.view() =~= s.update(index as int, IssueView { status, ..s[index as int] }));
            assert forall|a: int, b: int|
                0 <= a < self.view().len() && 0 <= b < self.view().len() && a != b implies !has_key(
                self.view()[a],
                self.view()[b].project_id,
                self.view()[b].fingerprint,
            ) by {
                assert(!has_key(s[a], s[b].project_id, s[b].fingerprint));
                assert(s[a].project_id == self.view()[a].project_id);
                assert(s[b].project_id == self.view()[b].project_id);
                assert(s[a].fingerprint == self.view()[a].fingerprint);
                assert(s[b].fingerprint == self.view()[b].fingerprint);
            }
        }
    }

    /// Counts one occurrence of the key at `now`: the existing issue's count goes up and it
    /// was last seen now; with no issue for the key, a new one with id `new_id` is made.
    /// Returns the issue as it now stands and whether it is new.
    pub fn find_or_create(
        &mut self,
        project_id: &str,
        fingerprint: &str,
        title: &str,
        level: &str,
        now: i64,
        new_id: &str,
    ) -> (r: (Issue, bool))
        requires
            old(self).wf(),
        ensures
            final(self).wf(),
            r.1 == !key_present(old(self).view(), project_id@, fingerprint@),
            r.0@ == landed(old(self).view(), project_id@, fingerprint@, title@, level@, now, new_id@),
            final(self).view() == aggregated(old(self).view(), project_id@, fingerprint@, title@, level@, now, new_id@),
    {
        let ghost s = self.view();
        assert(keys_unique(s));
        let mut i: usize = 0;
        while i < self.issues.len()
            invariant
                i <= self.issues@.len(),
                self.view() == s,
                s == old(self).view(),
                keys_unique(s),
                s.len() == self.issues@.len(),
                forall|j: int| 0 <= j < i ==> !has_key(#[trigger] s[j], project_id@, fingerprint@),
            decreases self.issues@.len() - i,
        {
            proof {
                assert(s[i as int] == self.issues@[i as int]@);
            }
            if str_eq(self.issues[i].project_id.as_str(), project_id) && str_eq(
                self.issues[i].fingerprint.as_str(),
                fingerprint,
            ) {
                proof {
                    assert(has_key(s[i as int], project_id@, fingerprint@));
                    assert(key_present(s, project_id@, fingerprint@));
                    let c = choose|c: int| 0 <= c < s.len() && #[trigger] has_key(s[c], project_id@, fingerprint@);
                    if c != i {
                        assert(!has_key(s[c], s[i as int].project_id, s[i as int].fingerprint));
                    }
                    assert(c == i);
                }
                let mut issue = self.issues[i].snapshot();
                if issue.count < u64::MAX {
                    issue.count = issue.count + 1;
                }
                issue.last_seen = now;
                let result = issue.snapshot();
                self.issues.set(i, issue);
                proof {
                    assert(s == old(self).view());
                    assert(key_present(old(self).view(), project_id@, fingerprint@));
                    assert(result@ == bumped(s[i as int], now));
                    assert(self.view() =~= s.update(i as int, bumped(s[i as int], now)));
                    assert forall|a: int, b: int|
                        0 <= a < self.view().len() && 0 <= b < self.view().len() && a != b implies !has_key(
                        self.view()[a],
                        self.view()[b].project_id,
                        self.view()[b].fingerprint,
                    ) by {
                        assert(s[a].project_id == self.view()[a].project_id);
                        assert(s[b].project_id == self.view()[b].project_id);
                    }
                }
                return (result, false);
            }
            i += 1;
        }
        let issue = Issue {
            id: new_id.to_string(),
            project_id: project_id.to_string(),
            fingerprint: fingerprint.to_string(),
            title: title.to_string(),
            status: IssueStatus::Unresolved,
            level: level.to_string(),
            first_seen: now,
            last_seen: now,
            count: 1,
            user_count: 0,
        };
        let result = issue.snapshot();
        self.issues.push(issue);
        proof {
            assert(!key_present(s, project_id@, fingerprint@));
            assert(self.view() =~= s.push(new_issue(new_id@, project_id@, fingerprint@, title@, level@, now)));
        }
        (result, true)
    }
}

/// One occurrence to aggregate: its title, level, time and the id a new issue would take.
pub ghost struct Occurrence {
    pub title: Seq<char>,
    pub level: Seq<char>,
    pub now: i64,
    pub id: Seq<char>,
}

/// The issues after the occurrences of one key, in order.
pub open spec fn aggregated_all(
    s: Seq<IssueView>,
    project: Seq<char>,
    fingerprint: Seq<char>,
    occ: Seq<Occurrence>,
) -> Seq<IssueView>
    decreases occ.len(),
{
    if occ.len() == 0 {
        s
    } else {
        let before = aggregated_all(s, project, fingerprint, occ.drop_last());
        let o = occ.last();
        aggregated(before, project, fingerprint, o.title, o.level, o.now, o.id)
    }
}

/// Any number `n` of occurrences of a key that no issue has yet, taken in any interleaving
/// (each find-or-create being one step), leave exactly one issue for the key, counted `n`
/// times, and leave every other issue as it was.
pub proof fn lemma_one_issue_per_key(
    s: Seq<IssueView>,
    project: Seq<char>,
    fingerprint: Seq<char>,
    occ: Seq<Occurrence>,
)
    requires
        keys_unique(s),
        !key_present(s, project, fingerprint),
        1 <= occ.len() <= u64::MAX,
    ensures
        aggregated_all(s, project, fingerprint, occ).len() == s.len() + 1,
        has_key(aggregated_all(s, project, fingerprint, occ)[s.len() as int], project, fingerprint),
        aggregated_all(s, project, fingerprint, occ)[s.len() as int].count == occ.len(),
        forall|i: int| 0 <= i < s.len() ==> #[trigger] aggregated_all(s, project, fingerprint, occ)[i] == s[i],
    decreases occ.len(),
{
    if occ.len() == 1 {
        assert(occ.drop_last().len() == 0);
        assert(aggregated_all(s, project, fingerprint, occ.drop_last()) == s);
    } else {
        lemma_one_issue_per_key(s, project, fingerprint, occ.drop_last());
        let before = aggregated_all(s, project, fingerprint, occ.drop_last());
        assert(key_present(before, project, fingerprint));
        let c = choose|c: int| 0 <= c < before.len() && #[trigger] has_key(before[c], project, fingerprint);
        if c != s.len() {
            assert(before[c] == s[c]);
            assert(has_key(s[c], project, fingerprint));
            assert(key_present(s, project, fingerprint));
        }
        assert(c == s.len());
        assert(before[c].count == occ.len() - 1);
    }
}

} // verus!
