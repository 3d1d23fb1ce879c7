//! Delivery of one alert to the channels of a rule, each channel on its own, and the
//! cooldown that keeps repeated alert emails for one issue apart.
use vstd::prelude::*;
use crate::text::str_eq;

verus! {

/// How a channel delivers.
#[derive(Debug, Clone, Copy, PartialEq, Eq, Structural)]
pub enum ChannelKind {
    Email,
    Webhook,
    Slack,
}

/// A channel as dispatch sees it.
pub struct ChannelInfo {
    pub id: String,
    pub kind: ChannelKind,
    pub is_active: bool,
}

/// The ids of the channels that exist and are active, in the order of the rule's list.
pub open spec fn active_targets(found: Seq<Option<ChannelInfo>>) -> Seq<Seq<char>>
    decreases found.len(),
{
    if found.len() == 0 {
        Seq::empty()
    } else {
        let rest = active_targets(found.drop_last());
        match found.last() {
            Some(c) => if c.is_active {
                rest.push(c.id@)
            } else {
                rest
            },
            None => rest,
        }
    }
}

/// The channels to deliver to: `found` holds the lookup of each id of the rule's list,
/// `None` for a channel that does not exist; missing and inactive channels are skipped.
pub fn select_targets(found: &Vec<Option<ChannelInfo>>) -> (r: Vec<String>)
    ensures
        r@.map_values(|s: String| s@) == active_targets(found@),
{
    let mut out: Vec<String> = Vec::new();
    let mut i: usize = 0;
    while i < found.len()
        invariant
            i <= found@.len(),
            out@.map_values(|s: String| s@) == active_targets(found@.subrange(0, i as int)),
        decreases found@.len() - i,
    {
        proof {
            assert(found@.subrange(0, i + 1).drop_last() =~= found@.subrange(0, i as int));
            assert(found@.subrange(0, i + 1).last() == found@[i as int]);
        }
        let ghost before = out@;
        match &found[i] {
            Some(c) => {
                if c.is_active {
                    out.push(c.id.clone());
                    proof {
                        assert(out@.map_values(|s: String| s@) =~= before.map_values(|s: String| s@).push(c.id@));
                    }
                }
            },
            None => {},
        }
        i += 1;
    }
    proof {
        assert(found@.subrange(0, found@.len() as int) =~= found@);
    }
    out
}

/// Where the delivery to one channel stands.
#[derive(Debug, Clone, Copy, PartialEq, Eq, Structural)]
pub enum DeliveryStatus {
    Pending,
    Sent,
    Failed,
}

/// The audit record of one delivery attempt; it is written as pending before the attempt.
pub struct DeliveryLog {
    pub channel_id: String,
    pub status: DeliveryStatus,
    pub error: Option<String>,
}

pub ghost struct LogView {
    pub channel_id: Seq<char>,
    pub status: DeliveryStatus,
    pub error: Option<Seq<char>>,
}

impl View for DeliveryLog {
    type V = LogView;

    open spec fn view(&self) -> LogView {
        LogView {
            channel_id: self.channel_id@,
            status: self.status,
            error: match self.error {
                Some(e) => Some(e@),
                None => None,
            },
        }
    }
}

/// The logs after the next attempt is opened: a pending record for the next target.
pub open spec fn opened(targets: Seq<Seq<char>>, logs: Seq<LogView>) -> Seq<LogView> {
    if logs.len() < targets.len() {
        logs.push(LogView { channel_id: targets[logs.len() as int], status: DeliveryStatus::Pending, error: None })
    } else {
        logs
    }
}

/// The logs after the open attempt ends: sent when `failure` is `None`, else failed with
/// its text.
pub open spec fn settled(logs: Seq<LogView>, failure: Option<Seq<char>>) -> Seq<LogView> {
    logs.update(
        logs.len() - 1,
        LogView {
            status: if failure is None {
                DeliveryStatus::Sent
            } else {
                DeliveryStatus::Failed
            },
            error: failure,
            ..logs.last()
        },
    )
}

/// The delivery of one alert to an ordered list of channels.
pub struct Dispatch {
    targets: Vec<String>,
    logs: Vec<DeliveryLog>,
}

impl Dispatch {
    pub closed spec fn targets_view(&self) -> Seq<Seq<char>> {
        self.targets@.map_values(|s: String| s@)
    }

    pub closed spec fn logs_view(&self) -> Seq<LogView> {
        self.logs@.map_values(|l: DeliveryLog| l@)
    }

    /// No attempt is open.
    pub open spec fn idle(&self) -> bool {
        self.logs_view().len() == 0 || self.logs_view().last().status != DeliveryStatus::Pending
    }

    pub fn new(targets: Vec<String>) -> (r: Dispatch)
        ensures
            r.targets_view() == targets@.map_values(|s: String| s@),
            r.logs_view() == Seq::<LogView>::empty(),
    {
        let r = Dispatch { targets, logs: Vec::new() };
        proof {
            assert(r.logs_view() =~= Seq::<LogView>::empty());
        }
        r
    }

    /// Opens the attempt on the next channel, writing its pending record, and returns the
    /// channel; `None` once every channel has had its attempt.
    pub fn next_target(&mut self) -> (r: Option<String>)
        ensures
            final(self).targets_view() == old(self).targets_view(),
            final(self).logs_view() == opened(old(self).targets_view(), old(self).logs_view()),
            match r {
                Some(id) => old(self).logs_view().len() < old(self).targets_view().len() && id@
                    == old(self).targets_view()[old(self).logs_view().len() as int],
                None => old(self).logs_view().len() >= old(self).targets_view().len(),
            },
    {
        let n = self.logs.len();
        if n < self.targets.len() {
            let id = self.targets[n].clone();
            let ghost before = self.logs_view();
            self.logs.push(DeliveryLog { channel_id: id.clone(), status: DeliveryStatus::Pending, error: None });
            proof {
                assert(self.logs_view() =~= opened(self.targets_view(), before));
            }
            Some(id)
        } else {
            None
        }
    }

    /// Ends the open attempt: sent on `Ok`, failed with the error text on `Err`.
    pub fn settle(&mut self, outcome: Result<(), String>)
        requires
            old(self).logs_view().len() > 0,
        ensures
            final(self).targets_view() == old(self).targets_view(),
            final(self).logs_view() == settled(
                old(self).logs_view(),
                match outcome {
                    Ok(()) => None,
                    Err(e) => Some(e@),
                },
            ),
    {
        let n = self.logs.len();
        let ghost before = self.logs_view();
        let last = &self.logs[n - 1];
        let channel_id = last.channel_id.clone();
        let entry = match outcome {
            Ok(()) => DeliveryLog { channel_id, status: DeliveryStatus::Sent, error: None },
            Err(e) => DeliveryLog { channel_id, status: DeliveryStatus::Failed, error: Some(e) },
        };
        self.logs.set(n - 1, entry);
        proof {
            assert(self.logs_view() =~= settled(
                before,
                match outcome {
                    Ok(()) => None,
                    Err(e) => Some(e@),
                },
            ));
        }
    }

    /// The delivery records so far.
    pub fn log_at(&self, index: usize) -> (r: (DeliveryStatus, Option<String>))
        requires
            index < self.logs_view().len(),
        ensures
            r.0 == self.logs_view()[index as int].status,
            match r.1 {
                Some(e) => self.logs_view()[index as int].error == Some(e@),
                None => self.logs_view()[index as int].error is None,
            },
    {
        let l = &self.logs[index];
        (l.status, l.error.clone())
    }

    pub fn log_count(&self) -> (r: usize)
        ensures
            r == self.logs_view().len(),
    {
        self.logs.len()
    }
}

/// The logs after attempts whose failures, in order, are `failures` (`None`: delivered).
pub open spec fn run_logs(targets: Seq<Seq<char>>, failures: Seq<Option<Seq<char>>>) -> Seq<LogView>
    decreases failures.len(),
{
    if failures.len() == 0 {
        Seq::empty()
    } else {
        settled(opened(targets, run_logs(targets, failures.drop_last())), failures.last())
    }
}

/// Every channel of the list gets its own attempt and its own record, whatever happened to
/// the others: after one attempt per channel, the record of channel `i` is sent exactly when
/// its delivery succeeded, and failed with the error text when it did not.
pub proof fn lemma_channels_isolated(targets: Seq<Seq<char>>, failures: Seq<Option<Seq<char>>>)
    requires
        failures.len() <= targets.len(),
    ensures
        run_logs(targets, failures).len() == failures.len(),
        forall|i: int| 0 <= i < failures.len() ==> {
            &&& (#[trigger] run_logs(targets, failures)[i]).channel_id == targets[i]
            &&& run_logs(targets, failures)[i].status == (if failures[i] is None {
                DeliveryStatus::Sent
            } else {
                DeliveryStatus::Failed
            })
            &&& run_logs(targets, failures)[i].error == failures[i]
        },
    decreases failures.len(),
{
    if failures.len() > 0 {
        lemma_channels_isolated(targets, failures.drop_last());
        let before = run_logs(targets, failures.drop_last());
        let now = run_logs(targets, failures);
        assert forall|i: int| 0 <= i < failures.len() implies {
            &&& (#[trigger] now[i]).channel_id == targets[i]
            &&& now[i].status == (if failures[i] is None {
                DeliveryStatus::Sent
            } else {
                DeliveryStatus::Failed
            })
            &&& now[i].error == failures[i]
        } by {
            if i < failures.len() - 1 {
                assert(now[i] == before[i]);
                assert(failures.drop_last()[i] == failures[i]);
            }
        }
    }
}

/// The record of the last alert email for one project, grouping key and channel.
pub struct EmailRateRecord {
    pub project_id: String,
    pub fingerprint: String,
    pub channel_id: String,
    pub last_sent: i64,
}

pub ghost struct EmailKey {
    pub project_id: Seq<char>,
    pub fingerprint: Seq<char>,
    pub channel_id: Seq<char>,
}

pub ghost struct RecordView {
    pub key: EmailKey,
    pub last_sent: i64,
}

impl View for EmailRateRecord {
    type V = RecordView;

    open spec fn view(&self) -> RecordView {
        RecordView {
            key: EmailKey {
                project_id: self.project_id@,
                fingerprint: self.fingerprint@,
                channel_id: self.channel_id@,
            },
            last_sent: self.last_sent,
        }
    }
}

/// The position of the key's record, the last one if several; -1 if none.
pub open spec fn record_index(recs: Seq<RecordView>, key: EmailKey) -> int
    decreases recs.len(),
{
    if recs.len() == 0 {
        -1
    } else if recs.last().key == key {
        recs.len() - 1
    } else {
        record_index(recs.drop_last(), key)
    }
}

/// When the last email for the key went out, if one did.
pub open spec fn last_sent(recs: Seq<RecordView>, key: EmailKey) -> Option<i64> {
    let i = record_index(recs, key);
    if i >= 0 {
        Some(recs[i].last_sent)
    } else {
        None
    }
}

/// Whether an email at `now` falls inside the cooldown of the last one; a cooldown of zero
/// never holds one back.
pub open spec fn in_cooldown(last: Option<i64>, cooldown_minutes: i32, now: i64) -> bool {
    cooldown_minutes != 0 && match last {
        Some(t) => t > now - cooldown_minutes * 60000,
        None => false,
    }
}

/// The records after an email for the key went out at `now`.
pub open spec fn recorded(recs: Seq<RecordView>, key: EmailKey, now: i64) -> Seq<RecordView> {
    let i = record_index(recs, key);
    if i >= 0 {
        recs.update(i, RecordView { key, last_sent: now })
    } else {
        recs.push(RecordView { key, last_sent: now })
    }
}

proof fn lemma_record_index(recs: Seq<RecordView>, key: EmailKey)
    ensures
        -1 <= record_index(recs, key) < recs.len(),
        record_index(recs, key) >= 0 ==> recs[record_index(recs, key)].key == key,
        forall|j: int| record_index(recs, key) < j < recs.len() ==> (#[trigger] recs[j]).key != key,
    decreases recs.len(),
{
    if recs.len() > 0 && recs.last().key != key {
        lemma_record_index(recs.drop_last(), key);
        assert forall|j: int| record_index(recs, key) < j < recs.len() implies (#[trigger] recs[j]).key != key by {
            if j < recs.len() - 1 {
                assert(recs.drop_last()[j] == recs[j]);
            }
        }
    }
}

proof fn lemma_record_index_at(recs: Seq<RecordView>, key: EmailKey, i: int)
    requires
        0 <= i < recs.len(),
        recs[i].key == key,
        forall|j: int| i < j < recs.len() ==> (#[trigger] recs[j]).key != key,
    ensures
        record_index(recs, key) == i,
    decreases recs.len(),
{
    if i < recs.len() - 1 {
        lemma_record_index_at(recs.drop_last(), key, i);
    }
}

/// After an email goes out at `now`, the key's last email is the one at `now`.
pub proof fn lemma_recorded_last_sent(recs: Seq<RecordView>, key: EmailKey, now: i64)
    ensures
        last_sent(recorded(recs, key, now), key) == Some(now),
{
    lemma_record_index(recs, key);
    let i = record_index(recs, key);
    let after = recorded(recs, key, now);
    if i >= 0 {
        lemma_record_index_at(after, key, i);
    } else {
        lemma_record_index_at(after, key, recs.len() as int);
    }
}

/// The records whose last email went out at `cutoff` or later, in order.
pub open spec fn records_since(recs: Seq<RecordView>, cutoff: int) -> Seq<RecordView>
    decreases recs.len(),
{
    if recs.len() == 0 {
        recs
    } else if recs.last().last_sent >= cutoff {
        records_since(recs.drop_last(), cutoff).push(recs.last())
    } else {
        records_since(recs.drop_last(), cutoff)
    }
}

proof fn lemma_records_since_len(recs: Seq<RecordView>, cutoff: int)
    ensures
        records_since(recs, cutoff).len() <= recs.len(),
    decreases recs.len(),
{
    if recs.len() > 0 {
        lemma_records_since_len(recs.drop_last(), cutoff);
    }
}

/// The cooldown records of alert emails.
pub struct EmailRateLimits {
    records: Vec<EmailRateRecord>,
}

impl EmailRateLimits {
    pub closed spec fn view(&self) -> Seq<RecordView> {
        self.records@.map_values(|r: EmailRateRecord| r@)
    }

    pub fn new() -> (r: EmailRateLimits)
        ensures
            r.view() == Seq::<RecordView>::empty(),
    {
        let r = EmailRateLimits { records: Vec::new() };
        proof {
            assert(r.view() =~= Seq::<RecordView>::empty());
        }
        r
    }

    fn find(&self, project_id: &str, fingerprint: &str, channel_id: &str) -> (r: Option<usize>)
        ensures
            ({
                let k = EmailKey { project_id: project_id@, fingerprint: fingerprint@, channel_id: channel_id@ };
                match r {
                    Some(i) => i == record_index(self.view(), k) && i < self.view().len(),
                    None => record_index(self.view(), k) == -1,
                }
            }),
    {
        let ghost k = EmailKey { project_id: project_id@, fingerprint: fingerprint@, channel_id: channel_id@ };
        let mut i: usize = self.records.len();
        while i > 0
            invariant
                i <= self.records@.len(),
                k == (EmailKey { project_id: project_id@, fingerprint: fingerprint@, channel_id: channel_id@ }),
                forall|j: int| i <= j < self.view().len() ==> (#[trigger] self.view()[j]).key != k,
            decreases i,
        {
            let rec = &self.records[i - 1];
            let same_project = str_eq(rec.project_id.as_str(), project_id);
            let same_fingerprint = str_eq(rec.fingerprint.as_str(), fingerprint);
            let same_channel = str_eq(rec.channel_id.as_str(), channel_id);
            proof {
                assert(self.view()[i - 1] == self.records@[i - 1]@);
                let kk = self.view()[i - 1].key;
                assert(kk.project_id == rec.project_id@);
                assert(kk.fingerprint == rec.fingerprint@);
                assert(kk.channel_id == rec.channel_id@);
                assert((kk == k) == (same_project && same_fingerprint && same_channel));
            }
            if same_project && same_fingerprint && same_channel {
                proof {
                    assert(self.view()[i - 1].key == k);
                    lemma_record_index_at(self.view(), k, i - 1);
                }
                return Some(i - 1);
            }
            proof {
                assert(self.view()[i - 1].key != k);
            }
            i -= 1;
        }
        proof {
            lemma_record_index(self.view(), k);
        }
        None
    }

    /// When the last email for the key went out, if that was inside the cooldown at `now`;
    /// `None` when an email may go out.
    pub fn check_rate_limit(
        &self,
        project_id: &str,
        fingerprint: &str,
        channel_id: &str,
        cooldown_minutes: i32,
        now: i64,
    ) -> (r: Option<i64>)
        ensures
            ({
                let k = EmailKey { project_id: project_id@, fingerprint: fingerprint@, channel_id: channel_id@ };
                &&& r is Some <==> in_cooldown(last_sent(self.view(), k), cooldown_minutes, now)
                &&& r is Some ==> r == last_sent(self.view(), k)
            }),
    {
        if cooldown_minutes == 0 {
            return None;
        }
        match self.find(project_id, fingerprint, channel_id) {
            None => None,
            Some(i) => {
                let t = self.records[i].last_sent;
                if (t as i128) > (now as i128) - (cooldown_minutes as i128) * 60000 {
                    Some(t)
                } else {
                    None
                }
            },
        }
    }

    /// Drops the records of emails sent more than `max_age_ms` before `now` (their cooldown
    /// has long passed) and returns how many it dropped.
    pub fn cleanup_old_records(&mut self, now: i64, max_age_ms: i64) -> (r: usize)
        requires
            max_age_ms >= 0,
        ensures
            final(self).view() == records_since(old(self).view(), now - max_age_ms),
            r == old(self).view().len() - final(self).view().len(),
    {
        let ghost start = self.view();
        let cutoff: i128 = now as i128 - max_age_ms as i128;
        let mut kept: Vec<EmailRateRecord> = Vec::new();
        let mut old_records: Vec<EmailRateRecord> = Vec::new();
        std::mem::swap(&mut old_records, &mut self.records);
        proof {
            assert(old_records@.map_values(|r: EmailRateRecord| r@) == start);
        }
        let ghost all = old_records@;
        let total = old_records.len();
        let mut i: usize = 0;
        let mut dropped: usize = 0;
        while old_records.len() > 0
            invariant
                i + old_records@.len() == all.len(),
                total == all.len(),
                old_records@ == all.subrange(i as int, all.len() as int),
                start == all.map_values(|r: EmailRateRecord| r@),
                cutoff == now - max_age_ms,
                kept@.map_values(|r: EmailRateRecord| r@) == records_since(start.subrange(0, i as int), cutoff as int),
                dropped + kept@.len() == i,
            decreases old_records@.len(),
        {
            let rec = old_records.remove(0);
            proof {
                assert(rec == all[i as int]);
                assert(start.subrange(0, i + 1).drop_last() =~= start.subrange(0, i as int));
                assert(start.subrange(0, i + 1).last() == rec@);
            }
            let ghost before = kept@;
            if rec.last_sent as i128 >= cutoff {
                kept.push(rec);
                proof {
                    assert(kept@.map_values(|r: EmailRateRecord| r@) =~= before.map_values(
                        |r: EmailRateRecord| r@,
                    ).push(kept@.last()@));
                }
            } else {
                dropped += 1;
            }
            i += 1;
            proof {
                assert(old_records@ =~= all.subrange(i as int, all.len() as int));
            }
        }
        proof {
            assert(start.subrange(0, i as int) =~= start);
            lemma_records_since_len(start, cutoff as int);
        }
        self.records = kept;
        dropped
    }

    /// Notes that an email for the key went out at `now`.
    pub fn record_sent(&mut self, project_id: &str, fingerprint: &str, channel_id: &str, now: i64)
        ensures
            final(self).view() == recorded(
                old(self).view(),
                EmailKey { project_id: project_id@, fingerprint: fingerprint@, channel_id: channel_id@ },
                now,
            ),
    {
        let ghost before = self.view();
        let rec = EmailRateRecord {
            project_id: project_id.to_string(),
            fingerprint: fingerprint.to_string(),
            channel_id: channel_id.to_string(),
            last_sent: now,
        };
        match self.find(project_id, fingerprint, channel_id) {
            Some(i) => {
                self.records.set(i, rec);
            },
            None => {
                self.records.push(rec);
            },
        }
        proof {
            assert(self.view() =~= recorded(
                before,
                EmailKey { project_id: project_id@, fingerprint: fingerprint@, channel_id: channel_id@ },
                now,
            ));
        }
    }

    /// Whether an alert for the channel should go out at `now`: other channels always send;
    /// an email for a known issue waits out its cooldown.
    pub fn should_send(
        &self,
        kind: ChannelKind,
        project_id: &str,
        fingerprint: Option<&str>,
        channel_id: &str,
        cooldown_minutes: i32,
        now: i64,
    ) -> (r: bool)
        ensures
            r == (kind != ChannelKind::Email || match fingerprint {
                Some(f) => !in_cooldown(
                    last_sent(
                        self.view(),
                        EmailKey { project_id: project_id@, fingerprint: f@, channel_id: channel_id@ },
                    ),
                    cooldown_minutes,
                    now,
                ),
                None => true,
            }),
    {
        if kind != ChannelKind::Email {
            return true;
        }
        match fingerprint {
            Some(f) => self.check_rate_limit(project_id, f, channel_id, cooldown_minutes, now).is_none(),
            None => true,
        }
    }
}

/// One email alert attempt at `now` for a key whose deliveries succeed: whether it goes out,
/// and the records after it.
pub open spec fn email_attempt(recs: Seq<RecordView>, key: EmailKey, cooldown_minutes: i32, now: i64) -> (
    bool,
    Seq<RecordView>,
) {
    if in_cooldown(last_sent(recs, key), cooldown_minutes, now) {
        (false, recs)
    } else {
        (true, recorded(recs, key, now))
    }
}

/// With a cooldown of fifteen minutes, of two alerts for one project, issue and channel that
/// come within fifteen minutes only the first is delivered; a third, fifteen minutes or more
/// after the first, is delivered again.
pub proof fn lemma_email_cooldown(recs: Seq<RecordView>, key: EmailKey, t1: i64, t2: i64, t3: i64)
    requires
        !in_cooldown(last_sent(recs, key), 15, t1),
        t1 <= t2 < t1 + 15 * 60000,
        t3 >= t1 + 15 * 60000,
    ensures
        ({
            let (d1, r1) = email_attempt(recs, key, 15, t1);
            let (d2, r2) = email_attempt(r1, key, 15, t2);
            let (d3, r3) = email_attempt(r2, key, 15, t3);
            d1 && !d2 && d3
        }),
{
    let r1 = recorded(recs, key, t1);
    lemma_recorded_last_sent(recs, key, t1);
    assert(last_sent(r1, key) == Some(t1));
}

} // verus!
