//! Alert rules: which conditions fire on which triggers, what an alert says, and how its
//! delivery to each channel is tracked and throttled.
use vstd::prelude::*;
use crate::digest::{hex_encode, hex_of, hmac_sha256, hmac_sha256_of, is_hex_text, lemma_hex_shape};
use crate::text::{concat, copy_str};
use vstd::utf8::encode_utf8;

verus! {

/// The condition of an alert rule.
pub enum AlertCondition {
    /// A new issue, of the given level if one is set.
    NewIssue { level: Option<String> },
    /// Modelled, but no trigger evaluates it.
    IssueFrequency { threshold: u32, window_minutes: u32 },
    /// A monitor going down: the given one if set, else any.
    MonitorDown { monitor_id: Option<String> },
    /// A monitor coming back up: the given one if set, else any.
    MonitorRecovery { monitor_id: Option<String> },
}

/// What happened that rules are evaluated against.
pub enum AlertTrigger {
    NewIssue { level: String },
    MonitorDown { monitor_id: String },
    MonitorRecovery { monitor_id: String },
}

/// An unset filter admits every value; a set one admits exactly its own.
pub open spec fn filter_admits(filter: Option<String>, value: Seq<char>) -> bool {
    match filter {
        None => true,
        Some(f) => f@ == value,
    }
}

/// Whether a condition fires on a trigger: only a condition of the trigger's kind does, and
/// then when its filter admits the trigger's level or monitor, compared exactly.
pub open spec fn fires(c: AlertCondition, t: AlertTrigger) -> bool {
    match t {
        AlertTrigger::NewIssue { level } => match c {
            AlertCondition::NewIssue { level: f } => filter_admits(f, level@),
            _ => false,
        },
        AlertTrigger::MonitorDown { monitor_id } => match c {
            AlertCondition::MonitorDown { monitor_id: f } => filter_admits(f, monitor_id@),
            _ => false,
        },
        AlertTrigger::MonitorRecovery { monitor_id } => match c {
            AlertCondition::MonitorRecovery { monitor_id: f } => filter_admits(f, monitor_id@),
            _ => false,
        },
    }
}

fn admits(filter: &Option<String>, value: &String) -> (r: bool)
    ensures
        r == filter_admits(*filter, value@),
{
    match filter {
        None => true,
        Some(f) => *f == *value,
    }
}

impl AlertCondition {
    /// Whether the condition fires on the trigger.
    pub fn fires_on(&self, trigger: &AlertTrigger) -> (r: bool)
        ensures
            r == fires(*self, *trigger),
    {
        match trigger {
            AlertTrigger::NewIssue { level } => match self {
                AlertCondition::NewIssue { level: f } => admits(f, level),
                _ => false,
            },
            AlertTrigger::MonitorDown { monitor_id } => match self {
                AlertCondition::MonitorDown { monitor_id: f } => admits(f, monitor_id),
                _ => false,
            },
            AlertTrigger::MonitorRecovery { monitor_id } => match self {
                AlertCondition::MonitorRecovery { monitor_id: f } => admits(f, monitor_id),
                _ => false,
            },
        }
    }
}

/// An active rule as evaluation sees it: `condition` is `None` when the stored condition
/// could not be read, and such a rule is skipped.
pub struct RuleInfo {
    pub id: String,
    pub condition: Option<AlertCondition>,
}

pub open spec fn rule_fires(r: RuleInfo, t: AlertTrigger) -> bool {
    match r.condition {
        Some(c) => fires(c, t),
        None => false,
    }
}

/// The positions of the rules that fire, in order.
pub open spec fn firing(rules: Seq<RuleInfo>, t: AlertTrigger) -> Seq<usize>
    decreases rules.len(),
{
    if rules.len() == 0 {
        Seq::empty()
    } else if rule_fires(rules.last(), t) {
        firing(rules.drop_last(), t).push((rules.len() - 1) as usize)
    } else {
        firing(rules.drop_last(), t)
    }
}

/// The rules that fire on a trigger, by position; a rule whose condition could not be read
/// does not stop the others.
pub fn rules_to_fire(rules: &Vec<RuleInfo>, trigger: &AlertTrigger) -> (r: Vec<usize>)
    ensures
        r@ == firing(rules@, *trigger),
{
    let mut out: Vec<usize> = Vec::new();
    let mut i: usize = 0;
    while i < rules.len()
        invariant
            i <= rules@.len(),
            out@ == firing(rules@.subrange(0, i as int), *trigger),
        decreases rules@.len() - i,
    {
        proof {
            assert(rules@.subrange(0, i + 1).drop_last() =~= rules@.subrange(0, i as int));
            assert(rules@.subrange(0, i + 1).last() == rules@[i as int]);
        }
        let fires_now = match &rules[i].condition {
            Some(c) => c.fires_on(trigger),
            None => false,
        };
        if fires_now {
            out.push(i);
        }
        i += 1;
    }
    proof {
        assert(rules@.subrange(0, rules@.len() as int) =~= rules@);
    }
    out
}

/// What an alert says, whichever channel carries it.
pub struct AlertPayload {
    pub title: String,
    pub message: String,
    pub severity: String,
    pub project_name: String,
    pub trigger_type: String,
    pub trigger_id: Option<String>,
    pub url: Option<String>,
    pub timestamp: String,
}

pub ghost struct PayloadView {
    pub title: Seq<char>,
    pub message: Seq<char>,
    pub severity: Seq<char>,
    pub project_name: Seq<char>,
    pub trigger_type: Seq<char>,
    pub trigger_id: Option<Seq<char>>,
    pub url: Option<Seq<char>>,
    pub timestamp: Seq<char>,
}

pub open spec fn opt_view(o: Option<String>) -> Option<Seq<char>> {
    match o {
        Some(s) => Some(s@),
        None => None,
    }
}

impl View for AlertPayload {
    type V = PayloadView;

    open spec fn view(&self) -> PayloadView {
        PayloadView {
            title: self.title@,
            message: self.message@,
            severity: self.severity@,
            project_name: self.project_name@,
            trigger_type: self.trigger_type@,
            trigger_id: opt_view(self.trigger_id),
            url: opt_view(self.url),
            timestamp: self.timestamp@,
        }
    }
}

/// The alert for a new issue, linking to the issue's page.
pub open spec fn new_issue_alert(
    level: Seq<char>,
    title: Seq<char>,
    issue_id: Seq<char>,
    project_name: Seq<char>,
    project_id: Seq<char>,
    app_url: Seq<char>,
    timestamp: Seq<char>,
) -> PayloadView {
    PayloadView {
        title: "New "@ + level + " in "@ + project_name,
        message: title,
        severity: level,
        project_name,
        trigger_type: "new_issue"@,
        trigger_id: Some(issue_id),
        url: Some(app_url + "/dashboard/issues/"@ + issue_id + "?project="@ + project_id),
        timestamp,
    }
}

/// The uptime page of a project.
pub open spec fn uptime_url(app_url: Seq<char>, project_id: Seq<char>) -> Seq<char> {
    app_url + "/dashboard/uptime?project="@ + project_id
}

/// The alert for a monitor that went down, with the error if one is known.
pub open spec fn monitor_down_alert(
    name: Seq<char>,
    monitor_id: Seq<char>,
    error: Option<Seq<char>>,
    project_name: Seq<char>,
    project_id: Seq<char>,
    app_url: Seq<char>,
    timestamp: Seq<char>,
) -> PayloadView {
    PayloadView {
        title: "Monitor Down: "@ + name,
        message: match error {
            Some(e) => name + " is DOWN: "@ + e,
            None => name + " is DOWN"@,
        },
        severity: "error"@,
        project_name,
        trigger_type: "monitor_down"@,
        trigger_id: Some(monitor_id),
        url: Some(uptime_url(app_url, project_id)),
        timestamp,
    }
}

/// The alert for a monitor that came back up.
pub open spec fn monitor_recovery_alert(
    name: Seq<char>,
    monitor_id: Seq<char>,
    project_name: Seq<char>,
    project_id: Seq<char>,
    app_url: Seq<char>,
    timestamp: Seq<char>,
) -> PayloadView {
    PayloadView {
        title: "Monitor Recovered: "@ + name,
        message: name + " is back UP"@,
        severity: "info"@,
        project_name,
        trigger_type: "monitor_recovery"@,
        trigger_id: Some(monitor_id),
        url: Some(uptime_url(app_url, project_id)),
        timestamp,
    }
}

/// Builds the alert for a new issue.
pub fn build_new_issue_alert(
    level: &str,
    title: &str,
    issue_id: &str,
    project_name: &str,
    project_id: &str,
    app_url: &str,
    timestamp: &str,
) -> (r: AlertPayload)
    ensures
        r@ == new_issue_alert(level@, title@, issue_id@, project_name@, project_id@, app_url@, timestamp@),
{
    let mut heading = concat("New ", level);
    heading.append(" in ");
    heading.append(project_name);
    let mut url = concat(app_url, "/dashboard/issues/");
    url.append(issue_id);
    url.append("?project=");
    url.append(project_id);
    AlertPayload {
        title: heading,
        message: copy_str(title),
        severity: copy_str(level),
        project_name: copy_str(project_name),
        trigger_type: "new_issue".to_string(),
        trigger_id: Some(copy_str(issue_id)),
        url: Some(url),
        timestamp: copy_str(timestamp),
    }
}

fn build_uptime_url(app_url: &str, project_id: &str) -> (r: String)
    ensures
        r@ == uptime_url(app_url@, project_id@),
{
    let mut url = concat(app_url, "/dashboard/uptime?project=");
    url.append(project_id);
    url
}

/// Builds the alert for a monitor that went down.
pub fn build_monitor_down_alert(
    name: &str,
    monitor_id: &str,
    error: Option<&str>,
    project_name: &str,
    project_id: &str,
    app_url: &str,
    timestamp: &str,
) -> (r: AlertPayload)
    ensures
        r@ == monitor_down_alert(
            name@,
            monitor_id@,
            match error {
                Some(e) => Some(e@),
                None => None,
            },
            project_name@,
            project_id@,
            app_url@,
            timestamp@,
        ),
{
    let message = match error {
        Some(e) => {
            let mut m = concat(name, " is DOWN: ");
            m.append(e);
            m
        },
        None => concat(name, " is DOWN"),
    };
    AlertPayload {
        title: concat("Monitor Down: ", name),
        message,
        severity: "error".to_string(),
        project_name: copy_str(project_name),
        trigger_type: "monitor_down".to_string(),
        trigger_id: Some(copy_str(monitor_id)),
        url: Some(build_uptime_url(app_url, project_id)),
        timestamp: copy_str(timestamp),
    }
}

/// Builds the alert for a monitor that came back up.
pub fn build_monitor_recovery_alert(
    name: &str,
    monitor_id: &str,
    project_name: &str,
    project_id: &str,
    app_url: &str,
    timestamp: &str,
) -> (r: AlertPayload)
    ensures
        r@ == monitor_recovery_alert(name@, monitor_id@, project_name@, project_id@, app_url@, timestamp@),
{
    AlertPayload {
        title: concat("Monitor Recovered: ", name),
        message: concat(name, " is back UP"),
        severity: "info".to_string(),
        project_name: copy_str(project_name),
        trigger_type: "monitor_recovery".to_string(),
        trigger_id: Some(copy_str(monitor_id)),
        url: Some(build_uptime_url(app_url, project_id)),
        timestamp: copy_str(timestamp),
    }
}

/// The signature header value of a webhook body: HMAC-SHA256 of the body's UTF-8 bytes under
/// the secret's, in lowercase hex.
pub open spec fn signature_of(body: Seq<char>, secret: Seq<char>) -> Seq<char> {
    hex_of(hmac_sha256_of(encode_utf8(secret), encode_utf8(body)))
}

/// Signs a webhook body with the channel's secret.
pub fn compute_hmac_signature(payload: &str, secret: &str) -> (r: String)
    ensures
        r@ == signature_of(payload@, secret@),
        r@.len() == 64,
        is_hex_text(r@),
{
    let tag = hmac_sha256(secret.as_bytes(), payload.as_bytes());
    proof {
        lemma_hex_shape(tag@);
    }
    hex_encode(tag.as_slice())
}

} // verus!
