//! Channel configurations and the layout of chat messages.
use vstd::prelude::*;
use crate::alerting::AlertPayload;
use crate::text::{concat, copy_str, str_eq};

verus! {

pub struct EmailConfig {
    pub recipients: Vec<String>,
}

pub struct WebhookConfig {
    pub url: String,
    pub secret: Option<String>,
}

pub struct SlackConfig {
    pub webhook_url: String,
    pub channel: Option<String>,
    pub message_template: Option<SlackMessageTemplate>,
}

pub struct SlackMessageTemplate {
    pub blocks: Vec<SlackBlockConfig>,
    pub actions: Vec<SlackActionConfig>,
}

#[derive(Debug, Clone, Copy, PartialEq, Eq, Structural)]
pub enum SlackBlockType {
    Header,
    Message,
    StackTrace,
    Context,
    Stats,
}

/// One configured content block of a chat message.
pub struct SlackBlockConfig {
    pub block_type: SlackBlockType,
    pub enabled: bool,
}

#[derive(Debug, Clone, Copy, PartialEq, Eq, Structural)]
pub enum SlackActionType {
    ViewIssue,
    Resolve,
    Mute,
}

pub struct SlackActionConfig {
    pub action_type: SlackActionType,
    pub label: String,
    pub style: Option<String>,
}

/// What a channel of each type is configured with.
pub enum ChannelSettings {
    Email(EmailConfig),
    Webhook(WebhookConfig),
    Slack(SlackConfig),
}

/// The alert context an email channel is throttled by.
pub struct AlertContext {
    pub project_id: String,
    pub issue_fingerprint: Option<String>,
    pub cooldown_minutes: i32,
}

impl Default for SlackMessageTemplate {
    /// The layout used when a channel sets none: header, message, stack trace and context,
    /// with one primary button that opens the issue.
    fn default() -> (r: SlackMessageTemplate)
        ensures
            r.blocks@.len() == 4,
            r.blocks@[0].block_type == SlackBlockType::Header && r.blocks@[0].enabled,
            r.blocks@[1].block_type == SlackBlockType::Message && r.blocks@[1].enabled,
            r.blocks@[2].block_type == SlackBlockType::StackTrace && r.blocks@[2].enabled,
            r.blocks@[3].block_type == SlackBlockType::Context && r.blocks@[3].enabled,
            r.actions@.len() == 1,
            r.actions@[0].action_type == SlackActionType::ViewIssue,
            r.actions@[0].label@ == "View in Bugwatch"@,
            r.actions@[0].style matches Some(st) && st@ == "primary"@,
    {
        let mut blocks: Vec<SlackBlockConfig> = Vec::new();
        blocks.push(SlackBlockConfig { block_type: SlackBlockType::Header, enabled: true });
        blocks.push(SlackBlockConfig { block_type: SlackBlockType::Message, enabled: true });
        blocks.push(SlackBlockConfig { block_type: SlackBlockType::StackTrace, enabled: true });
        blocks.push(SlackBlockConfig { block_type: SlackBlockType::Context, enabled: true });
        let mut actions: Vec<SlackActionConfig> = Vec::new();
        actions.push(
            SlackActionConfig {
                action_type: SlackActionType::ViewIssue,
                label: "View in Bugwatch".to_string(),
                style: Some("primary".to_string()),
            },
        );
        SlackMessageTemplate { blocks, actions }
    }
}

/// The accent colour of a severity.
pub open spec fn severity_color(severity: Seq<char>) -> Seq<char> {
    if severity == "fatal"@ || severity == "error"@ {
        "#dc2626"@
    } else if severity == "warning"@ {
        "#f59e0b"@
    } else if severity == "info"@ {
        "#3b82f6"@
    } else {
        "#6b7280"@
    }
}

/// The emoji code of a severity.
pub open spec fn severity_emoji(severity: Seq<char>) -> Seq<char> {
    if severity == "fatal"@ {
        ":skull:"@
    } else if severity == "error"@ {
        ":x:"@
    } else if severity == "warning"@ {
        ":warning:"@
    } else if severity == "info"@ {
        ":information_source:"@
    } else {
        ":bell:"@
    }
}

pub fn color_for(severity: &str) -> (r: &'static str)
    ensures
        r@ == severity_color(severity@),
{
    if str_eq(severity, "fatal") || str_eq(severity, "error") {
        "#dc2626"
    } else if str_eq(severity, "warning") {
        "#f59e0b"
    } else if str_eq(severity, "info") {
        "#3b82f6"
    } else {
        "#6b7280"
    }
}

pub fn emoji_for(severity: &str) -> (r: &'static str)
    ensures
        r@ == severity_emoji(severity@),
{
    if str_eq(severity, "fatal") {
        ":skull:"
    } else if str_eq(severity, "error") {
        ":x:"
    } else if str_eq(severity, "warning") {
        ":warning:"
    } else if str_eq(severity, "info") {
        ":information_source:"
    } else {
        ":bell:"
    }
}

/// A button of a chat message.
pub struct SlackButton {
    pub label: String,
    pub url: String,
    pub style: Option<String>,
}

/// A block of a chat message.
pub enum SlackBlock {
    Header { text: String },
    Section { text: String },
    Context { text: String },
    Actions { buttons: Vec<SlackButton> },
}

pub ghost enum BlockView {
    Header(Seq<char>),
    Section(Seq<char>),
    Context(Seq<char>),
    Actions(Seq<(Seq<char>, Seq<char>, Option<Seq<char>>)>),
}

pub open spec fn button_view(b: SlackButton) -> (Seq<char>, Seq<char>, Option<Seq<char>>) {
    (
        b.label@,
        b.url@,
        match b.style {
            Some(s) => Some(s@),
            None => None,
        },
    )
}

pub open spec fn block_view(b: SlackBlock) -> BlockView {
    match b {
        SlackBlock::Header { text } => BlockView::Header(text@),
        SlackBlock::Section { text } => BlockView::Section(text@),
        SlackBlock::Context { text } => BlockView::Context(text@),
        SlackBlock::Actions { buttons } => BlockView::Actions(buttons@.map_values(|x: SlackButton| button_view(x))),
    }
}

/// The content block that a configured block yields for the alert, if any: stack traces and
/// statistics are not part of an alert and yield none, nor does a disabled block.
pub open spec fn content_block(c: SlackBlockConfig, p: AlertPayload) -> Option<BlockView> {
    if !c.enabled {
        None
    } else {
        match c.block_type {
            SlackBlockType::Header => Some(BlockView::Header(severity_emoji(p.severity@) + " "@ + p.title@)),
            SlackBlockType::Message => Some(BlockView::Section("`"@ + p.message@ + "`"@)),
            SlackBlockType::Context => Some(
                BlockView::Context(
                    "*Project:* "@ + p.project_name@ + " | *Severity:* "@ + p.severity@ + " | *Time:* "@
                        + p.timestamp@,
                ),
            ),
            _ => None,
        }
    }
}

pub open spec fn content_blocks(cs: Seq<SlackBlockConfig>, p: AlertPayload) -> Seq<BlockView>
    decreases cs.len(),
{
    if cs.len() == 0 {
        Seq::empty()
    } else {
        let rest = content_blocks(cs.drop_last(), p);
        match content_block(cs.last(), p) {
            Some(b) => rest.push(b),
            None => rest,
        }
    }
}

/// The button that a configured action yields for the alert: none without a link.
pub open spec fn action_button(a: SlackActionConfig, p: AlertPayload) -> Option<(Seq<char>, Seq<char>, Option<Seq<char>>)> {
    match p.url {
        None => None,
        Some(u) => Some(
            (
                a.label@,
                match a.action_type {
                    SlackActionType::ViewIssue => u@,
                    SlackActionType::Resolve => u@ + "?action=resolve"@,
                    SlackActionType::Mute => u@ + "?action=mute"@,
                },
                match a.style {
                    Some(s) => Some(s@),
                    None => None,
                },
            ),
        ),
    }
}

pub open spec fn action_buttons(acts: Seq<SlackActionConfig>, p: AlertPayload) -> Seq<(Seq<char>, Seq<char>, Option<Seq<char>>)>
    decreases acts.len(),
{
    if acts.len() == 0 {
        Seq::empty()
    } else {
        let rest = action_buttons(acts.drop_last(), p);
        match action_button(acts.last(), p) {
            Some(b) => rest.push(b),
            None => rest,
        }
    }
}

/// The blocks of the chat message of an alert: the enabled content blocks in template
/// order, then one block of buttons if any action yields one.
pub open spec fn message_blocks(t: SlackMessageTemplate, p: AlertPayload) -> Seq<BlockView> {
    let buttons = action_buttons(t.actions@, p);
    if buttons.len() == 0 {
        content_blocks(t.blocks@, p)
    } else {
        content_blocks(t.blocks@, p).push(BlockView::Actions(buttons))
    }
}

fn cat3(a: &str, b: &str, c: &str) -> (r: String)
    ensures
        r@ == a@ + b@ + c@,
{
    let mut s = copy_str(a);
    s.append(b);
    s.append(c);
    s
}

fn build_content_block(c: &SlackBlockConfig, p: &AlertPayload) -> (r: Option<SlackBlock>)
    ensures
        match r {
            Some(b) => content_block(*c, *p) == Some(block_view(b)),
            None => content_block(*c, *p) is None,
        },
{
    if !c.enabled {
        return None;
    }
    match c.block_type {
        SlackBlockType::Header => {
            let emoji = emoji_for(p.severity.as_str());
            Some(SlackBlock::Header { text: cat3(emoji, " ", p.title.as_str()) })
        },
        SlackBlockType::Message => Some(SlackBlock::Section { text: cat3("`", p.message.as_str(), "`") }),
        SlackBlockType::Context => {
            let mut text = cat3("*Project:* ", p.project_name.as_str(), " | *Severity:* ");
            text.append(p.severity.as_str());
            text.append(" | *Time:* ");
            text.append(p.timestamp.as_str());
            Some(SlackBlock::Context { text })
        },
        _ => None,
    }
}

fn build_button(a: &SlackActionConfig, p: &AlertPayload) -> (r: Option<SlackButton>)
    ensures
        match r {
            Some(b) => action_button(*a, *p) == Some(button_view(b)),
            None => action_button(*a, *p) is None,
        },
{
    match &p.url {
        None => None,
        Some(u) => {
            let url = match a.action_type {
                SlackActionType::ViewIssue => copy_str(u.as_str()),
                SlackActionType::Resolve => concat(u.as_str(), "?action=resolve"),
                SlackActionType::Mute => concat(u.as_str(), "?action=mute"),
            };
            Some(SlackButton { label: a.label.clone(), url, style: a.style.clone() })
        },
    }
}

/// Lays out the chat message of an alert.
pub fn build_slack_blocks(template: &SlackMessageTemplate, payload: &AlertPayload) -> (r: Vec<SlackBlock>)
    ensures
        r@.map_values(|b: SlackBlock| block_view(b)) == message_blocks(*template, *payload),
{
    let mut blocks: Vec<SlackBlock> = Vec::new();
    let mut i: usize = 0;
    while i < template.blocks.len()
        invariant
            i <= template.blocks@.len(),
            blocks@.map_values(|b: SlackBlock| block_view(b)) == content_blocks(
                template.blocks@.subrange(0, i as int),
                *payload,
            ),
        decreases template.blocks@.len() - i,
    {
        proof {
            assert(template.blocks@.subrange(0, i + 1).drop_last() =~= template.blocks@.subrange(0, i as int));
            assert(template.blocks@.subrange(0, i + 1).last() == template.blocks@[i as int]);
        }
        let ghost before = blocks@;
        match build_content_block(&template.blocks[i], payload) {
            Some(b) => {
                blocks.push(b);
                proof {
                    assert(blocks@.map_values(|b: SlackBlock| block_view(b)) =~= before.map_values(
                        |b: SlackBlock| block_view(b),
                    ).push(block_view(blocks@.last())));
                }
            },
            None => {},
        }
        i += 1;
    }
    proof {
        assert(template.blocks@.subrange(0, template.blocks@.len() as int) =~= template.blocks@);
    }
    let mut buttons: Vec<SlackButton> = Vec::new();
    let mut j: usize = 0;
    while j < template.actions.len()
        invariant
            j <= template.actions@.len(),
            buttons@.map_values(|x: SlackButton| button_view(x)) == action_buttons(
                template.actions@.subrange(0, j as int),
                *payload,
            ),
        decreases template.actions@.len() - j,
    {
        proof {
            assert(template.actions@.subrange(0, j + 1).drop_last() =~= template.actions@.subrange(0, j as int));
            assert(template.actions@.subrange(0, j + 1).last() == template.actions@[j as int]);
        }
        let ghost before = buttons@;
        match build_button(&template.actions[j], payload) {
            Some(b) => {
                buttons.push(b);
                proof {
                    assert(buttons@.map_values(|x: SlackButton| button_view(x)) =~= before.map_values(
                        |x: SlackButton| button_view(x),
                    ).push(button_view(buttons@.last())));
                }
            },
            None => {},
        }
        j += 1;
    }
    proof {
        assert(template.actions@.subrange(0, template.actions@.len() as int) =~= template.actions@);
    }
    if buttons.len() > 0 {
        let ghost before = blocks@;
        blocks.push(SlackBlock::Actions { buttons });
        proof {
            assert(blocks@.map_values(|b: SlackBlock| block_view(b)) =~= before.map_values(
                |b: SlackBlock| block_view(b),
            ).push(block_view(blocks@.last())));
        }
    }
    blocks
}

pub const EMAIL_HTML_HEAD: &'static str = "<!DOCTYPE html>\n<html>\n<head>\n    <meta charset=\"utf-8\">\n    <meta name=\"viewport\" content=\"width=device-width, initial-scale=1.0\">\n</head>\n<body style=\"font-family: -apple-system, BlinkMacSystemFont, 'Segoe UI', Roboto, sans-serif; background-color: #f3f4f6; padding: 20px; margin: 0;\">\n    <div style=\"max-width: 600px; margin: 0 auto; background-color: white; border-radius: 8px; overflow: hidden; box-shadow: 0 1px 3px rgba(0,0,0,0.1);\">\n        <div style=\"background-color: ";
pub const EMAIL_HTML_TITLE: &'static str = "; padding: 16px 24px;\">\n            <h1 style=\"color: white; margin: 0; font-size: 18px;\">";
pub const EMAIL_HTML_MESSAGE: &'static str = "</h1>\n        </div>\n        <div style=\"padding: 24px;\">\n            <p style=\"color: #374151; line-height: 1.6; margin: 0 0 16px 0;\">";
pub const EMAIL_HTML_PROJECT: &'static str = "</p>\n            <table style=\"width: 100%; border-collapse: collapse; margin-top: 16px;\">\n                <tr>\n                    <td style=\"padding: 8px 0; color: #6b7280; font-size: 14px;\">Project</td>\n                    <td style=\"padding: 8px 0; color: #111827; font-size: 14px; text-align: right;\">";
pub const EMAIL_HTML_SEVERITY: &'static str = "</td>\n                </tr>\n                <tr>\n                    <td style=\"padding: 8px 0; color: #6b7280; font-size: 14px;\">Severity</td>\n                    <td style=\"padding: 8px 0; color: #111827; font-size: 14px; text-align: right;\">";
pub const EMAIL_HTML_TIME: &'static str = "</td>\n                </tr>\n                <tr>\n                    <td style=\"padding: 8px 0; color: #6b7280; font-size: 14px;\">Time</td>\n                    <td style=\"padding: 8px 0; color: #111827; font-size: 14px; text-align: right;\">";
pub const EMAIL_HTML_LINK: &'static str = "</td>\n                </tr>\n            </table>\n            ";
pub const EMAIL_HTML_FOOT: &'static str = "\n        </div>\n        <div style=\"background-color: #f9fafb; padding: 16px 24px; text-align: center;\">\n            <p style=\"color: #6b7280; font-size: 12px; margin: 0;\">Sent by Bugwatch - AI-Powered Error Tracking</p>\n        </div>\n    </div>\n</body>\n</html>";
pub const EMAIL_LINK_OPEN: &'static str = "<a href=\"";
pub const EMAIL_LINK_CLOSE: &'static str = "\" style=\"display: inline-block; padding: 12px 24px; background-color: #3b82f6; color: white; text-decoration: none; border-radius: 6px; margin-top: 16px;\">View in Bugwatch</a>";

/// The subject line of an alert email.
pub open spec fn email_subject_of(p: AlertPayload) -> Seq<char> {
    "[Bugwatch] "@ + p.title@
}

/// The plain-text body of an alert email.
pub open spec fn email_text_of(p: AlertPayload) -> Seq<char> {
    p.title@ + "\n\n"@ + p.message@ + "\n\nProject: "@ + p.project_name@ + "\nSeverity: "@ + p.severity@
        + "\nTime: "@ + p.timestamp@
}

/// The button that links to the alert's page, if it has one.
pub open spec fn email_link_of(p: AlertPayload) -> Seq<char> {
    match p.url {
        Some(u) => EMAIL_LINK_OPEN@ + u@ + EMAIL_LINK_CLOSE@,
        None => Seq::empty(),
    }
}

/// The HTML body of an alert email: a banner in the severity's colour with the title, the
/// message, a table of project, severity and time, and the link button.
pub open spec fn email_html_of(p: AlertPayload) -> Seq<char> {
    EMAIL_HTML_HEAD@ + severity_color(p.severity@) + EMAIL_HTML_TITLE@ + p.title@ + EMAIL_HTML_MESSAGE@
        + p.message@ + EMAIL_HTML_PROJECT@ + p.project_name@ + EMAIL_HTML_SEVERITY@ + p.severity@
        + EMAIL_HTML_TIME@ + p.timestamp@ + EMAIL_HTML_LINK@ + email_link_of(p) + EMAIL_HTML_FOOT@
}

pub fn email_subject(p: &AlertPayload) -> (r: String)
    ensures
        r@ == email_subject_of(*p),
{
    let mut s = copy_str("[Bugwatch] ");
    s.append(p.title.as_str());
    s
}

pub fn email_text(p: &AlertPayload) -> (r: String)
    ensures
        r@ == email_text_of(*p),
{
    let mut s = copy_str(p.title.as_str());
    s.append("\n\n");
    s.append(p.message.as_str());
    s.append("\n\nProject: ");
    s.append(p.project_name.as_str());
    s.append("\nSeverity: ");
    s.append(p.severity.as_str());
    s.append("\nTime: ");
    s.append(p.timestamp.as_str());
    s
}

pub fn email_html(p: &AlertPayload) -> (r: String)
    ensures
        r@ == email_html_of(*p),
{
    let mut s = copy_str(EMAIL_HTML_HEAD);
    s.append(color_for(p.severity.as_str()));
    s.append(EMAIL_HTML_TITLE);
    s.append(p.title.as_str());
    s.append(EMAIL_HTML_MESSAGE);
    s.append(p.message.as_str());
    s.append(EMAIL_HTML_PROJECT);
    s.append(p.project_name.as_str());
    s.append(EMAIL_HTML_SEVERITY);
    s.append(p.severity.as_str());
    s.append(EMAIL_HTML_TIME);
    s.append(p.timestamp.as_str());
    s.append(EMAIL_HTML_LINK);
    match &p.url {
        Some(u) => {
            s.append(EMAIL_LINK_OPEN);
            s.append(u.as_str());
            s.append(EMAIL_LINK_CLOSE);
        },
        None => {},
    }
    s.append(EMAIL_HTML_FOOT);
    proof {
        assert(s@ =~= email_html_of(*p));
    }
    s
}

} // verus!
