use vstd::prelude::*;
use crate::text::{spec_trim, trim_text};

verus! {

/// The icon that heads a webhook message of alert level `level`.
pub fn gchat_level_icon(level: i32) -> (icon: &'static str)
    ensures
        level == 1 ==> icon@ == "ℹ️"@,
        level == 2 ==> icon@ == "🚨"@,
        level == 3 ==> icon@ == "🔥"@,
        !(1 <= level <= 3) ==> icon@ == "🛡️"@,
{
    match level {
        1 => "ℹ️",
        2 => "🚨",
        3 => "🔥",
        _ => "🛡️",
    }
}

/// The text of the webhook message for an alert: icon, bold title, host
/// line and the message itself.
pub open spec fn spec_gchat_text(level: i32, title: Seq<char>, message: Seq<char>) -> Seq<char> {
    let icon = if level == 1 {
        "ℹ️"@
    } else if level == 2 {
        "🚨"@
    } else if level == 3 {
        "🔥"@
    } else {
        "🛡️"@
    };
    icon + " *"@ + title + "*\n*Host*: `michael-MacPro5-1`\n"@ + message
}

/// Builds the text of the webhook message for an alert of level `level`.
pub fn gchat_message_text(title: &str, message: &str, level: i32) -> (text: String)
    ensures
        text@ == spec_gchat_text(level, title@, message@),
{
    let mut text = String::from_str(gchat_level_icon(level));
    text.append(" *");
    text.append(title);
    text.append("*\n*Host*: `michael-MacPro5-1`\n");
    text.append(message);
    text
}

/// The webhook URL: the environment setting when it is not blank, else the
/// configuration file's content when it is not blank, each trimmed of
/// white space; `None` when neither gives one.
pub open spec fn spec_webhook_url(env_value: Option<Seq<char>>, file_content: Option<Seq<char>>) -> Option<Seq<char>> {
    if env_value is Some && spec_trim(env_value->0).len() > 0 {
        Some(spec_trim(env_value->0))
    } else if file_content is Some && spec_trim(file_content->0).len() > 0 {
        Some(spec_trim(file_content->0))
    } else {
        None
    }
}

/// The environment setting wins whenever it is not blank, whatever the
/// file holds; the file is used only when the setting is absent or blank;
/// a chosen URL is never blank and has no white space at either end.
pub proof fn lemma_webhook_url_priority(env_value: Option<Seq<char>>, file_content: Option<Seq<char>>)
    ensures
        env_value is Some && spec_trim(env_value->0).len() > 0 ==> spec_webhook_url(
            env_value,
            file_content,
        ) == Some(spec_trim(env_value->0)),
        (env_value is None || spec_trim(env_value->0).len() == 0) ==> spec_webhook_url(
            env_value,
            file_content,
        ) == spec_webhook_url(None, file_content),
        spec_webhook_url(None, None) is None,
        spec_webhook_url(env_value, file_content) matches Some(u) ==> u.len() > 0,
{
}

/// The text of an optional string, if any.
pub open spec fn opt_text(s: Option<&str>) -> Option<Seq<char>> {
    match s {
        Some(t) => Some(t@),
        None => None,
    }
}

/// Chooses the webhook URL from the value of the environment setting and
/// the content of the configuration file, either of which may be absent.
pub fn choose_webhook_url(env_value: Option<&str>, file_content: Option<&str>) -> (url: Option<String>)
    ensures
        url matches Some(u) ==> spec_webhook_url(opt_text(env_value), opt_text(file_content)) == Some(u@),
        url is None ==> spec_webhook_url(opt_text(env_value), opt_text(file_content)) is None,
{
    if let Some(value) = env_value {
        let trimmed = trim_text(value);
        if !trimmed.is_empty() {
            return Some(trimmed.to_owned());
        }
    }
    if let Some(content) = file_content {
        let trimmed = trim_text(content);
        if !trimmed.is_empty() {
            return Some(trimmed.to_owned());
        }
    }
    None
}

} // verus!
