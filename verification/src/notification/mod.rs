//! What a notification says and where it goes. Posting it is network I/O and
//! happens in the program around this library, which sends the body built
//! here as JSON to the URL built here.

use vstd::prelude::*;
use vstd::string::*;

use crate::db::models::{ChannelKind, HeartbeatStatus, NotificationChannel};
use crate::api::notifications::{spec_form_config, ChannelForm};
use crate::db::monitors::opt_view;
use crate::json::{
    is_plain_key_char, json_error, json_field, json_object1, json_object2, json_object3,
    json_object_text, json_parse_error, json_str_field, plain_keys,
};

verus! {

/// The view of an optional string slice.
pub open spec fn opt_str_view(s: Option<&str>) -> Option<Seq<char>> {
    match s {
        Some(t) => Some(t@),
        None => None,
    }
}

/// The sentence that announces a status change: `<monitor> is now <status>`,
/// followed by ` (<message>)` when the check gave a message.
pub open spec fn spec_alert_text(
    monitor_name: Seq<char>,
    status: HeartbeatStatus,
    message: Option<Seq<char>>,
) -> Seq<char> {
    match message {
        Some(m) => monitor_name + " is now "@ + status.spec_name() + " ("@ + m + ")"@,
        None => monitor_name + " is now "@ + status.spec_name(),
    }
}

/// The error given when a channel's settings lack `key`.
pub open spec fn spec_missing_key(key: Seq<char>) -> Seq<char> {
    "missing '"@ + key + "' in channel config"@
}

/// The string setting `key` of a channel whose settings are `config`.
pub open spec fn spec_config_str(config: Seq<char>, key: Seq<char>) -> Result<Seq<char>, Seq<char>> {
    match json_field(config, key) {
        Some(v) => Ok(v),
        None => Err(spec_missing_key(key)),
    }
}

/// The JSON body that a channel of kind `kind` posts for the announcement
/// `text`; a Telegram channel addresses the chat `chat_id`, and a webhook
/// gets the monitor's name, status and message as separate members.
pub open spec fn spec_body(
    kind: ChannelKind,
    chat_id: Seq<char>,
    monitor_name: Seq<char>,
    status: HeartbeatStatus,
    message: Option<Seq<char>>,
) -> Seq<char> {
    let text = spec_alert_text(monitor_name, status, message);
    match kind {
        ChannelKind::Discord => json_object_text(seq!["content"@], seq![Some(text)]),
        ChannelKind::Slack => json_object_text(seq!["text"@], seq![Some(text)]),
        ChannelKind::Webhook => json_object_text(
            seq!["monitor"@, "status"@, "message"@],
            seq![Some(monitor_name), Some(status.spec_name()), message],
        ),
        ChannelKind::Telegram => json_object_text(
            seq!["chat_id"@, "text"@],
            seq![Some(chat_id), Some(text)],
        ),
    }
}

/// The Telegram Bot API URL that sends a message with the bot `token`.
pub open spec fn spec_telegram_url(token: Seq<char>) -> Seq<char> {
    "https://api.telegram.org/bot"@ + token + "/sendMessage"@
}

/// The URL and JSON body of the notification that a channel of kind `kind`
/// with settings `config` sends when `monitor_name` changes to `status`, or
/// the error that stops it: the settings must be JSON; a Telegram channel
/// needs `bot_token` and then `chat_id`, every other kind `url`.
pub open spec fn spec_request(
    kind: ChannelKind,
    config: Seq<char>,
    monitor_name: Seq<char>,
    status: HeartbeatStatus,
    message: Option<Seq<char>>,
) -> Result<(Seq<char>, Seq<char>), Seq<char>> {
    match json_parse_error(config) {
        Some(e) => Err(e),
        None => if kind == ChannelKind::Telegram {
            match spec_config_str(config, "bot_token"@) {
                Ok(token) => match spec_config_str(config, "chat_id"@) {
                    Ok(chat_id) => Ok(
                        (
                            spec_telegram_url(token),
                            spec_body(kind, chat_id, monitor_name, status, message),
                        ),
                    ),
                    Err(e) => Err(e),
                },
                Err(e) => Err(e),
            }
        } else {
            match spec_config_str(config, "url"@) {
                Ok(url) => Ok((url, spec_body(kind, Seq::empty(), monitor_name, status, message))),
                Err(e) => Err(e),
            }
        },
    }
}

/// The notification that a channel saved from the form `form` sends: a
/// Telegram channel posts to its bot's URL in the chat the form names, every
/// other kind posts to the URL the form names.
pub open spec fn spec_form_request(
    kind: ChannelKind,
    form: ChannelForm,
    monitor_name: Seq<char>,
    status: HeartbeatStatus,
    message: Option<Seq<char>>,
) -> Result<(Seq<char>, Seq<char>), Seq<char>> {
    if kind == ChannelKind::Telegram {
        Ok(
            (
                spec_telegram_url(form.bot_token@),
                spec_body(kind, form.chat_id@, monitor_name, status, message),
            ),
        )
    } else {
        Ok((form.url@, spec_body(kind, Seq::empty(), monitor_name, status, message)))
    }
}

/// The member names of the settings a channel form stores are plain.
pub proof fn lemma_form_keys_plain()
    ensures
        plain_keys(seq!["url"@]),
        plain_keys(seq!["bot_token"@, "chat_id"@]),
{
    reveal_strlit("url");
    reveal_strlit("bot_token");
    reveal_strlit("chat_id");
    let k1 = seq!["url"@];
    let k2 = seq!["bot_token"@, "chat_id"@];
    assert forall|i: int, j: int| 0 <= i < k1.len() && 0 <= j < k1[i].len() implies is_plain_key_char(
        #[trigger] k1[i][j],
    ) by {
        assert(k1[i] == "url"@);
    }
    assert forall|i: int, j: int| 0 <= i < k2.len() && 0 <= j < k2[i].len() implies is_plain_key_char(
        #[trigger] k2[i][j],
    ) by {
        if i == 0 {
            assert(k2[i] == "bot_token"@);
        } else {
            assert(k2[i] == "chat_id"@);
        }
    }
    assert(k2[0] != k2[1]) by {
        assert(k2[0].len() != k2[1].len());
    }
}

/// Whether the object with members `keys[i]: values[i]` has the member `key`
/// holding `value`.
pub open spec fn has_member(
    keys: Seq<Seq<char>>,
    values: Seq<Option<Seq<char>>>,
    key: Seq<char>,
    value: Option<Seq<char>>,
) -> bool {
    exists|i: int| 0 <= i < keys.len() && keys[i] == key && values[i] == value
}

/// Whether `body` is the text `serde_json` writes for an object of distinct
/// plain member names, and has `n` members.
pub open spec fn is_plain_object(body: Seq<char>, n: int, keys: Seq<Seq<char>>, values: Seq<Option<Seq<char>>>) -> bool {
    &&& plain_keys(keys)
    &&& keys.len() == values.len()
    &&& keys.len() == n
    &&& body == json_object_text(keys, values)
}

/// The announcement sentence names the monitor and its new status, and adds
/// the check's message in brackets exactly when there is one.
pub proof fn lemma_alert_text(monitor_name: Seq<char>, status: HeartbeatStatus, message: Seq<char>)
    ensures
        spec_alert_text(monitor_name, status, None) == monitor_name + " is now "@ + status.spec_name(),
        spec_alert_text(monitor_name, status, Some(message)) == spec_alert_text(
            monitor_name,
            status,
            None,
        ) + " ("@ + message + ")"@,
{
}

/// What a notification carries. When a channel's request is built, its body
/// is a JSON object of distinct plain member names written by `serde_json`:
/// a Discord channel posts the announcement as `content`, a Slack channel as
/// `text`, a Telegram channel posts it as `text` to the `chat_id` of its
/// settings, and a webhook posts the monitor's name as `monitor`, its status
/// name as `status` and the check's message (`null` when there is none) as
/// `message`, whatever the status. Telegram posts to its bot's URL; every
/// other kind posts to the `url` of its settings.
pub proof fn lemma_request_contents(
    kind: ChannelKind,
    config: Seq<char>,
    monitor_name: Seq<char>,
    status: HeartbeatStatus,
    message: Option<Seq<char>>,
)
    ensures
        spec_request(kind, config, monitor_name, status, message) matches Ok((url, body)) ==> {
            let text = spec_alert_text(monitor_name, status, message);
            &&& json_parse_error(config) is None
            &&& (kind == ChannelKind::Discord ==> exists|keys, values|
                #[trigger] is_plain_object(body, 1, keys, values) && has_member(keys, values, "content"@, Some(text)))
            &&& (kind == ChannelKind::Slack ==> exists|keys, values|
                #[trigger] is_plain_object(body, 1, keys, values) && has_member(keys, values, "text"@, Some(text)))
            &&& (kind == ChannelKind::Webhook ==> exists|keys, values|
                #[trigger] is_plain_object(body, 3, keys, values) && has_member(keys, values, "monitor"@, Some(monitor_name))
                    && has_member(keys, values, "status"@, Some(status.spec_name()))
                    && has_member(keys, values, "message"@, message))
            &&& (kind == ChannelKind::Telegram ==> exists|keys, values|
                #[trigger] is_plain_object(body, 2, keys, values) && has_member(keys, values, "text"@, Some(text))
                    && has_member(keys, values, "chat_id"@, json_field(config, "chat_id"@)))
            &&& (kind == ChannelKind::Telegram ==> exists|token: Seq<char>|
                json_field(config, "bot_token"@) == Some(token) && url == "https://api.telegram.org/bot"@
                    + token + "/sendMessage"@)
            &&& (kind != ChannelKind::Telegram ==> json_field(config, "url"@) == Some(url))
        },
{
    reveal_strlit("content");
    reveal_strlit("text");
    reveal_strlit("monitor");
    reveal_strlit("status");
    reveal_strlit("message");
    reveal_strlit("chat_id");
    if let Ok((url, body)) = spec_request(kind, config, monitor_name, status, message) {
        let text = spec_alert_text(monitor_name, status, message);
        match kind {
            ChannelKind::Discord => {
                let keys = seq!["content"@];
                let values = seq![Some(text)];
                assert(keys[0] == "content"@ && values[0] == Some(text));
                assert(is_plain_object(body, 1, keys, values));
            },
            ChannelKind::Slack => {
                let keys = seq!["text"@];
                let values = seq![Some(text)];
                assert(keys[0] == "text"@ && values[0] == Some(text));
                assert(is_plain_object(body, 1, keys, values));
            },
            ChannelKind::Webhook => {
                let keys = seq!["monitor"@, "status"@, "message"@];
                let values = seq![Some(monitor_name), Some(status.spec_name()), message];
                assert(keys[0] == "monitor"@ && values[0] == Some(monitor_name));
                assert(keys[1] == "status"@ && values[1] == Some(status.spec_name()));
                assert(keys[2] == "message"@ && values[2] == message);
                assert forall|i: int, j: int| 0 <= i < keys.len() && 0 <= j < keys[i].len()
                    implies is_plain_key_char(#[trigger] keys[i][j]) by {
                    if i == 0 {
                        assert(keys[i] == "monitor"@);
                    } else if i == 1 {
                        assert(keys[i] == "status"@);
                    } else {
                        assert(keys[i] == "message"@);
                    }
                }
                assert(keys[0][0] != keys[1][0]);
                assert(keys[0][1] != keys[2][1]);
                assert(keys[1].len() != keys[2].len());
                assert(is_plain_object(body, 3, keys, values));
            },
            ChannelKind::Telegram => {
                let chat_id = json_field(config, "chat_id"@)->0;
                let keys = seq!["chat_id"@, "text"@];
                let values = seq![Some(chat_id), Some(text)];
                assert(keys[0] == "chat_id"@ && values[0] == Some(chat_id));
                assert(keys[1] == "text"@ && values[1] == Some(text));
                assert forall|i: int, j: int| 0 <= i < keys.len() && 0 <= j < keys[i].len()
                    implies is_plain_key_char(#[trigger] keys[i][j]) by {
                    if i == 0 {
                        assert(keys[i] == "chat_id"@);
                    } else {
                        assert(keys[i] == "text"@);
                    }
                }
                assert(keys[0][0] != keys[1][0]);
                assert(is_plain_object(body, 2, keys, values));
            },
        }
    }
}

/// A notification ready to be posted: the URL, and the body as JSON text.
#[derive(Debug, Clone)]
pub struct NotificationRequest {
    pub url: String,
    pub body: String,
}

/// The view of a built request, or of the error that stopped it.
pub open spec fn request_view(r: Result<NotificationRequest, String>) -> Result<
    (Seq<char>, Seq<char>),
    Seq<char>,
> {
    match r {
        Ok(req) => Ok((req.url@, req.body@)),
        Err(e) => Err(e@),
    }
}

/// The announcement sentence for a status change.
pub fn alert_text(monitor_name: &str, status: HeartbeatStatus, message: Option<&str>) -> (r: String)
    ensures
        r@ == spec_alert_text(monitor_name@, status, opt_str_view(message)),
{
    let mut text = String::from_str(monitor_name);
    text.append(" is now ");
    text.append(status.as_str());
    match message {
        Some(m) => {
            text.append(" (");
            text.append(m);
            text.append(")");
        },
        None => {},
    }
    text
}

/// Reads the string setting `key` from a channel's JSON settings.
pub fn config_str(config: &str, key: &str) -> (r: Result<String, String>)
    ensures
        match r {
            Ok(v) => spec_config_str(config@, key@) == Ok::<Seq<char>, Seq<char>>(v@),
            Err(e) => spec_config_str(config@, key@) == Err::<Seq<char>, Seq<char>>(e@),
        },
        forall|keys: Seq<Seq<char>>, values: Seq<Option<Seq<char>>>|
            plain_keys(keys) && keys.len() == values.len() && config@ == #[trigger] json_object_text(
                keys,
                values,
            ) ==> forall|i: int|
                0 <= i < keys.len() && #[trigger] keys[i] == key@ && values[i] is Some ==> r is Ok
                    && r->Ok_0@ == values[i]->0,
{
    match json_str_field(config, key) {
        Some(v) => Ok(v),
        None => {
            let mut e = String::from_str("missing '");
            e.append(key);
            e.append("' in channel config");
            Err(e)
        },
    }
}

/// Builds the notification that `channel` sends when the monitor
/// `monitor_name` changes to `status`, with the check's `message` if it
/// gave one; fails with the reason when the channel's settings are not JSON
/// or lack a setting that its kind needs.
pub fn notification_request(
    channel: &NotificationChannel,
    monitor_name: &str,
    status: HeartbeatStatus,
    message: Option<&str>,
) -> (r: Result<NotificationRequest, String>)
    ensures
        request_view(r) == spec_request(
            channel.kind,
            channel.config@,
            monitor_name@,
            status,
            opt_str_view(message),
        ),
        forall|form: ChannelForm|
            #[trigger] spec_form_config(channel.kind, form) == channel.config@ ==> request_view(r)
                == spec_form_request(channel.kind, form, monitor_name@, status, opt_str_view(message)),
{
    proof {
        lemma_form_keys_plain();
    }
    let config = channel.config.as_str();
    match json_error(config) {
        Some(e) => {
            return Err(e);
        },
        None => {},
    }
    let text = alert_text(monitor_name, status, message);
    if channel.kind == ChannelKind::Telegram {
        let token = match config_str(config, "bot_token") {
            Ok(t) => t,
            Err(e) => {
                proof {
                    assert forall|form: ChannelForm| #[trigger]
                        spec_form_config(channel.kind, form) != channel.config@ by {
                        let keys = seq!["bot_token"@, "chat_id"@];
                        let values = seq![Some(form.bot_token@), Some(form.chat_id@)];
                        assert(keys[0] == "bot_token"@ && values[0] is Some);
                    }
                }
                return Err(e);
            },
        };
        let chat_id = match config_str(config, "chat_id") {
            Ok(c) => c,
            Err(e) => {
                proof {
                    assert forall|form: ChannelForm| #[trigger]
                        spec_form_config(channel.kind, form) != channel.config@ by {
                        let keys = seq!["bot_token"@, "chat_id"@];
                        let values = seq![Some(form.bot_token@), Some(form.chat_id@)];
                        assert(keys[1] == "chat_id"@ && values[1] is Some);
                    }
                }
                return Err(e);
            },
        };
        proof {
            assert forall|form: ChannelForm| #[trigger] spec_form_config(channel.kind, form)
                == channel.config@ implies token@ == form.bot_token@ && chat_id@ == form.chat_id@ by {
                let keys = seq!["bot_token"@, "chat_id"@];
                let values = seq![Some(form.bot_token@), Some(form.chat_id@)];
                assert(keys[0] == "bot_token"@ && values[0] is Some);
                assert(keys[1] == "chat_id"@ && values[1] is Some);
            }
        }
        let mut url = String::from_str("https://api.telegram.org/bot");
        url.append(token.as_str());
        url.append("/sendMessage");
        let body = json_object2("chat_id", Some(chat_id), "text", Some(text));
        Ok(NotificationRequest { url, body })
    } else {
        let url = match config_str(config, "url") {
            Ok(u) => u,
            Err(e) => {
                proof {
                    assert forall|form: ChannelForm| #[trigger]
                        spec_form_config(channel.kind, form) != channel.config@ by {
                        let keys = seq!["url"@];
                        let values = seq![Some(form.url@)];
                        assert(keys[0] == "url"@ && values[0] is Some);
                    }
                }
                return Err(e);
            },
        };
        proof {
            assert forall|form: ChannelForm| #[trigger] spec_form_config(channel.kind, form)
                == channel.config@ implies url@ == form.url@ by {
                let keys = seq!["url"@];
                let values = seq![Some(form.url@)];
                assert(keys[0] == "url"@ && values[0] is Some);
            }
        }
        let body = match channel.kind {
            ChannelKind::Discord => json_object1("content", Some(text)),
            ChannelKind::Slack => json_object1("text", Some(text)),
            _ => {
                let message = match message {
                    Some(m) => Some(m.to_owned()),
                    None => None,
                };
                json_object3(
                    "monitor",
                    Some(monitor_name.to_owned()),
                    "status",
                    Some(status.as_str().to_owned()),
                    "message",
                    message,
                )
            },
        };
        Ok(NotificationRequest { url, body })
    }
}

} // verus!
