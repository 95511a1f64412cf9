//! The notification channel form: what a submitted form is stored as.

use vstd::prelude::*;
use vstd::string::*;

use crate::db::models::ChannelKind;
use crate::json::{json_object1, json_object2, json_object_text};

verus! {

/// The fields of the channel form, as submitted; fields the form leaves out are empty.
pub struct ChannelForm {
    pub name: String,
    pub kind: String,
    pub url: String,
    pub bot_token: String,
    pub chat_id: String,
}

/// A channel ready to be stored: its name, kind and JSON settings.
pub struct ChannelSettings {
    pub name: String,
    pub kind: ChannelKind,
    pub config: String,
}

/// The kind a form names; a name that is no kind becomes a webhook.
pub open spec fn spec_form_kind(s: Seq<char>) -> ChannelKind {
    match ChannelKind::spec_parse(s) {
        Some(k) => k,
        None => ChannelKind::Webhook,
    }
}

/// The form saves the kind it names: a form naming a kind by its name saves
/// that kind, and a form naming no kind saves a webhook.
pub proof fn lemma_form_kind_is_named_kind(k: ChannelKind, s: Seq<char>)
    ensures
        spec_form_kind(k.spec_name()) == k,
        ChannelKind::spec_parse(s) == Some(k) ==> spec_form_kind(s) == k,
        ChannelKind::spec_parse(s) is None ==> spec_form_kind(s) == ChannelKind::Webhook,
{
    crate::db::models::lemma_channel_kind_round_trip(k, s);
}

/// The JSON settings stored for a channel of kind `kind`, as `serde_json`
/// writes them: a Telegram channel keeps its bot token and chat id, every
/// other kind its URL.
pub open spec fn spec_form_config(kind: ChannelKind, form: ChannelForm) -> Seq<char> {
    if kind == ChannelKind::Telegram {
        json_object_text(seq!["bot_token"@, "chat_id"@], seq![Some(form.bot_token@), Some(form.chat_id@)])
    } else {
        json_object_text(seq!["url"@], seq![Some(form.url@)])
    }
}

/// The channel that a submitted form describes.
pub fn form_to_channel(form: ChannelForm) -> (c: ChannelSettings)
    ensures
        c.name == form.name,
        c.kind == spec_form_kind(form.kind@),
        c.config@ == spec_form_config(c.kind, form),
{
    let kind = match ChannelKind::parse(form.kind.as_str()) {
        Some(k) => k,
        None => ChannelKind::Webhook,
    };
    let config = match kind {
        ChannelKind::Telegram => json_object2(
            "bot_token",
            Some(form.bot_token.clone()),
            "chat_id",
            Some(form.chat_id.clone()),
        ),
        _ => json_object1("url", Some(form.url.clone())),
    };
    ChannelSettings { name: form.name, kind, config }
}

} // verus!
