//! The rule that turns rows of the `notification_channels` table into records.

use vstd::prelude::*;

use crate::db::models::{ChannelKind, NotificationChannel};

verus! {

/// A row of the `notification_channels` table, as the database hands it over.
#[derive(Debug, Clone)]
pub struct ChannelRow {
    pub id: i64,
    pub name: String,
    pub kind: String,
    pub config: String,
    pub active: i64,
}

/// The channel kind stored as `s`; a name that is no kind reads as a webhook.
pub open spec fn spec_stored_channel_kind(s: Seq<char>) -> ChannelKind {
    match ChannelKind::spec_parse(s) {
        Some(k) => k,
        None => ChannelKind::Webhook,
    }
}

/// A channel kind stored under its own name reads back as that kind, and a
/// stored name that is no kind's name reads as a webhook.
pub proof fn lemma_stored_channel_kind_round_trip(k: ChannelKind, s: Seq<char>)
    ensures
        spec_stored_channel_kind(k.spec_name()) == k,
        ChannelKind::spec_parse(s) is None ==> spec_stored_channel_kind(s) == ChannelKind::Webhook,
{
    crate::db::models::lemma_channel_kind_round_trip(k, s);
}

/// The channel that a row describes: an unknown kind reads as a webhook, and
/// the channel is active when the stored flag is not zero.
pub fn row_to_channel(row: ChannelRow) -> (c: NotificationChannel)
    ensures
        c.id == row.id,
        c.name == row.name,
        c.kind == spec_stored_channel_kind(row.kind@),
        c.config == row.config,
        c.active == (row.active != 0),
{
    let kind = match ChannelKind::parse(row.kind.as_str()) {
        Some(k) => k,
        None => ChannelKind::Webhook,
    };
    NotificationChannel {
        id: row.id,
        name: row.name,
        kind,
        config: row.config,
        active: row.active != 0,
    }
}

} // verus!
