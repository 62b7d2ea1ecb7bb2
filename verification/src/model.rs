//! Data model: the two payload schemas of the remote API, the inbound event
//! union, and the error taxonomy of a single command invocation.

use vstd::prelude::*;

verus! {

/// One server entry as delivered by the remote listing endpoint.
/// Field names follow the JSON member names of the payload.
#[allow(non_snake_case)]
pub struct ReadableServersContent {
    pub id: String,
    pub gameMode: String,
    pub permissions: u8,
    pub playerCount: String,
    pub provider: String,
    pub region: String,
    pub status: String,
}

/// Mathematical image of one server entry.
#[verifier::ext_equal]
pub struct ServerEntryView {
    pub id: Seq<char>,
    pub game_mode: Seq<char>,
    pub permissions: u8,
    pub player_count: Seq<char>,
    pub provider: Seq<char>,
    pub region: Seq<char>,
    pub status: Seq<char>,
}

impl View for ReadableServersContent {
    type V = ServerEntryView;

    open spec fn view(&self) -> ServerEntryView {
        ServerEntryView {
            id: self.id@,
            game_mode: self.gameMode@,
            permissions: self.permissions,
            player_count: self.playerCount@,
            provider: self.provider@,
            region: self.region@,
            status: self.status@,
        }
    }
}

/// The whole response of the server listing endpoint: an ordered sequence of
/// entries, never mutated once parsed.
#[allow(non_snake_case)]
pub struct ReadableServersMessage {
    pub content: Vec<ReadableServersContent>,
    pub contentType: String,
}

/// Mathematical image of a server listing response.
#[verifier::ext_equal]
pub struct ServersMessageView {
    pub content: Seq<ServerEntryView>,
    pub content_type: Seq<char>,
}

impl View for ReadableServersMessage {
    type V = ServersMessageView;

    open spec fn view(&self) -> ServersMessageView {
        ServersMessageView {
            content: self.content@.map_values(|e: ReadableServersContent| e@),
            content_type: self.contentType@,
        }
    }
}

/// One changelog entry as delivered by the remote changelog endpoint.
pub struct ChangelogContent {
    pub content: String,
    pub date: String,
    pub title: String,
    pub version: String,
    pub warn: bool,
}

/// Mathematical image of one changelog entry.
#[verifier::ext_equal]
pub struct ChangelogEntryView {
    pub content: Seq<char>,
    pub date: Seq<char>,
    pub title: Seq<char>,
    pub version: Seq<char>,
    pub warn: bool,
}

impl View for ChangelogContent {
    type V = ChangelogEntryView;

    open spec fn view(&self) -> ChangelogEntryView {
        ChangelogEntryView {
            content: self.content@,
            date: self.date@,
            title: self.title@,
            version: self.version@,
            warn: self.warn,
        }
    }
}

/// The whole response of the changelog endpoint. Ordering is significant:
/// index 0 is defined as "latest".
#[allow(non_snake_case)]
pub struct ChangelogMessage {
    pub content: Vec<ChangelogContent>,
    pub contentType: String,
}

/// Mathematical image of a changelog response.
#[verifier::ext_equal]
pub struct ChangelogMessageView {
    pub content: Seq<ChangelogEntryView>,
    pub content_type: Seq<char>,
}

impl View for ChangelogMessage {
    type V = ChangelogMessageView;

    open spec fn view(&self) -> ChangelogMessageView {
        ChangelogMessageView {
            content: self.content@.map_values(|e: ChangelogContent| e@),
            content_type: self.contentType@,
        }
    }
}

/// Why one remote-API invocation failed. Either outcome is contained at the
/// command boundary and turned into a single user-visible error reply.
#[derive(Clone, Copy, Debug, PartialEq, Eq, Structural)]
pub enum ApiError {
    /// The transport could not complete the request.
    Network,
    /// The body came back but did not match the expected schema.
    Payload,
}

/// Inbound gateway events actually consumed, with an explicit catch-all so
/// new gateway event kinds never require new handling unless intended.
pub enum InboundEvent {
    MessageCreate { channel_id: u64, content: String },
    ShardConnected { shard_id: u64 },
    Other,
}

/// Mathematical image of an inbound event.
#[verifier::ext_equal]
pub enum InboundEventView {
    MessageCreate { channel_id: u64, content: Seq<char> },
    ShardConnected { shard_id: u64 },
    Other,
}

impl View for InboundEvent {
    type V = InboundEventView;

    open spec fn view(&self) -> InboundEventView {
        match self {
            InboundEvent::MessageCreate { channel_id, content } => {
                InboundEventView::MessageCreate { channel_id: *channel_id, content: content@ }
            },
            InboundEvent::ShardConnected { shard_id } => {
                InboundEventView::ShardConnected { shard_id: *shard_id }
            },
            InboundEvent::Other => InboundEventView::Other,
        }
    }
}

} // verus!
