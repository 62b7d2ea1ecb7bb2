//! Event dispatch: classifying each inbound event into the action the
//! ingestion loop takes for it, and the append-only message cache the loop
//! updates before handing the event off.

use vstd::prelude::*;
use crate::model::{InboundEvent, InboundEventView};
use crate::router::{Command, parse_command, spec_command};

verus! {

/// What the ingestion loop does with one inbound event. The handler for a
/// command runs independently of further ingestion; an unknown event kind is
/// an explicit no-op.
#[derive(PartialEq, Eq, Structural)]
pub enum EventAction {
    RunCommand { channel_id: u64, command: Command },
    AnnounceShard { shard_id: u64 },
    Ignore,
}

/// The action an event classifies into.
pub open spec fn spec_classify(e: InboundEventView) -> EventAction {
    match e {
        InboundEventView::MessageCreate { channel_id, content } => EventAction::RunCommand {
            channel_id,
            command: spec_command(content),
        },
        InboundEventView::ShardConnected { shard_id } => EventAction::AnnounceShard { shard_id },
        InboundEventView::Other => EventAction::Ignore,
    }
}

/// Classifies one inbound event: a message becomes its command, a shard
/// connection is announced, anything else is ignored.
pub fn classify(event: &InboundEvent) -> (a: EventAction)
    ensures
        a == spec_classify(event@),
{
    match event {
        InboundEvent::MessageCreate { channel_id, content } => EventAction::RunCommand {
            channel_id: *channel_id,
            command: parse_command(content.as_str()),
        },
        InboundEvent::ShardConnected { shard_id } => EventAction::AnnounceShard {
            shard_id: *shard_id,
        },
        InboundEvent::Other => EventAction::Ignore,
    }
}

/// One recorded message.
pub struct CachedMessage {
    pub channel_id: u64,
    pub content: String,
}

/// Mathematical image of one recorded message.
#[verifier::ext_equal]
pub struct CachedMessageView {
    pub channel_id: u64,
    pub content: Seq<char>,
}

impl View for CachedMessage {
    type V = CachedMessageView;

    open spec fn view(&self) -> CachedMessageView {
        CachedMessageView { channel_id: self.channel_id, content: self.content@ }
    }
}

/// What one update does to the cache: a message event is appended, every
/// other event leaves the cache unchanged.
pub open spec fn spec_cache_update(s: Seq<CachedMessageView>, e: InboundEventView) -> Seq<
    CachedMessageView,
> {
    match e {
        InboundEventView::MessageCreate { channel_id, content } => s.push(
            CachedMessageView { channel_id, content },
        ),
        _ => s,
    }
}

/// The in-memory, append-only view of recently seen messages, updated from
/// every inbound event before dispatch. Current command handlers never read
/// it; it is the hook point for future stateful commands. It has a single
/// writer, the ingestion loop, and each update is one append: O(1) work.
pub struct MessageCache {
    pub messages: Vec<CachedMessage>,
}

impl View for MessageCache {
    type V = Seq<CachedMessageView>;

    open spec fn view(&self) -> Seq<CachedMessageView> {
        self.messages@.map_values(|m: CachedMessage| m@)
    }
}

impl MessageCache {
    /// An empty cache.
    pub fn new() -> (c: Self)
        ensures
            c@ == Seq::<CachedMessageView>::empty(),
    {
        let c = MessageCache { messages: Vec::new() };
        proof {
            assert(c@ =~= Seq::<CachedMessageView>::empty());
        }
        c
    }

    /// Observes one inbound event: records a message event, leaves the cache
    /// unchanged for anything else.
    pub fn update(&mut self, event: &InboundEvent)
        ensures
            final(self)@ == spec_cache_update(old(self)@, event@),
    {
        match event {
            InboundEvent::MessageCreate { channel_id, content } => {
                self.messages.push(
                    CachedMessage { channel_id: *channel_id, content: content.clone() },
                );
                proof {
                    assert(self@ =~= spec_cache_update(old(self)@, event@));
                }
            },
            _ => {
                proof {
                    assert(self@ =~= spec_cache_update(old(self)@, event@));
                }
            },
        }
    }

    /// How many messages are recorded.
    pub fn len(&self) -> (n: usize)
        ensures
            n == self@.len(),
    {
        self.messages.len()
    }
}

/// Back-to-back message events are both recorded, in arrival order: after the
/// cache observes two message events, it holds both appended at the end, the
/// first before the second, and everything already recorded is untouched.
pub proof fn lemma_cache_records_back_to_back(
    s: Seq<CachedMessageView>,
    e1: InboundEventView,
    e2: InboundEventView,
)
    requires
        e1 is MessageCreate,
        e2 is MessageCreate,
    ensures
        spec_cache_update(spec_cache_update(s, e1), e2).len() == s.len() + 2,
        spec_cache_update(spec_cache_update(s, e1), e2)[s.len() as int]
            == (CachedMessageView { channel_id: e1->MessageCreate_channel_id, content: e1->MessageCreate_content }),
        spec_cache_update(spec_cache_update(s, e1), e2)[s.len() as int + 1]
            == (CachedMessageView { channel_id: e2->MessageCreate_channel_id, content: e2->MessageCreate_content }),
        forall|j: int| 0 <= j < s.len() ==> spec_cache_update(spec_cache_update(s, e1), e2)[j]
            == s[j],
{
}

} // verus!
