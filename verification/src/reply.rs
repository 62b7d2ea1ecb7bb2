//! Reply builder: turns a command and the outcome of its remote fetch into
//! the ordered sequence of outbound reply payloads, exactly as the command
//! table prescribes. A fetch failure is contained here as a single
//! user-visible error reply.

use vstd::prelude::*;
use crate::model::{
    ApiError, ChangelogContent, ChangelogEntryView, ChangelogMessage, ChangelogMessageView,
    ReadableServersContent, ReadableServersMessage, ServerEntryView, ServersMessageView,
};
use crate::router::{Command, parse_command, spec_command};
use crate::text::{spec_decimal, u8_to_decimal};

verus! {

/// The fixed RGB accent of every reply.
pub const EMBED_COLOR: u32 = 0x002f94;

/// One field of a structured reply payload.
pub struct ReplyField {
    pub name: String,
    pub value: String,
    pub inline: bool,
}

/// Mathematical image of a reply field.
#[verifier::ext_equal]
pub struct ReplyFieldView {
    pub name: Seq<char>,
    pub value: Seq<char>,
    pub inline: bool,
}

impl View for ReplyField {
    type V = ReplyFieldView;

    open spec fn view(&self) -> ReplyFieldView {
        ReplyFieldView { name: self.name@, value: self.value@, inline: self.inline }
    }
}

/// One outbound structured reply.
pub struct OutboundReply {
    pub title: String,
    pub description: String,
    pub color: u32,
    pub fields: Vec<ReplyField>,
}

/// Mathematical image of an outbound reply.
#[verifier::ext_equal]
pub struct OutboundReplyView {
    pub title: Seq<char>,
    pub description: Seq<char>,
    pub color: u32,
    pub fields: Seq<ReplyFieldView>,
}

impl View for OutboundReply {
    type V = OutboundReplyView;

    open spec fn view(&self) -> OutboundReplyView {
        OutboundReplyView {
            title: self.title@,
            description: self.description@,
            color: self.color,
            fields: self.fields@.map_values(|f: ReplyField| f@),
        }
    }
}

/// The images of a sequence of replies.
pub open spec fn reply_views(v: Seq<OutboundReply>) -> Seq<OutboundReplyView> {
    v.map_values(|r: OutboundReply| r@)
}

/// An inline field, as every field of the command table is.
pub open spec fn spec_field(name: Seq<char>, value: Seq<char>) -> ReplyFieldView {
    ReplyFieldView { name, value, inline: true }
}

/// The single help reply: one field per supported command.
pub open spec fn spec_help_reply() -> OutboundReplyView {
    OutboundReplyView {
        title: "Help"@,
        description: "Supported commands"@,
        color: EMBED_COLOR,
        fields: seq![
            spec_field("!help"@, "Display this list of commands"@),
            spec_field("!servers"@, "Display the contents of /readableServers"@),
            spec_field("!changelog"@, "Display the contents of /changelogData"@),
            spec_field("!latest update"@, "Display the first content of /changelogData"@),
        ],
    }
}

/// The reply rendering one server entry: six fields in fixed order, the
/// permissions bitmask rendered as its decimal string.
pub open spec fn spec_server_reply(e: ServerEntryView) -> OutboundReplyView {
    OutboundReplyView {
        title: "Readable Server"@,
        description: "Server Response"@,
        color: EMBED_COLOR,
        fields: seq![
            spec_field("gamemode"@, e.game_mode),
            spec_field("player count"@, e.player_count),
            spec_field("provider"@, e.provider),
            spec_field("region"@, e.region),
            spec_field("status"@, e.status),
            spec_field("permissions"@, spec_decimal(e.permissions as nat)),
        ],
    }
}

/// The reply rendering one changelog entry.
pub open spec fn spec_changelog_reply(e: ChangelogEntryView) -> OutboundReplyView {
    OutboundReplyView {
        title: e.title,
        description: e.content,
        color: EMBED_COLOR,
        fields: seq![spec_field("version"@, e.version)],
    }
}

/// The single user-visible notice for a failed remote fetch.
pub open spec fn spec_error_reply() -> OutboundReplyView {
    OutboundReplyView {
        title: "Error"@,
        description: "could not fetch data"@,
        color: EMBED_COLOR,
        fields: Seq::empty(),
    }
}

/// One reply per server entry, in response order.
pub open spec fn spec_server_replies(m: ServersMessageView) -> Seq<OutboundReplyView> {
    m.content.map_values(|e: ServerEntryView| spec_server_reply(e))
}

/// One reply per changelog entry, in response order.
pub open spec fn spec_changelog_replies(m: ChangelogMessageView) -> Seq<OutboundReplyView> {
    m.content.map_values(|e: ChangelogEntryView| spec_changelog_reply(e))
}

/// The latest-update selection: the entry at index 0 only, nothing when the
/// changelog is empty.
pub open spec fn spec_latest_update_replies(m: ChangelogMessageView) -> Seq<OutboundReplyView> {
    if m.content.len() == 0 {
        Seq::empty()
    } else {
        seq![spec_changelog_reply(m.content[0])]
    }
}

/// The outcome of the remote fetch a command required, handed back by the
/// transport: nothing for commands that fetch nothing, else the parsed
/// payload or the error of that invocation.
pub enum FetchOutcome {
    NoData,
    ServersData(Result<ReadableServersMessage, ApiError>),
    ChangelogData(Result<ChangelogMessage, ApiError>),
}

/// Mathematical image of a fetch outcome.
#[verifier::ext_equal]
pub enum FetchOutcomeView {
    NoData,
    ServersData(Result<ServersMessageView, ApiError>),
    ChangelogData(Result<ChangelogMessageView, ApiError>),
}

impl View for FetchOutcome {
    type V = FetchOutcomeView;

    open spec fn view(&self) -> FetchOutcomeView {
        match self {
            FetchOutcome::NoData => FetchOutcomeView::NoData,
            FetchOutcome::ServersData(r) => FetchOutcomeView::ServersData(
                match r {
                    Ok(m) => Ok(m@),
                    Err(e) => Err(*e),
                },
            ),
            FetchOutcome::ChangelogData(r) => FetchOutcomeView::ChangelogData(
                match r {
                    Ok(m) => Ok(m@),
                    Err(e) => Err(*e),
                },
            ),
        }
    }
}

/// The full command table: the replies a command produces from the outcome of
/// its fetch. A fetch outcome that does not belong to the command produces
/// nothing.
pub open spec fn spec_replies(c: Command, d: FetchOutcomeView) -> Seq<OutboundReplyView> {
    match c {
        Command::Help => seq![spec_help_reply()],
        Command::Servers => match d {
            FetchOutcomeView::ServersData(Ok(m)) => spec_server_replies(m),
            FetchOutcomeView::ServersData(Err(_)) => seq![spec_error_reply()],
            _ => Seq::empty(),
        },
        Command::Changelog => match d {
            FetchOutcomeView::ChangelogData(Ok(m)) => spec_changelog_replies(m),
            FetchOutcomeView::ChangelogData(Err(_)) => seq![spec_error_reply()],
            _ => Seq::empty(),
        },
        Command::LatestUpdate => match d {
            FetchOutcomeView::ChangelogData(Ok(m)) => spec_latest_update_replies(m),
            FetchOutcomeView::ChangelogData(Err(_)) => seq![spec_error_reply()],
            _ => Seq::empty(),
        },
        Command::NoCommand => Seq::empty(),
    }
}

/// Builds one inline field.
fn make_field(name: &str, value: String) -> (r: ReplyField)
    ensures
        r@ == spec_field(name@, value@),
{
    ReplyField { name: name.to_owned(), value, inline: true }
}

/// Builds the help reply.
pub fn help_reply() -> (r: OutboundReply)
    ensures
        r@ == spec_help_reply(),
{
    let mut fields: Vec<ReplyField> = Vec::new();
    fields.push(make_field("!help", "Display this list of commands".to_owned()));
    fields.push(make_field("!servers", "Display the contents of /readableServers".to_owned()));
    fields.push(make_field("!changelog", "Display the contents of /changelogData".to_owned()));
    fields.push(
        make_field("!latest update", "Display the first content of /changelogData".to_owned()),
    );
    let r = OutboundReply {
        title: "Help".to_owned(),
        description: "Supported commands".to_owned(),
        color: EMBED_COLOR,
        fields,
    };
    proof {
        assert(r@ =~~= spec_help_reply());
    }
    r
}

/// Builds the reply for one server entry.
pub fn server_reply(s: &ReadableServersContent) -> (r: OutboundReply)
    ensures
        r@ == spec_server_reply(s@),
{
    let mut fields: Vec<ReplyField> = Vec::new();
    fields.push(make_field("gamemode", s.gameMode.clone()));
    fields.push(make_field("player count", s.playerCount.clone()));
    fields.push(make_field("provider", s.provider.clone()));
    fields.push(make_field("region", s.region.clone()));
    fields.push(make_field("status", s.status.clone()));
    fields.push(make_field("permissions", u8_to_decimal(s.permissions)));
    let r = OutboundReply {
        title: "Readable Server".to_owned(),
        description: "Server Response".to_owned(),
        color: EMBED_COLOR,
        fields,
    };
    proof {
        assert(r@ =~~= spec_server_reply(s@));
    }
    r
}

/// Builds the reply for one changelog entry.
pub fn changelog_reply(e: &ChangelogContent) -> (r: OutboundReply)
    ensures
        r@ == spec_changelog_reply(e@),
{
    let mut fields: Vec<ReplyField> = Vec::new();
    fields.push(make_field("version", e.version.clone()));
    let r = OutboundReply {
        title: e.title.clone(),
        description: e.content.clone(),
        color: EMBED_COLOR,
        fields,
    };
    proof {
        assert(r@ =~~= spec_changelog_reply(e@));
    }
    r
}

/// Builds the error notice for a failed fetch.
pub fn error_reply() -> (r: OutboundReply)
    ensures
        r@ == spec_error_reply(),
{
    let r = OutboundReply {
        title: "Error".to_owned(),
        description: "could not fetch data".to_owned(),
        color: EMBED_COLOR,
        fields: Vec::new(),
    };
    proof {
        assert(r@ =~~= spec_error_reply());
    }
    r
}

/// Builds one reply per server entry, in response order.
#[verifier::loop_isolation(false)]
pub fn server_replies(m: &ReadableServersMessage) -> (r: Vec<OutboundReply>)
    ensures
        reply_views(r@) == spec_server_replies(m@),
{
    let mut out: Vec<OutboundReply> = Vec::new();
    let mut i: usize = 0;
    while i < m.content.len()
        invariant
            i <= m.content.len(),
            out@.len() == i,
            forall|j: int| 0 <= j < i ==> #[trigger] out@[j]@ == spec_server_reply(m@.content[j]),
        decreases m.content.len() - i,
    {
        let reply = server_reply(&m.content[i]);
        out.push(reply);
        i = i + 1;
    }
    proof {
        assert(reply_views(out@) =~= spec_server_replies(m@));
    }
    out
}

/// Builds one reply per changelog entry, in response order.
#[verifier::loop_isolation(false)]
pub fn changelog_replies(m: &ChangelogMessage) -> (r: Vec<OutboundReply>)
    ensures
        reply_views(r@) == spec_changelog_replies(m@),
{
    let mut out: Vec<OutboundReply> = Vec::new();
    let mut i: usize = 0;
    while i < m.content.len()
        invariant
            i <= m.content.len(),
            out@.len() == i,
            forall|j: int| 0 <= j < i ==> #[trigger] out@[j]@ == spec_changelog_reply(
                m@.content[j],
            ),
        decreases m.content.len() - i,
    {
        let reply = changelog_reply(&m.content[i]);
        out.push(reply);
        i = i + 1;
    }
    proof {
        assert(reply_views(out@) =~= spec_changelog_replies(m@));
    }
    out
}

/// Builds the latest-update selection: the entry at index 0 only, and no
/// reply at all when the changelog is empty.
pub fn latest_update_replies(m: &ChangelogMessage) -> (r: Vec<OutboundReply>)
    ensures
        reply_views(r@) == spec_latest_update_replies(m@),
{
    let mut out: Vec<OutboundReply> = Vec::new();
    if m.content.len() > 0 {
        let reply = changelog_reply(&m.content[0]);
        out.push(reply);
    }
    proof {
        assert(reply_views(out@) =~= spec_latest_update_replies(m@));
    }
    out
}

/// Builds the replies for a command from the outcome of its fetch: the whole
/// command table in one step.
pub fn replies_for(c: Command, d: &FetchOutcome) -> (r: Vec<OutboundReply>)
    ensures
        reply_views(r@) == spec_replies(c, d@),
{
    let r = match c {
        Command::Help => {
            let mut out: Vec<OutboundReply> = Vec::new();
            out.push(help_reply());
            out
        },
        Command::Servers => match d {
            FetchOutcome::ServersData(Ok(m)) => server_replies(m),
            FetchOutcome::ServersData(Err(_)) => {
                let mut out: Vec<OutboundReply> = Vec::new();
                out.push(error_reply());
                out
            },
            _ => Vec::new(),
        },
        Command::Changelog => match d {
            FetchOutcome::ChangelogData(Ok(m)) => changelog_replies(m),
            FetchOutcome::ChangelogData(Err(_)) => {
                let mut out: Vec<OutboundReply> = Vec::new();
                out.push(error_reply());
                out
            },
            _ => Vec::new(),
        },
        Command::LatestUpdate => match d {
            FetchOutcome::ChangelogData(Ok(m)) => latest_update_replies(m),
            FetchOutcome::ChangelogData(Err(_)) => {
                let mut out: Vec<OutboundReply> = Vec::new();
                out.push(error_reply());
                out
            },
            _ => Vec::new(),
        },
        Command::NoCommand => Vec::new(),
    };
    proof {
        assert(reply_views(r@) =~= spec_replies(c, d@));
    }
    r
}

/// Handles one message: matches the text against the command table and builds
/// the replies from the outcome of the fetch the command required.
pub fn handle_message(content: &str, d: &FetchOutcome) -> (r: Vec<OutboundReply>)
    ensures
        reply_views(r@) == spec_replies(spec_command(content@), d@),
{
    let c = parse_command(content);
    replies_for(c, d)
}

} // verus!
