//! Laws of the command table, stated and proved over the same spec functions
//! the executable functions' contracts use.

use vstd::prelude::*;
use crate::model::{ApiError, ChangelogMessageView, ServersMessageView};
use crate::router::{Command, spec_command};
use crate::reply::{
    EMBED_COLOR, FetchOutcomeView, OutboundReplyView, spec_changelog_replies,
    spec_changelog_reply, spec_error_reply, spec_help_reply, spec_latest_update_replies,
    spec_replies, spec_server_replies, spec_server_reply,
};

verus! {

/// The help command produces exactly one reply, that reply lists exactly the
/// four supported commands, one field per command, and none of it depends on
/// any fetch outcome: help makes no remote call.
pub proof fn lemma_help_ignores_fetch(d: FetchOutcomeView)
    ensures
        spec_replies(Command::Help, d) =~= seq![spec_help_reply()],
        spec_replies(Command::Help, d).len() == 1,
        spec_help_reply().fields.len() == 4,
        spec_help_reply().fields[0].name == "!help"@,
        spec_help_reply().fields[1].name == "!servers"@,
        spec_help_reply().fields[2].name == "!changelog"@,
        spec_help_reply().fields[3].name == "!latest update"@,
{
}

/// The changelog command renders every entry of the response, one reply per
/// entry, in original order.
pub proof fn lemma_changelog_renders_in_order(m: ChangelogMessageView)
    ensures
        spec_changelog_replies(m).len() == m.content.len(),
        forall|i: int|
            0 <= i < m.content.len() ==> spec_changelog_replies(m)[i] == spec_changelog_reply(
                m.content[i],
            ),
{
}

/// The server command renders every entry of the response, one reply per
/// entry, in original order.
pub proof fn lemma_servers_rendered_in_order(m: ServersMessageView)
    ensures
        spec_server_replies(m).len() == m.content.len(),
        forall|i: int|
            0 <= i < m.content.len() ==> spec_server_replies(m)[i] == spec_server_reply(
                m.content[i],
            ),
{
}

/// The latest-update command selects exactly the entry at index 0: it renders
/// the head of what the changelog command would render, and an empty
/// changelog produces zero replies.
pub proof fn lemma_latest_selects_first(m: ChangelogMessageView)
    ensures
        m.content.len() == 0 ==> spec_latest_update_replies(m) =~= Seq::<
            OutboundReplyView,
        >::empty(),
        m.content.len() > 0 ==> spec_latest_update_replies(m) =~= seq![
            spec_changelog_reply(m.content[0]),
        ],
        m.content.len() > 0 ==> spec_latest_update_replies(m) =~= spec_changelog_replies(
            m,
        ).take(1),
{
    if m.content.len() > 0 {
        assert(spec_changelog_replies(m).take(1)[0] == spec_changelog_reply(m.content[0]));
    }
}

/// A failed remote fetch yields exactly one user-visible error reply, for
/// each command that fetches, whatever the failure was.
pub proof fn lemma_fetch_failure_single_error(e: ApiError)
    ensures
        spec_replies(Command::Servers, FetchOutcomeView::ServersData(Err(e))) =~= seq![
            spec_error_reply(),
        ],
        spec_replies(Command::Changelog, FetchOutcomeView::ChangelogData(Err(e))) =~= seq![
            spec_error_reply(),
        ],
        spec_replies(Command::LatestUpdate, FetchOutcomeView::ChangelogData(Err(e))) =~= seq![
            spec_error_reply(),
        ],
{
}

/// Command matching is exact: each command is matched by its literal text and
/// nothing else, and any other text is no command and produces zero replies,
/// whatever data is at hand.
pub proof fn lemma_command_match_exact(s: Seq<char>, d: FetchOutcomeView)
    ensures
        spec_command(s) == Command::Help <==> s == "!help"@,
        spec_command(s) == Command::Servers <==> s == "!servers"@,
        spec_command(s) == Command::Changelog <==> s == "!changelog"@,
        spec_command(s) == Command::LatestUpdate <==> s == "!latest update"@,
        spec_command(s) == Command::NoCommand ==> spec_replies(spec_command(s), d) =~= Seq::<
            OutboundReplyView,
        >::empty(),
{
    reveal_strlit("!help");
    reveal_strlit("!servers");
    reveal_strlit("!changelog");
    reveal_strlit("!latest update");
    assert("!help"@.len() == 5);
    assert("!servers"@.len() == 8);
    assert("!changelog"@.len() == 10);
    assert("!latest update"@.len() == 14);
}

/// Every reply a command produces carries the fixed RGB accent.
pub proof fn lemma_replies_use_fixed_color(c: Command, d: FetchOutcomeView)
    ensures
        forall|i: int|
            0 <= i < spec_replies(c, d).len() ==> (#[trigger] spec_replies(c, d)[i]).color
                == EMBED_COLOR,
{
}

} // verus!
