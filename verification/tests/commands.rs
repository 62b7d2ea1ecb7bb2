use tanklarkit::dispatch::{classify, EventAction, MessageCache};
use tanklarkit::model::{
    ApiError, ChangelogContent, ChangelogMessage, InboundEvent, ReadableServersContent,
    ReadableServersMessage,
};
use tanklarkit::reply::{handle_message, replies_for, FetchOutcome, OutboundReply, EMBED_COLOR};
use tanklarkit::router::{parse_command, required_fetch, Command, FetchNeed};
use tanklarkit::text::u8_to_decimal;

fn changelog_fixture() -> ChangelogMessage {
    ChangelogMessage {
        content: vec![
            ChangelogContent {
                content: "Added turrets".to_owned(),
                date: "2021-04-01".to_owned(),
                title: "Update 3".to_owned(),
                version: "1.3.0".to_owned(),
                warn: false,
            },
            ChangelogContent {
                content: "Fixed physics".to_owned(),
                date: "2021-03-15".to_owned(),
                title: "Update 2".to_owned(),
                version: "1.2.1".to_owned(),
                warn: true,
            },
        ],
        contentType: "changelogData".to_owned(),
    }
}

fn servers_fixture() -> ReadableServersMessage {
    ReadableServersMessage {
        content: vec![ReadableServersContent {
            id: "srv-1".to_owned(),
            gameMode: "ctf".to_owned(),
            permissions: 148,
            playerCount: "12/32".to_owned(),
            provider: "alpha".to_owned(),
            region: "eu".to_owned(),
            status: "online".to_owned(),
        }],
        contentType: "readableServers".to_owned(),
    }
}

fn assert_error_reply(r: &OutboundReply) {
    assert_eq!(r.title, "Error");
    assert_eq!(r.description, "could not fetch data");
    assert_eq!(r.color, EMBED_COLOR);
    assert_eq!(r.fields.len(), 0);
}

#[test]
fn command_matching_is_exact() {
    assert_eq!(parse_command("!help"), Command::Help);
    assert_eq!(parse_command("!servers"), Command::Servers);
    assert_eq!(parse_command("!changelog"), Command::Changelog);
    assert_eq!(parse_command("!latest update"), Command::LatestUpdate);
    assert_eq!(parse_command("!Servers"), Command::NoCommand);
    assert_eq!(parse_command("!servers "), Command::NoCommand);
    assert_eq!(parse_command("!servers extra"), Command::NoCommand);
    assert_eq!(parse_command(""), Command::NoCommand);
}

#[test]
fn unmatched_text_produces_zero_replies() {
    for text in ["!Servers", "!servers ", "!servers extra", "hello"] {
        let replies = handle_message(text, &FetchOutcome::NoData);
        assert_eq!(replies.len(), 0);
    }
}

#[test]
fn required_fetch_follows_command_table() {
    assert_eq!(required_fetch(Command::Help), FetchNeed::NoFetch);
    assert_eq!(required_fetch(Command::Servers), FetchNeed::FetchServers);
    assert_eq!(required_fetch(Command::Changelog), FetchNeed::FetchChangelog);
    assert_eq!(required_fetch(Command::LatestUpdate), FetchNeed::FetchChangelog);
    assert_eq!(required_fetch(Command::NoCommand), FetchNeed::NoFetch);
}

#[test]
fn help_lists_the_four_commands_without_any_fetch() {
    let replies = handle_message("!help", &FetchOutcome::NoData);
    assert_eq!(replies.len(), 1);
    let r = &replies[0];
    assert_eq!(r.title, "Help");
    assert_eq!(r.description, "Supported commands");
    assert_eq!(r.color, EMBED_COLOR);
    assert_eq!(r.fields.len(), 4);
    assert_eq!(r.fields[0].name, "!help");
    assert_eq!(r.fields[1].name, "!servers");
    assert_eq!(r.fields[2].name, "!changelog");
    assert_eq!(r.fields[3].name, "!latest update");
    assert!(r.fields.iter().all(|f| f.inline));

    // Help makes no remote call: the reply is the same whatever data is at hand.
    let with_failure = handle_message(
        "!help",
        &FetchOutcome::ServersData(Err(ApiError::Network)),
    );
    assert_eq!(with_failure.len(), 1);
    assert_eq!(with_failure[0].title, "Help");
    assert_eq!(with_failure[0].fields.len(), 4);
}

#[test]
fn servers_renders_one_reply_per_entry() {
    let data = FetchOutcome::ServersData(Ok(servers_fixture()));
    let replies = handle_message("!servers", &data);
    assert_eq!(replies.len(), 1);
    let r = &replies[0];
    assert_eq!(r.title, "Readable Server");
    assert_eq!(r.description, "Server Response");
    assert_eq!(r.fields.len(), 6);
    assert_eq!(r.fields[0].name, "gamemode");
    assert_eq!(r.fields[0].value, "ctf");
    assert_eq!(r.fields[1].name, "player count");
    assert_eq!(r.fields[1].value, "12/32");
    assert_eq!(r.fields[2].name, "provider");
    assert_eq!(r.fields[2].value, "alpha");
    assert_eq!(r.fields[3].name, "region");
    assert_eq!(r.fields[3].value, "eu");
    assert_eq!(r.fields[4].name, "status");
    assert_eq!(r.fields[4].value, "online");
    assert_eq!(r.fields[5].name, "permissions");
    assert_eq!(r.fields[5].value, "148");
}

#[test]
fn changelog_renders_every_entry_in_order() {
    let data = FetchOutcome::ChangelogData(Ok(changelog_fixture()));
    let replies = handle_message("!changelog", &data);
    assert_eq!(replies.len(), 2);
    assert_eq!(replies[0].title, "Update 3");
    assert_eq!(replies[0].description, "Added turrets");
    assert_eq!(replies[0].fields.len(), 1);
    assert_eq!(replies[0].fields[0].name, "version");
    assert_eq!(replies[0].fields[0].value, "1.3.0");
    assert_eq!(replies[1].title, "Update 2");
    assert_eq!(replies[1].description, "Fixed physics");
    assert_eq!(replies[1].fields[0].value, "1.2.1");
}

#[test]
fn latest_update_selects_exactly_index_zero() {
    let data = FetchOutcome::ChangelogData(Ok(changelog_fixture()));
    let replies = handle_message("!latest update", &data);
    assert_eq!(replies.len(), 1);
    assert_eq!(replies[0].title, "Update 3");
    assert_eq!(replies[0].description, "Added turrets");
    assert_eq!(replies[0].fields.len(), 1);
    assert_eq!(replies[0].fields[0].name, "version");
    assert_eq!(replies[0].fields[0].value, "1.3.0");
}

#[test]
fn latest_update_on_empty_changelog_is_silent() {
    let empty = ChangelogMessage { content: vec![], contentType: "changelogData".to_owned() };
    let replies = handle_message("!latest update", &FetchOutcome::ChangelogData(Ok(empty)));
    assert_eq!(replies.len(), 0);
}

#[test]
fn network_failure_yields_exactly_one_error_reply() {
    let replies = handle_message(
        "!servers",
        &FetchOutcome::ServersData(Err(ApiError::Network)),
    );
    assert_eq!(replies.len(), 1);
    assert_error_reply(&replies[0]);

    // The router is stateless: a later message is handled as if nothing happened.
    let after = handle_message("!help", &FetchOutcome::NoData);
    assert_eq!(after.len(), 1);
    assert_eq!(after[0].title, "Help");
}

#[test]
fn payload_failure_yields_exactly_one_error_reply() {
    for cmd in [Command::Changelog, Command::LatestUpdate] {
        let replies = replies_for(cmd, &FetchOutcome::ChangelogData(Err(ApiError::Payload)));
        assert_eq!(replies.len(), 1);
        assert_error_reply(&replies[0]);
    }
}

#[test]
fn classify_routes_each_event_kind() {
    let msg = InboundEvent::MessageCreate { channel_id: 42, content: "!servers".to_owned() };
    match classify(&msg) {
        EventAction::RunCommand { channel_id, command } => {
            assert_eq!(channel_id, 42);
            assert_eq!(command, Command::Servers);
        },
        _ => panic!("a message must run its command"),
    }
    let shard = InboundEvent::ShardConnected { shard_id: 3 };
    match classify(&shard) {
        EventAction::AnnounceShard { shard_id } => assert_eq!(shard_id, 3),
        _ => panic!("a shard connection must be announced"),
    }
    assert!(matches!(classify(&InboundEvent::Other), EventAction::Ignore));
}

#[test]
fn cache_records_back_to_back_messages_in_order() {
    let mut cache = MessageCache::new();
    cache.update(&InboundEvent::MessageCreate { channel_id: 1, content: "!help".to_owned() });
    cache.update(&InboundEvent::MessageCreate { channel_id: 2, content: "hello".to_owned() });
    assert_eq!(cache.len(), 2);
    assert_eq!(cache.messages[0].channel_id, 1);
    assert_eq!(cache.messages[0].content, "!help");
    assert_eq!(cache.messages[1].channel_id, 2);
    assert_eq!(cache.messages[1].content, "hello");

    // Non-message events leave the cache untouched.
    cache.update(&InboundEvent::ShardConnected { shard_id: 0 });
    cache.update(&InboundEvent::Other);
    assert_eq!(cache.len(), 2);
}

#[test]
fn permissions_render_as_decimal() {
    assert_eq!(u8_to_decimal(0), "0");
    assert_eq!(u8_to_decimal(7), "7");
    assert_eq!(u8_to_decimal(10), "10");
    assert_eq!(u8_to_decimal(42), "42");
    assert_eq!(u8_to_decimal(100), "100");
    assert_eq!(u8_to_decimal(255), "255");
}
