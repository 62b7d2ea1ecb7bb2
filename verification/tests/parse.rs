use tanklarkit::api::{parse_changelog_response, parse_servers_response};
use tanklarkit::model::ApiError;

#[test]
fn well_formed_servers_body_is_mirrored_in_order() {
    let body = r#"{
        "content": [
            {
                "id": "srv-1",
                "gameMode": "ctf",
                "permissions": 148,
                "playerCount": "12/32",
                "provider": "alpha",
                "region": "eu",
                "status": "online"
            },
            {
                "id": "srv-2",
                "gameMode": "ffa",
                "permissions": 0,
                "playerCount": "3/16",
                "provider": "beta",
                "region": "us",
                "status": "offline"
            }
        ],
        "contentType": "readableServers"
    }"#;
    let m = parse_servers_response(body).expect("well-formed body must parse");
    assert_eq!(m.contentType, "readableServers");
    assert_eq!(m.content.len(), 2);
    assert_eq!(m.content[0].id, "srv-1");
    assert_eq!(m.content[0].gameMode, "ctf");
    assert_eq!(m.content[0].permissions, 148);
    assert_eq!(m.content[0].playerCount, "12/32");
    assert_eq!(m.content[0].provider, "alpha");
    assert_eq!(m.content[0].region, "eu");
    assert_eq!(m.content[0].status, "online");
    assert_eq!(m.content[1].id, "srv-2");
    assert_eq!(m.content[1].gameMode, "ffa");
    assert_eq!(m.content[1].permissions, 0);
    assert_eq!(m.content[1].playerCount, "3/16");
    assert_eq!(m.content[1].provider, "beta");
    assert_eq!(m.content[1].region, "us");
    assert_eq!(m.content[1].status, "offline");
}

#[test]
fn empty_servers_content_parses_to_empty() {
    let body = r#"{"content": [], "contentType": "readableServers"}"#;
    let m = parse_servers_response(body).expect("empty content is well-formed");
    assert_eq!(m.content.len(), 0);
}

#[test]
fn malformed_json_is_payload_error() {
    let r = parse_servers_response("{ not json");
    assert_eq!(r.err(), Some(ApiError::Payload));
}

#[test]
fn missing_member_is_payload_error() {
    let body = r#"{"content": [{"id": "srv-1"}], "contentType": "readableServers"}"#;
    let r = parse_servers_response(body);
    assert_eq!(r.err(), Some(ApiError::Payload));
}

#[test]
fn permissions_out_of_byte_range_is_payload_error() {
    let body = r#"{
        "content": [
            {
                "id": "srv-1",
                "gameMode": "ctf",
                "permissions": 256,
                "playerCount": "12/32",
                "provider": "alpha",
                "region": "eu",
                "status": "online"
            }
        ],
        "contentType": "readableServers"
    }"#;
    let r = parse_servers_response(body);
    assert_eq!(r.err(), Some(ApiError::Payload));
}

#[test]
fn wrong_member_type_is_payload_error() {
    let body = r#"{"content": {"id": "x"}, "contentType": "readableServers"}"#;
    assert_eq!(parse_servers_response(body).err(), Some(ApiError::Payload));
    let body2 = r#"{"content": [], "contentType": 7}"#;
    assert_eq!(parse_servers_response(body2).err(), Some(ApiError::Payload));
}

#[test]
fn well_formed_changelog_body_is_mirrored_in_order() {
    let body = r#"{
        "content": [
            {
                "content": "Added turrets",
                "date": "2021-04-01",
                "title": "Update 3",
                "version": "1.3.0",
                "warn": true
            },
            {
                "content": "Fixed physics",
                "date": "2021-03-15",
                "title": "Update 2",
                "version": "1.2.1",
                "warn": false
            }
        ],
        "contentType": "changelogData"
    }"#;
    let m = parse_changelog_response(body).expect("well-formed body must parse");
    assert_eq!(m.contentType, "changelogData");
    assert_eq!(m.content.len(), 2);
    assert_eq!(m.content[0].content, "Added turrets");
    assert_eq!(m.content[0].date, "2021-04-01");
    assert_eq!(m.content[0].title, "Update 3");
    assert_eq!(m.content[0].version, "1.3.0");
    assert!(m.content[0].warn);
    assert_eq!(m.content[1].title, "Update 2");
    assert_eq!(m.content[1].version, "1.2.1");
    assert!(!m.content[1].warn);
}

#[test]
fn changelog_warn_must_be_boolean() {
    let body = r#"{
        "content": [
            {
                "content": "Added turrets",
                "date": "2021-04-01",
                "title": "Update 3",
                "version": "1.3.0",
                "warn": "yes"
            }
        ],
        "contentType": "changelogData"
    }"#;
    assert_eq!(parse_changelog_response(body).err(), Some(ApiError::Payload));
}

#[test]
fn changelog_empty_content_parses() {
    let body = r#"{"content": [], "contentType": "changelogData"}"#;
    let m = parse_changelog_response(body).expect("empty content is well-formed");
    assert_eq!(m.content.len(), 0);
}
