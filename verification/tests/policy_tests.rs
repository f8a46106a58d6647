use gifstream::policy::{chunk_cap_for, content_type, is_limited_client, LIMITED_CLIENT_CHUNK_CAP};

#[test]
fn discordbot_user_agent_is_limited() {
    let agent = b"Mozilla/5.0 (compatible; Discordbot/2.0; +https://discordapp.com)";
    assert!(is_limited_client(agent));
    assert_eq!(chunk_cap_for(agent), Some(10));
}

#[test]
fn marker_alone_is_limited() {
    assert!(is_limited_client(b"Discordbot"));
    assert_eq!(chunk_cap_for(b"Discordbot"), Some(LIMITED_CLIENT_CHUNK_CAP));
}

#[test]
fn ordinary_browsers_stream_unbounded() {
    let agent = b"Mozilla/5.0 (X11; Linux x86_64; rv:109.0) Gecko/20100101 Firefox/115.0";
    assert!(!is_limited_client(agent));
    assert_eq!(chunk_cap_for(agent), None);
}

#[test]
fn empty_user_agent_streams_unbounded() {
    assert!(!is_limited_client(b""));
    assert_eq!(chunk_cap_for(b""), None);
}

#[test]
fn marker_match_is_case_sensitive() {
    assert!(!is_limited_client(b"discordbot"));
    assert!(!is_limited_client(b"DISCORDBOT"));
}

#[test]
fn partial_marker_does_not_match() {
    assert!(!is_limited_client(b"Discordbo"));
    assert!(!is_limited_client(b"iscordbot"));
    assert!(!is_limited_client(b"Discord bot"));
}

#[test]
fn marker_found_at_every_position() {
    assert!(is_limited_client(b"Discordbot at the start"));
    assert!(is_limited_client(b"ends with Discordbot"));
    assert!(is_limited_client(b"in Discordbot the middle"));
}

#[test]
fn cap_value_is_ten() {
    assert_eq!(LIMITED_CLIENT_CHUNK_CAP, 10);
}

#[test]
fn responses_declare_the_gif_media_type() {
    assert_eq!(content_type(), "image/gif");
}
