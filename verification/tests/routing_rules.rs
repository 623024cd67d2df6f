use rusty_dlp_bot::media::MediaKind;
use rusty_dlp_bot::routing::{route_message, route_parsed, AllowedDomains, ParsedUrl};

fn table() -> AllowedDomains {
    let mut t = AllowedDomains::new();
    t.insert("www.youtube.com".to_string(), MediaKind::Video);
    t.insert("soundcloud.com".to_string(), MediaKind::Audio);
    t
}

#[test]
fn get_after_insert() {
    let mut t = table();
    assert_eq!(t.get("soundcloud.com"), Some(MediaKind::Audio));
    assert_eq!(t.get("example.org"), None);
    t.insert("soundcloud.com".to_string(), MediaKind::Video);
    assert_eq!(t.get("soundcloud.com"), Some(MediaKind::Video));
    assert_eq!(t.get("www.youtube.com"), Some(MediaKind::Video));
}

#[test]
fn empty_table_serves_nothing() {
    let t = AllowedDomains::new();
    assert_eq!(t.get(""), None);
    assert_eq!(route_message(Some("https://soundcloud.com/x"), &t), None);
}

#[test]
fn message_with_allowed_host_is_routed() {
    let t = table();
    assert_eq!(
        route_message(Some("https://soundcloud.com/artist/track"), &t),
        Some(("https://soundcloud.com/artist/track".to_string(), MediaKind::Audio))
    );
}

#[test]
fn routed_url_is_normalized() {
    let t = table();
    assert_eq!(
        route_message(Some("HTTPS://WWW.YouTube.com"), &t),
        Some(("https://www.youtube.com/".to_string(), MediaKind::Video))
    );
}

#[test]
fn other_messages_are_ignored() {
    let t = table();
    assert_eq!(route_message(None, &t), None);
    assert_eq!(route_message(Some("hello there"), &t), None);
    assert_eq!(route_message(Some("https://example.org/x"), &t), None);
    assert_eq!(route_message(Some("mailto:someone@soundcloud.com"), &t), None);
    assert_eq!(route_message(Some("see https://soundcloud.com/x"), &t), None);
}

#[test]
fn route_parsed_uses_the_host() {
    let t = table();
    let with_host = ParsedUrl {
        serialization: "https://soundcloud.com/a".to_string(),
        host: Some("soundcloud.com".to_string()),
    };
    assert_eq!(
        route_parsed(Some(with_host), &t),
        Some(("https://soundcloud.com/a".to_string(), MediaKind::Audio))
    );
    let without_host = ParsedUrl { serialization: "data:,x".to_string(), host: None };
    assert_eq!(route_parsed(Some(without_host), &t), None);
    assert_eq!(route_parsed(None, &t), None);
}
