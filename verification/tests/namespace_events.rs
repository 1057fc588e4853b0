//! The namespace pass driven by hand-built event lists and by small bodies.

use belfry_core::fetch::namespace::{
    element_name, handle_text, parse, parse_events, start_tag, ParseState, NamespaceData,
    TextTarget,
};
use belfry_core::fetch::xml::XmlEvent;

fn start(name: &str) -> XmlEvent {
    XmlEvent::Start { name: name.as_bytes().to_vec() }
}

fn end(name: &str) -> XmlEvent {
    XmlEvent::End { name: name.as_bytes().to_vec() }
}

fn text(t: &str) -> XmlEvent {
    XmlEvent::Text { text: t.to_string() }
}

#[test]
fn element_name_splits_at_first_colon() {
    assert_eq!(
        element_name(b"podcast:guid"),
        ("podcast".to_string(), "guid".to_string())
    );
    assert_eq!(element_name(b"item"), (String::new(), "item".to_string()));
    assert_eq!(element_name(b"a:b:c"), ("a".to_string(), "b:c".to_string()));
    assert_eq!(element_name(b":x"), (String::new(), "x".to_string()));
    assert_eq!(element_name(b""), (String::new(), String::new()));
}

#[test]
fn element_name_decodes_invalid_utf8_lossily() {
    assert_eq!(
        element_name(&[b'p', 0xff, b':', b'g']),
        ("p\u{fffd}".to_string(), "g".to_string())
    );
}

#[test]
fn events_fill_show_and_item() {
    let events = vec![
        start("rss"),
        start("channel"),
        start("podcast:guid"),
        text("  SHOW-1 \n"),
        end("podcast:guid"),
        start("item"),
        start("guid"),
        text("rss-1"),
        end("guid"),
        start("podcast:season"),
        text("4"),
        end("podcast:season"),
        start("podcast:episode"),
        XmlEvent::CData { bytes: b" 7 ".to_vec() },
        end("podcast:episode"),
        XmlEvent::Empty {
            name: b"podcast:chapters".to_vec(),
            attributes: r#" url="https://a.example/c.json" type="application/json""#.to_string(),
        },
        end("item"),
        end("channel"),
        end("rss"),
    ];
    let data = parse_events(&events);
    assert_eq!(data.show_guid.as_deref(), Some("SHOW-1"));
    assert_eq!(data.items.len(), 1);
    assert_eq!(data.items[0].rss_guid.as_deref(), Some("rss-1"));
    assert_eq!(data.items[0].season, Some(4));
    assert_eq!(data.items[0].episode, Some(7));
    assert_eq!(data.items[0].chapters_url.as_deref(), Some("https://a.example/c.json"));
}

#[test]
fn events_after_eof_are_not_read() {
    let events = vec![start("item"), end("item"), XmlEvent::Eof, start("item"), end("item")];
    assert_eq!(parse_events(&events).items.len(), 1);
}

#[test]
fn unclosed_item_is_dropped() {
    let events = vec![start("channel"), start("item"), start("guid"), text("g")];
    let data = parse_events(&events);
    assert_eq!(data.items.len(), 0);
}

#[test]
fn podcast_guid_outside_channel_and_item_is_ignored() {
    let events = vec![start("podcast:guid"), text("stray"), end("podcast:guid")];
    assert_eq!(parse_events(&events), NamespaceData::default());
}

#[test]
fn item_guid_wins_over_channel_guid_inside_item() {
    let events = vec![
        start("channel"),
        start("item"),
        start("podcast:guid"),
        text("EP"),
        end("podcast:guid"),
        end("item"),
    ];
    let data = parse_events(&events);
    assert_eq!(data.show_guid, None);
    assert_eq!(data.items[0].podcast_guid.as_deref(), Some("EP"));
}

#[test]
fn first_text_wins_and_blank_text_waits() {
    let mut state = ParseState::new();
    let mut data = NamespaceData::default();
    start_tag(&mut state, "", "channel");
    start_tag(&mut state, "podcast", "guid");
    assert_eq!(state.pending_text, Some(TextTarget::ShowGuid));
    handle_text(&mut state, &mut data, "   ");
    assert_eq!(state.pending_text, Some(TextTarget::ShowGuid));
    handle_text(&mut state, &mut data, " first ");
    handle_text(&mut state, &mut data, "second");
    assert_eq!(data.show_guid.as_deref(), Some("first"));
    assert_eq!(state.pending_text, None);
}

#[test]
fn last_url_attribute_wins_and_other_empty_elements_are_ignored() {
    let body = r#"<rss><channel><item>
        <podcast:chapters url="one" url="two"/>
        <podcast:transcript url="three"/>
        <enclosure url="four"/>
    </item></channel></rss>"#;
    let data = parse(body);
    assert_eq!(data.items.len(), 1);
    assert_eq!(data.items[0].chapters_url.as_deref(), Some("two"));
}

#[test]
fn chapters_outside_item_are_ignored() {
    let body = r#"<rss><channel><podcast:chapters url="x"/></channel></rss>"#;
    assert_eq!(parse(body), NamespaceData::default());
}

#[test]
fn escaped_text_is_unescaped_and_cdata_is_read() {
    let body = "<rss><channel><podcast:guid>A&amp;B</podcast:guid><item>\
                <podcast:guid><![CDATA[ C<D ]]></podcast:guid></item></channel></rss>";
    let data = parse(body);
    assert_eq!(data.show_guid.as_deref(), Some("A&B"));
    assert_eq!(data.items[0].podcast_guid.as_deref(), Some("C<D"));
}

#[test]
fn season_out_of_range_is_none() {
    let body = "<rss><channel><item><podcast:season>4294967296</podcast:season>\
                <podcast:episode>4294967295</podcast:episode></item></channel></rss>";
    let data = parse(body);
    assert_eq!(data.items[0].season, None);
    assert_eq!(data.items[0].episode, Some(4294967295));
}

#[test]
fn truncated_document_keeps_what_was_read() {
    let body = "<rss><channel><podcast:guid>S</podcast:guid><item><guid>g1</guid></item><item><guid>g2";
    let data = parse(body);
    assert_eq!(data.show_guid.as_deref(), Some("S"));
    assert_eq!(data.items.len(), 1);
    assert_eq!(data.items[0].rss_guid.as_deref(), Some("g1"));
}
