//! `<podcast:*>` namespace pass over whole feed bodies. The pass is
//! tolerant of malformed input and unknown elements; both are checked here.

use belfry_core::fetch::namespace::parse;

const PODCAST_NAMESPACE: &str = r#"<?xml version="1.0" encoding="UTF-8"?>
<rss version="2.0" xmlns:podcast="https://podcastindex.org/namespace/1.0">
  <channel>
    <title>Namespace Show</title>
    <podcast:guid>SHOW-GUID-12345</podcast:guid>
    <item>
      <title>Season one, episode one</title>
      <guid>pn-s1e1</guid>
      <podcast:guid>EP-S1E1-GUID</podcast:guid>
      <podcast:season>1</podcast:season>
      <podcast:episode>1</podcast:episode>
    </item>
    <item>
      <title>Season two, episode five</title>
      <guid isPermaLink="false">pn-s2e5</guid>
      <podcast:guid>EP-S2E5-GUID</podcast:guid>
      <podcast:season>2</podcast:season>
      <podcast:episode>5</podcast:episode>
    </item>
  </channel>
</rss>
"#;

const ITUNES_NAMESPACE: &str = r#"<?xml version="1.0" encoding="UTF-8"?>
<rss version="2.0" xmlns:itunes="http://www.itunes.com/dtds/podcast-1.0.dtd">
  <channel>
    <title>iTunes Show</title>
    <itunes:author>Someone</itunes:author>
    <itunes:image href="https://example.com/cover.jpg"/>
    <item>
      <title>First</title>
      <guid>itunes-ep1</guid>
      <itunes:season>1</itunes:season>
      <itunes:episode>1</itunes:episode>
      <itunes:duration>00:30:00</itunes:duration>
    </item>
    <item>
      <title>Second</title>
      <guid>itunes-ep2</guid>
      <itunes:season>1</itunes:season>
      <itunes:episode>2</itunes:episode>
    </item>
  </channel>
</rss>
"#;

const CHAPTER_URL: &str = r#"<?xml version="1.0" encoding="UTF-8"?>
<rss version="2.0" xmlns:podcast="https://podcastindex.org/namespace/1.0">
  <channel>
    <title>Chapter Show</title>
    <item>
      <title>Episode with chapters</title>
      <guid>chapters-ep1</guid>
      <podcast:chapters url="https://example.com/chapters/ep1-chapters.json" type="application/json+chapters"/>
    </item>
  </channel>
</rss>
"#;

const BASIC_RSS: &str = r#"<?xml version="1.0" encoding="UTF-8"?>
<rss version="2.0">
  <channel>
    <title>Basic RSS</title>
    <link>https://example.com/</link>
    <description>A plain feed.</description>
    <item>
      <title>Episode 1</title>
      <guid>basic-rss-ep1</guid>
      <enclosure url="https://example.com/ep1.mp3" length="1000" type="audio/mpeg"/>
    </item>
    <item>
      <title>Episode 2</title>
      <guid>basic-rss-ep2</guid>
      <enclosure url="https://example.com/ep2.mp3" length="2000" type="audio/mpeg"/>
    </item>
  </channel>
</rss>
"#;

const BASIC_ATOM: &str = r#"<?xml version="1.0" encoding="utf-8"?>
<feed xmlns="http://www.w3.org/2005/Atom">
  <title>Basic Atom</title>
  <id>urn:uuid:basic-atom</id>
  <entry>
    <title>Entry one</title>
    <id>urn:uuid:entry-1</id>
    <link href="https://example.com/1"/>
  </entry>
  <entry>
    <title>Entry two</title>
    <id>urn:uuid:entry-2</id>
    <link href="https://example.com/2"/>
  </entry>
</feed>
"#;

const MULTI_SEASON: &str = r#"<?xml version="1.0" encoding="UTF-8"?>
<rss version="2.0" xmlns:podcast="https://podcastindex.org/namespace/1.0">
  <channel>
    <title>Multi Season</title>
    <item>
      <guid>ms-s3e2</guid>
      <podcast:season>3</podcast:season>
      <podcast:episode>2</podcast:episode>
    </item>
    <item>
      <guid>ms-s3e1</guid>
      <podcast:season>3</podcast:season>
      <podcast:episode>1</podcast:episode>
    </item>
    <item>
      <guid>ms-s2e12</guid>
      <podcast:season>2</podcast:season>
      <podcast:episode>12</podcast:episode>
    </item>
  </channel>
</rss>
"#;

const MALFORMED: &str = r#"<?xml version="1.0" encoding="UTF-8"?>
<rss version="2.0" xmlns:podcast="https://podcastindex.org/namespace/1.0">
  <channel>
    <title>Malformed</title>
    <item>
      <guid>bad-ep1</guid>
      <podcast:guid>EP-GOOD-GUID</podcast:guid>
      <podcast:unknownthing>ignored</podcast:unknownthing>
    </item>
    <item>
      <guid>bad-ep2</guid>
      <podcast:season>not-a-number</podcast:season>
      <podcast:episode>1</podcast:episode>
    </item>
  </channel>
</rss>
"#;

const EMPTY_FEED: &str = r#"<?xml version="1.0" encoding="UTF-8"?>
<rss version="2.0">
  <channel>
    <title>Empty</title>
  </channel>
</rss>
"#;

#[test]
fn extracts_show_guid_from_channel_level() {
    let data = parse(PODCAST_NAMESPACE);
    assert_eq!(data.show_guid.as_deref(), Some("SHOW-GUID-12345"));
}

#[test]
fn extracts_per_item_podcast_guid() {
    let data = parse(PODCAST_NAMESPACE);
    assert_eq!(data.items.len(), 2);
    assert_eq!(data.items[0].podcast_guid.as_deref(), Some("EP-S1E1-GUID"));
    assert_eq!(data.items[1].podcast_guid.as_deref(), Some("EP-S2E5-GUID"));
}

#[test]
fn extracts_season_and_episode_numbers() {
    let data = parse(PODCAST_NAMESPACE);
    assert_eq!(data.items[0].season, Some(1));
    assert_eq!(data.items[0].episode, Some(1));
    assert_eq!(data.items[1].season, Some(2));
    assert_eq!(data.items[1].episode, Some(5));
}

#[test]
fn captures_rss_guid_for_position_merge() {
    let data = parse(PODCAST_NAMESPACE);
    assert_eq!(data.items[0].rss_guid.as_deref(), Some("pn-s1e1"));
    assert_eq!(data.items[1].rss_guid.as_deref(), Some("pn-s2e5"));
}

#[test]
fn extracts_chapters_url_from_empty_element() {
    let data = parse(CHAPTER_URL);
    assert_eq!(data.items.len(), 1);
    assert_eq!(
        data.items[0].chapters_url.as_deref(),
        Some("https://example.com/chapters/ep1-chapters.json")
    );
}

#[test]
fn ignores_itunes_namespace_elements() {
    let data = parse(ITUNES_NAMESPACE);
    assert_eq!(data.items.len(), 2);
    assert!(data.show_guid.is_none());
    assert!(data.items.iter().all(|i| i.podcast_guid.is_none()));
    assert!(data.items.iter().all(|i| i.season.is_none()));
    assert!(data.items.iter().all(|i| i.episode.is_none()));
}

#[test]
fn returns_items_for_basic_rss_without_namespace() {
    let data = parse(BASIC_RSS);
    assert!(data.show_guid.is_none());
    assert_eq!(data.items.len(), 2);
    assert!(data.items.iter().all(|i| i.podcast_guid.is_none()));
    assert_eq!(data.items[0].rss_guid.as_deref(), Some("basic-rss-ep1"));
    assert_eq!(data.items[1].rss_guid.as_deref(), Some("basic-rss-ep2"));
}

#[test]
fn handles_atom_feed_structure() {
    let data = parse(BASIC_ATOM);
    assert_eq!(data.items.len(), 2);
}

#[test]
fn multi_season_extracts_each_season_episode_pair() {
    let data = parse(MULTI_SEASON);
    assert_eq!(data.items.len(), 3);
    assert_eq!(data.items[0].season, Some(3));
    assert_eq!(data.items[0].episode, Some(2));
    assert_eq!(data.items[1].season, Some(3));
    assert_eq!(data.items[1].episode, Some(1));
    assert_eq!(data.items[2].season, Some(2));
    assert_eq!(data.items[2].episode, Some(12));
}

#[test]
fn malformed_invalid_season_drops_to_none() {
    let data = parse(MALFORMED);
    assert_eq!(data.items.len(), 2);
    assert_eq!(data.items[0].podcast_guid.as_deref(), Some("EP-GOOD-GUID"));
    assert_eq!(data.items[1].season, None);
    assert_eq!(data.items[1].episode, Some(1));
}

#[test]
fn empty_feed_returns_no_items() {
    let data = parse(EMPTY_FEED);
    assert_eq!(data.items.len(), 0);
    assert!(data.show_guid.is_none());
}

#[test]
fn unparseable_input_returns_default() {
    let data = parse("this is not xml at all just words");
    assert!(data.show_guid.is_none());
    assert_eq!(data.items.len(), 0);
}

#[test]
fn empty_input_returns_default() {
    let data = parse("");
    assert!(data.show_guid.is_none());
    assert_eq!(data.items.len(), 0);
}
