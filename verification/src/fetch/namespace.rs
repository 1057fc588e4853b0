//! Hand-rolled `podcast:` namespace pass over a feed body.
//!
//! Extracts `<podcast:guid>` at channel level (show identity), and per
//! `<item>` (RSS) or `<entry>` (Atom): the RSS `<guid>`, `<podcast:guid>`,
//! `<podcast:season>`, `<podcast:episode>` and the `url` of an empty
//! `<podcast:chapters/>`. Other elements are passed over. Malformed input is
//! tolerated: reader errors are skipped and whatever was read is returned.
//!
//! Known limitations: the `podcast:` prefix is matched literally, and only
//! the first non-blank text event after a start tag is taken.

use vstd::prelude::*;

use vstd::slice::slice_subrange;

use crate::fetch::xml::{
    attribute_pairs, decode_lossy, document_events, next_xml_event, pending_events, raw_attributes,
    utf8_lossy, xml_reader, XmlEvent, XmlEventView,
};
use crate::text::{
    decimal, lemma_decimal_digits, lemma_parse_decimal_round_trip, parse_u32, parsed_u32, text_eq,
    trim, trimmed,
};

verus! {

/// Namespace data of one `<item>` / `<entry>`.
#[derive(Debug, PartialEq, Eq, Clone)]
pub struct ItemNamespaceData {
    /// RSS `<guid>`, for cross-checking the position-based merge.
    pub rss_guid: Option<String>,
    /// `<podcast:guid>` at item level.
    pub podcast_guid: Option<String>,
    /// `<podcast:season>` number.
    pub season: Option<u32>,
    /// `<podcast:episode>` number.
    pub episode: Option<u32>,
    /// `<podcast:chapters url="..."/>` URL.
    pub chapters_url: Option<String>,
}

/// Namespace data of a whole feed.
#[derive(Debug, PartialEq, Eq, Clone)]
pub struct NamespaceData {
    /// `<podcast:guid>` at channel level.
    pub show_guid: Option<String>,
    /// One entry per closed `<item>` / `<entry>`, in source order.
    pub items: Vec<ItemNamespaceData>,
}

/// The view of an optional text.
pub open spec fn opt_text(s: Option<String>) -> Option<Seq<char>> {
    match s {
        Some(t) => Some(t@),
        None => None,
    }
}

/// The mathematical value of an `ItemNamespaceData`.
pub struct ItemView {
    pub rss_guid: Option<Seq<char>>,
    pub podcast_guid: Option<Seq<char>>,
    pub season: Option<u32>,
    pub episode: Option<u32>,
    pub chapters_url: Option<Seq<char>>,
}

/// The mathematical value of a `NamespaceData`.
pub struct NamespaceView {
    pub show_guid: Option<Seq<char>>,
    pub items: Seq<ItemView>,
}

impl View for ItemNamespaceData {
    type V = ItemView;

    open spec fn view(&self) -> ItemView {
        ItemView {
            rss_guid: opt_text(self.rss_guid),
            podcast_guid: opt_text(self.podcast_guid),
            season: self.season,
            episode: self.episode,
            chapters_url: opt_text(self.chapters_url),
        }
    }
}

impl View for NamespaceData {
    type V = NamespaceView;

    open spec fn view(&self) -> NamespaceView {
        NamespaceView {
            show_guid: opt_text(self.show_guid),
            items: self.items@.map_values(|i: ItemNamespaceData| i@),
        }
    }
}

/// An item with nothing found yet.
pub open spec fn empty_item() -> ItemView {
    ItemView { rss_guid: None, podcast_guid: None, season: None, episode: None, chapters_url: None }
}

/// A feed with nothing found yet.
pub open spec fn empty_data() -> NamespaceView {
    NamespaceView { show_guid: None, items: Seq::empty() }
}

impl Default for ItemNamespaceData {
    fn default() -> (r: ItemNamespaceData)
        ensures
            r@ == empty_item(),
    {
        ItemNamespaceData {
            rss_guid: None,
            podcast_guid: None,
            season: None,
            episode: None,
            chapters_url: None,
        }
    }
}

impl Default for NamespaceData {
    fn default() -> (r: NamespaceData)
        ensures
            r@ == empty_data(),
    {
        let r = NamespaceData { show_guid: None, items: Vec::new() };
        assert(r@.items =~= Seq::<ItemView>::empty());
        r
    }
}

/// What the next non-blank text event fills in.
#[derive(Debug, Clone, Copy, PartialEq, Eq, Structural)]
pub enum TextTarget {
    ShowGuid,
    ItemRssGuid,
    ItemPodcastGuid,
    ItemSeason,
    ItemEpisode,
}

/// Where the pass stands in the document.
#[derive(Debug)]
pub struct ParseState {
    pub in_channel: bool,
    pub in_item: bool,
    pub current_item: Option<ItemNamespaceData>,
    /// Cleared once consumed: the first non-blank text wins.
    pub pending_text: Option<TextTarget>,
}

/// The mathematical value of a `ParseState`.
pub struct StateView {
    pub in_channel: bool,
    pub in_item: bool,
    pub current_item: Option<ItemView>,
    pub pending_text: Option<TextTarget>,
}

impl View for ParseState {
    type V = StateView;

    open spec fn view(&self) -> StateView {
        StateView {
            in_channel: self.in_channel,
            in_item: self.in_item,
            current_item: match self.current_item {
                Some(i) => Some(i@),
                None => None,
            },
            pending_text: self.pending_text,
        }
    }
}

/// The state before the first event.
pub open spec fn initial_state() -> StateView {
    StateView { in_channel: false, in_item: false, current_item: None, pending_text: None }
}

impl ParseState {
    pub fn new() -> (r: ParseState)
        ensures
            r@ == initial_state(),
    {
        ParseState { in_channel: false, in_item: false, current_item: None, pending_text: None }
    }
}

/// `i` is the position of the first `:` in the bytes of `name`.
pub open spec fn first_colon_at(name: Seq<u8>, i: int) -> bool {
    &&& 0 <= i < name.len()
    &&& name[i] == 58u8
    &&& forall|j: int| 0 <= j < i ==> name[j] != 58u8
}

/// (prefix, local name) of a qualified name, as `quick-xml` splits it: at the
/// first `:`, each part decoded with `String::from_utf8_lossy`; the prefix is
/// empty when there is no `:`.
pub open spec fn element_parts(name: Seq<u8>) -> (Seq<char>, Seq<char>) {
    if exists|i: int| first_colon_at(name, i) {
        let i = choose|i: int| first_colon_at(name, i);
        (utf8_lossy(name.take(i)), utf8_lossy(name.skip(i + 1)))
    } else {
        (Seq::empty(), utf8_lossy(name))
    }
}

/// Splits a qualified element name into (prefix, local name).
pub fn element_name(name: &[u8]) -> (r: (String, String))
    ensures
        (r.0@, r.1@) == element_parts(name@),
{
    let n = name.len();
    let mut i: usize = 0;
    while i < n && name[i] != 58u8
        invariant
            n == name@.len(),
            i <= n,
            forall|j: int| 0 <= j < i ==> name@[j] != 58u8,
        decreases n - i,
    {
        i = i + 1;
    }
    if i < n {
        assert(first_colon_at(name@, i as int));
        assert forall|k: int| first_colon_at(name@, k) implies k == i by {
            if k < i {
                assert(name@[k] != 58u8);
            } else if k > i {
                assert(name@[i as int] == 58u8);
            }
        }
        let prefix = slice_subrange(name, 0, i);
        let local = slice_subrange(name, i + 1, n);
        assert(prefix@ =~= name@.take(i as int));
        assert(local@ =~= name@.skip(i + 1));
        (decode_lossy(prefix), decode_lossy(local))
    } else {
        assert forall|k: int| !first_colon_at(name@, k) by {
            if 0 <= k < n {
                assert(name@[k] != 58u8);
            }
        }
        (String::new(), decode_lossy(name))
    }
}

/// Whether a (prefix, local) pair is an unprefixed element with local name `l`.
pub open spec fn is_plain(parts: (Seq<char>, Seq<char>), l: Seq<char>) -> bool {
    parts.0.len() == 0 && parts.1 == l
}

/// Whether a (prefix, local) pair is `podcast:l`.
pub open spec fn is_podcast(parts: (Seq<char>, Seq<char>), l: Seq<char>) -> bool {
    parts.0 == "podcast"@ && parts.1 == l
}

/// The element opens a channel (RSS) or feed (Atom).
pub open spec fn opens_channel(parts: (Seq<char>, Seq<char>)) -> bool {
    is_plain(parts, "channel"@) || is_plain(parts, "feed"@)
}

/// The element is an item (RSS) or entry (Atom).
pub open spec fn opens_item(parts: (Seq<char>, Seq<char>)) -> bool {
    is_plain(parts, "item"@) || is_plain(parts, "entry"@)
}

/// The text target that a start tag sets, when it opens no channel or item.
pub open spec fn start_target(st: StateView, parts: (Seq<char>, Seq<char>)) -> Option<TextTarget> {
    if is_plain(parts, "guid"@) && st.in_item {
        Some(TextTarget::ItemRssGuid)
    } else if is_podcast(parts, "guid"@) && st.in_item {
        Some(TextTarget::ItemPodcastGuid)
    } else if is_podcast(parts, "guid"@) && st.in_channel {
        Some(TextTarget::ShowGuid)
    } else if is_podcast(parts, "season"@) && st.in_item {
        Some(TextTarget::ItemSeason)
    } else if is_podcast(parts, "episode"@) && st.in_item {
        Some(TextTarget::ItemEpisode)
    } else {
        None
    }
}

/// The state after a start tag whose name has the (prefix, local) `parts`.
pub open spec fn start_step(st: StateView, parts: (Seq<char>, Seq<char>)) -> StateView {
    if opens_channel(parts) {
        StateView { in_channel: true, pending_text: None, ..st }
    } else if opens_item(parts) {
        StateView { in_item: true, current_item: Some(empty_item()), pending_text: None, ..st }
    } else {
        StateView { pending_text: start_target(st, parts), ..st }
    }
}

/// The bytes of the attribute key `url`.
pub open spec fn url_key() -> Seq<u8> {
    seq![117u8, 114u8, 108u8]
}

/// The chapters URL after reading `attrs` in order: the value (decoded) of
/// the last `url` attribute, else `cur`.
pub open spec fn url_after(attrs: Seq<(Seq<u8>, Seq<u8>)>, cur: Option<Seq<char>>) -> Option<
    Seq<char>,
>
    decreases attrs.len(),
{
    if attrs.len() == 0 {
        cur
    } else {
        url_after(
            attrs.drop_first(),
            if attrs[0].0 == url_key() {
                Some(utf8_lossy(attrs[0].1))
            } else {
                cur
            },
        )
    }
}

/// The state after an empty element named `name` with attribute text
/// `text`: only `<podcast:chapters/>` inside an item changes anything.
pub open spec fn empty_step(st: StateView, name: Seq<u8>, text: Seq<char>) -> StateView {
    let parts = element_parts(name);
    if is_podcast(parts, "chapters"@) && st.current_item is Some {
        let item = st.current_item->0;
        StateView {
            current_item: Some(
                ItemView { chapters_url: url_after(raw_attributes(text), item.chapters_url), ..item },
            ),
            ..st
        }
    } else {
        st
    }
}

/// The current item with the target field set from `t`.
pub open spec fn fill_item(item: ItemView, target: TextTarget, t: Seq<char>) -> ItemView {
    match target {
        TextTarget::ItemRssGuid => ItemView { rss_guid: Some(t), ..item },
        TextTarget::ItemPodcastGuid => ItemView { podcast_guid: Some(t), ..item },
        TextTarget::ItemSeason => ItemView { season: parsed_u32(t), ..item },
        TextTarget::ItemEpisode => ItemView { episode: parsed_u32(t), ..item },
        TextTarget::ShowGuid => item,
    }
}

/// State and data after a text event: a non-blank text fills the pending
/// target once (trimmed), blank text changes nothing.
pub open spec fn text_step(st: StateView, d: NamespaceView, text: Seq<char>) -> (StateView, NamespaceView) {
    let t = trimmed(text);
    if t.len() == 0 || st.pending_text is None {
        (st, d)
    } else {
        let target = st.pending_text->0;
        let st2 = StateView { pending_text: None, ..st };
        match target {
            TextTarget::ShowGuid => (st2, NamespaceView { show_guid: Some(t), ..d }),
            _ => match st.current_item {
                Some(item) => (StateView { current_item: Some(fill_item(item, target, t)), ..st2 }, d),
                None => (st2, d),
            },
        }
    }
}

/// State and data after an end tag whose name has the (prefix, local)
/// `parts`: closing an item appends it.
pub open spec fn end_step(st: StateView, d: NamespaceView, parts: (Seq<char>, Seq<char>)) -> (
    StateView,
    NamespaceView,
) {
    if opens_channel(parts) {
        (StateView { in_channel: false, ..st }, d)
    } else if opens_item(parts) {
        let d2 = match st.current_item {
            Some(item) => NamespaceView { items: d.items.push(item), ..d },
            None => d,
        };
        (StateView { in_item: false, current_item: None, pending_text: None, ..st }, d2)
    } else {
        (StateView { pending_text: None, ..st }, d)
    }
}

/// State and data after one event.
pub open spec fn event_step(st: StateView, d: NamespaceView, ev: XmlEventView) -> (StateView, NamespaceView) {
    match ev {
        XmlEventView::Start { name } => (start_step(st, element_parts(name)), d),
        XmlEventView::Empty { name, attributes } => (empty_step(st, name, attributes), d),
        XmlEventView::End { name } => end_step(st, d, element_parts(name)),
        XmlEventView::Text { text } => text_step(st, d, text),
        XmlEventView::CData { bytes } => text_step(st, d, utf8_lossy(bytes)),
        _ => (st, d),
    }
}

/// The data found by reading `evs` from state `st` and data `d`, stopping at
/// the first `Eof`.
pub open spec fn run_events(st: StateView, d: NamespaceView, evs: Seq<XmlEventView>) -> NamespaceView
    decreases evs.len(),
{
    if evs.len() == 0 || evs[0] is Eof {
        d
    } else {
        let (st2, d2) = event_step(st, d, evs[0]);
        run_events(st2, d2, evs.drop_first())
    }
}

/// The namespace data of an event stream.
pub open spec fn namespace_of(evs: Seq<XmlEventView>) -> NamespaceView {
    run_events(initial_state(), empty_data(), evs)
}

/// Whether `parts` is the unprefixed element `l`.
fn plain_is(prefix: &str, local: &str, l: &str) -> (r: bool)
    ensures
        r == is_plain((prefix@, local@), l@),
{
    prefix.unicode_len() == 0 && text_eq(local, l)
}

/// Whether `parts` is the element `podcast:l`.
fn podcast_is(prefix: &str, local: &str, l: &str) -> (r: bool)
    ensures
        r == is_podcast((prefix@, local@), l@),
{
    text_eq(prefix, "podcast") && text_eq(local, l)
}

/// Handles a start tag named `name`.
pub fn handle_start(state: &mut ParseState, name: &[u8])
    ensures
        final(state)@ == start_step(old(state)@, element_parts(name@)),
{
    let (prefix, local) = element_name(name);
    start_tag(state, prefix.as_str(), local.as_str());
}

/// Handles a start tag whose name splits into `prefix` and `local`.
pub fn start_tag(state: &mut ParseState, prefix: &str, local: &str)
    ensures
        final(state)@ == start_step(old(state)@, (prefix@, local@)),
{
    if plain_is(prefix, local, "channel") || plain_is(prefix, local, "feed") {
        state.in_channel = true;
        state.pending_text = None;
    } else if plain_is(prefix, local, "item") || plain_is(prefix, local, "entry") {
        state.in_item = true;
        state.current_item = Some(ItemNamespaceData::default());
        state.pending_text = None;
    } else if plain_is(prefix, local, "guid") && state.in_item {
        state.pending_text = Some(TextTarget::ItemRssGuid);
    } else if podcast_is(prefix, local, "guid") && state.in_item {
        state.pending_text = Some(TextTarget::ItemPodcastGuid);
    } else if podcast_is(prefix, local, "guid") && state.in_channel {
        state.pending_text = Some(TextTarget::ShowGuid);
    } else if podcast_is(prefix, local, "season") && state.in_item {
        state.pending_text = Some(TextTarget::ItemSeason);
    } else if podcast_is(prefix, local, "episode") && state.in_item {
        state.pending_text = Some(TextTarget::ItemEpisode);
    } else {
        state.pending_text = None;
    }
}

/// Whether an attribute key is `url`.
fn is_url_key(key: &Vec<u8>) -> (r: bool)
    ensures
        r == (key@ == url_key()),
{
    if key.len() == 3 && key[0] == 117u8 && key[1] == 114u8 && key[2] == 108u8 {
        assert(key@ =~= url_key());
        true
    } else {
        false
    }
}

/// Handles an empty element named `name` whose tag holds the attribute text
/// `attributes`: the `url` of `<podcast:chapters/>` inside an item is kept
/// (the last one, when there are several).
pub fn handle_empty(state: &mut ParseState, name: &[u8], attributes: &str)
    ensures
        final(state)@ == empty_step(old(state)@, name@, attributes@),
{
    let (prefix, local) = element_name(name);
    if podcast_is(prefix.as_str(), local.as_str(), "chapters") {
        match state.current_item.take() {
            Some(mut item) => {
                let pairs = attribute_pairs(attributes);
                let ghost attrs = raw_attributes(attributes@);
                let ghost start = item.chapters_url;
                let ghost before = item@;
                assert(attrs.skip(0) =~= attrs);
                let mut i: usize = 0;
                while i < pairs.len()
                    invariant
                        attrs == pairs@.map_values(|p: (Vec<u8>, Vec<u8>)| (p.0@, p.1@)),
                        i <= pairs@.len(),
                        url_after(attrs, opt_text(start)) == url_after(
                            attrs.skip(i as int),
                            opt_text(item.chapters_url),
                        ),
                        item@ == (ItemView { chapters_url: opt_text(item.chapters_url), ..before }),
                    decreases pairs@.len() - i,
                {
                    let pair = &pairs[i];
                    assert(attrs.skip(i as int).drop_first() =~= attrs.skip(i + 1));
                    assert(attrs.skip(i as int)[0] == (pair.0@, pair.1@));
                    if is_url_key(&pair.0) {
                        item.chapters_url = Some(decode_lossy(pair.1.as_slice()));
                    }
                    i = i + 1;
                }
                assert(attrs.skip(pairs@.len() as int) =~= Seq::<(Seq<u8>, Seq<u8>)>::empty());
                state.current_item = Some(item);
            },
            None => {},
        }
    }
}

/// Handles character data: the first non-blank text after a start tag
/// fills what that tag pointed at.
pub fn handle_text(state: &mut ParseState, data: &mut NamespaceData, text: &str)
    ensures
        (final(state)@, final(data)@) == text_step(old(state)@, old(data)@, text@),
{
    let target = match state.pending_text {
        Some(t) => t,
        None => return ,
    };
    let trimmed_text = trim(text);
    if trimmed_text.as_str().unicode_len() == 0 {
        return ;
    }
    state.pending_text = None;
    match target {
        TextTarget::ShowGuid => {
            data.show_guid = Some(trimmed_text);
        },
        _ => {
            match state.current_item.take() {
                Some(mut item) => {
                    match target {
                        TextTarget::ItemRssGuid => {
                            item.rss_guid = Some(trimmed_text);
                        },
                        TextTarget::ItemPodcastGuid => {
                            item.podcast_guid = Some(trimmed_text);
                        },
                        TextTarget::ItemSeason => {
                            item.season = parse_u32(trimmed_text.as_str());
                        },
                        _ => {
                            item.episode = parse_u32(trimmed_text.as_str());
                        },
                    }
                    state.current_item = Some(item);
                },
                None => {},
            }
        },
    }
}

/// Handles an end tag named `name`: closing an item appends it to the data.
pub fn handle_end(state: &mut ParseState, data: &mut NamespaceData, name: &[u8])
    ensures
        (final(state)@, final(data)@) == end_step(old(state)@, old(data)@, element_parts(name@)),
{
    let (prefix, local) = element_name(name);
    end_tag(state, data, prefix.as_str(), local.as_str());
}

/// Handles an end tag whose name splits into `prefix` and `local`.
pub fn end_tag(state: &mut ParseState, data: &mut NamespaceData, prefix: &str, local: &str)
    ensures
        (final(state)@, final(data)@) == end_step(old(state)@, old(data)@, (prefix@, local@)),
{
    if plain_is(prefix, local, "channel") || plain_is(prefix, local, "feed") {
        state.in_channel = false;
    } else if plain_is(prefix, local, "item") || plain_is(prefix, local, "entry") {
        match state.current_item.take() {
            Some(item) => {
                let ghost old_items = data.items@;
                data.items.push(item);
                assert(data.items@.map_values(|i: ItemNamespaceData| i@) =~= old_items.map_values(
                    |i: ItemNamespaceData| i@,
                ).push(item@));
            },
            None => {},
        }
        state.in_item = false;
        state.pending_text = None;
    } else {
        state.pending_text = None;
    }
}

/// Handles one event other than `Eof`.
pub fn handle_event(state: &mut ParseState, data: &mut NamespaceData, ev: &XmlEvent)
    ensures
        (final(state)@, final(data)@) == event_step(old(state)@, old(data)@, ev@),
{
    match ev {
        XmlEvent::Start { name } => handle_start(state, name.as_slice()),
        XmlEvent::Empty { name, attributes } => handle_empty(
            state,
            name.as_slice(),
            attributes.as_str(),
        ),
        XmlEvent::End { name } => handle_end(state, data, name.as_slice()),
        XmlEvent::Text { text } => handle_text(state, data, text.as_str()),
        XmlEvent::CData { bytes } => {
            let text = decode_lossy(bytes.as_slice());
            handle_text(state, data, text.as_str());
        },
        _ => {},
    }
}

/// The views of a list of events.
pub open spec fn events_view(evs: Seq<XmlEvent>) -> Seq<XmlEventView> {
    evs.map_values(|e: XmlEvent| e@)
}

/// Runs the pass over an event list, stopping at the first `Eof`.
pub fn parse_events(events: &Vec<XmlEvent>) -> (r: NamespaceData)
    ensures
        r@ == namespace_of(events_view(events@)),
{
    let mut state = ParseState::new();
    let mut data = NamespaceData::default();
    let ghost evs = events_view(events@);
    assert(evs.skip(0) =~= evs);
    let mut i: usize = 0;
    while i < events.len()
        invariant
            evs == events_view(events@),
            i <= events@.len(),
            namespace_of(evs) == run_events(state@, data@, evs.skip(i as int)),
        decreases events@.len() - i,
    {
        let ev = &events[i];
        assert(evs.skip(i as int)[0] == ev@);
        assert(evs.skip(i as int).drop_first() =~= evs.skip(i + 1));
        if let XmlEvent::Eof = ev {
            return data;
        }
        handle_event(&mut state, &mut data, ev);
        i = i + 1;
    }
    assert(evs.skip(i as int) =~= Seq::<XmlEventView>::empty());
    data
}

/// Parses an XML body for `<podcast:*>` namespace elements.
///
/// Never fails: on input that is not XML at all the result is empty.
pub fn parse(xml: &str) -> (r: NamespaceData)
    ensures
        r@ == namespace_of(document_events(xml@)),
{
    let mut reader = xml_reader(xml);
    let mut state = ParseState::new();
    let mut data = NamespaceData::default();
    loop
        invariant
            namespace_of(document_events(xml@)) == run_events(
                state@,
                data@,
                pending_events(reader),
            ),
            forall|i: int|
                0 <= i < pending_events(reader).len() ==> !(#[trigger] pending_events(
                    reader,
                )[i] is Eof),
        decreases pending_events(reader).len(),
    {
        let ghost before = pending_events(reader);
        let ev = next_xml_event(&mut reader);
        if let XmlEvent::Eof = ev {
            return data;
        }
        assert(!(before[0] is Eof));
        assert forall|i: int|
            0 <= i < pending_events(reader).len() implies !(#[trigger] pending_events(
                reader,
            )[i] is Eof) by {
            assert(pending_events(reader)[i] == before[i + 1]);
        }
        handle_event(&mut state, &mut data, &ev);
    }
}

/// The event names an element with the `podcast` prefix.
pub open spec fn names_podcast_element(ev: XmlEventView) -> bool {
    match ev {
        XmlEventView::Start { name } => element_parts(name).0 == "podcast"@,
        XmlEventView::Empty { name, .. } => element_parts(name).0 == "podcast"@,
        _ => false,
    }
}

/// An item carries nothing from the `podcast` namespace.
pub open spec fn item_without_podcast(item: ItemView) -> bool {
    &&& item.podcast_guid is None
    &&& item.season is None
    &&& item.episode is None
    &&& item.chapters_url is None
}

spec fn no_podcast_invariant(st: StateView, d: NamespaceView) -> bool {
    &&& (st.pending_text is None || st.pending_text == Some(TextTarget::ItemRssGuid))
    &&& (st.current_item matches Some(item) ==> item_without_podcast(item))
    &&& d.show_guid is None
    &&& forall|k: int| 0 <= k < d.items.len() ==> item_without_podcast(#[trigger] d.items[k])
}

proof fn lemma_run_without_podcast(st: StateView, d: NamespaceView, evs: Seq<XmlEventView>)
    requires
        no_podcast_invariant(st, d),
        forall|i: int| 0 <= i < evs.len() ==> !names_podcast_element(#[trigger] evs[i]),
    ensures
        run_events(st, d, evs).show_guid is None,
        forall|k: int|
            0 <= k < run_events(st, d, evs).items.len() ==> item_without_podcast(
                #[trigger] run_events(st, d, evs).items[k],
            ),
    decreases evs.len(),
{
    if evs.len() > 0 && !(evs[0] is Eof) {
        let (st2, d2) = event_step(st, d, evs[0]);
        assert(!names_podcast_element(evs[0]));
        assert(no_podcast_invariant(st2, d2));
        assert forall|i: int| 0 <= i < evs.drop_first().len() implies !names_podcast_element(
            #[trigger] evs.drop_first()[i],
        ) by {
            assert(evs.drop_first()[i] == evs[i + 1]);
        }
        lemma_run_without_podcast(st2, d2, evs.drop_first());
    }
}

/// A feed without `podcast:` elements yields no show guid and items with
/// no namespace data: other namespaces (such as `itunes:`) are ignored.
pub proof fn lemma_other_namespaces_ignored(evs: Seq<XmlEventView>)
    requires
        forall|i: int| 0 <= i < evs.len() ==> !names_podcast_element(#[trigger] evs[i]),
    ensures
        namespace_of(evs).show_guid is None,
        forall|k: int|
            0 <= k < namespace_of(evs).items.len() ==> item_without_podcast(
                #[trigger] namespace_of(evs).items[k],
            ),
{
    lemma_run_without_podcast(initial_state(), empty_data(), evs);
}

/// The event is a start or an end tag.
pub open spec fn is_tag(ev: XmlEventView) -> bool {
    ev is Start || ev is End
}

proof fn lemma_run_without_tags(st: StateView, d: NamespaceView, evs: Seq<XmlEventView>)
    requires
        st.pending_text is None,
        forall|i: int| 0 <= i < evs.len() ==> !is_tag(#[trigger] evs[i]),
    ensures
        run_events(st, d, evs) == d,
    decreases evs.len(),
{
    if evs.len() > 0 && !(evs[0] is Eof) {
        let (st2, d2) = event_step(st, d, evs[0]);
        assert(!is_tag(evs[0]));
        assert(d2 == d && st2.pending_text is None);
        assert forall|i: int| 0 <= i < evs.drop_first().len() implies !is_tag(
            #[trigger] evs.drop_first()[i],
        ) by {
            assert(evs.drop_first()[i] == evs[i + 1]);
        }
        lemma_run_without_tags(st2, d2, evs.drop_first());
    }
}

/// Input with no start or end tag (plain words, an empty body, errors only)
/// yields the default: no show guid and no items.
pub proof fn lemma_untagged_input_gives_default(evs: Seq<XmlEventView>)
    requires
        forall|i: int| 0 <= i < evs.len() ==> !is_tag(#[trigger] evs[i]),
    ensures
        namespace_of(evs) == empty_data(),
{
    lemma_run_without_tags(initial_state(), empty_data(), evs);
}

/// First text wins: once a non-blank text has filled the pending target,
/// later text events change nothing until the next tag.
pub proof fn lemma_first_text_wins(st: StateView, d: NamespaceView, t1: Seq<char>, t2: Seq<char>)
    requires
        trimmed(t1).len() > 0,
    ensures
        text_step(text_step(st, d, t1).0, text_step(st, d, t1).1, t2) == text_step(st, d, t1),
{
}

/// The number of end tags among `evs` (up to the first `Eof`) that close an
/// item or an entry.
pub open spec fn item_closes(evs: Seq<XmlEventView>) -> nat
    decreases evs.len(),
{
    if evs.len() == 0 || evs[0] is Eof {
        0
    } else {
        let here: nat = match evs[0] {
            XmlEventView::End { name } => if opens_item(element_parts(name)) {
                1
            } else {
                0
            },
            _ => 0,
        };
        here + item_closes(evs.drop_first())
    }
}

/// From any state, reading more events only appends items: those already
/// emitted stay as they are, in order, and each closing tag adds at most one.
pub proof fn lemma_run_item_count(st: StateView, d: NamespaceView, evs: Seq<XmlEventView>)
    ensures
        run_events(st, d, evs).items.len() <= d.items.len() + item_closes(evs),
        d.items.len() <= run_events(st, d, evs).items.len(),
        run_events(st, d, evs).items.subrange(0, d.items.len() as int) == d.items,
    decreases evs.len(),
{
    if evs.len() > 0 && !(evs[0] is Eof) {
        let (st2, d2) = event_step(st, d, evs[0]);
        lemma_run_item_count(st2, d2, evs.drop_first());
        let r = run_events(st2, d2, evs.drop_first());
        assert(d2.items.len() <= d.items.len() + 1);
        assert(d2.items.subrange(0, d.items.len() as int) =~= d.items);
        assert(r.items.subrange(0, d.items.len() as int) =~= d2.items.subrange(
            0,
            d.items.len() as int,
        ));
    } else {
        assert(d.items.subrange(0, d.items.len() as int) =~= d.items);
    }
}

/// Items are only emitted by closing `</item>` or `</entry>` tags, at most
/// one per closing tag.
pub proof fn lemma_items_come_from_closing_tags(evs: Seq<XmlEventView>)
    ensures
        namespace_of(evs).items.len() <= item_closes(evs),
{
    lemma_run_item_count(initial_state(), empty_data(), evs);
}

/// Season and episode numbers are read whole: for every 32-bit `n`, however
/// many digits it has, the first non-blank text of a `<podcast:season>` (or
/// `<podcast:episode>`) inside an item that trims to the numeral of `n` sets
/// the item's season (or episode) to `n`, and leaves the rest of the item.
pub proof fn lemma_numeral_sets_season_and_episode(
    st: StateView,
    d: NamespaceView,
    n: u32,
    text: Seq<char>,
)
    requires
        st.current_item is Some,
        trimmed(text) == decimal(n as nat),
    ensures
        st.pending_text == Some(TextTarget::ItemSeason) ==> text_step(st, d, text).0.current_item
            == Some(ItemView { season: Some(n), ..st.current_item->0 }),
        st.pending_text == Some(TextTarget::ItemEpisode) ==> text_step(st, d, text).0.current_item
            == Some(ItemView { episode: Some(n), ..st.current_item->0 }),
        st.pending_text is Some ==> text_step(st, d, text).0.pending_text is None,
{
    lemma_parse_decimal_round_trip(n);
    lemma_decimal_digits(n as nat);
}

} // verus!
