//! Television playlists.
use vstd::prelude::*;
use crate::outside::{json_texts, read_texts, texts_json, write_texts};
use crate::strings::{
    CharClass, after_last, before, begins, begins_with, cat3, chars_of, class_from, copy_text, find,
    find_from, find_last, has, is_blank, is_white, law_split_joined, lemma_before, lemma_has_find,
    lemma_last_at, lemma_nothing_to_trim, occurs_at, rfind, split, split_text, text_after_last, text_opt,
    text_range, texts,
    trim, trim_start, trimmed, trimmed_start,
};

verus! {

/// A channel of a playlist.
#[derive(Debug, Clone)]
pub struct Channel {
    /// The channel's identifier.
    pub id: String,
    /// The channel's name.
    pub name: String,
    /// The address of the channel's logo.
    pub logo: String,
    /// The group that the channel belongs to.
    pub group: String,
    /// The address of the stream.
    pub stream_url: String,
}

/// What a channel means.
pub struct ChannelV {
    /// The channel's identifier.
    pub id: Seq<char>,
    /// The channel's name.
    pub name: Seq<char>,
    /// The address of the channel's logo.
    pub logo: Seq<char>,
    /// The group that the channel belongs to.
    pub group: Seq<char>,
    /// The address of the stream.
    pub stream_url: Seq<char>,
}

impl View for Channel {
    type V = ChannelV;

    open spec fn view(&self) -> ChannelV {
        ChannelV {
            id: self.id@,
            name: self.name@,
            logo: self.logo@,
            group: self.group@,
            stream_url: self.stream_url@,
        }
    }
}

/// What a list of channels means.
pub open spec fn channels(v: Seq<Channel>) -> Seq<ChannelV> {
    Seq::new(v.len(), |i: int| v[i]@)
}

// ---------------------------------------------------------------------------
// Parsing
// ---------------------------------------------------------------------------

/// A channel of which nothing is known.
pub open spec fn blank_channel() -> ChannelV {
    ChannelV {
        id: Seq::empty(),
        name: Seq::empty(),
        logo: Seq::empty(),
        group: Seq::empty(),
        stream_url: Seq::empty(),
    }
}

/// The value of an attribute of a line, up to the closing quote; empty where there is none. The
/// attribute is given with its opening quote.
pub open spec fn attribute(line: Seq<char>, attr: Seq<char>) -> Seq<char> {
    match find(line, attr) {
        Some(i) => {
            let rest = line.skip(i + attr.len());
            let value = before(rest, CharClass::Is('"'));
            if value.len() < rest.len() {
                value
            } else {
                Seq::empty()
            }
        },
        None => Seq::empty(),
    }
}

/// What a line says of the channel that follows.
pub open spec fn described(line: Seq<char>, c: ChannelV) -> ChannelV {
    ChannelV {
        id: attribute(line, "tvg-id=\""@),
        logo: attribute(line, "tvg-logo=\""@),
        group: attribute(line, "group-title=\""@),
        name: match rfind(line, ","@) {
            Some(i) => trim(line.skip(i + 1), CharClass::White),
            None => c.name,
        },
        ..c
    }
}

/// A channel with its stream; a channel without identifier is known by its name.
pub open spec fn streamed(c: ChannelV, url: Seq<char>) -> ChannelV {
    ChannelV {
        stream_url: url,
        id: if c.id.len() == 0 {
            c.name
        } else {
            c.id
        },
        ..c
    }
}

/// The channels read so far, and what is known of the one that follows.
pub struct Reading {
    /// The channels read.
    pub done: Seq<ChannelV>,
    /// What is known of the channel that follows.
    pub current: ChannelV,
}

/// After a line, trimmed: one that describes a channel, a comment, or the address of a stream.
pub open spec fn line_read(r: Reading, line: Seq<char>) -> Reading {
    if line.len() == 0 {
        r
    } else if begins(line, "#EXTINF:"@) {
        Reading { current: described(line, r.current), ..r }
    } else if begins(line, "#"@) {
        r
    } else {
        Reading { done: r.done.push(streamed(r.current, line)), current: blank_channel() }
    }
}

/// After lines.
pub open spec fn lines_read(lines: Seq<Seq<char>>) -> Reading
    decreases lines.len(),
{
    if lines.len() == 0 {
        Reading { done: Seq::empty(), current: blank_channel() }
    } else {
        line_read(lines_read(lines.drop_last()), trim(lines.last(), CharClass::White))
    }
}

/// The channels of a playlist. Marks of the byte order at its start are passed over.
pub open spec fn playlist_channels(content: Seq<char>) -> Seq<ChannelV> {
    lines_read(split(trim_start(content, CharClass::Is('\u{feff}')), CharClass::Is('\n'))).done
}

/// The value of an attribute of a line.
fn read_attribute(line: &str, attr: &str) -> (r: String)
    ensures
        r@ == attribute(line@, attr@),
{
    let v = chars_of(line);
    let a = chars_of(attr);
    let n: usize = v.len();
    match find_from(v.as_slice(), a.as_slice(), 0) {
        Some(i) => {
            let start: usize = i + a.len();
            let end = class_from(v.as_slice(), CharClass::Is('"'), start);
            if end < n {
                text_range(v.as_slice(), start, end)
            } else {
                String::new()
            }
        },
        None => String::new(),
    }
}

/// A parser of playlists.
pub struct M3UParser {
    /// Where playlists are cached, relative to the user's cache directory.
    pub cache_dir: String,
}

impl Default for M3UParser {
    fn default() -> (r: M3UParser)
        ensures
            r.cache_dir@ == "moviebox-tui/tv_playlists"@,
    {
        M3UParser { cache_dir: copy_text("moviebox-tui/tv_playlists") }
    }
}

impl M3UParser {
    /// A parser of playlists.
    pub fn new() -> (r: M3UParser)
        ensures
            r.cache_dir@ == "moviebox-tui/tv_playlists"@,
    {
        M3UParser { cache_dir: copy_text("moviebox-tui/tv_playlists") }
    }

    /// Whether a playlist of an age in seconds is fetched again: it is after a day, and where there is
    /// none or its age is not known.
    pub fn needs_download(age: Option<u64>) -> (r: bool)
        ensures
            r == !(age is Some && age->0 < 86_400),
    {
        match age {
            Some(a) => a >= 86_400,
            None => true,
        }
    }

    /// The name under which the playlist at an address is cached: the last part of the address.
    pub fn file_name(url: &str) -> (r: String)
        ensures
            r@ == after_last(url@, CharClass::Is('/')),
    {
        text_after_last(url, CharClass::Is('/'))
    }

    /// The path under which a playlist is cached.
    pub fn cached_path(&self, filename: &str) -> (r: String)
        ensures
            r@ == self.cache_dir@ + "/"@ + filename@,
    {
        cat3(self.cache_dir.as_str(), "/", filename)
    }

    /// The channels of a playlist.
    pub fn parse_m3u(&self, content: &str) -> (r: Vec<Channel>)
        ensures
            channels(r@) == playlist_channels(content@),
    {
        proof {
            reveal_strlit(",");
        }
        let body = trimmed_start(content, CharClass::Is('\u{feff}'));
        let lines = split_text(body.as_str(), CharClass::Is('\n'));
        let ghost list = texts(lines@);
        let mut done: Vec<Channel> = Vec::new();
        let mut current = Channel {
            id: String::new(),
            name: String::new(),
            logo: String::new(),
            group: String::new(),
            stream_url: String::new(),
        };
        let mut i: usize = 0;
        proof {
            assert(list.take(0) =~= Seq::empty());
            assert(channels(done@) =~= Seq::empty());
        }
        while i < lines.len()
            invariant
                i <= lines@.len(),
                list == texts(lines@),
                ","@.len() == 1,
                channels(done@) == lines_read(list.take(i as int)).done,
                current@ == lines_read(list.take(i as int)).current,
            decreases lines@.len() - i,
        {
            let ghost before_line = lines_read(list.take(i as int));
            proof {
                assert(list.take(i + 1).drop_last() =~= list.take(i as int));
                assert(list.take(i + 1).last() == lines@[i as int]@);
            }
            let line = trimmed(lines[i].as_str(), CharClass::White);
            if is_blank(line.as_str()) {
            } else if begins_with(line.as_str(), "#EXTINF:") {
                let v = chars_of(line.as_str());
                let n: usize = v.len();
                let name = match find_last(v.as_slice(), chars_of(",").as_slice()) {
                    Some(k) => {
                        let rest = text_range(v.as_slice(), k + 1, n);
                        assert(rest@ =~= line@.skip(k + 1));
                        trimmed(rest.as_str(), CharClass::White)
                    },
                    None => copy_text(current.name.as_str()),
                };
                current = Channel {
                    id: read_attribute(line.as_str(), "tvg-id=\""),
                    logo: read_attribute(line.as_str(), "tvg-logo=\""),
                    group: read_attribute(line.as_str(), "group-title=\""),
                    name,
                    stream_url: current.stream_url,
                };
            } else if begins_with(line.as_str(), "#") {
            } else {
                let id = if is_blank(current.id.as_str()) {
                    copy_text(current.name.as_str())
                } else {
                    copy_text(current.id.as_str())
                };
                let c = Channel {
                    id,
                    name: current.name,
                    logo: current.logo,
                    group: current.group,
                    stream_url: line,
                };
                let ghost known = channels(done@);
                done.push(c);
                assert(channels(done@) =~= known.push(c@));
                current = Channel {
                    id: String::new(),
                    name: String::new(),
                    logo: String::new(),
                    group: String::new(),
                    stream_url: String::new(),
                };
            }
            i = i + 1;
        }
        assert(list.take(list.len() as int) =~= list);
        done
    }
}

/// Every channel of a playlist has a stream whose address is not empty and does not begin with a
/// comment sign.
pub proof fn law_channels_have_streams(lines: Seq<Seq<char>>)
    ensures
        forall|i: int|
            0 <= i < lines_read(lines).done.len() ==> {
                let url = (#[trigger] lines_read(lines).done[i]).stream_url;
                url.len() > 0 && !begins(url, "#"@)
            },
    decreases lines.len(),
{
    if lines.len() > 0 {
        law_channels_have_streams(lines.drop_last());
        let r = lines_read(lines.drop_last());
        let line = trim(lines.last(), CharClass::White);
        let n = lines_read(lines);
        assert forall|i: int| 0 <= i < n.done.len() implies {
            let url = (#[trigger] n.done[i]).stream_url;
            url.len() > 0 && !begins(url, "#"@)
        } by {
            if i < r.done.len() {
                assert(n.done[i] == r.done[i]);
            }
        }
    }
}

/// A mark of the byte order at the start of a playlist changes nothing.
pub proof fn law_byte_order_mark(content: Seq<char>)
    ensures
        playlist_channels(seq!['\u{feff}'] + content) == playlist_channels(content),
{
    let s = seq!['\u{feff}'] + content;
    assert(s.skip(1) =~= content);
}

/// Whether lines end with a channel that is described and has no stream yet.
pub open spec fn left_open(lines: Seq<Seq<char>>) -> bool
    decreases lines.len(),
{
    if lines.len() == 0 {
        false
    } else {
        let line = trim(lines.last(), CharClass::White);
        if begins(line, "#EXTINF:"@) {
            true
        } else if line.len() == 0 || begins(line, "#"@) {
            left_open(lines.drop_last())
        } else {
            false
        }
    }
}

/// Where no channel is left open, nothing is known of the one that follows.
proof fn lemma_not_left_open(lines: Seq<Seq<char>>)
    requires
        !left_open(lines),
    ensures
        lines_read(lines).current == blank_channel(),
    decreases lines.len(),
{
    if lines.len() > 0 {
        let line = trim(lines.last(), CharClass::White);
        if line.len() == 0 || begins(line, "#"@) {
            lemma_not_left_open(lines.drop_last());
        }
    }
}

/// Lines behind others that leave no channel open are read as they are read alone.
proof fn lemma_lines_joined(v: Seq<Seq<char>>, w: Seq<Seq<char>>)
    requires
        lines_read(v).current == blank_channel(),
    ensures
        lines_read(v + w).done == lines_read(v).done + lines_read(w).done,
        lines_read(v + w).current == lines_read(w).current,
    decreases w.len(),
{
    if w.len() == 0 {
        assert(v + w =~= v);
        assert(lines_read(v).done + lines_read(w).done =~= lines_read(v).done);
    } else {
        lemma_lines_joined(v, w.drop_last());
        assert((v + w).drop_last() =~= v + w.drop_last());
        assert((v + w).last() == w.last());
        let line = trim(w.last(), CharClass::White);
        let r = lines_read(w.drop_last());
        assert(lines_read(v).done + r.done.push(streamed(r.current, line)) =~= (lines_read(v).done
            + r.done).push(streamed(r.current, line)));
    }
}

/// Marks of the byte order are passed over at the start of a text, whatever follows it behind
/// another character.
proof fn lemma_marks_at_start(a: Seq<char>, c: char, b: Seq<char>, mark: char)
    requires
        c != mark,
    ensures
        trim_start(a + seq![c] + b, CharClass::Is(mark)) == trim_start(a, CharClass::Is(mark))
            + seq![c] + b,
    decreases a.len(),
{
    let whole = a + seq![c] + b;
    if a.len() > 0 && a[0] == mark {
        lemma_marks_at_start(a.skip(1), c, b, mark);
        assert(whole[0] == a[0]);
        assert(whole.skip(1) =~= a.skip(1) + seq![c] + b);
    } else if a.len() > 0 {
        assert(whole[0] == a[0]);
    } else {
        assert(whole[0] == c);
    }
}

/// Two playlists, one behind the other on lines of their own, have the channels of the one and then
/// those of the other, if the first leaves no channel open and the second begins without a mark of
/// the byte order.
pub proof fn law_playlists_joined(a: Seq<char>, b: Seq<char>)
    requires
        b.len() > 0 ==> b[0] != '\u{feff}',
        !left_open(split(trim_start(a, CharClass::Is('\u{feff}')), CharClass::Is('\n'))),
    ensures
        playlist_channels(a + seq!['\n'] + b) == playlist_channels(a) + playlist_channels(b),
{
    let start = trim_start(a, CharClass::Is('\u{feff}'));
    lemma_marks_at_start(a, '\n', b, '\u{feff}');
    law_split_joined(start, '\n', b, CharClass::Is('\n'));
    lemma_not_left_open(split(start, CharClass::Is('\n')));
    lemma_lines_joined(split(start, CharClass::Is('\n')), split(b, CharClass::Is('\n')));
}

// ---------------------------------------------------------------------------
// The playlists chosen
// ---------------------------------------------------------------------------

/// The addresses that a list gives, none if there is no list.
pub open spec fn listed(v: Option<Seq<Seq<char>>>) -> Seq<Seq<char>> {
    match v {
        Some(urls) => urls,
        None => Seq::empty(),
    }
}

/// The addresses that the contents of a file give, none if there is no file.
pub open spec fn urls_in(content: Option<Seq<char>>) -> Seq<Seq<char>> {
    match content {
        Some(s) => listed(json_texts(s)),
        None => Seq::empty(),
    }
}

/// The addresses that a list gives, none if there is no list.
pub fn listed_urls(v: Option<Vec<String>>) -> (r: Vec<String>)
    ensures
        texts(r@) == listed(
            match v {
                Some(urls) => Some(texts(urls@)),
                None => None,
            },
        ),
{
    match v {
        Some(urls) => urls,
        None => {
            let none: Vec<String> = Vec::new();
            assert(texts(none@) =~= Seq::empty());
            none
        },
    }
}

/// The addresses that the contents of a file give, none if there is no file.
pub fn saved_urls(content: &Option<String>) -> (r: Vec<String>)
    ensures
        texts(r@) == urls_in(text_opt(*content)),
{
    match content {
        Some(s) => listed_urls(read_texts(s.as_str())),
        None => listed_urls(None),
    }
}

/// The contents of a file that keeps addresses. They are read back as they were.
pub fn keep_urls(urls: &Vec<String>) -> (r: String)
    ensures
        r@ == texts_json(texts(urls@)),
        urls_in(Some(r@)) == texts(urls@),
{
    match write_texts(urls) {
        Some(s) => s,
        None => String::new(),
    }
}

/// A channel is described by a line and followed by its address; it is read with the name behind the
/// last comma and the attributes of the line, and with its name for an identifier where it has none.
pub proof fn law_channel_is_read(
    lines: Seq<Seq<char>>,
    info: Seq<char>,
    url: Seq<char>,
    before_name: Seq<char>,
    name: Seq<char>,
)
    requires
        info == "#EXTINF:"@ + before_name + ","@ + name,
        !name.contains(','),
        name.len() > 0,
        !is_white(name[0]),
        !is_white(name.last()),
        url.len() > 0,
        url[0] != '#',
        !is_white(url[0]),
        !is_white(url.last()),
    ensures
        ({
            let done = lines_read(lines.push(info).push(url)).done;
            let c = done.last();
            &&& done.len() == lines_read(lines).done.len() + 1
            &&& done.drop_last() == lines_read(lines).done
            &&& c.stream_url == url
            &&& c.name == name
            &&& c.logo == attribute(info, "tvg-logo=\""@)
            &&& c.group == attribute(info, "group-title=\""@)
            &&& attribute(info, "tvg-id=\""@).len() > 0 ==> c.id == attribute(info, "tvg-id=\""@)
            &&& attribute(info, "tvg-id=\""@).len() == 0 ==> c.id == name
        }),
{
    reveal_strlit("#EXTINF:");
    reveal_strlit("#");
    reveal_strlit(",");
    let v = lines.push(info);
    let w = v.push(url);
    assert(w.drop_last() =~= v);
    assert(v.drop_last() =~= lines);
    assert(info[0] == '#');
    assert(info.last() == name.last());
    lemma_nothing_to_trim(info, CharClass::White);
    lemma_nothing_to_trim(url, CharClass::White);
    assert(info.subrange(0, 8) =~= "#EXTINF:"@);
    assert(begins(info, "#EXTINF:"@));
    let at = 8 + before_name.len() as int;
    assert(info.subrange(at, at + 1) =~= ","@);
    assert(occurs_at(info, ","@, at));
    lemma_last_at(info, ","@, info.len() as int);
    assert forall|j: int| at < j && occurs_at(info, ","@, j) implies false by {
        assert(info.subrange(j, j + 1)[0] == ',');
        assert(name[j - at - 1] == info[j]);
        assert(name.contains(','));
    }
    assert(rfind(info, ","@) == Some(at));
    assert(info.skip(at + 1) =~= name);
    lemma_nothing_to_trim(name, CharClass::White);
    if begins(url, "#"@) {
        assert(url.subrange(0, 1)[0] == '#');
        assert(false);
    }
    if begins(url, "#EXTINF:"@) {
        assert(url.subrange(0, 8)[0] == '#');
        assert(false);
    }
    assert(lines_read(v) == line_read(lines_read(lines), info));
    assert(lines_read(w) == line_read(lines_read(v), url));
    let done = lines_read(w).done;
    assert(done.drop_last() =~= lines_read(lines).done);
}

/// A comment and an empty line change nothing of what is read.
pub proof fn law_comments_are_passed_over(lines: Seq<Seq<char>>, line: Seq<char>)
    requires
        trim(line, CharClass::White).len() == 0 || (trim(line, CharClass::White)[0] == '#' && (trim(
            line,
            CharClass::White,
        ).len() < 2 || trim(line, CharClass::White)[1] != 'E')),
    ensures
        lines_read(lines.push(line)) == lines_read(lines),
{
    reveal_strlit("#EXTINF:");
    reveal_strlit("#");
    assert(lines.push(line).drop_last() =~= lines);
    let t = trim(line, CharClass::White);
    if t.len() > 0 {
        assert(t.subrange(0, 1) =~= "#"@);
        assert(begins(t, "#"@));
        if begins(t, "#EXTINF:"@) {
            assert(t.subrange(0, 8)[1] == t[1]);
            assert("#EXTINF:"@[1] == 'E');
        }
    }
}

/// An attribute is what stands between its name and the next quotation mark.
pub proof fn law_attributes(a: Seq<char>, attr: Seq<char>, value: Seq<char>, b: Seq<char>)
    requires
        find(a + attr + value + seq!['"'] + b, attr) == Some(a.len() as int),
        !value.contains('"'),
    ensures
        attribute(a + attr + value + seq!['"'] + b, attr) == value,
{
    let line = a + attr + value + seq!['"'] + b;
    let rest = line.skip((a.len() + attr.len()) as int);
    assert(rest =~= value + seq!['"'] + b);
    assert forall|j: int| 0 <= j < value.len() implies !CharClass::Is('"').holds(rest[j]) by {
        assert(rest[j] == value[j]);
        assert(value.contains(value[j]));
    }
    assert(CharClass::Is('"').holds(rest[value.len() as int]));
    lemma_before(rest, CharClass::Is('"'), value.len() as int);
    assert(rest.take(value.len() as int) =~= value);
}

/// A line without an attribute gives nothing for it.
pub proof fn law_missing_attribute(line: Seq<char>, attr: Seq<char>)
    requires
        !(has(line, attr)),
    ensures
        attribute(line, attr).len() == 0,
{
    lemma_has_find(line, attr);
}

/// Addresses that were saved are read back in order; where nothing can be read there are none.
pub proof fn law_saved_addresses(s: Seq<char>, v: Seq<Seq<char>>)
    ensures
        json_texts(s) == Some(v) ==> urls_in(Some(s)) == v,
        json_texts(s) is None ==> urls_in(Some(s)).len() == 0,
        urls_in(None).len() == 0,
{
}

} // verus!
