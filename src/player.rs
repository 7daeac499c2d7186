//! Interpretation of the report that the media players' script prints:
//! `playing|title|artist|album|duration|position|artwork url|app`, or
//! anything else when nothing plays.

use vstd::prelude::*;
use vstd::slice::slice_subrange;

verus! {

/// Field separator of the report.
pub const SEPARATOR: u8 = 0x7c;

/// Number of fields of a report of a playing track.
pub const REPORT_FIELDS: usize = 8;

/// Bytes that surround the report and are trimmed: space, tab, line feed,
/// form feed and carriage return.
pub open spec fn is_space(b: u8) -> bool {
    b == 0x20 || b == 0x09 || b == 0x0a || b == 0x0c || b == 0x0d
}

/// Index of the first byte at or after `i` that is not a space.
pub open spec fn skip_spaces(s: Seq<u8>, i: int) -> int
    decreases s.len() - i,
{
    if 0 <= i < s.len() && is_space(s[i]) {
        skip_spaces(s, i + 1)
    } else {
        i
    }
}

/// End of `s[lo..j]` once its trailing spaces are dropped.
pub open spec fn drop_trailing_spaces(s: Seq<u8>, lo: int, j: int) -> int
    decreases j - lo,
{
    if lo < j && j <= s.len() && is_space(s[j - 1]) {
        drop_trailing_spaces(s, lo, j - 1)
    } else {
        j
    }
}

/// `s` without its leading and trailing spaces.
pub open spec fn trim_spec(s: Seq<u8>) -> Seq<u8> {
    let start = skip_spaces(s, 0);
    s.subrange(start, drop_trailing_spaces(s, start, s.len() as int))
}

/// The fields of `s` between separators; always at least one.
pub open spec fn split_spec(s: Seq<u8>, sep: u8) -> Seq<Seq<u8>>
    decreases s.len(),
{
    if s.len() == 0 {
        seq![Seq::empty()]
    } else {
        let prev = split_spec(s.drop_last(), sep);
        if s.last() == sep {
            prev.push(Seq::empty())
        } else {
            prev.update(prev.len() - 1, prev.last().push(s.last()))
        }
    }
}

/// `s` with every trailing copy of `suffix` removed.
pub open spec fn strip_suffixes(s: Seq<u8>, suffix: Seq<u8>) -> Seq<u8>
    decreases s.len(),
{
    if suffix.len() > 0 && s.len() >= suffix.len() && s.subrange(
        s.len() - suffix.len(),
        s.len() as int,
    ) == suffix {
        strip_suffixes(s.subrange(0, s.len() - suffix.len()), suffix)
    } else {
        s
    }
}

/// `playing`
pub open spec fn playing_word() -> Seq<u8> {
    seq![0x70u8, 0x6c, 0x61, 0x79, 0x69, 0x6e, 0x67]
}

/// `spotify`
pub open spec fn spotify_word() -> Seq<u8> {
    seq![0x73u8, 0x70, 0x6f, 0x74, 0x69, 0x66, 0x79]
}

/// `music`
pub open spec fn music_word() -> Seq<u8> {
    seq![0x6du8, 0x75, 0x73, 0x69, 0x63]
}

/// `safari`
pub open spec fn safari_word() -> Seq<u8> {
    seq![0x73u8, 0x61, 0x66, 0x61, 0x72, 0x69]
}

/// ` - YouTube`, which browsers append to the titles of videos.
pub open spec fn video_site_suffix() -> Seq<u8> {
    seq![0x20u8, 0x2d, 0x20, 0x59, 0x6f, 0x75, 0x54, 0x75, 0x62, 0x65]
}

/// Text decoded from UTF-8, with each invalid sequence replaced by U+FFFD.
pub uninterp spec fn utf8_lossy(b: Seq<u8>) -> Seq<char>;

/// Relies on `String::from_utf8_lossy`: decodes the bytes, replacing each
/// invalid sequence with U+FFFD, so the text is empty exactly when the bytes
/// are.
#[verifier::external_body]
fn decode_lossy(b: &[u8]) -> (r: String)
    ensures
        r@ == utf8_lossy(b@),
        r@.len() == 0 <==> b@.len() == 0,
{
    String::from_utf8_lossy(b).into_owned()
}

/// The player that produced a report.
#[derive(Clone, Copy, Debug, PartialEq, Eq, Structural)]
pub enum PlayerApp {
    Spotify,
    Music,
    Safari,
    Other,
}

pub open spec fn app_of(id: Seq<u8>) -> PlayerApp {
    if id == spotify_word() {
        PlayerApp::Spotify
    } else if id == music_word() {
        PlayerApp::Music
    } else if id == safari_word() {
        PlayerApp::Safari
    } else {
        PlayerApp::Other
    }
}

/// Decoded text of a field, `None` when the field is empty.
pub open spec fn optional_text(field: Seq<u8>) -> Option<Seq<char>> {
    if field.len() == 0 {
        None
    } else {
        Some(utf8_lossy(field))
    }
}

/// A track that a player reports as playing.
#[derive(Debug)]
pub struct PlayerReport {
    /// Title as the player gives it; the track cache compares this one.
    pub title: Option<String>,
    /// Title to show: for the browser, without the video site's suffix.
    pub display_title: Option<String>,
    pub artist: Option<String>,
    pub album: Option<String>,
    /// Duration and position in seconds, as the player printed them.
    pub duration_text: String,
    pub elapsed_text: String,
    pub artwork_url: String,
    pub app: PlayerApp,
}

/// The report is one of a playing track: it has enough fields and its first
/// field is the word `playing`.
pub open spec fn reports_playing(fields: Seq<Seq<u8>>) -> bool {
    fields.len() >= REPORT_FIELDS && fields[0] == playing_word()
}

fn trim_bytes(s: &[u8]) -> (r: (usize, usize))
    ensures
        r.0 == skip_spaces(s@, 0),
        r.1 == drop_trailing_spaces(s@, r.0 as int, s@.len() as int),
        r.0 <= r.1 <= s@.len(),
{
    let mut start: usize = 0;
    while start < s.len() && (s[start] == 0x20 || s[start] == 0x09 || s[start] == 0x0a
        || s[start] == 0x0c || s[start] == 0x0d)
        invariant
            start <= s@.len(),
            skip_spaces(s@, start as int) == skip_spaces(s@, 0),
        decreases s@.len() - start,
    {
        start = start + 1;
    }
    let mut end: usize = s.len();
    while end > start && (s[end - 1] == 0x20 || s[end - 1] == 0x09 || s[end - 1] == 0x0a
        || s[end - 1] == 0x0c || s[end - 1] == 0x0d)
        invariant
            start <= end <= s@.len(),
            skip_spaces(s@, 0) == start,
            drop_trailing_spaces(s@, start as int, end as int) == drop_trailing_spaces(
                s@,
                start as int,
                s@.len() as int,
            ),
        decreases end,
    {
        end = end - 1;
    }
    (start, end)
}

fn split_bytes(s: &[u8], from: usize, to: usize, sep: u8) -> (r: Vec<Vec<u8>>)
    requires
        from <= to <= s@.len(),
    ensures
        r@.map_values(|f: Vec<u8>| f@) == split_spec(s@.subrange(from as int, to as int), sep),
{
    let mut fields: Vec<Vec<u8>> = Vec::new();
    let mut current: Vec<u8> = Vec::new();
    let mut i: usize = from;
    while i < to
        invariant
            from <= i <= to <= s@.len(),
            fields@.map_values(|f: Vec<u8>| f@).push(current@) == split_spec(
                s@.subrange(from as int, i as int),
                sep,
            ),
        decreases to - i,
    {
        let ghost prefix = s@.subrange(from as int, i as int);
        let ghost prev = split_spec(prefix, sep);
        let b = s[i];
        assert(s@.subrange(from as int, i + 1).drop_last() =~= prefix);
        if b == sep {
            fields.push(current);
            current = Vec::new();
            assert(fields@.map_values(|f: Vec<u8>| f@).push(current@) =~= prev.push(Seq::empty()));
        } else {
            current.push(b);
            assert(fields@.map_values(|f: Vec<u8>| f@).push(current@) =~= prev.update(
                prev.len() - 1,
                prev.last().push(b),
            ));
        }
        i = i + 1;
    }
    fields.push(current);
    fields
}

fn bytes_equal(a: &[u8], b: &[u8]) -> (r: bool)
    ensures
        r == (a@ == b@),
{
    if a.len() != b.len() {
        return false;
    }
    let mut i: usize = 0;
    while i < a.len()
        invariant
            a@.len() == b@.len(),
            i <= a@.len(),
            a@.subrange(0, i as int) == b@.subrange(0, i as int),
        decreases a@.len() - i,
    {
        if a[i] != b[i] {
            assert(a@[i as int] != b@[i as int]);
            return false;
        }
        assert(a@.subrange(0, i + 1) =~= a@.subrange(0, i as int).push(a@[i as int]));
        assert(b@.subrange(0, i + 1) =~= b@.subrange(0, i as int).push(b@[i as int]));
        i = i + 1;
    }
    assert(a@ =~= a@.subrange(0, i as int));
    assert(b@ =~= b@.subrange(0, i as int));
    true
}

/// End of `s[..end]` once every trailing copy of `suffix` is removed.
fn strip_suffixes_end(s: &[u8], suffix: &[u8]) -> (r: usize)
    ensures
        r <= s@.len(),
        s@.subrange(0, r as int) == strip_suffixes(s@, suffix@),
{
    let mut end: usize = s.len();
    assert(s@.subrange(0, end as int) =~= s@);
    while suffix.len() > 0 && end >= suffix.len() && bytes_equal(
        slice_subrange(s, end - suffix.len(), end),
        suffix,
    )
        invariant
            end <= s@.len(),
            strip_suffixes(s@.subrange(0, end as int), suffix@) == strip_suffixes(s@, suffix@),
        decreases end,
    {
        let ghost cur = s@.subrange(0, end as int);
        assert(cur.subrange(cur.len() - suffix@.len(), cur.len() as int) =~= s@.subrange(
            end - suffix@.len(),
            end as int,
        ));
        assert(cur.subrange(0, cur.len() - suffix@.len()) =~= s@.subrange(
            0,
            end - suffix@.len(),
        ));
        end = end - suffix.len();
    }
    proof {
        let cur = s@.subrange(0, end as int);
        if suffix@.len() > 0 && end >= suffix@.len() {
            assert(cur.subrange(cur.len() - suffix@.len(), cur.len() as int) =~= s@.subrange(
                end - suffix@.len(),
                end as int,
            ));
        }
    }
    end
}

fn optional_field(field: &[u8]) -> (r: Option<String>)
    ensures
        r.deep_view() == optional_text(field@),
{
    if field.len() == 0 {
        None
    } else {
        Some(decode_lossy(field))
    }
}

/// Fields of a report: the trimmed output split at each separator.
pub open spec fn report_fields(output: Seq<u8>) -> Seq<Seq<u8>> {
    split_spec(trim_spec(output), SEPARATOR)
}

/// Title to show for a title field: the browser's titles lose the video
/// site's suffix.
pub open spec fn display_text(field: Seq<u8>, app: PlayerApp) -> Option<Seq<char>> {
    if field.len() == 0 {
        None
    } else if app == PlayerApp::Safari {
        Some(utf8_lossy(strip_suffixes(field, video_site_suffix())))
    } else {
        Some(utf8_lossy(field))
    }
}

/// Reads a player report. `None` unless the trimmed output, split at `|`,
/// has at least eight fields of which the first is `playing`. Empty title,
/// artist and album fields become `None`; the app is named by the last field.
pub fn parse_player_report(output: &[u8]) -> (r: Option<PlayerReport>)
    ensures
        r is Some <==> reports_playing(report_fields(output@)),
        r matches Some(p) ==> ({
            let fields = report_fields(output@);
            &&& p.title.deep_view() == optional_text(fields[1])
            &&& p.artist.deep_view() == optional_text(fields[2])
            &&& p.album.deep_view() == optional_text(fields[3])
            &&& p.duration_text@ == utf8_lossy(fields[4])
            &&& p.elapsed_text@ == utf8_lossy(fields[5])
            &&& p.artwork_url@ == utf8_lossy(fields[6])
            &&& p.app == app_of(fields.last())
            &&& p.display_title.deep_view() == display_text(fields[1], p.app)
        }),
{
    let (start, end) = trim_bytes(output);
    let fields = split_bytes(output, start, end, SEPARATOR);
    let ghost spec_fields = report_fields(output@);
    proof {
        assert(output@.subrange(start as int, end as int) == trim_spec(output@));
        assert(fields@.map_values(|f: Vec<u8>| f@) == spec_fields);
        assert(fields@.len() == spec_fields.len());
        assert forall|k: int| 0 <= k < fields@.len() implies #[trigger] fields@[k]@ == spec_fields[k] by {
            assert(fields@.map_values(|f: Vec<u8>| f@)[k] == fields@[k]@);
        }
    }
    let playing: [u8; 7] = [0x70, 0x6c, 0x61, 0x79, 0x69, 0x6e, 0x67];
    proof {
        assert(playing@ =~= playing_word());
    }
    if fields.len() < REPORT_FIELDS || !bytes_equal(fields[0].as_slice(), playing.as_slice()) {
        return None;
    }
    let spotify: [u8; 7] = [0x73, 0x70, 0x6f, 0x74, 0x69, 0x66, 0x79];
    let music: [u8; 5] = [0x6d, 0x75, 0x73, 0x69, 0x63];
    let safari: [u8; 6] = [0x73, 0x61, 0x66, 0x61, 0x72, 0x69];
    let suffix: [u8; 10] = [0x20, 0x2d, 0x20, 0x59, 0x6f, 0x75, 0x54, 0x75, 0x62, 0x65];
    proof {
        assert(spotify@ =~= spotify_word());
        assert(music@ =~= music_word());
        assert(safari@ =~= safari_word());
        assert(suffix@ =~= video_site_suffix());
    }
    let last = fields[fields.len() - 1].as_slice();
    let app = if bytes_equal(last, spotify.as_slice()) {
        PlayerApp::Spotify
    } else if bytes_equal(last, music.as_slice()) {
        PlayerApp::Music
    } else if bytes_equal(last, safari.as_slice()) {
        PlayerApp::Safari
    } else {
        PlayerApp::Other
    };
    let title_field = fields[1].as_slice();
    let display_title = if title_field.len() == 0 {
        None
    } else {
        match app {
            PlayerApp::Safari => {
                let end = strip_suffixes_end(title_field, suffix.as_slice());
                Some(decode_lossy(slice_subrange(title_field, 0, end)))
            },
            _ => Some(decode_lossy(title_field)),
        }
    };
    Some(
        PlayerReport {
            title: optional_field(title_field),
            display_title,
            artist: optional_field(fields[2].as_slice()),
            album: optional_field(fields[3].as_slice()),
            duration_text: decode_lossy(fields[4].as_slice()),
            elapsed_text: decode_lossy(fields[5].as_slice()),
            artwork_url: decode_lossy(fields[6].as_slice()),
            app,
        },
    )
}

/// Where the artwork of a reported track comes from.
#[derive(Clone, Copy, Debug, PartialEq, Eq, Structural)]
pub enum ArtworkSource {
    /// Same track as before: reuse the cached artwork.
    Cached,
    /// Ask the music app for the current track's artwork.
    MusicApp,
    /// Download the artwork from the reported URL.
    Url,
    /// No artwork can be had.
    Unavailable,
}

/// Artwork is fetched only when the track changed: from the music app for
/// its tracks, else from the reported URL when there is one.
pub fn artwork_source(track_changed: bool, app: PlayerApp, has_artwork_url: bool) -> (r: ArtworkSource)
    ensures
        !track_changed ==> r == ArtworkSource::Cached,
        track_changed && app == PlayerApp::Music ==> r == ArtworkSource::MusicApp,
        track_changed && app != PlayerApp::Music && has_artwork_url ==> r == ArtworkSource::Url,
        track_changed && app != PlayerApp::Music && !has_artwork_url ==> r
            == ArtworkSource::Unavailable,
{
    if !track_changed {
        ArtworkSource::Cached
    } else if app == PlayerApp::Music {
        ArtworkSource::MusicApp
    } else if has_artwork_url {
        ArtworkSource::Url
    } else {
        ArtworkSource::Unavailable
    }
}

/// Lowercase form of a text, as std computes it.
pub uninterp spec fn lowercase_of(s: Seq<char>) -> Seq<char>;

/// Relies on `str::to_lowercase`: the result depends on the characters alone.
#[verifier::external_body]
fn to_lowercase(s: &str) -> (r: String)
    ensures
        r@ == lowercase_of(s@),
{
    s.to_lowercase()
}

/// Application name for a player name already lowercased: the known
/// players get their proper names, anything else is kept as given.
pub open spec fn media_app_spec(lowered: Seq<char>, name: Seq<char>) -> Seq<char> {
    if lowered == "music"@ {
        "Music"@
    } else if lowered == "spotify"@ {
        "Spotify"@
    } else if lowered == "safari"@ {
        "Safari"@
    } else {
        name
    }
}

/// Application to open for a player name, given its lowercase form.
pub fn canonical_media_app(lowered: &str, name: &str) -> (r: String)
    ensures
        r@ == media_app_spec(lowered@, name@),
{
    let l = lowered.to_string();
    if l == "music".to_string() {
        "Music".to_string()
    } else if l == "spotify".to_string() {
        "Spotify".to_string()
    } else if l == "safari".to_string() {
        "Safari".to_string()
    } else {
        name.to_string()
    }
}

/// Application to open for a player name, matched without regard to case.
pub fn media_app_name(name: &str) -> (r: String)
    ensures
        r@ == media_app_spec(lowercase_of(name@), name@),
{
    let lowered = to_lowercase(name);
    canonical_media_app(lowered.as_str(), name)
}

} // verus!
