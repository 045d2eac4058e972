//! The metadata normalizer: turns a hub attribute payload into the
//! canonical playback-metadata value that the adapters cache and the
//! control surface reads. Every field has a default, so an absent field
//! never fails; a present field of the wrong primitive type fails that
//! field's extraction.

use vstd::prelude::*;

use crate::art_url::{resolve_art_url, spec_resolve_art_url, url_join_ok, url_relative};
use crate::json::{json_text, obj_get, render_json, spec_lookup, str_eq, JsonVal};

verus! {

/// Loop/repeat mode of a media player. `Off` is no repeat, `Track`
/// repeats the current track, `Playlist` the whole playlist.
#[derive(Debug, Clone, Copy, PartialEq, Eq, Structural)]
pub enum HALoopStatus {
    Off,
    Track,
    Playlist,
}

/// Why a raw attribute payload failed to normalize.
#[derive(Debug, Clone, Copy, PartialEq, Eq, Structural)]
pub enum NormalizationError {
    /// A present field's raw value has a type that its extraction cannot
    /// take.
    TypeMismatch,
    /// The raw artwork reference is neither an absolute URL nor joinable
    /// against the base URL.
    InvalidArtUrl,
}

/// Canonical playback metadata, the one shape the control surface reads.
///
/// `duration`, `position` and `volume` are integers; `volume` is held in
/// thousandths of full scale, so full volume is 1000. `art_url` is always
/// an absolute URL.
#[derive(Debug, PartialEq)]
pub struct MediaPlayerMetadata {
    pub title: String,
    pub artist: String,
    pub duration: i64,
    pub position: i64,
    pub volume: i64,
    pub art_url: String,
    pub playing: bool,
    pub shuffle: bool,
    pub repeat: HALoopStatus,
}

/// The mathematical shape of canonical metadata, used in contracts.
pub struct MetadataModel {
    pub title: Seq<char>,
    pub artist: Seq<char>,
    pub duration: int,
    pub position: int,
    pub volume: int,
    pub art_url: Seq<char>,
    pub playing: bool,
    pub shuffle: bool,
    pub repeat: HALoopStatus,
}

impl Clone for MediaPlayerMetadata {
    /// A clone carries exactly the same value.
    fn clone(&self) -> (r: Self)
        ensures
            r == *self,
    {
        MediaPlayerMetadata {
            title: self.title.clone(),
            artist: self.artist.clone(),
            duration: self.duration,
            position: self.position,
            volume: self.volume,
            art_url: self.art_url.clone(),
            playing: self.playing,
            shuffle: self.shuffle,
            repeat: self.repeat,
        }
    }
}

impl View for MediaPlayerMetadata {
    type V = MetadataModel;

    open spec fn view(&self) -> MetadataModel {
        MetadataModel {
            title: self.title@,
            artist: self.artist@,
            duration: self.duration as int,
            position: self.position as int,
            volume: self.volume as int,
            art_url: self.art_url@,
            playing: self.playing,
            shuffle: self.shuffle,
            repeat: self.repeat,
        }
    }
}

/// The text a raw value degrades to where a string was expected: a string
/// value stands as it is, anything else as its JSON text.
pub open spec fn degrade_text(v: JsonVal) -> Seq<char> {
    match v {
        JsonVal::Str(s) => s@,
        _ => json_text(v),
    }
}

/// A string field's value: empty when absent, degraded to text otherwise.
pub open spec fn spec_text_field(attrs: Seq<(String, JsonVal)>, key: Seq<char>) -> Seq<char> {
    match spec_lookup(attrs, key) {
        Option::None => Seq::empty(),
        Option::Some(v) => degrade_text(v),
    }
}

/// An integer field's value: the default when absent, the integer when
/// the raw value is one, and no value at all on any other type.
pub open spec fn spec_int_field(attrs: Seq<(String, JsonVal)>, key: Seq<char>, default: int) -> Option<
    int,
> {
    match spec_lookup(attrs, key) {
        Option::None => Some(default),
        Option::Some(v) => match v {
            JsonVal::Int(i) => Some(i as int),
            _ => None,
        },
    }
}

/// A product scaled into the signed 64-bit range, pinned at the bounds.
pub open spec fn sat_thousand(i: int) -> int {
    if i * 1000 > i64::MAX {
        i64::MAX as int
    } else if i * 1000 < i64::MIN {
        i64::MIN as int
    } else {
        i * 1000
    }
}

/// The volume field, in thousandths of full scale: 1000 when absent, any
/// number taken at its value, and no value at all on a non-number.
pub open spec fn spec_volume_field(attrs: Seq<(String, JsonVal)>) -> Option<int> {
    match spec_lookup(attrs, "volume_level"@) {
        Option::None => Some(1000),
        Option::Some(v) => match v {
            JsonVal::Int(i) => Some(sat_thousand(i as int)),
            JsonVal::Milli(m) => Some(m as int),
            _ => None,
        },
    }
}

/// A boolean field's value: the default when absent, the boolean when the
/// raw value is one, and no value at all on any other type.
pub open spec fn spec_bool_field(attrs: Seq<(String, JsonVal)>, key: Seq<char>, default: bool) -> Option<
    bool,
> {
    match spec_lookup(attrs, key) {
        Option::None => Some(default),
        Option::Some(v) => match v {
            JsonVal::Bool(b) => Some(b),
            _ => None,
        },
    }
}

/// Maps the hub's raw repeat text to a loop status: `"one"` repeats the
/// track, `"all"` the playlist, anything else nothing.
pub open spec fn repeat_of(raw: Seq<char>) -> HALoopStatus {
    if raw == "one"@ {
        HALoopStatus::Track
    } else if raw == "all"@ {
        HALoopStatus::Playlist
    } else {
        HALoopStatus::Off
    }
}

/// The repeat field: `Off` when absent, otherwise the mapping of the raw
/// value's degraded text. Never an error.
pub open spec fn spec_repeat_field(attrs: Seq<(String, JsonVal)>) -> HALoopStatus {
    match spec_lookup(attrs, "repeat"@) {
        Option::None => HALoopStatus::Off,
        Option::Some(v) => repeat_of(degrade_text(v)),
    }
}

/// What normalization returns on a raw attribute payload: the canonical
/// metadata, or the first failing field's error in extraction order
/// (duration, position, artwork, volume, shuffle).
pub open spec fn spec_normalize(
    attrs: Seq<(String, JsonVal)>,
    playing: bool,
    base: Seq<char>,
) -> Result<MetadataModel, NormalizationError> {
    if spec_int_field(attrs, "media_duration"@, 0) is None {
        Err(NormalizationError::TypeMismatch)
    } else if spec_int_field(attrs, "media_position"@, 0) is None {
        Err(NormalizationError::TypeMismatch)
    } else if spec_resolve_art_url(spec_text_field(attrs, "entity_picture"@), base) is None {
        Err(NormalizationError::InvalidArtUrl)
    } else if spec_volume_field(attrs) is None {
        Err(NormalizationError::TypeMismatch)
    } else if spec_bool_field(attrs, "shuffle"@, false) is None {
        Err(NormalizationError::TypeMismatch)
    } else {
        Ok(
            MetadataModel {
                title: spec_text_field(attrs, "media_title"@),
                artist: spec_text_field(attrs, "media_artist"@),
                duration: spec_int_field(attrs, "media_duration"@, 0)->Some_0,
                position: spec_int_field(attrs, "media_position"@, 0)->Some_0,
                volume: spec_volume_field(attrs)->Some_0,
                art_url: spec_resolve_art_url(
                    spec_text_field(attrs, "entity_picture"@),
                    base,
                )->Some_0,
                playing: playing,
                shuffle: spec_bool_field(attrs, "shuffle"@, false)->Some_0,
                repeat: spec_repeat_field(attrs),
            },
        )
    }
}

/// How an executable normalization result matches the model-level one.
pub open spec fn normalize_models(
    r: Result<MediaPlayerMetadata, NormalizationError>,
    m: Result<MetadataModel, NormalizationError>,
) -> bool {
    match r {
        Ok(md) => m matches Ok(mm) && md@ == mm,
        Err(e) => m matches Err(e2) && e == e2,
    }
}

fn text_field(attrs: &Vec<(String, JsonVal)>, key: &str) -> (r: String)
    ensures
        r@ == spec_text_field(attrs@, key@),
{
    match obj_get(attrs, key) {
        Option::None => String::new(),
        Option::Some(v) => match v {
            JsonVal::Str(s) => s.clone(),
            _ => render_json(v),
        },
    }
}

fn int_field(attrs: &Vec<(String, JsonVal)>, key: &str, default: i64) -> (r: Option<i64>)
    ensures
        match r {
            Some(i) => spec_int_field(attrs@, key@, default as int) == Some(i as int),
            None => spec_int_field(attrs@, key@, default as int) is None,
        },
{
    match obj_get(attrs, key) {
        Option::None => Some(default),
        Option::Some(v) => match v {
            JsonVal::Int(i) => Some(*i),
            _ => None,
        },
    }
}

fn volume_field(attrs: &Vec<(String, JsonVal)>) -> (r: Option<i64>)
    ensures
        match r {
            Some(m) => spec_volume_field(attrs@) == Some(m as int),
            None => spec_volume_field(attrs@) is None,
        },
{
    match obj_get(attrs, "volume_level") {
        Option::None => Some(1000),
        Option::Some(v) => match v {
            JsonVal::Int(i) => Some(scale_thousand(*i)),
            JsonVal::Milli(m) => Some(*m),
            _ => None,
        },
    }
}

/// Scales an integer into thousandths, pinned at the representable bounds.
fn scale_thousand(i: i64) -> (r: i64)
    ensures
        r as int == sat_thousand(i as int),
{
    let cap: i64 = i64::MAX / 1000;
    if i > cap {
        proof {
            assert(i * 1000 > i64::MAX) by (nonlinear_arith)
                requires
                    i > i64::MAX / 1000,
            ;
        }
        i64::MAX
    } else if i < -cap {
        proof {
            assert(i * 1000 < i64::MIN) by (nonlinear_arith)
                requires
                    i < -(i64::MAX / 1000),
            ;
        }
        i64::MIN
    } else {
        proof {
            assert(i64::MIN <= i * 1000 <= i64::MAX) by (nonlinear_arith)
                requires
                    -(i64::MAX / 1000) <= i <= i64::MAX / 1000,
            ;
        }
        i * 1000
    }
}

fn bool_field(attrs: &Vec<(String, JsonVal)>, key: &str, default: bool) -> (r: Option<bool>)
    ensures
        match r {
            Some(b) => spec_bool_field(attrs@, key@, default) == Some(b),
            None => spec_bool_field(attrs@, key@, default) is None,
        },
{
    match obj_get(attrs, key) {
        Option::None => Some(default),
        Option::Some(v) => match v {
            JsonVal::Bool(b) => Some(*b),
            _ => None,
        },
    }
}

fn repeat_field(attrs: &Vec<(String, JsonVal)>) -> (r: HALoopStatus)
    ensures
        r == spec_repeat_field(attrs@),
{
    match obj_get(attrs, "repeat") {
        Option::None => HALoopStatus::Off,
        Option::Some(v) => {
            let t: String = match v {
                JsonVal::Str(s) => s.clone(),
                _ => render_json(v),
            };
            if str_eq(t.as_str(), "one") {
                HALoopStatus::Track
            } else if str_eq(t.as_str(), "all") {
                HALoopStatus::Playlist
            } else {
                HALoopStatus::Off
            }
        },
    }
}

/// Normalizes a raw attribute payload into canonical metadata. String
/// fields default to empty and degrade wrong types to their text; the
/// numeric and boolean fields default when absent and fail on a raw value
/// of the wrong type; the artwork reference is resolved against
/// `base_url`; `playing` is the caller's and passes through unchanged.
pub fn json_to_metadata(attrs: &Vec<(String, JsonVal)>, playing: bool, base_url: &str) -> (r:
    Result<MediaPlayerMetadata, NormalizationError>)
    ensures
        normalize_models(r, spec_normalize(attrs@, playing, base_url@)),
{
    let title = text_field(attrs, "media_title");
    let artist = text_field(attrs, "media_artist");
    let duration = match int_field(attrs, "media_duration", 0) {
        Some(d) => d,
        None => {
            return Err(NormalizationError::TypeMismatch);
        },
    };
    let position = match int_field(attrs, "media_position", 0) {
        Some(p) => p,
        None => {
            return Err(NormalizationError::TypeMismatch);
        },
    };
    let raw_art = text_field(attrs, "entity_picture");
    let art_url = match resolve_art_url(raw_art.as_str(), base_url) {
        Some(u) => u,
        None => {
            return Err(NormalizationError::InvalidArtUrl);
        },
    };
    let volume = match volume_field(attrs) {
        Some(m) => m,
        None => {
            return Err(NormalizationError::TypeMismatch);
        },
    };
    let shuffle = match bool_field(attrs, "shuffle", false) {
        Some(b) => b,
        None => {
            return Err(NormalizationError::TypeMismatch);
        },
    };
    let repeat = repeat_field(attrs);
    Ok(
        MediaPlayerMetadata {
            title,
            artist,
            duration,
            position,
            volume,
            art_url,
            playing,
            shuffle,
            repeat,
        },
    )
}

/// Law: normalization never fails over an absent field. Whenever each
/// typed field is absent or well-typed and the artwork reference
/// resolves, normalization succeeds.
pub proof fn lemma_normalize_ok(attrs: Seq<(String, JsonVal)>, playing: bool, base: Seq<char>)
    requires
        spec_int_field(attrs, "media_duration"@, 0) is Some,
        spec_int_field(attrs, "media_position"@, 0) is Some,
        spec_volume_field(attrs) is Some,
        spec_bool_field(attrs, "shuffle"@, false) is Some,
        spec_resolve_art_url(spec_text_field(attrs, "entity_picture"@), base) is Some,
    ensures
        spec_normalize(attrs, playing, base) is Ok,
{
}

/// Law: with every field the normalizer reads absent, normalization
/// succeeds and gives the defaults, provided the base URL is well formed:
/// the empty artwork reference counts as relative and joins against it.
pub proof fn lemma_normalize_defaults(attrs: Seq<(String, JsonVal)>, playing: bool, base: Seq<char>)
    requires
        spec_lookup(attrs, "media_title"@) is None,
        spec_lookup(attrs, "media_artist"@) is None,
        spec_lookup(attrs, "media_duration"@) is None,
        spec_lookup(attrs, "media_position"@) is None,
        spec_lookup(attrs, "entity_picture"@) is None,
        spec_lookup(attrs, "volume_level"@) is None,
        spec_lookup(attrs, "shuffle"@) is None,
        spec_lookup(attrs, "repeat"@) is None,
        url_relative(Seq::<char>::empty()),
        url_join_ok(base, Seq::<char>::empty()),
    ensures
        spec_normalize(attrs, playing, base) matches Ok(m) && m.title == Seq::<char>::empty()
            && m.artist == Seq::<char>::empty() && m.duration == 0 && m.position == 0 && m.volume
            == 1000 && m.playing == playing && m.shuffle == false && m.repeat
            == HALoopStatus::Off,
{
}

/// Law: the `playing` flag passes through normalization unchanged,
/// whatever the attributes hold.
pub proof fn lemma_playing_passthrough(
    attrs: Seq<(String, JsonVal)>,
    playing: bool,
    base: Seq<char>,
)
    ensures
        spec_normalize(attrs, playing, base) matches Ok(m) ==> m.playing == playing,
{
}

/// Law: the repeat mapping is total. `"one"` maps to `Track`, `"all"` to
/// `Playlist`, and every other text to `Off`; an absent or non-string
/// raw value never fails, it maps through its degraded text.
pub proof fn lemma_repeat_total(raw: Seq<char>)
    ensures
        repeat_of("one"@) == HALoopStatus::Track,
        repeat_of("all"@) == HALoopStatus::Playlist,
        raw != "one"@ && raw != "all"@ ==> repeat_of(raw) == HALoopStatus::Off,
{
    reveal_strlit("one");
    reveal_strlit("all");
    assert("all"@[0] != "one"@[0]);
}

} // verus!
