//! The hub side of the bridge: the command vocabulary exchanged between
//! listener and adapters, the per-entity command builder that turns a
//! command into a concrete hub API call, and the initial entity snapshot
//! with its allow-list filter.

use vstd::prelude::*;

use crate::json::{str_eq, JsonVal};
use crate::metadata::{
    json_to_metadata, spec_normalize, HALoopStatus, MediaPlayerMetadata, NormalizationError,
};
use vstd::string::StrSliceExecFns;
use vstd::string::StringExecFns;

verus! {

/// The single command vocabulary carried on both channels. The hub to
/// adapter direction carries `Play`, `Pause` and `MetadataUpdated`; the
/// adapter to hub direction carries everything but `MetadataUpdated`.
/// `Volume` is in thousandths of full scale, `Seek` in absolute seconds.
#[derive(Debug, PartialEq)]
pub enum HAEvent {
    Play,
    Pause,
    MetadataUpdated(MediaPlayerMetadata),
    Next,
    Previous,
    Volume(i64),
    SetShuffle(bool),
    SetLoop(HALoopStatus),
    Seek(i64),
}

/// One entity's raw snapshot as the hub reports it: identifier, untyped
/// attribute map, and state text.
#[derive(Debug, PartialEq)]
pub struct MediaPlayer {
    pub entity_id: String,
    pub attributes: Vec<(String, JsonVal)>,
    pub state: String,
}

/// A hub command call, ready for the transport: the service endpoint URL,
/// the bearer token, and the body parameters (the entity id plus at most
/// one service-specific parameter).
#[derive(Debug, PartialEq)]
pub struct HubRequest {
    pub url: String,
    pub token: String,
    pub entity_id: String,
    pub extra: Option<(String, JsonVal)>,
}

/// Per-entity handle for issuing hub commands: knows the hub's base URL,
/// the access token, and the entity the commands address.
#[derive(Debug, Clone, PartialEq)]
pub struct MediaPlayerState {
    pub ha_url: String,
    pub ha_token: String,
    pub entity_id: String,
}

/// The endpoint URL of a media-player service call.
pub open spec fn spec_service_url(base: Seq<char>, command: Seq<char>) -> Seq<char> {
    base + "/api/services/media_player/"@ + command
}

/// The hub's text for a loop status in a `repeat_set` call.
pub open spec fn repeat_text(ls: HALoopStatus) -> Seq<char> {
    match ls {
        HALoopStatus::Off => "off"@,
        HALoopStatus::Track => "one"@,
        HALoopStatus::Playlist => "all"@,
    }
}

impl MediaPlayerState {
    /// Whether `r` is this entity's call of the given service.
    pub open spec fn requests(self, r: HubRequest, command: Seq<char>) -> bool {
        &&& r.url@ == spec_service_url(self.ha_url@, command)
        &&& r.token == self.ha_token
        &&& r.entity_id == self.entity_id
    }

    pub fn new(entity_id: String, ha_url: String, ha_token: String) -> (r: Self)
        ensures
            r.entity_id == entity_id,
            r.ha_url == ha_url,
            r.ha_token == ha_token,
    {
        Self { ha_token, ha_url, entity_id }
    }

    /// Builds the call of the named media-player service for this entity,
    /// carrying at most one extra body parameter.
    pub fn send_command_to_home_assistant(
        &self,
        command: &str,
        extra_params: Option<(String, JsonVal)>,
    ) -> (r: HubRequest)
        ensures
            self.requests(r, command@),
            r.extra == extra_params,
    {
        let mut url = self.ha_url.clone();
        url.append("/api/services/media_player/");
        url.append(command);
        HubRequest {
            url,
            token: self.ha_token.clone(),
            entity_id: self.entity_id.clone(),
            extra: extra_params,
        }
    }

    pub fn play(&self) -> (r: HubRequest)
        ensures
            self.requests(r, "media_play"@),
            r.extra is None,
    {
        self.send_command_to_home_assistant("media_play", None)
    }

    pub fn pause(&self) -> (r: HubRequest)
        ensures
            self.requests(r, "media_pause"@),
            r.extra is None,
    {
        self.send_command_to_home_assistant("media_pause", None)
    }

    pub fn next(&self) -> (r: HubRequest)
        ensures
            self.requests(r, "media_next_track"@),
            r.extra is None,
    {
        self.send_command_to_home_assistant("media_next_track", None)
    }

    pub fn previous(&self) -> (r: HubRequest)
        ensures
            self.requests(r, "media_previous_track"@),
            r.extra is None,
    {
        self.send_command_to_home_assistant("media_previous_track", None)
    }

    /// Volume in thousandths of full scale.
    pub fn set_volume(&self, volume: i64) -> (r: HubRequest)
        ensures
            self.requests(r, "volume_set"@),
            r.extra matches Some((k, v)) && k@ == "volume_level"@ && v == JsonVal::Milli(volume),
    {
        let key = "volume_level".to_owned();
        self.send_command_to_home_assistant("volume_set", Some((key, JsonVal::Milli(volume))))
    }

    pub fn set_shuffle(&self, shuffle: bool) -> (r: HubRequest)
        ensures
            self.requests(r, "shuffle_set"@),
            r.extra matches Some((k, v)) && k@ == "shuffle"@ && v == JsonVal::Bool(shuffle),
    {
        let key = "shuffle".to_owned();
        self.send_command_to_home_assistant("shuffle_set", Some((key, JsonVal::Bool(shuffle))))
    }

    pub fn set_loop(&self, loop_status: HALoopStatus) -> (r: HubRequest)
        ensures
            self.requests(r, "repeat_set"@),
            r.extra matches Some((k, v)) && k@ == "repeat"@ && (v matches JsonVal::Str(s) && s@
                == repeat_text(loop_status)),
    {
        let key = "repeat".to_owned();
        let value: &str = match loop_status {
            HALoopStatus::Off => "off",
            HALoopStatus::Track => "one",
            HALoopStatus::Playlist => "all",
        };
        self.send_command_to_home_assistant("repeat_set", Some((key, JsonVal::Str(value.to_owned()))))
    }

    /// Position in absolute seconds.
    pub fn set_seek(&self, position: i64) -> (r: HubRequest)
        ensures
            self.requests(r, "media_seek"@),
            r.extra matches Some((k, v)) && k@ == "seek_position"@ && v == JsonVal::Int(position),
    {
        let key = "seek_position".to_owned();
        self.send_command_to_home_assistant("media_seek", Some((key, JsonVal::Int(position))))
    }

    /// Whether `q` is the hub call that the adapter-originated command
    /// `event` turns into for this entity.
    pub open spec fn spec_event_request(self, event: HAEvent, q: HubRequest) -> bool {
        match event {
            HAEvent::Play => self.requests(q, "media_play"@) && q.extra is None,
            HAEvent::Pause => self.requests(q, "media_pause"@) && q.extra is None,
            HAEvent::Next => self.requests(q, "media_next_track"@) && q.extra is None,
            HAEvent::Previous => self.requests(q, "media_previous_track"@) && q.extra is None,
            HAEvent::Volume(v) => self.requests(q, "volume_set"@) && (q.extra matches Some((k, x))
                && k@ == "volume_level"@ && x == JsonVal::Milli(v)),
            HAEvent::SetShuffle(b) => self.requests(q, "shuffle_set"@) && (q.extra matches Some(
                (k, x),
            ) && k@ == "shuffle"@ && x == JsonVal::Bool(b)),
            HAEvent::SetLoop(l) => self.requests(q, "repeat_set"@) && (q.extra matches Some((k, x))
                && k@ == "repeat"@ && (x matches JsonVal::Str(s) && s@ == repeat_text(l))),
            HAEvent::Seek(p) => self.requests(q, "media_seek"@) && (q.extra matches Some((k, x))
                && k@ == "seek_position"@ && x == JsonVal::Int(p)),
            HAEvent::MetadataUpdated(_) => false,
        }
    }

    /// Turns one hub state-changed payload into the inbound commands for
    /// this entity's adapter: the play or pause command derived from
    /// whether the state text equals `playing`, then the normalized
    /// metadata update. A payload that does not normalize yields the
    /// normalization error instead, and the event is dropped upstream.
    pub fn update_metadata(&self, attributes: &Vec<(String, JsonVal)>, state: &str) -> (r: Result<
        Vec<HAEvent>,
        NormalizationError,
    >)
        ensures
            match r {
                Ok(events) => spec_normalize(attributes@, state@ == "playing"@, self.ha_url@)
                    matches Ok(mm) && events@.len() == 2 && events@[0] == (if state@ == "playing"@ {
                    HAEvent::Play
                } else {
                    HAEvent::Pause
                }) && (events@[1] matches HAEvent::MetadataUpdated(md) && md@ == mm),
                Err(e) => spec_normalize(attributes@, state@ == "playing"@, self.ha_url@)
                    matches Err(e2) && e == e2,
            },
    {
        let playing = str_eq(state, "playing");
        match json_to_metadata(attributes, playing, self.ha_url.as_str()) {
            Ok(md) => {
                let mut events: Vec<HAEvent> = Vec::new();
                if playing {
                    events.push(HAEvent::Play);
                } else {
                    events.push(HAEvent::Pause);
                }
                events.push(HAEvent::MetadataUpdated(md));
                Ok(events)
            },
            Err(e) => Err(e),
        }
    }

    /// The hub call an adapter-originated command turns into, if any: a
    /// metadata update travels only toward adapters and maps to none.
    pub fn request_for(&self, event: &HAEvent) -> (r: Option<HubRequest>)
        ensures
            match r {
                Some(q) => self.spec_event_request(*event, q),
                None => event is MetadataUpdated,
            },
    {
        match event {
            HAEvent::Play => Some(self.play()),
            HAEvent::Pause => Some(self.pause()),
            HAEvent::Next => Some(self.next()),
            HAEvent::Previous => Some(self.previous()),
            HAEvent::Volume(v) => Some(self.set_volume(*v)),
            HAEvent::SetShuffle(s) => Some(self.set_shuffle(*s)),
            HAEvent::SetLoop(l) => Some(self.set_loop(*l)),
            HAEvent::Seek(p) => Some(self.set_seek(*p)),
            HAEvent::MetadataUpdated(_) => None,
        }
    }
}

/// Whether a snapshot belongs to a tracked media player: its identifier
/// carries the media-player prefix and stands in the allow-list.
pub open spec fn spec_is_tracked(m: MediaPlayer, ids: Seq<String>) -> bool {
    &&& m.entity_id@.len() >= "media_player."@.len()
    &&& m.entity_id@.subrange(0, "media_player."@.len() as int) == "media_player."@
    &&& exists|i: int| 0 <= i < ids.len() && ids[i]@ == m.entity_id@
}

/// Whether `text` equals one of the listed identifiers.
fn contains_text(ids: &Vec<String>, text: &str) -> (r: bool)
    ensures
        r == exists|i: int| 0 <= i < ids@.len() && ids@[i]@ == text@,
{
    let n: usize = ids.len();
    let mut i: usize = 0;
    while i < n
        invariant
            i <= n,
            n == ids@.len(),
            forall|j: int| 0 <= j < i ==> ids@[j]@ != text@,
        decreases n - i,
    {
        if str_eq(ids[i].as_str(), text) {
            return true;
        }
        i = i + 1;
    }
    false
}

/// Whether a snapshot belongs to a tracked media player, as executable
/// code.
fn is_tracked(m: &MediaPlayer, ids: &Vec<String>) -> (r: bool)
    ensures
        r == spec_is_tracked(*m, ids@),
{
    proof {
        reveal_strlit("media_player.");
    }
    let len: usize = m.entity_id.as_str().unicode_len();
    if len < 13 {
        return false;
    }
    let prefix = m.entity_id.as_str().substring_char(0, 13);
    if !str_eq(prefix, "media_player.") {
        return false;
    }
    contains_text(ids, m.entity_id.as_str())
}

/// The tracked players among a snapshot list, in their given order.
pub open spec fn spec_tracked_players(all: Seq<MediaPlayer>, ids: Seq<String>) -> Seq<MediaPlayer> {
    all.filter(|m: MediaPlayer| spec_is_tracked(m, ids))
}

/// Keeps the snapshots whose entity carries the media-player prefix and
/// stands in the configured allow-list, dropping everything else.
pub fn filter_media_players(all: Vec<MediaPlayer>, entity_ids: &Vec<String>) -> (r: Vec<
    MediaPlayer,
>)
    ensures
        r@ == spec_tracked_players(all@, entity_ids@),
{
    let ghost orig = all@;
    let ghost pred = |m: MediaPlayer| spec_is_tracked(m, entity_ids@);
    let mut rest = all;
    let mut r: Vec<MediaPlayer> = Vec::new();
    proof {
        reveal(Seq::filter);
        assert(orig.take(0) =~= Seq::<MediaPlayer>::empty());
        assert(orig.take(0).filter(pred) =~= Seq::<MediaPlayer>::empty());
    }
    let total: usize = rest.len();
    let mut k: usize = 0;
    while rest.len() > 0
        invariant
            total == orig.len(),
            k <= total,
            rest@ == orig.skip(k as int),
            r@ == orig.take(k as int).filter(pred),
            pred == (|m: MediaPlayer| spec_is_tracked(m, entity_ids@)),
        decreases rest@.len(),
    {
        proof {
            assert(orig.skip(k as int)[0] == orig[k as int]);
        }
        let m = rest.remove(0);
        let keep = is_tracked(&m, entity_ids);
        proof {
            reveal(Seq::filter);
            assert(orig.take(k as int + 1).drop_last() =~= orig.take(k as int));
            assert(orig.take(k as int + 1).last() == orig[k as int]);
            assert(rest@ =~= orig.skip(k as int + 1));
        }
        if keep {
            r.push(m);
            proof {
                assert(r@ =~= orig.take(k as int + 1).filter(pred));
            }
        } else {
            proof {
                assert(r@ =~= orig.take(k as int + 1).filter(pred));
            }
        }
        k = k + 1;
    }
    proof {
        assert(orig.take(k as int) =~= orig);
    }
    r
}

} // verus!
