//! The per-entity control adapter: the single source of truth for one
//! entity's locally observed state. It caches the latest canonical
//! metadata, applies inbound commands from the listener, and turns local
//! control actions into tagged outbound commands.

use vstd::prelude::*;

use crate::hub::{HAEvent, MediaPlayer};
use crate::json::str_eq;
use crate::metadata::{
    json_to_metadata, spec_normalize, HALoopStatus, MediaPlayerMetadata, MetadataModel,
    NormalizationError,
};

verus! {

/// One entity's control adapter state: the identifier commands are tagged
/// with, and the cached canonical metadata the control surface reads.
#[derive(Debug, PartialEq)]
pub struct MyPlayer {
    pub entity_id: String,
    pub metadata: MediaPlayerMetadata,
}

/// What the control surface must be told after an inbound command was
/// applied.
#[derive(Debug, PartialEq)]
pub enum AdapterNotice {
    /// Playback started (`true`) or stopped (`false`).
    PlaybackChanged(bool),
    /// The metadata bundle changed wholesale: metadata, seek capability,
    /// loop status and shuffle are all carried by the value.
    PropertiesChanged(MediaPlayerMetadata),
    /// The playback position jumped to the carried second count.
    Seeked(i64),
}

/// What one inbound command leaves in the cache: play and pause set the
/// playing flag, a metadata update replaces the cache wholesale, and
/// every other command leaves it untouched.
pub open spec fn spec_apply_cache(cache: MetadataModel, event: HAEvent) -> MetadataModel {
    match event {
        HAEvent::Play => MetadataModel { playing: true, ..cache },
        HAEvent::Pause => MetadataModel { playing: false, ..cache },
        HAEvent::MetadataUpdated(m) => m@,
        _ => cache,
    }
}

impl MyPlayer {
    /// Builds the adapter from the initial snapshot: normalizes the
    /// snapshot's attributes, with the playing flag derived from whether
    /// its state text equals `playing`.
    pub fn new(entity_id: String, start_state: MediaPlayer, base_url: &str) -> (r: Result<
        MyPlayer,
        NormalizationError,
    >)
        ensures
            match r {
                Ok(p) => p.entity_id == entity_id && (spec_normalize(
                    start_state.attributes@,
                    start_state.state@ == "playing"@,
                    base_url@,
                ) matches Ok(mm) && p.metadata@ == mm),
                Err(e) => spec_normalize(
                    start_state.attributes@,
                    start_state.state@ == "playing"@,
                    base_url@,
                ) matches Err(e2) && e == e2,
            },
    {
        let playing = str_eq(start_state.state.as_str(), "playing");
        match json_to_metadata(&start_state.attributes, playing, base_url) {
            Ok(m) => Ok(MyPlayer { entity_id, metadata: m }),
            Err(e) => Err(e),
        }
    }

    /// Applies one inbound command to the cached metadata and says what
    /// to tell the control surface. Play and pause update the playing
    /// flag; a metadata update replaces the cache wholesale and
    /// additionally reports the new position as a seek; any other
    /// command is not valid inbound and is ignored without effect.
    pub fn apply(&mut self, event: HAEvent) -> (notices: Vec<AdapterNotice>)
        ensures
            final(self).entity_id == old(self).entity_id,
            final(self).metadata@ == spec_apply_cache(old(self).metadata@, event),
            event is Play ==> final(self).metadata == (MediaPlayerMetadata {
                playing: true,
                ..old(self).metadata
            }) && notices@ == seq![AdapterNotice::PlaybackChanged(true)],
            event is Pause ==> final(self).metadata == (MediaPlayerMetadata {
                playing: false,
                ..old(self).metadata
            }) && notices@ == seq![AdapterNotice::PlaybackChanged(false)],
            event matches HAEvent::MetadataUpdated(m) ==> final(self).metadata == m && notices@
                == seq![
                AdapterNotice::PropertiesChanged(m),
                AdapterNotice::Seeked(m.position),
            ],
            !(event is Play) && !(event is Pause) && !(event is MetadataUpdated) ==> *final(self)
                == *old(self) && notices@ == Seq::<AdapterNotice>::empty(),
    {
        match event {
            HAEvent::Play => {
                self.metadata.playing = true;
                let mut notices: Vec<AdapterNotice> = Vec::new();
                notices.push(AdapterNotice::PlaybackChanged(true));
                proof {
                    assert(notices@ =~= seq![AdapterNotice::PlaybackChanged(true)]);
                }
                notices
            },
            HAEvent::Pause => {
                self.metadata.playing = false;
                let mut notices: Vec<AdapterNotice> = Vec::new();
                notices.push(AdapterNotice::PlaybackChanged(false));
                proof {
                    assert(notices@ =~= seq![AdapterNotice::PlaybackChanged(false)]);
                }
                notices
            },
            HAEvent::MetadataUpdated(m) => {
                let position = m.position;
                let copy = m.clone();
                self.metadata = m;
                let mut notices: Vec<AdapterNotice> = Vec::new();
                notices.push(AdapterNotice::PropertiesChanged(copy));
                notices.push(AdapterNotice::Seeked(position));
                proof {
                    assert(notices@ =~= seq![
                        AdapterNotice::PropertiesChanged(event->MetadataUpdated_0),
                        AdapterNotice::Seeked(event->MetadataUpdated_0.position),
                    ]);
                }
                notices
            },
            _ => {
                let notices: Vec<AdapterNotice> = Vec::new();
                proof {
                    assert(notices@ =~= Seq::<AdapterNotice>::empty());
                }
                notices
            },
        }
    }

    /// The outbound command a local play action turns into, tagged with
    /// this adapter's entity.
    pub fn play(&self) -> (r: (String, HAEvent))
        ensures
            r.0 == self.entity_id,
            r.1 == HAEvent::Play,
    {
        (self.entity_id.clone(), HAEvent::Play)
    }

    /// The outbound command a local pause action turns into.
    pub fn pause(&self) -> (r: (String, HAEvent))
        ensures
            r.0 == self.entity_id,
            r.1 == HAEvent::Pause,
    {
        (self.entity_id.clone(), HAEvent::Pause)
    }

    /// A local stop action is forwarded as a pause: the hub vocabulary
    /// has no separate stop.
    pub fn stop(&self) -> (r: (String, HAEvent))
        ensures
            r.0 == self.entity_id,
            r.1 == HAEvent::Pause,
    {
        (self.entity_id.clone(), HAEvent::Pause)
    }

    /// A local toggle: pause when the cache says playing, play otherwise.
    pub fn play_pause(&self) -> (r: (String, HAEvent))
        ensures
            r.0 == self.entity_id,
            r.1 == if self.metadata.playing {
                HAEvent::Pause
            } else {
                HAEvent::Play
            },
    {
        if self.metadata.playing {
            (self.entity_id.clone(), HAEvent::Pause)
        } else {
            (self.entity_id.clone(), HAEvent::Play)
        }
    }

    /// The outbound command a local next-track action turns into.
    pub fn next(&self) -> (r: (String, HAEvent))
        ensures
            r.0 == self.entity_id,
            r.1 == HAEvent::Next,
    {
        (self.entity_id.clone(), HAEvent::Next)
    }

    /// The outbound command a local previous-track action turns into.
    pub fn previous(&self) -> (r: (String, HAEvent))
        ensures
            r.0 == self.entity_id,
            r.1 == HAEvent::Previous,
    {
        (self.entity_id.clone(), HAEvent::Previous)
    }

    /// A local seek, in seconds; forwarded as a hub seek command.
    pub fn seek(&self, offset: i64) -> (r: (String, HAEvent))
        ensures
            r.0 == self.entity_id,
            r.1 == HAEvent::Seek(offset),
    {
        (self.entity_id.clone(), HAEvent::Seek(offset))
    }

    /// A local set-position, in absolute seconds.
    pub fn set_position(&self, position: i64) -> (r: (String, HAEvent))
        ensures
            r.0 == self.entity_id,
            r.1 == HAEvent::Seek(position),
    {
        (self.entity_id.clone(), HAEvent::Seek(position))
    }

    /// A local volume change, in thousandths of full scale.
    pub fn set_volume(&self, volume: i64) -> (r: (String, HAEvent))
        ensures
            r.0 == self.entity_id,
            r.1 == HAEvent::Volume(volume),
    {
        (self.entity_id.clone(), HAEvent::Volume(volume))
    }

    /// A local shuffle change.
    pub fn set_shuffle(&self, shuffle: bool) -> (r: (String, HAEvent))
        ensures
            r.0 == self.entity_id,
            r.1 == HAEvent::SetShuffle(shuffle),
    {
        (self.entity_id.clone(), HAEvent::SetShuffle(shuffle))
    }

    /// A local loop-status change.
    pub fn set_loop_status(&self, loop_status: HALoopStatus) -> (r: (String, HAEvent))
        ensures
            r.0 == self.entity_id,
            r.1 == HAEvent::SetLoop(loop_status),
    {
        (self.entity_id.clone(), HAEvent::SetLoop(loop_status))
    }

    /// Whether the cache says the entity is playing; the control
    /// surface's playback status.
    pub fn playback_status(&self) -> (r: bool)
        ensures
            r == self.metadata.playing,
    {
        self.metadata.playing
    }

    /// The cached loop status.
    pub fn loop_status(&self) -> (r: HALoopStatus)
        ensures
            r == self.metadata.repeat,
    {
        self.metadata.repeat
    }

    /// The cached shuffle flag.
    pub fn shuffle(&self) -> (r: bool)
        ensures
            r == self.metadata.shuffle,
    {
        self.metadata.shuffle
    }

    /// The cached volume, in thousandths of full scale.
    pub fn volume(&self) -> (r: i64)
        ensures
            r == self.metadata.volume,
    {
        self.metadata.volume
    }

    /// The cached playback position, in seconds.
    pub fn position(&self) -> (r: i64)
        ensures
            r == self.metadata.position,
    {
        self.metadata.position
    }

    /// A copy of the whole cached metadata value.
    pub fn metadata(&self) -> (r: MediaPlayerMetadata)
        ensures
            r == self.metadata,
    {
        self.metadata.clone()
    }
}

/// Law: applying the same metadata update twice leaves the same cache as
/// applying it once, whatever the cache held before.
pub proof fn lemma_apply_idempotent(cache: MetadataModel, m: MediaPlayerMetadata)
    ensures
        spec_apply_cache(
            spec_apply_cache(cache, HAEvent::MetadataUpdated(m)),
            HAEvent::MetadataUpdated(m),
        ) == spec_apply_cache(cache, HAEvent::MetadataUpdated(m)),
{
}

/// Law: a routed event lands in the cache. The listener routes an
/// event as a play or pause command followed by the metadata update;
/// applying the two in order leaves exactly the update's value in the
/// cache, whatever the cache held before.
pub proof fn lemma_metadata_update_overrides(
    cache: MetadataModel,
    first: HAEvent,
    m: MediaPlayerMetadata,
)
    ensures
        spec_apply_cache(spec_apply_cache(cache, first), HAEvent::MetadataUpdated(m)) == m@,
{
}

} // verus!
