//! The audio cue: trim bookkeeping, duration cache, and a model of the
//! playback sink.
//!
//! Decoding a source file and driving the output device are the runner's
//! business; this module holds everything that can be computed from plain
//! values: the clamped start/end trim offsets, the incrementally maintained
//! duration cache, the window to cut out of a decoded source, and the
//! transport state machine of the cue's sink. All times are whole
//! milliseconds.

use vstd::prelude::*;

use crate::attrs::CueError;
use crate::attrs::CueRunning;
use crate::attrs::CueTypeAttributes;
use crate::ids::parse_id_num;
use crate::ids::spec_id_num;

verus! {

/// Default playback gain, in thousandths of full scale.
pub const FULL_VOLUME: u32 = 1000;

/// The engine's model of the cue's playback sink: whether audio is queued in
/// it and whether it is paused. The runner owns the real device sink and
/// keeps it in step with this model (see `observe_sink`).
#[derive(Clone, Copy, Debug, PartialEq, Eq, Structural)]
pub struct SinkState {
    /// Audio has been appended and not yet drained or cleared.
    pub queued: bool,
    /// The sink is suspended.
    pub paused: bool,
}

/// What the runner must do to the freshly decoded source to play a trimmed
/// cue: keep the head (`take_ms` from the start of the source), then skip
/// into it, then play at `volume`.
#[derive(Clone, Copy, Debug, PartialEq, Eq, Structural)]
pub struct PlayCommand {
    /// Length to keep from the start of the untrimmed source, cutting the
    /// tail trim off.
    pub take_ms: u64,
    /// Length to skip at the start of the kept part: the head trim.
    pub skip_ms: u64,
    /// Gain to set on the sink, in thousandths of full scale.
    pub volume: u32,
}

/// Outcome of a trim edit.
#[derive(Clone, Copy, Debug, PartialEq, Eq, Structural)]
pub enum TrimUpdate {
    /// The cached duration was adjusted in place.
    Adjusted,
    /// No duration was cached: the offset was stored raw, and the runner
    /// must measure the source and hand the result to `init_duration`.
    MeasureNeeded,
}

/// The duration, in whole milliseconds, of `num_samples` interleaved stereo
/// samples at `sample_rate` frames per second.
pub fn duration_from_samples(num_samples: u64, sample_rate: u32) -> (r: u64)
    requires
        sample_rate > 0,
        num_samples * 1000 / (2 * sample_rate) <= u64::MAX,
    ensures
        r == num_samples * 1000 / (2 * sample_rate),
{
    let wide: u128 = (num_samples as u128) * 1000 / (2 * (sample_rate as u128));
    wide as u64
}

/// A cue that plays a clip of an audio file, with head and tail trims.
pub struct AudioCue {
    /// Identifier; free text that may denote a number.
    pub id: String,
    /// Human-readable label.
    pub name: String,
    /// Path of the source file, read and decoded by the runner.
    pub file_path: String,
    /// Head trim: milliseconds clipped from the start of the source.
    pub start_ms: u64,
    /// Tail trim: milliseconds clipped from the end of the source.
    pub end_ms: u64,
    /// Playback gain, in thousandths of full scale.
    pub volume: u32,
    /// Model of the playback sink; `None` until one is attached.
    pub sink: Option<SinkState>,
    /// Cached playable length: source duration minus both trims. `None`
    /// until the source has been measured.
    pub duration_ms: Option<u64>,
}

impl AudioCue {
    /// The trim bookkeeping stays within machine bounds: when a duration is
    /// cached, the reconstructed source duration fits in a `u64`.
    pub open spec fn wf(self) -> bool {
        self.duration_ms is Some ==> self.duration_ms.unwrap() + self.start_ms + self.end_ms
            <= u64::MAX
    }

    /// The duration of the untrimmed source, reconstructed from the cache:
    /// cached playable length plus both trims.
    pub open spec fn spec_raw(self) -> int {
        self.duration_ms.unwrap() + self.start_ms + self.end_ms
    }

    /// The cue after a fresh measurement `raw_ms` of the untrimmed source:
    /// trims clamped so they never exceed the source, and the rest cached as
    /// the playable duration.
    pub open spec fn spec_measured(self, raw_ms: u64) -> AudioCue {
        let s2 = vstd::math::min(self.start_ms as int, raw_ms as int);
        let e2 = vstd::math::min(self.end_ms as int, raw_ms - s2);
        AudioCue {
            start_ms: s2 as u64,
            end_ms: e2 as u64,
            duration_ms: Some((raw_ms - s2 - e2) as u64),
            ..self
        }
    }

    /// The cue after the post-load init pass: a fresh idle sink when the
    /// device lent one, and the runner's measurement taken over when the
    /// decode succeeded.
    pub open spec fn spec_inited(self, sink_created: bool, decoded_raw_ms: Option<u64>) -> AudioCue {
        let with_sink = if sink_created {
            AudioCue { sink: Some(SinkState { queued: false, paused: false }), ..self }
        } else {
            self
        };
        match decoded_raw_ms {
            Some(raw) => with_sink.spec_measured(raw),
            None => with_sink,
        }
    }

    /// A fresh audio cue with the given id: no file, no trims, full volume,
    /// no sink, no measured duration.
    pub fn with_id(id: String) -> (r: AudioCue)
        ensures
            r.id@ == id@,
            r.name@ == "New audio cue"@,
            r.file_path@ == ""@,
            r.start_ms == 0,
            r.end_ms == 0,
            r.volume == FULL_VOLUME,
            r.sink is None,
            r.duration_ms is None,
            r.wf(),
    {
        AudioCue {
            id,
            name: "New audio cue".to_owned(),
            file_path: "".to_owned(),
            start_ms: 0,
            end_ms: 0,
            volume: FULL_VOLUME,
            sink: None,
            duration_ms: None,
        }
    }

    /// An independent copy for duplication: the persisted fields and the
    /// cached duration carry over, but never the playback state — a
    /// duplicate must not share a sink, so it takes a fresh idle one when
    /// the device lends one (`sink_created`), and none otherwise.
    pub fn duplicate(&self, sink_created: bool) -> (r: AudioCue)
        ensures
            r.id == self.id,
            r.name == self.name,
            r.file_path == self.file_path,
            r.start_ms == self.start_ms,
            r.end_ms == self.end_ms,
            r.volume == self.volume,
            r.duration_ms == self.duration_ms,
            r.sink == (if sink_created {
                Some(SinkState { queued: false, paused: false })
            } else {
                None::<SinkState>
            }),
    {
        AudioCue {
            id: self.id.clone(),
            name: self.name.clone(),
            file_path: self.file_path.clone(),
            start_ms: self.start_ms,
            end_ms: self.end_ms,
            volume: self.volume,
            sink: if sink_created {
                Some(SinkState { queued: false, paused: false })
            } else {
                None
            },
            duration_ms: self.duration_ms,
        }
    }

    /// The cue's identifier.
    pub fn get_id(&self) -> (r: String)
        ensures
            r@ == self.id@,
    {
        self.id.clone()
    }

    /// Replace the identifier.
    pub fn set_id(&mut self, new_id: &str)
        ensures
            final(self).id@ == new_id@,
            *final(self) == (AudioCue { id: final(self).id, ..*old(self) }),
    {
        self.id = new_id.to_owned();
    }

    /// The numeric value of the id, when it has one.
    pub fn get_id_num(&self) -> (r: Option<u64>)
        ensures
            r == spec_id_num(self.id@),
    {
        parse_id_num(self.id.as_str())
    }

    /// The cue's label.
    pub fn get_name(&self) -> (r: String)
        ensures
            r@ == self.name@,
    {
        self.name.clone()
    }

    /// Replace the label.
    pub fn set_name(&mut self, new_name: &str)
        ensures
            final(self).name@ == new_name@,
            *final(self) == (AudioCue { name: final(self).name, ..*old(self) }),
    {
        self.name = new_name.to_owned();
    }

    /// Long type label.
    pub fn type_str_full(&self) -> (r: String)
        ensures
            r@ == "Audio"@,
    {
        "Audio".to_owned()
    }

    /// Short type label.
    pub fn type_str_short(&self) -> (r: String)
        ensures
            r@ == "Aud"@,
    {
        "Aud".to_owned()
    }

    /// Capability flags: an audio cue is runnable and timed with a known
    /// bound.
    pub fn get_attributes(&self) -> (r: CueTypeAttributes)
        ensures
            r == (CueTypeAttributes {
                runnable: true,
                timed: true,
                timed_bounded: true,
                ..CueTypeAttributes::spec_default()
            }),
    {
        let mut a = CueTypeAttributes::new();
        a.runnable = true;
        a.timed = true;
        a.timed_bounded = true;
        a
    }

    /// Prepare the cue for playback after a load: attach a sink when the
    /// device lent one (`sink_created`), and take over the runner's
    /// measurement of the source when decoding succeeded.
    pub fn init(&mut self, sink_created: bool, decoded_raw_ms: Option<u64>)
        ensures
            *final(self) == old(self).spec_inited(sink_created, decoded_raw_ms),
            decoded_raw_ms is Some ==> final(self).wf(),
    {
        if sink_created {
            self.sink = Some(SinkState { queued: false, paused: false });
        }
        match decoded_raw_ms {
            Some(raw) => self.init_duration(raw),
            None => (),
        }
    }

    /// Record a fresh measurement of the untrimmed source: clamp the trims
    /// so they never exceed it, and cache what is left as the playable
    /// duration. Afterwards the cache is consistent: duration plus both
    /// trims equals the measured source duration.
    pub fn init_duration(&mut self, raw_ms: u64)
        ensures
            *final(self) == old(self).spec_measured(raw_ms),
            final(self).spec_raw() == raw_ms,
            final(self).wf(),
    {
        let s2: u64 = if self.start_ms < raw_ms {
            self.start_ms
        } else {
            raw_ms
        };
        let e2: u64 = if self.end_ms < raw_ms - s2 {
            self.end_ms
        } else {
            raw_ms - s2
        };
        self.start_ms = s2;
        self.end_ms = e2;
        self.duration_ms = Some(raw_ms - s2 - e2);
    }

    /// Set the head trim. With a cached duration the cache is adjusted in
    /// place — the offset is clamped so the trims never exceed the source,
    /// and duration plus trims still reconstructs the same source duration.
    /// With no cache the offset is stored as given and the caller is told to
    /// measure the source.
    pub fn set_start(&mut self, v: u64) -> (r: TrimUpdate)
        requires
            old(self).wf(),
        ensures
            old(self).duration_ms matches Some(d) ==> {
                &&& r == TrimUpdate::Adjusted
                &&& final(self).start_ms == vstd::math::min(v as int, d + old(self).start_ms)
                &&& final(self).end_ms == old(self).end_ms
                &&& final(self).duration_ms == Some(
                    (d + old(self).start_ms - final(self).start_ms) as u64,
                )
                &&& final(self).spec_raw() == old(self).spec_raw()
            },
            old(self).duration_ms is None ==> {
                &&& r == TrimUpdate::MeasureNeeded
                &&& final(self).start_ms == v
                &&& final(self).duration_ms is None
                &&& final(self).end_ms == old(self).end_ms
            },
            *final(self) == (AudioCue {
                start_ms: final(self).start_ms,
                duration_ms: final(self).duration_ms,
                ..*old(self)
            }),
            final(self).wf(),
    {
        match self.duration_ms {
            Some(d) => {
                let limit: u64 = d + self.start_ms;
                let v2: u64 = if v < limit {
                    v
                } else {
                    limit
                };
                self.duration_ms = Some(limit - v2);
                self.start_ms = v2;
                TrimUpdate::Adjusted
            },
            None => {
                self.start_ms = v;
                TrimUpdate::MeasureNeeded
            },
        }
    }

    /// Set the tail trim. The same two paths as `set_start`, clamping
    /// against what the head trim leaves of the source.
    pub fn set_end(&mut self, v: u64) -> (r: TrimUpdate)
        requires
            old(self).wf(),
        ensures
            old(self).duration_ms matches Some(d) ==> {
                &&& r == TrimUpdate::Adjusted
                &&& final(self).end_ms == vstd::math::min(v as int, d + old(self).end_ms)
                &&& final(self).start_ms == old(self).start_ms
                &&& final(self).duration_ms == Some(
                    (d + old(self).end_ms - final(self).end_ms) as u64,
                )
                &&& final(self).spec_raw() == old(self).spec_raw()
            },
            old(self).duration_ms is None ==> {
                &&& r == TrimUpdate::MeasureNeeded
                &&& final(self).end_ms == v
                &&& final(self).duration_ms is None
                &&& final(self).start_ms == old(self).start_ms
            },
            *final(self) == (AudioCue {
                end_ms: final(self).end_ms,
                duration_ms: final(self).duration_ms,
                ..*old(self)
            }),
            final(self).wf(),
    {
        match self.duration_ms {
            Some(d) => {
                let limit: u64 = d + self.end_ms;
                let v2: u64 = if v < limit {
                    v
                } else {
                    limit
                };
                self.duration_ms = Some(limit - v2);
                self.end_ms = v2;
                TrimUpdate::Adjusted
            },
            None => {
                self.end_ms = v;
                TrimUpdate::MeasureNeeded
            },
        }
    }

    /// The playback gain, in thousandths of full scale.
    pub fn get_volume(&self) -> (r: u32)
        ensures
            r == self.volume,
    {
        self.volume
    }

    /// Set the playback gain. Only valid once a sink is attached: on an
    /// uninitialized cue this is a reported error, never a silent no-op.
    pub fn set_volume(&mut self, v: u32) -> (r: Result<(), CueError>)
        ensures
            old(self).sink is Some ==> r is Ok && *final(self) == (AudioCue {
                volume: v,
                ..*old(self)
            }),
            old(self).sink is None ==> r == Err::<(), CueError>(CueError::NotInitialized)
                && *final(self) == *old(self),
    {
        if self.sink.is_some() {
            self.volume = v;
            Ok(())
        } else {
            Err(CueError::NotInitialized)
        }
    }

    /// Start playback of the trimmed clip. Fails when no sink is attached,
    /// or when the runner could not decode the source (`decoded_raw_ms` is
    /// `None`); otherwise the sink model switches to queued-and-playing and
    /// the returned command says what slice of the decoded source to queue:
    /// keep `take_ms` from its head (cutting the tail trim), skip the head
    /// trim, play at the cue's volume.
    pub fn play_audio(&mut self, decoded_raw_ms: Option<u64>) -> (r: Result<
        PlayCommand,
        CueError,
    >)
        ensures
            old(self).sink is None ==> r == Err::<PlayCommand, CueError>(CueError::NotInitialized)
                && *final(self) == *old(self),
            old(self).sink is Some && decoded_raw_ms is None ==> r == Err::<
                PlayCommand,
                CueError,
            >(CueError::DecodeFailed) && *final(self) == *old(self),
            old(self).sink is Some ==> (decoded_raw_ms matches Some(raw) ==> {
                &&& r == Ok::<PlayCommand, CueError>(PlayCommand {
                    take_ms: if old(self).end_ms <= raw {
                        (raw - old(self).end_ms) as u64
                    } else {
                        0
                    },
                    skip_ms: old(self).start_ms,
                    volume: old(self).volume,
                })
                &&& *final(self) == (AudioCue {
                    sink: Some(SinkState { queued: true, paused: false }),
                    ..*old(self)
                })
            }),
    {
        if self.sink.is_none() {
            return Err(CueError::NotInitialized);
        }
        match decoded_raw_ms {
            None => Err(CueError::DecodeFailed),
            Some(raw) => {
                let take: u64 = if self.end_ms <= raw {
                    raw - self.end_ms
                } else {
                    0
                };
                self.sink = Some(SinkState { queued: true, paused: false });
                Ok(PlayCommand { take_ms: take, skip_ms: self.start_ms, volume: self.volume })
            },
        }
    }

    /// Fire the cue: request playback of the trimmed clip. A failure (no
    /// sink, decode error) leaves the cue untouched; the runner logs it.
    pub fn go(&mut self, decoded_raw_ms: Option<u64>)
        ensures
            old(self).sink is Some && decoded_raw_ms is Some ==> *final(self) == (AudioCue {
                sink: Some(SinkState { queued: true, paused: false }),
                ..*old(self)
            }),
            old(self).sink is None || decoded_raw_ms is None ==> *final(self) == *old(self),
    {
        let _ = self.play_audio(decoded_raw_ms);
    }

    /// Transport state as a spec value: stopped without a sink or with an
    /// empty one, else paused or running as the sink says.
    pub open spec fn spec_running(self) -> CueRunning {
        match self.sink {
            None => CueRunning::Stopped,
            Some(s) => if !s.queued {
                CueRunning::Stopped
            } else if s.paused {
                CueRunning::Paused
            } else {
                CueRunning::Running
            },
        }
    }

    /// Transport state of the cue.
    pub fn running(&self) -> (r: CueRunning)
        ensures
            r == self.spec_running(),
    {
        match &self.sink {
            None => CueRunning::Stopped,
            Some(s) => {
                if !s.queued {
                    CueRunning::Stopped
                } else if s.paused {
                    CueRunning::Paused
                } else {
                    CueRunning::Running
                }
            },
        }
    }

    /// Stop playback: clear the sink's queue. Like the device sink, a
    /// cleared sink is left paused.
    pub fn stop(&mut self)
        ensures
            old(self).sink is Some ==> *final(self) == (AudioCue {
                sink: Some(SinkState { queued: false, paused: true }),
                ..*old(self)
            }),
            old(self).sink is None ==> *final(self) == *old(self),
    {
        if self.sink.is_some() {
            self.sink = Some(SinkState { queued: false, paused: true });
        }
    }

    /// Pause or resume the sink. Nothing happens before a sink is attached.
    pub fn set_paused(&mut self, pu: bool)
        ensures
            old(self).sink matches Some(s) ==> *final(self) == (AudioCue {
                sink: Some(SinkState { queued: s.queued, paused: pu }),
                ..*old(self)
            }),
            old(self).sink is None ==> *final(self) == *old(self),
    {
        match &self.sink {
            Some(s) => {
                self.sink = Some(SinkState { queued: s.queued, paused: pu });
            },
            None => (),
        }
    }

    /// The cached playable length, when one is known.
    pub fn length(&self) -> (r: Option<u64>)
        ensures
            r == self.duration_ms,
    {
        self.duration_ms
    }

    /// Playback position, from the runner's reading of the sink position
    /// (milliseconds into the trimmed clip). Known only while audio is
    /// queued.
    pub fn elapsed(&self, sink_pos_ms: u64) -> (r: Option<u64>)
        ensures
            r == (if self.sink matches Some(s) && s.queued {
                Some(sink_pos_ms)
            } else {
                None::<u64>
            }),
    {
        match &self.sink {
            Some(s) => {
                if s.queued {
                    Some(sink_pos_ms)
                } else {
                    None
                }
            },
            None => None,
        }
    }

    /// Time left of the trimmed clip at the given sink position: cached
    /// length minus position, never below zero. Known only with a sink and
    /// a measured duration.
    pub fn remaining(&self, sink_pos_ms: u64) -> (r: Option<u64>)
        ensures
            r == (match (self.sink, self.duration_ms) {
                (Some(_), Some(d)) => Some((if sink_pos_ms <= d {
                    d - sink_pos_ms
                } else {
                    0
                }) as u64),
                _ => None::<u64>,
            }),
    {
        match &self.sink {
            Some(_) => {
                match self.duration_ms {
                    Some(d) => Some(if sink_pos_ms <= d {
                        d - sink_pos_ms
                    } else {
                        0
                    }),
                    None => None,
                }
            },
            None => None,
        }
    }

    /// Reconcile the sink model with the backend sink the runner owns:
    /// playback drains on the device's own thread, so the runner reports
    /// what the sink holds now. Nothing to reconcile before a sink exists.
    pub fn observe_sink(&mut self, queued: bool, paused: bool)
        ensures
            old(self).sink is Some ==> *final(self) == (AudioCue {
                sink: Some(SinkState { queued, paused }),
                ..*old(self)
            }),
            old(self).sink is None ==> *final(self) == *old(self),
    {
        if self.sink.is_some() {
            self.sink = Some(SinkState { queued, paused });
        }
    }
}

} // verus!
