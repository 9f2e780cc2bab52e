//! The closed union of cue variants and its uniform dispatch surface.
//!
//! Every cue stored in a list or fired by the playhead is exactly one of
//! these records. Each operation of the uniform cue contract is dispatched
//! by a match; variants that do not override an operation get its safe
//! default (false, no-op, `None`, or an unsupported error).

use vstd::prelude::*;

use crate::attrs::CueError;
use crate::attrs::CueRunning;
use crate::attrs::CueTypeAttributes;
use crate::audio::AudioCue;
use crate::audio::PlayCommand;
use crate::audio::SinkState;
use crate::cues::BonkCue;
use crate::cues::RemarkCue;
use crate::ids::spec_id_num;

verus! {

/// One cue of any variant: the single polymorphic handle the engine stores,
/// reorders, fires and persists.
pub enum MultitypeCue {
    /// Free-text annotation.
    Remark(RemarkCue),
    /// Test counter.
    Bonk(BonkCue),
    /// Trimmed audio clip.
    Audio(AudioCue),
}

/// `post` is `pre` with nothing but the id replaced.
pub open spec fn eq_except_id(pre: MultitypeCue, post: MultitypeCue) -> bool {
    match (pre, post) {
        (MultitypeCue::Remark(a), MultitypeCue::Remark(b)) => b == (RemarkCue { id: b.id, ..a }),
        (MultitypeCue::Bonk(a), MultitypeCue::Bonk(b)) => b == (BonkCue { id: b.id, ..a }),
        (MultitypeCue::Audio(a), MultitypeCue::Audio(b)) => b == (AudioCue { id: b.id, ..a }),
        _ => false,
    }
}

/// `post` is `pre` with nothing but the name replaced.
pub open spec fn eq_except_name(pre: MultitypeCue, post: MultitypeCue) -> bool {
    match (pre, post) {
        (MultitypeCue::Remark(a), MultitypeCue::Remark(b)) => b == (RemarkCue {
            name: b.name,
            ..a
        }),
        (MultitypeCue::Bonk(a), MultitypeCue::Bonk(b)) => b == (BonkCue { name: b.name, ..a }),
        (MultitypeCue::Audio(a), MultitypeCue::Audio(b)) => b == (AudioCue { name: b.name, ..a }),
        _ => false,
    }
}

impl MultitypeCue {
    /// The cue's id, as a character sequence.
    pub open spec fn spec_id(self) -> Seq<char> {
        match self {
            MultitypeCue::Remark(c) => c.id@,
            MultitypeCue::Bonk(c) => c.id@,
            MultitypeCue::Audio(c) => c.id@,
        }
    }

    /// The cue's name, as a character sequence.
    pub open spec fn spec_name(self) -> Seq<char> {
        match self {
            MultitypeCue::Remark(c) => c.name@,
            MultitypeCue::Bonk(c) => c.name@,
            MultitypeCue::Audio(c) => c.name@,
        }
    }

    /// The long type label of the variant.
    pub open spec fn spec_type_full(self) -> Seq<char> {
        match self {
            MultitypeCue::Remark(_) => "Remark"@,
            MultitypeCue::Bonk(_) => "Bonk"@,
            MultitypeCue::Audio(_) => "Audio"@,
        }
    }

    /// The short type label of the variant.
    pub open spec fn spec_type_short(self) -> Seq<char> {
        match self {
            MultitypeCue::Remark(_) => "Rmk"@,
            MultitypeCue::Bonk(_) => "Bonk"@,
            MultitypeCue::Audio(_) => "Aud"@,
        }
    }

    /// Whether the cue is enabled; false for variants without the flag.
    pub open spec fn spec_enabled(self) -> bool {
        match self {
            MultitypeCue::Bonk(c) => c.enabled,
            _ => false,
        }
    }

    /// Whether the cue is armed; false for variants without the flag.
    pub open spec fn spec_armed(self) -> bool {
        match self {
            MultitypeCue::Bonk(c) => c.armed,
            _ => false,
        }
    }

    /// Whether the cue is in an error state. No current variant ever is.
    pub open spec fn spec_errored(self) -> bool {
        false
    }

    /// The firing condition: enabled, armed, and not errored.
    pub open spec fn spec_can_fire(self) -> bool {
        self.spec_enabled() && self.spec_armed() && !self.spec_errored()
    }

    /// The audio variant's bookkeeping bound; nothing to ask of the others.
    pub open spec fn wf(self) -> bool {
        match self {
            MultitypeCue::Audio(c) => c.wf(),
            _ => true,
        }
    }

    /// The cue after one firing. A remark is untouched; a bonk counts when
    /// its flags allow; an audio cue's sink switches to queued-and-playing
    /// when it has a sink and the runner decoded the source.
    pub open spec fn spec_go(self, decoded_raw_ms: Option<u64>) -> MultitypeCue {
        match self {
            MultitypeCue::Remark(c) => MultitypeCue::Remark(c),
            MultitypeCue::Bonk(c) => MultitypeCue::Bonk(
                BonkCue {
                    ctr: if c.enabled && c.armed && !c.spec_errored() {
                        c.spec_bumped()
                    } else {
                        c.ctr
                    },
                    ..c
                },
            ),
            MultitypeCue::Audio(c) => MultitypeCue::Audio(
                if c.sink is Some && decoded_raw_ms is Some {
                    AudioCue { sink: Some(SinkState { queued: true, paused: false }), ..c }
                } else {
                    c
                },
            ),
        }
    }

    /// Transport state: the audio variant's sink model; others never run.
    pub open spec fn spec_running(self) -> CueRunning {
        match self {
            MultitypeCue::Audio(c) => c.spec_running(),
            _ => CueRunning::Stopped,
        }
    }

    /// Playable length, known only for a measured audio cue.
    pub open spec fn spec_length(self) -> Option<u64> {
        match self {
            MultitypeCue::Audio(c) => c.duration_ms,
            _ => None,
        }
    }

    /// The cue's identifier.
    pub fn get_id(&self) -> (r: String)
        ensures
            r@ == self.spec_id(),
    {
        match self {
            MultitypeCue::Remark(c) => c.get_id(),
            MultitypeCue::Bonk(c) => c.get_id(),
            MultitypeCue::Audio(c) => c.get_id(),
        }
    }

    /// Replace the identifier; nothing else changes.
    pub fn set_id(&mut self, new_id: &str)
        ensures
            final(self).spec_id() == new_id@,
            eq_except_id(*old(self), *final(self)),
    {
        match self {
            MultitypeCue::Remark(c) => c.set_id(new_id),
            MultitypeCue::Bonk(c) => c.set_id(new_id),
            MultitypeCue::Audio(c) => c.set_id(new_id),
        }
    }

    /// The numeric value of the id, when it has one. Used for auto-assigning
    /// fresh ids, not for uniqueness.
    pub fn get_id_num(&self) -> (r: Option<u64>)
        ensures
            r == spec_id_num(self.spec_id()),
    {
        match self {
            MultitypeCue::Remark(c) => c.get_id_num(),
            MultitypeCue::Bonk(c) => c.get_id_num(),
            MultitypeCue::Audio(c) => c.get_id_num(),
        }
    }

    /// The cue's label.
    pub fn get_name(&self) -> (r: String)
        ensures
            r@ == self.spec_name(),
    {
        match self {
            MultitypeCue::Remark(c) => c.get_name(),
            MultitypeCue::Bonk(c) => c.get_name(),
            MultitypeCue::Audio(c) => c.get_name(),
        }
    }

    /// Replace the label; nothing else changes.
    pub fn set_name(&mut self, new_name: &str)
        ensures
            final(self).spec_name() == new_name@,
            eq_except_name(*old(self), *final(self)),
    {
        match self {
            MultitypeCue::Remark(c) => c.set_name(new_name),
            MultitypeCue::Bonk(c) => c.set_name(new_name),
            MultitypeCue::Audio(c) => c.set_name(new_name),
        }
    }

    /// Long type label, constant per variant.
    pub fn type_str_full(&self) -> (r: String)
        ensures
            r@ == self.spec_type_full(),
    {
        match self {
            MultitypeCue::Remark(c) => c.type_str_full(),
            MultitypeCue::Bonk(c) => c.type_str_full(),
            MultitypeCue::Audio(c) => c.type_str_full(),
        }
    }

    /// Short type label, constant per variant.
    pub fn type_str_short(&self) -> (r: String)
        ensures
            r@ == self.spec_type_short(),
    {
        match self {
            MultitypeCue::Remark(c) => c.type_str_short(),
            MultitypeCue::Bonk(c) => c.type_str_short(),
            MultitypeCue::Audio(c) => c.type_str_short(),
        }
    }

    /// Capability flags of the variant.
    pub fn get_attributes(&self) -> (r: CueTypeAttributes)
        ensures
            self is Remark ==> r == CueTypeAttributes::spec_default(),
            self is Bonk ==> r == (CueTypeAttributes {
                runnable: true,
                ..CueTypeAttributes::spec_default()
            }),
            self is Audio ==> r == (CueTypeAttributes {
                runnable: true,
                timed: true,
                timed_bounded: true,
                ..CueTypeAttributes::spec_default()
            }),
    {
        match self {
            MultitypeCue::Remark(_) => CueTypeAttributes::new(),
            MultitypeCue::Bonk(c) => c.get_attributes(),
            MultitypeCue::Audio(c) => c.get_attributes(),
        }
    }

    /// Ids of cues this cue refers to. Reserved for future cross-cue
    /// references; empty for every current variant.
    pub fn get_referents(&self) -> (r: Vec<String>)
        ensures
            r@.len() == 0,
    {
        Vec::new()
    }

    /// Whether the cue is enabled.
    pub fn is_enabled(&self) -> (r: bool)
        ensures
            r == self.spec_enabled(),
    {
        match self {
            MultitypeCue::Bonk(c) => c.is_enabled(),
            _ => false,
        }
    }

    /// Open or close the enabled flag; a no-op for variants without it.
    pub fn set_enabled(&mut self, to: bool)
        ensures
            *final(self) == (match *old(self) {
                MultitypeCue::Bonk(b) => MultitypeCue::Bonk(BonkCue { enabled: to, ..b }),
                other => other,
            }),
    {
        match self {
            MultitypeCue::Bonk(c) => c.set_enabled(to),
            _ => (),
        }
    }

    /// Whether the cue is armed.
    pub fn is_armed(&self) -> (r: bool)
        ensures
            r == self.spec_armed(),
    {
        match self {
            MultitypeCue::Bonk(c) => c.is_armed(),
            _ => false,
        }
    }

    /// Arm or disarm the cue; a no-op for variants without the flag.
    pub fn set_armed(&mut self, to: bool)
        ensures
            *final(self) == (match *old(self) {
                MultitypeCue::Bonk(b) => MultitypeCue::Bonk(BonkCue { armed: to, ..b }),
                other => other,
            }),
    {
        match self {
            MultitypeCue::Bonk(c) => c.set_armed(to),
            _ => (),
        }
    }

    /// Whether the cue is in an error state.
    pub fn is_errored(&self) -> (r: bool)
        ensures
            r == self.spec_errored(),
    {
        false
    }

    /// A cue fires exactly when it is enabled, armed, and not errored.
    pub fn can_fire(&self) -> (r: bool)
        ensures
            r == self.spec_can_fire(),
    {
        self.is_enabled() && self.is_armed() && !self.is_errored()
    }

    /// Fire the cue's primary effect. For an audio cue the runner decodes
    /// the source first and hands in its duration (`None` when the decode
    /// failed); other variants ignore it. Failures leave the cue untouched
    /// and are logged by the runner, never propagated.
    pub fn go(&mut self, decoded_raw_ms: Option<u64>)
        ensures
            *final(self) == old(self).spec_go(decoded_raw_ms),
    {
        match self {
            MultitypeCue::Remark(c) => c.go(),
            MultitypeCue::Bonk(c) => c.go(),
            MultitypeCue::Audio(c) => c.go(decoded_raw_ms),
        }
    }

    /// Start playback of an audio cue's trimmed clip, handing back what the
    /// runner must queue. Any other variant reports the operation as
    /// unsupported.
    pub fn play_audio(&mut self, decoded_raw_ms: Option<u64>) -> (r: Result<
        PlayCommand,
        CueError,
    >)
        ensures
            !(*old(self) is Audio) ==> r == Err::<PlayCommand, CueError>(CueError::Unsupported)
                && *final(self) == *old(self),
            (*old(self)) matches MultitypeCue::Audio(a) ==> {
                &&& *final(self) == old(self).spec_go(decoded_raw_ms)
                &&& (a.sink is None ==> r == Err::<PlayCommand, CueError>(
                    CueError::NotInitialized,
                ))
                &&& (a.sink is Some && decoded_raw_ms is None ==> r == Err::<
                    PlayCommand,
                    CueError,
                >(CueError::DecodeFailed))
                &&& (a.sink is Some ==> (decoded_raw_ms matches Some(raw) ==> r == Ok::<
                    PlayCommand,
                    CueError,
                >(PlayCommand {
                    take_ms: if a.end_ms <= raw {
                        (raw - a.end_ms) as u64
                    } else {
                        0
                    },
                    skip_ms: a.start_ms,
                    volume: a.volume,
                })))
            },
    {
        match self {
            MultitypeCue::Audio(c) => c.play_audio(decoded_raw_ms),
            _ => Err(CueError::Unsupported),
        }
    }

    /// Transport state of the cue.
    pub fn running(&self) -> (r: CueRunning)
        ensures
            r == self.spec_running(),
    {
        match self {
            MultitypeCue::Audio(c) => c.running(),
            _ => CueRunning::Stopped,
        }
    }

    /// Stop playback; a no-op for variants that never run.
    pub fn stop(&mut self)
        ensures
            *final(self) == (match *old(self) {
                MultitypeCue::Audio(a) => MultitypeCue::Audio(
                    if a.sink is Some {
                        AudioCue { sink: Some(SinkState { queued: false, paused: true }), ..a }
                    } else {
                        a
                    },
                ),
                other => other,
            }),
    {
        match self {
            MultitypeCue::Audio(c) => c.stop(),
            _ => (),
        }
    }

    /// Pause or resume playback; a no-op for variants that never run.
    pub fn set_paused(&mut self, pu: bool)
        ensures
            *final(self) == (match *old(self) {
                MultitypeCue::Audio(a) => MultitypeCue::Audio(
                    match a.sink {
                        Some(s) => AudioCue {
                            sink: Some(SinkState { queued: s.queued, paused: pu }),
                            ..a
                        },
                        None => a,
                    },
                ),
                other => other,
            }),
    {
        match self {
            MultitypeCue::Audio(c) => c.set_paused(pu),
            _ => (),
        }
    }

    /// Playable length, when the variant has one.
    pub fn length(&self) -> (r: Option<u64>)
        ensures
            r == self.spec_length(),
    {
        match self {
            MultitypeCue::Audio(c) => c.length(),
            _ => None,
        }
    }

    /// Playback position, from the runner's reading of the sink position;
    /// meaningful only for a playing audio cue.
    pub fn elapsed(&self, sink_pos_ms: u64) -> (r: Option<u64>)
        ensures
            r == (match self {
                MultitypeCue::Audio(c) => if c.sink matches Some(s) && s.queued {
                    Some(sink_pos_ms)
                } else {
                    None::<u64>
                },
                _ => None::<u64>,
            }),
    {
        match self {
            MultitypeCue::Audio(c) => c.elapsed(sink_pos_ms),
            _ => None,
        }
    }

    /// Time left at the given sink position; meaningful only for a measured
    /// audio cue with a sink.
    pub fn remaining(&self, sink_pos_ms: u64) -> (r: Option<u64>)
        ensures
            r == (match self {
                MultitypeCue::Audio(c) => match (c.sink, c.duration_ms) {
                    (Some(_), Some(d)) => Some((if sink_pos_ms <= d {
                        d - sink_pos_ms
                    } else {
                        0
                    }) as u64),
                    _ => None::<u64>,
                },
                _ => None::<u64>,
            }),
    {
        match self {
            MultitypeCue::Audio(c) => c.remaining(sink_pos_ms),
            _ => None,
        }
    }

    /// Put the cue back in its initial fired state. Supported only by the
    /// bonk variant, whose counter returns to zero.
    pub fn reset(&mut self) -> (r: Result<(), ()>)
        ensures
            (*old(self)) matches MultitypeCue::Bonk(b) ==> r is Ok && *final(self)
                == MultitypeCue::Bonk(BonkCue { ctr: 0, ..b }),
            !(*old(self) is Bonk) ==> r is Err && *final(self) == *old(self),
    {
        match self {
            MultitypeCue::Bonk(c) => c.reset(),
            _ => Err(()),
        }
    }

    /// How many list positions the playhead advances past this cue after it
    /// fires. One for every current variant; an override point reserved for
    /// future group cues.
    pub fn next_offset(&self) -> (r: usize)
        ensures
            r == 1,
    {
        1
    }

    /// Prepare the cue for use after a load: an audio cue takes a sink when
    /// the device lent one and the runner's measurement of its source; the
    /// other variants need nothing.
    pub fn init(&mut self, sink_created: bool, decoded_raw_ms: Option<u64>)
        ensures
            *final(self) == (match *old(self) {
                MultitypeCue::Audio(a) => MultitypeCue::Audio(
                    a.spec_inited(sink_created, decoded_raw_ms),
                ),
                other => other,
            }),
    {
        match self {
            MultitypeCue::Audio(c) => c.init(sink_created, decoded_raw_ms),
            _ => (),
        }
    }
}

} // verus!
