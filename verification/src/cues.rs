//! The two plain cue records: a free-text remark and a "bonk" test counter.
//!
//! Each record carries its own state and implements the uniform cue surface
//! directly; the closed dispatch union over all records lives in `multitype`.

use vstd::prelude::*;

use crate::attrs::CueTypeAttributes;
use crate::ids::parse_id_num;
use crate::ids::spec_id_num;

verus! {

/// A cue that does nothing when fired beyond being noted in the operator's
/// log. Pure annotation in the cue list.
pub struct RemarkCue {
    /// Identifier; free text that may denote a number.
    pub id: String,
    /// Human-readable label.
    pub name: String,
    /// Free-text notes shown in the inspector.
    pub notes: String,
}

impl RemarkCue {
    /// A fresh remark cue with the given id and default name and notes.
    pub fn with_id(id: String) -> (r: RemarkCue)
        ensures
            r.id@ == id@,
            r.name@ == "New remark cue"@,
            r.notes@ == ""@,
    {
        RemarkCue { id, name: "New remark cue".to_owned(), notes: "".to_owned() }
    }

    /// The cue's identifier.
    pub fn get_id(&self) -> (r: String)
        ensures
            r@ == self.id@,
    {
        self.id.clone()
    }

    /// Replace the identifier.
    pub fn set_id(&mut self, new_id: &str)
        ensures
            final(self).id@ == new_id@,
            final(self).name == old(self).name,
            final(self).notes == old(self).notes,
    {
        self.id = new_id.to_owned();
    }

    /// The numeric value of the id, when it has one.
    pub fn get_id_num(&self) -> (r: Option<u64>)
        ensures
            r == spec_id_num(self.id@),
    {
        parse_id_num(self.id.as_str())
    }

    /// The cue's label.
    pub fn get_name(&self) -> (r: String)
        ensures
            r@ == self.name@,
    {
        self.name.clone()
    }

    /// Replace the label.
    pub fn set_name(&mut self, new_name: &str)
        ensures
            final(self).name@ == new_name@,
            final(self).id == old(self).id,
            final(self).notes == old(self).notes,
    {
        self.name = new_name.to_owned();
    }

    /// Long type label.
    pub fn type_str_full(&self) -> (r: String)
        ensures
            r@ == "Remark"@,
    {
        "Remark".to_owned()
    }

    /// Short type label.
    pub fn type_str_short(&self) -> (r: String)
        ensures
            r@ == "Rmk"@,
    {
        "Rmk".to_owned()
    }

    /// Fire the cue. A remark has no effect of its own; the runner logs it.
    pub fn go(&mut self)
        ensures
            *final(self) == *old(self),
    {
    }
}

/// A self-test cue: when fired while it can fire, it bumps a counter.
pub struct BonkCue {
    /// Identifier; free text that may denote a number.
    pub id: String,
    /// Human-readable label.
    pub name: String,
    /// Gating flag: the cue takes part in firing at all.
    pub enabled: bool,
    /// Gating flag: the cue is armed to fire.
    pub armed: bool,
    /// How many times the cue has fired.
    pub ctr: u64,
}

impl BonkCue {
    /// A fresh bonk cue with the given id, default name, both flags set and
    /// a zeroed counter.
    pub fn with_id(id: String) -> (r: BonkCue)
        ensures
            r.id@ == id@,
            r.name@ == "New bonk cue"@,
            r.enabled,
            r.armed,
            r.ctr == 0,
    {
        BonkCue { id, name: "New bonk cue".to_owned(), enabled: true, armed: true, ctr: 0 }
    }

    /// The cue's identifier.
    pub fn get_id(&self) -> (r: String)
        ensures
            r@ == self.id@,
    {
        self.id.clone()
    }

    /// Replace the identifier.
    pub fn set_id(&mut self, new_id: &str)
        ensures
            final(self).id@ == new_id@,
            final(self).name == old(self).name,
            final(self).enabled == old(self).enabled,
            final(self).armed == old(self).armed,
            final(self).ctr == old(self).ctr,
    {
        self.id = new_id.to_owned();
    }

    /// The numeric value of the id, when it has one.
    pub fn get_id_num(&self) -> (r: Option<u64>)
        ensures
            r == spec_id_num(self.id@),
    {
        parse_id_num(self.id.as_str())
    }

    /// The cue's label.
    pub fn get_name(&self) -> (r: String)
        ensures
            r@ == self.name@,
    {
        self.name.clone()
    }

    /// Replace the label.
    pub fn set_name(&mut self, new_name: &str)
        ensures
            final(self).name@ == new_name@,
            final(self).id == old(self).id,
            final(self).enabled == old(self).enabled,
            final(self).armed == old(self).armed,
            final(self).ctr == old(self).ctr,
    {
        self.name = new_name.to_owned();
    }

    /// Long type label.
    pub fn type_str_full(&self) -> (r: String)
        ensures
            r@ == "Bonk"@,
    {
        "Bonk".to_owned()
    }

    /// Short type label.
    pub fn type_str_short(&self) -> (r: String)
        ensures
            r@ == "Bonk"@,
    {
        "Bonk".to_owned()
    }

    /// Capability flags: a bonk cue is runnable, otherwise baseline.
    pub fn get_attributes(&self) -> (r: CueTypeAttributes)
        ensures
            r == (CueTypeAttributes { runnable: true, ..CueTypeAttributes::spec_default() }),
    {
        let mut a = CueTypeAttributes::new();
        a.runnable = true;
        a
    }

    /// Whether the cue is enabled.
    pub fn is_enabled(&self) -> (r: bool)
        ensures
            r == self.enabled,
    {
        self.enabled
    }

    /// Open or close the enabled flag.
    pub fn set_enabled(&mut self, to: bool)
        ensures
            *final(self) == (BonkCue { enabled: to, ..*old(self) }),
    {
        self.enabled = to;
    }

    /// Whether the cue is armed.
    pub fn is_armed(&self) -> (r: bool)
        ensures
            r == self.armed,
    {
        self.armed
    }

    /// Arm or disarm the cue.
    pub fn set_armed(&mut self, to: bool)
        ensures
            *final(self) == (BonkCue { armed: to, ..*old(self) }),
    {
        self.armed = to;
    }

    /// Whether the cue is in an error state. A bonk cue never is.
    pub fn is_errored(&self) -> (r: bool)
        ensures
            r == false,
    {
        false
    }

    /// A cue fires exactly when it is enabled, armed, and not errored.
    pub fn can_fire(&self) -> (r: bool)
        ensures
            r == (self.enabled && self.armed && !self.spec_errored()),
    {
        self.is_enabled() && self.is_armed() && !self.is_errored()
    }

    /// Whether the cue reports an error state, as a spec value.
    pub open spec fn spec_errored(self) -> bool {
        false
    }

    /// The counter value after one firing: one more, wrapping at the top of
    /// the `u64` range.
    pub open spec fn spec_bumped(self) -> u64 {
        if self.ctr == u64::MAX {
            0
        } else {
            (self.ctr + 1) as u64
        }
    }

    /// Fire the cue: bump the counter if its flags allow it.
    pub fn go(&mut self)
        ensures
            *final(self) == (BonkCue {
                ctr: if old(self).enabled && old(self).armed && !old(self).spec_errored() {
                    old(self).spec_bumped()
                } else {
                    old(self).ctr
                },
                ..*old(self)
            }),
    {
        if self.can_fire() {
            self.ctr = if self.ctr == u64::MAX {
                0
            } else {
                self.ctr + 1
            };
        }
    }

    /// Put the counter back to zero. Always supported on this variant.
    pub fn reset(&mut self) -> (r: Result<(), ()>)
        ensures
            *final(self) == (BonkCue { ctr: 0, ..*old(self) }),
            r is Ok,
    {
        self.ctr = 0;
        Ok(())
    }
}

} // verus!
