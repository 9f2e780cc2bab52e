//! The session around the engine: the project, the playhead selection, and
//! the Go transition.
//!
//! The playhead is an optional index into the cue list. Go fires the
//! selected cue, then advances the selection by the cue's offset (or not at
//! all under the debug override); running off the end of the list clears the
//! selection.

use vstd::prelude::*;

use crate::list::CueList;
use crate::multitype::MultitypeCue;

verus! {

/// Tabs of the cue inspector panel.
#[derive(Clone, Copy, Debug, PartialEq, Eq, Structural)]
pub enum InspectorPanelTabs {
    /// Id, name and per-variant basics.
    Basics,
    /// Trim offsets and the waveform view.
    TimeLoops,
    /// Variant-specific extras.
    Extra,
}

/// Session state of the inspector panel: the chosen tab and the decoupled
/// edit buffer for the id field.
pub struct InspectorPanel {
    /// The tab in front.
    pub selected_tab: InspectorPanelTabs,
    /// Pending text of the id field; applied to the cue only on commit.
    pub id_buf: String,
}

impl InspectorPanel {
    /// A fresh panel: basics tab, empty id buffer.
    pub fn new() -> (r: InspectorPanel)
        ensures
            r.selected_tab == InspectorPanelTabs::Basics,
            r.id_buf@ == Seq::<char>::empty(),
    {
        InspectorPanel { selected_tab: InspectorPanelTabs::Basics, id_buf: String::new() }
    }
}

/// Debug overrides of the Go transition.
#[derive(Clone, Copy, Debug, PartialEq, Eq, Structural)]
pub struct DebugSettings {
    /// When set, Go fires the selected cue but the playhead stays put.
    pub disable_continue: bool,
}

impl DebugSettings {
    /// Defaults: the playhead advances normally.
    pub fn new() -> (r: DebugSettings)
        ensures
            !r.disable_continue,
    {
        DebugSettings { disable_continue: false }
    }
}

/// A named show: the project name and its ordered cue list.
pub struct Project {
    /// The project's name.
    pub name: String,
    /// The cues, in show order.
    pub cues: CueList,
}

impl Project {
    /// A project with the given name and an empty cue list.
    pub fn new(name: String) -> (r: Project)
        ensures
            r.name@ == name@,
            r.cues.list@.len() == 0,
    {
        Project { name, cues: CueList::new() }
    }
}

/// Where the playhead lands after one Go from position `i`: `i + advance`
/// when that is still a list position, nowhere otherwise.
pub open spec fn playhead_step(i: int, advance: int, len: int) -> Option<int> {
    if i + advance < len {
        Some(i + advance)
    } else {
        None
    }
}

/// The selection as a mathematical value.
pub open spec fn spec_selected(o: Option<usize>) -> Option<int> {
    match o {
        Some(i) => Some(i as int),
        None => None,
    }
}

/// The whole control-session state: the project, the playhead, the
/// inspector panel, and debug overrides.
pub struct AppState {
    /// The loaded project.
    pub project: Project,
    /// The playhead: the cue that fires on the next Go, or none.
    pub selected_cue: Option<usize>,
    /// Inspector panel session state.
    pub inspector_panel: InspectorPanel,
    /// Debug overrides.
    pub debug_settings: DebugSettings,
}

impl AppState {
    /// The selection, when there is one, is a valid list position.
    pub open spec fn wf(self) -> bool {
        self.selected_cue matches Some(i) ==> i < self.project.cues.list@.len()
    }

    /// A fresh session on the given project: nothing selected, default
    /// panel, default debug settings.
    pub fn new(project: Project) -> (r: AppState)
        ensures
            r.project == project,
            r.selected_cue is None,
            r.inspector_panel.selected_tab == InspectorPanelTabs::Basics,
            r.inspector_panel.id_buf@ == Seq::<char>::empty(),
            !r.debug_settings.disable_continue,
            r.wf(),
    {
        AppState {
            project,
            selected_cue: None,
            inspector_panel: InspectorPanel::new(),
            debug_settings: DebugSettings::new(),
        }
    }

    /// Select the cue at `new_cue_index` and refresh the id edit buffer to
    /// its id, handing the cue back; out of range, nothing changes and
    /// nothing is handed back.
    pub fn select_cue(&mut self, new_cue_index: usize) -> (r: Option<&MultitypeCue>)
        ensures
            new_cue_index < old(self).project.cues.list@.len() ==> {
                &&& r matches Some(c) && *c == old(self).project.cues.list@[new_cue_index as int]
                &&& final(self).selected_cue == Some(new_cue_index)
                &&& final(self).inspector_panel.id_buf@ == old(self).project.cues.list@[
                    new_cue_index as int].spec_id()
                &&& final(self).project == old(self).project
                &&& final(self).debug_settings == old(self).debug_settings
                &&& final(self).inspector_panel.selected_tab == old(
                    self,
                ).inspector_panel.selected_tab
                &&& final(self).wf()
            },
            new_cue_index >= old(self).project.cues.list@.len() ==> r is None && *final(self)
                == *old(self),
    {
        if new_cue_index < self.project.cues.len() {
            let new_cue = self.project.cues.get(new_cue_index);
            self.selected_cue = Some(new_cue_index);
            self.inspector_panel.id_buf = new_cue.get_id();
            Some(self.project.cues.get(new_cue_index))
        } else {
            None
        }
    }
}

/// The Go transition: fire the selected cue and advance the playhead.
///
/// With nothing selected this is a no-op (the runner logs it). Otherwise the
/// cue at the selection fires (for an audio cue, `decoded_raw_ms` is the
/// runner's fresh measurement of its source, `None` when decoding failed or
/// was not attempted), the playhead moves by the cue's offset — or stays,
/// under the debug override — and runs off the end into no selection. The
/// fired position is handed back so the runner can carry out the cue's
/// outside effect.
pub fn handle_go(state: &mut AppState, decoded_raw_ms: Option<u64>) -> (fired: Option<usize>)
    requires
        old(state).wf(),
    ensures
        old(state).selected_cue is None ==> *final(state) == *old(state) && fired is None,
        old(state).selected_cue matches Some(i) ==> {
            &&& fired == Some(i)
            &&& final(state).project.cues.list@ == old(state).project.cues.list@.update(
                i as int,
                old(state).project.cues.list@[i as int].spec_go(decoded_raw_ms),
            )
            &&& spec_selected(final(state).selected_cue) == playhead_step(
                i as int,
                if old(state).debug_settings.disable_continue {
                    0
                } else {
                    1
                },
                old(state).project.cues.list@.len() as int,
            )
            &&& final(state).project.name == old(state).project.name
            &&& final(state).debug_settings == old(state).debug_settings
            &&& final(state).inspector_panel.selected_tab == old(
                state,
            ).inspector_panel.selected_tab
            &&& (final(state).selected_cue is None ==> final(state).inspector_panel.id_buf == old(
                state,
            ).inspector_panel.id_buf)
            &&& (final(state).selected_cue matches Some(t)
                ==> final(state).inspector_panel.id_buf@ == final(state).project.cues.list@[
                t as int].spec_id())
            &&& final(state).wf()
        },
{
    let cue_index = match state.selected_cue {
        Some(i) => i,
        None => {
            return None;
        },
    };

    let total = state.project.cues.len();
    let advance: usize = if state.debug_settings.disable_continue {
        0
    } else {
        state.project.cues.get(cue_index).next_offset()
    };
    assert(cue_index < total && advance <= 1);
    let next_cue_index = cue_index + advance;

    let cue_mut = &mut state.project.cues.list[cue_index];
    cue_mut.go(decoded_raw_ms);

    if let None = state.select_cue(next_cue_index) {
        state.selected_cue = None;
    }
    Some(cue_index)
}

/// The playhead after `k` Go transitions on a list of `len` cues, starting
/// at the head, with unit offsets and the continue override off. Each step
/// is the one `handle_go` promises.
pub open spec fn gos_from_start(len: int, k: nat) -> Option<int>
    decreases k,
{
    if k == 0 {
        if 0 < len {
            Some(0)
        } else {
            None
        }
    } else {
        match gos_from_start(len, (k - 1) as nat) {
            Some(i) => playhead_step(i, 1, len),
            None => None,
        }
    }
}

/// Playhead advance law: on a non-empty list of `len` cues, with every
/// cue's offset one and the continue override off, Go transitions starting
/// from the head visit positions 0, 1, ..., len-1 in order, and the next Go
/// leaves the playhead on no selection for good.
pub proof fn lemma_playhead_walk(len: int, k: nat)
    requires
        0 < len,
    ensures
        gos_from_start(len, k) == (if k < len {
            Some(k as int)
        } else {
            None::<int>
        }),
    decreases k,
{
    if k > 0 {
        lemma_playhead_walk(len, (k - 1) as nat);
    }
}

} // verus!
