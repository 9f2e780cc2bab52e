//! Cue list operations and the Go state machine.

use cueball::cues::BonkCue;
use cueball::cues::RemarkCue;
use cueball::list::CueList;
use cueball::multitype::MultitypeCue;
use cueball::playback::handle_go;
use cueball::playback::AppState;
use cueball::playback::Project;

fn remark(id: &str) -> MultitypeCue {
    MultitypeCue::Remark(RemarkCue::with_id(id.to_string()))
}

fn bonk(id: &str) -> MultitypeCue {
    MultitypeCue::Bonk(BonkCue::with_id(id.to_string()))
}

fn ids(list: &CueList) -> Vec<String> {
    let mut out = Vec::new();
    let mut i = 0;
    while i < list.len() {
        out.push(list.get(i).get_id());
        i += 1;
    }
    out
}

#[test]
fn add_appends_and_reports_position() {
    let mut l = CueList::new();
    assert_eq!(l.add(remark("1")), Ok(0));
    assert_eq!(l.add(bonk("2")), Ok(1));
    assert_eq!(l.len(), 2);
    assert_eq!(l.get(0).get_id(), "1");
    assert_eq!(l.get(1).get_id(), "2");
}

#[test]
fn consistency_check_is_a_pass_through() {
    let mut l = CueList::new();
    assert!(l.consistency_checks_add(&remark("1")));
    l.add(remark("1")).unwrap();
    // duplicate ids pass today: uniqueness is advisory
    assert!(l.consistency_checks_add(&remark("1")));
    assert_eq!(l.add(remark("1")), Ok(1));
}

#[test]
fn new_cue_id_is_one_past_the_numeric_maximum() {
    let mut l = CueList::new();
    assert_eq!(l.get_new_cue_id(), 1);
    l.add(remark("3")).unwrap();
    l.add(remark("10")).unwrap();
    assert_eq!(l.get_new_cue_id(), 11);
    l.add(remark("7")).unwrap();
    assert_eq!(l.get_new_cue_id(), 11);
}

#[test]
fn non_numeric_ids_do_not_influence_new_id() {
    let mut l = CueList::new();
    l.add(remark("intro")).unwrap();
    l.add(remark("outro")).unwrap();
    assert_eq!(l.get_new_cue_id(), 1);
    l.add(remark("5")).unwrap();
    l.add(remark("zz-last")).unwrap();
    assert_eq!(l.get_new_cue_id(), 6);
}

#[test]
fn get_cue_finds_first_match() {
    let mut l = CueList::new();
    l.add(remark("a")).unwrap();
    l.add(bonk("b")).unwrap();
    l.add(remark("b")).unwrap();
    let c = l.get_cue("b".to_string()).expect("cue b");
    assert_eq!(c.type_str_short(), "Bonk");
    assert!(l.get_cue("zzz".to_string()).is_none());
}

#[test]
fn get_cue_mut_edits_in_place() {
    let mut l = CueList::new();
    l.add(remark("a")).unwrap();
    l.add(remark("b")).unwrap();
    l.get_cue_mut("b".to_string()).expect("cue b").set_name("blackout");
    assert_eq!(l.get(1).get_name(), "blackout");
    assert_eq!(l.get(0).get_name(), "New remark cue");
    assert!(l.get_cue_mut("c".to_string()).is_none());
}

#[test]
fn move_cue_down_rotates_the_range() {
    let mut l = CueList::new();
    for id in ["1", "2", "3", "4"] {
        l.add(remark(id)).unwrap();
    }
    l.move_cue(0, 2);
    assert_eq!(ids(&l), ["2", "3", "1", "4"]);
}

#[test]
fn move_cue_up_rotates_the_range() {
    let mut l = CueList::new();
    for id in ["1", "2", "3", "4"] {
        l.add(remark(id)).unwrap();
    }
    l.move_cue(3, 1);
    assert_eq!(ids(&l), ["1", "4", "2", "3"]);
}

#[test]
fn move_cue_to_itself_is_idempotent() {
    let mut l = CueList::new();
    for id in ["1", "2", "3"] {
        l.add(remark(id)).unwrap();
    }
    l.move_cue(1, 1);
    assert_eq!(ids(&l), ["1", "2", "3"]);
}

#[test]
fn select_updates_playhead_and_id_buffer() {
    let mut p = Project::new("show".to_string());
    p.cues.add(remark("11")).unwrap();
    p.cues.add(remark("12")).unwrap();
    let mut s = AppState::new(p);
    assert_eq!(s.selected_cue, None);
    assert!(s.select_cue(1).is_some());
    assert_eq!(s.selected_cue, Some(1));
    assert_eq!(s.inspector_panel.id_buf, "12");
    // out of range: nothing changes, nothing handed back
    assert!(s.select_cue(2).is_none());
    assert_eq!(s.selected_cue, Some(1));
    assert_eq!(s.inspector_panel.id_buf, "12");
}

#[test]
fn go_with_no_selection_is_a_no_op() {
    let mut p = Project::new("show".to_string());
    p.cues.add(bonk("1")).unwrap();
    let mut s = AppState::new(p);
    assert_eq!(handle_go(&mut s, None), None);
    assert_eq!(s.selected_cue, None);
    match s.project.cues.get(0) {
        MultitypeCue::Bonk(c) => assert_eq!(c.ctr, 0),
        _ => panic!("variant changed"),
    }
}

#[test]
fn go_fires_advances_and_runs_off_the_end() {
    // new list, add Bonk "1" and Bonk "2"; the next fresh id is 3; Go from
    // the head bumps Bonk 1 and selects position 1; a second Go bumps Bonk 2
    // and clears the selection (position 2 is out of range).
    let mut p = Project::new("show".to_string());
    p.cues.add(bonk("1")).unwrap();
    p.cues.add(bonk("2")).unwrap();
    assert_eq!(p.cues.get_new_cue_id(), 3);
    let mut s = AppState::new(p);
    s.select_cue(0);

    assert_eq!(handle_go(&mut s, None), Some(0));
    match s.project.cues.get(0) {
        MultitypeCue::Bonk(c) => assert_eq!(c.ctr, 1),
        _ => panic!("variant changed"),
    }
    assert_eq!(s.selected_cue, Some(1));
    assert_eq!(s.inspector_panel.id_buf, "2");

    assert_eq!(handle_go(&mut s, None), Some(1));
    match s.project.cues.get(1) {
        MultitypeCue::Bonk(c) => assert_eq!(c.ctr, 1),
        _ => panic!("variant changed"),
    }
    assert_eq!(s.selected_cue, None);
}

#[test]
fn go_visits_every_position_in_order() {
    let mut p = Project::new("walk".to_string());
    for id in ["1", "2", "3", "4", "5"] {
        p.cues.add(remark(id)).unwrap();
    }
    let mut s = AppState::new(p);
    s.select_cue(0);
    let mut visited = Vec::new();
    while let Some(i) = handle_go(&mut s, None) {
        visited.push(i);
    }
    assert_eq!(visited, [0, 1, 2, 3, 4]);
    assert_eq!(s.selected_cue, None);
    // once off the end, further Gos stay no-ops
    assert_eq!(handle_go(&mut s, None), None);
}

#[test]
fn disable_continue_keeps_the_playhead() {
    let mut p = Project::new("show".to_string());
    p.cues.add(bonk("1")).unwrap();
    p.cues.add(bonk("2")).unwrap();
    let mut s = AppState::new(p);
    s.debug_settings.disable_continue = true;
    s.select_cue(0);
    assert_eq!(handle_go(&mut s, None), Some(0));
    assert_eq!(s.selected_cue, Some(0));
    match s.project.cues.get(0) {
        MultitypeCue::Bonk(c) => assert_eq!(c.ctr, 1),
        _ => panic!("variant changed"),
    }
    assert_eq!(handle_go(&mut s, None), Some(0));
    match s.project.cues.get(0) {
        MultitypeCue::Bonk(c) => assert_eq!(c.ctr, 2),
        _ => panic!("variant changed"),
    }
}
