//! Per-record behavior: flags, firing conditions, labels, ids, attributes.

use cueball::attrs::CueRunning;
use cueball::attrs::CueTypeAttributes;
use cueball::cues::BonkCue;
use cueball::cues::RemarkCue;
use cueball::ids::parse_id_num;
use cueball::multitype::MultitypeCue;

#[test]
fn bonk_can_fire_all_flag_combinations() {
    // can_fire == enabled && armed && !errored, over every reachable
    // combination; a bonk cue never reports errored.
    for &enabled in &[false, true] {
        for &armed in &[false, true] {
            let mut c = BonkCue::with_id("1".to_string());
            c.set_enabled(enabled);
            c.set_armed(armed);
            assert_eq!(c.is_enabled(), enabled);
            assert_eq!(c.is_armed(), armed);
            assert!(!c.is_errored());
            assert_eq!(c.can_fire(), enabled && armed);
        }
    }
}

#[test]
fn multitype_can_fire_matches_flags() {
    let mut c = MultitypeCue::Bonk(BonkCue::with_id("9".to_string()));
    assert!(c.can_fire());
    c.set_enabled(false);
    assert!(!c.can_fire());
    c.set_enabled(true);
    c.set_armed(false);
    assert!(!c.can_fire());
    c.set_armed(true);
    assert!(c.can_fire());
    assert!(!c.is_errored());
}

#[test]
fn remark_and_audio_never_fire() {
    let r = MultitypeCue::Remark(RemarkCue::with_id("1".to_string()));
    assert!(!r.is_enabled());
    assert!(!r.is_armed());
    assert!(!r.can_fire());
    let a = MultitypeCue::Audio(cueball::audio::AudioCue::with_id("2".to_string()));
    assert!(!a.can_fire());
}

#[test]
fn bonk_go_counts_only_when_flags_set() {
    let mut c = BonkCue::with_id("1".to_string());
    assert_eq!(c.ctr, 0);
    c.go();
    assert_eq!(c.ctr, 1);
    c.go();
    assert_eq!(c.ctr, 2);
    c.set_armed(false);
    c.go();
    assert_eq!(c.ctr, 2);
    c.set_armed(true);
    c.set_enabled(false);
    c.go();
    assert_eq!(c.ctr, 2);
}

#[test]
fn bonk_reset_zeroes_counter() {
    let mut c = BonkCue::with_id("1".to_string());
    c.go();
    c.go();
    assert!(c.reset().is_ok());
    assert_eq!(c.ctr, 0);
}

#[test]
fn reset_unsupported_outside_bonk() {
    let mut r = MultitypeCue::Remark(RemarkCue::with_id("1".to_string()));
    assert!(r.reset().is_err());
    let mut a = MultitypeCue::Audio(cueball::audio::AudioCue::with_id("2".to_string()));
    assert!(a.reset().is_err());
    let mut b = MultitypeCue::Bonk(BonkCue::with_id("3".to_string()));
    b.go(None);
    assert!(b.reset().is_ok());
    match &b {
        MultitypeCue::Bonk(c) => assert_eq!(c.ctr, 0),
        _ => panic!("variant changed"),
    }
}

#[test]
fn type_labels_are_constant_per_variant() {
    let r = MultitypeCue::Remark(RemarkCue::with_id("1".to_string()));
    assert_eq!(r.type_str_full(), "Remark");
    assert_eq!(r.type_str_short(), "Rmk");
    let b = MultitypeCue::Bonk(BonkCue::with_id("2".to_string()));
    assert_eq!(b.type_str_full(), "Bonk");
    assert_eq!(b.type_str_short(), "Bonk");
    let a = MultitypeCue::Audio(cueball::audio::AudioCue::with_id("3".to_string()));
    assert_eq!(a.type_str_full(), "Audio");
    assert_eq!(a.type_str_short(), "Aud");
}

#[test]
fn ids_and_names_round_trip() {
    let mut c = MultitypeCue::Remark(RemarkCue::with_id("7".to_string()));
    assert_eq!(c.get_id(), "7");
    assert_eq!(c.get_name(), "New remark cue");
    c.set_id("12");
    c.set_name("walk-in music");
    assert_eq!(c.get_id(), "12");
    assert_eq!(c.get_name(), "walk-in music");
    assert_eq!(c.get_id_num(), Some(12));
}

#[test]
fn default_attributes_and_overrides() {
    let d = CueTypeAttributes::default();
    assert!(!d.runnable);
    assert!(!d.timed);
    assert!(!d.timed_bounded);
    assert_eq!(d.networked, Some(false));
    assert!(d.idempotent);
    assert!(!d.tc);

    let r = MultitypeCue::Remark(RemarkCue::with_id("1".to_string()));
    assert_eq!(r.get_attributes(), CueTypeAttributes::default());

    let b = MultitypeCue::Bonk(BonkCue::with_id("2".to_string()));
    let ba = b.get_attributes();
    assert!(ba.runnable);
    assert!(!ba.timed);

    let a = MultitypeCue::Audio(cueball::audio::AudioCue::with_id("3".to_string()));
    let aa = a.get_attributes();
    assert!(aa.runnable);
    assert!(aa.timed);
    assert!(aa.timed_bounded);
}

#[test]
fn referents_empty_and_offset_one() {
    let r = MultitypeCue::Remark(RemarkCue::with_id("1".to_string()));
    assert!(r.get_referents().is_empty());
    assert_eq!(r.next_offset(), 1);
    let b = MultitypeCue::Bonk(BonkCue::with_id("2".to_string()));
    assert_eq!(b.next_offset(), 1);
}

#[test]
fn non_audio_transport_is_inert() {
    let mut r = MultitypeCue::Remark(RemarkCue::with_id("1".to_string()));
    assert_eq!(r.running(), CueRunning::Stopped);
    r.stop();
    r.set_paused(true);
    assert_eq!(r.running(), CueRunning::Stopped);
    assert_eq!(r.length(), None);
    assert_eq!(r.elapsed(500), None);
    assert_eq!(r.remaining(500), None);
}

#[test]
fn numeric_id_parsing() {
    assert_eq!(parse_id_num("123"), Some(123));
    assert_eq!(parse_id_num("0"), Some(0));
    assert_eq!(parse_id_num("007"), Some(7));
    assert_eq!(parse_id_num("+7"), Some(7));
    assert_eq!(parse_id_num(""), None);
    assert_eq!(parse_id_num("+"), None);
    assert_eq!(parse_id_num("-1"), None);
    assert_eq!(parse_id_num("12a"), None);
    assert_eq!(parse_id_num("a12"), None);
    assert_eq!(parse_id_num("1 2"), None);
    assert_eq!(parse_id_num("½"), None);
    assert_eq!(parse_id_num("cue-4"), None);
    assert_eq!(parse_id_num("18446744073709551615"), Some(u64::MAX));
    assert_eq!(parse_id_num("18446744073709551616"), None);
    assert_eq!(parse_id_num("99999999999999999999999"), None);
    // agreement with the standard library's parse
    for s in ["42", "+0", "010", "9x", "", "+", "18446744073709551615"] {
        assert_eq!(parse_id_num(s), s.parse::<u64>().ok(), "disagrees on {:?}", s);
    }
}
