use yolk_bridge::diff::{diff, Command};
use yolk_bridge::keys::LogicalKey;
use yolk_bridge::keyset::KeySet;
use yolk_bridge::relay::KeyProcessor;
use yolk_bridge::report::decode;

fn set_of(keys: &[LogicalKey]) -> KeySet {
    let mut s = KeySet::new();
    for k in keys {
        s.insert(*k);
    }
    s
}

fn same_keys(a: &[LogicalKey], b: &[LogicalKey]) -> bool {
    a.len() == b.len() && a.iter().all(|k| b.contains(k))
}

#[test]
fn shift_and_a_pressed_from_empty() {
    let report = [0x02u8, 0, 0x04, 0, 0, 0, 0, 0];
    let keys = decode(&report).to_vec();
    assert!(same_keys(&keys, &[LogicalKey::LeftShift, LogicalKey::A]));
    let mut p = KeyProcessor::new();
    let cmds = p.process(&report);
    assert_eq!(
        cmds,
        vec![Command::Press(LogicalKey::LeftShift), Command::Press(LogicalKey::A), Command::Synchronize]
    );
}

#[test]
fn release_when_report_empties() {
    let mut p = KeyProcessor::new();
    p.process(&[0, 0, 0x04, 0, 0, 0, 0, 0]);
    assert!(same_keys(&p.held_keys(), &[LogicalKey::A]));
    let cmds = p.process(&[0, 0, 0, 0, 0, 0, 0, 0]);
    assert_eq!(cmds, vec![Command::Release(LogicalKey::A), Command::Synchronize]);
    assert!(p.held_keys().is_empty());
}

#[test]
fn identical_report_twice_is_noop() {
    let mut p = KeyProcessor::new();
    let report = [0u8, 0, 0x04, 0, 0, 0, 0, 0];
    let first = p.process(&report);
    assert_eq!(first, vec![Command::Press(LogicalKey::A), Command::Synchronize]);
    let second = p.process(&report);
    assert!(second.is_empty());
    assert!(same_keys(&p.held_keys(), &[LogicalKey::A]));
}

#[test]
fn digit_one_with_empty_slots() {
    let keys = decode(&[0, 0, 0x1E, 0, 0, 0, 0, 0]).to_vec();
    assert_eq!(keys, vec![LogicalKey::Digit1]);
}

#[test]
fn every_code_in_every_slot_decodes() {
    for slot in 2..8 {
        for code in 0..=255u8 {
            let mut report = [0u8; 8];
            report[slot] = code;
            let keys = decode(&report).to_vec();
            assert!(keys.len() <= 1);
        }
    }
}

#[test]
fn unmapped_codes_add_nothing() {
    for code in [0x00u8, 0x01, 0x03, 0x31, 0x46, 0x53, 0x65, 0xE0, 0xFF] {
        let keys = decode(&[0, 0, code, code, code, code, code, code]).to_vec();
        assert!(keys.is_empty(), "code {:#x}", code);
    }
}

#[test]
fn pound_and_backslash_codes() {
    let keys = decode(&[0, 0, 0x32, 0x64, 0, 0, 0, 0]).to_vec();
    assert!(same_keys(&keys, &[LogicalKey::Pound, LogicalKey::Backslash]));
}

#[test]
fn reserved_byte_is_ignored() {
    let keys = decode(&[0, 0x04, 0, 0, 0, 0, 0, 0]).to_vec();
    assert!(keys.is_empty());
}

#[test]
fn bytes_past_the_eighth_are_ignored() {
    let keys = decode(&[0, 0, 0x05, 0, 0, 0, 0, 0, 0x04, 0x06]).to_vec();
    assert_eq!(keys, vec![LogicalKey::B]);
}

#[test]
fn short_report_reads_missing_bytes_as_empty() {
    assert!(decode(&[]).to_vec().is_empty());
    assert_eq!(decode(&[0x01, 0, 0x04]).to_vec(), vec![LogicalKey::LeftControl, LogicalKey::A]);
}

#[test]
fn repeated_code_gives_one_key() {
    let keys = decode(&[0, 0, 0x04, 0x04, 0x04, 0, 0, 0]).to_vec();
    assert_eq!(keys, vec![LogicalKey::A]);
}

#[test]
fn all_modifier_masks() {
    let by_bit = [
        LogicalKey::LeftControl,
        LogicalKey::LeftShift,
        LogicalKey::LeftAlt,
        LogicalKey::LeftMeta,
        LogicalKey::RightControl,
        LogicalKey::RightShift,
        LogicalKey::RightAlt,
        LogicalKey::RightMeta,
    ];
    for m in 0..=255u8 {
        let keys = decode(&[m, 0, 0x2C, 0, 0, 0, 0, 0]).to_vec();
        let mut expected: Vec<LogicalKey> = (0..8).filter(|b| m & (1 << b) != 0).map(|b| by_bit[b]).collect();
        expected.push(LogicalKey::Space);
        assert!(same_keys(&keys, &expected), "mask {:#x}", m);
    }
}

#[test]
fn diff_releases_then_presses_then_syncs() {
    let prev = set_of(&[LogicalKey::A, LogicalKey::B, LogicalKey::LeftShift]);
    let next = set_of(&[LogicalKey::B, LogicalKey::C, LogicalKey::D]);
    let cmds = diff(&prev, &next);
    assert_eq!(cmds.len(), 5);
    assert!(matches!(cmds[0], Command::Release(_)));
    assert!(matches!(cmds[1], Command::Release(_)));
    assert!(cmds.contains(&Command::Release(LogicalKey::A)));
    assert!(cmds.contains(&Command::Release(LogicalKey::LeftShift)));
    assert!(matches!(cmds[2], Command::Press(_)));
    assert!(matches!(cmds[3], Command::Press(_)));
    assert!(cmds.contains(&Command::Press(LogicalKey::C)));
    assert!(cmds.contains(&Command::Press(LogicalKey::D)));
    assert_eq!(cmds[4], Command::Synchronize);
}

#[test]
fn diff_of_equal_sets_only_syncs() {
    let s = set_of(&[LogicalKey::F1, LogicalKey::Up]);
    let t = set_of(&[LogicalKey::Up, LogicalKey::F1]);
    assert_eq!(diff(&s, &t), vec![Command::Synchronize]);
    assert_eq!(diff(&KeySet::new(), &KeySet::new()), vec![Command::Synchronize]);
}

#[test]
fn held_keys_follow_each_report() {
    let mut p = KeyProcessor::new();
    p.process(&[0x10, 0, 0x3A, 0x4F, 0, 0, 0, 0]);
    assert!(same_keys(&p.held_keys(), &[LogicalKey::RightControl, LogicalKey::F1, LogicalKey::Right]));
    let cmds = p.process(&[0x10, 0, 0x4F, 0x29, 0, 0, 0, 0]);
    assert_eq!(
        cmds,
        vec![Command::Release(LogicalKey::F1), Command::Press(LogicalKey::Esc), Command::Synchronize]
    );
    assert!(same_keys(&p.held_keys(), &[LogicalKey::RightControl, LogicalKey::Right, LogicalKey::Esc]));
}

#[test]
fn first_all_zero_report_only_syncs() {
    let mut p = KeyProcessor::new();
    assert_eq!(p.process(&[0u8; 8]), vec![Command::Synchronize]);
    assert!(p.process(&[0u8; 8]).is_empty());
}

#[test]
fn key_set_insert_keeps_one_copy() {
    let mut s = KeySet::new();
    s.insert(LogicalKey::Tab);
    s.insert(LogicalKey::Tab);
    assert_eq!(s.len(), 1);
    assert!(s.contains(LogicalKey::Tab));
    assert!(!s.contains(LogicalKey::Space));
    s.clear();
    assert_eq!(s.len(), 0);
}
