use iron_rainbow::gpu::{storage_bytes, workgroups_for};
use iron_rainbow::particles::{lcg_next, lcg_states};
use iron_rainbow::lut::{text_equals, NormalizeMode};

#[test]
fn workgroups_round_up() {
    assert_eq!(workgroups_for(0), (0, 1, 1));
    assert_eq!(workgroups_for(1), (1, 1, 1));
    assert_eq!(workgroups_for(64), (1, 1, 1));
    assert_eq!(workgroups_for(65), (2, 1, 1));
    assert_eq!(workgroups_for(200_000), (3125, 1, 1));
    assert_eq!(workgroups_for(u32::MAX - 63), ((u32::MAX - 63 + 63) / 64, 1, 1));
}

#[test]
fn storage_sizes() {
    assert_eq!(storage_bytes(0, 16), 0);
    assert_eq!(storage_bytes(10, 16), 160);
    assert_eq!(storage_bytes(3, 80), 240);
}

#[test]
fn lcg_steps() {
    assert_eq!(lcg_next(0), 1013904223);
    assert_eq!(lcg_next(1), 1664525 + 1013904223);
    assert_eq!(
        lcg_next(u64::MAX),
        u64::MAX.wrapping_mul(1664525).wrapping_add(1013904223)
    );
}

#[test]
fn lcg_states_follow_each_other() {
    let states = lcg_states(42, 5);
    assert_eq!(states.len(), 5);
    assert_eq!(states[0], lcg_next(42));
    for i in 1..5 {
        assert_eq!(states[i], lcg_next(states[i - 1]));
    }
    assert!(lcg_states(7, 0).is_empty());
}

#[test]
fn normalize_mode_names() {
    assert_eq!(NormalizeMode::from_name("per_wavelength"), NormalizeMode::PerWavelength);
    assert_eq!(NormalizeMode::from_name("global"), NormalizeMode::Global);
    assert_eq!(NormalizeMode::from_name("per_wavelengths"), NormalizeMode::Global);
    assert_eq!(NormalizeMode::from_name(""), NormalizeMode::Global);
    assert_eq!(NormalizeMode::from_name("Per_wavelength"), NormalizeMode::Global);
}

#[test]
fn text_equality() {
    assert!(text_equals("abc", "abc"));
    assert!(!text_equals("abc", "abd"));
    assert!(!text_equals("abc", "ab"));
    assert!(text_equals("\u{3bb}", "\u{3bb}"));
}
