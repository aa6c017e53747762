use system_core::SystemMeta;
use system_core::meta::check_system_change_tick;

const MAX_AGE: u32 = (u32::MAX / 4) * 3;

#[test]
fn fresh_meta_defaults() {
    let meta = SystemMeta::new(String::from("mover"));
    assert_eq!(meta.name(), "mover");
    assert!(meta.is_send());
    assert!(!meta.is_exclusive());
    assert_eq!(meta.last_change_tick(), 0);
    assert!(!meta.component_access().has_read(0));
    assert!(!meta.archetype_component_access().has_read(0));
}

#[test]
fn set_non_send_is_idempotent_and_irreversible() {
    let mut meta = SystemMeta::new(String::new());
    assert!(meta.is_send());
    meta.set_non_send();
    assert!(!meta.is_send());
    meta.set_non_send();
    assert!(!meta.is_send());
    // No other operation restores send affinity.
    meta.set_exclusive();
    meta.register_component_read(1);
    meta.register_component_write(2);
    meta.register_archetype_component_read(3);
    meta.register_archetype_component_write(4);
    meta.set_last_change_tick(9);
    meta.check_change_tick(10);
    assert!(!meta.is_send());
}

#[test]
fn set_exclusive_is_idempotent_and_irreversible() {
    let mut meta = SystemMeta::new(String::new());
    assert!(!meta.is_exclusive());
    meta.set_exclusive();
    assert!(meta.is_exclusive());
    meta.set_exclusive();
    assert!(meta.is_exclusive());
    meta.set_non_send();
    meta.register_component_write(2);
    meta.set_last_change_tick(9);
    meta.check_change_tick(10);
    assert!(meta.is_exclusive());
}

#[test]
fn change_tick_within_margin_is_untouched() {
    let mut last: u32 = 100;
    let warned = check_system_change_tick(&mut last, 5100);
    assert!(!warned);
    assert_eq!(last, 100);
}

#[test]
fn change_tick_at_exact_boundary_is_untouched() {
    let mut last: u32 = 100;
    let current = 100u32.wrapping_add(MAX_AGE);
    let warned = check_system_change_tick(&mut last, current);
    assert!(!warned);
    assert_eq!(last, 100);
}

#[test]
fn change_tick_one_past_boundary_is_clamped() {
    let mut last: u32 = 100;
    let current = 100u32.wrapping_add(MAX_AGE).wrapping_add(1);
    let warned = check_system_change_tick(&mut last, current);
    assert!(warned);
    assert_eq!(last, current.wrapping_sub(MAX_AGE));
    assert_eq!(last, 101);
}

#[test]
fn change_tick_handles_wraparound() {
    // The counter wrapped: the current tick is numerically far below the
    // last-run tick, but the wrapping distance is small.
    let mut last: u32 = u32::MAX - 5;
    let warned = check_system_change_tick(&mut last, 4);
    assert!(!warned);
    assert_eq!(last, u32::MAX - 5);

    // The wrapping distance is past the margin: clamp.
    let mut stale: u32 = 7;
    let current = 7u32.wrapping_add(MAX_AGE).wrapping_add(90);
    let warned = check_system_change_tick(&mut stale, current);
    assert!(warned);
    assert_eq!(stale, current.wrapping_sub(MAX_AGE));
}

#[test]
fn meta_check_change_tick_uses_own_tick() {
    let mut meta = SystemMeta::new(String::new());
    meta.set_last_change_tick(50);
    assert!(!meta.check_change_tick(60));
    assert_eq!(meta.last_change_tick(), 50);
    assert!(meta.check_change_tick(50u32.wrapping_add(MAX_AGE).wrapping_add(2)));
    assert_eq!(meta.last_change_tick(), 52);
}

#[test]
fn register_claims_grow_access() {
    let mut meta = SystemMeta::new(String::new());
    meta.register_component_read(5);
    meta.register_component_write(6);
    assert!(meta.component_access().has_read(5));
    assert!(!meta.component_access().has_write(5));
    assert!(meta.component_access().has_read(6));
    assert!(meta.component_access().has_write(6));
    meta.register_archetype_component_write(7);
    assert!(meta.archetype_component_access().has_write(7));
}
