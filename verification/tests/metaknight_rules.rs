use hdr::metaknight::{
    dim_cape_early_attack_cancel, flag_resets, moveset, new_flag_table, reset_flags,
    transition_fall, FrameInput, MetaKnightConsts, SpecialHitFlags,
};
use hdr::pad::compare_cat;

fn consts() -> MetaKnightConsts {
    MetaKnightConsts {
        status_special_lw: 10,
        status_special_hi: 11,
        status_fall: 12,
        status_fall_special: 13,
        status_damage: 20,
        status_damage_air: 21,
        status_damage_fly: 22,
        status_damage_fly_roll: 23,
        status_damage_fly_meteor: 24,
        status_damage_fly_reflect_lr: 25,
        status_damage_fly_reflect_u: 26,
        status_damage_fly_reflect_d: 27,
        status_damage_fall: 28,
        status_dead: 29,
        status_rebirth: 30,
        status_win: 31,
        status_lose: 32,
        status_entry: 33,
        status_special_n_spin: 40,
        status_special_n_end: 41,
        status_special_s_rush: 42,
        status_special_s_end: 43,
        status_special_hi_loop: 44,
        status_special_lw_end: 45,
        status_special_lw_attack: 46,
        situation_air: 2,
        pad_flag_attack_trigger: 0x1,
    }
}

const GROUND: i32 = 0;
const AIR: i32 = 2;

fn frame(status: i32, situation: i32, prev: i32, hit: bool) -> FrameInput {
    FrameInput {
        id: 1,
        status_kind: status,
        situation_kind: situation,
        prev_status_kind: prev,
        pad_flag: 0,
        past_cape_cancel_frame: false,
        hit,
    }
}

fn cleared() -> SpecialHitFlags {
    SpecialHitFlags::new()
}

#[test]
fn compare_cat_tests_shared_bits() {
    assert!(compare_cat(0b1010, 0b0010));
    assert!(!compare_cat(0b1010, 0b0101));
    assert!(compare_cat(-1, 1));
    assert!(!compare_cat(0, -1));
}

#[test]
fn new_flag_table_is_cleared() {
    let t = new_flag_table(8);
    assert_eq!(t.len(), 8);
    assert!(t.iter().all(|f| *f == cleared()));
    assert_eq!(new_flag_table(0).len(), 0);
}

#[test]
fn cape_cancel_fires_only_with_attack_after_cancel_frame() {
    let k = consts();
    assert_eq!(dim_cape_early_attack_cancel(&k, 10, true, 0x1), Some(46));
    assert_eq!(dim_cape_early_attack_cancel(&k, 10, true, 0x3), Some(46));
    assert_eq!(dim_cape_early_attack_cancel(&k, 10, false, 0x1), None);
    assert_eq!(dim_cape_early_attack_cancel(&k, 10, true, 0x2), None);
    assert_eq!(dim_cape_early_attack_cancel(&k, 11, true, 0x1), None);
}

#[test]
fn hits_set_the_flag_of_the_special() {
    let k = consts();
    let mut t = new_flag_table(3);
    flag_resets(&k, &mut t, 1, 40, true);
    assert!(t[1].neutral_special_hit && !t[1].side_special_hit);
    flag_resets(&k, &mut t, 1, 42, true);
    assert!(t[1].side_special_hit);
    flag_resets(&k, &mut t, 1, 44, true);
    assert!(t[1].up_special_hit);
    flag_resets(&k, &mut t, 1, 46, true);
    assert!(t[1].down_special_hit);
    assert_eq!(t[0], cleared());
    assert_eq!(t[2], cleared());

    let mut u = new_flag_table(2);
    flag_resets(&k, &mut u, 0, 11, true);
    assert!(u[0].up_special_hit);
    flag_resets(&k, &mut u, 1, 40, false);
    assert_eq!(u[1], cleared());
    flag_resets(&k, &mut u, 1, 99, true);
    assert_eq!(u[1], cleared());
}

#[test]
fn fall_transition_needs_the_matching_flag() {
    let k = consts();
    let mut t = new_flag_table(2);
    assert_eq!(transition_fall(&k, &t, 1, 13, 41), None);
    flag_resets(&k, &mut t, 1, 40, true);
    assert_eq!(transition_fall(&k, &t, 1, 13, 41), Some(12));
    assert_eq!(transition_fall(&k, &t, 1, 13, 43), None);
    assert_eq!(transition_fall(&k, &t, 1, 12, 41), None);
    flag_resets(&k, &mut t, 1, 46, true);
    assert_eq!(transition_fall(&k, &t, 1, 13, 45), Some(12));
    assert_eq!(transition_fall(&k, &t, 1, 13, 46), Some(12));
    flag_resets(&k, &mut t, 1, 44, true);
    assert_eq!(transition_fall(&k, &t, 1, 13, 44), Some(12));
    flag_resets(&k, &mut t, 1, 42, true);
    assert_eq!(transition_fall(&k, &t, 1, 13, 43), Some(12));
}

#[test]
fn flags_reset_on_ground_and_when_hit() {
    let k = consts();
    let mut t = new_flag_table(2);
    flag_resets(&k, &mut t, 1, 40, true);
    reset_flags(&k, &mut t, 1, 40, AIR);
    assert!(t[1].neutral_special_hit);
    reset_flags(&k, &mut t, 1, 40, GROUND);
    assert_eq!(t[1], cleared());
    for s in 20..=33 {
        flag_resets(&k, &mut t, 1, 42, true);
        reset_flags(&k, &mut t, 1, s, AIR);
        assert_eq!(t[1], cleared());
    }
}

#[test]
fn moveset_runs_the_rules_in_order() {
    let k = consts();
    let mut t = new_flag_table(4);
    // A landed neutral special in the air.
    let r = moveset(&k, &mut t, &frame(40, AIR, 0, true));
    assert!(r.is_empty());
    assert!(t[1].neutral_special_hit);
    // Airborne frames in between keep the flag.
    let r = moveset(&k, &mut t, &frame(41, AIR, 40, false));
    assert!(r.is_empty());
    // The helpless fall after the neutral special end is cancelled.
    let r = moveset(&k, &mut t, &frame(13, AIR, 41, false));
    assert_eq!(r, vec![12]);
    // Landing clears the flags.
    let r = moveset(&k, &mut t, &frame(13, GROUND, 41, false));
    assert_eq!(r, vec![12]);
    assert_eq!(t[1], cleared());
    let r = moveset(&k, &mut t, &frame(13, AIR, 41, false));
    assert!(r.is_empty());
    assert_eq!(t[0], cleared());
}

#[test]
fn moveset_requests_cape_cancel() {
    let k = consts();
    let mut t = new_flag_table(2);
    let input = FrameInput {
        id: 0,
        status_kind: 10,
        situation_kind: AIR,
        prev_status_kind: 0,
        pad_flag: 1,
        past_cape_cancel_frame: true,
        hit: false,
    };
    assert_eq!(moveset(&k, &mut t, &input), vec![46]);
}

#[test]
fn grounded_hit_leaves_flags_cleared() {
    // The reset rule runs after the hit is recorded, so a hit on the
    // ground leaves nothing behind.
    let k = consts();
    let mut t = new_flag_table(2);
    let r = moveset(&k, &mut t, &frame(46, GROUND, 0, true));
    assert!(r.is_empty());
    assert_eq!(t[1], cleared());
}

#[test]
fn law_grounded_frame_clears_all_flags() {
    let k = consts();
    let mut t = new_flag_table(2);
    for s in [40, 42, 44, 46] {
        moveset(&k, &mut t, &frame(s, AIR, 0, true));
    }
    assert!(t[1].neutral_special_hit && t[1].side_special_hit);
    assert!(t[1].up_special_hit && t[1].down_special_hit);
    moveset(&k, &mut t, &frame(40, GROUND, 0, false));
    assert_eq!(t[1], cleared());
}

#[test]
fn law_no_hit_no_fall_cancel() {
    let k = consts();
    let mut t = new_flag_table(2);
    for prev in [41, 43, 44, 45, 46] {
        let r = moveset(&k, &mut t, &frame(13, AIR, prev, false));
        assert!(!r.contains(&12));
    }
}
