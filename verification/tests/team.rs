use teamcheck::team::BaseStats;
use teamcheck::team::Gender;
use teamcheck::team::Item;
use teamcheck::team::Move;
use teamcheck::team::Nature;
use teamcheck::team::Species;
use teamcheck::team::Stat;
use teamcheck::team::TeamMember;

/// A member that passes every legality rule: ability in the first slot,
/// gendered species with a gendered member, EV sum 504, all IVs 31, two
/// distinct legal moves, level 100.
fn valid_member() -> TeamMember {
    TeamMember {
        species: Species {
            stats: BaseStats {
                hp: 80,
                attack: 100,
                defense: 70,
                speed: 60,
                special_attack: 50,
                special_defense: 40,
            },
            first_ability: 7,
            second_ability: Some(9),
            gender_rate: 4,
        },
        gender: Gender::Male,
        ability: 7,
        nature: Nature {
            increased: None,
            decreased: None,
        },
        held: None,
        friendship: 70,
        evs: BaseStats {
            hp: 252,
            attack: 252,
            defense: 0,
            speed: 0,
            special_attack: 0,
            special_defense: 0,
        },
        ivs: BaseStats {
            hp: 31,
            attack: 31,
            defense: 31,
            speed: 31,
            special_attack: 31,
            special_defense: 31,
        },
        moves: [
            Some(Move { id: 1, pp: 15 }),
            Some(Move { id: 2, pp: 20 }),
            None,
            None,
        ],
        pp_ups: [0, 3, 0, 0],
        level: 100,
    }
}

fn legal_moves() -> Vec<u16> {
    vec![1, 2, 3]
}

#[test]
fn attack_with_raising_nature() {
    // base 100, IV 31, EV 252, level 100: core = (200 + 31 + 63) * 100 / 100
    // = 294; raised: ((294 + 5) * 11) / 10 = 328.
    let mut m = valid_member();
    m.nature = Nature {
        increased: Some(Stat::Attack),
        decreased: Some(Stat::Speed),
    };
    assert_eq!(m.stat(Stat::Attack), 328);
}

#[test]
fn attack_with_lowering_nature() {
    // base 60, IV 31, EV 0, level 100: core = (120 + 31) * 100 / 100 = 151;
    // lowered: ((151 + 5) * 9) / 10 = 140.
    let mut m = valid_member();
    m.nature = Nature {
        increased: Some(Stat::Attack),
        decreased: Some(Stat::Speed),
    };
    assert_eq!(m.stat(Stat::Speed), 140);
}

#[test]
fn accuracy_and_evasion_are_one() {
    let m = valid_member();
    assert_eq!(m.stat(Stat::Accuracy), 1);
    assert_eq!(m.stat(Stat::Evasion), 1);
}

#[test]
fn hp_adds_level_and_ten() {
    // base 80, IV 31, EV 252, level 100: core = (160 + 31 + 63) * 100 / 100
    // = 254; HP = 254 + 100 + 10 = 364.
    let m = valid_member();
    assert_eq!(m.stat(Stat::HP), 364);
}

#[test]
fn neutral_nature_gives_core_plus_five() {
    // base 100, IV 31, EV 252, level 100: core = 294; no scaling: 299.
    let m = valid_member();
    assert_eq!(m.stat(Stat::Attack), 299);
}

#[test]
fn special_stats_follow_the_nature() {
    // Sp.Atk base 50, IV 31, EV 0, level 100: core = (100 + 31) * 100 / 100
    // = 131; raised: ((131 + 5) * 11) / 10 = 149.
    // Sp.Def base 40, IV 31, EV 0, level 100: core = (80 + 31) * 100 / 100
    // = 111; lowered: ((111 + 5) * 9) / 10 = 104.
    let mut m = valid_member();
    m.nature = Nature {
        increased: Some(Stat::SpecialAttack),
        decreased: Some(Stat::SpecialDefense),
    };
    assert_eq!(m.stat(Stat::SpecialAttack), 149);
    assert_eq!(m.stat(Stat::SpecialDefense), 104);
}

#[test]
fn truncation_order_matters() {
    // base 10, IV 3, EV 6, level 33: EV/4 truncates to 1 first, then
    // core = (20 + 3 + 1) * 33 / 100 = 792 / 100 = 7; defense = 7 + 5 = 12.
    let mut m = valid_member();
    m.species.stats.defense = 10;
    m.ivs.defense = 3;
    m.evs.defense = 6;
    m.level = 33;
    assert_eq!(m.stat(Stat::Defense), 12);
}

#[test]
fn stat_monotonic_in_level_iv_and_ev() {
    let m = valid_member();
    let mut higher_level = m;
    higher_level.level = 100;
    let mut lower_level = m;
    lower_level.level = 51;
    assert!(lower_level.stat(Stat::Attack) <= higher_level.stat(Stat::Attack));
    let mut lower_iv = m;
    lower_iv.ivs.attack = 10;
    assert!(lower_iv.stat(Stat::Attack) <= m.stat(Stat::Attack));
    let mut lower_ev = m;
    lower_ev.evs.attack = 100;
    assert!(lower_ev.stat(Stat::Attack) <= m.stat(Stat::Attack));
}

#[test]
fn max_pp_without_pp_ups_is_base_pp() {
    let m = valid_member();
    assert_eq!(m.max_pp(0), 15);
}

#[test]
fn max_pp_with_three_pp_ups() {
    // 20 + 3 * (20 / 5) = 32; and with base 15: 15 + 3 * 3 = 24.
    let mut m = valid_member();
    assert_eq!(m.max_pp(1), 32);
    m.moves[1] = Some(Move { id: 2, pp: 15 });
    assert_eq!(m.max_pp(1), 24);
}

#[test]
fn max_pp_of_empty_slot_is_zero() {
    let m = valid_member();
    assert_eq!(m.max_pp(2), 0);
    assert_eq!(m.max_pp(3), 0);
}

#[test]
fn valid_member_verifies() {
    let m = valid_member();
    assert!(m.verify(false, &legal_moves()));
    assert!(m.verify(true, &legal_moves()));
}

#[test]
fn ev_sum_boundary() {
    let mut m = valid_member();
    m.evs.defense = 6; // sum 510
    assert!(m.verify(false, &legal_moves()));
    m.evs.defense = 7; // sum 511
    assert!(!m.verify(false, &legal_moves()));
}

#[test]
fn iv_boundary() {
    let mut m = valid_member();
    m.ivs.speed = 31;
    assert!(m.verify(false, &legal_moves()));
    m.ivs.speed = 32;
    assert!(!m.verify(false, &legal_moves()));
}

#[test]
fn empty_moveset_rejected() {
    let mut m = valid_member();
    m.moves = [None, None, None, None];
    assert!(!m.verify(false, &legal_moves()));
    assert!(!m.verify(true, &legal_moves()));
}

#[test]
fn duplicate_move_rejected_even_when_skipped() {
    let mut m = valid_member();
    m.moves[2] = Some(Move { id: 1, pp: 35 });
    assert!(!m.verify(false, &legal_moves()));
    assert!(!m.verify(true, &legal_moves()));
}

#[test]
fn skip_moveset_bypasses_only_legality() {
    let mut m = valid_member();
    m.moves[2] = Some(Move { id: 99, pp: 10 });
    assert!(!m.verify(false, &legal_moves()));
    assert!(m.verify(true, &legal_moves()));
}

#[test]
fn gender_must_match_gender_rate() {
    let mut m = valid_member();
    m.species.gender_rate = -1;
    assert!(!m.verify(false, &legal_moves()));
    m.gender = Gender::Genderless;
    assert!(m.verify(false, &legal_moves()));
    m.species.gender_rate = 4;
    assert!(!m.verify(false, &legal_moves()));
}

#[test]
fn ability_must_be_a_species_slot() {
    let mut m = valid_member();
    m.ability = 9; // the second slot
    assert!(m.verify(false, &legal_moves()));
    m.ability = 11; // neither slot
    assert!(!m.verify(false, &legal_moves()));
    m.species.second_ability = None;
    m.ability = 7;
    assert!(m.verify(false, &legal_moves()));
}

#[test]
fn held_item_must_be_holdable() {
    let mut m = valid_member();
    m.held = Some(Item { holdable: true });
    assert!(m.verify(false, &legal_moves()));
    m.held = Some(Item { holdable: false });
    assert!(!m.verify(false, &legal_moves()));
}

#[test]
fn pp_ups_bounded_by_three() {
    let mut m = valid_member();
    m.pp_ups = [3, 3, 3, 3];
    assert!(m.verify(false, &legal_moves()));
    m.pp_ups[3] = 4;
    assert!(!m.verify(false, &legal_moves()));
}

#[test]
fn level_bounds() {
    let mut m = valid_member();
    m.level = 1;
    assert!(m.verify(false, &legal_moves()));
    m.level = 100;
    assert!(m.verify(false, &legal_moves()));
    m.level = 0;
    assert!(!m.verify(false, &legal_moves()));
    m.level = 101;
    assert!(!m.verify(false, &legal_moves()));
}
