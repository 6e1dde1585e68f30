use esk::combat::Stat;
use esk::element::El;
use esk::error::CombatError;
use esk::scalar::Scalar;

fn s(x: f64) -> Scalar {
    Scalar { raw: (x * 1_000_000.0).round() as i64 }
}

fn stat(el: El, el_deg: f64, hp: f64, mag: u32, spr: u32, vit: u32, atk: u32) -> Stat {
    Stat { el, el_deg: s(el_deg), hp: s(hp), mag, spr, vit, atk, spd: 1 }
}

const ALL: [El; 3] = [El::LAND, El::SEA, El::SKY];

#[test]
fn no_element_is_weak_against_itself() {
    for e in ALL {
        assert!(!e.is_weak(e));
    }
}

#[test]
fn each_element_beats_one_and_loses_to_one() {
    for e in ALL {
        let beaten: Vec<El> = ALL.iter().copied().filter(|o| e.is_weak(*o)).collect();
        let beating: Vec<El> = ALL.iter().copied().filter(|o| o.is_weak(e)).collect();
        assert_eq!(beaten.len(), 1);
        assert_eq!(beating.len(), 1);
        assert_ne!(beaten[0], e);
        assert_ne!(beating[0], e);
        assert_ne!(beaten[0], beating[0]);
    }
}

#[test]
fn the_cycle_is_land_sea_sky() {
    assert!(El::LAND.is_weak(El::SEA));
    assert!(El::SEA.is_weak(El::SKY));
    assert!(El::SKY.is_weak(El::LAND));
    assert!(!El::SEA.is_weak(El::LAND));
    assert!(!El::SKY.is_weak(El::SEA));
    assert!(!El::LAND.is_weak(El::SKY));
}

#[test]
fn the_relation_is_not_symmetric() {
    for a in ALL {
        for b in ALL {
            assert!(!(a.is_weak(b) && b.is_weak(a)));
        }
    }
}

#[test]
fn element_signs() {
    assert_eq!(El::LAND.to_string(), "🜃");
    assert_eq!(El::SKY.to_string(), "🜁");
    assert_eq!(El::SEA.to_string(), "🜄");
}

#[test]
fn element_default_is_land() {
    assert_eq!(El::default(), El::LAND);
}

#[test]
fn stat_default_is_all_zero() {
    let d = Stat::default();
    assert_eq!(
        d,
        Stat {
            el: El::LAND,
            el_deg: Scalar::zero(),
            hp: Scalar::zero(),
            mag: 0,
            spr: 0,
            vit: 0,
            atk: 0,
            spd: 0
        }
    );
}

#[test]
fn even_match_has_power_ratio_one() {
    for n in [1u32, 2, 3, 7, 1000, 999_983, u32::MAX] {
        let a = stat(El::LAND, 1.0, 10.0, n, 5, 9, n);
        let d = stat(El::LAND, 1.0, 10.0, 3, n, n, 8);
        assert_eq!(a.power_ratio(&d, true), Ok(Scalar::one()));
        assert_eq!(a.power_ratio(&d, false), Ok(Scalar::one()));
    }
}

#[test]
fn power_ratio_keeps_fractions() {
    let a = stat(El::LAND, 1.0, 10.0, 1, 0, 0, 3);
    let d = stat(El::LAND, 1.0, 10.0, 0, 2, 4, 0);
    assert_eq!(a.power_ratio(&d, true), Ok(s(0.5)));
    assert_eq!(a.power_ratio(&d, false), Ok(s(0.75)));
}

#[test]
fn power_ratio_picks_by_kind_of_attack() {
    let a = stat(El::LAND, 1.0, 10.0, 6, 100, 100, 9);
    let d = stat(El::LAND, 1.0, 10.0, 100, 2, 3, 100);
    assert_eq!(a.power_ratio(&d, true), Ok(s(3.0)));
    assert_eq!(a.power_ratio(&d, false), Ok(s(3.0)));
    let d2 = stat(El::LAND, 1.0, 10.0, 100, 3, 2, 100);
    assert_eq!(a.power_ratio(&d2, true), Ok(s(2.0)));
    assert_eq!(a.power_ratio(&d2, false), Ok(s(4.5)));
}

#[test]
fn power_ratio_refuses_zero_resistance() {
    let a = stat(El::LAND, 1.0, 10.0, 1, 1, 1, 1);
    let no_spr = stat(El::LAND, 1.0, 10.0, 1, 0, 1, 1);
    let no_vit = stat(El::LAND, 1.0, 10.0, 1, 1, 0, 1);
    assert_eq!(a.power_ratio(&no_spr, true), Err(CombatError::InvalidStat));
    assert_eq!(a.power_ratio(&no_spr, false), Ok(Scalar::one()));
    assert_eq!(a.power_ratio(&no_vit, false), Err(CombatError::InvalidStat));
    assert_eq!(a.power_ratio(&no_vit, true), Ok(Scalar::one()));
}

#[test]
fn elemental_factor_is_own_degree_on_advantage() {
    let a = stat(El::LAND, 2.0, 10.0, 1, 1, 1, 1);
    let d = stat(El::SEA, 4.0, 10.0, 1, 1, 1, 1);
    assert_eq!(a.elemental_factor(&d), Ok(s(2.0)));
}

#[test]
fn elemental_factor_swapped_is_the_reciprocal() {
    for deg in [0.5, 1.0, 2.0, 4.0, 8.0, 1.25] {
        let a = stat(El::SEA, deg, 10.0, 1, 1, 1, 1);
        let d = stat(El::SKY, 3.0, 10.0, 1, 1, 1, 1);
        assert_eq!(a.elemental_factor(&d), Ok(s(deg)));
        assert_eq!(d.elemental_factor(&a), Ok(s(1.0 / deg)));
        assert_eq!(d.elemental_factor(&a), Ok(s(deg).recip().unwrap()));
    }
}

#[test]
fn elemental_factor_divides_between_equal_elements() {
    let a = stat(El::SKY, 2.0, 10.0, 1, 1, 1, 1);
    let d = stat(El::SKY, 4.0, 10.0, 1, 1, 1, 1);
    assert_eq!(a.elemental_factor(&d), Ok(s(0.25)));
    assert_eq!(d.elemental_factor(&a), Ok(s(0.5)));
}

#[test]
fn elemental_factor_refuses_zero_degree_only_as_divisor() {
    let zero_deg = stat(El::LAND, 0.0, 10.0, 1, 1, 1, 1);
    let sea = stat(El::SEA, 2.0, 10.0, 1, 1, 1, 1);
    let sky = stat(El::SKY, 2.0, 10.0, 1, 1, 1, 1);
    assert_eq!(sky.elemental_factor(&zero_deg), Ok(s(2.0)));
    assert_eq!(sea.elemental_factor(&zero_deg), Err(CombatError::InvalidStat));
    assert_eq!(zero_deg.elemental_factor(&zero_deg), Err(CombatError::InvalidStat));
    assert_eq!(zero_deg.elemental_factor(&sea), Ok(Scalar::zero()));
    assert_eq!(zero_deg.elemental_factor(&sky), Ok(s(0.5)));
}

#[test]
fn hit_with_advantage_quadruples() {
    let mut attacker = stat(El::LAND, 2.0, 10.0, 4, 9, 9, 9);
    let mut defender = stat(El::SEA, 7.0, 10.0, 9, 2, 9, 9);
    assert_eq!(attacker.power_ratio(&defender, true), Ok(s(2.0)));
    assert_eq!(attacker.elemental_factor(&defender), Ok(s(2.0)));
    assert_eq!(attacker.damage(&defender, true, s(1.0)), Ok(s(4.0)));
    assert_eq!(attacker.hit(&mut defender, true, s(1.0)), Ok(()));
    assert_eq!(defender.hp, s(6.0));
}

#[test]
fn hit_changes_only_the_defenders_hit_points() {
    let mut attacker = stat(El::LAND, 2.0, 10.0, 4, 9, 9, 9);
    let mut defender = stat(El::SEA, 7.0, 10.0, 9, 2, 9, 9);
    let before_attacker = attacker;
    let before_defender = defender;
    assert_eq!(attacker.hit(&mut defender, true, s(1.0)), Ok(()));
    assert_eq!(attacker, before_attacker);
    assert_eq!(defender, Stat { hp: s(6.0), ..before_defender });
}

#[test]
fn hit_without_advantage_divides_by_the_defenders_degree() {
    let mut attacker = stat(El::SEA, 2.0, 10.0, 9, 9, 9, 6);
    let mut defender = stat(El::LAND, 4.0, 10.0, 9, 9, 3, 9);
    assert_eq!(attacker.hit(&mut defender, false, s(1.0)), Ok(()));
    assert_eq!(defender.hp, s(9.5));
}

#[test]
fn hit_scales_with_the_modifier() {
    let mut attacker = stat(El::LAND, 2.0, 10.0, 4, 9, 9, 9);
    let mut defender = stat(El::SEA, 7.0, 10.0, 9, 2, 9, 9);
    assert_eq!(attacker.hit(&mut defender, true, s(0.0)), Ok(()));
    assert_eq!(defender.hp, s(10.0));
    assert_eq!(attacker.hit(&mut defender, true, s(0.5)), Ok(()));
    assert_eq!(defender.hp, s(8.0));
    assert_eq!(attacker.hit(&mut defender, true, s(-1.0)), Ok(()));
    assert_eq!(defender.hp, s(12.0));
}

#[test]
fn hit_points_may_go_below_zero() {
    let mut attacker = stat(El::LAND, 2.0, 10.0, 40, 9, 9, 9);
    let mut defender = stat(El::SEA, 7.0, 10.0, 9, 2, 9, 9);
    assert_eq!(attacker.hit(&mut defender, true, s(1.0)), Ok(()));
    assert_eq!(defender.hp, s(-30.0));
}

#[test]
fn hit_keeps_sub_unity_ratios() {
    let mut attacker = stat(El::LAND, 1.0, 10.0, 1, 9, 9, 9);
    let mut defender = stat(El::LAND, 1.0, 10.0, 9, 2, 9, 9);
    assert_eq!(attacker.hit(&mut defender, true, s(1.0)), Ok(()));
    assert_eq!(defender.hp, s(9.5));
}

#[test]
fn hit_refuses_zero_denominators_and_changes_nothing() {
    let mut attacker = stat(El::SEA, 2.0, 10.0, 4, 4, 4, 4);
    let mut no_spr = stat(El::SKY, 2.0, 10.0, 1, 0, 1, 1);
    let mut no_vit = stat(El::SKY, 2.0, 10.0, 1, 1, 0, 1);
    let mut no_deg = stat(El::LAND, 0.0, 10.0, 1, 1, 1, 1);
    let (a, b, c) = (no_spr, no_vit, no_deg);
    assert_eq!(attacker.hit(&mut no_spr, true, s(1.0)), Err(CombatError::InvalidStat));
    assert_eq!(attacker.hit(&mut no_vit, false, s(1.0)), Err(CombatError::InvalidStat));
    assert_eq!(attacker.hit(&mut no_deg, true, s(1.0)), Err(CombatError::InvalidStat));
    assert_eq!(attacker.hit(&mut no_deg, false, s(1.0)), Err(CombatError::InvalidStat));
    assert_eq!((no_spr, no_vit, no_deg), (a, b, c));
    assert_eq!(attacker.damage(&no_spr, true, s(1.0)), Err(CombatError::InvalidStat));
    assert_eq!(attacker.hit(&mut no_spr, false, s(1.0)), Ok(()));
    assert_eq!(no_spr.hp, s(2.0));
}

#[test]
fn error_texts() {
    assert_eq!(CombatError::InvalidStat.to_string(), "invalid stat: division by zero");
    assert_eq!(
        CombatError::UnresolvedTether.to_string(),
        "unresolved tether: the slot holds no body"
    );
    assert_eq!(
        CombatError::DegenerateVector.to_string(),
        "degenerate vector: the point is the body's position"
    );
}

#[test]
fn factors_cancel_when_the_reciprocal_is_exact() {
    for deg in [0.5, 1.0, 2.0, 4.0, 1.25, 0.000001, 1_000_000.0, -2.0] {
        let a = stat(El::SKY, deg, 10.0, 1, 1, 1, 1);
        let d = stat(El::LAND, 3.0, 10.0, 1, 1, 1, 1);
        let there = a.elemental_factor(&d).unwrap();
        let back = d.elemental_factor(&a).unwrap();
        assert_eq!(there.saturating_mul(back), Scalar::one());
    }
}

#[test]
fn neutral_and_annulling_modifier() {
    let attacker = stat(El::SEA, 3.0, 10.0, 7, 1, 1, 5);
    let defender = stat(El::SEA, 3.0, 10.0, 1, 3, 2, 1);
    let ratio = attacker.power_ratio(&defender, true).unwrap();
    let factor = attacker.elemental_factor(&defender).unwrap();
    assert_eq!(ratio, Scalar { raw: 2_333_333 });
    assert_eq!(factor, Scalar { raw: 333_333 });
    assert_eq!(attacker.damage(&defender, true, s(1.0)), Ok(ratio.saturating_mul(factor)));
    assert_eq!(attacker.damage(&defender, true, s(1.0)), Ok(Scalar { raw: 777_776 }));
    assert_eq!(attacker.damage(&defender, true, s(0.0)), Ok(Scalar::zero()));
}
