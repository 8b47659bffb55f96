//! Arithmetic helpers, the vector type, and the resource identifiers.

use gembounce::resource::{AssetId, AudioManager};
use gembounce::util::{clamp, clamp_fold, div_floor, isqrt, round_mult};
use gembounce::vec2::{default_vector2, Vec2};

#[test]
fn clamp_keeps_the_interval() {
    assert_eq!(clamp(5, 0, 10), 5);
    assert_eq!(clamp(-5, 0, 10), 0);
    assert_eq!(clamp(15, 0, 10), 10);
}

#[test]
fn clamp_fold_lets_the_lower_bound_win() {
    assert_eq!(clamp_fold(5, 0, 10), 5);
    assert_eq!(clamp_fold(5, 8, 3), 8);
}

#[test]
fn div_floor_rounds_towards_negative_infinity() {
    assert_eq!(div_floor(7, 2), 3);
    assert_eq!(div_floor(-7, 2), -4);
    assert_eq!(div_floor(-8, 2), -4);
    assert_eq!(div_floor(0, 5), 0);
}

#[test]
fn isqrt_floors_the_root() {
    assert_eq!(isqrt(0), 0);
    assert_eq!(isqrt(24), 4);
    assert_eq!(isqrt(25), 5);
    assert_eq!(isqrt(1_000_000_000_000), 1_000_000);
}

#[test]
fn round_mult_rounds_halves_away_from_zero() {
    assert_eq!(round_mult(6, 4), 8);
    assert_eq!(round_mult(5, 4), 4);
    assert_eq!(round_mult(-6, 4), -8);
    assert_eq!(round_mult(1_500, 1_000), 2_000);
    assert_eq!(round_mult(-1_500, 1_000), -2_000);
}

#[test]
fn vector_arithmetic_is_componentwise() {
    let a = Vec2 { x: 3, y: -2 };
    let b = Vec2 { x: 1, y: 5 };
    assert_eq!(a.add(b), Vec2 { x: 4, y: 3 });
    assert_eq!(a.sub(b), Vec2 { x: 2, y: -7 });
    assert_eq!(a.neg(), Vec2 { x: -3, y: 2 });
    assert_eq!(a.dot(b), 3 - 10);
    assert_eq!(a.norm_sqr(), 13);
    assert_eq!(default_vector2(), Vec2 { x: 0, y: 0 });
    assert_eq!(Vec2::new(7, 9), Vec2 { x: 7, y: 9 });
}

#[test]
fn audio_backend_always_comes_up() {
    assert!(AudioManager::new(()).is_ok());
}

#[test]
fn asset_ids_compare_by_variant() {
    assert_eq!(AssetId::Other(3), AssetId::Other(3));
    assert_ne!(AssetId::Other(3), AssetId::Other(4));
    assert_ne!(AssetId::Pump, AssetId::Gem);
}
