use rogue_core::components::{Collision, GameStateLabel, NameTag};
use rogue_core::rng::RandomNumberGenerator;

#[test]
fn test_dice_rolls() {
    let mut rng = RandomNumberGenerator::new();

    let one_d_one = rng.roll_dice(1, 1);
    let three_d_six = rng.roll_dice(3, 6);
    let ten_d_twelve = rng.roll_dice(10, 12);

    assert_eq!(1, one_d_one);
    assert!(three_d_six >= 3 && three_d_six <= 18);
    assert!(ten_d_twelve >= 10 && ten_d_twelve <= 120);
}

#[test]
fn range_respects_inclusive_bounds() {
    let mut rng = RandomNumberGenerator::new();

    for _ in 0..50 {
        let v = rng.range(3, 7);
        assert!((3..=7).contains(&v));
    }
    assert_eq!(5, rng.range(5, 5));
}

#[test]
fn name_tags_carry_their_text() {
    let tag = NameTag::new("Mended");
    assert_eq!("Mended", tag.text);

    // The marker components exist and compare as units.
    assert_eq!(Collision, Collision);
    assert_eq!(GameStateLabel, GameStateLabel);
}
