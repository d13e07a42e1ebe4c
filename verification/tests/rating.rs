use itunes_com::sys::LONG;
use itunes_com::wrappers::types::Rating;

fn bucket(long: LONG) -> Rating {
    Rating::from(long)
}

#[test]
fn rating_85_is_four_stars_and_goes_back_as_80() {
    let rating = Rating::from(85);
    assert_eq!(rating, Rating::Four);
    assert_eq!(LONG::from(rating), 80);
}

#[test]
fn rating_boundary_19_20() {
    assert_eq!(bucket(19), Rating::Unrated);
    assert_eq!(bucket(20), Rating::One);
}

#[test]
fn rating_boundary_39_40() {
    assert_eq!(bucket(39), Rating::One);
    assert_eq!(bucket(40), Rating::Two);
}

#[test]
fn rating_boundary_59_60() {
    assert_eq!(bucket(59), Rating::Two);
    assert_eq!(bucket(60), Rating::Three);
}

#[test]
fn rating_boundary_79_80() {
    assert_eq!(bucket(79), Rating::Three);
    assert_eq!(bucket(80), Rating::Four);
}

#[test]
fn rating_boundary_99_100() {
    assert_eq!(bucket(99), Rating::Four);
    assert_eq!(bucket(100), Rating::Five);
}

#[test]
fn rating_of_zero_and_of_numbers_out_of_range() {
    assert_eq!(bucket(0), Rating::Unrated);
    assert_eq!(bucket(-1), Rating::Unrated);
    assert_eq!(bucket(LONG::MIN), Rating::Unrated);
    assert_eq!(bucket(101), Rating::Five);
    assert_eq!(bucket(LONG::MAX), Rating::Five);
}

#[test]
fn rating_to_long_gives_twenty_points_a_star() {
    assert_eq!(LONG::from(Rating::Unrated), 0);
    assert_eq!(LONG::from(Rating::One), 20);
    assert_eq!(LONG::from(Rating::Two), 40);
    assert_eq!(LONG::from(Rating::Three), 60);
    assert_eq!(LONG::from(Rating::Four), 80);
    assert_eq!(LONG::from(Rating::Five), 100);
}

#[test]
fn rating_survives_the_way_to_the_host_and_back() {
    for rating in [Rating::Unrated, Rating::One, Rating::Two, Rating::Three, Rating::Four, Rating::Five] {
        assert_eq!(Rating::from(LONG::from(rating)), rating);
    }
}

#[test]
fn rating_rounds_every_number_down_to_a_multiple_of_twenty() {
    for long in 0..=100 {
        assert_eq!(LONG::from(Rating::from(long)), long - long % 20);
    }
}

#[test]
fn rating_from_stars() {
    assert_eq!(Rating::from_stars(None), Rating::Unrated);
    assert_eq!(Rating::from_stars(Some(0)), Rating::Unrated);
    assert_eq!(Rating::from_stars(Some(1)), Rating::One);
    assert_eq!(Rating::from_stars(Some(2)), Rating::Two);
    assert_eq!(Rating::from_stars(Some(3)), Rating::Three);
    assert_eq!(Rating::from_stars(Some(4)), Rating::Four);
    assert_eq!(Rating::from_stars(Some(5)), Rating::Five);
    assert_eq!(Rating::from_stars(Some(6)), Rating::Unrated);
    assert_eq!(Rating::from_stars(Some(255)), Rating::Unrated);
}

#[test]
fn rating_stars() {
    assert_eq!(Rating::Unrated.stars(), None);
    assert_eq!(Rating::One.stars(), Some(1));
    assert_eq!(Rating::Two.stars(), Some(2));
    assert_eq!(Rating::Three.stars(), Some(3));
    assert_eq!(Rating::Four.stars(), Some(4));
    assert_eq!(Rating::Five.stars(), Some(5));
}

#[test]
fn rating_stars_round_trip() {
    for stars in 1..=5u8 {
        assert_eq!(Rating::from_stars(Some(stars)).stars(), Some(stars));
    }
    assert_eq!(Rating::from_stars(Rating::Unrated.stars()), Rating::Unrated);
}
