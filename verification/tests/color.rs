use gravity_sim::color::{
    mass_to_color, Color, ObjectColor, CHANNEL_HIGH, CHANNEL_LOW, COLOR_MOD, COLOR_SEGMENT,
};

#[test]
fn each_band_has_its_colour() {
    assert_eq!(mass_to_color(0), Color(255, 51, 51));
    assert_eq!(mass_to_color(49_999_999), Color(255, 51, 51));
    assert_eq!(mass_to_color(50_000_000), Color(255, 255, 51));
    assert_eq!(mass_to_color(99_999_999), Color(255, 255, 51));
    assert_eq!(mass_to_color(100_000_000), Color(51, 255, 51));
    assert_eq!(mass_to_color(149_999_999), Color(51, 255, 51));
    assert_eq!(mass_to_color(150_000_000), Color(51, 255, 255));
    assert_eq!(mass_to_color(199_999_999), Color(51, 255, 255));
    assert_eq!(mass_to_color(200_000_000), Color(51, 51, 255));
    assert_eq!(mass_to_color(249_999_999), Color(51, 51, 255));
    assert_eq!(mass_to_color(250_000_000), Color(255, 51, 255));
    assert_eq!(mass_to_color(299_999_999), Color(255, 51, 255));
}

#[test]
fn colours_repeat_every_color_mod() {
    assert_eq!(mass_to_color(300_000_000), Color(255, 51, 51));
    assert_eq!(mass_to_color(360_000_000), mass_to_color(60_000_000));
    for mass in [0usize, 1, 75_000_000, 123_456_789, 299_999_999] {
        assert_eq!(mass_to_color(mass + COLOR_MOD), mass_to_color(mass));
        assert_eq!(mass_to_color(mass + 7 * COLOR_MOD), mass_to_color(mass));
    }
}

#[test]
fn extreme_masses_have_a_colour() {
    let band = (usize::MAX % COLOR_MOD) / COLOR_SEGMENT;
    let expected = [
        Color(255, 51, 51),
        Color(255, 255, 51),
        Color(51, 255, 51),
        Color(51, 255, 255),
        Color(51, 51, 255),
        Color(255, 51, 255),
    ];
    assert_eq!(mass_to_color(usize::MAX), expected[band]);
}

#[test]
fn colour_constants_are_what_the_bands_use() {
    assert_eq!(COLOR_SEGMENT * 6, COLOR_MOD);
    assert_eq!(CHANNEL_LOW, 51);
    assert_eq!(CHANNEL_HIGH, 255);
}

#[test]
fn user_colour_wins_over_mass() {
    let chosen = ObjectColor::UserSet(Color(1, 2, 3));
    assert_eq!(chosen.color_for(0), Color(1, 2, 3));
    assert_eq!(chosen.color_for(200_000_000), Color(1, 2, 3));
    assert_eq!(ObjectColor::FromMass.color_for(200_000_000), Color(51, 51, 255));
}

#[test]
fn a_colour_converts_to_a_user_choice() {
    let converted: ObjectColor = Color(9, 8, 7).into();
    assert_eq!(converted, ObjectColor::UserSet(Color(9, 8, 7)));
    assert_eq!(ObjectColor::from(Color(0, 0, 0)), ObjectColor::UserSet(Color(0, 0, 0)));
}
