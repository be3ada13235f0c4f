use gray_scott_reaction_diffusion::fraction::{Fraction, Position};
use gray_scott_reaction_diffusion::gradient::{ColorGradient, GradientLut, Spectrum};
use gray_scott_reaction_diffusion::gradient_presets::{
    new_magma, new_monochrome, new_pink_and_blue, new_protanopia_friendly, new_rainbow,
};
use gray_scott_reaction_diffusion::utils::Interpolate;

const BLACK: [u8; 4] = [0, 0, 0, 255];
const WHITE: [u8; 4] = [255, 255, 255, 255];

fn at(num: u16, den: u16) -> Position {
    Position::new(num, den).unwrap()
}

fn weight(num: u64, den: u64) -> Fraction {
    Fraction::new(num, den).unwrap()
}

fn places(spectrum: &Spectrum) -> Vec<(u16, u16)> {
    spectrum.stops().iter().map(|stop| (stop.0.num, stop.0.den)).collect()
}

#[test]
fn fractions_are_made_from_sound_parts_only() {
    assert!(Position::new(1, 0).is_none());
    assert!(Position::new(0, 0).is_none());
    assert!(Position::new(7, 3).is_some());
    assert!(Fraction::new(1, 0).is_none());
    assert!(Fraction::new(3, 2).is_none());
    assert!(Fraction::new(2, 2).is_some());
    assert_eq!(Position::zero().num, 0);
    assert_eq!((Position::one().num, Position::one().den), (1, 1));
}

#[test]
fn places_are_compared_by_value() {
    assert!(at(1, 2).reaches(at(2, 4)));
    assert!(at(2, 4).reaches(at(1, 2)));
    assert!(at(2, 3).reaches(at(1, 2)));
    assert!(!at(1, 2).reaches(at(2, 3)));
    assert!(at(1, 3).is_before(at(1, 2)));
    assert!(!at(1, 2).is_before(at(2, 4)));
    assert!(at(65535, 65535).reaches(at(65534, 65535)));
    assert!(at(65534, 65535).is_before(at(65535, 65535)));
}

#[test]
fn places_beyond_the_end_are_clamped_to_it() {
    let clamped = at(7, 3).clamp();
    assert_eq!((clamped.num, clamped.den), (3, 3));
    let kept = at(2, 3).clamp();
    assert_eq!((kept.num, kept.den), (2, 3));
    let again = clamped.clamp();
    assert_eq!((again.num, again.den), (3, 3));
}

#[test]
fn relative_place_is_the_exact_quotient() {
    // 1/2 on the way from 1/4 to 3/4 is one half
    let part = at(1, 2).relative_to(at(1, 4), at(3, 4));
    assert_eq!(part.num * 2, part.den);
    // 40/100 on the way from 0/1 to 80/100 is one half
    let part = at(40, 100).relative_to(at(0, 1), at(80, 100));
    assert_eq!(part.num * 2, part.den);
    let start = at(1, 4).relative_to(at(1, 4), at(3, 4));
    assert_eq!(start.num, 0);
    let end = at(3, 4).relative_to(at(1, 4), at(6, 8));
    assert_eq!(end.num, end.den);
}

#[test]
fn elapsed_part_stops_at_the_whole() {
    let half = Fraction::of_elapsed(2500, 5000);
    assert_eq!((half.num, half.den), (2500, 5000));
    assert!(!half.is_complete());
    let done = Fraction::of_elapsed(7000, 5000);
    assert_eq!((done.num, done.den), (5000, 5000));
    assert!(done.is_complete());
    let at_once = Fraction::of_elapsed(0, 0);
    assert!(at_once.is_complete());
    assert!(at_once.den > 0);
}

#[test]
fn channels_are_mixed_with_the_fraction_cut_off() {
    assert_eq!(0u8.interpolate(&255, weight(1, 2)), 127);
    assert_eq!(255u8.interpolate(&0, weight(1, 2)), 127);
    assert_eq!(10u8.interpolate(&20, weight(1, 4)), 12);
    assert_eq!(10u8.interpolate(&20, weight(3, 4)), 17);
    assert_eq!(20u8.interpolate(&10, weight(1, 3)), 16);
    assert_eq!(7u8.interpolate(&7, weight(1, 3)), 7);
    assert_eq!(3u8.interpolate(&200, weight(0, 9)), 3);
    assert_eq!(3u8.interpolate(&200, weight(9, 9)), 200);
    assert_eq!(
        0u8.interpolate(&255, weight(u64::MAX / 2, u64::MAX)),
        127
    );
    assert_eq!(255u8.interpolate(&255, weight(1, u64::MAX)), 255);
}

#[test]
fn colours_are_mixed_channel_by_channel() {
    let a = [0, 100, 200, 255];
    let b = [100, 0, 201, 0];
    assert_eq!(a.interpolate(&b, weight(1, 2)), [50, 50, 200, 127]);
    assert_eq!(a.interpolate(&b, weight(0, 1)), a);
    assert_eq!(a.interpolate(&b, weight(1, 1)), b);
}

#[test]
fn a_spectrum_of_two_colours_has_its_stops_at_the_ends() {
    let spectrum = Spectrum::from_colors([10, 20, 30, 255], [40, 50, 60, 255]);
    assert_eq!(places(&spectrum), vec![(0, 1), (1, 1)]);
    assert_eq!(spectrum.stops()[0].1, [10, 20, 30, 255]);
    assert_eq!(spectrum.stops()[1].1, [40, 50, 60, 255]);
}

#[test]
fn stops_are_kept_in_ascending_order() {
    let mut spectrum = Spectrum::from_colors(BLACK, WHITE);
    spectrum.add_color_at_t(at(80, 100), [1, 1, 1, 255]);
    spectrum.add_color_at_t(at(1, 4), [2, 2, 2, 255]);
    spectrum.add_color_at_t(at(1, 2), [3, 3, 3, 255]);
    assert_eq!(
        places(&spectrum),
        vec![(0, 1), (1, 4), (1, 2), (80, 100), (1, 1)]
    );
}

#[test]
fn a_stop_at_a_taken_place_goes_behind_the_stops_there() {
    let mut spectrum = Spectrum::from_colors(BLACK, WHITE);
    spectrum.add_color_at_t(at(1, 2), [1, 1, 1, 255]);
    spectrum.add_color_at_t(at(2, 4), [2, 2, 2, 255]);
    spectrum.add_color_at_t(at(0, 5), [3, 3, 3, 255]);
    spectrum.add_color_at_t(at(5, 5), [4, 4, 4, 255]);
    let colors: Vec<[u8; 4]> = spectrum.stops().iter().map(|stop| stop.1).collect();
    assert_eq!(
        colors,
        vec![
            BLACK,
            [3, 3, 3, 255],
            [1, 1, 1, 255],
            [2, 2, 2, 255],
            WHITE,
            [4, 4, 4, 255]
        ]
    );
}

#[test]
fn a_stop_beyond_the_end_is_put_at_the_end() {
    let mut spectrum = Spectrum::from_colors(BLACK, WHITE);
    spectrum.add_color_at_t(at(9, 4), [5, 5, 5, 255]);
    assert_eq!(places(&spectrum), vec![(0, 1), (1, 1), (4, 4)]);
    // the first stop at the end still gives the colour there
    assert_eq!(spectrum.color_at_t(at(1, 1)), WHITE);
    assert_eq!(spectrum.color_at_t(at(3, 2)), WHITE);
}

#[test]
fn colour_between_two_stops_is_their_blend() {
    let spectrum = Spectrum::from_colors(BLACK, WHITE);
    assert_eq!(spectrum.color_at_t(at(1, 2)), [127, 127, 127, 255]);
    assert_eq!(spectrum.color_at_t(at(1, 5)), [51, 51, 51, 255]);
    assert_eq!(spectrum.color_at_t(at(100, 255)), [100, 100, 100, 255]);
    let mut spectrum = Spectrum::from_colors(BLACK, WHITE);
    spectrum.add_color_at_t(at(1, 2), [200, 0, 100, 255]);
    assert_eq!(spectrum.color_at_t(at(1, 4)), [100, 0, 50, 255]);
    assert_eq!(spectrum.color_at_t(at(1, 2)), [200, 0, 100, 255]);
    assert_eq!(spectrum.color_at_t(at(3, 4)), [227, 127, 177, 255]);
}

#[test]
fn colour_at_the_ends() {
    let spectrum = Spectrum::from_colors(BLACK, [9, 8, 7, 6]);
    assert_eq!(spectrum.color_at_t(at(0, 1)), BLACK);
    assert_eq!(spectrum.color_at_t(at(1, 1)), [9, 8, 7, 6]);
    assert_eq!(spectrum.color_at_t(at(0, 9)), BLACK);
    assert_eq!(spectrum.color_at_t(at(9, 9)), [9, 8, 7, 6]);
    // at the very start the colour is that of the first stop, whatever it holds
    let spectrum = Spectrum::from_colors([200, 0, 0, 255], [0, 0, 200, 255]);
    assert_eq!(spectrum.color_at_t(at(0, 1)), [200, 0, 0, 255]);
    assert_eq!(spectrum.color_at_t(at(1, 1)), [0, 0, 200, 255]);
    assert_eq!(spectrum.color_at_t(at(1, 2)), [100, 0, 100, 255]);
    let spectrum = Spectrum::from_colors([10, 20, 30, 255], [200, 100, 50, 255]);
    assert_eq!(spectrum.color_at_t(at(0, 1)), [10, 20, 30, 255]);
    assert_eq!(spectrum.color_at_t(at(0, 255)), [10, 20, 30, 255]);
    assert_eq!(spectrum.color_at_t(at(1, 1)), [200, 100, 50, 255]);
    assert_eq!(spectrum.color_at_t(at(255, 255)), [200, 100, 50, 255]);
    // just behind the start the first stop still has nearly all the weight
    assert_eq!(spectrum.color_at_t(at(1, 255)), [10, 20, 30, 255]);
    assert_eq!(spectrum.color_at_t(at(1, 2)), [105, 60, 40, 255]);
}

#[test]
fn colour_at_the_ends_stays_when_stops_are_added() {
    let mut spectrum = Spectrum::from_colors([10, 20, 30, 255], [200, 100, 50, 255]);
    spectrum.add_color_at_t(at(0, 1), [1, 1, 1, 255]);
    spectrum.add_color_at_t(at(1, 1), [2, 2, 2, 255]);
    spectrum.add_color_at_t(at(1, 2), [3, 3, 3, 255]);
    assert_eq!(spectrum.color_at_t(at(0, 1)), [10, 20, 30, 255]);
    assert_eq!(spectrum.color_at_t(at(1, 1)), [200, 100, 50, 255]);
}

#[test]
fn a_gradient_clamps_the_place() {
    let gradient = ColorGradient::from_colors(BLACK, [200, 100, 50, 255]);
    assert_eq!(gradient.color_at_t(at(3, 2)), [200, 100, 50, 255]);
    assert_eq!(gradient.color_at_t(at(3, 2)), gradient.color_at_t(at(1, 1)));
    assert_eq!(gradient.color_at_t(at(65535, 1)), [200, 100, 50, 255]);
    let gradient = ColorGradient::from_colors([10, 20, 30, 255], [200, 100, 50, 255]);
    assert_eq!(gradient.color_at_t(at(0, 1)), [10, 20, 30, 255]);
    assert_eq!(gradient.color_at_t_u8(0), [10, 20, 30, 255]);
    assert_eq!(gradient.color_at_t_u8(255), [200, 100, 50, 255]);
    assert_eq!(gradient.color_at_t(at(7, 3)), [200, 100, 50, 255]);
}

#[test]
fn signed_places_are_clamped_on_both_sides() {
    let below = Position::from_signed(-3, 4).unwrap();
    assert_eq!((below.num, below.den), (0, 4));
    let inside = Position::from_signed(3, 4).unwrap();
    assert_eq!((inside.num, inside.den), (3, 4));
    let beyond = Position::from_signed(9, 4).unwrap();
    assert_eq!((beyond.num, beyond.den), (4, 4));
    let far = Position::from_signed(i64::MAX, 65535).unwrap();
    assert_eq!((far.num, far.den), (65535, 65535));
    let low = Position::from_signed(i64::MIN, 1).unwrap();
    assert_eq!((low.num, low.den), (0, 1));
    assert!(Position::from_signed(1, 0).is_none());
    let spectrum = Spectrum::from_colors([10, 20, 30, 255], [200, 100, 50, 255]);
    assert_eq!(spectrum.color_at_t(below), [10, 20, 30, 255]);
    assert_eq!(spectrum.color_at_t(beyond), [200, 100, 50, 255]);
}

#[test]
fn a_table_samples_the_spectrum_at_256_places() {
    let mut spectrum = Spectrum::from_colors(BLACK, WHITE);
    spectrum.add_color_at_t(at(60, 100), [255, 0, 0, 255]);
    let lut = GradientLut::from(&spectrum);
    for i in 0..=255u8 {
        assert_eq!(lut.color_at_t(i), spectrum.color_at_t(at(i as u16, 255)));
    }
    assert_eq!(lut.color_at_t(0), BLACK);
    assert_eq!(lut.color_at_t(153), [255, 0, 0, 255]);
    assert_eq!(lut.color_at_t(255), WHITE);
}

#[test]
fn two_tables_of_one_spectrum_are_the_same() {
    let mut spectrum = Spectrum::from_colors(BLACK, WHITE);
    spectrum.add_color_at_t(at(1, 3), [12, 200, 99, 255]);
    spectrum.add_color_at_t(at(2, 3), [250, 3, 77, 255]);
    let first = GradientLut::from(&spectrum);
    let second = GradientLut::from(&spectrum);
    for i in 0..=255u8 {
        assert_eq!(first.color_at_t(i), second.color_at_t(i));
    }
}

#[test]
fn a_gradient_answers_from_its_table() {
    let mut gradient = ColorGradient::from_colors(BLACK, WHITE);
    assert_eq!(gradient.color_at_t(at(1, 2)), [127, 127, 127, 255]);
    assert_eq!(gradient.color_at_t_u8(127), [127, 127, 127, 255]);
    assert_eq!(gradient.color_at_t(at(0, 1)), BLACK);
    assert_eq!(gradient.color_at_t(at(1, 1)), WHITE);
    // the table is built anew when a stop is added
    gradient.add_color_at_t(at(1, 2), [255, 0, 0, 255]);
    assert_eq!(gradient.color_at_t_u8(0), BLACK);
    assert_eq!(gradient.color_at_t_u8(255), WHITE);
    // entry 127 stands for 127/255, just before the new stop
    assert_eq!(gradient.color_at_t(at(1, 2)), [254, 0, 0, 255]);
    assert_eq!(gradient.color_at_t_u8(128), [255, 1, 1, 255]);
    // the place 2/3 is answered by entry 170
    assert_eq!(gradient.color_at_t(at(2, 3)), gradient.color_at_t_u8(170));
}

#[test]
fn presets_run_from_black_to_white() {
    let gradients = [
        new_pink_and_blue(),
        new_rainbow(),
        new_protanopia_friendly(),
        new_magma(),
        new_monochrome(),
    ];
    for gradient in gradients.iter() {
        assert_eq!(gradient.color_at_t_u8(0), BLACK);
        assert_eq!(gradient.color_at_t_u8(255), WHITE);
    }
}

#[test]
fn presets_hold_their_colours_at_their_stops() {
    let pink_and_blue = new_pink_and_blue();
    // 40/100, 60/100 and 80/100 are entries 102, 153 and 204
    assert_eq!(pink_and_blue.color_at_t_u8(102), [0, 0, 0, 255]);
    assert_eq!(pink_and_blue.color_at_t_u8(153), [255, 0, 0, 255]);
    assert_eq!(pink_and_blue.color_at_t_u8(204), [0, 20, 230, 255]);
    let rainbow = new_rainbow();
    assert_eq!(rainbow.color_at_t_u8(153), [29, 253, 49, 255]);
    let protanopia = new_protanopia_friendly();
    assert_eq!(protanopia.color_at_t_u8(51), [0, 0, 0, 255]);
    assert_eq!(protanopia.color_at_t_u8(102), [0, 0, 255, 255]);
    assert_eq!(protanopia.color_at_t_u8(153), [255, 255, 0, 255]);
    assert_eq!(protanopia.color_at_t_u8(204), [255, 0, 255, 255]);
    let magma = new_magma();
    assert_eq!(magma.color_at_t_u8(51), [0, 0, 4, 255]);
    assert_eq!(magma.color_at_t_u8(204), [251, 106, 74, 255]);
    let monochrome = new_monochrome();
    assert_eq!(monochrome.color_at_t_u8(51), [51, 51, 51, 255]);
    assert_eq!(monochrome.color_at_t_u8(102), [102, 102, 102, 255]);
    assert_eq!(monochrome.color_at_t_u8(230), [255, 255, 255, 255]);
}
