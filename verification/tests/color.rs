use julia::color::{iteration_to_tone, Color, ColorTable, Tone};
use palette::{FromColor, Hsv, Srgb};

fn tone_to_color(tone: Tone) -> Color {
    let hue = (tone.hue_num as f32) / (tone.hue_den as f32);
    let hsv: Hsv = Hsv::new(hue, tone.saturation as f32, tone.value as f32);
    let srgb: Srgb = Srgb::from_color(hsv);
    Color {
        red: (srgb.red * 255.0) as u8,
        green: (srgb.green * 255.0) as u8,
        blue: (srgb.blue * 255.0) as u8,
    }
}

#[test]
fn count_zero_has_hue_zero() {
    let tone = iteration_to_tone(0, 255);
    assert_eq!(tone, Tone { hue_num: 0, hue_den: 255, saturation: 1, value: 1 });
}

#[test]
fn count_zero_is_red() {
    assert_eq!(tone_to_color(iteration_to_tone(0, 255)), Color { red: 255, green: 0, blue: 0 });
}

#[test]
fn count_at_cap_has_value_zero() {
    let tone = iteration_to_tone(255, 255);
    assert_eq!(tone, Tone { hue_num: 91800, hue_den: 255, saturation: 1, value: 0 });
}

#[test]
fn count_at_cap_is_black() {
    assert_eq!(tone_to_color(iteration_to_tone(255, 255)), Color { red: 0, green: 0, blue: 0 });
    assert_eq!(tone_to_color(iteration_to_tone(7, 7)), Color { red: 0, green: 0, blue: 0 });
}

#[test]
fn hue_is_the_fraction_of_the_wheel() {
    let tone = iteration_to_tone(51, 255);
    assert_eq!(tone.hue_num, 18360);
    assert_eq!(tone.hue_den, 255);
    assert_eq!((tone.hue_num as f32) / (tone.hue_den as f32), 72.0);
    assert_eq!(tone.saturation, 1);
    assert_eq!(tone.value, 1);
}

#[test]
fn a_third_of_the_wheel_is_green() {
    assert_eq!(tone_to_color(iteration_to_tone(85, 255)), Color { red: 0, green: 255, blue: 0 });
}

#[test]
fn two_thirds_of_the_wheel_is_blue() {
    assert_eq!(tone_to_color(iteration_to_tone(170, 255)), Color { red: 0, green: 0, blue: 255 });
}

#[test]
fn tone_of_the_largest_count_does_not_overflow() {
    let tone = iteration_to_tone(u32::MAX, 255);
    assert_eq!(tone.hue_num, 1546188226200);
    assert_eq!(tone.value, 1);
}

#[test]
fn black_is_all_zero() {
    assert_eq!(Color::black(), Color { red: 0, green: 0, blue: 0 });
}

#[test]
fn table_gives_each_count_its_colour() {
    let red = Color { red: 255, green: 0, blue: 0 };
    let green = Color { red: 0, green: 255, blue: 0 };
    let table = ColorTable::new(vec![red, green]);
    assert_eq!(table.cap(), 2);
    assert_eq!(table.color_of(0), red);
    assert_eq!(table.color_of(1), green);
}

#[test]
fn table_is_black_from_the_cap_on() {
    let white = Color { red: 255, green: 255, blue: 255 };
    let table = ColorTable::new(vec![white; 255]);
    assert_eq!(table.color_of(254), white);
    assert_eq!(table.color_of(255), Color::black());
    assert_eq!(table.color_of(256), Color::black());
    assert_eq!(table.color_of(u32::MAX), Color::black());
}

#[test]
fn empty_table_is_all_black() {
    let table = ColorTable::new(Vec::new());
    assert_eq!(table.cap(), 0);
    assert_eq!(table.color_of(0), Color::black());
}

#[test]
fn zero_count_under_zero_cap_is_dark() {
    let tone = iteration_to_tone(0, 0);
    assert_eq!(tone, Tone { hue_num: 0, hue_den: 0, saturation: 1, value: 0 });
}
