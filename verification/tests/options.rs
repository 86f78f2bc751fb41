use printrs::consts::{
    CUPS_COPIES, CUPS_FINISHINGS, CUPS_FINISHINGS_NONE, CUPS_FINISHINGS_STAPLE, CUPS_MEDIA,
    CUPS_MEDIA_A4, CUPS_PRINT_QUALITY, CUPS_SIDES,
};
use printrs::options::{
    cups_option_requests, to_ascii_lowercase, ColorMode, CopiesInt, CupsOption, Finishing,
    MediaSize, MediaSource, MediaType, NumberUpInt, Orientation, PrintOption, PrintOptions,
    Quality, SidesMode,
};

fn no_options() -> PrintOptions {
    PrintOptions {
        copies: None,
        finishings: None,
        media_size: None,
        media_source: None,
        media_type: None,
        number_up: None,
        orientation: None,
        color_mode: None,
        quality: None,
        sides_mode: None,
    }
}

#[test]
fn if_empty_finishings_then_cups_finishings_none() {
    // Finishings are empty:
    let finishings: Vec<Finishing> = Vec::new();

    // The CUPS option value should be CUPS_FINISHINGS_NONE:
    let value = finishings.get_cups_option_value();

    assert_eq!(
        CUPS_FINISHINGS_NONE,
        value.as_str(),
        "Empty finishings should have value '{}', was: '{}'",
        CUPS_FINISHINGS_NONE,
        value
    )
}

#[test]
fn if_one_finishing_then_cups_finishing_constant() {
    // Only one finishing is present:
    let finishings = vec![Finishing::Staple];

    // The CUPS option value should be CUPS_FINISHINGS_STAPLE:
    let value = finishings.get_cups_option_value();

    assert_eq!(
        CUPS_FINISHINGS_STAPLE,
        value.as_str(),
        "Finishings should have value '{}', was: '{}'",
        CUPS_FINISHINGS_STAPLE,
        value
    )
}

#[test]
fn if_many_finishing_then_comma_separated_cups_finishing_constants() {
    // Several finishing are present:
    let finishings = vec![Finishing::Staple, Finishing::Bind, Finishing::Punch];

    // The CUPS option value should be comma separated string of respective integer constants:
    let value = finishings.get_cups_option_value();
    let expected_str = format!(
        "{},{},{}",
        finishings[0].get_cups_option_value(),
        finishings[1].get_cups_option_value(),
        finishings[2].get_cups_option_value()
    );

    assert_eq!(
        expected_str, value,
        "Finishings should have value '{}', was: '{}'",
        expected_str, value
    )
}

#[test]
fn many_finishings_join_their_numbers() {
    let finishings = vec![Finishing::Staple, Finishing::Bind, Finishing::Punch];
    assert_eq!(finishings.get_cups_option_value(), "4,7,5");
    let all = vec![
        Finishing::Bind,
        Finishing::Cover,
        Finishing::Fold,
        Finishing::Punch,
        Finishing::Staple,
        Finishing::Trim,
    ];
    assert_eq!(all.get_cups_option_value(), "7,6,10,5,4,11");
}

#[test]
fn option_names_are_cups_names() {
    assert_eq!(CopiesInt::get_cups_option_name(), "copies");
    assert_eq!(NumberUpInt::get_cups_option_name(), "number-up");
    assert_eq!(Finishing::get_cups_option_name(), "finishings");
    assert_eq!(<Vec<Finishing>>::get_cups_option_name(), "finishings");
    assert_eq!(MediaSize::get_cups_option_name(), "media");
    assert_eq!(MediaSource::get_cups_option_name(), "media-source");
    assert_eq!(MediaType::get_cups_option_name(), "media-type");
    assert_eq!(Orientation::get_cups_option_name(), "orientation-requested");
    assert_eq!(ColorMode::get_cups_option_name(), "print-color-mode");
    assert_eq!(Quality::get_cups_option_name(), "print-quality");
    assert_eq!(SidesMode::get_cups_option_name(), "sides");
}

#[test]
fn integer_options_are_decimal() {
    assert_eq!(CopiesInt(1).get_cups_option_value(), "1");
    assert_eq!(CopiesInt(0).get_cups_option_value(), "0");
    assert_eq!(CopiesInt(42).get_cups_option_value(), "42");
    assert_eq!(CopiesInt(1000).get_cups_option_value(), "1000");
    assert_eq!(CopiesInt(-7).get_cups_option_value(), "-7");
    assert_eq!(CopiesInt(i32::MAX).get_cups_option_value(), "2147483647");
    assert_eq!(CopiesInt(i32::MIN).get_cups_option_value(), "-2147483648");
    assert_eq!(NumberUpInt(4).get_cups_option_value(), "4");
    assert_eq!(NumberUpInt(16).get_cups_option_value(), "16");
}

#[test]
fn enum_options_have_cups_values() {
    assert_eq!(MediaSize::A4.get_cups_option_value(), "iso_a4_210x297mm");
    assert_eq!(MediaSize::A3Plus.get_cups_option_value(), "na_super-b_13x19in");
    assert_eq!(MediaSize::GovtLetter.get_cups_option_value(), "na_govt-letter_8x10in");
    assert_eq!(MediaSize::Envelope10.get_cups_option_value(), "na_number-10_4.125x9.5in");
    assert_eq!(MediaSize::Photo3R.get_cups_option_value(), "oe_photo-l_3.5x5in");
    assert_eq!(MediaSource::Manual.get_cups_option_value(), "manual");
    assert_eq!(MediaType::Plain.get_cups_option_value(), "stationery");
    assert_eq!(MediaType::Transparent.get_cups_option_value(), "transparency");
    assert_eq!(Orientation::Portrait.get_cups_option_value(), "3");
    assert_eq!(Orientation::Landscape.get_cups_option_value(), "4");
    assert_eq!(ColorMode::Monochrome.get_cups_option_value(), "monochrome");
    assert_eq!(Quality::Draft.get_cups_option_value(), "3");
    assert_eq!(Quality::High.get_cups_option_value(), "5");
    assert_eq!(SidesMode::OneSided.get_cups_option_value(), "one-sided");
    assert_eq!(SidesMode::TwoSidedPortrait.get_cups_option_value(), "two-sided-long-edge");
    assert_eq!(SidesMode::TwoSidedLandscape.get_cups_option_value(), "two-sided-short-edge");
    assert_eq!(Finishing::Trim.get_cups_option_value(), "11");
}

#[test]
fn no_options_make_no_requests() {
    assert!(cups_option_requests(&no_options()).is_empty());
}

#[test]
fn requests_follow_the_fixed_order() {
    let mut options = no_options();
    options.sides_mode = Some(SidesMode::TwoSidedLandscape);
    options.quality = Some(Quality::Normal);
    options.media_size = Some(MediaSize::A4);
    options.finishings = Some(vec![]);
    options.copies = Some(CopiesInt(3));
    let requests = cups_option_requests(&options);
    let pairs: Vec<(&str, &str)> = requests
        .iter()
        .map(|r| (r.name.as_str(), r.value.as_str()))
        .collect();
    assert_eq!(
        pairs,
        vec![
            (CUPS_COPIES, "3"),
            (CUPS_FINISHINGS, "3"),
            (CUPS_MEDIA, CUPS_MEDIA_A4),
            (CUPS_PRINT_QUALITY, "4"),
            (CUPS_SIDES, "two-sided-short-edge"),
        ]
    );
}

#[test]
fn every_option_makes_one_request() {
    let options = PrintOptions {
        copies: Some(CopiesInt(2)),
        finishings: Some(vec![Finishing::Fold]),
        media_size: Some(MediaSize::Letter),
        media_source: Some(MediaSource::Auto),
        media_type: Some(MediaType::PhotoGlossy),
        number_up: Some(NumberUpInt(2)),
        orientation: Some(Orientation::Landscape),
        color_mode: Some(ColorMode::Color),
        quality: Some(Quality::High),
        sides_mode: Some(SidesMode::OneSided),
    };
    let requests = cups_option_requests(&options);
    let names: Vec<&str> = requests.iter().map(|r| r.name.as_str()).collect();
    assert_eq!(
        names,
        vec![
            "copies",
            "finishings",
            "media",
            "media-source",
            "media-type",
            "number-up",
            "orientation-requested",
            "print-color-mode",
            "print-quality",
            "sides"
        ]
    );
    let values: Vec<&str> = requests.iter().map(|r| r.value.as_str()).collect();
    assert_eq!(
        values,
        vec![
            "2",
            "10",
            "na_letter_8.5x11in",
            "auto",
            "photographic-glossy",
            "2",
            "4",
            "color",
            "5",
            "one-sided"
        ]
    );
    for r in &requests {
        assert!(!r.name.contains('\0') && !r.value.contains('\0'));
    }
}

#[test]
fn options_have_readable_names_and_values() {
    assert_eq!(CopiesInt::get_name(), "Copies");
    assert_eq!(MediaSize::get_name(), "Media size");
    assert_eq!(<Vec<Finishing>>::get_name(), "Finishings");
    assert_eq!(CopiesInt(12).to_human_string(), "12");
    assert_eq!(MediaSize::A3Plus.to_human_string(), "a3-plus");
    assert_eq!(MediaSize::EnvelopeDL.to_human_string(), "envelope-dl");
    assert_eq!(MediaSize::Photo3R.to_human_string(), "photo3-r");
    assert_eq!(MediaType::PhotoMatte.to_human_string(), "photo-matte");
    assert_eq!(SidesMode::TwoSidedPortrait.to_human_string(), "two-sided-portrait");
    assert_eq!(Quality::High.to_human_string(), "high");
    assert_eq!(Vec::<Finishing>::new().to_human_string(), "none");
    assert_eq!(vec![Finishing::Staple, Finishing::Punch].to_human_string(), "staple, punch");
}

#[test]
fn lowercase_touches_only_ascii_capitals() {
    assert_eq!(to_ascii_lowercase("Media Size"), "media size");
    assert_eq!(to_ascii_lowercase("AZaz09-"), "azaz09-");
    assert_eq!(to_ascii_lowercase(""), "");
    assert_eq!(to_ascii_lowercase("Ünï"), "Ünï");
}

#[test]
fn requests_carry_labels_for_reports() {
    let mut options = no_options();
    options.color_mode = Some(ColorMode::Monochrome);
    options.number_up = Some(NumberUpInt(2));
    let requests = cups_option_requests(&options);
    let labels: Vec<(&str, &str)> = requests
        .iter()
        .map(|r| (r.label.as_str(), r.human_value.as_str()))
        .collect();
    assert_eq!(labels, vec![("number up", "2"), ("color mode", "monochrome")]);
}
