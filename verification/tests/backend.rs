//! Encoder and decoder choices.

use iroh_live_cli::backend::Backend;

const ENCODERS: &[&str] = &["nvenc", "vaapi", "openh264"];
const DECODERS: &[&str] = &["nvdec", "vaapi", "openh264"];

#[test]
fn strategies_and_backend_names_parse() {
    assert_eq!(Backend::parse("hw", ENCODERS), Some(Backend::Hardware));
    assert_eq!(Backend::parse("nvdec", DECODERS), Some(Backend::Named("nvdec")));
    assert_eq!(Backend::default(), Backend::Auto);
    assert_eq!(Backend::Named("vaapi").name(), "vaapi");
}

#[test]
fn a_name_no_backend_answers_to_is_rejected() {
    assert!(Backend::parse("nvdec", ENCODERS).is_none());
    assert!(Backend::parse("x264", ENCODERS).is_none());
    assert!(Backend::parse("nvenc", DECODERS).is_none());
}

#[test]
fn every_choice_parses_back_from_its_name() {
    for choice in Backend::choices(ENCODERS) {
        assert_eq!(Backend::parse(choice.name(), ENCODERS), Some(choice));
    }
    for choice in Backend::choices(DECODERS) {
        assert_eq!(Backend::parse(choice.name(), DECODERS), Some(choice));
    }
}

/// A choice is read without regard to case.
#[test]
fn a_choice_is_read_in_any_case() {
    assert_eq!(Backend::parse("AUTO", ENCODERS), Some(Backend::Auto));
    assert_eq!(Backend::parse("Sw", ENCODERS), Some(Backend::Software));
    assert_eq!(Backend::parse("VAAPI", ENCODERS), Some(Backend::Named("vaapi")));
    assert_eq!(Backend::parse("\u{212a}", ENCODERS), None);
    assert_eq!(Backend::of_lowered("AUTO", ENCODERS), None);
}

#[test]
fn the_choices_are_the_strategies_then_the_names() {
    let choices = Backend::choices(&["nvenc"]);
    assert_eq!(
        choices,
        vec![Backend::Auto, Backend::Hardware, Backend::Software, Backend::Named("nvenc")]
    );
    assert!(Backend::Named("nvenc").same_as(&choices[3]));
    assert!(!Backend::Named("nvdec").same_as(&choices[3]));
}
