use mic_bridge::error::AppError;
use mic_bridge::formats::{
    choose_input_config, choose_output_config, negotiate_formats, StreamFormat, StreamFormatRange,
};

fn range(channels: u16, min_rate: u32, max_rate: u32, is_float: bool) -> StreamFormatRange {
    StreamFormatRange { channels, min_rate, max_rate, is_float }
}

#[test]
fn input_takes_the_highest_float_rate() {
    let cfgs = vec![
        range(2, 8_000, 44_100, true),
        range(1, 8_000, 96_000, false),
        range(2, 8_000, 48_000, true),
    ];
    let f = choose_input_config(&cfgs).unwrap();
    assert_eq!(f, StreamFormat { channels: 2, sample_rate: 48_000 });
}

#[test]
fn input_without_float_is_an_audio_error() {
    let cfgs = vec![range(2, 8_000, 48_000, false)];
    assert!(matches!(choose_input_config(&cfgs), Err(AppError::Audio(_))));
}

#[test]
fn input_tie_takes_the_last_advertised() {
    let cfgs = vec![range(1, 8_000, 48_000, true), range(2, 8_000, 48_000, true)];
    let f = choose_input_config(&cfgs).unwrap();
    assert_eq!(f.channels, 2);
}

#[test]
fn output_prefers_the_exact_match() {
    let target = StreamFormat { channels: 2, sample_rate: 48_000 };
    let cfgs = vec![
        range(1, 8_000, 192_000, true),
        range(2, 44_100, 96_000, true),
    ];
    let f = choose_output_config(&cfgs, target).unwrap();
    assert_eq!(f, StreamFormat { channels: 2, sample_rate: 48_000 });
}

#[test]
fn output_falls_back_to_the_first_float_at_max_rate() {
    let target = StreamFormat { channels: 2, sample_rate: 48_000 };
    let cfgs = vec![
        range(1, 8_000, 44_100, false),
        range(1, 8_000, 96_000, true),
        range(1, 8_000, 192_000, true),
    ];
    let f = choose_output_config(&cfgs, target).unwrap();
    assert_eq!(f, StreamFormat { channels: 1, sample_rate: 96_000 });
}

#[test]
fn negotiation_fails_fast_on_channel_mismatch() {
    let input_cfgs = vec![range(2, 8_000, 48_000, true)];
    let output_cfgs = vec![range(1, 8_000, 44_100, true)];
    match negotiate_formats(&input_cfgs, &output_cfgs) {
        Err(AppError::Audio(m)) => assert!(m.contains("channel"), "{m}"),
        other => panic!("expected an audio error, got {other:?}"),
    }
}

#[test]
fn negotiation_matches_input_and_output() {
    let input_cfgs = vec![range(2, 8_000, 48_000, true)];
    let output_cfgs = vec![range(2, 8_000, 96_000, true)];
    let (inf, outf) = negotiate_formats(&input_cfgs, &output_cfgs).unwrap();
    assert_eq!(inf, StreamFormat { channels: 2, sample_rate: 48_000 });
    assert_eq!(outf, StreamFormat { channels: 2, sample_rate: 48_000 });
}
