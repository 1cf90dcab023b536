use bova_playback::commands::{engine_request, engine_requests, load_request, stop_request};
use bova_playback::text::{format_one_decimal, format_thousandths, push_decimal, push_signed};
use bova_playback::{EngineRequest, MpvCommand};

fn set_text(name: &str, value: &str) -> EngineRequest {
    EngineRequest::SetText { name: name.to_string(), value: value.to_string() }
}

fn run(args: &[&str]) -> EngineRequest {
    EngineRequest::Run { args: args.iter().map(|a| a.to_string()).collect() }
}

#[test]
fn decimal_digits_are_written_without_leading_zeros() {
    let mut s = String::from("n=");
    push_decimal(&mut s, 0);
    assert_eq!(s, "n=0");
    let mut s = String::new();
    push_decimal(&mut s, 9);
    push_decimal(&mut s, 10);
    push_decimal(&mut s, 1234567890);
    assert_eq!(s, "9101234567890");
    let mut s = String::new();
    push_decimal(&mut s, u64::MAX);
    assert_eq!(s, "18446744073709551615");
}

#[test]
fn signed_numbers_carry_their_sign() {
    let mut s = String::new();
    push_signed(&mut s, -42);
    assert_eq!(s, "-42");
    let mut s = String::new();
    push_signed(&mut s, 42);
    assert_eq!(s, "42");
    let mut s = String::new();
    push_signed(&mut s, i64::MIN);
    assert_eq!(s, "-9223372036854775808");
    let mut s = String::new();
    push_signed(&mut s, i64::MAX);
    assert_eq!(s, "9223372036854775807");
}

#[test]
fn thousandths_have_three_fractional_digits() {
    assert_eq!(format_thousandths(0), "0.000");
    assert_eq!(format_thousandths(1), "0.001");
    assert_eq!(format_thousandths(1000), "1.000");
    assert_eq!(format_thousandths(1500), "1.500");
    assert_eq!(format_thousandths(12_345), "12.345");
    assert_eq!(format_thousandths(-250), "-0.250");
    assert_eq!(format_thousandths(-61_007), "-61.007");
    assert_eq!(format_thousandths(i64::MIN), "-9223372036854775.808");
    assert_eq!(format_thousandths(i64::MAX), "9223372036854775.807");
}

#[test]
fn whole_numbers_get_one_fractional_digit() {
    assert_eq!(format_one_decimal(0), "0.0");
    assert_eq!(format_one_decimal(50), "50.0");
    assert_eq!(format_one_decimal(100), "100.0");
    assert_eq!(format_one_decimal(u32::MAX), "4294967295.0");
}

#[test]
fn each_command_has_its_request() {
    assert_eq!(
        engine_request(&MpvCommand::SelectSubtitle(3)),
        EngineRequest::SetInt { name: "sid".to_string(), value: 3 }
    );
    assert_eq!(engine_request(&MpvCommand::DisableSubtitle), set_text("sid", "no"));
    assert_eq!(
        engine_request(&MpvCommand::LoadExternalSub("/tmp/a b.srt".to_string())),
        run(&["sub-add", "/tmp/a b.srt"])
    );
    assert_eq!(
        engine_request(&MpvCommand::SetSubVisibility(true)),
        set_text("sub-visibility", "yes")
    );
    assert_eq!(
        engine_request(&MpvCommand::SetSubVisibility(false)),
        set_text("sub-visibility", "no")
    );
    assert_eq!(
        engine_request(&MpvCommand::SeekAbsolute(1500)),
        run(&["seek", "1.500", "absolute"])
    );
    assert_eq!(engine_request(&MpvCommand::Pause), set_text("pause", "yes"));
    assert_eq!(engine_request(&MpvCommand::Resume), set_text("pause", "no"));
    assert_eq!(engine_request(&MpvCommand::SetVolume(75)), set_text("volume", "75.0"));
}

#[test]
fn seek_and_volume_text_is_the_engines_own_formatting() {
    for (ms, secs) in [(0i64, 0.0f64), (1000, 1.0), (1500, 1.5), (90_061, 90.061), (-250, -0.25)] {
        let expected = format!("{:.3}", secs);
        assert_eq!(
            engine_request(&MpvCommand::SeekAbsolute(ms)),
            run(&["seek", &expected, "absolute"])
        );
    }
    for percent in [0u32, 1, 50, 100, 130] {
        let expected = format!("{:.1}", percent as f64);
        assert_eq!(engine_request(&MpvCommand::SetVolume(percent)), set_text("volume", &expected));
    }
}

#[test]
fn last_of_two_seeks_is_applied_last() {
    let cmds = vec![MpvCommand::SeekAbsolute(1000), MpvCommand::SeekAbsolute(0)];
    let reqs = engine_requests(&cmds);
    assert_eq!(reqs.len(), 2);
    assert_eq!(reqs[0], run(&["seek", "1.000", "absolute"]));
    assert_eq!(reqs[1], run(&["seek", "0.000", "absolute"]));
    assert_eq!(reqs.last(), Some(&run(&["seek", "0.000", "absolute"])));
}

#[test]
fn requests_keep_the_order_of_the_commands() {
    let cmds = vec![
        MpvCommand::Pause,
        MpvCommand::SetVolume(10),
        MpvCommand::Resume,
        MpvCommand::SelectSubtitle(-1),
    ];
    let reqs = engine_requests(&cmds);
    assert_eq!(
        reqs,
        vec![
            set_text("pause", "yes"),
            set_text("volume", "10.0"),
            set_text("pause", "no"),
            EngineRequest::SetInt { name: "sid".to_string(), value: -1 },
        ]
    );
    assert!(engine_requests(&Vec::new()).is_empty());
}

#[test]
fn load_and_stop_are_engine_commands() {
    assert_eq!(load_request("file:///a.mkv"), run(&["loadfile", "file:///a.mkv"]));
    assert_eq!(stop_request(), run(&["stop"]));
}
