use brightness_notify::{
    decimal_string, level_from_rounded, notification_body, notification_icon, status_line,
    AdjustKind, Adjustment, Band, FadeParameters, Notice, BRIGHTNESS_PROGRAM,
};

#[test]
fn icon_bands_at_33_and_66() {
    let cases = [
        (0u8, "0% Brightness", "display-brightness-low"),
        (32, "32% Brightness", "display-brightness-low"),
        (33, "33% Brightness", "display-brightness-medium"),
        (65, "65% Brightness", "display-brightness-medium"),
        (66, "66% Brightness", "display-brightness-high"),
        (100, "100% Brightness", "display-brightness-high"),
    ];
    for (level, body, icon) in cases {
        assert_eq!(notification_body(level), body);
        assert_eq!(notification_icon(level), icon);
    }
    assert_eq!(Band::of(32), Band::Low);
    assert_eq!(Band::of(33), Band::Medium);
    assert_eq!(Band::of(255), Band::High);
}

#[test]
fn notice_fields() {
    let n = Notice::for_brightness(7, 1500);
    assert_eq!(n.summary, "Brightness");
    assert_eq!(n.body, "7% Brightness");
    assert_eq!(n.icon, "display-brightness-low");
    assert_eq!(n.timeout_ms, 1500);
    assert_eq!(n.id, 1);
    assert_eq!(status_line(7), "Current brightness: 7%");
    assert_eq!(status_line(255), "Current brightness: 255%");
}

#[test]
fn decimal_writing() {
    assert_eq!(decimal_string(0), "0");
    assert_eq!(decimal_string(9), "9");
    assert_eq!(decimal_string(10), "10");
    assert_eq!(decimal_string(60000), "60000");
    assert_eq!(decimal_string(u64::MAX), "18446744073709551615");
}

#[test]
fn program_arguments() {
    assert_eq!(BRIGHTNESS_PROGRAM, "xbacklight");
    let a = Adjustment {
        kind: AdjustKind::Decrease,
        percent: 15,
        fade: FadeParameters { fade_time_ms: 250, steps: 12 },
    };
    assert_eq!(a.program_args(), vec!["-dec", "15", "-time", "250", "-steps", "12"]);
}

#[test]
fn rounded_level_must_fit_a_byte() {
    assert_eq!(level_from_rounded(0), Some(0));
    assert_eq!(level_from_rounded(42), Some(42));
    assert_eq!(level_from_rounded(255), Some(255));
    assert_eq!(level_from_rounded(256), None);
    assert_eq!(level_from_rounded(-1), None);
}
