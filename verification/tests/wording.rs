use rain_alert::{
    action_for, alert_message, render_decimal, render_millimetres, time_label, Action,
    AlertOutcome, Check, SkipReason,
};

#[test]
fn decimal_has_no_leading_zeros() {
    assert_eq!(render_decimal(0), "0");
    assert_eq!(render_decimal(7), "7");
    assert_eq!(render_decimal(10), "10");
    assert_eq!(render_decimal(1234567890), "1234567890");
    assert_eq!(render_decimal(u64::MAX), "18446744073709551615");
}

#[test]
fn millimetres_have_three_decimal_places() {
    assert_eq!(render_millimetres(0), "0.000");
    assert_eq!(render_millimetres(1), "0.001");
    assert_eq!(render_millimetres(20), "0.020");
    assert_eq!(render_millimetres(200), "0.200");
    assert_eq!(render_millimetres(4500), "4.500");
    assert_eq!(render_millimetres(12345), "12.345");
    assert_eq!(render_millimetres(1000000), "1000.000");
    assert_eq!(render_millimetres(u32::MAX), "4294967.295");
}

#[test]
fn alert_names_location_count_time_minimum_and_mean() {
    assert_eq!(
        alert_message("Bishan", 2, "Tue 2024-03-05 @ 07:45", 2000, 4000),
        "\u{1F4A7}Bishan (2 stn) at Tue 2024-03-05 @ 07:45. Min: 2.000mm, Avg: 4.000mm"
    );
    assert_eq!(alert_message("", 0, "", 0, 0), "\u{1F4A7} (0 stn) at . Min: 0.000mm, Avg: 0.000mm");
}

#[test]
fn only_rain_calls_for_a_notification() {
    let check = Check {
        stations: vec!["S77".to_string()],
        flag: "bishan_alert".to_string(),
        location: "Bishan".to_string(),
    };
    let rain = AlertOutcome::Raining { count: 12, min: 200, avg: 1234 };
    assert!(matches!(action_for(&check, rain, "now"), Action::Notify { message }
        if message == "\u{1F4A7}Bishan (12 stn) at now. Min: 0.200mm, Avg: 1.234mm"));
    assert!(matches!(action_for(&check, AlertOutcome::NotRaining, "now"),
        Action::ReportNoRain { location } if location == "Bishan"));
    assert!(matches!(action_for(&check, AlertOutcome::Skipped(SkipReason::NotFlagged), "now"),
        Action::ReportSkipped { location } if location == "Bishan"));
}

#[test]
fn time_label_has_weekday_date_and_minute() {
    let label = time_label();
    assert_ne!(label, "%a %Y-%m-%d @ %H:%M");
    let chars: Vec<char> = label.chars().collect();
    assert_eq!(chars.len(), 22, "unexpected label {:?}", label);
    assert!(["Sun", "Mon", "Tue", "Wed", "Thu", "Fri", "Sat"].contains(&&label[0..3]));
    assert_eq!(chars[3], ' ');
    assert!(chars[4..8].iter().all(|c| c.is_ascii_digit()));
    assert_eq!(chars[8], '-');
    assert!(chars[9..11].iter().all(|c| c.is_ascii_digit()));
    assert_eq!(chars[11], '-');
    assert!(chars[12..14].iter().all(|c| c.is_ascii_digit()));
    assert_eq!(&label[14..17], " @ ");
    assert!(chars[17..19].iter().all(|c| c.is_ascii_digit()));
    assert_eq!(chars[19], ':');
    assert!(chars[20..22].iter().all(|c| c.is_ascii_digit()));
    let number = |from: usize, to: usize| label[from..to].parse::<u32>().unwrap();
    assert!((1..=12).contains(&number(9, 11)));
    assert!((1..=31).contains(&number(12, 14)));
    assert!(number(17, 19) < 24);
    assert!(number(20, 22) < 60);
}
