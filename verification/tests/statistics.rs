use rain_alert::{summarize, RainStats, UNITS_PER_MM};

#[test]
fn empty_sample_has_no_statistics() {
    assert_eq!(summarize(&vec![]), None);
}

#[test]
fn single_value_is_its_own_minimum_and_mean() {
    assert_eq!(summarize(&vec![4500]), Some(RainStats { count: 1, min: 4500, avg: 4500 }));
    assert_eq!(summarize(&vec![1]), Some(RainStats { count: 1, min: 1, avg: 1 }));
}

#[test]
fn minimum_is_found_wherever_it_stands() {
    assert_eq!(summarize(&vec![200, 600, 400]).unwrap().min, 200);
    assert_eq!(summarize(&vec![600, 200, 400]).unwrap().min, 200);
    assert_eq!(summarize(&vec![600, 400, 200]).unwrap().min, 200);
    assert_eq!(summarize(&vec![300, 300, 300]).unwrap().min, 300);
}

#[test]
fn mean_is_sum_over_count_rounded_down() {
    assert_eq!(
        summarize(&vec![2000, 6000]),
        Some(RainStats { count: 2, min: 2000, avg: 4000 })
    );
    // 200 + 400 + 400 = 1000, and 1000 / 3 = 333 remainder 1
    assert_eq!(
        summarize(&vec![200, 400, 400]),
        Some(RainStats { count: 3, min: 200, avg: 333 })
    );
    // 1 + 2 = 3, and 3 / 2 = 1 remainder 1
    assert_eq!(summarize(&vec![1, 2]), Some(RainStats { count: 2, min: 1, avg: 1 }));
}

#[test]
fn mean_agrees_with_the_quotient_in_millimetres() {
    let sample: Vec<u32> = vec![200, 400, 400, 1800, 2600];
    let stats = summarize(&sample).unwrap();
    let exact = sample.iter().map(|v| *v as f64).sum::<f64>() / sample.len() as f64;
    let shown = stats.avg as f64 / UNITS_PER_MM as f64;
    assert!((exact / UNITS_PER_MM as f64 - shown).abs() < 0.001);
    assert_eq!(stats.avg, 1080);
    assert_eq!(stats.min, *sample.iter().min().unwrap());
}

#[test]
fn largest_values_do_not_overflow() {
    let sample = vec![u32::MAX, u32::MAX, u32::MAX - 3];
    assert_eq!(
        summarize(&sample),
        Some(RainStats { count: 3, min: u32::MAX - 3, avg: u32::MAX - 1 })
    );
}

#[test]
fn any_amount_above_zero_is_rain() {
    let reading = |value: u32| rain_alert::Reading { station_id: "S77".to_string(), value };
    assert!(!reading(0).is_rain());
    assert!(reading(1).is_rain());
    assert!(reading(200).is_rain());
    assert!(reading(u32::MAX).is_rain());
}
