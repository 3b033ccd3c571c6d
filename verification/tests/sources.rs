use rain_alert::{
    accept, delivery, exit_code, join, run, run_at, settle, Action, Cause, Check, Config,
    FatalError, Feature, FetchError, FlagSet, Item, NotifyError, Reading, Root, Source,
    TaskError,
};

fn check(location: &str, flag: &str, station: &str) -> Check {
    Check {
        stations: vec![station.to_string()],
        flag: flag.to_string(),
        location: location.to_string(),
    }
}

fn config() -> Config {
    Config { check: vec![check("Bishan", "bishan_alert", "S77")] }
}

fn flags() -> FlagSet {
    FlagSet::from_names(vec!["bishan_alert".to_string()])
}

fn weather() -> Root {
    Root {
        items: vec![Item {
            timestamp: "t0".to_string(),
            readings: vec![Reading { station_id: "S77".to_string(), value: 4500 }],
        }],
    }
}

fn fatal(source: Source, cause: Cause) -> FatalError {
    FatalError { source, cause }
}

#[test]
fn settle_hands_the_value_on() {
    assert_eq!(settle(Source::Flags, Ok(Ok(17u8))), Ok(17u8));
}

#[test]
fn settle_names_source_and_cause() {
    assert_eq!(
        settle::<u8>(Source::Weather, Ok(Err(FetchError::Transport))),
        Err(fatal(Source::Weather, Cause::Fetch(FetchError::Transport)))
    );
    assert_eq!(
        settle::<u8>(Source::Config, Ok(Err(FetchError::Decode))),
        Err(fatal(Source::Config, Cause::Fetch(FetchError::Decode)))
    );
    assert_eq!(
        settle::<u8>(Source::Flags, Err(TaskError::Cancelled)),
        Err(fatal(Source::Flags, Cause::Task(TaskError::Cancelled)))
    );
    assert_eq!(
        settle::<u8>(Source::Flags, Err(TaskError::Panicked)),
        Err(fatal(Source::Flags, Cause::Task(TaskError::Panicked)))
    );
}

#[test]
fn join_of_three_values_hands_all_three_on() {
    match join(Ok(Ok(config())), Ok(Ok(flags())), Ok(Ok(weather()))) {
        Ok(sources) => {
            assert_eq!(sources.config.check.len(), 1);
            assert_eq!(sources.config.check[0].location, "Bishan");
            assert!(sources.flags.contains(&"bishan_alert".to_string()));
            assert_eq!(sources.weather.items[0].readings[0].value, 4500);
        }
        Err(e) => panic!("no failure was expected, got {:?}", e),
    }
}

#[test]
fn each_failed_source_is_named() {
    let failed = join(Ok(Err(FetchError::Transport)), Ok(Ok(flags())), Ok(Ok(weather())));
    assert_eq!(failed.err(), Some(fatal(Source::Config, Cause::Fetch(FetchError::Transport))));

    let failed = join(Ok(Ok(config())), Ok(Err(FetchError::Decode)), Ok(Ok(weather())));
    assert_eq!(failed.err(), Some(fatal(Source::Flags, Cause::Fetch(FetchError::Decode))));

    let failed = join(Ok(Ok(config())), Ok(Ok(flags())), Err(TaskError::Panicked));
    assert_eq!(failed.err(), Some(fatal(Source::Weather, Cause::Task(TaskError::Panicked))));
}

#[test]
fn of_several_failures_one_of_a_failed_source_is_reported() {
    let failed = join(
        Ok(Ok(config())),
        Ok(Err(FetchError::Decode)),
        Ok(Err(FetchError::Transport)),
    );
    assert_eq!(failed.err(), Some(fatal(Source::Flags, Cause::Fetch(FetchError::Decode))));

    let failed = join(
        Err(TaskError::Cancelled),
        Ok(Err(FetchError::Decode)),
        Ok(Err(FetchError::Transport)),
    );
    assert_eq!(failed.err(), Some(fatal(Source::Config, Cause::Task(TaskError::Cancelled))));
}

#[test]
fn failed_fetch_ends_the_run_before_any_check() {
    let outcome = run_at(Ok(Ok(config())), Ok(Ok(flags())), Ok(Err(FetchError::Transport)), "t");
    assert_eq!(
        outcome.as_ref().err(),
        Some(&fatal(Source::Weather, Cause::Fetch(FetchError::Transport)))
    );
    assert_eq!(exit_code(&outcome), 1);

    let outcome = run(Ok(Err(FetchError::Decode)), Ok(Ok(flags())), Ok(Ok(weather())));
    assert_eq!(
        outcome.as_ref().err(),
        Some(&fatal(Source::Config, Cause::Fetch(FetchError::Decode)))
    );
    assert_eq!(exit_code(&outcome), 1);
}

#[test]
fn completed_run_ends_with_status_zero_whatever_was_found() {
    let raining = run_at(Ok(Ok(config())), Ok(Ok(flags())), Ok(Ok(weather())), "t");
    assert_eq!(exit_code(&raining), 0);
    let skipped = run_at(Ok(Ok(config())), Ok(Ok(FlagSet::new())), Ok(Ok(weather())), "t");
    assert_eq!(exit_code(&skipped), 0);
    let nothing = run_at(Ok(Ok(Config { check: vec![] })), Ok(Ok(flags())), Ok(Ok(weather())), "t");
    assert_eq!(nothing.as_ref().map(|a| a.len()).ok(), Some(0));
    assert_eq!(exit_code(&nothing), 0);
}

#[test]
fn run_at_the_current_time_words_the_alert_with_a_time_label() {
    let outcome = run(Ok(Ok(config())), Ok(Ok(flags())), Ok(Ok(weather())));
    let actions = outcome.ok().expect("no failure was expected");
    assert_eq!(actions.len(), 1);
    match &actions[0] {
        Action::Notify { message } => {
            assert!(message.starts_with("\u{1F4A7}Bishan (1 stn) at "));
            assert!(message.ends_with(". Min: 4.500mm, Avg: 4.500mm"));
            assert!(!message.contains('%'));
            let label = &message["\u{1F4A7}Bishan (1 stn) at ".len()
                ..message.len() - ". Min: 4.500mm, Avg: 4.500mm".len()];
            assert_eq!(label.chars().count(), 22);
            assert_eq!(&label[14..17], " @ ");
        }
        _ => panic!("a notification was expected"),
    }
}

#[test]
fn defined_flags_are_enabled_whatever_their_default() {
    let enabled = FlagSet::from_features(vec![
        ("bishan_alert".to_string(), Feature::Bool { default_value: true }),
        ("yishun_alert".to_string(), Feature::Bool { default_value: false }),
        ("banner".to_string(), Feature::Text { default_value: "blue".to_string() }),
    ]);
    assert!(enabled.contains(&"bishan_alert".to_string()));
    assert!(enabled.contains(&"yishun_alert".to_string()));
    assert!(enabled.contains(&"banner".to_string()));
    assert!(!enabled.contains(&"blue".to_string()));
    assert!(!enabled.contains(&"".to_string()));
}

#[test]
fn flag_names_match_exactly() {
    let enabled = FlagSet::from_names(vec!["a".to_string(), "bishan_alert".to_string()]);
    assert!(enabled.contains(&"a".to_string()));
    assert!(enabled.contains(&"bishan_alert".to_string()));
    assert!(!enabled.contains(&"A".to_string()));
    assert!(!enabled.contains(&"bishan_alert ".to_string()));
    assert!(!enabled.contains(&"bishan".to_string()));
    assert!(!FlagSet::new().contains(&"a".to_string()));
    assert!(!FlagSet::from_features(vec![]).contains(&"a".to_string()));
}

#[test]
fn configuration_with_named_flags_is_accepted() {
    let two = Config {
        check: vec![check("Bishan", "bishan_alert", "S77"), check("Yishun", "y", "S78")],
    };
    assert_eq!(two.first_blank_flag(), None);
    let accepted = accept(two).ok().expect("the configuration names every flag");
    assert_eq!(accepted.check.len(), 2);
    assert_eq!(accepted.check[1].location, "Yishun");

    let none = Config { check: vec![] };
    assert_eq!(none.first_blank_flag(), None);
    assert!(accept(none).is_ok());
}

#[test]
fn configuration_with_a_blank_flag_is_turned_away() {
    let blank_second = Config {
        check: vec![
            check("Bishan", "bishan_alert", "S77"),
            check("Yishun", "", "S78"),
            check("Changi", "", "S24"),
        ],
    };
    assert_eq!(blank_second.first_blank_flag(), Some(1));
    assert_eq!(accept(blank_second).err(), Some(FetchError::Decode));

    let blank_first = Config { check: vec![check("Bishan", "", "S77")] };
    assert_eq!(blank_first.first_blank_flag(), Some(0));
    assert_eq!(accept(blank_first).err(), Some(FetchError::Decode));
}

#[test]
fn success_statuses_deliver() {
    assert_eq!(delivery(Some(200)), Ok(()));
    assert_eq!(delivery(Some(204)), Ok(()));
    assert_eq!(delivery(Some(299)), Ok(()));
}

#[test]
fn other_statuses_do_not_deliver() {
    assert_eq!(delivery(Some(199)), Err(NotifyError::NonSuccessStatus));
    assert_eq!(delivery(Some(300)), Err(NotifyError::NonSuccessStatus));
    assert_eq!(delivery(Some(404)), Err(NotifyError::NonSuccessStatus));
    assert_eq!(delivery(Some(500)), Err(NotifyError::NonSuccessStatus));
    assert_eq!(delivery(Some(0)), Err(NotifyError::NonSuccessStatus));
    assert_eq!(delivery(Some(u16::MAX)), Err(NotifyError::NonSuccessStatus));
}

#[test]
fn missing_response_is_a_transport_failure() {
    assert_eq!(delivery(None), Err(NotifyError::Transport));
}

#[test]
fn report_names_the_failed_source_and_the_cause() {
    assert_eq!(
        fatal(Source::Config, Cause::Fetch(FetchError::Transport)).describe(),
        "Failed to read config: the request failed"
    );
    assert_eq!(
        fatal(Source::Flags, Cause::Fetch(FetchError::Decode)).describe(),
        "Failed to read flags: the response could not be decoded"
    );
    assert_eq!(
        fatal(Source::Weather, Cause::Task(TaskError::Cancelled)).describe(),
        "Failed to read weather: the task was cancelled"
    );
    assert_eq!(
        fatal(Source::Weather, Cause::Task(TaskError::Panicked)).describe(),
        "Failed to read weather: the task panicked"
    );
}
