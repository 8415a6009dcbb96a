use porsmo::cli::{Cli, CounterMode, Launch, PomoMode};
use porsmo::config::AppConfig;
use porsmo::pomodoro::PomodoroConfig;
use porsmo::time::Duration;

fn secs(n: u64) -> Duration {
    Duration::from_secs(n)
}

#[test]
fn an_empty_configuration_says_nothing() {
    let config = AppConfig::empty();
    assert_eq!(config.short_break, None);
    assert_eq!(config.long_break, None);
    assert_eq!(config.long_break_frequency, None);
    assert_eq!(config.work_time, None);
}

#[test]
fn settings_are_read_in_the_unit_notation() {
    assert_eq!(AppConfig::duration_setting("5m"), Some(secs(300)));
    assert_eq!(AppConfig::duration_setting("1h2m3s"), Some(secs(3723)));
    assert_eq!(AppConfig::duration_setting(""), Some(Duration::zero()));
    assert_eq!(AppConfig::duration_setting("5"), None);
    assert_eq!(AppConfig::duration_setting("five minutes"), None);
}

#[test]
fn entries_replace_what_was_there() {
    let mut config = AppConfig::empty();
    config.apply_entries(Some("5m"), None, Some(4), Some("25m"));
    assert_eq!(config.short_break, Some(secs(300)));
    assert_eq!(config.long_break, None);
    assert_eq!(config.long_break_frequency, Some(4));
    assert_eq!(config.work_time, Some(secs(1500)));
    config.apply_entries(Some("bad"), Some("10m"), None, None);
    assert_eq!(config.short_break, None);
    assert_eq!(config.long_break, Some(secs(600)));
    assert_eq!(config.long_break_frequency, Some(4));
    assert_eq!(config.work_time, Some(secs(1500)));
    config.apply_entries(None, None, Some(4294967297), None);
    assert_eq!(config.long_break_frequency, Some(1));
    config.apply_entries(None, None, Some(-1), None);
    assert_eq!(config.long_break_frequency, Some(u32::MAX));
}

#[test]
fn a_document_is_read_into_the_configuration() {
    let mut config = AppConfig::empty();
    let text = "short_break_duration = \"5m\"\nlong_break_duration = \"15m\"\n\
                long_break_frequency = 3\nwork_time_duration = \"1h\"\nother = true\n";
    assert_eq!(config.load_from_text(text), Ok(()));
    assert_eq!(config.short_break, Some(secs(300)));
    assert_eq!(config.long_break, Some(secs(900)));
    assert_eq!(config.long_break_frequency, Some(3));
    assert_eq!(config.work_time, Some(secs(3600)));
    assert_eq!(config.load_from_text("work_time_duration = \"2h\"\n"), Ok(()));
    assert_eq!(config.work_time, Some(secs(7200)));
    assert_eq!(config.short_break, Some(secs(300)));
    assert_eq!(config.load_from_text(""), Ok(()));
    assert_eq!(config.long_break_frequency, Some(3));
}

#[test]
fn entries_of_another_type_are_passed_over() {
    let mut config = AppConfig::empty();
    config.work_time = Some(secs(1));
    config.long_break_frequency = Some(9);
    let text = "work_time_duration = 25\nlong_break_frequency = \"4\"\n\
                short_break_duration = \"soon\"\n[long_break_duration]\nvalue = \"5m\"\n";
    assert_eq!(config.load_from_text(text), Ok(()));
    assert_eq!(config.work_time, Some(secs(1)));
    assert_eq!(config.long_break_frequency, Some(9));
    assert_eq!(config.short_break, None);
    assert_eq!(config.long_break, None);
}

#[test]
fn text_that_is_no_toml_is_refused() {
    let mut config = AppConfig::empty();
    config.work_time = Some(secs(1));
    let refused = config.load_from_text("work_time_duration = ");
    let message = refused.unwrap_err();
    assert!(message.starts_with("TOML parse error: "));
    assert!(message.len() > "TOML parse error: ".len());
    assert_eq!(config.work_time, Some(secs(1)));
    assert!(config.load_from_text("\"just a string\"").is_err());
}

#[test]
fn a_document_of_the_toml_crate_is_taken_in() {
    let mut config = AppConfig::empty();
    let value: toml::Value = "short_break_duration = \"90s\"".parse().unwrap();
    assert_eq!(config.apply_document(&value), Ok(()));
    assert_eq!(config.short_break, Some(secs(90)));
    let not_a_table = toml::Value::Integer(3);
    assert_eq!(config.apply_document(&not_a_table), Err("TOML root is not a table".to_string()));
    assert_eq!(config.short_break, Some(secs(90)));
}

#[test]
fn the_command_line_decides_what_is_started() {
    let mut app = AppConfig::empty();
    app.work_time = Some(secs(50));
    assert_eq!(Cli { mode: None }.launch(&app), Launch::Pomodoro(
        PomodoroConfig::new(secs(50), secs(300), secs(600))
    ));
    assert_eq!(Cli { mode: Some(CounterMode::Stopwatch) }.launch(&app), Launch::Stopwatch);
    assert_eq!(
        Cli { mode: Some(CounterMode::Timer { target: secs(9) }) }.launch(&app),
        Launch::Timer(secs(9))
    );
    assert_eq!(
        Cli { mode: Some(CounterMode::Pomodoro { mode: PomoMode::Short, exitmessage: false }) }
            .launch(&app),
        Launch::Pomodoro(PomodoroConfig::new(secs(50), secs(300), secs(600)))
    );
    assert_eq!(
        Cli { mode: Some(CounterMode::Pomodoro { mode: PomoMode::Long, exitmessage: true }) }
            .launch(&app),
        Launch::Pomodoro(PomodoroConfig::new(secs(50), secs(600), secs(1200)))
    );
    let custom =
        PomoMode::Custom { work_time: secs(1), break_time: secs(2), long_break: secs(3) };
    assert_eq!(custom.config(&app), PomodoroConfig::new(secs(1), secs(2), secs(3)));
    assert_eq!(
        Cli { mode: Some(CounterMode::Pomodoro { mode: custom, exitmessage: true }) }.launch(&app),
        Launch::Pomodoro(PomodoroConfig::new(secs(1), secs(2), secs(3)))
    );
}

#[test]
fn only_a_pomodoro_that_asks_for_it_says_goodbye() {
    assert!(!Cli { mode: None }.exit_message());
    assert!(!Cli { mode: Some(CounterMode::Stopwatch) }.exit_message());
    assert!(!Cli { mode: Some(CounterMode::Timer { target: secs(9) }) }.exit_message());
    assert!(!Cli {
        mode: Some(CounterMode::Pomodoro { mode: PomoMode::Short, exitmessage: false })
    }
    .exit_message());
    assert!(Cli {
        mode: Some(CounterMode::Pomodoro { mode: PomoMode::Long, exitmessage: true })
    }
    .exit_message());
}
