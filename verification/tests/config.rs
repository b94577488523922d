use auto_action::config::{
    default_delnum, default_relative, default_wait, default_wait_detect, default_wait_execute,
    select_mode, wants_default_file, Action, Config, Mode, TOML_FILE, TOML_SAMPLE,
};

fn config(execute_action: bool) -> Config {
    Config { execute_action, wait_before_detect_cursor: 5000, action: vec![] }
}

#[test]
fn defaults_of_the_fields() {
    assert_eq!(default_wait(), 500);
    assert_eq!(default_wait_detect(), 5000);
    assert_eq!(default_delnum(), -1);
    assert!(!default_relative());
    assert!(default_wait_execute());
}

#[test]
fn default_file_is_used_when_no_path_is_given() {
    assert!(wants_default_file(""));
    assert!(!wants_default_file("my.toml"));
    assert!(!wants_default_file(" "));
    assert_eq!(TOML_FILE, "action_config.toml");
}

#[test]
fn detection_comes_first() {
    for sample in [false, true] {
        for execute in [false, true] {
            for in_file in [false, true] {
                assert_eq!(select_mode(true, sample, execute, &config(in_file)), Mode::Detect);
            }
        }
    }
}

#[test]
fn sample_comes_before_execution() {
    for execute in [false, true] {
        for in_file in [false, true] {
            assert_eq!(select_mode(false, true, execute, &config(in_file)), Mode::Sample);
        }
    }
}

#[test]
fn execution_is_asked_for_by_flag_or_file() {
    assert_eq!(select_mode(false, false, true, &config(false)), Mode::Execute);
    assert_eq!(select_mode(false, false, false, &config(true)), Mode::Execute);
    assert_eq!(select_mode(false, false, true, &config(true)), Mode::Execute);
    assert_eq!(select_mode(false, false, false, &config(false)), Mode::Idle);
}

#[test]
fn actions_compare_by_their_fields() {
    let a = Action::INPUT { content: "a".to_string(), wait: 1 };
    assert_eq!(a.clone(), a);
    assert_ne!(a, Action::INPUT { content: "b".to_string(), wait: 1 });
    assert_ne!(Action::DELETE { wait: 1 }, Action::ENTER { wait: 1 });
}

#[test]
fn sample_config() {
    let table: toml::Table = toml::from_str(TOML_SAMPLE).unwrap();
    assert_eq!(table["execute_action"].as_bool(), Some(true));
    assert_eq!(table["wait_before_detect_cursor"].as_integer(), Some(4000));
    let actions = table["action"].as_array().unwrap();
    let kinds: Vec<&str> = actions.iter().map(|a| a["type"].as_str().unwrap()).collect();
    assert_eq!(
        kinds,
        vec![
            "SETORIGIN",
            "UNSETORIGIN",
            "MOVEINIT",
            "MOVE",
            "MOVECLICK",
            "MOVERELATIVE",
            "LEFTCLICK",
            "DOUBLECLICK",
            "RIGHTCLICK",
            "WAIT",
            "BACKSPACE",
            "DELETE",
            "INPUT",
            "CHANGE",
            "DATE",
            "ENTER",
        ]
    );
    assert_eq!(actions[13]["content"].as_str(), Some("hello, world"));
    assert_eq!(actions[13]["delnum"].as_integer(), Some(10));
    assert_eq!(actions[13]["relative"].as_bool(), Some(true));
    assert_eq!(actions[15].get("wait"), None);

    println!("{:#?}", table);
}
