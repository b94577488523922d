use auto_action::detect::{announcement, before_poll, Detector};
use auto_action::effect::Effect;
use auto_action::snippet::action_snippet;
use auto_action::utils::{continues, is_refusal};

#[test]
fn announcement_speaks_of_whole_seconds() {
    assert_eq!(announcement(5000), "start detect the cursor position in 5 seconds...");
    assert_eq!(announcement(4999), "start detect the cursor position in 4 seconds...");
    assert_eq!(announcement(0), "start detect the cursor position in 0 seconds...");
}

#[test]
fn poll_is_announced_and_waited_for() {
    assert_eq!(
        before_poll(4000),
        vec![
            Effect::Report("start detect the cursor position in 4 seconds...".to_string()),
            Effect::Sleep(4000),
        ]
    );
}

#[test]
fn detector_keeps_offsets_from_the_first_position() {
    let mut detector = Detector::new(3);
    assert!(detector.is_due());
    assert!(detector.can_record(Some((100, 200))));
    assert_eq!(
        detector.record(Some((100, 200))),
        "mouse position 1 : -x 100 -y 200 delta_x 0 delta_y 0"
    );
    assert!(detector.is_due());
    assert_eq!(
        detector.record(Some((150, 180))),
        "mouse position 2 : -x 150 -y 180 delta_x 50 delta_y -20"
    );
    assert!(detector.is_due());
    assert_eq!(
        detector.record(Some((100, 200))),
        "mouse position 3 : -x 100 -y 200 delta_x 0 delta_y 0"
    );
    assert!(!detector.is_due());
    assert_eq!(
        detector.into_positions(),
        vec![[100, 200, 0, 0], [150, 180, 50, -20], [100, 200, 0, 0]]
    );
}

#[test]
fn detector_skips_failed_polls() {
    let mut detector = Detector::new(3);
    assert_eq!(detector.record(Some((10, 20))), "mouse position 1 : -x 10 -y 20 delta_x 0 delta_y 0");
    assert_eq!(detector.record(None), "could not detect the mouse position!");
    assert_eq!(detector.record(Some((7, 27))), "mouse position 3 : -x 7 -y 27 delta_x -3 delta_y 7");
    assert!(!detector.is_due());
    assert_eq!(detector.into_positions(), vec![[10, 20, 0, 0], [7, 27, -3, 7]]);
}

#[test]
fn detector_counts_from_the_corner_when_the_first_poll_fails() {
    let mut detector = Detector::new(2);
    assert_eq!(detector.record(None), "could not detect the mouse position!");
    assert_eq!(detector.record(Some((7, 27))), "mouse position 2 : -x 7 -y 27 delta_x 7 delta_y 27");
    assert_eq!(detector.into_positions(), vec![[7, 27, 7, 27]]);
}

#[test]
fn detector_without_polls_keeps_nothing() {
    for times in [0, -1, i32::MIN] {
        let detector = Detector::new(times);
        assert!(!detector.is_due());
        assert_eq!(detector.into_positions(), Vec::<[i32; 4]>::new());
    }
}

#[test]
fn detector_tells_which_samples_it_can_record() {
    let mut detector = Detector::new(3);
    assert!(detector.can_record(Some((i32::MIN, i32::MAX))));
    detector.record(Some((-1, 0)));
    assert!(detector.can_record(None));
    assert!(detector.can_record(Some((i32::MAX - 1, 0))));
    assert!(!detector.can_record(Some((i32::MAX, 0))));
    assert!(detector.can_record(Some((0, i32::MIN))));

    let mut below = Detector::new(2);
    below.record(Some((0, 1)));
    assert!(below.can_record(Some((0, i32::MIN + 1))));
    assert!(!below.can_record(Some((0, i32::MIN))));
}

#[test]
fn snippet_of_no_position_is_empty() {
    assert_eq!(action_snippet(&vec![]), "");
}

#[test]
fn snippet_of_one_position() {
    assert_eq!(
        action_snippet(&vec![[100, 200, 0, 0]]),
        "# position 1\n[[action]]\ntype = \"MOVECLICK\"\nx = 100\ny = 200\n\n[[action]]\ntype = \"MOVECLICK\"\nx = 0\ny = 0\nrelative = true\n"
    );
}

#[test]
fn snippet_separates_positions_by_an_empty_line() {
    let positions = vec![[100, 200, 0, 0], [150, 180, 50, -20], [1, 2, 3, 4]];
    let expected: Vec<String> = positions
        .iter()
        .enumerate()
        .map(|(idx, array)| {
            format!(
                "# position {}\n[[action]]\ntype = \"MOVECLICK\"\nx = {}\ny = {}\n\n[[action]]\ntype = \"MOVECLICK\"\nx = {}\ny = {}\nrelative = true\n",
                idx + 1,
                array[0],
                array[1],
                array[2],
                array[3]
            )
        })
        .collect();
    assert_eq!(action_snippet(&positions), expected.join("\n"));
}

#[test]
fn snippet_is_a_list_of_actions() {
    let text = action_snippet(&vec![[100, 200, 0, 0], [150, 180, 50, -20]]);
    let table: toml::Table = toml::from_str(&text).unwrap();
    let actions = table["action"].as_array().unwrap();
    assert_eq!(actions.len(), 4);
    assert_eq!(actions[2]["type"].as_str(), Some("MOVECLICK"));
    assert_eq!(actions[2]["x"].as_integer(), Some(150));
    assert_eq!(actions[2]["y"].as_integer(), Some(180));
    assert_eq!(actions[2].get("relative"), None);
    assert_eq!(actions[3]["x"].as_integer(), Some(50));
    assert_eq!(actions[3]["y"].as_integer(), Some(-20));
    assert_eq!(actions[3]["relative"].as_bool(), Some(true));
}

#[test]
fn refusal_is_no_or_n() {
    assert!(is_refusal(&"no".to_string()));
    assert!(is_refusal(&"n".to_string()));
    assert!(!is_refusal(&"yes".to_string()));
    assert!(!is_refusal(&"No".to_string()));
    assert!(!is_refusal(&" no".to_string()));
    assert!(!is_refusal(&String::new()));
}

#[test]
fn answer_is_trimmed_and_lowered_before_it_is_read() {
    assert!(!continues("no"));
    assert!(!continues("n"));
    assert!(!continues("  no \n"));
    assert!(!continues("NO\n"));
    assert!(!continues("No"));
    assert!(!continues("\tN\r\n"));
    assert!(continues("yes\n"));
    assert!(continues("\n"));
    assert!(continues(""));
    assert!(continues("nope"));
    assert!(continues("n o"));
}
