//! The configuration of a run: the actions, their defaults and the sample file.

use vstd::prelude::*;

verus! {

/// One scripted step. Coordinates are screen pixels, `wait` is the pause after the step
/// in milliseconds, and `relative` asks for coordinates counted from the origin.
#[derive(Debug, Clone, PartialEq, Eq)]
pub enum Action {
    SETORIGIN { x: i32, y: i32 },
    UNSETORIGIN,
    MOVEINIT { wait: u64 },
    MOVE { x: i32, y: i32, wait: u64, relative: bool },
    MOVECLICK { x: i32, y: i32, wait: u64, relative: bool },
    MOVERELATIVE { x: i32, y: i32, wait: u64 },
    LEFTCLICK { wait: u64 },
    DOUBLECLICK { wait: u64 },
    RIGHTCLICK { wait: u64 },
    WAIT { wait: u64 },
    BACKSPACE { number: i32, wait: u64 },
    DELETE { wait: u64 },
    INPUT { content: String, wait: u64 },
    CHANGE { x: i32, y: i32, content: String, delnum: i32, wait: u64, relative: bool },
    DATE { wait: u64 },
    ENTER { wait: u64 },
}

/// An action as the contracts see it: the same step, its text as a sequence of
/// characters.
pub enum ActionView {
    SETORIGIN { x: i32, y: i32 },
    UNSETORIGIN,
    MOVEINIT { wait: u64 },
    MOVE { x: i32, y: i32, wait: u64, relative: bool },
    MOVECLICK { x: i32, y: i32, wait: u64, relative: bool },
    MOVERELATIVE { x: i32, y: i32, wait: u64 },
    LEFTCLICK { wait: u64 },
    DOUBLECLICK { wait: u64 },
    RIGHTCLICK { wait: u64 },
    WAIT { wait: u64 },
    BACKSPACE { number: i32, wait: u64 },
    DELETE { wait: u64 },
    INPUT { content: Seq<char>, wait: u64 },
    CHANGE { x: i32, y: i32, content: Seq<char>, delnum: i32, wait: u64, relative: bool },
    DATE { wait: u64 },
    ENTER { wait: u64 },
}

impl View for Action {
    type V = ActionView;

    open spec fn view(&self) -> ActionView {
        match *self {
            Action::SETORIGIN { x, y } => ActionView::SETORIGIN { x, y },
            Action::UNSETORIGIN => ActionView::UNSETORIGIN,
            Action::MOVEINIT { wait } => ActionView::MOVEINIT { wait },
            Action::MOVE { x, y, wait, relative } => ActionView::MOVE { x, y, wait, relative },
            Action::MOVECLICK { x, y, wait, relative } => ActionView::MOVECLICK {
                x,
                y,
                wait,
                relative,
            },
            Action::MOVERELATIVE { x, y, wait } => ActionView::MOVERELATIVE { x, y, wait },
            Action::LEFTCLICK { wait } => ActionView::LEFTCLICK { wait },
            Action::DOUBLECLICK { wait } => ActionView::DOUBLECLICK { wait },
            Action::RIGHTCLICK { wait } => ActionView::RIGHTCLICK { wait },
            Action::WAIT { wait } => ActionView::WAIT { wait },
            Action::BACKSPACE { number, wait } => ActionView::BACKSPACE { number, wait },
            Action::DELETE { wait } => ActionView::DELETE { wait },
            Action::INPUT { content, wait } => ActionView::INPUT { content: content@, wait },
            Action::CHANGE { x, y, content, delnum, wait, relative } => ActionView::CHANGE {
                x,
                y,
                content: content@,
                delnum,
                wait,
                relative,
            },
            Action::DATE { wait } => ActionView::DATE { wait },
            Action::ENTER { wait } => ActionView::ENTER { wait },
        }
    }
}

/// The views of a list of actions, in the same order.
pub open spec fn action_views(actions: Seq<Action>) -> Seq<ActionView> {
    actions.map_values(|a: Action| a@)
}

/// What a configuration file holds: whether its actions are to be executed at all, how
/// long to wait before the cursor is looked for, and the actions in their order.
#[derive(Debug)]
pub struct Config {
    pub execute_action: bool,
    pub wait_before_detect_cursor: u64,
    pub action: Vec<Action>,
}

/// A configuration as the contracts see it.
pub struct ConfigView {
    pub execute_action: bool,
    pub wait_before_detect_cursor: u64,
    pub action: Seq<ActionView>,
}

impl View for Config {
    type V = ConfigView;

    open spec fn view(&self) -> ConfigView {
        ConfigView {
            execute_action: self.execute_action,
            wait_before_detect_cursor: self.wait_before_detect_cursor,
            action: action_views(self.action@),
        }
    }
}

/// The pause after an action that names none: half a second.
pub fn default_wait() -> (wait: u64)
    ensures
        wait == 500,
{
    500
}

/// The pause before the cursor is looked for, where the file names none: five seconds.
pub fn default_wait_detect() -> (wait: u64)
    ensures
        wait == 5000,
{
    5_000
}

/// The delete count of a change that names none: negative, which stands for "as many as
/// the new text is long".
pub fn default_delnum() -> (delnum: i32)
    ensures
        delnum == -1,
{
    -1
}

/// Coordinates are absolute unless the action says otherwise.
pub fn default_relative() -> (relative: bool)
    ensures
        !relative,
{
    false
}

/// The actions of a file are executed unless the file says otherwise.
pub fn default_wait_execute() -> (execute: bool)
    ensures
        execute,
{
    true
}

/// What one start of the program is to do.
#[derive(Debug, Clone, Copy, PartialEq, Eq, Structural)]
pub enum Mode {
    /// Look for the cursor and write the positions found as a snippet of actions.
    Detect,
    /// Write the sample configuration.
    Sample,
    /// Execute the actions.
    Execute,
    /// Nothing was asked for.
    Idle,
}

/// What is asked for by the command line's flags and the file's `execute_action`.
pub open spec fn mode_of(detect: bool, sample: bool, execute: bool, config: ConfigView) -> Mode {
    if detect {
        Mode::Detect
    } else if sample {
        Mode::Sample
    } else if execute || config.execute_action {
        Mode::Execute
    } else {
        Mode::Idle
    }
}

/// Picks the mode: detection comes before the sample, the sample before execution, and
/// the actions are executed where either the command line or the file asks for it.
pub fn select_mode(detect: bool, sample: bool, execute: bool, config: &Config) -> (mode: Mode)
    ensures
        mode == mode_of(detect, sample, execute, config@),
{
    if detect {
        Mode::Detect
    } else if sample {
        Mode::Sample
    } else if execute || config.execute_action {
        Mode::Execute
    } else {
        Mode::Idle
    }
}

/// The name of the configuration file that is read, beside the program, where no
/// other is given.
pub const TOML_FILE: &'static str = "action_config.toml";

/// Tells whether the default file is to be read: no path was given.
pub fn wants_default_file(config_file: &str) -> (wanted: bool)
    ensures
        wanted == (config_file@.len() == 0),
{
    config_file.is_empty()
}

/// A configuration that shows every kind of action once, with its fields.
pub const TOML_SAMPLE: &'static str = r###"
execute_action = true # optional, default true
wait_before_detect_cursor = 4_000 # optional, ms


# set the origin, so that later action can move relative to ORIGIN
[[action]]
type = "SETORIGIN"
x = 100
y = 100

# unset the origin to (0, 0)
[[action]]
type = "UNSETORIGIN"

# move to initial position specified in the CLI parameters use -x -y
[[action]]
type = "MOVEINIT"
wait = 100 # optional, ms

# move the mouse cursor to specified x, y cordinates
[[action]]
type = "MOVE"
x = 100
y = 100
wait = 100 # optional, ms
relative = false # optional, if true, move to x, y relative to the origin

# move the mouse cursor to specified x, y coordinates, then click left button
[[action]]
type = "MOVECLICK"
x = 100
y = 100
wait = 100 # optional, ms
relative = false # optional, if true, move to x, y relative to the origin

# move relative to last position
[[action]]
type = "MOVERELATIVE"
x = 100
y = 100
wait = 100 # optional, ms

# click the left mouse button
[[action]]
type = "LEFTCLICK"
wait = 1_000 # optional, ms

# double click the left mouse button
[[action]]
type = "DOUBLECLICK"
wait = 1_000 # optional, ms

# click the right mouse button
[[action]]
type = "RIGHTCLICK"
wait = 2_000 # optional, ms

# wait for specified time, DO NOTHING
[[action]]
type = "WAIT"
wait = 5_000 # optional, ms

# press the BACKSPACE key for number times
[[action]]
type = "BACKSPACE"
number = 8
wait = 300 # optional, ms

# press the DELETE key
[[action]]
type = "DELETE"
wait = 100 # optional, ms

# input a string
[[action]]
type = "INPUT"
content = "Hello world"
wait = 100 # optional, ms

# change the content at specified x, y coordinates
# move to (x, y), then click, the press BACKSPACE delnum times, then input the content
[[action]]
type = "CHANGE"
x = 100
y = 100
content = "hello, world"
delnum = 10 # press BACKSPACE times
wait = 100
relative = true # if true, relative to origin

# input DATE as content, format like `20240331`
[[action]]
type = "DATE"
wait = 100

# press the ENTER key
[[action]]
type = "ENTER"
"###;

} // verus!
