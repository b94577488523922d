//! The lines that tell the user what is being done.

use crate::decimal::{append_signed, append_unsigned, decimal, digits};
use vstd::prelude::*;
use vstd::string::StringExecFns;

verus! {

/// The line for a move to the initial position that was never given.
pub open spec fn missing_initial_text() -> Seq<char> {
    "Please specify the initial cursor -x -y in CLI parameters, actions not executed"@
}

/// `prefix`, then the two coordinates.
pub open spec fn coordinates_text(prefix: Seq<char>, x: int, y: int) -> Seq<char> {
    prefix + decimal(x) + " y:"@ + decimal(y)
}

/// The line for a move to the initial position.
pub open spec fn move_initial_text(x: int, y: int) -> Seq<char> {
    coordinates_text("move mouse cursor to initial position x:"@, x, y)
}

/// The line for a move to a place.
pub open spec fn move_text(x: int, y: int) -> Seq<char> {
    coordinates_text("move mouse cursor to position x:"@, x, y)
}

/// The line for a move to a place with a click.
pub open spec fn move_click_text(x: int, y: int) -> Seq<char> {
    coordinates_text("move mouse cursor to position x:"@, x, y) + ", and click"@
}

/// The line for a move by an offset.
pub open spec fn move_relative_text(x: int, y: int) -> Seq<char> {
    coordinates_text("move mouse cursor relatively x:"@, x, y)
}

/// The line for a click of the left button.
pub open spec fn left_click_text() -> Seq<char> {
    "click the left mouse button"@
}

/// The line for a double click.
pub open spec fn double_click_text() -> Seq<char> {
    "double click the left mouse button"@
}

/// The line for a click of the right button.
pub open spec fn right_click_text() -> Seq<char> {
    "click the right mouse button"@
}

/// The line for a pause.
pub open spec fn sleep_text(wait: u64) -> Seq<char> {
    "sleep for "@ + digits(wait as nat) + "ms"@
}

/// The line for a row of backspaces; the number is shown as the action gives it.
pub open spec fn backspace_text(number: int) -> Seq<char> {
    "press the BACKSPACE "@ + decimal(number) + " times"@
}

/// The line for the delete key.
pub open spec fn delete_text() -> Seq<char> {
    "press the DELETE key"@
}

/// The line for typed text.
pub open spec fn input_text(content: Seq<char>) -> Seq<char> {
    "input the content: "@ + content
}

/// The line for a changed field.
pub open spec fn change_text(x: int, y: int, content: Seq<char>) -> Seq<char> {
    coordinates_text("move to x:"@, x, y) + ", change the content to: "@ + content
}

/// The line for a typed date.
pub open spec fn date_text(date: Seq<char>) -> Seq<char> {
    "input the date string: "@ + date
}

/// The line for the return key.
pub open spec fn enter_text() -> Seq<char> {
    "press the RETURN key"@
}

/// Writes the line for a move to the initial position that was never given.
pub fn missing_initial_line() -> (line: String)
    ensures
        line@ == missing_initial_text(),
{
    String::from_str(
        "Please specify the initial cursor -x -y in CLI parameters, actions not executed",
    )
}

/// Writes the line for a click of the left button.
pub fn left_click_line() -> (line: String)
    ensures
        line@ == left_click_text(),
{
    String::from_str("click the left mouse button")
}

/// Writes the line for a double click.
pub fn double_click_line() -> (line: String)
    ensures
        line@ == double_click_text(),
{
    String::from_str("double click the left mouse button")
}

/// Writes the line for a click of the right button.
pub fn right_click_line() -> (line: String)
    ensures
        line@ == right_click_text(),
{
    String::from_str("click the right mouse button")
}

/// Writes the line for the delete key.
pub fn delete_line() -> (line: String)
    ensures
        line@ == delete_text(),
{
    String::from_str("press the DELETE key")
}

/// Writes the line for the return key.
pub fn enter_line() -> (line: String)
    ensures
        line@ == enter_text(),
{
    String::from_str("press the RETURN key")
}

/// Writes `prefix` and the two coordinates.
fn coordinates_line(prefix: &str, x: i32, y: i32) -> (line: String)
    ensures
        line@ == coordinates_text(prefix@, x as int, y as int),
{
    let mut line = String::from_str(prefix);
    append_signed(&mut line, x as i64);
    line.append(" y:");
    append_signed(&mut line, y as i64);
    line
}

/// Writes the line for a move to the initial position.
pub fn move_initial_line(x: i32, y: i32) -> (line: String)
    ensures
        line@ == move_initial_text(x as int, y as int),
{
    coordinates_line("move mouse cursor to initial position x:", x, y)
}

/// Writes the line for a move to a place.
pub fn move_line(x: i32, y: i32) -> (line: String)
    ensures
        line@ == move_text(x as int, y as int),
{
    coordinates_line("move mouse cursor to position x:", x, y)
}

/// Writes the line for a move to a place with a click.
pub fn move_click_line(x: i32, y: i32) -> (line: String)
    ensures
        line@ == move_click_text(x as int, y as int),
{
    let mut line = coordinates_line("move mouse cursor to position x:", x, y);
    line.append(", and click");
    line
}

/// Writes the line for a move by an offset.
pub fn move_relative_line(x: i32, y: i32) -> (line: String)
    ensures
        line@ == move_relative_text(x as int, y as int),
{
    coordinates_line("move mouse cursor relatively x:", x, y)
}

/// Writes the line for a pause.
pub fn sleep_line(wait: u64) -> (line: String)
    ensures
        line@ == sleep_text(wait),
{
    let mut line = String::from_str("sleep for ");
    append_unsigned(&mut line, wait);
    line.append("ms");
    line
}

/// Writes the line for a row of backspaces.
pub fn backspace_line(number: i32) -> (line: String)
    ensures
        line@ == backspace_text(number as int),
{
    let mut line = String::from_str("press the BACKSPACE ");
    append_signed(&mut line, number as i64);
    line.append(" times");
    line
}

/// Writes the line for typed text.
pub fn input_line(content: &str) -> (line: String)
    ensures
        line@ == input_text(content@),
{
    let mut line = String::from_str("input the content: ");
    line.append(content);
    line
}

/// Writes the line for a changed field.
pub fn change_line(x: i32, y: i32, content: &str) -> (line: String)
    ensures
        line@ == change_text(x as int, y as int, content@),
{
    let mut line = coordinates_line("move to x:", x, y);
    line.append(", change the content to: ");
    line.append(content);
    line
}

/// Writes the line for a typed date.
pub fn date_line(date: &str) -> (line: String)
    ensures
        line@ == date_text(date@),
{
    let mut line = String::from_str("input the date string: ");
    line.append(date);
    line
}

} // verus!
