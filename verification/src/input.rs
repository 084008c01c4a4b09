//! The vocabulary of the avatar's input surface: directions and their
//! normal form, the parameter paths, and the single writes they are set by.

use vstd::prelude::*;
use vstd::string::*;
use crate::osc::{Arg, ArgView, Message, MessageView};

verus! {

/// The upper-case form of one character, as `char::to_uppercase` gives it
/// (it may be more than one character long).
pub uninterp spec fn uppercase_of(c: char) -> Seq<char>;

/// The lower-case form of a text, as `str::to_lowercase` gives it.
pub uninterp spec fn lowercase_of(s: Seq<char>) -> Seq<char>;

/// Calls `char::to_uppercase` and collects the characters it yields. The
/// mapping is the one of the Unicode tables; the contract only names it.
#[verifier::external_body]
fn char_to_uppercase(c: char) -> (r: String)
    ensures
        r@ == uppercase_of(c),
{
    c.to_uppercase().collect()
}

/// Calls `str::to_lowercase`. The mapping is the one of the Unicode tables;
/// the contract only names it.
#[verifier::external_body]
pub(crate) fn str_to_lowercase(s: &str) -> (r: String)
    ensures
        r@ == lowercase_of(s@),
{
    s.to_lowercase()
}

/// The normal form of a direction word: its first character in upper case,
/// the rest in lower case.
pub open spec fn capitalized(s: Seq<char>) -> Seq<char> {
    if s.len() == 0 {
        Seq::<char>::empty()
    } else {
        uppercase_of(s[0]) + lowercase_of(s.skip(1))
    }
}

/// Capitalizes the first letter of a text and makes everything else lower case.
pub fn capitalize(s: &str) -> (r: String)
    ensures
        r@ == capitalized(s@),
{
    let n: usize = s.unicode_len();
    if n == 0 {
        String::new()
    } else {
        let first = s.get_char(0);
        let rest = s.substring_char(1, n);
        assert(rest@ =~= s@.skip(1));
        let mut out = char_to_uppercase(first);
        let lower = str_to_lowercase(rest);
        out.append(lower.as_str());
        out
    }
}

/// A direction of movement.
#[derive(Debug, Clone, Copy, PartialEq, Eq, Structural)]
pub enum MoveDirection {
    Forward,
    Backward,
    Left,
    Right,
}

/// A direction in which the view turns.
#[derive(Debug, Clone, Copy, PartialEq, Eq, Structural)]
pub enum LookDirection {
    Left,
    Right,
}

/// A request that names no known control.
#[derive(Debug, Clone, Copy, PartialEq, Eq, Structural)]
pub enum InputError {
    /// The word is not one of the four directions of movement.
    InvalidMoveDirection,
    /// The word is not one of the two directions of looking.
    InvalidLookDirection,
}

/// The direction of movement that a word in normal form names.
pub open spec fn move_direction_named(name: Seq<char>) -> Option<MoveDirection> {
    if name == "Forward"@ {
        Some(MoveDirection::Forward)
    } else if name == "Backward"@ {
        Some(MoveDirection::Backward)
    } else if name == "Left"@ {
        Some(MoveDirection::Left)
    } else if name == "Right"@ {
        Some(MoveDirection::Right)
    } else {
        None
    }
}

/// The direction of looking that a word in normal form names.
pub open spec fn look_direction_named(name: Seq<char>) -> Option<LookDirection> {
    if name == "Left"@ {
        Some(LookDirection::Left)
    } else if name == "Right"@ {
        Some(LookDirection::Right)
    } else {
        None
    }
}

fn same_text(a: &str, b: &str) -> (r: bool)
    ensures
        r == (a@ == b@),
{
    String::from_str(a) == String::from_str(b)
}

/// Reads a word in normal form (`Forward`, `Backward`, `Left`, `Right`) as
/// a direction of movement; any other word names none.
pub fn move_direction_from_name(name: &str) -> (r: Option<MoveDirection>)
    ensures
        r == move_direction_named(name@),
{
    if same_text(name, "Forward") {
        Some(MoveDirection::Forward)
    } else if same_text(name, "Backward") {
        Some(MoveDirection::Backward)
    } else if same_text(name, "Left") {
        Some(MoveDirection::Left)
    } else if same_text(name, "Right") {
        Some(MoveDirection::Right)
    } else {
        None
    }
}

/// Reads a word in normal form (`Left`, `Right`) as a direction of looking;
/// any other word names none.
pub fn look_direction_from_name(name: &str) -> (r: Option<LookDirection>)
    ensures
        r == look_direction_named(name@),
{
    if same_text(name, "Left") {
        Some(LookDirection::Left)
    } else if same_text(name, "Right") {
        Some(LookDirection::Right)
    } else {
        None
    }
}

/// The direction of movement that a word names once it is brought to normal
/// form, or the error for a word that names none.
pub open spec fn parsed_move(word: Seq<char>) -> Result<MoveDirection, InputError> {
    match move_direction_named(capitalized(word)) {
        Some(d) => Ok(d),
        None => Err(InputError::InvalidMoveDirection),
    }
}

/// The direction of looking that a word names once it is brought to normal
/// form, or the error for a word that names none.
pub open spec fn parsed_look(word: Seq<char>) -> Result<LookDirection, InputError> {
    match look_direction_named(capitalized(word)) {
        Some(d) => Ok(d),
        None => Err(InputError::InvalidLookDirection),
    }
}

/// Reads a direction of movement in any casing.
pub fn parse_move_direction(word: &str) -> (r: Result<MoveDirection, InputError>)
    ensures
        r == parsed_move(word@),
{
    let name = capitalize(word);
    match move_direction_from_name(name.as_str()) {
        Some(d) => Ok(d),
        None => Err(InputError::InvalidMoveDirection),
    }
}

/// Reads a direction of looking in any casing.
pub fn parse_look_direction(word: &str) -> (r: Result<LookDirection, InputError>)
    ensures
        r == parsed_look(word@),
{
    let name = capitalize(word);
    match look_direction_from_name(name.as_str()) {
        Some(d) => Ok(d),
        None => Err(InputError::InvalidLookDirection),
    }
}

/// The parameter path of the button that moves in a direction.
pub open spec fn move_path(d: MoveDirection) -> Seq<char> {
    match d {
        MoveDirection::Forward => "/input/MoveForward"@,
        MoveDirection::Backward => "/input/MoveBackward"@,
        MoveDirection::Left => "/input/MoveLeft"@,
        MoveDirection::Right => "/input/MoveRight"@,
    }
}

/// The parameter path of the button that turns the view in a direction.
pub open spec fn look_path(d: LookDirection) -> Seq<char> {
    match d {
        LookDirection::Left => "/input/LookLeft"@,
        LookDirection::Right => "/input/LookRight"@,
    }
}

/// The parameter path of the jump button.
pub open spec fn jump_path() -> Seq<char> {
    "/input/Jump"@
}

/// The parameter path of the run button.
pub open spec fn run_path() -> Seq<char> {
    "/input/Run"@
}

/// The parameter path of the chatbox.
pub open spec fn chatbox_path() -> Seq<char> {
    "/chatbox/input"@
}

/// A continuous input, set by one write of a value between -1 and 1.
#[derive(Debug, Clone, Copy, PartialEq, Eq, Structural)]
pub enum Axis {
    /// Forward and backward movement.
    Vertical,
    /// Left and right movement.
    Horizontal,
    /// Forward and backward movement of a held object.
    MoveHoldFB,
    /// Clockwise and counter-clockwise spin of a held object.
    SpinHoldCwCcw,
    /// Up and down spin of a held object.
    SpinHoldUD,
    /// Left and right spin of a held object.
    SpinHoldLR,
}

/// The parameter path of an axis.
pub open spec fn axis_path_of(axis: Axis) -> Seq<char> {
    match axis {
        Axis::Vertical => "/input/Vertical"@,
        Axis::Horizontal => "/input/Horizontal"@,
        Axis::MoveHoldFB => "/input/MoveHoldFB"@,
        Axis::SpinHoldCwCcw => "/input/SpinHoldCwCcw"@,
        Axis::SpinHoldUD => "/input/SpinHoldUD"@,
        Axis::SpinHoldLR => "/input/SpinHoldLR"@,
    }
}

/// The parameter path that an axis is written to.
pub fn axis_path(axis: Axis) -> (r: &'static str)
    ensures
        r@ == axis_path_of(axis),
{
    match axis {
        Axis::Vertical => "/input/Vertical",
        Axis::Horizontal => "/input/Horizontal",
        Axis::MoveHoldFB => "/input/MoveHoldFB",
        Axis::SpinHoldCwCcw => "/input/SpinHoldCwCcw",
        Axis::SpinHoldUD => "/input/SpinHoldUD",
        Axis::SpinHoldLR => "/input/SpinHoldLR",
    }
}

/// A write of one boolean to a parameter.
pub open spec fn bool_write(addr: Seq<char>, value: bool) -> MessageView {
    MessageView { addr, args: seq![ArgView::Bool(value)] }
}

/// A write of one integer to a parameter.
pub open spec fn int_write(addr: Seq<char>, value: i32) -> MessageView {
    MessageView { addr, args: seq![ArgView::Int(value)] }
}

/// A chatbox post: the text, then `true` (post at once, without opening the
/// keyboard) and `false` (play no notification sound).
pub open spec fn chatbox_write(text: Seq<char>) -> MessageView {
    MessageView {
        addr: chatbox_path(),
        args: seq![ArgView::Str(text), ArgView::Bool(true), ArgView::Bool(false)],
    }
}

/// The write that presses or releases the button of a direction of movement.
pub fn move_write(d: MoveDirection, pressed: bool) -> (m: Message)
    ensures
        m@ == bool_write(move_path(d), pressed),
{
    let addr = match d {
        MoveDirection::Forward => "/input/MoveForward",
        MoveDirection::Backward => "/input/MoveBackward",
        MoveDirection::Left => "/input/MoveLeft",
        MoveDirection::Right => "/input/MoveRight",
    };
    let m = Message { addr: String::from_str(addr), args: vec![Arg::Bool(pressed)] };
    assert(m@.args =~= seq![ArgView::Bool(pressed)]);
    m
}

/// The write that presses or releases the button of a direction of looking.
pub fn look_write(d: LookDirection, pressed: bool) -> (m: Message)
    ensures
        m@ == bool_write(look_path(d), pressed),
{
    let addr = match d {
        LookDirection::Left => "/input/LookLeft",
        LookDirection::Right => "/input/LookRight",
    };
    let m = Message { addr: String::from_str(addr), args: vec![Arg::Bool(pressed)] };
    assert(m@.args =~= seq![ArgView::Bool(pressed)]);
    m
}

/// The write that sets the run level: 1 runs, 0 walks.
pub fn run_write(level: i32) -> (m: Message)
    ensures
        m@ == int_write(run_path(), level),
{
    let m = Message { addr: String::from_str("/input/Run"), args: vec![Arg::Int(level)] };
    assert(m@.args =~= seq![ArgView::Int(level)]);
    m
}

/// The write that sets the jump button: 1 presses, 0 resets.
pub fn jump_write(level: i32) -> (m: Message)
    ensures
        m@ == int_write(jump_path(), level),
{
    let m = Message { addr: String::from_str("/input/Jump"), args: vec![Arg::Int(level)] };
    assert(m@.args =~= seq![ArgView::Int(level)]);
    m
}

/// The write that posts a text to the chatbox. The text is passed on whole.
pub fn chatbox_write_of(text: &str) -> (m: Message)
    ensures
        m@ == chatbox_write(text@),
{
    let m = Message {
        addr: String::from_str("/chatbox/input"),
        args: vec![Arg::Str(String::from_str(text)), Arg::Bool(true), Arg::Bool(false)],
    };
    assert(m@.args =~= seq![ArgView::Str(text@), ArgView::Bool(true), ArgView::Bool(false)]);
    m
}

} // verus!
