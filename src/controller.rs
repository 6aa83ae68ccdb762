use vstd::prelude::*;

use crate::cli::token_view;
use crate::decimal::{dec_chars, decimal_string};
use crate::request::FadeParameters;

verus! {

/// The external program that reads and changes the backlight level.
pub const BRIGHTNESS_PROGRAM: &'static str = "xbacklight";

/// The ways a run can change the brightness.
#[derive(Clone, Copy, Debug, PartialEq, Eq, Structural)]
pub enum AdjustKind {
    Increase,
    Decrease,
    SetLevel,
}

/// One change of brightness, as handed to the brightness program.
#[derive(Clone, Copy, Debug, PartialEq, Eq, Structural)]
pub struct Adjustment {
    pub kind: AdjustKind,
    pub percent: u8,
    pub fade: FadeParameters,
}

/// The brightness program's option for a kind of change.
pub open spec fn kind_option(kind: AdjustKind) -> Seq<char> {
    match kind {
        AdjustKind::Increase => "-inc"@,
        AdjustKind::Decrease => "-dec"@,
        AdjustKind::SetLevel => "-set"@,
    }
}

/// The arguments that make the brightness program perform `a`.
pub open spec fn adjust_arguments(a: Adjustment) -> Seq<Seq<char>> {
    seq![
        kind_option(a.kind),
        dec_chars(a.percent as nat),
        "-time"@,
        dec_chars(a.fade.fade_time_ms as nat),
        "-steps"@,
        dec_chars(a.fade.steps as nat),
    ]
}

/// The arguments that make the brightness program print the level.
pub open spec fn read_arguments() -> Seq<Seq<char>> {
    seq!["-get"@]
}

/// The level reported by the brightness program, given its output already
/// rounded to the nearest integer: present when it fits in a byte.
pub open spec fn level_of(rounded: int) -> Option<u8> {
    if 0 <= rounded <= 255 {
        Some(rounded as u8)
    } else {
        None
    }
}

impl Adjustment {
    /// The argument list that performs this change.
    pub fn program_args(&self) -> (r: Vec<String>)
        ensures
            token_view(r@) == adjust_arguments(*self),
    {
        let option = match self.kind {
            AdjustKind::Increase => "-inc",
            AdjustKind::Decrease => "-dec",
            AdjustKind::SetLevel => "-set",
        };
        let mut r: Vec<String> = Vec::new();
        r.push(String::from_str(option));
        r.push(decimal_string(self.percent as u64));
        r.push(String::from_str("-time"));
        r.push(decimal_string(self.fade.fade_time_ms as u64));
        r.push(String::from_str("-steps"));
        r.push(decimal_string(self.fade.steps as u64));
        assert(token_view(r@) =~= adjust_arguments(*self));
        r
    }
}

/// The argument list that reads the level.
pub fn read_args() -> (r: Vec<String>)
    ensures
        token_view(r@) == read_arguments(),
{
    let mut r: Vec<String> = Vec::new();
    r.push(String::from_str("-get"));
    assert(token_view(r@) =~= read_arguments());
    r
}

/// The level for the program's output, rounded to the nearest integer.
pub fn level_from_rounded(rounded: i64) -> (r: Option<u8>)
    ensures
        r == level_of(rounded as int),
{
    if 0 <= rounded && rounded <= 255 {
        Some(rounded as u8)
    } else {
        None
    }
}

} // verus!
