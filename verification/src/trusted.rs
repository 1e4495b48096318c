//! What the library takes on trust from `alacritty_terminal` and `serde_json`.
//!
//! Each function makes one call into an outside crate. Its contract is believed, not proved.

use alacritty_terminal::index::Line;
use alacritty_terminal::term::test::TermSize;
use alacritty_terminal::term::TermMode;
use vstd::prelude::*;

use crate::decimal::decimal;

verus! {

/// Whether every bit of `flags` is set in `mode`.
pub open spec fn has_flags(mode: u32, flags: u32) -> bool {
    mode & flags == flags
}

/// The JSON object that describes a terminal of `columns` by `screen_lines` cells.
pub open spec fn term_size_text(columns: nat, screen_lines: nat) -> Seq<char> {
    "{\"columns\":"@ + decimal(columns) + ",\"screen_lines\":"@ + decimal(screen_lines) + "}"@
}

/// Calls `alacritty_terminal::term::TermMode::contains` on two modes given by their bits.
///
/// Claimed: the answer is whether all bits of `flags` are set in `mode`.
#[verifier::external_body]
pub(crate) fn term_mode_contains(mode: u32, flags: u32) -> (r: bool)
    ensures
        r == has_flags(mode, flags),
{
    TermMode::from_bits_retain(mode).contains(TermMode::from_bits_retain(flags))
}

/// Calls the addition of an `i32` to an `alacritty_terminal::index::Line`.
///
/// Claimed: the line's number grows by `offset`. A sum outside `i32` is left out, because the
/// addition may panic there.
#[verifier::external_body]
pub(crate) fn line_plus(line: i32, offset: i32) -> (r: i32)
    requires
        i32::MIN <= line + offset <= i32::MAX,
    ensures
        r == line + offset,
{
    (Line(line) + offset).0
}

/// Calls the comparison `==` of an `alacritty_terminal::index::Line` with a `usize`.
///
/// Claimed: the line's number is compared with `number` cast to `i32`.
#[verifier::external_body]
pub(crate) fn line_is(line: i32, number: usize) -> (r: bool)
    ensures
        r == (line == number as i32),
{
    Line(line) == number
}

/// Calls `serde_json::to_string` on an `alacritty_terminal::term::test::TermSize`.
///
/// Claimed: the text is a JSON object without white space, whose members are `columns` and
/// `screen_lines`, in this order, each a decimal number. Writing such a value cannot fail.
#[verifier::external_body]
pub(crate) fn term_size_json(columns: usize, screen_lines: usize) -> (r: String)
    ensures
        r@ == term_size_text(columns as nat, screen_lines as nat),
{
    serde_json::to_string(&TermSize::new(columns, screen_lines)).expect("serialize size")
}

} // verus!
