//! The escape sequences that position the caret and clear the screen.
//!
//! The sequences come from termion. What this module says they are is
//! taken on trust from termion's source and is not proved here.

use vstd::prelude::*;

verus! {

/// The decimal digits of `n` as ASCII bytes, most significant first, with no
/// leading zero.
pub open spec fn decimal(n: nat) -> Seq<u8>
    decreases n,
{
    if n < 10 {
        seq![(48 + n) as u8]
    } else {
        decimal(n / 10).push((48 + n % 10) as u8)
    }
}

/// `ESC [ y ; x H`: moves the caret to column `x` of row `y`, both counted
/// from 1.
pub open spec fn goto_sequence(x: nat, y: nat) -> Seq<u8> {
    seq![0x1Bu8, 0x5Bu8] + decimal(y) + seq![0x3Bu8] + decimal(x) + seq![0x48u8]
}

/// `ESC [ 2 J`: clears the whole screen.
pub open spec fn clear_all_sequence() -> Seq<u8> {
    seq![0x1Bu8, 0x5Bu8, 0x32u8, 0x4Au8]
}

/// The bytes that `termion::cursor::Goto(x, y)` displays as, through its
/// implementation of `std::fmt::Display`.
///
/// Trusted: termion writes `ESC [`, the row in decimal, `;`, the column in
/// decimal and `H`. Positions are counted from 1; with a zero the call is
/// not made, because termion asserts in debug builds that the position is
/// not (0, 0).
#[verifier::external_body]
pub(crate) fn goto(x: u16, y: u16) -> (bytes: Vec<u8>)
    requires
        x >= 1,
        y >= 1,
    ensures
        bytes@ == goto_sequence(x as nat, y as nat),
{
    format!("{}", termion::cursor::Goto(x, y)).into_bytes()
}

/// The bytes that `termion::clear::All` displays as, through its
/// implementation of `std::fmt::Display`.
///
/// Trusted: termion writes the fixed sequence `ESC [ 2 J`.
#[verifier::external_body]
pub(crate) fn clear_all() -> (bytes: Vec<u8>)
    ensures
        bytes@ == clear_all_sequence(),
{
    format!("{}", termion::clear::All).into_bytes()
}

} // verus!
