//! Cards as text: the short form for people and the long form for
//! diagnostics.

use vstd::prelude::*;
use vstd::string::StrSliceExecFns;
use vstd::string::StringExecFns;
use crate::card::Card;

verus! {

/// The character that stands for a digit below ten.
pub open spec fn digit_char(d: nat) -> char
    recommends
        d < 10,
{
    "0123456789"@[d as int]
}

/// The digits of `n` in the given base, most significant first, with leading
/// zeros where there would be fewer than `width` of them. There is always
/// at least one digit.
pub open spec fn digits(n: nat, base: nat, width: nat) -> Seq<char>
    recommends
        2 <= base <= 10,
    decreases n, width,
    via digits_terminates
{
    if base < 2 {
        Seq::empty()
    } else if n < base && width <= 1 {
        seq![digit_char(n)]
    } else {
        digits(n / base, base, if width == 0 { 0 } else { (width - 1) as nat }).push(
            digit_char(n % base),
        )
    }
}

#[via_fn]
proof fn digits_terminates(n: nat, base: nat, width: nat) {
    if base >= 2 {
        lemma_quotient_is_smaller(n, base);
    }
}

/// Dividing by two or more leaves a number below the divisor as the
/// remainder, with quotient 0, and gives less than the dividend from there
/// on.
proof fn lemma_quotient_is_smaller(n: nat, base: nat)
    requires
        base >= 2,
    ensures
        n < base ==> n / base == 0 && n % base == n,
        n >= base ==> n / base < n,
        n % base < base,
{
    assert(n < base ==> n / base == 0 && n % base == n) by (nonlinear_arith)
        requires
            base >= 2,
    ;
    assert(n >= base ==> n / base < n) by (nonlinear_arith)
        requires
            base >= 2,
    ;
    assert(n % base < base) by (nonlinear_arith)
        requires
            base >= 2,
    ;
}

/// A digit below ten as a string of one character.
fn digit_str(d: u8) -> (s: &'static str)
    requires
        d < 10,
    ensures
        s@ == seq![digit_char(d as nat)],
{
    proof {
        reveal_strlit("0123456789");
    }
    let s = "0123456789".substring_char(d as usize, d as usize + 1);
    assert(s@ =~= seq![digit_char(d as nat)]);
    s
}

/// Appends the digits of `n` to `out`.
fn push_digits(out: &mut String, n: u8, base: u8, width: u8)
    requires
        2 <= base <= 10,
    ensures
        final(out)@ == old(out)@ + digits(n as nat, base as nat, width as nat),
    decreases n, width,
{
    proof {
        lemma_quotient_is_smaller(n as nat, base as nat);
    }
    if n >= base || width > 1 {
        let rest_width: u8 = if width == 0 { 0 } else { width - 1 };
        push_digits(out, n / base, base, rest_width);
    }
    out.append(digit_str(n % base));
    assert(out@ =~= old(out)@ + digits(n as nat, base as nat, width as nat));
}

impl Card {
    /// The short form: the rank's name, ` of `, the suit's name.
    pub open spec fn display_form(self) -> Seq<char> {
        self.rank().label() + " of "@ + self.suit().label()
    }

    /// The long form: the packed byte in decimal, the same byte in binary
    /// behind `0b` with no fewer than six digits, and the names of the trump
    /// suit, the suit and the rank, each of the last four in quotes.
    pub open spec fn debug_form(self) -> Seq<char> {
        "Card { packed: "@ + digits(self@ as nat, 10, 1)
            + ", binary: \"0b"@ + digits(self@ as nat, 2, 6)
            + "\", trump: \""@ + self.trump_suit().label()
            + "\", suit: \""@ + self.suit().label()
            + "\", rank: \""@ + self.rank().label()
            + "\" }"@
    }

    /// Renders the card for people, as in `Queen of Spades`.
    pub fn to_string(&self) -> (s: String)
        ensures
            s@ == self.display_form(),
    {
        let mut s = String::from_str(self.get_rank().name());
        s.append(" of ");
        s.append(self.get_suit().name());
        s
    }

    /// Renders the card for diagnostics, with the raw byte and every decoded
    /// field, as in
    /// `Card { packed: 199, binary: "0b11000111", trump: "Diamonds", suit: "Spades", rank: "Queen" }`.
    pub fn debug_string(&self) -> (s: String)
        ensures
            s@ == self.debug_form(),
    {
        let packed = self.packed();
        let mut s = String::from_str("Card { packed: ");
        push_digits(&mut s, packed, 10, 1);
        s.append(", binary: \"0b");
        push_digits(&mut s, packed, 2, 6);
        s.append("\", trump: \"");
        s.append(self.get_trump_suit().name());
        s.append("\", suit: \"");
        s.append(self.get_suit().name());
        s.append("\", rank: \"");
        s.append(self.get_rank().name());
        s.append("\" }");
        s
    }
}

} // verus!
