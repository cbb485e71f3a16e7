//! What the agent tells its operator, and how each report reads as a line of
//! text.

use vstd::prelude::*;
use vstd::string::StringExecFns;

verus! {

/// One line of progress. Reports describe decisions; they never change one.
#[derive(Clone, Copy, Debug, PartialEq, Eq, Structural)]
pub enum Report {
    /// The watched core can be renewed for `price`, for the cycle that starts
    /// at `begin`.
    Renewable { core: u16, price: u128, begin: u32 },
    /// The account holds `free`, which does not cover `price` and the deposit
    /// that must stay.
    FundsShort { free: u128, price: u128 },
    /// The window is open and the funds suffice: the renewal of `core` is
    /// being submitted.
    Attempting { core: u16 },
    /// The chain finalized the renewal of `core` that was submitted at
    /// `block`.
    Renewed { core: u16, block: u32 },
    /// The window closed: `core` must now be bought on the open market.
    WindowMissed { core: u16 },
}

/// The character of the decimal digit `d`.
pub open spec fn digit(d: nat) -> char {
    if d == 0 {
        '0'
    } else if d == 1 {
        '1'
    } else if d == 2 {
        '2'
    } else if d == 3 {
        '3'
    } else if d == 4 {
        '4'
    } else if d == 5 {
        '5'
    } else if d == 6 {
        '6'
    } else if d == 7 {
        '7'
    } else if d == 8 {
        '8'
    } else {
        '9'
    }
}

/// The decimal numeral of `n`: no sign, no leading zero but for zero itself.
pub open spec fn decimal(n: nat) -> Seq<char>
    decreases n,
{
    if n < 10 {
        seq![digit(n)]
    } else {
        decimal(n / 10).push(digit(n % 10))
    }
}

/// The last decimal digit of `n`, as text.
fn last_digit(n: u128) -> (text: &'static str)
    ensures
        text@ == seq![digit((n % 10) as nat)],
{
    proof {
        reveal_strlit("0");
        reveal_strlit("1");
        reveal_strlit("2");
        reveal_strlit("3");
        reveal_strlit("4");
        reveal_strlit("5");
        reveal_strlit("6");
        reveal_strlit("7");
        reveal_strlit("8");
        reveal_strlit("9");
    }
    let d: u128 = n % 10;
    let text = if d == 0 {
        "0"
    } else if d == 1 {
        "1"
    } else if d == 2 {
        "2"
    } else if d == 3 {
        "3"
    } else if d == 4 {
        "4"
    } else if d == 5 {
        "5"
    } else if d == 6 {
        "6"
    } else if d == 7 {
        "7"
    } else if d == 8 {
        "8"
    } else {
        "9"
    };
    assert(text@ =~= seq![digit((n % 10) as nat)]);
    text
}

/// Appends the decimal numeral of `n` to `out`.
pub fn push_decimal(out: &mut String, n: u128)
    ensures
        final(out)@ == old(out)@ + decimal(n as nat),
    decreases n,
{
    if n >= 10 {
        push_decimal(out, n / 10);
    }
    out.append(last_digit(n));
    assert(out@ =~= old(out)@ + decimal(n as nat));
}

impl Report {
    /// The text of the report.
    pub open spec fn text(self) -> Seq<char> {
        match self {
            Report::Renewable { core, price, begin } => "Core is renewable from region "@
                + decimal(begin as nat) + " at the price of "@ + decimal(price as nat) + "."@,
            Report::FundsShort { free, price } =>
                "Funds not enough to renew the core, please add more funds to your account."@,
            Report::Attempting { core } => "In renewal window, attempting to renew core #"@
                + decimal(core as nat) + "."@,
            Report::Renewed { core, block } => "Renewed core #"@ + decimal(core as nat)
                + " on block #"@ + decimal(block as nat) + "."@,
            Report::WindowMissed { core } =>
                "Outside of renewal window. Coretime must be purchased on the open market."@,
        }
    }

    /// Writes the report as one line of text, without a line end.
    pub fn line(&self) -> (line: String)
        ensures
            line@ == self.text(),
    {
        match *self {
            Report::Renewable { core, price, begin } => {
                let mut line = String::from_str("Core is renewable from region ");
                push_decimal(&mut line, begin as u128);
                line.append(" at the price of ");
                push_decimal(&mut line, price);
                line.append(".");
                line
            },
            Report::FundsShort { free, price } => String::from_str(
                "Funds not enough to renew the core, please add more funds to your account.",
            ),
            Report::Attempting { core } => {
                let mut line = String::from_str("In renewal window, attempting to renew core #");
                push_decimal(&mut line, core as u128);
                line.append(".");
                line
            },
            Report::Renewed { core, block } => {
                let mut line = String::from_str("Renewed core #");
                push_decimal(&mut line, core as u128);
                line.append(" on block #");
                push_decimal(&mut line, block as u128);
                line.append(".");
                line
            },
            Report::WindowMissed { core } => String::from_str(
                "Outside of renewal window. Coretime must be purchased on the open market.",
            ),
        }
    }
}

} // verus!
