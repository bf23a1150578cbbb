use vstd::prelude::*;

verus! {

/// The explanation that every shortage error carries.
pub open spec fn shortage_message() -> Seq<char> {
    "Not enough vacation days are available."@
}

/// The character of a decimal digit `d < 10`.
pub open spec fn digit_char(d: nat) -> char
    recommends
        d < 10,
{
    seq!['0', '1', '2', '3', '4', '5', '6', '7', '8', '9'][d as int]
}

/// The decimal notation of `n`, without leading zeros.
pub open spec fn decimal(n: nat) -> Seq<char>
    decreases n,
{
    if n < 10 {
        seq![digit_char(n)]
    } else {
        decimal(n / 10).push(digit_char(n % 10))
    }
}

/// A vacation request that asked for more days than the balance holds.
#[derive(Debug, PartialEq)]
pub struct VacationDaysShortageError {
    pub requested_days: u8,
    pub remaining_days: u8,
    pub message: String,
}

impl VacationDaysShortageError {
    /// Whether this error reports a request of `requested` days against a
    /// balance of `remaining` days, with the standard explanation.
    pub open spec fn is_shortage(&self, requested: u8, remaining: u8) -> bool {
        &&& self.requested_days == requested
        &&& self.remaining_days == remaining
        &&& self.message@ == shortage_message()
    }

    /// The human-readable report of this error.
    pub open spec fn report(&self) -> Seq<char> {
        "Not enough vacation days are available. Requested: "@ + decimal(
            self.requested_days as nat,
        ) + ", Remaining: "@ + decimal(self.remaining_days as nat) + ". Message: "@
            + self.message@
    }

    /// The error for a request of `requested_days` against a balance of
    /// `remaining_days`, with the standard explanation.
    pub fn shortage(requested_days: u8, remaining_days: u8) -> (r: Self)
        ensures
            r.is_shortage(requested_days, remaining_days),
    {
        VacationDaysShortageError {
            requested_days,
            remaining_days,
            message: String::from_str("Not enough vacation days are available."),
        }
    }

    /// Renders the error as text: the requested and remaining days, then the
    /// explanation.
    pub fn to_string(&self) -> (r: String)
        ensures
            r@ == self.report(),
    {
        let mut s = String::from_str("Not enough vacation days are available. Requested: ");
        push_decimal(&mut s, self.requested_days);
        s.append(", Remaining: ");
        push_decimal(&mut s, self.remaining_days);
        s.append(". Message: ");
        s.append(self.message.as_str());
        s
    }
}

/// Appends the decimal notation of `n` to `s`.
fn push_decimal(s: &mut String, n: u8)
    ensures
        final(s)@ == old(s)@ + decimal(n as nat),
{
    let digits = "0123456789";
    proof {
        reveal_strlit("0123456789");
        assert(digits@ =~= seq!['0', '1', '2', '3', '4', '5', '6', '7', '8', '9']);
    }
    let hundreds: usize = (n / 100) as usize;
    let tens: usize = ((n / 10) % 10) as usize;
    let ones: usize = (n % 10) as usize;
    if n >= 100 {
        s.append(digits.substring_char(hundreds, hundreds + 1));
    }
    if n >= 10 {
        s.append(digits.substring_char(tens, tens + 1));
    }
    s.append(digits.substring_char(ones, ones + 1));
    proof {
        let m = n as nat;
        if m >= 100 {
            assert(decimal(m / 100) == seq![digit_char(m / 100)]);
            assert(decimal(m / 10) == decimal(m / 100).push(digit_char((m / 10) % 10)));
        } else if m >= 10 {
            assert(decimal(m / 10) == seq![digit_char(m / 10)]);
        }
        assert(s@ =~= old(s)@ + decimal(m));
    }
}

} // verus!
