use vstd::prelude::*;

use crate::enums::Role;
use crate::errors::VacationDaysShortageError;

verus! {

/// A person with a name and an age.
#[derive(Debug)]
pub struct Person {
    pub name: String,
    pub age: u8,
}

impl Person {
    /// Creates a person from a name and an age.
    pub fn new(name: String, age: u8) -> (r: Self)
        ensures
            r.name == name,
            r.age == age,
    {
        Self { name, age }
    }
}

/// The number of vacation days that one payout converts into money.
pub const FIXED_VACATION_DAYS_PAYOUT: u8 = 5;

/// Whether a request for `days` can be granted from a balance of `balance`.
pub open spec fn grants(balance: u8, days: u8) -> bool {
    days <= balance
}

/// The balance left after a request for `days`: debited when the request is
/// granted, unchanged when it is refused.
pub open spec fn balance_after(balance: u8, days: u8) -> u8 {
    if grants(balance, days) {
        (balance - days) as u8
    } else {
        balance
    }
}

/// Whether a payout can be made from a balance of `balance`.
pub open spec fn payout_granted(balance: u8) -> bool {
    balance >= FIXED_VACATION_DAYS_PAYOUT
}

/// The balance left after a payout: the payout quantum less when it is made,
/// unchanged when it is refused.
pub open spec fn balance_after_payout(balance: u8) -> u8 {
    if payout_granted(balance) {
        (balance - FIXED_VACATION_DAYS_PAYOUT) as u8
    } else {
        balance
    }
}

/// An employee: who they are, their role, how they are paid (`W`), and how
/// many vacation days they have left.
#[derive(Debug)]
pub struct Employee<W> {
    pub person: Person,
    pub role: Role,
    pub wage: W,
    pub vacation_days: u8,
}

impl<W> Employee<W> {
    /// Whether `self` and `other` are the same employee but for the vacation
    /// balance.
    pub open spec fn same_but_balance(&self, other: &Self) -> bool {
        &&& self.person == other.person
        &&& self.role == other.role
        &&& self.wage == other.wage
    }

    /// Creates an employee with the given vacation balance.
    pub fn new(person: Person, role: Role, wage: W, vacation_days: u8) -> (r: Self)
        ensures
            r.person == person,
            r.role == role,
            r.wage == wage,
            r.vacation_days == vacation_days,
    {
        Self { person, role, wage, vacation_days }
    }

    /// Takes `days` of vacation. When the balance holds fewer than `days`, the
    /// request is refused with a shortage error and the balance is left as it
    /// was; otherwise `days` are debited.
    pub fn take_vacation(&mut self, days: u8) -> (r: Result<(), VacationDaysShortageError>)
        ensures
            r is Ok <==> grants(old(self).vacation_days, days),
            final(self).vacation_days == balance_after(old(self).vacation_days, days),
            r matches Err(e) ==> e.is_shortage(days, old(self).vacation_days),
            final(self).same_but_balance(old(self)),
    {
        if self.vacation_days < days {
            return Err(VacationDaysShortageError::shortage(days, self.vacation_days));
        }
        self.subtract_vacation_days(days);
        Ok(())
    }

    /// Pays out a fixed quantum of vacation days. When the balance holds fewer
    /// days than that, the payout is refused with a shortage error and the
    /// balance is left as it was; otherwise the quantum is debited.
    pub fn payout_vacation(&mut self) -> (r: Result<(), VacationDaysShortageError>)
        ensures
            r is Ok <==> payout_granted(old(self).vacation_days),
            final(self).vacation_days == balance_after_payout(old(self).vacation_days),
            r matches Err(e) ==> e.is_shortage(
                FIXED_VACATION_DAYS_PAYOUT,
                old(self).vacation_days,
            ),
            final(self).same_but_balance(old(self)),
    {
        if self.vacation_days < FIXED_VACATION_DAYS_PAYOUT {
            return Err(
                VacationDaysShortageError::shortage(
                    FIXED_VACATION_DAYS_PAYOUT,
                    self.vacation_days,
                ),
            );
        }
        self.subtract_vacation_days(FIXED_VACATION_DAYS_PAYOUT);
        Ok(())
    }

    fn subtract_vacation_days(&mut self, days: u8)
        requires
            days <= old(self).vacation_days,
        ensures
            final(self).vacation_days == old(self).vacation_days - days,
            final(self).same_but_balance(old(self)),
    {
        self.vacation_days -= days;
    }
}

/// A payout behaves as a request for the payout quantum: it succeeds on the
/// same balances, and leaves the same balance behind.
pub proof fn lemma_payout_is_fixed_request(balance: u8)
    ensures
        payout_granted(balance) == grants(balance, FIXED_VACATION_DAYS_PAYOUT),
        balance_after_payout(balance) == balance_after(balance, FIXED_VACATION_DAYS_PAYOUT),
{
}

/// Refusals leave no trace: a request larger than the balance, made again and
/// again, never changes the balance. `balances` holds the balance before the
/// first request and after each one.
pub proof fn lemma_refusals_keep_balance(balances: Seq<u8>, days: u8)
    requires
        balances.len() >= 1,
        days > balances[0],
        forall|i: int|
            0 <= i < balances.len() - 1 ==> balances[i + 1] == #[trigger] balance_after(
                balances[i],
                days,
            ),
    ensures
        forall|i: int| 0 <= i < balances.len() ==> #[trigger] balances[i] == balances[0],
    decreases balances.len(),
{
    if balances.len() > 1 {
        let prefix = balances.drop_last();
        assert forall|i: int| 0 <= i < prefix.len() - 1 implies prefix[i + 1]
            == #[trigger] balance_after(prefix[i], days) by {
            assert(balances[i + 1] == balance_after(balances[i], days));
        }
        lemma_refusals_keep_balance(prefix, days);
        let n = balances.len() - 1;
        assert(balances[n] == balance_after(balances[n - 1], days));
        assert forall|i: int| 0 <= i < balances.len() implies #[trigger] balances[i]
            == balances[0] by {
            assert(prefix[0] == balances[0]);
            if i < n {
                assert(balances[i] == prefix[i]);
            } else {
                assert(balances[n - 1] == prefix[n - 1]);
            }
        }
    }
}

} // verus!
