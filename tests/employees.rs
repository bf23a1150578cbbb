use employee_management_system::enums::Role;
use employee_management_system::errors::VacationDaysShortageError;
use employee_management_system::{Employee, Person};

#[derive(Debug, PartialEq)]
struct SalariedWage {
    monthly_salary: f32,
}

impl SalariedWage {
    fn new(monthly_salary: f32) -> Self {
        Self { monthly_salary }
    }
}

fn john(vacation_days: u8) -> Employee<SalariedWage> {
    Employee::new(
        Person::new(String::from("John"), 30),
        Role::Manager,
        SalariedWage::new(1000.0),
        vacation_days,
    )
}

fn shortage(requested_days: u8, remaining_days: u8) -> VacationDaysShortageError {
    VacationDaysShortageError {
        requested_days,
        remaining_days,
        message: String::from("Not enough vacation days are available."),
    }
}

#[test]
fn person_new() {
    let person = Person::new(String::from("John"), 30);
    assert_eq!(person.name, "John");
    assert_eq!(person.age, 30);
}

#[test]
fn employee_new() {
    let employee = Employee::new(
        Person::new(String::from("John"), 30),
        Role::Manager,
        SalariedWage::new(1000.0),
        20,
    );
    assert_eq!(employee.person.name, "John");
    assert_eq!(employee.person.age, 30);
    assert_eq!(employee.role, Role::Manager);
    assert_eq!(employee.wage.monthly_salary, 1000.0);
    assert_eq!(employee.vacation_days, 20);
}

#[test]
fn employee_take_vacation() {
    let mut employee = john(20);
    assert_eq!(employee.take_vacation(5), Ok(()));
    assert_eq!(employee.vacation_days, 15);
}

#[test]
fn employee_take_vacation_overdraft() {
    let mut employee = john(20);
    assert_eq!(
        employee.take_vacation(25),
        Err(VacationDaysShortageError {
            requested_days: 25,
            remaining_days: 20,
            message: String::from("Not enough vacation days are available."),
        })
    );
    assert_eq!(employee.vacation_days, 20);
}

#[test]
fn employee_payout_vacation() {
    let mut employee = john(20);
    assert_eq!(employee.payout_vacation(), Ok(()));
    assert_eq!(employee.vacation_days, 15);
}

#[test]
fn employee_payout_vacation_overdraft() {
    let mut employee = john(2);
    assert_eq!(
        employee.payout_vacation(),
        Err(VacationDaysShortageError {
            requested_days: 5,
            remaining_days: 2,
            message: String::from("Not enough vacation days are available."),
        })
    );
    assert_eq!(employee.vacation_days, 2);
}

#[test]
fn take_vacation_of_whole_balance_leaves_zero() {
    let mut employee = john(20);
    assert_eq!(employee.take_vacation(20), Ok(()));
    assert_eq!(employee.vacation_days, 0);
    assert_eq!(employee.take_vacation(0), Ok(()));
    assert_eq!(employee.vacation_days, 0);
    assert_eq!(employee.take_vacation(1), Err(shortage(1, 0)));
    assert_eq!(employee.vacation_days, 0);
}

#[test]
fn take_vacation_on_largest_balance() {
    let mut employee = john(255);
    assert_eq!(employee.take_vacation(255), Ok(()));
    assert_eq!(employee.vacation_days, 0);
}

#[test]
fn take_vacation_one_more_than_balance_fails() {
    let mut employee = john(9);
    assert_eq!(employee.take_vacation(10), Err(shortage(10, 9)));
    assert_eq!(employee.vacation_days, 9);
}

#[test]
fn take_vacation_keeps_other_fields() {
    let mut employee = john(20);
    assert_eq!(employee.take_vacation(3), Ok(()));
    assert_eq!(employee.person.name, "John");
    assert_eq!(employee.person.age, 30);
    assert_eq!(employee.role, Role::Manager);
    assert_eq!(employee.wage, SalariedWage::new(1000.0));
}

#[test]
fn payout_matches_take_vacation_of_five() {
    for balance in [0u8, 4, 5, 6, 20, 255] {
        let mut paid = john(balance);
        let mut taken = john(balance);
        assert_eq!(paid.payout_vacation(), taken.take_vacation(5));
        assert_eq!(paid.vacation_days, taken.vacation_days);
    }
}

#[test]
fn payout_at_exact_quantum_leaves_zero() {
    let mut employee = john(5);
    assert_eq!(employee.payout_vacation(), Ok(()));
    assert_eq!(employee.vacation_days, 0);
    assert_eq!(employee.payout_vacation(), Err(shortage(5, 0)));
    assert_eq!(employee.vacation_days, 0);
}

#[test]
fn repeated_refusals_keep_balance() {
    let mut employee = john(20);
    for _ in 0..10 {
        assert_eq!(employee.take_vacation(25), Err(shortage(25, 20)));
        assert_eq!(employee.vacation_days, 20);
    }
}
