use vstd::prelude::*;

verus! {

/// The position an employee holds in the company.
#[derive(Debug, Clone, Copy, PartialEq, Eq, Structural)]
pub enum Role {
    Developer,
    Manager,
    Designer,
    Tester,
}

} // verus!
