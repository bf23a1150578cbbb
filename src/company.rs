use vstd::prelude::*;

use crate::structs::Employee;

verus! {

/// A company: a name and its employees, in the order they joined.
#[derive(Debug)]
pub struct Company<W> {
    pub name: String,
    employees: Vec<Employee<W>>,
}

impl<W> Company<W> {
    /// The employees of the company, in the order they joined.
    pub closed spec fn staff(&self) -> Seq<Employee<W>> {
        self.employees@
    }

    /// The name of the company.
    pub closed spec fn name_spec(&self) -> String {
        self.name
    }

    /// Creates a company with the given name and employees.
    pub fn new(name: String, employees: Vec<Employee<W>>) -> (r: Self)
        ensures
            r.name_spec() == name,
            r.staff() == employees@,
    {
        Self { name, employees }
    }

    /// Adds `employee` after all the others.
    pub fn add_employee(&mut self, employee: Employee<W>)
        ensures
            final(self).staff() == old(self).staff().push(employee),
            final(self).name_spec() == old(self).name_spec(),
    {
        self.employees.push(employee);
    }

    /// All the employees, in the order they joined, to be read but not changed.
    pub fn all_employees(&self) -> (r: &Vec<Employee<W>>)
        ensures
            r@ == self.staff(),
    {
        &self.employees
    }
}

/// Employees are kept in the order they were added: after one
/// `add_employee` for each of `added`, the staff is the staff before followed
/// by `added`, so a company that started empty has exactly those employees,
/// in that order. `states[i]` is the company after the first `i` additions.
pub proof fn lemma_additions_in_order<W>(states: Seq<Company<W>>, added: Seq<Employee<W>>)
    requires
        states.len() == added.len() + 1,
        forall|i: int|
            0 <= i < added.len() ==> states[i + 1].staff() == states[i].staff().push(
                #[trigger] added[i],
            ),
    ensures
        states.last().staff() == states[0].staff() + added,
        states.last().staff().len() == states[0].staff().len() + added.len(),
        states[0].staff().len() == 0 ==> states.last().staff() == added,
    decreases added.len(),
{
    if added.len() > 0 {
        let n = added.len() - 1;
        let prefix_states = states.drop_last();
        let prefix_added = added.drop_last();
        assert forall|i: int| 0 <= i < prefix_added.len() implies prefix_states[i + 1].staff()
            == prefix_states[i].staff().push(#[trigger] prefix_added[i]) by {
            assert(added[i] == prefix_added[i]);
        }
        lemma_additions_in_order(prefix_states, prefix_added);
        assert(states[n + 1].staff() == states[n].staff().push(added[n]));
        assert(prefix_states.last() == states[n]);
        assert(states.last().staff() =~= states[0].staff() + added);
    } else {
        assert(states[0].staff() + added =~= states[0].staff());
    }
    if states[0].staff().len() == 0 {
        assert(states[0].staff() + added =~= added);
    }
}

} // verus!
