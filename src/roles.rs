//! The roles an employee can hold.
use vstd::prelude::*;

verus! {

/// The role of an employee.
#[derive(Debug, Clone, Copy, PartialEq, Eq, Structural)]
pub enum Role {
    Developer,
    Manager,
    Designer,
}

impl Role {
    /// What a holder of the role does.
    pub open spec fn spec_description(self) -> Seq<char> {
        match self {
            Role::Developer => "Writes and maintains code."@,
            Role::Manager => "Oversees team operations."@,
            Role::Designer => "Designs user interfaces and experiences."@,
        }
    }

    /// The role's name.
    pub open spec fn spec_name(self) -> Seq<char> {
        match self {
            Role::Developer => "Developer"@,
            Role::Manager => "Manager"@,
            Role::Designer => "Designer"@,
        }
    }

    /// What a holder of the role does.
    pub fn description(&self) -> (r: &'static str)
        ensures
            r@ == self.spec_description(),
    {
        proof {
            reveal_strlit("Writes and maintains code.");
            reveal_strlit("Oversees team operations.");
            reveal_strlit("Designs user interfaces and experiences.");
        }
        match self {
            Role::Developer => "Writes and maintains code.",
            Role::Manager => "Oversees team operations.",
            Role::Designer => "Designs user interfaces and experiences.",
        }
    }

    /// The role's name, as it is printed.
    pub fn name(&self) -> (r: &'static str)
        ensures
            r@ == self.spec_name(),
    {
        proof {
            reveal_strlit("Developer");
            reveal_strlit("Manager");
            reveal_strlit("Designer");
        }
        match self {
            Role::Developer => "Developer",
            Role::Manager => "Manager",
            Role::Designer => "Designer",
        }
    }
}

} // verus!
