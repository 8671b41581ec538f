//! The day of a three-day forecast that a caller may ask for.

use vstd::prelude::*;

verus! {

/// One of the three days that a forecast feed covers.
#[derive(Clone, Copy, Debug, PartialEq, Eq, Structural)]
pub enum Day {
    Today,
    Tomorrow,
    Overmorrow,
}

impl Day {
    /// Position of the day in the feed's item sequence.
    pub open spec fn spec_index(self) -> nat {
        match self {
            Day::Today => 0,
            Day::Tomorrow => 1,
            Day::Overmorrow => 2,
        }
    }

    /// Position of the day in the feed's item sequence: 0, 1 or 2.
    pub fn index(&self) -> (i: usize)
        ensures
            i == self.spec_index(),
    {
        match self {
            Day::Today => 0,
            Day::Tomorrow => 1,
            Day::Overmorrow => 2,
        }
    }

    /// The day's name as it is shown to a reader.
    pub open spec fn spec_name(self) -> Seq<char> {
        match self {
            Day::Today => "Today"@,
            Day::Tomorrow => "Tomorrow"@,
            Day::Overmorrow => "Overmorrow"@,
        }
    }

    /// The day's name as it is shown to a reader.
    pub fn name(&self) -> (s: &'static str)
        ensures
            s@ == self.spec_name(),
    {
        match self {
            Day::Today => "Today",
            Day::Tomorrow => "Tomorrow",
            Day::Overmorrow => "Overmorrow",
        }
    }
}

} // verus!
