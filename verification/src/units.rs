//! The measurement systems that the service understands.

use vstd::prelude::*;

verus! {

/// The measurement system in which the service reports its values.
#[derive(Clone, Copy, Debug, PartialEq, Eq, Structural)]
pub enum Units {
    /// Temperatures in Kelvin. The service's default.
    Standard,
    /// Temperatures in Celsius.
    Metric,
    /// Temperatures in Fahrenheit.
    Imperial,
}

impl Units {
    /// The token that stands for this measurement system in the `units`
    /// query parameter.
    pub open spec fn token(self) -> Seq<char> {
        match self {
            Units::Standard => "standard"@,
            Units::Metric => "metric"@,
            Units::Imperial => "imperial"@,
        }
    }

    /// Returns the wire token of this measurement system.
    pub fn value(&self) -> (token: &'static str)
        ensures
            token@ == self.token(),
    {
        match *self {
            Units::Standard => "standard",
            Units::Metric => "metric",
            Units::Imperial => "imperial",
        }
    }

    /// Every wire token is one of the three lowercase words that the service
    /// accepts, written out character by character.
    pub proof fn token_spelling(self)
        ensures
            self == Units::Standard ==> self.token() == seq![
                's', 't', 'a', 'n', 'd', 'a', 'r', 'd',
            ],
            self == Units::Metric ==> self.token() == seq!['m', 'e', 't', 'r', 'i', 'c'],
            self == Units::Imperial ==> self.token() == seq![
                'i', 'm', 'p', 'e', 'r', 'i', 'a', 'l',
            ],
    {
        reveal_strlit("standard");
        reveal_strlit("metric");
        reveal_strlit("imperial");
        assert("standard"@ =~= seq!['s', 't', 'a', 'n', 'd', 'a', 'r', 'd']);
        assert("metric"@ =~= seq!['m', 'e', 't', 'r', 'i', 'c']);
        assert("imperial"@ =~= seq!['i', 'm', 'p', 'e', 'r', 'i', 'a', 'l']);
    }

    /// The mapping from measurement systems to wire tokens is one to one: two
    /// systems with the same token are the same system.
    pub proof fn token_injective(a: Units, b: Units)
        ensures
            a.token() == b.token() <==> a == b,
    {
        a.token_spelling();
        b.token_spelling();
        if a != b {
            assert(a.token()[0] != b.token()[0]);
        }
    }
}

} // verus!
