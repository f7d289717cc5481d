//! The country-to-dial-code lookup, as an explicitly constructed directory
//! the orchestration consults. The application loads the reference table
//! once at startup and injects it.

use vstd::prelude::*;

use crate::types::{dial_code_wf, Country, DialCode};

verus! {

/// What a lookup yields: the dial code of the first entry whose country
/// matches.
pub open spec fn dir_lookup(entries: Seq<(Country, DialCode)>, alpha2: Seq<char>) -> Option<
    DialCode,
>
    decreases entries.len(),
{
    if entries.len() == 0 {
        None
    } else if entries[0].0@ == alpha2 {
        Some(entries[0].1)
    } else {
        dir_lookup(entries.drop_first(), alpha2)
    }
}

/// A read-only table from country to dial code.
#[derive(Debug, Clone)]
pub struct DialCodeDirectory {
    entries: Vec<(Country, DialCode)>,
}

impl View for DialCodeDirectory {
    type V = Seq<(Country, DialCode)>;

    closed spec fn view(&self) -> Seq<(Country, DialCode)> {
        self.entries@
    }
}

impl DialCodeDirectory {
    /// An empty directory: every lookup misses.
    pub fn new() -> (r: Self)
        ensures
            r@ == Seq::<(Country, DialCode)>::empty(),
    {
        DialCodeDirectory { entries: Vec::new() }
    }

    /// How many entries the directory holds.
    pub fn len(&self) -> (r: usize)
        ensures
            r == self@.len(),
    {
        self.entries.len()
    }

    /// Add an entry. Earlier entries win on lookup, so an existing country
    /// keeps its dial code.
    pub fn insert(&mut self, country: Country, dial_code: DialCode)
        ensures
            final(self)@ == old(self)@.push((country, dial_code)),
    {
        self.entries.push((country, dial_code));
    }

    /// The dial code of the first entry for this country, if any.
    pub fn country_to_dial_code(&self, country: &Country) -> (r: Option<DialCode>)
        ensures
            r == dir_lookup(self@, country@),
            r matches Some(d) ==> dial_code_wf(d@),
    {
        let n = self.entries.len();
        let mut i: usize = 0;
        proof {
            assert(self@.skip(0) =~= self@);
        }
        while i < n
            invariant
                0 <= i <= n == self@.len(),
                dir_lookup(self@, country@) == dir_lookup(self@.skip(i as int), country@),
            decreases n - i,
        {
            proof {
                assert(self@.skip(i as int).drop_first() =~= self@.skip(i as int + 1));
                assert(self@.skip(i as int)[0] == self@[i as int]);
            }
            let entry = &self.entries[i];
            if entry.0.eq_alpha2(country) {
                let d = entry.1.clone();
                proof {
                    use_type_invariant(&entry.1);
                }
                return Some(d);
            }
            i += 1;
        }
        proof {
            assert(self@.skip(n as int) =~= Seq::<(Country, DialCode)>::empty());
        }
        None
    }
}

impl Default for DialCodeDirectory {
    /// An empty directory.
    fn default() -> (r: Self)
        ensures
            r@ == Seq::<(Country, DialCode)>::empty(),
    {
        DialCodeDirectory::new()
    }
}

} // verus!
