//! A snapshot of the variables of an environment.

use vstd::prelude::*;

verus! {

/// The value that a list of pairs, each a name and a value, gives to `name`:
/// that of the last pair with this name.
spec fn last_value(pairs: Seq<(String, String)>, name: Seq<char>) -> Option<Seq<char>>
    decreases pairs.len(),
{
    if pairs.len() == 0 {
        None
    } else if pairs.last().0@ == name {
        Some(pairs.last().1@)
    } else {
        last_value(pairs.drop_last(), name)
    }
}

/// Variables and their values, as a program found them or as a caller set
/// them. A variable that is not set has no value; one set to the empty text
/// has the empty text as its value.
#[derive(Debug)]
pub struct Environment {
    pairs: Vec<(String, String)>,
}

impl View for Environment {
    type V = Map<Seq<char>, Seq<char>>;

    closed spec fn view(&self) -> Map<Seq<char>, Seq<char>> {
        Map::new(
            |name: Seq<char>| last_value(self.pairs@, name) is Some,
            |name: Seq<char>| last_value(self.pairs@, name).unwrap(),
        )
    }
}

impl Environment {
    /// An environment in which no variable is set.
    pub fn new() -> (env: Environment)
        ensures
            env@ == Map::<Seq<char>, Seq<char>>::empty(),
    {
        let env = Environment { pairs: Vec::new() };
        assert(env@ =~= Map::<Seq<char>, Seq<char>>::empty());
        env
    }

    /// Sets the variable `name` to `value`, whether or not it was set before.
    pub fn set(&mut self, name: &str, value: &str)
        ensures
            final(self)@ == old(self)@.insert(name@, value@),
    {
        let ghost before = self.pairs@;
        self.pairs.push((name.to_owned(), value.to_owned()));
        proof {
            assert(self.pairs@.drop_last() =~= before);
            assert(self@ =~= old(self)@.insert(name@, value@));
        }
    }

    /// The value of the variable `name`, if it is set.
    pub fn var(&self, name: &str) -> (value: Option<String>)
        ensures
            value.deep_view() == (if self@.contains_key(name@) {
                Some(self@[name@])
            } else {
                None
            }),
    {
        let wanted = name.to_owned();
        let mut i: usize = self.pairs.len();
        proof {
            assert(self.pairs@.take(i as int) =~= self.pairs@);
        }
        while i > 0
            invariant
                i <= self.pairs@.len(),
                wanted@ == name@,
                last_value(self.pairs@, name@) == last_value(self.pairs@.take(i as int), name@),
            decreases i,
        {
            proof {
                assert(self.pairs@.take(i as int).drop_last() =~= self.pairs@.take(i - 1));
            }
            i -= 1;
            if self.pairs[i].0 == wanted {
                return Some(self.pairs[i].1.clone());
            }
        }
        None
    }
}

} // verus!
