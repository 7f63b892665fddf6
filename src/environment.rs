//! A snapshot of environment variables, handed to the checks as a value.

use vstd::prelude::*;

verus! {

/// Variables in the order they were set; a later entry for a name overrides
/// an earlier one.
pub struct Environment {
    vars: Vec<(String, String)>,
}

/// The mapping that a list of (name, value) entries defines.
pub open spec fn env_map(entries: Seq<(String, String)>) -> Map<Seq<char>, Seq<char>>
    decreases entries.len(),
{
    if entries.len() == 0 {
        Map::empty()
    } else {
        env_map(entries.drop_last()).insert(entries.last().0@, entries.last().1@)
    }
}

impl View for Environment {
    type V = Map<Seq<char>, Seq<char>>;

    closed spec fn view(&self) -> Map<Seq<char>, Seq<char>> {
        env_map(self.vars@)
    }
}

impl Environment {
    /// An environment with no variables.
    pub fn new() -> (r: Self)
        ensures
            r@ == Map::<Seq<char>, Seq<char>>::empty(),
    {
        Environment { vars: Vec::new() }
    }

    /// Sets `name` to `value`, replacing any earlier value.
    pub fn set(&mut self, name: String, value: String)
        ensures
            final(self)@ == old(self)@.insert(name@, value@),
    {
        let ghost before = self.vars@;
        self.vars.push((name, value));
        assert(self.vars@.drop_last() =~= before);
    }

    /// The value of `name`, if it is set.
    pub fn get(&self, name: &String) -> (r: Option<&String>)
        ensures
            match r {
                Some(v) => self@.contains_key(name@) && self@[name@] == v@,
                None => !self@.contains_key(name@),
            },
    {
        let mut i: usize = self.vars.len();
        assert(self.vars@.take(i as int) =~= self.vars@);
        while i > 0
            invariant
                0 <= i <= self.vars@.len(),
                env_map(self.vars@).contains_key(name@) == env_map(
                    self.vars@.take(i as int),
                ).contains_key(name@),
                env_map(self.vars@).contains_key(name@) ==> env_map(self.vars@)[name@]
                    == env_map(self.vars@.take(i as int))[name@],
            decreases i,
        {
            proof {
                assert(self.vars@.take(i as int).drop_last() =~= self.vars@.take(i - 1));
            }
            if self.vars[i - 1].0 == *name {
                return Some(&self.vars[i - 1].1);
            }
            i -= 1;
        }
        assert(self.vars@.take(0) =~= Seq::<(String, String)>::empty());
        None
    }

    /// Whether `name` is set.
    pub fn contains(&self, name: &String) -> (r: bool)
        ensures
            r == self@.contains_key(name@),
    {
        self.get(name).is_some()
    }
}

} // verus!
