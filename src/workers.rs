//! A list with one highlighted entry that wraps around at both ends.
use vstd::prelude::*;
use crate::text::owned;

verus! {

/// A cyclic list of names with one selected.
#[derive(Debug, Clone)]
pub struct Workers {
    selected: usize,
    names: Vec<String>,
}

impl Workers {
    pub closed spec fn selected_index(&self) -> usize {
        self.selected
    }

    pub closed spec fn len(&self) -> nat {
        self.names@.len()
    }

    /// The selection points into the list, if the list has entries.
    pub open spec fn wf(&self) -> bool {
        self.len() == 0 || self.selected_index() < self.len()
    }

    /// A list of `names` with the first selected.
    pub fn new(names: Vec<String>) -> (r: Workers)
        ensures
            r.wf(),
            r.selected_index() == 0,
            r.len() == names@.len(),
    {
        Workers { selected: 0, names }
    }

    pub fn selected(&self) -> (r: usize)
        ensures
            r == self.selected_index(),
    {
        self.selected
    }

    pub fn names(&self) -> (r: &Vec<String>)
        ensures
            r@.len() == self.len(),
    {
        &self.names
    }

    /// Selects the previous entry, wrapping from the first to the last.
    pub fn up(&mut self)
        requires
            old(self).wf(),
        ensures
            final(self).wf(),
            final(self).len() == old(self).len(),
            old(self).len() > 0 ==> final(self).selected_index() == (old(self).selected_index() + old(self).len() - 1) % (old(self).len() as int),
            old(self).len() == 0 ==> final(self).selected_index() == old(self).selected_index(),
    {
        let n = self.names.len();
        if n > 0 {
            let s = self.selected;
            self.selected = if s == 0 { n - 1 } else { s - 1 };
            proof {
                if s == 0 {
                    vstd::arithmetic::div_mod::lemma_small_mod((n - 1) as nat, n as nat);
                } else {
                    vstd::arithmetic::div_mod::lemma_mod_add_multiples_vanish((s - 1) as int, n as int);
                    vstd::arithmetic::div_mod::lemma_small_mod((s - 1) as nat, n as nat);
                    assert(s + n - 1 == (s - 1) + n);
                }
            }
        }
    }

    /// Selects the next entry, wrapping from the last to the first.
    pub fn down(&mut self)
        requires
            old(self).wf(),
        ensures
            final(self).wf(),
            final(self).len() == old(self).len(),
            old(self).len() > 0 ==> final(self).selected_index() == (old(self).selected_index() + old(self).len() + 1) % (old(self).len() as int),
            old(self).len() == 0 ==> final(self).selected_index() == old(self).selected_index(),
    {
        let n = self.names.len();
        if n > 0 {
            let s = self.selected;
            let next = s + 1;
            self.selected = if next == n { 0 } else { next };
            proof {
                vstd::arithmetic::div_mod::lemma_mod_add_multiples_vanish((s + 1) as int, n as int);
                assert((s + n + 1) % (n as int) == (s + 1 + n) % (n as int));
                vstd::arithmetic::div_mod::lemma_small_mod((s + 1) as nat % (n as nat), n as nat);
                if next < n {
                    vstd::arithmetic::div_mod::lemma_small_mod((s + 1) as nat, n as nat);
                } else {
                    vstd::arithmetic::div_mod::lemma_mod_self_0(n as int);
                }
            }
        }
    }
}

impl Default for Workers {
    fn default() -> (r: Workers)
        ensures
            r.wf(),
            r.selected_index() == 0,
            r.len() == 4,
    {
        let mut names: Vec<String> = Vec::new();
        names.push(owned(" Move Up "));
        names.push(owned("<Up>"));
        names.push(owned(" Move Down "));
        names.push(owned("<Down>"));
        Workers { selected: 0, names }
    }
}

} // verus!
