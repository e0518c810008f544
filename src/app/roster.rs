//! The worker list as the dashboard shows it: every reported worker but the
//! unauthenticated placeholder, in name order.
use vstd::prelude::*;
use super::App;
use crate::models::{NodeStatus, WorkerStatuses};
use crate::text::{less_text, same_text, text_less};

verus! {

/// Whether a reported worker is listed.
pub open spec fn listed(name: Seq<char>) -> bool {
    name != "Unauthenticated"@
}

/// How many reported workers are listed.
pub open spec fn listed_count(st: Seq<(String, NodeStatus)>) -> nat
    decreases st.len(),
{
    if st.len() == 0 {
        0
    } else {
        listed_count(st.drop_last()) + if listed(st.last().0@) { 1nat } else { 0nat }
    }
}

/// How many listed workers sort before `name`.
pub open spec fn rank_of(st: Seq<(String, NodeStatus)>, name: Seq<char>) -> nat
    decreases st.len(),
{
    if st.len() == 0 {
        0
    } else {
        rank_of(st.drop_last(), name) + if listed(st.last().0@) && text_less(st.last().0@, name) {
            1nat
        } else {
            0nat
        }
    }
}

/// The first reported worker, from `rest` on, that is listed and before
/// which exactly `k` listed names of `all` sort.
pub open spec fn scan_rank(all: Seq<(String, NodeStatus)>, rest: Seq<(String, NodeStatus)>, k: int) -> Option<Seq<char>>
    decreases rest.len(),
{
    if rest.len() == 0 {
        None
    } else if listed(rest[0].0@) && rank_of(all, rest[0].0@) == k {
        Some(rest[0].0@)
    } else {
        scan_rank(all, rest.drop_first(), k)
    }
}

/// The listed worker at position `k` of the name-ordered list: the listed
/// name before which exactly `k` listed names sort.
pub open spec fn name_at_rank(st: Seq<(String, NodeStatus)>, k: int) -> Option<Seq<char>> {
    scan_rank(st, st, k)
}

/// The number of listed workers in a status report.
pub fn listed_len(st: &WorkerStatuses) -> (r: usize)
    ensures
        r == listed_count(st@),
{
    let mut n: usize = 0;
    let mut i: usize = 0;
    while i < st.len()
        invariant
            i <= st@.len(),
            n == listed_count(st@.subrange(0, i as int)),
            n <= i,
        decreases st@.len() - i,
    {
        assert(st@.subrange(0, i + 1).drop_last() =~= st@.subrange(0, i as int));
        if !same_text(st[i].0.as_str(), "Unauthenticated") {
            n = n + 1;
        }
        i = i + 1;
    }
    assert(st@.subrange(0, st@.len() as int) =~= st@);
    n
}

/// How many listed workers sort before `name`.
fn rank_in(st: &WorkerStatuses, name: &str) -> (r: usize)
    ensures
        r == rank_of(st@, name@),
{
    let mut n: usize = 0;
    let mut i: usize = 0;
    while i < st.len()
        invariant
            i <= st@.len(),
            n == rank_of(st@.subrange(0, i as int), name@),
            n <= i,
        decreases st@.len() - i,
    {
        assert(st@.subrange(0, i + 1).drop_last() =~= st@.subrange(0, i as int));
        if !same_text(st[i].0.as_str(), "Unauthenticated") && less_text(st[i].0.as_str(), name) {
            n = n + 1;
        }
        i = i + 1;
    }
    assert(st@.subrange(0, st@.len() as int) =~= st@);
    n
}

/// The name at position `k` of the name-ordered list of listed workers.
pub fn listed_name_at(st: &WorkerStatuses, k: usize) -> (r: Option<String>)
    ensures
        match r {
            Some(name) => name_at_rank(st@, k as int) == Some(name@),
            None => name_at_rank(st@, k as int) is None,
        },
{
    let mut i: usize = 0;
    assert(st@.subrange(0, st@.len() as int) =~= st@);
    while i < st.len()
        invariant
            i <= st@.len(),
            name_at_rank(st@, k as int) == scan_rank(st@, st@.subrange(i as int, st@.len() as int), k as int),
        decreases st@.len() - i,
    {
        let ghost rest = st@.subrange(i as int, st@.len() as int);
        let name = &st[i].0;
        if !same_text(name.as_str(), "Unauthenticated") && rank_in(st, name.as_str()) == k {
            return Some(name.clone());
        }
        assert(rest.drop_first() =~= st@.subrange(i + 1, st@.len() as int));
        i = i + 1;
    }
    None
}

/// The first model tag reported for worker `name`, if any.
pub open spec fn first_tag_of(tags: Seq<(String, Vec<String>)>, name: Seq<char>) -> Option<Seq<char>>
    decreases tags.len(),
{
    if tags.len() == 0 {
        None
    } else if tags[0].0@ == name {
        if tags[0].1@.len() > 0 {
            Some(tags[0].1@[0]@)
        } else {
            None
        }
    } else {
        first_tag_of(tags.drop_first(), name)
    }
}

/// The first model tag reported for worker `name`.
pub fn first_tag(tags: &Vec<(String, Vec<String>)>, name: &str) -> (r: Option<String>)
    ensures
        match r {
            Some(t) => first_tag_of(tags@, name@) == Some(t@),
            None => first_tag_of(tags@, name@) is None,
        },
{
    let mut i: usize = 0;
    assert(tags@.subrange(0, tags@.len() as int) =~= tags@);
    while i < tags.len()
        invariant
            i <= tags@.len(),
            first_tag_of(tags@, name@) == first_tag_of(tags@.subrange(i as int, tags@.len() as int), name@),
        decreases tags@.len() - i,
    {
        let ghost rest = tags@.subrange(i as int, tags@.len() as int);
        if same_text(tags[i].0.as_str(), name) {
            if tags[i].1.len() > 0 {
                return Some(tags[i].1[0].clone());
            } else {
                return None;
            }
        }
        assert(rest.drop_first() =~= tags@.subrange(i + 1, tags@.len() as int));
        i = i + 1;
    }
    None
}

impl App {
    /// How many workers the dashboard lists.
    pub open spec fn worker_count(&self) -> nat {
        match self.data().worker_statuses {
            Some(st) => listed_count(st@),
            None => 0,
        }
    }

    /// The name of the selected worker.
    pub open spec fn selected_worker_name(&self) -> Option<Seq<char>> {
        match self.data().worker_statuses {
            Some(st) => name_at_rank(st@, self.nav().selected_worker as int),
            None => None,
        }
    }

    /// The listed worker at position `k` of the name-ordered list.
    pub open spec fn worker_at(&self, k: int) -> Option<Seq<char>> {
        match self.data().worker_statuses {
            Some(st) => name_at_rank(st@, k),
            None => None,
        }
    }

    /// The first model tag reported for worker `name`.
    pub open spec fn tag_of_worker(&self, name: Seq<char>) -> Option<Seq<char>> {
        match self.data().worker_tags {
            Some(tags) => first_tag_of(tags@, name),
            None => None,
        }
    }

    /// The number of workers the dashboard lists: all reported ones but the
    /// unauthenticated placeholder.
    pub fn workers_len(&self) -> (r: usize)
        ensures
            r == self.worker_count(),
    {
        match &self.data.worker_statuses {
            Some(st) => listed_len(st),
            None => 0,
        }
    }

    /// The name of the selected worker.
    pub fn get_selected_worker_name(&self) -> (r: Option<String>)
        ensures
            match r {
                Some(name) => self.selected_worker_name() == Some(name@),
                None => self.selected_worker_name() is None,
            },
    {
        match &self.data.worker_statuses {
            Some(st) => listed_name_at(st, self.nav.selected_worker),
            None => None,
        }
    }

    /// The first model tag of the selected worker.
    pub fn get_selected_info_panel_model(&self) -> (r: Option<String>)
        ensures
            match r {
                Some(t) => self.selected_worker_name() matches Some(name) && self.tag_of_worker(name) == Some(t@),
                None => !(self.selected_worker_name() matches Some(name) && self.tag_of_worker(name) is Some),
            },
    {
        let name = match self.get_selected_worker_name() {
            Some(n) => n,
            None => return None,
        };
        match &self.data.worker_tags {
            Some(tags) => first_tag(tags, name.as_str()),
            None => None,
        }
    }

    /// The listed workers in name order, as far as each position has a name.
    pub fn listed_worker_names(&self) -> (r: Vec<String>)
        ensures
            forall|k: int| 0 <= k < r@.len() ==> self.worker_at(k) == Some(#[trigger] r@[k]@),
            r@.len() == self.worker_count() || self.worker_at(r@.len() as int) is None,
    {
        let st = match &self.data.worker_statuses {
            Some(st) => st,
            None => {
                return Vec::new();
            },
        };
        let count = listed_len(st);
        let mut out: Vec<String> = Vec::new();
        let mut k: usize = 0;
        while k < count
            invariant
                self.data().worker_statuses == Some(*st),
                count == self.worker_count(),
                k <= count,
                out@.len() == k,
                forall|j: int| 0 <= j < k ==> self.worker_at(j) == Some(#[trigger] out@[j]@),
            decreases count - k,
        {
            match listed_name_at(st, k) {
                Some(name) => out.push(name),
                None => {
                    return out;
                },
            }
            k = k + 1;
        }
        out
    }
}

} // verus!
