//! The session state: the servers that are rented at the moment.

use crate::provider::handle::{ServerHandle, ServerHandleView};
use vstd::prelude::*;
use vstd::string::*;

verus! {

/// The handles of the servers that are rented at the moment, oldest first.
#[derive(Debug)]
pub struct State {
    pub projects: Vec<ServerHandle>,
}

/// The views of a sequence of handles, in order.
pub open spec fn handle_views(v: Seq<ServerHandle>) -> Seq<ServerHandleView> {
    v.map_values(|h: ServerHandle| h@)
}

/// The handles whose id is not `id`.
pub open spec fn other_ids(id: Seq<char>) -> spec_fn(ServerHandleView) -> bool {
    |h: ServerHandleView| h.id != id
}

/// The handles that are not among `gone`.
pub open spec fn not_among(gone: Seq<ServerHandleView>) -> spec_fn(ServerHandleView) -> bool {
    |h: ServerHandleView| !gone.contains(h)
}

impl View for State {
    type V = Seq<ServerHandleView>;

    open spec fn view(&self) -> Seq<ServerHandleView> {
        handle_views(self.projects@)
    }
}

impl Default for State {
    fn default() -> (r: Self)
        ensures
            r@.len() == 0,
    {
        State { projects: Vec::new() }
    }
}

impl Clone for State {
    fn clone(&self) -> (r: Self)
        ensures
            r@ == self@,
    {
        let mut projects: Vec<ServerHandle> = Vec::new();
        for i in 0..self.projects.len()
            invariant
                projects@.len() == i,
                forall|j: int| 0 <= j < i ==> projects@[j]@ == self.projects@[j]@,
        {
            projects.push(self.projects[i].clone());
        }
        assert(handle_views(projects@) == self@);
        State { projects }
    }
}

/// Whether `h` is among `list`.
pub fn holds(list: &Vec<ServerHandle>, h: &ServerHandle) -> (r: bool)
    ensures
        r == handle_views(list@).contains(h@),
{
    for i in 0..list.len()
        invariant
            !handle_views(list@).take(i as int).contains(h@),
    {
        if list[i] == *h {
            assert(handle_views(list@)[i as int] == h@);
            return true;
        }
        assert(handle_views(list@).take(i + 1) == handle_views(list@).take(i as int).push(
            list[i as int]@,
        ));
    }
    assert(handle_views(list@).take(list.len() as int) == handle_views(list@));
    false
}

impl State {
    /// Records a newly rented server after the ones that are there.
    pub fn add(&mut self, handle: ServerHandle)
        ensures
            final(self)@ == old(self)@.push(handle@),
    {
        self.projects.push(handle);
        assert(final(self)@ == old(self)@.push(handle@));
    }

    /// Forgets every handle with the given id; the others keep their order.
    pub fn remove_id(&mut self, id: &str)
        ensures
            final(self)@ == old(self)@.filter(other_ids(id@)),
    {
        let mut kept: Vec<ServerHandle> = Vec::new();
        let key = String::from_str(id);
        for i in 0..self.projects.len()
            invariant
                key@ == id@,
                handle_views(kept@) == self@.take(i as int).filter(other_ids(id@)),
        {
            proof {
                reveal(Seq::filter);
                assert(self@.take(i + 1).drop_last() == self@.take(i as int));
            }
            if self.projects[i].id != key {
                kept.push(self.projects[i].clone());
            }
            assert(handle_views(kept@) == self@.take(i + 1).filter(other_ids(id@)));
        }
        assert(self@.take(self.projects.len() as int) == self@);
        self.projects = kept;
    }

    /// Forgets every handle that is among `gone` and says whether the state
    /// has to be written again, which is the case as soon as `gone` is not
    /// empty.
    pub fn prune(&mut self, gone: &Vec<ServerHandle>) -> (changed: bool)
        ensures
            final(self)@ == old(self)@.filter(not_among(handle_views(gone@))),
            changed == (gone@.len() > 0),
    {
        let mut kept: Vec<ServerHandle> = Vec::new();
        for i in 0..self.projects.len()
            invariant
                handle_views(kept@) == self@.take(i as int).filter(
                    not_among(handle_views(gone@)),
                ),
        {
            proof {
                reveal(Seq::filter);
                assert(self@.take(i + 1).drop_last() == self@.take(i as int));
            }
            if !holds(gone, &self.projects[i]) {
                kept.push(self.projects[i].clone());
            }
            assert(handle_views(kept@) == self@.take(i + 1).filter(
                not_among(handle_views(gone@)),
            ));
        }
        assert(self@.take(self.projects.len() as int) == self@);
        self.projects = kept;
        gone.len() > 0
    }
}

} // verus!
