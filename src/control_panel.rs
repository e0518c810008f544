//! A small connection panel: the endpoint and token being set up, a counter
//! moved with left and right, and a worker list moved with up and down.
use vstd::prelude::*;
use crate::app::Key;
use crate::workers::Workers;

verus! {

/// The state of the connection panel.
#[derive(Debug)]
pub struct App {
    url: String,
    token: String,
    counter: u8,
    workers: Workers,
}

impl App {
    pub closed spec fn count(&self) -> u8 {
        self.counter
    }

    pub closed spec fn list(&self) -> Workers {
        self.workers
    }

    pub open spec fn wf(&self) -> bool {
        self.list().wf()
    }

    /// A panel for the given endpoint and token, counter at zero.
    pub fn from(value: (String, String)) -> (r: App)
        ensures
            r.wf(),
            r.count() == 0,
    {
        App { url: value.0, token: value.1, counter: 0, workers: Workers::default() }
    }

    pub fn url(&self) -> &String {
        &self.url
    }

    pub fn token(&self) -> &String {
        &self.token
    }

    pub fn counter(&self) -> (r: u8)
        ensures
            r == self.count(),
    {
        self.counter
    }

    pub fn workers(&self) -> (r: &Workers)
        ensures
            *r == self.list(),
    {
        &self.workers
    }

    /// Handles a key; true when the panel should close.
    pub fn handle_key_event(&mut self, key: Key) -> (r: bool)
        requires
            old(self).wf(),
        ensures
            final(self).wf(),
            r == (key == Key::Char('q')),
            key == Key::Left ==> final(self).count() == (if old(self).count() == 0 { 255 } else { old(self).count() - 1 }),
            key == Key::Right ==> final(self).count() == (if old(self).count() == 255 { 0 } else { old(self).count() + 1 }),
            key != Key::Left && key != Key::Right ==> final(self).count() == old(self).count(),
            key == Key::Up ==> final(self).list().selected_index() == (if old(self).list().len() > 0 {
                ((old(self).list().selected_index() + old(self).list().len() - 1) % (old(self).list().len() as int)) as usize
            } else {
                old(self).list().selected_index()
            }),
            key == Key::Down ==> final(self).list().selected_index() == (if old(self).list().len() > 0 {
                ((old(self).list().selected_index() + old(self).list().len() + 1) % (old(self).list().len() as int)) as usize
            } else {
                old(self).list().selected_index()
            }),
            key != Key::Up && key != Key::Down ==> final(self).list() == old(self).list(),
    {
        match key {
            Key::Char('q') => {
                return true;
            },
            Key::Left => self.decrement_counter(),
            Key::Right => self.increment_counter(),
            Key::Up => self.workers.up(),
            Key::Down => self.workers.down(),
            _ => {},
        }
        false
    }

    fn increment_counter(&mut self)
        ensures
            final(self).count() == (if old(self).count() == 255 { 0 } else { old(self).count() + 1 }),
            final(self).list() == old(self).list(),
    {
        self.counter = self.counter.wrapping_add(1);
    }

    fn decrement_counter(&mut self)
        ensures
            final(self).count() == (if old(self).count() == 0 { 255 } else { old(self).count() - 1 }),
            final(self).list() == old(self).list(),
    {
        self.counter = self.counter.wrapping_sub(1);
    }
}

} // verus!
