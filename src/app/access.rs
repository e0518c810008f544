//! Reading the state, and storing what the pollers fetched.
use vstd::prelude::*;
use super::{texts, ActionPanelState, App, Focus, Intervals, Snapshots, Tab};
use crate::config::Profile;
use crate::models::{
    AuthKeys, GenerateResponse, QueueMap, WorkerConnections, WorkerPings, WorkerStatuses,
    WorkerTags, WorkerVersions,
};
use crate::text::string_of_chars;

verus! {

/// The snapshots that a poll fills.
#[derive(Debug, Clone, Copy, PartialEq, Eq, Structural)]
pub enum SnapshotKind {
    Versions,
    Statuses,
    Connections,
    Pings,
    Tags,
    Queue,
    Keys,
}

/// `a` and `b` agree on every snapshot but `k`, and on the console.
pub open spec fn same_but(a: &Snapshots, b: &Snapshots, k: SnapshotKind) -> bool {
    &&& (k != SnapshotKind::Versions ==> a.worker_versions == b.worker_versions)
    &&& (k != SnapshotKind::Statuses ==> a.worker_statuses == b.worker_statuses)
    &&& (k != SnapshotKind::Connections ==> a.worker_connections == b.worker_connections)
    &&& (k != SnapshotKind::Pings ==> a.worker_pings == b.worker_pings)
    &&& (k != SnapshotKind::Tags ==> a.worker_tags == b.worker_tags)
    &&& (k != SnapshotKind::Queue ==> a.queue_map == b.queue_map)
    &&& (k != SnapshotKind::Keys ==> a.auth_keys == b.auth_keys)
    &&& a.generate_response == b.generate_response
    &&& a.console_output == b.console_output
    &&& a.console_input == b.console_input
}

impl App {
    /// Only snapshot `k` may differ from `o`.
    pub open spec fn stored(&self, o: &App, k: SnapshotKind) -> bool {
        &&& same_but(self.data(), o.data(), k)
        &&& self.nav() == o.nav()
        &&& self.flow() == o.flow()
        &&& self.same_setup(o)
        &&& self.banner_texts() == o.banner_texts()
    }

    pub fn current_tab(&self) -> (r: Tab)
        ensures
            r == self.nav().tab,
    {
        self.nav.tab
    }

    pub fn focus(&self) -> (r: Focus)
        ensures
            r == self.nav().focus,
    {
        self.nav.focus
    }

    pub fn selected_worker(&self) -> (r: usize)
        ensures
            r == self.nav().selected_worker,
    {
        self.nav.selected_worker
    }

    pub fn selected_action(&self) -> (r: usize)
        ensures
            r == self.nav().selected_action,
    {
        self.nav.selected_action
    }

    pub fn action_panel_state(&self) -> (r: &ActionPanelState)
        ensures
            r@ == self.flow().panel,
    {
        &self.flow.panel
    }

    pub fn confirmation_selection(&self) -> (r: usize)
        ensures
            r == self.flow().confirmation,
    {
        self.flow.confirmation
    }

    /// The model name typed so far.
    pub fn action_input_model_name(&self) -> (r: String)
        ensures
            r@ == self.flow().input,
    {
        string_of_chars(&self.flow.input)
    }

    pub fn action_input_cursor_position(&self) -> (r: usize)
        ensures
            r == self.flow().cursor,
    {
        self.flow.cursor
    }

    pub fn action_panel_scroll(&self) -> (r: u16)
        ensures
            r == self.flow().scroll,
    {
        self.flow.scroll
    }

    pub fn is_action_in_progress(&self) -> (r: bool)
        ensures
            r == self.flow().in_progress,
    {
        self.flow.in_progress
    }

    /// The task that may still write into the action panel.
    pub fn live_task(&self) -> (r: Option<u64>)
        ensures
            r == self.flow().task,
    {
        self.flow.task
    }

    pub fn banners(&self) -> (r: &Vec<String>)
        ensures
            texts(r@) == self.banner_texts(),
    {
        &self.banners
    }

    pub fn snapshots(&self) -> (r: &Snapshots)
        ensures
            r == self.data(),
    {
        &self.data
    }

    pub fn profiles(&self) -> (r: &Vec<Profile>)
        ensures
            r@ == self.profile_list(),
    {
        &self.profiles
    }

    pub fn active_profile(&self) -> (r: usize)
        ensures
            r == self.active(),
    {
        self.active_profile
    }

    /// The profile in use, if there is one.
    pub fn current_profile(&self) -> (r: Option<&Profile>)
        ensures
            self.active() < self.profile_list().len() ==> r == Some(&self.profile_list()[self.active() as int]),
            self.active() >= self.profile_list().len() ==> r is None,
    {
        if self.active_profile < self.profiles.len() {
            Some(&self.profiles[self.active_profile])
        } else {
            None
        }
    }

    pub fn intervals(&self) -> (r: Intervals)
        ensures
            r == self.polling(),
    {
        self.intervals
    }

    /// The console prompt typed so far.
    pub fn console_input(&self) -> (r: String)
        ensures
            r@ == self.data().console_input@,
    {
        string_of_chars(&self.data.console_input)
    }

    /// Stores a worker status report. The worker cursor is pulled back onto
    /// the list where the list shrank below it.
    pub fn set_worker_statuses(&mut self, st: WorkerStatuses)
        requires
            old(self).wf(),
        ensures
            final(self).wf(),
            final(self).data().worker_statuses == Some(st),
            same_but(final(self).data(), old(self).data(), SnapshotKind::Statuses),
            final(self).flow() == old(self).flow(),
            final(self).same_setup(old(self)),
            final(self).banner_texts() == old(self).banner_texts(),
            final(self).nav().tab == old(self).nav().tab,
            final(self).nav().focus == old(self).nav().focus,
            final(self).nav().selected_action == old(self).nav().selected_action,
            final(self).nav().selected_worker == if old(self).nav().selected_worker < final(self).worker_count() {
                old(self).nav().selected_worker
            } else if final(self).worker_count() > 0 {
                (final(self).worker_count() - 1) as usize
            } else {
                0
            },
    {
        self.data.worker_statuses = Some(st);
        let count = self.workers_len();
        if self.nav.selected_worker >= count {
            self.nav.selected_worker = if count > 0 {
                count - 1
            } else {
                0
            };
        }
    }

    pub fn set_worker_versions(&mut self, v: WorkerVersions)
        requires
            old(self).wf(),
        ensures
            final(self).wf(),
            final(self).data().worker_versions == Some(v),
            final(self).stored(old(self), SnapshotKind::Versions),
    {
        self.data.worker_versions = Some(v);
    }

    pub fn set_worker_connections(&mut self, v: WorkerConnections)
        requires
            old(self).wf(),
        ensures
            final(self).wf(),
            final(self).data().worker_connections == Some(v),
            final(self).stored(old(self), SnapshotKind::Connections),
    {
        self.data.worker_connections = Some(v);
    }

    pub fn set_worker_pings(&mut self, v: WorkerPings)
        requires
            old(self).wf(),
        ensures
            final(self).wf(),
            final(self).data().worker_pings == Some(v),
            final(self).stored(old(self), SnapshotKind::Pings),
    {
        self.data.worker_pings = Some(v);
    }

    pub fn set_worker_tags(&mut self, v: WorkerTags)
        requires
            old(self).wf(),
        ensures
            final(self).wf(),
            final(self).data().worker_tags == Some(v),
            final(self).stored(old(self), SnapshotKind::Tags),
    {
        self.data.worker_tags = Some(v);
    }

    pub fn set_queue_map(&mut self, v: QueueMap)
        requires
            old(self).wf(),
        ensures
            final(self).wf(),
            final(self).data().queue_map == Some(v),
            final(self).stored(old(self), SnapshotKind::Queue),
    {
        self.data.queue_map = Some(v);
    }

    pub fn set_auth_keys(&mut self, v: AuthKeys)
        requires
            old(self).wf(),
        ensures
            final(self).wf(),
            final(self).data().auth_keys == Some(v),
            final(self).stored(old(self), SnapshotKind::Keys),
    {
        self.data.auth_keys = Some(v);
    }

    /// Stores an inference reply; the console shows its text.
    pub fn set_generate_response(&mut self, resp: GenerateResponse)
        requires
            old(self).wf(),
        ensures
            final(self).wf(),
            final(self).data().generate_response == Some(resp),
            texts(final(self).data().console_output@) == seq![resp.result@],
            final(self).nav() == old(self).nav(),
            final(self).flow() == old(self).flow(),
            final(self).same_setup(old(self)),
            final(self).banner_texts() == old(self).banner_texts(),
    {
        let text = resp.result.clone();
        self.data.generate_response = Some(resp);
        let mut out: Vec<String> = Vec::new();
        out.push(text);
        self.data.console_output = out;
        assert(texts(self.data.console_output@) =~= seq![self.data.console_output@[0]@]);
    }
}

} // verus!
