//! The shared application state and every operation that changes it.
use vstd::prelude::*;
use crate::config::Profile;
use crate::models::{
    AuthKeys, GenerateResponse, QueueMap, WorkerConnections, WorkerPings, WorkerStatuses,
    WorkerTags, WorkerVersions,
};
use crate::text::owned;

mod access;
mod controller;
pub mod laws;
mod roster;
mod tasks;

pub use access::{same_but, SnapshotKind};
pub use controller::{action_at, console_model, output_len, summary_text, worker_actions, Key};
pub use roster::{first_tag_of, listed, listed_count, name_at_rank, rank_of, scan_rank};
pub use tasks::{
    all_ok, error_prefix, failure_banners, failure_prefix, messages, output_lines, running_action,
    running_ok, with_records,
};

verus! {

/// The pane that reads the keyboard.
#[derive(Debug, Clone, Copy, PartialEq, Eq, Structural)]
pub enum Focus {
    WorkersList,
    ActionsList,
    GlobalView,
    ActionPanelInput,
    ActionPanelConfirm,
    ActionPanelResponse,
}

/// The operations that can be run on a worker.
#[derive(Debug, Clone, Copy, PartialEq, Eq, Structural)]
pub enum ActionType {
    Pull,
    Delete,
}

/// The views of the client, in the order the tab bar shows them.
#[derive(Debug, Clone, Copy, PartialEq, Eq, Structural)]
pub enum Tab {
    Dashboard,
    Nodes,
    Queues,
    Keys,
    Console,
    Logs,
}

/// Position of a tab in the tab bar.
pub open spec fn tab_index(t: Tab) -> int {
    match t {
        Tab::Dashboard => 0,
        Tab::Nodes => 1,
        Tab::Queues => 2,
        Tab::Keys => 3,
        Tab::Console => 4,
        Tab::Logs => 5,
    }
}

/// The tab at a position of the tab bar.
pub open spec fn tab_at(i: int) -> Tab {
    if i == 0 {
        Tab::Dashboard
    } else if i == 1 {
        Tab::Nodes
    } else if i == 2 {
        Tab::Queues
    } else if i == 3 {
        Tab::Keys
    } else if i == 4 {
        Tab::Console
    } else {
        Tab::Logs
    }
}

impl Tab {
    /// Every tab, in order.
    pub fn all() -> (r: &'static [Tab])
        ensures
            r@.len() == 6,
            forall|i: int| 0 <= i < 6 ==> r@[i] == tab_at(i),
    {
        &[Tab::Dashboard, Tab::Nodes, Tab::Queues, Tab::Keys, Tab::Console, Tab::Logs]
    }
}

/// The state of the action panel.
#[derive(Debug, Clone, PartialEq, Eq)]
pub enum ActionPanelState {
    /// No action under way.
    Idle,
    /// Waiting for the name of a model to pull.
    PullModel,
    /// Waiting for the name of a model to delete.
    DeleteModel,
    /// A model name was given; waiting for yes or no.
    Confirmation(String, ActionType),
    /// The action was committed: its model, kind, output lines, and whether
    /// it has gone well so far.
    Response(String, ActionType, Vec<String>, bool),
}

/// The action panel as a mathematical value.
pub enum Panel {
    Idle,
    AwaitingInput(ActionType),
    AwaitingConfirmation(Seq<char>, ActionType),
    Running(Seq<char>, ActionType, Seq<Seq<char>>, bool),
}

/// The texts of a list of strings.
pub open spec fn texts(v: Seq<String>) -> Seq<Seq<char>> {
    v.map_values(|s: String| s@)
}

impl View for ActionPanelState {
    type V = Panel;

    open spec fn view(&self) -> Panel {
        match self {
            ActionPanelState::Idle => Panel::Idle,
            ActionPanelState::PullModel => Panel::AwaitingInput(ActionType::Pull),
            ActionPanelState::DeleteModel => Panel::AwaitingInput(ActionType::Delete),
            ActionPanelState::Confirmation(m, a) => Panel::AwaitingConfirmation(m@, *a),
            ActionPanelState::Response(m, a, lines, ok) => Panel::Running(m@, *a, texts(lines@), *ok),
        }
    }
}

/// Polling periods.
#[derive(Debug, Clone, Copy, PartialEq, Eq, Structural)]
pub struct Intervals {
    /// Period of the queue poll, in milliseconds.
    pub queue_millis: u64,
    /// Period of every other poll, in seconds.
    pub general_secs: u64,
}

impl Default for Intervals {
    fn default() -> (r: Intervals)
        ensures
            r.queue_millis == 500,
            r.general_secs == 5,
    {
        Intervals { queue_millis: 500, general_secs: 5 }
    }
}

/// Which tab is shown, which pane has focus, and the two list cursors.
#[derive(Debug, Clone, Copy, PartialEq, Eq, Structural)]
pub struct Navigation {
    pub tab: Tab,
    pub focus: Focus,
    pub selected_worker: usize,
    pub selected_action: usize,
}

/// The action workflow: the panel and everything it reads.
#[derive(Debug)]
pub struct Workflow {
    pub panel: ActionPanelState,
    /// 0 to proceed, 1 to abort.
    pub confirmation: usize,
    pub input: Vec<char>,
    pub cursor: usize,
    pub scroll: u16,
    /// The task that may still write into the panel.
    pub task: Option<u64>,
    pub in_progress: bool,
}

/// The action workflow as a mathematical value.
pub struct WorkflowView {
    pub panel: Panel,
    pub confirmation: usize,
    pub input: Seq<char>,
    pub cursor: usize,
    pub scroll: u16,
    pub task: Option<u64>,
    pub in_progress: bool,
}

impl View for Workflow {
    type V = WorkflowView;

    open spec fn view(&self) -> WorkflowView {
        WorkflowView {
            panel: self.panel@,
            confirmation: self.confirmation,
            input: self.input@,
            cursor: self.cursor,
            scroll: self.scroll,
            task: self.task,
            in_progress: self.in_progress,
        }
    }
}

/// The workflow at rest: no panel, empty input.
pub open spec fn at_rest(w: WorkflowView, old_w: WorkflowView) -> bool {
    &&& w.panel == Panel::Idle
    &&& w.input == Seq::<char>::empty()
    &&& w.cursor == 0
    &&& w.scroll == 0
    &&& w.task is None
    &&& !w.in_progress
    &&& w.confirmation == old_w.confirmation
}

/// What was last fetched from the remote service, each `None` until fetched,
/// and the console's prompt and output.
#[derive(Debug)]
pub struct Snapshots {
    pub worker_versions: Option<WorkerVersions>,
    pub worker_statuses: Option<WorkerStatuses>,
    pub worker_connections: Option<WorkerConnections>,
    pub worker_pings: Option<WorkerPings>,
    pub worker_tags: Option<WorkerTags>,
    pub queue_map: Option<QueueMap>,
    pub auth_keys: Option<AuthKeys>,
    pub generate_response: Option<GenerateResponse>,
    pub console_output: Vec<String>,
    pub console_input: Vec<char>,
}

impl Snapshots {
    pub open spec fn is_cleared(&self) -> bool {
        &&& self.worker_versions is None
        &&& self.worker_statuses is None
        &&& self.worker_connections is None
        &&& self.worker_pings is None
        &&& self.worker_tags is None
        &&& self.queue_map is None
        &&& self.auth_keys is None
        &&& self.generate_response is None
        &&& self.console_output@.len() == 0
        &&& self.console_input@.len() == 0
    }

    fn cleared() -> (r: Snapshots)
        ensures
            r.is_cleared(),
    {
        Snapshots {
            worker_versions: None,
            worker_statuses: None,
            worker_connections: None,
            worker_pings: None,
            worker_tags: None,
            queue_map: None,
            auth_keys: None,
            generate_response: None,
            console_output: Vec::new(),
            console_input: Vec::new(),
        }
    }
}

/// The whole application state. Every change goes through its methods.
#[derive(Debug)]
pub struct App {
    profiles: Vec<Profile>,
    active_profile: usize,
    intervals: Intervals,
    banners: Vec<String>,
    nav: Navigation,
    flow: Workflow,
    data: Snapshots,
    next_task: u64,
}

/// What the caller of a key press has to do outside the state.
#[derive(Debug, Clone, PartialEq, Eq)]
pub enum Command {
    /// Nothing.
    Nothing,
    /// Leave the program.
    Quit,
    /// Run a committed action as background task `task`.
    Start { task: u64, action: ActionType, model: String, node: Option<String> },
    /// Stop background task `task`.
    Cancel(u64),
    /// Run an inference request.
    Generate { model: String, prompt: String },
}

impl App {
    pub closed spec fn nav(&self) -> Navigation {
        self.nav
    }

    pub closed spec fn flow(&self) -> WorkflowView {
        self.flow@
    }

    pub closed spec fn data(&self) -> &Snapshots {
        &self.data
    }

    /// The banner queue, oldest first.
    pub closed spec fn banner_texts(&self) -> Seq<Seq<char>> {
        texts(self.banners@)
    }

    pub closed spec fn profile_list(&self) -> Seq<Profile> {
        self.profiles@
    }

    pub closed spec fn active(&self) -> usize {
        self.active_profile
    }

    pub closed spec fn polling(&self) -> Intervals {
        self.intervals
    }

    /// The identifier the next committed action will get.
    pub closed spec fn next_task(&self) -> u64 {
        self.next_task
    }

    /// Everything but the banners, the navigation and the workflow is as in `o`.
    pub open spec fn same_setup(&self, o: &App) -> bool {
        &&& self.profile_list() == o.profile_list()
        &&& self.active() == o.active()
        &&& self.polling() == o.polling()
        &&& self.next_task() == o.next_task()
    }

    /// Only the banner queue differs from `o`.
    pub open spec fn same_but_banners(&self, o: &App) -> bool {
        &&& self.same_setup(o)
        &&& self.nav() == o.nav()
        &&& self.flow() == o.flow()
        &&& self.data() == o.data()
    }

    /// Nothing differs from `o`.
    pub open spec fn same_as(&self, o: &App) -> bool {
        self.same_but_banners(o) && self.banner_texts() == o.banner_texts()
    }

    /// `o` with one more banner.
    pub open spec fn one_more_banner(&self, o: &App, msg: Seq<char>) -> bool {
        self.same_but_banners(o) && self.banner_texts() == o.banner_texts().push(msg)
    }

    /// Whether task `task` may still write into the action panel.
    pub open spec fn task_live(&self, task: u64) -> bool {
        self.flow().task == Some(task)
    }

    /// The state's invariant.
    pub open spec fn wf(&self) -> bool {
        let f = self.flow();
        let n = self.nav();
        &&& f.confirmation <= 1
        &&& f.cursor <= f.input.len()
        &&& n.selected_action < 2
        &&& (n.selected_worker < self.worker_count() || n.selected_worker == 0)
        &&& (f.task matches Some(t) ==> t < self.next_task() && f.in_progress
            && f.panel is Running && n.focus == Focus::ActionPanelResponse)
        &&& (n.focus == Focus::ActionPanelInput <==> f.panel is AwaitingInput)
        &&& (n.focus == Focus::ActionPanelConfirm <==> f.panel is AwaitingConfirmation)
        &&& (n.focus == Focus::ActionPanelResponse <==> f.panel is Running)
        &&& (self.active() < self.profile_list().len() || self.active() == 0)
    }

    /// A fresh state over the given profiles.
    pub fn new(profiles: Vec<Profile>) -> (r: App)
        ensures
            r.wf(),
            r.profile_list() == profiles@,
            r.active() == 0,
            r.nav() == (Navigation { tab: Tab::Dashboard, focus: Focus::WorkersList, selected_worker: 0, selected_action: 0 }),
            r.flow().panel == Panel::Idle,
            r.flow().input.len() == 0,
            r.flow().confirmation == 0,
            r.flow().task is None,
            !r.flow().in_progress,
            r.data().is_cleared(),
            r.banner_texts().len() == 0,
    {
        let r = App {
            profiles,
            active_profile: 0,
            intervals: Intervals { queue_millis: 500, general_secs: 5 },
            banners: Vec::new(),
            nav: Navigation { tab: Tab::Dashboard, focus: Focus::WorkersList, selected_worker: 0, selected_action: 0 },
            flow: Workflow {
                panel: ActionPanelState::Idle,
                confirmation: 0,
                input: Vec::new(),
                cursor: 0,
                scroll: 0,
                task: None,
                in_progress: false,
            },
            data: Snapshots::cleared(),
            next_task: 0,
        };
        assert(r.banner_texts() =~= Seq::<Seq<char>>::empty());
        r
    }

    /// Queues a banner.
    pub fn add_banner(&mut self, msg: String)
        ensures
            final(self).one_more_banner(old(self), msg@),
    {
        self.banners.push(msg);
        assert(texts(self.banners@) =~= texts(old(self).banners@).push(msg@));
    }

    /// Queues a banner given as a string slice.
    pub fn add_banner_text(&mut self, msg: &str)
        ensures
            final(self).one_more_banner(old(self), msg@),
    {
        self.add_banner(owned(msg));
    }

    /// Drops the oldest banner, if any.
    pub fn dismiss_banner(&mut self)
        ensures
            final(self).same_but_banners(old(self)),
            old(self).banner_texts().len() == 0 ==> final(self).banner_texts() == old(self).banner_texts(),
            old(self).banner_texts().len() > 0 ==> final(self).banner_texts() == old(self).banner_texts().drop_first(),
    {
        if self.banners.len() > 0 {
            self.banners.remove(0);
            assert(texts(self.banners@) =~= texts(old(self).banners@).drop_first());
        }
    }

    /// Shows the next tab, wrapping after the last.
    pub fn next_tab(&mut self)
        ensures
            final(self).nav() == (Navigation { tab: tab_at((tab_index(old(self).nav().tab) + 1) % 6), ..old(self).nav() }),
            final(self).flow() == old(self).flow(),
            final(self).data() == old(self).data(),
            final(self).same_setup(old(self)),
            final(self).banner_texts() == old(self).banner_texts(),
    {
        let tabs = Tab::all();
        let pos = tab_position(self.nav.tab);
        self.nav.tab = tabs[(pos + 1) % 6];
    }

    /// Shows the previous tab, wrapping before the first.
    pub fn prev_tab(&mut self)
        ensures
            final(self).nav() == (Navigation { tab: tab_at((tab_index(old(self).nav().tab) + 5) % 6), ..old(self).nav() }),
            final(self).flow() == old(self).flow(),
            final(self).data() == old(self).data(),
            final(self).same_setup(old(self)),
            final(self).banner_texts() == old(self).banner_texts(),
    {
        let tabs = Tab::all();
        let pos = tab_position(self.nav.tab);
        self.nav.tab = tabs[(pos + 5) % 6];
    }
}

/// Where a tab stands in the tab bar.
fn tab_position(t: Tab) -> (r: usize)
    ensures
        r == tab_index(t),
{
    match t {
        Tab::Dashboard => 0,
        Tab::Nodes => 1,
        Tab::Queues => 2,
        Tab::Keys => 3,
        Tab::Console => 4,
        Tab::Logs => 5,
    }
}

} // verus!
