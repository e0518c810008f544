//! The action workflow and the keys that drive it.
use vstd::prelude::*;
use super::{
    at_rest, texts, ActionPanelState, ActionType, App, Command, Focus, Navigation, Panel, Snapshots,
    Tab, WorkflowView,
};
use crate::text::{owned, string_of_chars};

verus! {

/// A key press, as the controller reads it.
#[derive(Debug, Clone, Copy, PartialEq, Eq, Structural)]
pub enum Key {
    /// A printable character typed without Control or Alt.
    Char(char),
    Enter,
    Esc,
    Backspace,
    Left,
    Right,
    Up,
    Down,
    Tab,
    BackTab,
    Other,
}

/// The action offered at a position of the action list.
pub open spec fn action_at(i: int) -> ActionType {
    if i == 0 {
        ActionType::Pull
    } else {
        ActionType::Delete
    }
}

impl ActionType {
    /// The label of the action in the action list.
    pub fn label(&self) -> (r: String)
        ensures
            r@ == (match self {
                ActionType::Pull => "Pull model"@,
                ActionType::Delete => "Delete model"@,
            }),
    {
        match self {
            ActionType::Pull => owned("Pull model"),
            ActionType::Delete => owned("Delete model"),
        }
    }
}

/// The actions the action list offers, in order.
pub fn worker_actions() -> (r: Vec<ActionType>)
    ensures
        r@ == seq![ActionType::Pull, ActionType::Delete],
{
    vec![ActionType::Pull, ActionType::Delete]
}

/// The message that closes a stream whose lines were all read.
pub open spec fn summary_text(a: ActionType, ok: bool) -> Seq<char> {
    match (a, ok) {
        (ActionType::Pull, true) => "Model pull completed successfully."@,
        (ActionType::Pull, false) => "Model pull completed with errors."@,
        (ActionType::Delete, true) => "Model delete completed successfully."@,
        (ActionType::Delete, false) => "Model delete completed with errors."@,
    }
}

/// The first queue name, which the console sends its prompt to.
pub open spec fn console_model(d: &Snapshots) -> Seq<char> {
    match d.queue_map {
        Some(q) => if q@.len() > 0 { q@[0].0@ } else { Seq::empty() },
        None => Seq::empty(),
    }
}

impl App {
    /// An action is under way and focus is not on its output.
    pub open spec fn guarded(&self) -> bool {
        self.flow().in_progress && self.nav().focus != Focus::ActionPanelResponse
    }

    /// Only the navigation differs from `o`, and is `n`.
    pub open spec fn nav_becomes(&self, o: &App, n: Navigation) -> bool {
        &&& self.nav() == n
        &&& self.flow() == o.flow()
        &&& self.data() == o.data()
        &&& self.same_setup(o)
        &&& self.banner_texts() == o.banner_texts()
    }

    /// Only the workflow differs from `o`, and is `w`.
    pub open spec fn flow_becomes(&self, o: &App, w: WorkflowView) -> bool {
        &&& self.flow() == w
        &&& self.nav() == o.nav()
        &&& self.data() == o.data()
        &&& self.same_setup(o)
        &&& self.banner_texts() == o.banner_texts()
    }

    /// The panel of `o` was closed and focus is `n`; banners aside.
    pub open spec fn closed_to(&self, o: &App, n: Navigation) -> bool {
        &&& self.nav() == n
        &&& at_rest(self.flow(), o.flow())
        &&& self.data() == o.data()
        &&& self.same_setup(o)
    }

    /// The panel of `o` was closed and focus went back to the action list;
    /// banners aside.
    pub open spec fn panel_closed(&self, o: &App) -> bool {
        self.closed_to(o, Navigation { focus: Focus::ActionsList, ..o.nav() })
    }

    /// Input of a model name for action `a` was opened.
    pub open spec fn input_opened(&self, o: &App, a: ActionType) -> bool {
        &&& self.nav() == (Navigation { focus: Focus::ActionPanelInput, ..o.nav() })
        &&& self.flow() == (WorkflowView {
            panel: Panel::AwaitingInput(a),
            input: Seq::empty(),
            cursor: 0,
            scroll: 0,
            ..o.flow()
        })
        &&& self.data() == o.data()
        &&& self.same_setup(o)
        &&& self.banner_texts() == o.banner_texts()
    }

    /// The effect of a left move.
    pub open spec fn after_left(&self, o: &App) -> bool {
        let f = o.flow();
        let n = o.nav();
        if o.guarded() {
            self.one_more_banner(o, "Action in progress. Cannot change focus."@)
        } else {
            match n.focus {
                Focus::WorkersList => self.same_as(o),
                Focus::ActionsList => self.nav_becomes(o, Navigation { focus: Focus::WorkersList, ..n }),
                Focus::GlobalView => self.closed_to(o, Navigation { focus: Focus::ActionsList, selected_action: 0, ..n })
                    && self.banner_texts() == o.banner_texts(),
                Focus::ActionPanelInput => self.flow_becomes(
                    o,
                    WorkflowView { cursor: if f.cursor > 0 { (f.cursor - 1) as usize } else { 0 }, ..f },
                ),
                Focus::ActionPanelConfirm => self.flow_becomes(o, WorkflowView { confirmation: 0, ..f }),
                Focus::ActionPanelResponse => self.panel_closed(o) && self.banner_texts() == if f.task is Some {
                    o.banner_texts().push("Action task aborted."@)
                } else {
                    o.banner_texts()
                },
            }
        }
    }

    /// The effect of a right move.
    pub open spec fn after_right(&self, o: &App) -> bool {
        let f = o.flow();
        let n = o.nav();
        if o.guarded() {
            self.one_more_banner(o, "Action in progress. Cannot change focus."@)
        } else {
            match n.focus {
                Focus::WorkersList => self.nav_becomes(o, Navigation { focus: Focus::ActionsList, selected_action: 0, ..n }),
                Focus::ActionsList => self.input_opened(o, action_at(n.selected_action as int)),
                Focus::GlobalView => self.closed_to(o, Navigation { focus: Focus::WorkersList, ..n })
                    && self.banner_texts() == o.banner_texts(),
                Focus::ActionPanelInput => self.flow_becomes(
                    o,
                    WorkflowView { cursor: if f.cursor < f.input.len() { (f.cursor + 1) as usize } else { f.cursor }, ..f },
                ),
                Focus::ActionPanelConfirm => self.flow_becomes(o, WorkflowView { confirmation: 1, ..f }),
                Focus::ActionPanelResponse => self.same_as(o),
            }
        }
    }

    /// The effect of an upward move: the cursor of the focused list, or the
    /// scroll of the output, goes up by one where it can.
    pub open spec fn after_up(&self, o: &App) -> bool {
        let f = o.flow();
        let n = o.nav();
        match n.focus {
            Focus::WorkersList => self.nav_becomes(
                o,
                Navigation { selected_worker: if n.selected_worker > 0 { (n.selected_worker - 1) as usize } else { 0 }, ..n },
            ),
            Focus::ActionsList => self.nav_becomes(o, Navigation { selected_action: 0, ..n }),
            Focus::ActionPanelResponse => self.flow_becomes(
                o,
                WorkflowView { scroll: if f.scroll > 0 { (f.scroll - 1) as u16 } else { 0 }, ..f },
            ),
            _ => self.same_as(o),
        }
    }

    /// The effect of a downward move: the cursor of the focused list, or the
    /// scroll of the output, goes down by one where it can.
    pub open spec fn after_down(&self, o: &App) -> bool {
        let f = o.flow();
        let n = o.nav();
        match n.focus {
            Focus::WorkersList => self.nav_becomes(
                o,
                Navigation {
                    selected_worker: if n.selected_worker + 1 < o.worker_count() { (n.selected_worker + 1) as usize } else { n.selected_worker },
                    ..n
                },
            ),
            Focus::ActionsList => self.nav_becomes(o, Navigation { selected_action: 1, ..n }),
            Focus::ActionPanelResponse => self.flow_becomes(
                o,
                WorkflowView {
                    scroll: if f.scroll + 1 < output_len(f.panel) && f.scroll < u16::MAX { (f.scroll + 1) as u16 } else { f.scroll },
                    ..f
                },
            ),
            _ => self.same_as(o),
        }
    }

    /// The model name input after typing `c` at the cursor.
    pub open spec fn after_typing(&self, o: &App, c: char) -> bool {
        let f = o.flow();
        self.flow_becomes(o, WorkflowView { input: f.input.insert(f.cursor as int, c), cursor: (f.cursor + 1) as usize, ..f })
    }

    /// The model name input after erasing the character before the cursor.
    pub open spec fn after_erasing(&self, o: &App) -> bool {
        let f = o.flow();
        if f.cursor > 0 {
            self.flow_becomes(o, WorkflowView { input: f.input.remove(f.cursor - 1), cursor: (f.cursor - 1) as usize, ..f })
        } else {
            self.same_as(o)
        }
    }

    /// The effect of Enter on the model name input: an empty name is refused
    /// with a banner; any other moves on to confirmation, defaulting to proceed.
    pub open spec fn after_submit(&self, o: &App) -> bool {
        let f = o.flow();
        if f.input.len() == 0 {
            self.one_more_banner(o, "Model name cannot be empty."@)
        } else {
            match f.panel {
                Panel::AwaitingInput(a) => {
                    &&& self.nav() == (Navigation { focus: Focus::ActionPanelConfirm, ..o.nav() })
                    &&& self.flow() == (WorkflowView { panel: Panel::AwaitingConfirmation(f.input, a), confirmation: 0, ..f })
                    &&& self.data() == o.data()
                    &&& self.same_setup(o)
                    &&& self.banner_texts() == o.banner_texts()
                },
                _ => false,
            }
        }
    }

    /// Left or right on the confirmation: the choice flips.
    pub open spec fn after_toggle(&self, o: &App) -> bool {
        self.flow_becomes(o, WorkflowView { confirmation: (1 - o.flow().confirmation) as usize, ..o.flow() })
    }

    /// Enter on the confirmation. To proceed, the panel shows the output of
    /// new task `next_task`, which is running; to abort, it shows one line
    /// saying so and nothing runs.
    pub open spec fn after_commit(&self, o: &App, r: Command) -> bool {
        let f = o.flow();
        match f.panel {
            Panel::AwaitingConfirmation(m, a) => {
                &&& self.nav() == (Navigation { focus: Focus::ActionPanelResponse, ..o.nav() })
                &&& self.data() == o.data()
                &&& self.profile_list() == o.profile_list()
                &&& self.active() == o.active()
                &&& self.polling() == o.polling()
                &&& self.banner_texts() == o.banner_texts()
                &&& if f.confirmation == 0 {
                    let t = o.next_task();
                    &&& self.flow() == (WorkflowView {
                        panel: Panel::Running(m, a, Seq::empty(), true),
                        scroll: 0,
                        task: Some(t),
                        in_progress: true,
                        ..f
                    })
                    &&& self.next_task() == t + 1
                    &&& (r matches Command::Start { task, action, model, node } && task == t && action == a
                        && model@ == m && match node {
                            Some(nd) => o.selected_worker_name() == Some(nd@),
                            None => o.selected_worker_name() is None,
                        })
                } else {
                    &&& self.flow() == (WorkflowView {
                        panel: Panel::Running(m, a, seq!["Action cancelled by user."@], true),
                        scroll: 0,
                        task: None,
                        in_progress: false,
                        ..f
                    })
                    &&& self.next_task() == o.next_task()
                    &&& r == Command::Nothing
                }
            },
            _ => false,
        }
    }

    /// Every cached snapshot and the console were cleared, any task was
    /// cancelled and the action panel went back to rest.
    pub open spec fn after_clear(&self, o: &App) -> bool {
        self.cleared_from(o) && self.same_setup(o)
    }

    /// The caches, the console, the worker cursor and the action panel of
    /// `o` were cleared, and any task cancelled; the profiles aside.
    pub open spec fn cleared_from(&self, o: &App) -> bool {
        let n = o.nav();
        &&& self.data().is_cleared()
        &&& self.nav() == (if n.focus == Focus::ActionPanelInput || n.focus == Focus::ActionPanelConfirm
            || n.focus == Focus::ActionPanelResponse {
            Navigation { focus: Focus::ActionsList, selected_worker: 0, ..n }
        } else {
            Navigation { selected_worker: 0, ..n }
        })
        &&& at_rest(self.flow(), WorkflowView { confirmation: 0, ..o.flow() })
        &&& self.banner_texts() == if o.flow().task is Some {
            o.banner_texts().push("Cancelled active action task."@)
        } else {
            o.banner_texts()
        }
    }

    /// What a key press asks of the caller, given the task that was live
    /// before it and the one live after.
    pub open spec fn cancel_command(&self, o: &App, r: Command) -> bool {
        match o.flow().task {
            Some(t) => if self.flow().task is None { r == Command::Cancel(t) } else { r == Command::Nothing },
            None => r == Command::Nothing,
        }
    }

    /// A key while an action runs and focus has left its output: quit and
    /// Escape out of the input or confirmation are honoured, every other
    /// key is refused with a banner.
    pub open spec fn guarded_step(&self, o: &App, key: Key, r: Command) -> bool {
        let focus = o.nav().focus;
        if key == Key::Char('q') {
            self.same_as(o) && r == Command::Quit
        } else if key == Key::Esc && (focus == Focus::ActionPanelInput || focus == Focus::ActionPanelConfirm) {
            &&& self.panel_closed(o)
            &&& self.banner_texts() == o.banner_texts().push("Action cancelled by user."@)
            &&& self.cancel_command(o, r)
        } else {
            self.one_more_banner(o, "Action in progress. Input ignored."@) && r == Command::Nothing
        }
    }

    /// A key while a list or the global view has focus.
    pub open spec fn list_step(&self, o: &App, key: Key, r: Command) -> bool {
        let n = o.nav();
        let console = n.tab == Tab::Console;
        match key {
            Key::Char('q') => self.same_as(o) && r == Command::Quit,
            Key::Left | Key::Char('a') => self.after_left(o) && r == Command::Nothing,
            Key::Right | Key::Char('d') => self.after_right(o) && r == Command::Nothing,
            Key::Up | Key::Char('w') => self.after_up(o) && r == Command::Nothing,
            Key::Down | Key::Char('s') => self.after_down(o) && r == Command::Nothing,
            Key::Char('r') => self.after_clear(o) && self.cancel_command(o, r),
            Key::Tab => self.nav_becomes(o, Navigation { tab: super::tab_at((super::tab_index(n.tab) + 1) % 6), ..n })
                && r == Command::Nothing,
            Key::BackTab => self.nav_becomes(o, Navigation { tab: super::tab_at((super::tab_index(n.tab) + 5) % 6), ..n })
                && r == Command::Nothing,
            Key::Enter => if n.tab == Tab::Dashboard && n.focus == Focus::ActionsList {
                self.input_opened(o, action_at(n.selected_action as int)) && r == Command::Nothing
            } else if console {
                self.same_as(o) && (r matches Command::Generate { model, prompt } && model@ == console_model(o.data())
                    && prompt@ == o.data().console_input@)
            } else {
                self.same_as(o) && r == Command::Nothing
            },
            Key::Backspace => r == Command::Nothing && if console {
                self.console_becomes(o, if o.data().console_input@.len() > 0 {
                    o.data().console_input@.drop_last()
                } else {
                    o.data().console_input@
                })
            } else {
                self.same_as(o)
            },
            Key::Char(c) => r == Command::Nothing && if console {
                self.console_becomes(o, o.data().console_input@.push(c))
            } else {
                self.same_as(o)
            },
            _ => self.same_as(o) && r == Command::Nothing,
        }
    }

    /// Only the console prompt differs from `o`, and is `input`.
    pub open spec fn console_becomes(&self, o: &App, input: Seq<char>) -> bool {
        let d = self.data();
        let e = o.data();
        &&& d.console_input@ == input
        &&& d.worker_versions == e.worker_versions
        &&& d.worker_statuses == e.worker_statuses
        &&& d.worker_connections == e.worker_connections
        &&& d.worker_pings == e.worker_pings
        &&& d.worker_tags == e.worker_tags
        &&& d.queue_map == e.queue_map
        &&& d.auth_keys == e.auth_keys
        &&& d.generate_response == e.generate_response
        &&& d.console_output == e.console_output
        &&& self.nav() == o.nav()
        &&& self.flow() == o.flow()
        &&& self.same_setup(o)
        &&& self.banner_texts() == o.banner_texts()
    }

    /// A key while the model name input has focus.
    pub open spec fn input_step(&self, o: &App, key: Key, r: Command) -> bool {
        r == Command::Nothing && match key {
            Key::Enter => self.after_submit(o),
            Key::Esc => self.panel_closed(o) && self.banner_texts() == o.banner_texts(),
            Key::Backspace => self.after_erasing(o),
            Key::Left => self.after_left(o),
            Key::Right => self.after_right(o),
            Key::Char(c) => if o.flow().input.len() + 1 < usize::MAX {
                self.after_typing(o, c)
            } else {
                self.same_as(o)
            },
            _ => self.same_as(o),
        }
    }

    /// A key while the confirmation has focus.
    pub open spec fn confirm_step(&self, o: &App, key: Key, r: Command) -> bool {
        match key {
            Key::Left | Key::Right => self.after_toggle(o) && r == Command::Nothing,
            Key::Enter => if o.next_task() < u64::MAX {
                self.after_commit(o, r)
            } else {
                self.one_more_banner(o, "Too many actions; restart the client."@) && r == Command::Nothing
            },
            Key::Esc => self.panel_closed(o) && self.banner_texts() == o.banner_texts() && r == Command::Nothing,
            _ => self.same_as(o) && r == Command::Nothing,
        }
    }

    /// A key while the action's output has focus: up and down scroll, any
    /// other key dismisses the panel and cancels its task.
    pub open spec fn response_step(&self, o: &App, key: Key, r: Command) -> bool {
        match key {
            Key::Up | Key::Char('w') => self.after_up(o) && r == Command::Nothing,
            Key::Down | Key::Char('s') => self.after_down(o) && r == Command::Nothing,
            _ => self.dismissed(o) && self.cancel_command(o, r),
        }
    }

    /// The output panel was dismissed: its task, if any, is cancelled.
    pub open spec fn dismissed(&self, o: &App) -> bool {
        &&& self.panel_closed(o)
        &&& self.banner_texts() == o.banner_texts().push("Response dismissed, action aborted if running."@)
    }

    /// The effect of one key press.
    pub open spec fn key_step(&self, o: &App, key: Key, r: Command) -> bool {
        if o.guarded() {
            self.guarded_step(o, key, r)
        } else {
            match o.nav().focus {
                Focus::ActionPanelInput => self.input_step(o, key, r),
                Focus::ActionPanelConfirm => self.confirm_step(o, key, r),
                Focus::ActionPanelResponse => self.response_step(o, key, r),
                _ => self.list_step(o, key, r),
            }
        }
    }
}

/// The number of output lines of a panel.
pub open spec fn output_len(p: Panel) -> int {
    match p {
        Panel::Running(_, _, lines, _) => lines.len() as int,
        _ => 0,
    }
}

/// The command that cancels the task live before a change, where the
/// change ended it.
fn cancel_of(before: Option<u64>, after: Option<u64>) -> (r: Command)
    ensures
        match before {
            Some(t) => if after is None { r == Command::Cancel(t) } else { r == Command::Nothing },
            None => r == Command::Nothing,
        },
{
    match before {
        Some(t) => if after.is_none() {
            Command::Cancel(t)
        } else {
            Command::Nothing
        },
        None => Command::Nothing,
    }
}

impl App {
    /// Closes the action panel and returns focus to the action list,
    /// dropping any task.
    fn close_panel(&mut self)
        ensures
            final(self).panel_closed(old(self)),
            final(self).banner_texts() == old(self).banner_texts(),
    {
        self.flow.task = None;
        self.flow.in_progress = false;
        self.flow.panel = ActionPanelState::Idle;
        self.nav.focus = Focus::ActionsList;
        self.flow.input = Vec::new();
        self.flow.cursor = 0;
        self.flow.scroll = 0;
    }

    /// Opens the model name input for action `a`.
    fn open_input(&mut self, a: ActionType)
        ensures
            final(self).input_opened(old(self), a),
    {
        self.flow.panel = match a {
            ActionType::Pull => ActionPanelState::PullModel,
            ActionType::Delete => ActionPanelState::DeleteModel,
        };
        self.nav.focus = Focus::ActionPanelInput;
        self.flow.input = Vec::new();
        self.flow.cursor = 0;
        self.flow.scroll = 0;
    }

    /// Moves focus, or the input cursor, or the confirmation choice, to the left.
    pub fn focus_left(&mut self)
        requires
            old(self).wf(),
        ensures
            final(self).wf(),
            final(self).after_left(old(self)),
    {
        if self.flow.in_progress && self.nav.focus != Focus::ActionPanelResponse {
            self.add_banner_text("Action in progress. Cannot change focus.");
            return;
        }
        match self.nav.focus {
            Focus::WorkersList => {},
            Focus::ActionsList => {
                self.nav.focus = Focus::WorkersList;
            },
            Focus::GlobalView => {
                self.close_panel();
                self.nav.selected_action = 0;
            },
            Focus::ActionPanelInput => {
                if self.flow.cursor > 0 {
                    self.flow.cursor = self.flow.cursor - 1;
                }
            },
            Focus::ActionPanelConfirm => {
                self.flow.confirmation = 0;
            },
            Focus::ActionPanelResponse => {
                let had_task = self.flow.task.is_some();
                self.close_panel();
                if had_task {
                    self.add_banner_text("Action task aborted.");
                }
            },
        }
    }

    /// Moves focus, or the input cursor, or the confirmation choice, to the
    /// right; from the action list this opens the input of the selected action.
    pub fn focus_right(&mut self)
        requires
            old(self).wf(),
        ensures
            final(self).wf(),
            final(self).after_right(old(self)),
    {
        if self.flow.in_progress && self.nav.focus != Focus::ActionPanelResponse {
            self.add_banner_text("Action in progress. Cannot change focus.");
            return;
        }
        match self.nav.focus {
            Focus::WorkersList => {
                self.nav.focus = Focus::ActionsList;
                self.nav.selected_action = 0;
            },
            Focus::ActionsList => {
                let a = if self.nav.selected_action == 0 {
                    ActionType::Pull
                } else {
                    ActionType::Delete
                };
                self.open_input(a);
            },
            Focus::GlobalView => {
                self.close_panel();
                self.nav.focus = Focus::WorkersList;
            },
            Focus::ActionPanelInput => {
                if self.flow.cursor < self.flow.input.len() {
                    self.flow.cursor = self.flow.cursor + 1;
                }
            },
            Focus::ActionPanelConfirm => {
                self.flow.confirmation = 1;
            },
            Focus::ActionPanelResponse => {},
        }
    }

    /// Moves the focused list's cursor, or the output's scroll, up by one.
    pub fn focus_up(&mut self)
        requires
            old(self).wf(),
        ensures
            final(self).wf(),
            final(self).after_up(old(self)),
    {
        match self.nav.focus {
            Focus::WorkersList => {
                if self.nav.selected_worker > 0 {
                    self.nav.selected_worker = self.nav.selected_worker - 1;
                }
            },
            Focus::ActionsList => {
                self.nav.selected_action = 0;
            },
            Focus::ActionPanelResponse => {
                if self.flow.scroll > 0 {
                    self.flow.scroll = self.flow.scroll - 1;
                }
            },
            _ => {},
        }
    }

    /// Moves the focused list's cursor, or the output's scroll, down by one.
    pub fn focus_down(&mut self)
        requires
            old(self).wf(),
        ensures
            final(self).wf(),
            final(self).after_down(old(self)),
    {
        match self.nav.focus {
            Focus::WorkersList => {
                let count = self.workers_len();
                if count > 0 && self.nav.selected_worker < count - 1 {
                    self.nav.selected_worker = self.nav.selected_worker + 1;
                }
            },
            Focus::ActionsList => {
                self.nav.selected_action = 1;
            },
            Focus::ActionPanelResponse => {
                let lines = match &self.flow.panel {
                    ActionPanelState::Response(_, _, lines, _) => lines.len(),
                    _ => 0,
                };
                if self.flow.scroll < u16::MAX && (self.flow.scroll as usize) + 1 < lines {
                    self.flow.scroll = self.flow.scroll + 1;
                }
            },
            _ => {},
        }
    }

    /// Types `c` into the model name at the cursor.
    pub fn input_char_into_action_field(&mut self, c: char)
        requires
            old(self).wf(),
        ensures
            final(self).wf(),
            old(self).flow().input.len() + 1 < usize::MAX ==> final(self).after_typing(old(self), c),
            old(self).flow().input.len() + 1 >= usize::MAX ==> final(self).same_as(old(self)),
    {
        if self.flow.input.len() >= usize::MAX - 1 {
            return;
        }
        self.flow.input.insert(self.flow.cursor, c);
        self.flow.cursor = self.flow.cursor + 1;
    }

    /// Erases the character of the model name before the cursor.
    pub fn backspace_action_field(&mut self)
        requires
            old(self).wf(),
        ensures
            final(self).wf(),
            final(self).after_erasing(old(self)),
    {
        if self.flow.cursor > 0 {
            self.flow.input.remove(self.flow.cursor - 1);
            self.flow.cursor = self.flow.cursor - 1;
        }
    }

    /// Clears every cached snapshot and the console, cancels any task and
    /// puts the action panel back to rest.
    pub fn clear_caches(&mut self)
        requires
            old(self).wf(),
        ensures
            final(self).wf(),
            final(self).after_clear(old(self)),
    {
        let had_task = self.flow.task.is_some();
        self.flow.task = None;
        self.flow.in_progress = false;
        self.data = Snapshots::cleared();
        self.nav.selected_worker = 0;
        self.flow.panel = ActionPanelState::Idle;
        self.flow.confirmation = 0;
        self.flow.input = Vec::new();
        self.flow.cursor = 0;
        self.flow.scroll = 0;
        if self.nav.focus == Focus::ActionPanelInput || self.nav.focus == Focus::ActionPanelConfirm
            || self.nav.focus == Focus::ActionPanelResponse {
            self.nav.focus = Focus::ActionsList;
        }
        if had_task {
            self.add_banner_text("Cancelled active action task.");
        }
    }

    /// Switches to profile `index`, where there is one; the caches of the
    /// old profile are cleared.
    pub fn set_active_profile(&mut self, index: usize)
        requires
            old(self).wf(),
        ensures
            final(self).wf(),
            index >= old(self).profile_list().len() ==> final(self).same_as(old(self)),
            index < old(self).profile_list().len() ==> {
                &&& final(self).active() == index
                &&& final(self).profile_list() == old(self).profile_list()
                &&& final(self).polling() == old(self).polling()
                &&& final(self).next_task() == old(self).next_task()
                &&& final(self).cleared_from(old(self))
            },
    {
        if index < self.profiles.len() {
            self.active_profile = index;
            self.clear_caches();
        }
    }

    /// Enter on the model name input.
    fn submit_input(&mut self)
        requires
            old(self).wf(),
            old(self).nav().focus == Focus::ActionPanelInput,
        ensures
            final(self).wf(),
            final(self).after_submit(old(self)),
    {
        if self.flow.input.len() == 0 {
            self.add_banner_text("Model name cannot be empty.");
            return;
        }
        let a = match self.flow.panel {
            ActionPanelState::PullModel => ActionType::Pull,
            ActionPanelState::DeleteModel => ActionType::Delete,
            _ => {
                return;
            },
        };
        let model = string_of_chars(&self.flow.input);
        self.flow.panel = ActionPanelState::Confirmation(model, a);
        self.nav.focus = Focus::ActionPanelConfirm;
        self.flow.confirmation = 0;
    }

    /// Enter on the confirmation.
    fn commit(&mut self) -> (r: Command)
        requires
            old(self).wf(),
            old(self).nav().focus == Focus::ActionPanelConfirm,
            old(self).next_task() < u64::MAX,
        ensures
            final(self).wf(),
            final(self).after_commit(old(self), r),
    {
        let (m, a) = match &self.flow.panel {
            ActionPanelState::Confirmation(m, a) => (m.clone(), *a),
            _ => {
                return Command::Nothing;
            },
        };
        if self.flow.confirmation == 0 {
            let t = self.next_task;
            let node = self.get_selected_worker_name();
            self.next_task = t + 1;
            self.flow.panel = ActionPanelState::Response(m.clone(), a, Vec::new(), true);
            assert(texts(Seq::<String>::empty()) =~= Seq::<Seq<char>>::empty());
            self.nav.focus = Focus::ActionPanelResponse;
            self.flow.scroll = 0;
            self.flow.task = Some(t);
            self.flow.in_progress = true;
            Command::Start { task: t, action: a, model: m, node }
        } else {
            let mut lines: Vec<String> = Vec::new();
            lines.push(owned("Action cancelled by user."));
            assert(texts(lines@) =~= seq!["Action cancelled by user."@]);
            self.flow.panel = ActionPanelState::Response(m, a, lines, true);
            self.nav.focus = Focus::ActionPanelResponse;
            self.flow.scroll = 0;
            self.flow.task = None;
            self.flow.in_progress = false;
            Command::Nothing
        }
    }

    /// A key while an action runs and focus has left its output.
    fn guarded_key(&mut self, key: Key) -> (r: Command)
        requires
            old(self).wf(),
            old(self).guarded(),
        ensures
            final(self).wf(),
            final(self).guarded_step(old(self), key, r),
    {
        let focus = self.nav.focus;
        if key == Key::Char('q') {
            return Command::Quit;
        }
        if key == Key::Esc && (focus == Focus::ActionPanelInput || focus == Focus::ActionPanelConfirm) {
            let before = self.flow.task;
            self.close_panel();
            self.add_banner_text("Action cancelled by user.");
            return cancel_of(before, self.flow.task);
        }
        self.add_banner_text("Action in progress. Input ignored.");
        Command::Nothing
    }

    /// A key while a list or the global view has focus.
    fn list_key(&mut self, key: Key) -> (r: Command)
        requires
            old(self).wf(),
            !old(self).guarded(),
            old(self).nav().focus != Focus::ActionPanelInput,
            old(self).nav().focus != Focus::ActionPanelConfirm,
            old(self).nav().focus != Focus::ActionPanelResponse,
        ensures
            final(self).wf(),
            final(self).list_step(old(self), key, r),
    {
        let console = self.nav.tab == Tab::Console;
        match key {
            Key::Char('q') => Command::Quit,
            Key::Left | Key::Char('a') => {
                self.focus_left();
                Command::Nothing
            },
            Key::Right | Key::Char('d') => {
                self.focus_right();
                Command::Nothing
            },
            Key::Up | Key::Char('w') => {
                self.focus_up();
                Command::Nothing
            },
            Key::Down | Key::Char('s') => {
                self.focus_down();
                Command::Nothing
            },
            Key::Char('r') => {
                let before = self.flow.task;
                self.clear_caches();
                cancel_of(before, self.flow.task)
            },
            Key::Tab => {
                self.next_tab();
                Command::Nothing
            },
            Key::BackTab => {
                self.prev_tab();
                Command::Nothing
            },
            Key::Enter => {
                if self.nav.tab == Tab::Dashboard && self.nav.focus == Focus::ActionsList {
                    let a = if self.nav.selected_action == 0 {
                        ActionType::Pull
                    } else {
                        ActionType::Delete
                    };
                    self.open_input(a);
                    Command::Nothing
                } else if console {
                    let model = match &self.data.queue_map {
                        Some(q) => if q.len() > 0 {
                            q[0].0.clone()
                        } else {
                            String::new()
                        },
                        None => String::new(),
                    };
                    let prompt = string_of_chars(&self.data.console_input);
                    Command::Generate { model, prompt }
                } else {
                    Command::Nothing
                }
            },
            Key::Backspace => {
                if console {
                    self.data.console_input.pop();
                }
                Command::Nothing
            },
            Key::Char(c) => {
                if console {
                    self.data.console_input.push(c);
                }
                Command::Nothing
            },
            _ => Command::Nothing,
        }
    }

    /// A key while the model name input has focus.
    fn input_key(&mut self, key: Key) -> (r: Command)
        requires
            old(self).wf(),
            !old(self).guarded(),
            old(self).nav().focus == Focus::ActionPanelInput,
        ensures
            final(self).wf(),
            final(self).input_step(old(self), key, r),
    {
        match key {
            Key::Enter => self.submit_input(),
            Key::Esc => self.close_panel(),
            Key::Backspace => self.backspace_action_field(),
            Key::Left => self.focus_left(),
            Key::Right => self.focus_right(),
            Key::Char(c) => self.input_char_into_action_field(c),
            _ => {},
        }
        Command::Nothing
    }

    /// A key while the confirmation has focus.
    fn confirm_key(&mut self, key: Key) -> (r: Command)
        requires
            old(self).wf(),
            !old(self).guarded(),
            old(self).nav().focus == Focus::ActionPanelConfirm,
        ensures
            final(self).wf(),
            final(self).confirm_step(old(self), key, r),
    {
        match key {
            Key::Left | Key::Right => {
                self.flow.confirmation = 1 - self.flow.confirmation;
                Command::Nothing
            },
            Key::Enter => {
                if self.next_task < u64::MAX {
                    self.commit()
                } else {
                    self.add_banner_text("Too many actions; restart the client.");
                    Command::Nothing
                }
            },
            Key::Esc => {
                self.close_panel();
                Command::Nothing
            },
            _ => Command::Nothing,
        }
    }

    /// A key while the action's output has focus.
    fn response_key(&mut self, key: Key) -> (r: Command)
        requires
            old(self).wf(),
            old(self).nav().focus == Focus::ActionPanelResponse,
        ensures
            final(self).wf(),
            final(self).response_step(old(self), key, r),
    {
        match key {
            Key::Up | Key::Char('w') => {
                self.focus_up();
                Command::Nothing
            },
            Key::Down | Key::Char('s') => {
                self.focus_down();
                Command::Nothing
            },
            _ => {
                let before = self.flow.task;
                self.close_panel();
                self.add_banner_text("Response dismissed, action aborted if running.");
                cancel_of(before, self.flow.task)
            },
        }
    }

    /// Handles one key press and says what the caller has to do outside the state.
    pub fn handle_key(&mut self, key: Key) -> (r: Command)
        requires
            old(self).wf(),
        ensures
            final(self).wf(),
            final(self).key_step(old(self), key, r),
    {
        if self.flow.in_progress && self.nav.focus != Focus::ActionPanelResponse {
            return self.guarded_key(key);
        }
        match self.nav.focus {
            Focus::ActionPanelInput => self.input_key(key),
            Focus::ActionPanelConfirm => self.confirm_key(key),
            Focus::ActionPanelResponse => self.response_key(key),
            _ => self.list_key(key),
        }
    }
}

} // verus!
