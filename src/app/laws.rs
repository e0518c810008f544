//! Properties of the workflow that involve more than one step.
use vstd::prelude::*;
use super::{output_lines, App, Command, Focus, Key, Panel};

verus! {

/// The confirmation choice takes only the values 0 (proceed) and 1 (abort):
/// a left or right press on the confirmation flips it, and a second press
/// brings back the first value.
pub proof fn lemma_confirmation_two_valued(
    s0: App,
    s1: App,
    s2: App,
    k1: Key,
    k2: Key,
    r1: Command,
    r2: Command,
)
    requires
        s0.wf(),
        s0.nav().focus == Focus::ActionPanelConfirm,
        k1 == Key::Left || k1 == Key::Right,
        k2 == Key::Left || k2 == Key::Right,
        s1.key_step(&s0, k1, r1),
        s2.key_step(&s1, k2, r2),
    ensures
        s1.flow().confirmation <= 1,
        s2.flow().confirmation <= 1,
        !s0.guarded() ==> s1.flow().confirmation != s0.flow().confirmation,
        s2.flow().confirmation == s0.flow().confirmation,
{
}

/// While an action runs and focus has left its output, a key other than quit
/// and Escape is refused: the state is as before but for one more banner, and
/// nothing is started.
pub proof fn lemma_busy_keys_refused(s0: App, s1: App, key: Key, r: Command)
    requires
        s0.wf(),
        s0.flow().in_progress,
        s0.nav().focus != Focus::ActionPanelResponse,
        key != Key::Char('q'),
        key != Key::Esc,
        s1.key_step(&s0, key, r),
    ensures
        s1.one_more_banner(&s0, "Action in progress. Input ignored."@),
        r == Command::Nothing,
{
}

/// Dismissing the output panel cancels its task, and a chunk delivered for
/// any task afterwards changes nothing: no output line is appended.
pub proof fn lemma_silent_after_dismissal(
    s0: App,
    s1: App,
    s2: App,
    key: Key,
    r: Command,
    task: u64,
    recs: Seq<(Seq<char>, bool)>,
)
    requires
        s0.wf(),
        s0.nav().focus == Focus::ActionPanelResponse,
        key != Key::Up && key != Key::Down && key != Key::Char('w') && key != Key::Char('s'),
        s1.key_step(&s0, key, r),
        s2.chunk_delivered(&s1, task, recs),
    ensures
        s0.flow().task matches Some(t) ==> r == Command::Cancel(t),
        s2.same_as(&s1),
        output_lines(s2.flow().panel).len() == output_lines(s1.flow().panel).len(),
{
}

/// Clearing the caches while a task runs cancels it and puts the action
/// panel back to rest.
pub proof fn lemma_clear_cancels(s0: App, s1: App, task: u64)
    requires
        s0.wf(),
        s0.task_live(task),
        s1.after_clear(&s0),
    ensures
        !s1.task_live(task),
        s1.flow().panel == Panel::Idle,
        !s1.flow().in_progress,
        s1.data().is_cleared(),
{
}

} // verus!
