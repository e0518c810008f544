//! What a background action writes back into the state: the records of its
//! reply stream, its closing summary, or its failure. A task writes only while
//! it is the panel's live task; once cancelled it writes nothing.
use vstd::prelude::*;
use super::{texts, ActionPanelState, ActionType, App, Panel, WorkflowView};
use super::controller::summary_text;
use crate::ingest::{complete_records, records_of_line, views_of, StreamIngester};
use crate::json::LineRecord;
use crate::text::{owned, push_text};

verus! {

/// Whether every record reports success.
pub open spec fn all_ok(recs: Seq<(Seq<char>, bool)>) -> bool
    decreases recs.len(),
{
    recs.len() == 0 || (all_ok(recs.drop_last()) && recs.last().1)
}

/// The words before a failed line's banner.
pub open spec fn error_prefix(a: ActionType) -> Seq<char> {
    match a {
        ActionType::Pull => "Pull Error: "@,
        ActionType::Delete => "Delete Error: "@,
    }
}

/// The words before a transport failure's message.
pub open spec fn failure_prefix(a: ActionType) -> Seq<char> {
    match a {
        ActionType::Pull => "Pull failed: "@,
        ActionType::Delete => "Delete failed: "@,
    }
}

/// One banner for each failed record, in order.
pub open spec fn failure_banners(a: ActionType, recs: Seq<(Seq<char>, bool)>) -> Seq<Seq<char>>
    decreases recs.len(),
{
    if recs.len() == 0 {
        Seq::empty()
    } else {
        failure_banners(a, recs.drop_last()) + if recs.last().1 {
            Seq::<Seq<char>>::empty()
        } else {
            seq![error_prefix(a) + recs.last().0]
        }
    }
}

/// The messages of the records.
pub open spec fn messages(recs: Seq<(Seq<char>, bool)>) -> Seq<Seq<char>> {
    recs.map_values(|r: (Seq<char>, bool)| r.0)
}

/// A running panel with the records appended: their messages become output
/// lines, and any failure turns the overall flag to failure.
pub open spec fn with_records(p: Panel, recs: Seq<(Seq<char>, bool)>) -> Panel {
    match p {
        Panel::Running(m, a, lines, ok) => Panel::Running(m, a, lines + messages(recs), ok && all_ok(recs)),
        _ => p,
    }
}

/// The action kind of a running panel.
pub open spec fn running_action(p: Panel) -> ActionType {
    match p {
        Panel::Running(_, a, _, _) => a,
        _ => ActionType::Pull,
    }
}

/// The overall flag of a running panel.
pub open spec fn running_ok(p: Panel) -> bool {
    match p {
        Panel::Running(_, _, _, ok) => ok,
        _ => false,
    }
}

/// The output lines of a running panel.
pub open spec fn output_lines(p: Panel) -> Seq<Seq<char>> {
    match p {
        Panel::Running(_, _, lines, _) => lines,
        _ => Seq::empty(),
    }
}

impl App {
    /// `o` with the records of its running panel's task applied: output
    /// lines, overall flag and failure banners.
    pub open spec fn records_applied(&self, o: &App, recs: Seq<(Seq<char>, bool)>) -> bool {
        let f = o.flow();
        &&& self.flow() == (WorkflowView { panel: with_records(f.panel, recs), ..f })
        &&& self.banner_texts() == o.banner_texts() + failure_banners(running_action(f.panel), recs)
        &&& self.nav() == o.nav()
        &&& self.data() == o.data()
        &&& self.same_setup(o)
    }

    /// A chunk's records reached the state on behalf of `task`: applied if
    /// `task` is live, ignored otherwise.
    pub open spec fn chunk_delivered(&self, o: &App, task: u64, recs: Seq<(Seq<char>, bool)>) -> bool {
        if o.task_live(task) {
            self.records_applied(o, recs)
        } else {
            self.same_as(o)
        }
    }

    /// The stream of `task` ended: if `task` is live, the remainder's records
    /// and a summary line were written, and the task is done.
    pub open spec fn stream_finished(&self, o: &App, task: u64, recs: Seq<(Seq<char>, bool)>) -> bool {
        if o.task_live(task) {
            let f = o.flow();
            let p = with_records(f.panel, recs);
            let ok = running_ok(p);
            &&& self.flow() == (WorkflowView {
                panel: with_records(p, seq![(summary_text(running_action(p), ok), ok)]),
                task: None,
                in_progress: false,
                ..f
            })
            &&& self.banner_texts() == o.banner_texts() + failure_banners(running_action(f.panel), recs)
            &&& self.nav() == o.nav()
            &&& self.data() == o.data()
            &&& self.same_setup(o)
        } else {
            self.same_as(o)
        }
    }

    /// The remote operation of `task` failed with `reason`: if `task` is
    /// live, one failed line and a banner say so, and the task is done.
    pub open spec fn task_failed(&self, o: &App, task: u64, reason: Seq<char>) -> bool {
        if o.task_live(task) {
            let f = o.flow();
            let msg = failure_prefix(running_action(f.panel)) + reason;
            &&& self.flow() == (WorkflowView {
                panel: with_records(f.panel, seq![(msg, false)]),
                task: None,
                in_progress: false,
                ..f
            })
            &&& self.banner_texts() == o.banner_texts().push(msg)
            &&& self.nav() == o.nav()
            &&& self.data() == o.data()
            &&& self.same_setup(o)
        } else {
            self.same_as(o)
        }
    }

    /// Appends one line to the output of the action panel; a failed line
    /// turns the overall flag to failure. Outside a running panel nothing
    /// changes.
    pub fn add_action_output_line(&mut self, line: String, is_success: bool)
        requires
            old(self).wf(),
        ensures
            final(self).wf(),
            final(self).flow() == (WorkflowView {
                panel: with_records(old(self).flow().panel, seq![(line@, is_success)]),
                ..old(self).flow()
            }),
            final(self).nav() == old(self).nav(),
            final(self).data() == old(self).data(),
            final(self).same_setup(old(self)),
            final(self).banner_texts() == old(self).banner_texts(),
    {
        let ghost msg = line@;
        match &mut self.flow.panel {
            ActionPanelState::Response(_, _, lines, ok) => {
                let ghost old_lines = lines@;
                lines.push(line);
                *ok = *ok && is_success;
                proof {
                    assert(texts(lines@) =~= texts(old_lines) + messages(seq![(msg, is_success)]));
                    lemma_push(Seq::empty(), (msg, is_success));
                    assert(Seq::<(Seq<char>, bool)>::empty().push((msg, is_success)) =~= seq![(msg, is_success)]);
                }
            },
            _ => {},
        }
    }

    /// Writes one record into the running panel, with a banner if it failed.
    fn apply_record(&mut self, a: ActionType, rec: &LineRecord)
        requires
            old(self).wf(),
            old(self).flow().panel is Running,
            running_action(old(self).flow().panel) == a,
        ensures
            final(self).wf(),
            final(self).records_applied(old(self), seq![rec@]),
            final(self).flow().panel is Running,
            running_action(final(self).flow().panel) == a,
    {
        self.add_action_output_line(rec.message.clone(), rec.success);
        proof {
            let one = seq![rec@];
            lemma_push(Seq::empty(), rec@);
            assert(Seq::<(Seq<char>, bool)>::empty().push(rec@) =~= one);
            assert(messages(one) =~= seq![rec.message@]);
        }
        if !rec.success {
            let mut banner = match a {
                ActionType::Pull => owned("Pull Error: "),
                ActionType::Delete => owned("Delete Error: "),
            };
            push_text(&mut banner, rec.message.as_str());
            self.add_banner(banner);
        }
        proof {
            let one = seq![rec@];
            assert(failure_banners(a, one.drop_last()) =~= Seq::<Seq<char>>::empty());
            assert(self.banner_texts() =~= old(self).banner_texts() + failure_banners(a, one));
        }
    }

    /// Writes records into the running panel, in order.
    fn apply_records(&mut self, recs: &Vec<LineRecord>)
        requires
            old(self).wf(),
            old(self).flow().panel is Running,
        ensures
            final(self).wf(),
            final(self).records_applied(old(self), views_of(recs@)),
            final(self).flow().panel is Running,
    {
        let ghost f0 = self.flow();
        let ghost a0 = running_action(f0.panel);
        let a = match &self.flow.panel {
            ActionPanelState::Response(_, a, _, _) => *a,
            _ => ActionType::Pull,
        };
        let mut i: usize = 0;
        proof {
            let none = views_of(recs@).subrange(0, 0);
            assert(none =~= Seq::<(Seq<char>, bool)>::empty());
            assert(messages(none) =~= Seq::<Seq<char>>::empty());
            lemma_with_records_empty(f0.panel);
            assert(self.flow() =~= (WorkflowView { panel: with_records(f0.panel, none), ..f0 }));
            assert(self.banner_texts() =~= old(self).banner_texts() + failure_banners(a0, none));
        }
        while i < recs.len()
            invariant
                i <= recs@.len(),
                a == a0,
                f0 == old(self).flow(),
                a0 == running_action(f0.panel),
                self.wf(),
                self.flow().panel is Running,
                running_action(self.flow().panel) == a,
                self.records_applied(old(self), views_of(recs@).subrange(0, i as int)),
            decreases recs@.len() - i,
        {
            self.apply_record(a, &recs[i]);
            proof {
                let done = views_of(recs@).subrange(0, i as int);
                let next = views_of(recs@).subrange(0, i + 1);
                lemma_with_records_append(f0.panel, done, recs@[i as int]@);
                lemma_push(done, recs@[i as int]@);
                lemma_push(Seq::empty(), recs@[i as int]@);
                assert(Seq::<(Seq<char>, bool)>::empty().push(recs@[i as int]@) =~= seq![recs@[i as int]@]);
                assert(done.push(recs@[i as int]@) =~= next);
                assert(self.flow() == (WorkflowView { panel: with_records(f0.panel, next), ..f0 }));
                assert(self.banner_texts() =~= old(self).banner_texts() + failure_banners(a, next));
            }
            i = i + 1;
        }
        assert(views_of(recs@).subrange(0, recs@.len() as int) =~= views_of(recs@));
    }

    /// Feeds one chunk of `task`'s reply to its reader and writes the records
    /// of the lines it completes; a task that is no longer live writes nothing.
    pub fn deliver_chunk(&mut self, task: u64, reader: &mut StreamIngester, chunk: &[u8])
        requires
            old(self).wf(),
        ensures
            final(self).wf(),
            final(self).chunk_delivered(old(self), task, complete_records(old(reader).pending() + chunk@)),
            old(self).task_live(task) ==> final(reader).pending() == crate::ingest::remainder(old(reader).pending() + chunk@),
            !old(self).task_live(task) ==> final(reader).pending() == old(reader).pending(),
    {
        if self.flow.task != Some(task) {
            return;
        }
        let recs = reader.ingest(chunk);
        self.apply_records(&recs);
    }

    /// Ends `task`'s reply: writes the records of its unterminated remainder
    /// and the summary line, and marks the task done; a task that is no longer
    /// live writes nothing.
    pub fn finish_stream(&mut self, task: u64, reader: &mut StreamIngester)
        requires
            old(self).wf(),
        ensures
            final(self).wf(),
            final(self).stream_finished(old(self), task, records_of_line(old(reader).pending(), true)),
    {
        if self.flow.task != Some(task) {
            return;
        }
        let recs = reader.finish();
        self.apply_records(&recs);
        let (a, ok) = match &self.flow.panel {
            ActionPanelState::Response(_, a, _, ok) => (*a, *ok),
            _ => (ActionType::Pull, false),
        };
        let summary = match (a, ok) {
            (ActionType::Pull, true) => owned("Model pull completed successfully."),
            (ActionType::Pull, false) => owned("Model pull completed with errors."),
            (ActionType::Delete, true) => owned("Model delete completed successfully."),
            (ActionType::Delete, false) => owned("Model delete completed with errors."),
        };
        self.add_action_output_line(summary, ok);
        self.flow.task = None;
        self.flow.in_progress = false;
    }

    /// Records that `task`'s remote operation failed with `reason`; a task
    /// that is no longer live writes nothing.
    pub fn fail_task(&mut self, task: u64, reason: &str)
        requires
            old(self).wf(),
        ensures
            final(self).wf(),
            final(self).task_failed(old(self), task, reason@),
    {
        if self.flow.task != Some(task) {
            return;
        }
        let mut msg = match &self.flow.panel {
            ActionPanelState::Response(_, ActionType::Delete, _, _) => owned("Delete failed: "),
            _ => owned("Pull failed: "),
        };
        push_text(&mut msg, reason);
        let banner = msg.clone();
        self.add_action_output_line(msg, false);
        self.add_banner(banner);
        self.flow.task = None;
        self.flow.in_progress = false;
    }
}

proof fn lemma_with_records_empty(p: Panel)
    ensures
        with_records(p, Seq::empty()) == p,
{
    let none = Seq::<(Seq<char>, bool)>::empty();
    assert(messages(none) =~= Seq::<Seq<char>>::empty());
    if let Panel::Running(m, a, lines, ok) = p {
        assert(lines + messages(none) =~= lines);
    }
}

proof fn lemma_push(done: Seq<(Seq<char>, bool)>, r: (Seq<char>, bool))
    ensures
        all_ok(done.push(r)) == (all_ok(done) && r.1),
        forall|a: ActionType| #[trigger] failure_banners(a, done.push(r)) == failure_banners(a, done) + if r.1 {
            Seq::<Seq<char>>::empty()
        } else {
            seq![error_prefix(a) + r.0]
        },
        all_ok(Seq::<(Seq<char>, bool)>::empty()),
        forall|a: ActionType| #[trigger] failure_banners(a, Seq::<(Seq<char>, bool)>::empty()) == Seq::<Seq<char>>::empty(),
{
    assert(done.push(r).drop_last() =~= done);
    assert(done.push(r).last() == r);
}

proof fn lemma_with_records_append(p: Panel, done: Seq<(Seq<char>, bool)>, r: (Seq<char>, bool))
    ensures
        with_records(with_records(p, done), seq![r]) == with_records(p, done.push(r)),
{
    let one = seq![r];
    lemma_push(done, r);
    lemma_push(Seq::empty(), r);
    assert(Seq::<(Seq<char>, bool)>::empty().push(r) =~= one);
    assert(messages(done.push(r)) =~= messages(done) + messages(one));
    if let Panel::Running(m, a, lines, ok) = p {
        assert(lines + messages(done) + messages(one) =~= lines + messages(done.push(r)));
    }
}

} // verus!
