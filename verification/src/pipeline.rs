//! The pipeline coordinator.
//!
//! The coordinator opens the sink, launches one extraction task per
//! resource kind in a fixed order, each run to completion before the
//! next starts, and stops at the first failure: the sink is closed, no
//! further task is launched, and the originating error is propagated.
//! Lines already written stand.  On success the coordinator closes the
//! sink only after every task has finished.

use vstd::prelude::*;
use crate::error::{ErrorV, PipelineError, ResourceKind};
use crate::extract::{all_ok, first_bad};
use crate::resource::{extract_resource, resource_sts, resource_urls, DetailV, ResourceDetail};
use crate::sink::{enc_lines, Sink};

verus! {

/// One listing entry: the entity's name and its canonical URL.
pub struct Summary {
    pub name: String,
    pub url: String,
}

/// The mathematical value of a listing entry.
#[verifier::ext_equal]
pub struct SummaryV {
    pub name: Seq<char>,
    pub url: Seq<char>,
}

impl DeepView for Summary {
    type V = SummaryV;

    open spec fn deep_view(&self) -> SummaryV {
        SummaryV { name: self.name@, url: self.url@ }
    }
}

/// One entity of a task: its listing entry and, when the fetch
/// succeeded, its document.
pub struct EntityInput {
    pub summary: Summary,
    pub detail: Option<ResourceDetail>,
}

/// The mathematical value of one entity's input.
#[verifier::ext_equal]
pub struct EntityInputV {
    pub summary: SummaryV,
    pub detail: Option<DetailV>,
}

impl DeepView for EntityInput {
    type V = EntityInputV;

    open spec fn deep_view(&self) -> EntityInputV {
        EntityInputV { summary: self.summary.deep_view(), detail: self.detail.deep_view() }
    }
}

/// One task's input: its kind and, when the listing succeeded, its
/// entities.
pub struct TaskInput {
    pub kind: ResourceKind,
    pub listing: Option<Vec<EntityInput>>,
}

/// The mathematical value of one task's input.
#[verifier::ext_equal]
pub struct TaskInputV {
    pub kind: ResourceKind,
    pub listing: Option<Seq<EntityInputV>>,
}

impl DeepView for TaskInput {
    type V = TaskInputV;

    open spec fn deep_view(&self) -> TaskInputV {
        TaskInputV { kind: self.kind, listing: self.listing.deep_view() }
    }
}

/// What one entity contributes: its full statement sequence, or the
/// fatal error that stops the run.
pub open spec fn entity_outcome(kind: ResourceKind, e: EntityInputV, loc: Seq<char>)
    -> Result<Seq<crate::statement::StatementV>, ErrorV> {
    match e.detail {
        None => Err(ErrorV::FetchFailed(kind, e.summary.url)),
        Some(d) => if all_ok(resource_urls(e.summary.url, e.summary.name, d, loc)) {
            Ok(resource_sts(e.summary.url, e.summary.name, d, loc))
        } else {
            Err(ErrorV::InvalidIdentity(first_bad(resource_urls(e.summary.url,
                e.summary.name, d, loc))))
        },
    }
}

/// The lines a run writes and the error it stops with, if any.
#[verifier::ext_equal]
pub ghost struct Outcome {
    pub lines: Seq<Seq<char>>,
    pub err: Option<ErrorV>,
}

/// What one task writes, entity by entity: every statement of each
/// entity before the first failure, nothing of the failing entity or of
/// any later one.
pub open spec fn task_outcome(kind: ResourceKind, entities: Seq<EntityInputV>,
    loc: Seq<char>) -> Outcome
    decreases entities.len(),
{
    if entities.len() == 0 {
        Outcome { lines: Seq::empty(), err: None }
    } else {
        match entity_outcome(kind, entities[0], loc) {
            Err(e) => Outcome { lines: Seq::empty(), err: Some(e) },
            Ok(sts) => {
                let rest = task_outcome(kind, entities.drop_first(), loc);
                Outcome { lines: enc_lines(sts) + rest.lines, err: rest.err }
            }
        }
    }
}

/// What the whole run writes: the tasks in order, stopped at the first
/// failure; a failed listing contributes nothing.
pub open spec fn pipeline_outcome(inputs: Seq<TaskInputV>, loc: Seq<char>) -> Outcome
    decreases inputs.len(),
{
    if inputs.len() == 0 {
        Outcome { lines: Seq::empty(), err: None }
    } else {
        match inputs[0].listing {
            None => Outcome {
                lines: Seq::empty(),
                err: Some(ErrorV::ListingFailed(inputs[0].kind)),
            },
            Some(entities) => {
                let t = task_outcome(inputs[0].kind, entities, loc);
                if t.err is Some {
                    t
                } else {
                    let rest = pipeline_outcome(inputs.drop_first(), loc);
                    Outcome { lines: t.lines + rest.lines, err: rest.err }
                }
            }
        }
    }
}

/// The run states of the coordinator.
#[derive(Clone, Copy, Debug, PartialEq, Eq, Structural)]
pub enum PipelineStatus {
    Idle,
    Running,
    Completed,
    Failed,
}

/// The run-state of one extraction task: its kind and its progress.
pub struct TaskState {
    pub kind: ResourceKind,
    pub done: u64,
    pub total: u64,
}

impl TaskState {
    /// A fresh task over `total` entities.
    pub fn new(kind: ResourceKind, total: u64) -> (r: TaskState)
        ensures
            r.kind == kind,
            r.done == 0,
            r.total == total,
    {
        TaskState { kind, done: 0, total }
    }

    /// Marks one more entity finished.
    pub fn tick(&mut self)
        requires
            old(self).done < old(self).total,
        ensures
            final(self).kind == old(self).kind,
            final(self).done == old(self).done + 1,
            final(self).total == old(self).total,
    {
        self.done = self.done + 1;
    }
}

/// The pipeline coordinator: owns the sink for its whole lifetime and
/// drives the extraction tasks in sequence.
pub struct Pipeline {
    status: PipelineStatus,
    sink: Sink,
    locale: String,
}

impl Pipeline {
    /// The coordinator's state.
    pub closed spec fn status_view(&self) -> PipelineStatus {
        self.status
    }

    /// The lines written so far.
    pub closed spec fn lines_view(&self) -> Seq<Seq<char>> {
        self.sink.lines_view()
    }

    /// The configured locale.
    pub closed spec fn locale_view(&self) -> Seq<char> {
        self.locale@
    }

    /// The sink is open exactly while the coordinator runs.
    pub closed spec fn sink_open_view(&self) -> bool {
        self.sink.is_open_view()
    }

    /// A fresh coordinator over an empty output, filtering text to
    /// `locale`.
    pub fn new(locale: &str) -> (r: Pipeline)
        ensures
            r.status_view() == PipelineStatus::Idle,
            r.lines_view() == Seq::<Seq<char>>::empty(),
            r.locale_view() == locale@,
            r.sink_open_view(),
    {
        Pipeline {
            status: PipelineStatus::Idle,
            sink: Sink::new(),
            locale: String::from_str(locale),
        }
    }

    /// A fresh coordinator filtering text to the default locale.
    pub fn new_default() -> (r: Pipeline)
        ensures
            r.status_view() == PipelineStatus::Idle,
            r.lines_view() == Seq::<Seq<char>>::empty(),
            r.locale_view() == crate::extract::default_locale(),
            r.sink_open_view(),
    {
        let p = Pipeline::new("en");
        p
    }

    /// Starts the run: the output is open, tasks may be launched.
    pub fn begin(&mut self)
        requires
            old(self).status_view() == PipelineStatus::Idle,
        ensures
            final(self).status_view() == PipelineStatus::Running,
            final(self).lines_view() == old(self).lines_view(),
            final(self).locale_view() == old(self).locale_view(),
            final(self).sink_open_view() == old(self).sink_open_view(),
    {
        self.status = PipelineStatus::Running;
    }

    /// Records a failed listing: the run stops, the sink closes, and
    /// the error is reported with the failing kind.
    pub fn listing_failed(&mut self, kind: ResourceKind) -> (r: PipelineError)
        requires
            old(self).status_view() == PipelineStatus::Running,
        ensures
            final(self).status_view() == PipelineStatus::Failed,
            final(self).lines_view() == old(self).lines_view(),
            final(self).locale_view() == old(self).locale_view(),
            !final(self).sink_open_view(),
            r.deep_view() == ErrorV::ListingFailed(kind),
    {
        self.status = PipelineStatus::Failed;
        self.sink.close();
        PipelineError::ListingFailed(kind)
    }

    /// Runs one entity: a failed fetch or a malformed identity is fatal
    /// and closes the run; otherwise the entity's full statement
    /// sequence, and nothing else, is appended.
    pub fn task_entity(&mut self, kind: ResourceKind, e: &EntityInput)
        -> (r: Result<(), PipelineError>)
        requires
            old(self).status_view() == PipelineStatus::Running,
            old(self).sink_open_view(),
        ensures
            final(self).locale_view() == old(self).locale_view(),
            match entity_outcome(kind, e.deep_view(), old(self).locale_view()) {
                Ok(sts) => r.is_ok()
                    && final(self).lines_view() == old(self).lines_view() + enc_lines(sts)
                    && final(self).status_view() == PipelineStatus::Running
                    && final(self).sink_open_view(),
                Err(err) => r.is_err() && r->Err_0.deep_view() == err
                    && final(self).lines_view() == old(self).lines_view()
                    && final(self).status_view() == PipelineStatus::Failed
                    && !final(self).sink_open_view(),
            },
    {
        match &e.detail {
            None => {
                self.status = PipelineStatus::Failed;
                self.sink.close();
                Err(PipelineError::FetchFailed(kind,
                    String::from_str(e.summary.url.as_str())))
            }
            Some(d) => {
                match extract_resource(e.summary.url.as_str(), e.summary.name.as_str(), d,
                    self.locale.as_str()) {
                    Ok(stmts) => {
                        match self.sink.accept_all(&stmts) {
                            Ok(()) => Ok(()),
                            Err(err) => {
                                proof {
                                    assert(false);
                                }
                                Err(err)
                            }
                        }
                    }
                    Err(err) => {
                        self.status = PipelineStatus::Failed;
                        self.sink.close();
                        Err(err)
                    }
                }
            }
        }
    }

    /// Runs one whole task from its listing outcome, entity by entity,
    /// stopping at the first failure.
    pub fn run_task(&mut self, t: &TaskInput) -> (r: Result<(), PipelineError>)
        requires
            old(self).status_view() == PipelineStatus::Running,
            old(self).sink_open_view(),
        ensures
            final(self).locale_view() == old(self).locale_view(),
            match t.deep_view().listing {
                None => r.is_err()
                    && r->Err_0.deep_view() == ErrorV::ListingFailed(t.kind)
                    && final(self).lines_view() == old(self).lines_view()
                    && final(self).status_view() == PipelineStatus::Failed
                    && !final(self).sink_open_view(),
                Some(entities) => ({
                    let o = task_outcome(t.kind, entities, old(self).locale_view());
                    final(self).lines_view() == old(self).lines_view() + o.lines
                    && match o.err {
                        None => r.is_ok()
                            && final(self).status_view() == PipelineStatus::Running
                            && final(self).sink_open_view(),
                        Some(err) => r.is_err() && r->Err_0.deep_view() == err
                            && final(self).status_view() == PipelineStatus::Failed
                            && !final(self).sink_open_view(),
                    }
                }),
            },
    {
        match &t.listing {
            None => Err(self.listing_failed(t.kind)),
            Some(entities) => {
                let r = self.run_entities(t.kind, entities, 0);
                proof {
                    assert(entities.deep_view().skip(0) =~= entities.deep_view());
                    if task_outcome(t.kind, entities.deep_view(),
                        old(self).locale_view()).err is None {
                        assert(old(self).lines_view() + task_outcome(t.kind,
                            entities.deep_view(), old(self).locale_view()).lines
                            == final(self).lines_view());
                    }
                }
                r
            }
        }
    }

    /// Runs the entities of one task from position `idx` on.
    fn run_entities(&mut self, kind: ResourceKind, entities: &Vec<EntityInput>, idx: usize)
        -> (r: Result<(), PipelineError>)
        requires
            old(self).status_view() == PipelineStatus::Running,
            old(self).sink_open_view(),
            idx <= entities.len(),
        ensures
            final(self).locale_view() == old(self).locale_view(),
            ({
                let o = task_outcome(kind, entities.deep_view().skip(idx as int),
                    old(self).locale_view());
                final(self).lines_view() == old(self).lines_view() + o.lines
                && match o.err {
                    None => r.is_ok()
                        && final(self).status_view() == PipelineStatus::Running
                        && final(self).sink_open_view(),
                    Some(err) => r.is_err() && r->Err_0.deep_view() == err
                        && final(self).status_view() == PipelineStatus::Failed
                        && !final(self).sink_open_view(),
                }
            }),
        decreases entities.len() - idx,
    {
        let ghost loc = old(self).locale_view();
        let ghost suffix = entities.deep_view().skip(idx as int);
        if idx == entities.len() {
            proof {
                assert(suffix.len() == 0);
                assert(old(self).lines_view() + Seq::<Seq<char>>::empty()
                    =~= old(self).lines_view());
            }
            Ok(())
        } else {
            proof {
                assert(suffix[0] == entities.deep_view()[idx as int]);
                assert(suffix.drop_first() =~= entities.deep_view().skip(idx + 1 as int));
            }
            match self.task_entity(kind, &entities[idx]) {
                Err(e) => {
                    proof {
                        assert(old(self).lines_view() + Seq::<Seq<char>>::empty()
                            =~= old(self).lines_view());
                    }
                    Err(e)
                }
                Ok(()) => {
                    let ghost mid = self.lines_view();
                    let r = self.run_entities(kind, entities, idx + 1);
                    proof {
                        let sts = entity_outcome(kind, suffix[0], loc)->Ok_0;
                        let rest = task_outcome(kind, suffix.drop_first(), loc);
                        crate::chars::lemma_concat_assoc(old(self).lines_view(),
                            enc_lines(sts), rest.lines);
                    }
                    r
                }
            }
        }
    }

    /// Finishes a successful run: every task is done, the sink is
    /// closed, the output stands complete.
    pub fn finish(&mut self)
        requires
            old(self).status_view() == PipelineStatus::Running,
        ensures
            final(self).status_view() == PipelineStatus::Completed,
            final(self).lines_view() == old(self).lines_view(),
            final(self).locale_view() == old(self).locale_view(),
            !final(self).sink_open_view(),
    {
        self.status = PipelineStatus::Completed;
        self.sink.close();
    }

    /// The coordinator's state.
    pub fn status(&self) -> (r: PipelineStatus)
        ensures
            r == self.status_view(),
    {
        self.status
    }

    /// The lines written so far.
    pub fn lines(&self) -> (r: &Vec<String>)
        ensures
            r.deep_view() == self.lines_view(),
    {
        self.sink.lines()
    }
}

/// Runs the whole pipeline over pre-fetched inputs: the tasks in order,
/// each to completion, stopped at the first failure.  The output is a
/// pure function of the inputs and the locale, so a re-run over the
/// same responses writes the same lines.
pub fn run_pipeline(inputs: &Vec<TaskInput>, locale: &str)
    -> (r: (Pipeline, Result<(), PipelineError>))
    ensures
        ({
            let o = pipeline_outcome(inputs.deep_view(), locale@);
            r.0.lines_view() == o.lines
            && !r.0.sink_open_view()
            && match o.err {
                None => r.1.is_ok()
                    && r.0.status_view() == PipelineStatus::Completed,
                Some(err) => r.1.is_err() && r.1->Err_0.deep_view() == err
                    && r.0.status_view() == PipelineStatus::Failed,
            }
        }),
{
    let mut p = Pipeline::new(locale);
    p.begin();
    let r = run_tasks(&mut p, inputs, 0);
    proof {
        assert(inputs.deep_view().skip(0) =~= inputs.deep_view());
    }
    (p, r)
}

/// Runs the tasks from position `idx` on, closing the run at the end or
/// at the first failure.
fn run_tasks(p: &mut Pipeline, inputs: &Vec<TaskInput>, idx: usize)
    -> (r: Result<(), PipelineError>)
    requires
        old(p).status_view() == PipelineStatus::Running,
        old(p).sink_open_view(),
        idx <= inputs.len(),
    ensures
        ({
            let o = pipeline_outcome(inputs.deep_view().skip(idx as int),
                old(p).locale_view());
            final(p).lines_view() == old(p).lines_view() + o.lines
            && !final(p).sink_open_view()
            && match o.err {
                None => r.is_ok()
                    && final(p).status_view() == PipelineStatus::Completed,
                Some(err) => r.is_err() && r->Err_0.deep_view() == err
                    && final(p).status_view() == PipelineStatus::Failed,
            }
        }),
    decreases inputs.len() - idx,
{
    let ghost loc = old(p).locale_view();
    let ghost suffix = inputs.deep_view().skip(idx as int);
    if idx == inputs.len() {
        p.finish();
        proof {
            assert(suffix.len() == 0);
            assert(old(p).lines_view() + Seq::<Seq<char>>::empty() =~= old(p).lines_view());
        }
        Ok(())
    } else {
        proof {
            assert(suffix[0] == inputs.deep_view()[idx as int]);
            assert(suffix.drop_first() =~= inputs.deep_view().skip(idx + 1 as int));
        }
        match p.run_task(&inputs[idx]) {
            Err(e) => {
                proof {
                    match suffix[0].listing {
                        None => {
                            assert(old(p).lines_view() + Seq::<Seq<char>>::empty()
                                =~= old(p).lines_view());
                        }
                        Some(entities) => {}
                    }
                }
                Err(e)
            }
            Ok(()) => {
                let r = run_tasks(p, inputs, idx + 1);
                proof {
                    let entities = suffix[0].listing->Some_0;
                    let t = task_outcome(suffix[0].kind, entities, loc);
                    let rest = pipeline_outcome(suffix.drop_first(), loc);
                    crate::chars::lemma_concat_assoc(old(p).lines_view(), t.lines,
                        rest.lines);
                }
                r
            }
        }
    }
}

} // verus!
