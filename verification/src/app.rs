//! The navigation state: which step and which view are on display.

use vstd::prelude::*;
use crate::data::BenchmarkResult;
use crate::data::BenchmarkView;
use crate::data::HeapStep;
use crate::data::HeapStepView;
use crate::data::views;

verus! {

/// The view on display.
#[derive(Debug, Clone, Copy, PartialEq, Eq, Structural)]
pub enum CurrentTab {
    /// The memory map of the current step.
    Visualizer,
    /// The benchmark comparison.
    Statistics,
}

/// The loaded data and the navigation state over it.
///
/// The steps and the benchmark records are set once; only the index of the
/// current step and the current view change afterwards.
#[derive(Debug, Clone)]
pub struct App {
    /// The recorded steps, in order.
    pub steps: Vec<HeapStep>,
    /// Index of the step on display.
    pub current_step_index: usize,
    /// The benchmark records, in input order.
    pub benchmark_results: Vec<BenchmarkResult>,
    /// The view on display.
    pub current_tab: CurrentTab,
}

/// Mathematical model of an [`App`].
pub struct AppView {
    pub steps: Seq<HeapStepView>,
    pub current_step_index: nat,
    pub benchmark_results: Seq<BenchmarkView>,
    pub current_tab: CurrentTab,
}

impl View for App {
    type V = AppView;

    open spec fn view(&self) -> AppView {
        AppView {
            steps: views(self.steps@),
            current_step_index: self.current_step_index as nat,
            benchmark_results: views(self.benchmark_results@),
            current_tab: self.current_tab,
        }
    }
}

/// The index after a step forward among `count` steps: one more, but never
/// past the last step.
pub open spec fn next_index(index: nat, count: nat) -> nat {
    if index + 1 < count {
        index + 1
    } else {
        index
    }
}

/// The index after a step back: one less, but never before the first step.
pub open spec fn prev_index(index: nat) -> nat {
    if index > 0 {
        (index - 1) as nat
    } else {
        index
    }
}

/// The index after `times` steps forward among `count` steps.
pub open spec fn next_index_times(index: nat, count: nat, times: nat) -> nat
    decreases times,
{
    if times == 0 {
        index
    } else {
        next_index(next_index_times(index, count, (times - 1) as nat), count)
    }
}

/// The other view.
pub open spec fn toggled(tab: CurrentTab) -> CurrentTab {
    match tab {
        CurrentTab::Visualizer => CurrentTab::Statistics,
        CurrentTab::Statistics => CurrentTab::Visualizer,
    }
}

impl AppView {
    /// Whether the current index points at a step, where there is any.
    pub open spec fn wf(self) -> bool {
        self.steps.len() > 0 ==> self.current_step_index < self.steps.len()
    }

    /// The step on display.
    pub open spec fn current_step(self) -> HeapStepView
        recommends
            self.current_step_index < self.steps.len(),
    {
        self.steps[self.current_step_index as int]
    }

    /// The state after a step forward.
    pub open spec fn next_step(self) -> AppView {
        AppView {
            current_step_index: next_index(self.current_step_index, self.steps.len()),
            ..self
        }
    }

    /// The state after `times` steps forward.
    pub open spec fn next_steps(self, times: nat) -> AppView
        decreases times,
    {
        if times == 0 {
            self
        } else {
            self.next_steps((times - 1) as nat).next_step()
        }
    }

    /// The state after a step back.
    pub open spec fn prev_step(self) -> AppView {
        AppView { current_step_index: prev_index(self.current_step_index), ..self }
    }

    /// The state after a switch of the view.
    pub open spec fn toggle_tab(self) -> AppView {
        AppView { current_tab: toggled(self.current_tab), ..self }
    }
}

impl App {
    /// Whether the current index points at a step, where there is any.
    pub open spec fn wf(&self) -> bool {
        self@.wf()
    }

    /// The state at start-up: the first step, in the visualizer view.
    pub fn new(steps: Vec<HeapStep>, benchmark_results: Vec<BenchmarkResult>) -> (app: App)
        ensures
            app.steps == steps,
            app.benchmark_results == benchmark_results,
            app.current_step_index == 0,
            app.current_tab == CurrentTab::Visualizer,
            app.wf(),
    {
        App { steps, current_step_index: 0, benchmark_results, current_tab: CurrentTab::Visualizer }
    }

    /// Moves to the next step. At the last step, and where there is no step
    /// at all, nothing changes.
    pub fn next_step(&mut self)
        ensures
            final(self)@ == old(self)@.next_step(),
            final(self).steps == old(self).steps,
            final(self).benchmark_results == old(self).benchmark_results,
            old(self).wf() ==> final(self).wf(),
    {
        let count = self.steps.len();
        if count > 0 && self.current_step_index < count - 1 {
            self.current_step_index = self.current_step_index + 1;
        }
    }

    /// Moves to the previous step. At the first step nothing changes.
    pub fn prev_step(&mut self)
        ensures
            final(self)@ == old(self)@.prev_step(),
            final(self).steps == old(self).steps,
            final(self).benchmark_results == old(self).benchmark_results,
            old(self).wf() ==> final(self).wf(),
    {
        if self.current_step_index > 0 {
            self.current_step_index = self.current_step_index - 1;
        }
    }

    /// The step on display.
    pub fn current_step(&self) -> (step: &HeapStep)
        requires
            self.current_step_index < self.steps@.len(),
        ensures
            *step == self.steps@[self.current_step_index as int],
            step@ == self@.current_step(),
    {
        &self.steps[self.current_step_index]
    }

    /// Switches to the other view. The current step stays.
    pub fn toggle_tab(&mut self)
        ensures
            final(self)@ == old(self)@.toggle_tab(),
            final(self).steps == old(self).steps,
            final(self).benchmark_results == old(self).benchmark_results,
            old(self).wf() ==> final(self).wf(),
    {
        self.current_tab = match self.current_tab {
            CurrentTab::Visualizer => CurrentTab::Statistics,
            CurrentTab::Statistics => CurrentTab::Visualizer,
        };
    }
}

/// After `times` steps forward from the first of `count` steps the index is
/// `times`, or that of the last step once `times` reaches it.
pub proof fn lemma_next_index_times(count: nat, times: nat)
    requires
        count > 0,
    ensures
        next_index_times(0, count, times) == (if times < count {
            times
        } else {
            (count - 1) as nat
        }),
    decreases times,
{
    if times > 0 {
        lemma_next_index_times(count, (times - 1) as nat);
    }
}

/// Steps forward change the index alone, as [`next_index_times`] says.
pub proof fn lemma_next_steps(app: AppView, times: nat)
    ensures
        app.next_steps(times) == (AppView {
            current_step_index: next_index_times(
                app.current_step_index,
                app.steps.len(),
                times,
            ),
            ..app
        }),
    decreases times,
{
    if times > 0 {
        lemma_next_steps(app, (times - 1) as nat);
    }
}

/// Stepping forward as many times as there are steps, from the first one,
/// ends at the last step, and one more step forward changes nothing.
pub proof fn lemma_next_saturates(app: AppView)
    requires
        app.steps.len() > 0,
        app.current_step_index == 0,
    ensures
        app.next_steps(app.steps.len()).current_step_index == app.steps.len() - 1,
        app.next_steps(app.steps.len()).next_step() == app.next_steps(app.steps.len()),
        app.next_steps(app.steps.len()).steps == app.steps,
{
    lemma_next_steps(app, app.steps.len());
    lemma_next_index_times(app.steps.len(), app.steps.len());
}

/// At the last step, and where there is no step, a step forward changes
/// nothing.
pub proof fn lemma_next_at_last(app: AppView)
    requires
        app.current_step_index + 1 >= app.steps.len(),
    ensures
        app.next_step() == app,
{
}

/// A step back from the first step changes nothing.
pub proof fn lemma_prev_at_first(app: AppView)
    requires
        app.current_step_index == 0,
    ensures
        app.prev_step() == app,
{
}

/// Switching the view twice gives the state that was there, and switching it
/// once gives the other view.
pub proof fn lemma_toggle_twice(app: AppView)
    ensures
        app.toggle_tab().toggle_tab() == app,
        app.toggle_tab().current_tab != app.current_tab,
{
}

/// A step forward and then a step back ends in the state where it began,
/// with the same step on display, from the first step and from every step but
/// the last.
pub proof fn lemma_next_then_prev(app: AppView)
    requires
        app.current_step_index == 0 || app.current_step_index + 1 < app.steps.len(),
    ensures
        app.next_step().prev_step() == app,
        app.next_step().prev_step().current_step() == app.current_step(),
{
}

/// No move leaves the steps: an index that points at a step still does so
/// after a step forward, a step back or a switch of the view.
pub proof fn lemma_moves_keep_index_valid(app: AppView)
    requires
        app.wf(),
    ensures
        app.next_step().wf(),
        app.prev_step().wf(),
        app.toggle_tab().wf(),
{
}

} // verus!
