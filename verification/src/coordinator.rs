//! The run over all packages: which check starts next, how many may be
//! under way at once, and what becomes of each result.

use crate::decision::{line_of, Outcome, OutcomeView};
use crate::error::{Failure, FailureView};
use crate::text::views_of;
use crate::unit::result_view;
use vstd::prelude::*;

verus! {

/// How many checks may be under way at once, unless said otherwise.
pub const DEFAULT_CEILING: usize = 4;

/// What the caller does next.
#[derive(Clone, Debug, PartialEq, Eq)]
pub enum Action {
    /// Start the check of this package.
    Start { package: String },
    /// Wait for a check to end, then call `record` with its result.
    Wait,
    /// Every package was checked.
    Finish,
}

pub enum ActionView {
    Start { package: Seq<char> },
    Wait,
    Finish,
}

impl View for Action {
    type V = ActionView;

    open spec fn view(&self) -> ActionView {
        match self {
            Action::Start { package } => ActionView::Start { package: package@ },
            Action::Wait => ActionView::Wait,
            Action::Finish => ActionView::Finish,
        }
    }
}

/// What a result puts out.
#[derive(Clone, Debug, PartialEq, Eq)]
pub enum Emission {
    /// A line for the report.
    Report { line: String },
    /// A line for the log of failures.
    Log { line: String },
    /// Nothing.
    Nothing,
}

pub enum EmissionView {
    Report { line: Seq<char> },
    Log { line: Seq<char> },
    Nothing,
}

impl View for Emission {
    type V = EmissionView;

    open spec fn view(&self) -> EmissionView {
        match self {
            Emission::Report { line } => EmissionView::Report { line: line@ },
            Emission::Log { line } => EmissionView::Log { line: line@ },
            Emission::Nothing => EmissionView::Nothing,
        }
    }
}

/// What `result` puts out: the line of an outcome goes to the report, the
/// message of a failure to the log.
pub open spec fn emission_of(result: Result<OutcomeView, FailureView>) -> EmissionView {
    match result {
        Ok(outcome) => match line_of(outcome) {
            Some(line) => EmissionView::Report { line },
            None => EmissionView::Nothing,
        },
        Err(failure) => EmissionView::Log { line: failure.message },
    }
}

/// Where a run stands: the packages in the order in which they start, how
/// many checks were started and how many of those have ended.
pub struct RunView {
    pub packages: Seq<Seq<char>>,
    pub ceiling: nat,
    pub started: nat,
    pub ended: nat,
}

/// What can happen to a run.
pub enum Event {
    /// The caller asks what to do next.
    Poll,
    /// A check has ended.
    Ended,
}

impl RunView {
    /// The checks under way.
    pub open spec fn in_flight(self) -> int {
        self.started - self.ended
    }

    /// No more checks are under way than the ceiling allows, and none that
    /// was not started has ended.
    pub open spec fn wf(self) -> bool {
        &&& 1 <= self.ceiling
        &&& self.ended <= self.started <= self.packages.len()
        &&& self.in_flight() <= self.ceiling
    }

    /// A run over `packages` of which nothing has started.
    pub open spec fn initial(packages: Seq<Seq<char>>, ceiling: nat) -> RunView {
        RunView { packages, ceiling, started: 0, ended: 0 }
    }

    /// A check can start: a package is left, and the ceiling is not
    /// reached.
    pub open spec fn can_start(self) -> bool {
        self.started < self.packages.len() && self.in_flight() < self.ceiling
    }

    /// What the caller is told to do.
    pub open spec fn action(self) -> ActionView {
        if self.can_start() {
            ActionView::Start { package: self.packages[self.started as int] }
        } else if self.in_flight() > 0 {
            ActionView::Wait
        } else {
            ActionView::Finish
        }
    }

    /// The run after the caller asked what to do: a check was started if
    /// one could be.
    pub open spec fn polled(self) -> RunView {
        if self.can_start() {
            RunView { started: self.started + 1, ..self }
        } else {
            self
        }
    }

    /// The run after a check ended, if one was under way.
    pub open spec fn ended_one(self) -> RunView {
        if self.in_flight() > 0 {
            RunView { ended: self.ended + 1, ..self }
        } else {
            self
        }
    }

    /// The run after `event`.
    pub open spec fn after(self, event: Event) -> RunView {
        match event {
            Event::Poll => self.polled(),
            Event::Ended => self.ended_one(),
        }
    }

    /// The run after all of `events`, in order.
    pub open spec fn after_all(self, events: Seq<Event>) -> RunView
        decreases events.len(),
    {
        if events.len() == 0 {
            self
        } else {
            self.after_all(events.drop_last()).after(events.last())
        }
    }

    /// What is left to do: checks to start and checks to end.
    pub open spec fn remaining(self) -> int {
        2 * self.packages.len() - self.started - self.ended
    }
}

/// A run over the packages of a maintainer.
pub struct Coordinator {
    packages: Vec<String>,
    ceiling: usize,
    started: usize,
    ended: usize,
}

impl View for Coordinator {
    type V = RunView;

    closed spec fn view(&self) -> RunView {
        RunView {
            packages: views_of(self.packages@),
            ceiling: self.ceiling as nat,
            started: self.started as nat,
            ended: self.ended as nat,
        }
    }
}

impl Coordinator {
    #[verifier::type_invariant]
    spec fn inv(&self) -> bool {
        self@.wf()
    }

    /// A run over `packages` with at most `DEFAULT_CEILING` checks under
    /// way at once.
    pub fn new(packages: Vec<String>) -> (run: Coordinator)
        ensures
            run@ == RunView::initial(views_of(packages@), DEFAULT_CEILING as nat),
            run@.wf(),
    {
        Coordinator { packages, ceiling: DEFAULT_CEILING, started: 0, ended: 0 }
    }

    /// A run over `packages` with at most `ceiling` checks under way at
    /// once; none where `ceiling` is 0, with which no check could start.
    pub fn with_ceiling(packages: Vec<String>, ceiling: usize) -> (run: Option<Coordinator>)
        ensures
            run is Some <==> ceiling >= 1,
            run matches Some(r) ==> r@ == RunView::initial(views_of(packages@), ceiling as nat)
                && r@.wf(),
    {
        if ceiling == 0 {
            None
        } else {
            Some(Coordinator { packages, ceiling, started: 0, ended: 0 })
        }
    }

    /// The checks under way.
    pub fn in_flight(&self) -> (count: usize)
        ensures
            count == self@.in_flight(),
            count <= self@.ceiling,
    {
        proof {
            use_type_invariant(self);
        }
        self.started - self.ended
    }

    /// The most checks that may be under way at once.
    pub fn ceiling(&self) -> (ceiling: usize)
        ensures
            ceiling == self@.ceiling,
    {
        self.ceiling
    }

    /// What the caller does next. Where that is to start a check, the check
    /// counts as under way from now on.
    pub fn next_action(&mut self) -> (action: Action)
        ensures
            action@ == old(self)@.action(),
            final(self)@ == old(self)@.polled(),
            final(self)@.wf(),
    {
        proof {
            use_type_invariant(&*self);
        }
        if self.started < self.packages.len() && self.started - self.ended < self.ceiling {
            let package = self.packages[self.started].clone();
            self.started = self.started + 1;
            Action::Start { package }
        } else if self.started - self.ended > 0 {
            Action::Wait
        } else {
            Action::Finish
        }
    }

    /// Takes note that a check has ended with `result`, and says what is to
    /// be put out for it. The run goes on in the same way whatever the
    /// result is.
    pub fn record(&mut self, result: &Result<Outcome, Failure>) -> (emission: Emission)
        ensures
            emission@ == emission_of(result_view(*result)),
            final(self)@ == old(self)@.ended_one(),
            final(self)@.wf(),
    {
        proof {
            use_type_invariant(&*self);
        }
        if self.started - self.ended > 0 {
            self.ended = self.ended + 1;
        }
        emit(result)
    }
}

/// What `result` puts out.
pub fn emit(result: &Result<Outcome, Failure>) -> (emission: Emission)
    ensures
        emission@ == emission_of(result_view(*result)),
{
    match result {
        Ok(outcome) => match outcome.line() {
            Some(line) => Emission::Report { line },
            None => Emission::Nothing,
        },
        Err(failure) => Emission::Log { line: failure.message.clone() },
    }
}

/// Whatever happens to a run, in whatever order, no more checks are under
/// way than its ceiling allows.
pub proof fn lemma_ceiling_holds(packages: Seq<Seq<char>>, ceiling: nat, events: Seq<Event>)
    requires
        ceiling >= 1,
    ensures
        RunView::initial(packages, ceiling).after_all(events).wf(),
        RunView::initial(packages, ceiling).after_all(events).ceiling == ceiling,
        RunView::initial(packages, ceiling).after_all(events).packages == packages,
        0 <= RunView::initial(packages, ceiling).after_all(events).in_flight() <= ceiling,
    decreases events.len(),
{
    if events.len() > 0 {
        lemma_ceiling_holds(packages, ceiling, events.drop_last());
    }
}

/// With the default ceiling, at most four checks are under way at any
/// point of a run.
pub proof fn lemma_at_most_four_in_flight(packages: Seq<Seq<char>>, events: Seq<Event>)
    ensures
        RunView::initial(packages, DEFAULT_CEILING as nat).after_all(events).in_flight() <= 4,
{
    lemma_ceiling_holds(packages, DEFAULT_CEILING as nat, events);
}

/// A run is told to finish only when every package was started and every
/// check has ended; until then each start and each end brings it closer.
pub proof fn lemma_run_completes(run: RunView)
    requires
        run.wf(),
    ensures
        run.action() is Finish <==> run.started == run.packages.len() && run.ended == run.started,
        run.action() is Start ==> run.polled().remaining() == run.remaining() - 1,
        run.in_flight() > 0 ==> run.ended_one().remaining() == run.remaining() - 1,
        run.remaining() >= 0,
        run.action() is Wait ==> run.in_flight() > 0,
{
}

/// The packages start in the order in which they were handed in, each
/// once: the check that starts is that of the first package not yet
/// started.
pub proof fn lemma_starts_in_order(run: RunView)
    requires
        run.wf(),
        run.can_start(),
    ensures
        run.action() == (ActionView::Start { package: run.packages[run.started as int] }),
        run.polled().started == run.started + 1,
        run.polled().ended == run.ended,
        run.polled().packages == run.packages,
{
}

/// How a run goes on does not depend on how a check ended: after a failure
/// it stands where it would stand after any other result.
pub proof fn lemma_failures_do_not_spread(run: RunView)
    requires
        run.wf(),
    ensures
        run.ended_one().packages == run.packages,
        run.ended_one().started == run.started,
        run.ended_one().ceiling == run.ceiling,
        run.ended_one().wf(),
{
}

} // verus!
