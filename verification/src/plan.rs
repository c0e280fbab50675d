//! Operations on a tab as plans: the steps to perform, in order, and the
//! rules by which a run of a plan goes on after a failure.
//!
//! A plan is computed before anything is sent. The program that owns the
//! socket asks a [`Run`] for the next step, performs it, and records how it
//! went, until the run has no step left.

use vstd::prelude::*;
use vstd::string::*;
use crate::error::Error;

verus! {

/// One thing to do on a tab.
#[derive(Debug, PartialEq, Eq)]
pub enum Step {
    /// Issue the tab-scoped command `method` with the parameter object
    /// `params`, and wait for its reply.
    Call { method: String, params: String },
    /// Register for the next `event` of the tab, without waiting for it.
    Listen { event: String },
    /// Wait for the `event` registered for earlier.
    Await { event: String },
}

/// The mathematical value of a [`Step`].
pub enum StepView {
    Call { method: Seq<char>, params: Seq<char> },
    Listen { event: Seq<char> },
    Await { event: Seq<char> },
}

impl View for Step {
    type V = StepView;

    open spec fn view(&self) -> StepView {
        match self {
            Step::Call { method, params } => StepView::Call { method: method@, params: params@ },
            Step::Listen { event } => StepView::Listen { event: event@ },
            Step::Await { event } => StepView::Await { event: event@ },
        }
    }
}

impl Clone for Step {
    fn clone(&self) -> (copy: Step)
        ensures
            copy@ == self@,
    {
        match self {
            Step::Call { method, params } => Step::Call {
                method: method.clone(),
                params: params.clone(),
            },
            Step::Listen { event } => Step::Listen { event: event.clone() },
            Step::Await { event } => Step::Await { event: event.clone() },
        }
    }
}

/// What a step is to its plan.
#[derive(Debug, Clone, Copy, PartialEq, Eq, Structural)]
pub enum Role {
    /// A step like any other: skipped once the run has failed.
    Plain,
    /// The step whose reply is the result of the operation.
    Result,
    /// Undoes the step at index `of`: performed whenever that step was
    /// attempted, even after a failure; its own failure is ignored.
    Undo { of: usize },
}

/// A step and its role.
#[derive(Debug, PartialEq, Eq)]
pub struct Planned {
    pub step: Step,
    pub role: Role,
}

/// The mathematical value of a [`Planned`].
pub struct PlannedView {
    pub step: StepView,
    pub role: Role,
}

impl View for Planned {
    type V = PlannedView;

    open spec fn view(&self) -> PlannedView {
        PlannedView { step: self.step@, role: self.role }
    }
}

/// The steps of an operation, in order.
#[derive(Debug, PartialEq, Eq)]
pub struct Plan {
    pub steps: Vec<Planned>,
}

impl View for Plan {
    type V = Seq<PlannedView>;

    open spec fn view(&self) -> Seq<PlannedView> {
        self.steps@.map_values(|p: Planned| p@)
    }
}

/// The step that calls `method` with `params`, in the given role.
pub open spec fn call(method: Seq<char>, params: Seq<char>, role: Role) -> PlannedView {
    PlannedView { step: StepView::Call { method, params }, role }
}

/// The step that registers for `event`.
pub open spec fn listen(event: Seq<char>) -> PlannedView {
    PlannedView { step: StepView::Listen { event }, role: Role::Plain }
}

/// The step that waits for `event`.
pub open spec fn await_event(event: Seq<char>) -> PlannedView {
    PlannedView { step: StepView::Await { event }, role: Role::Plain }
}

impl Plan {
    /// Appends the call of `method` with `params`, in the given role.
    pub fn call(&mut self, method: &str, params: String, role: Role)
        ensures
            final(self)@ == old(self)@.push(call(method@, params@, role)),
    {
        self.push(Step::Call { method: String::from_str(method), params }, role);
    }

    /// Appends the registration for `event`.
    pub fn listen(&mut self, event: &str)
        ensures
            final(self)@ == old(self)@.push(listen(event@)),
    {
        self.push(Step::Listen { event: String::from_str(event) }, Role::Plain);
    }

    /// Appends the wait for `event`.
    pub fn await_event(&mut self, event: &str)
        ensures
            final(self)@ == old(self)@.push(await_event(event@)),
    {
        self.push(Step::Await { event: String::from_str(event) }, Role::Plain);
    }

    /// The plan without steps.
    pub fn new() -> (plan: Plan)
        ensures
            plan@ == Seq::<PlannedView>::empty(),
    {
        let plan = Plan { steps: Vec::new() };
        assert(plan@ =~= Seq::<PlannedView>::empty());
        plan
    }

    /// Appends a step.
    pub fn push(&mut self, step: Step, role: Role)
        ensures
            final(self)@ == old(self)@.push(PlannedView { step: step@, role }),
    {
        let planned = Planned { step, role };
        self.steps.push(planned);
        assert(self@ =~= old(self)@.push(planned@));
    }

    /// The number of steps.
    pub fn len(&self) -> (n: usize)
        ensures
            n == self@.len(),
    {
        self.steps.len()
    }
}

/// Whether step `i` is performed by a run whose first failure, if any, was
/// at step `failed_at`.
pub open spec fn due(steps: Seq<PlannedView>, i: int, failed_at: Option<int>) -> bool {
    match failed_at {
        None => true,
        Some(f) => match steps[i].role {
            Role::Undo { of } => of <= f,
            _ => false,
        },
    }
}

/// The first step at or after `from` that is due, or the number of steps
/// where none is.
pub open spec fn next_due(steps: Seq<PlannedView>, from: int, failed_at: Option<int>) -> int
    decreases steps.len() - from,
{
    if from < 0 || from >= steps.len() {
        steps.len() as int
    } else if due(steps, from, failed_at) {
        from
    } else {
        next_due(steps, from + 1, failed_at)
    }
}

/// The state of a run, as mathematical values.
pub struct RunView {
    pub steps: Seq<PlannedView>,
    /// The step handed out last, or the one to consider next.
    pub cursor: int,
    /// Whether the step at `cursor` was handed out and its outcome is
    /// awaited.
    pub outstanding: bool,
    /// The first step that failed, undo steps not counted.
    pub failed_at: Option<int>,
    /// The error of that step.
    pub failure: Option<Error>,
    /// The reply to the step whose reply is the result.
    pub result: Option<Seq<char>>,
}

/// How a step went: its reply, or why it failed.
pub type Outcome = Result<String, Error>;

/// The value of an outcome.
pub open spec fn outcome_view(outcome: Outcome) -> Result<Seq<char>, Error> {
    match outcome {
        Ok(reply) => Ok(reply@),
        Err(e) => Err(e),
    }
}

impl RunView {
    /// The state before the first step.
    pub open spec fn start(steps: Seq<PlannedView>) -> RunView {
        RunView {
            steps,
            cursor: 0,
            outstanding: false,
            failed_at: None,
            failure: None,
            result: None,
        }
    }

    /// What holds of every state of a run.
    pub open spec fn well_formed(self) -> bool {
        &&& 0 <= self.cursor <= self.steps.len()
        &&& self.outstanding ==> self.cursor < self.steps.len()
        &&& self.failed_at is Some == self.failure is Some
        &&& self.failed_at matches Some(f) ==> 0 <= f < self.cursor
    }

    /// The step to hand out next, if one is left.
    pub open spec fn upcoming(self) -> Option<int> {
        if self.outstanding {
            None
        } else if next_due(self.steps, self.cursor, self.failed_at) < self.steps.len() {
            Some(next_due(self.steps, self.cursor, self.failed_at))
        } else {
            None
        }
    }

    /// The state once the next step has been handed out, or once it is known
    /// that none is left.
    pub open spec fn advanced(self) -> RunView {
        if self.outstanding {
            self
        } else {
            let at = next_due(self.steps, self.cursor, self.failed_at);
            RunView { cursor: at, outstanding: at < self.steps.len(), ..self }
        }
    }

    /// The state once the outcome of the outstanding step is recorded.
    pub open spec fn recorded(self, outcome: Result<Seq<char>, Error>) -> RunView {
        if !self.outstanding {
            self
        } else {
            let role = self.steps[self.cursor].role;
            match outcome {
                Ok(reply) => RunView {
                    cursor: self.cursor + 1,
                    outstanding: false,
                    result: if role == Role::Result {
                        Some(reply)
                    } else {
                        self.result
                    },
                    ..self
                },
                Err(e) => if role is Undo || self.failed_at is Some {
                    RunView { cursor: self.cursor + 1, outstanding: false, ..self }
                } else {
                    RunView {
                        cursor: self.cursor + 1,
                        outstanding: false,
                        failed_at: Some(self.cursor),
                        failure: Some(e),
                        ..self
                    }
                },
            }
        }
    }

    /// What the operation returns once no step is left: the first failure,
    /// or else the result.
    pub open spec fn conclusion(self) -> Result<Option<Seq<char>>, Error> {
        match self.failure {
            Some(e) => Err(e),
            None => Ok(self.result),
        }
    }
}

/// A run of a plan.
#[derive(Debug)]
pub struct Run {
    plan: Plan,
    cursor: usize,
    outstanding: bool,
    failed: Option<(usize, Error)>,
    result: Option<String>,
}

impl View for Run {
    type V = RunView;

    closed spec fn view(&self) -> RunView {
        RunView {
            steps: self.plan@,
            cursor: self.cursor as int,
            outstanding: self.outstanding,
            failed_at: match self.failed {
                Some(f) => Some(f.0 as int),
                None => None,
            },
            failure: match self.failed {
                Some(f) => Some(f.1),
                None => None,
            },
            result: match self.result {
                Some(r) => Some(r@),
                None => None,
            },
        }
    }
}

impl Run {
    #[verifier::type_invariant]
    spec fn inv(self) -> bool {
        self@.well_formed()
    }

    /// Starts a run of `plan`.
    pub fn begin(plan: Plan) -> (run: Run)
        ensures
            run@ == RunView::start(plan@),
    {
        Run { plan, cursor: 0, outstanding: false, failed: None, result: None }
    }

    fn runs(&self, at: usize) -> (b: bool)
        requires
            at < self@.steps.len(),
        ensures
            b == due(self@.steps, at as int, self@.failed_at),
    {
        match self.failed {
            None => true,
            Some(f) => match self.plan.steps[at].role {
                Role::Undo { of } => of <= f.0,
                _ => false,
            },
        }
    }

    /// Hands out the next step to perform: the first one that is due. `None`
    /// when the run is over, or while the outcome of the step handed out
    /// last has not been recorded.
    pub fn next_step(&mut self) -> (step: Option<Step>)
        ensures
            final(self)@ == old(self)@.advanced(),
            final(self)@.well_formed(),
            match step {
                Some(s) => old(self)@.upcoming() matches Some(i) && s@ == old(self)@.steps[i].step,
                None => old(self)@.upcoming() is None,
            },
    {
        proof {
            use_type_invariant(&*self);
        }
        if self.outstanding {
            return None;
        }
        let ghost steps = self.plan@;
        let ghost failed_at = self@.failed_at;
        let ghost from = self.cursor as int;
        let mut at: usize = self.cursor;
        let total: usize = self.plan.steps.len();
        while at < total && !self.runs(at)
            invariant
                total == steps.len(),
                steps == self.plan@,
                failed_at == self@.failed_at,
                from <= at <= total,
                next_due(steps, from, failed_at) == next_due(steps, at as int, failed_at),
            decreases total - at,
        {
            at = at + 1;
        }
        assert(next_due(steps, from, failed_at) == at);
        self.cursor = at;
        if at < total {
            self.outstanding = true;
            Some(self.plan.steps[at].step.clone())
        } else {
            None
        }
    }

    /// Records how the step handed out last went. Without such a step,
    /// nothing changes.
    pub fn record(&mut self, outcome: Outcome)
        ensures
            final(self)@ == old(self)@.recorded(outcome_view(outcome)),
            final(self)@.well_formed(),
    {
        proof {
            use_type_invariant(&*self);
        }
        if !self.outstanding {
            return;
        }
        let at: usize = self.cursor;
        let total: usize = self.plan.steps.len();
        let role = self.plan.steps[at].role;
        self.outstanding = false;
        self.cursor = at + 1;
        match outcome {
            Ok(reply) => {
                if role == Role::Result {
                    self.result = Some(reply);
                }
            },
            Err(e) => {
                let undo = match role {
                    Role::Undo { of: _ } => true,
                    _ => false,
                };
                if !undo && self.failed.is_none() {
                    self.failed = Some((at, e));
                }
            },
        }
    }

    /// Whether the run has handed out a step whose outcome is not recorded.
    pub fn is_waiting(&self) -> (b: bool)
        ensures
            b == self@.outstanding,
    {
        self.outstanding
    }

    /// Ends the run: the first failure, or else the reply that is the
    /// result.
    pub fn conclude(self) -> (conclusion: Result<Option<String>, Error>)
        ensures
            match conclusion {
                Ok(Some(reply)) => self@.conclusion() == Ok::<Option<Seq<char>>, Error>(
                    Some(reply@),
                ),
                Ok(None) => self@.conclusion() == Ok::<Option<Seq<char>>, Error>(None),
                Err(e) => self@.conclusion() == Err::<Option<Seq<char>>, Error>(e),
            },
    {
        proof {
            use_type_invariant(&self);
        }
        match self.failed {
            Some(f) => Err(f.1),
            None => Ok(self.result),
        }
    }
}

/// The step handed out next is the first one that is due: no step before it
/// is due, and it is due itself.
pub proof fn lemma_next_due_is_first(steps: Seq<PlannedView>, from: int, failed_at: Option<int>)
    requires
        0 <= from <= steps.len(),
    ensures
        from <= next_due(steps, from, failed_at) <= steps.len(),
        next_due(steps, from, failed_at) < steps.len() ==> due(
            steps,
            next_due(steps, from, failed_at),
            failed_at,
        ),
        forall|j: int| from <= j < next_due(steps, from, failed_at) ==> !due(steps, j, failed_at),
    decreases steps.len() - from,
{
    if from < steps.len() && !due(steps, from, failed_at) {
        lemma_next_due_is_first(steps, from + 1, failed_at);
    }
}

/// Once a step has been handed out, the step that undoes it stays due,
/// whatever is recorded of any step: a failure can only be recorded at or
/// after the step that was handed out.
pub proof fn lemma_undo_stays_due(run: RunView, outcome: Result<Seq<char>, Error>, undo: int)
    requires
        run.well_formed(),
        0 <= undo < run.steps.len(),
        run.steps[undo].role matches Role::Undo { of } && of <= run.cursor,
        due(run.steps, undo, run.failed_at),
    ensures
        due(run.steps, undo, run.recorded(outcome).failed_at),
        due(run.steps, undo, run.advanced().failed_at),
        run.recorded(outcome).well_formed(),
        run.recorded(outcome).cursor >= run.cursor,
{
}

/// A run without a failure hands out every step, in order.
pub proof fn lemma_unfailed_run_skips_nothing(run: RunView)
    requires
        run.well_formed(),
        run.failed_at is None,
        !run.outstanding,
    ensures
        run.upcoming() == (if run.cursor < run.steps.len() {
            Some(run.cursor)
        } else {
            None
        }),
{
}

/// After a failure, a run hands out nothing but undo steps, and only those
/// of steps that had been handed out by then.
pub proof fn lemma_failed_run_only_undoes(run: RunView)
    requires
        run.well_formed(),
        run.failed_at is Some,
        !run.outstanding,
    ensures
        run.upcoming() matches Some(i) ==> run.steps[i].role matches Role::Undo { of } && of
            <= run.failed_at->0,
{
    lemma_next_due_is_first(run.steps, run.cursor, run.failed_at);
}

} // verus!
