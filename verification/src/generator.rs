//! The suspension channel, the suspension token and the generator that drives
//! a task over them.

use vstd::prelude::*;
use std::marker::PhantomData;

verus! {

/// What the two cells of a suspension channel hold: the value on its way to
/// the driver and the value on its way back to the producer.
pub struct Slots<Y, R> {
    pub yielded: Option<Y>,
    pub resumed: Option<R>,
}

impl<Y, R> Slots<Y, R> {
    /// Both cells are empty: no suspension is pending on the channel.
    pub open spec fn idle(self) -> bool {
        self.yielded is None && self.resumed is None
    }

    /// The channel with both cells empty.
    pub open spec fn empty() -> Self {
        Slots { yielded: None, resumed: None }
    }

    /// The driver puts `value` into the resume cell. An earlier value that
    /// nobody consumed is overwritten.
    pub open spec fn deposit(self, value: R) -> Self {
        Slots { yielded: self.yielded, resumed: Some(value) }
    }

    /// The driver empties the yield cell and keeps what it held.
    pub open spec fn collect(self) -> (Self, Option<Y>) {
        (Slots { yielded: None, resumed: self.resumed }, self.yielded)
    }
}

/// The life of one suspension.
pub enum TokenState<Y> {
    /// Created and not yet inspected: it still carries the value to yield.
    Holding(Y),
    /// Inspected once: the value is published, the answer is awaited.
    Awaiting,
    /// Inspected twice: the answer was handed out and the token is used up.
    Spent,
}

impl<Y> TokenState<Y> {
    /// One inspection of a token against the channel: the token afterwards,
    /// the channel afterwards, and the answer if the token was ready.
    ///
    /// The first inspection publishes the carried value and reports nothing.
    /// The second one takes whatever the resume cell holds.
    pub open spec fn inspect<R>(self, slots: Slots<Y, R>) -> (Self, Slots<Y, R>, Option<R>) {
        match self {
            TokenState::Holding(value) => (
                TokenState::Awaiting,
                Slots { yielded: Some(value), resumed: slots.resumed },
                None,
            ),
            TokenState::Awaiting => (
                TokenState::Spent,
                Slots { yielded: slots.yielded, resumed: None },
                slots.resumed,
            ),
            TokenState::Spent => (TokenState::Spent, slots, None),
        }
    }
}

/// One suspension from beginning to end, on a channel that holds `slots`:
/// the producer suspends with `value` and its token is inspected; the driver
/// collects what was yielded and deposits `answer`; the token is inspected
/// again. The result is the channel afterwards, what the driver collected and
/// what the token handed to the producer.
pub open spec fn round<Y, R>(slots: Slots<Y, R>, value: Y, answer: R) -> (
    Slots<Y, R>,
    Option<Y>,
    Option<R>,
) {
    let (waiting, published, _) = TokenState::Holding(value).inspect(slots);
    let (collected, surfaced) = published.collect();
    let (_, settled, delivered) = waiting.inspect(collected.deposit(answer));
    (settled, surfaced, delivered)
}

/// A run of suspensions, one after the other, on a channel that holds `slots`
/// at first: the suspension number `i` yields `values[i]` and is resumed with
/// `answers[i]`. The result is the channel at the end, the values that the
/// driver collected and the answers that the tokens handed out, both in the
/// order in which that happened. A suspension that surfaces nothing, or that
/// hands out nothing, leaves no entry.
pub open spec fn rounds<Y, R>(slots: Slots<Y, R>, values: Seq<Y>, answers: Seq<R>) -> (
    Slots<Y, R>,
    Seq<Y>,
    Seq<R>,
)
    decreases values.len(),
{
    if values.len() == 0 || answers.len() == 0 {
        (slots, Seq::empty(), Seq::empty())
    } else {
        let (settled, surfaced, delivered) = round(slots, values.first(), answers.first());
        let (last, collected, handed) = rounds(settled, values.drop_first(), answers.drop_first());
        (
            last,
            match surfaced {
                Some(value) => seq![value] + collected,
                None => collected,
            },
            match delivered {
                Some(answer) => seq![answer] + handed,
                None => handed,
            },
        )
    }
}

/// The round trip of one suspension. The first inspection of its token
/// reports that it is not ready and publishes exactly the value that the
/// suspension was created with. The next inspection hands out exactly the
/// value that the driver deposited last, whatever it had deposited before,
/// and leaves the channel empty. After that the token is used up: one more
/// inspection hands out nothing and changes nothing.
pub proof fn lemma_interrupt_round_trip<Y, R>(slots: Slots<Y, R>, value: Y, stale: R, answer: R)
    requires
        slots.idle(),
    ensures
        ({
            let (waiting, published, first) = TokenState::Holding(value).inspect(slots);
            let deposited = published.collect().0.deposit(stale).deposit(answer);
            let (spent, settled, second) = waiting.inspect(deposited);
            &&& first is None
            &&& waiting is Awaiting
            &&& published.collect().1 == Some(value)
            &&& second == Some(answer)
            &&& spent is Spent
            &&& settled.idle()
            &&& spent.inspect(settled) == (spent, settled, None::<R>)
        }),
{
}

/// Suspensions are answered in order. In a run of suspensions on a channel
/// that was empty at first, the driver collects exactly the values that the
/// suspensions were created with, the tokens hand out exactly the answers
/// that the driver deposited, both in the order of the calls, none lost and
/// none twice, and the channel is empty again at the end.
pub proof fn lemma_rounds_in_order<Y, R>(slots: Slots<Y, R>, values: Seq<Y>, answers: Seq<R>)
    requires
        slots.idle(),
        values.len() == answers.len(),
    ensures
        rounds(slots, values, answers).0.idle(),
        rounds(slots, values, answers).1 == values,
        rounds(slots, values, answers).2 == answers,
    decreases values.len(),
{
    if values.len() > 0 {
        let settled = round(slots, values.first(), answers.first()).0;
        lemma_rounds_in_order(settled, values.drop_first(), answers.drop_first());
        assert(seq![values.first()] + values.drop_first() =~= values);
        assert(seq![answers.first()] + answers.drop_first() =~= answers);
    } else {
        assert(values =~= Seq::empty());
        assert(answers =~= Seq::empty());
    }
}

/// A suspension channel: a pair of single-slot cells through which one
/// producer and its driver exchange values, one suspension at a time.
pub struct YieldPoint<Y, R> {
    yielded_value: Option<Y>,
    resumed_value: Option<R>,
}

impl<Y, R> View for YieldPoint<Y, R> {
    type V = Slots<Y, R>;

    closed spec fn view(&self) -> Slots<Y, R> {
        Slots { yielded: self.yielded_value, resumed: self.resumed_value }
    }
}

/// One pending suspension. It is inspected twice and then used up.
pub struct Interrupt<Y, R> {
    value_to_yield: Option<Y>,
    ready_to_resume: bool,
    answer: PhantomData<R>,
}

impl<Y, R> View for Interrupt<Y, R> {
    type V = TokenState<Y>;

    closed spec fn view(&self) -> TokenState<Y> {
        if self.ready_to_resume {
            TokenState::Awaiting
        } else {
            match self.value_to_yield {
                Some(value) => TokenState::Holding(value),
                None => TokenState::Spent,
            }
        }
    }
}

impl<Y, R> Interrupt<Y, R> {
    /// Inspects the token once.
    ///
    /// The first inspection moves the carried value into the yield cell and
    /// reports that the token is not ready. The second one, which may only
    /// follow once the driver has supplied a resume value, empties the resume
    /// cell and hands that value out. A token that is used up reports nothing
    /// and leaves the channel alone.
    pub fn poll(&mut self, point: &mut YieldPoint<Y, R>) -> (out: Option<R>)
        requires
            old(self)@ is Holding ==> old(point)@.idle(),
            old(self)@ is Awaiting ==> old(point)@.resumed is Some,
        ensures
            (final(self)@, final(point)@, out) == old(self)@.inspect(old(point)@),
    {
        if self.ready_to_resume {
            self.ready_to_resume = false;
            self.value_to_yield = None;
            point.resumed_value.take()
        } else {
            match self.value_to_yield.take() {
                Some(value) => {
                    point.yielded_value = Some(value);
                    self.ready_to_resume = true;
                },
                None => {},
            }
            None
        }
    }
}

impl<Y, R> YieldPoint<Y, R> {
    /// A channel on which nothing is pending.
    pub fn new() -> (point: Self)
        ensures
            point@ == Slots::<Y, R>::empty(),
    {
        YieldPoint { yielded_value: None, resumed_value: None }
    }

    /// The driver's half of a resumption: puts `value` into the resume cell,
    /// in place of what it held.
    pub fn deposit(&mut self, value: R)
        ensures
            final(self)@ == old(self)@.deposit(value),
    {
        self.resumed_value = Some(value);
    }

    /// The driver's half of a suspension: empties the yield cell and hands
    /// out what it held.
    pub fn collect(&mut self) -> (value: Option<Y>)
        ensures
            (final(self)@, value) == old(self)@.collect(),
    {
        self.yielded_value.take()
    }

    /// Creates the token of a new suspension that will yield `value`.
    ///
    /// The channel has room for one suspension only, so none may be pending
    /// on it.
    pub fn suspend(&self, value: Y) -> (token: Interrupt<Y, R>)
        requires
            self@.idle(),
        ensures
            token@ == TokenState::Holding(value),
    {
        Interrupt { value_to_yield: Some(value), ready_to_resume: false, answer: PhantomData }
    }
}

/// What one drive step of a generator ends in.
#[derive(Debug, PartialEq, Eq)]
pub enum GeneratorState<Y, O> {
    /// The producer paused and handed this value to the driver.
    Suspended(Y),
    /// The producer ran to its end with this output.
    Completed(O),
}

/// Where a task, or the generator that owns it, stands in its life.
#[derive(Debug, Clone, Copy, PartialEq, Eq)]
pub enum Phase {
    /// Not driven yet.
    Created,
    /// Paused at a suspension point, waiting to be resumed.
    Running,
    /// Ran to its end. Nothing follows.
    Completed,
}

/// A misuse of the driving protocol. It is no outcome of the producer: what
/// a producer reports, failures included, arrives in
/// `GeneratorState::Completed`.
#[derive(Debug, Clone, Copy, PartialEq, Eq)]
pub enum ProtocolViolation {
    /// The generator was driven before a task was attached to it.
    NoTask,
    /// `resume` was called on a generator that was never started.
    NotStarted,
    /// `start` was called on a generator that is already under way.
    AlreadyStarted,
    /// The generator was driven after its producer had completed.
    AlreadyCompleted,
}

/// The phase that a task is in after a step that ended in `state`.
pub open spec fn phase_after<Y, O>(state: GeneratorState<Y, O>) -> Phase {
    match state {
        GeneratorState::Suspended(_) => Phase::Running,
        GeneratorState::Completed(_) => Phase::Completed,
    }
}

/// The channel is ready for a step of a task in `phase`: the yield cell is
/// free, and the resume cell is filled exactly if a suspension waits for it.
/// A completed task takes no step.
pub open spec fn ready_for<Y, R>(phase: Phase, slots: Slots<Y, R>) -> bool {
    &&& slots.yielded is None
    &&& match phase {
        Phase::Created => slots.resumed is None,
        Phase::Running => slots.resumed is Some,
        Phase::Completed => false,
    }
}

/// What a step that ended in `state` leaves behind: what the inspection of
/// the task reports, and the channel. A suspension leaves its value in the
/// yield cell, a completion leaves the channel empty.
pub open spec fn handed_over<Y, R, O>(state: GeneratorState<Y, O>) -> (Option<O>, Slots<Y, R>) {
    match state {
        GeneratorState::Suspended(value) => (None, Slots { yielded: Some(value), resumed: None }),
        GeneratorState::Completed(output) => (Some(output), Slots::empty()),
    }
}

/// A producer in the form of a state machine: a computation that is advanced
/// one step at a time and pauses only at its own suspension points.
///
/// The channel is lent to the task for the length of a step, so a task that
/// runs another task inside itself hands the same channel on, and the inner
/// suspension surfaces at the outer driver.
///
/// The task's view is the state of that machine; `step` is its transition
/// function and `poll` the code that performs one transition.
pub trait Task<Y, R, O>: View + Sized {
    /// The task is in a state that its machine can reach.
    spec fn inv(&self) -> bool;

    /// Where a task in `state` stands.
    spec fn phase(state: Self::V) -> Phase;

    /// One step from `state`: the next state and what the step ends in.
    /// `input` is the value that the driver resumed with, and `None` on the
    /// first step.
    spec fn step(state: Self::V, input: Option<R>) -> (Self::V, GeneratorState<Y, O>);

    /// A step that suspends leaves the task running, a step that completes
    /// leaves it completed.
    proof fn step_sets_phase(state: Self::V, input: Option<R>)
        ensures
            Self::phase(Self::step(state, input).0) == phase_after(Self::step(state, input).1),
    ;

    /// Advances the task by one step, up to its next suspension point or to
    /// its end. It reports the output if the task completed, and `None` if it
    /// paused; its yielded value is then in the channel.
    fn poll(&mut self, point: &mut YieldPoint<Y, R>) -> (out: Option<O>)
        requires
            old(self).inv(),
            ready_for(Self::phase(old(self)@), old(point)@),
        ensures
            final(self).inv(),
            final(self)@ == Self::step(old(self)@, old(point)@.resumed).0,
            (out, final(point)@) == handed_over::<Y, R, O>(
                Self::step(old(self)@, old(point)@.resumed).1,
            ),
    ;
}

/// A producer that never suspends: its first step completes with the output
/// that it was made with. Its view is that output, and `None` once it was
/// handed out.
pub struct Ready<O> {
    output: Option<O>,
}

impl<O> View for Ready<O> {
    type V = Option<O>;

    closed spec fn view(&self) -> Option<O> {
        self.output
    }
}

impl<O> Ready<O> {
    /// A producer that will complete with `output`.
    pub fn new(output: O) -> (task: Self)
        ensures
            task@ == Some(output),
    {
        Ready { output: Some(output) }
    }
}

impl<Y, R, O> Task<Y, R, O> for Ready<O> {
    open spec fn inv(&self) -> bool {
        true
    }

    open spec fn phase(state: Option<O>) -> Phase {
        match state {
            Some(_) => Phase::Created,
            None => Phase::Completed,
        }
    }

    open spec fn step(state: Option<O>, input: Option<R>) -> (Option<O>, GeneratorState<Y, O>) {
        match state {
            Some(output) => (None, GeneratorState::Completed(output)),
            None => (None, GeneratorState::Completed(arbitrary())),
        }
    }

    proof fn step_sets_phase(state: Option<O>, input: Option<R>) {
    }

    fn poll(&mut self, point: &mut YieldPoint<Y, R>) -> (out: Option<O>) {
        self.output.take()
    }
}

/// A producer together with its channel, driven from outside by `start` and
/// `resume`. Its view is the state of its task, or `None` while it has none.
pub struct Generator<Y, R, O, T> {
    point: YieldPoint<Y, R>,
    task: Option<T>,
    phase: Phase,
    output: PhantomData<O>,
}

impl<Y, R, O, T: Task<Y, R, O>> View for Generator<Y, R, O, T> {
    type V = Option<T::V>;

    closed spec fn view(&self) -> Option<T::V> {
        match self.task {
            Some(task) => Some(task@),
            None => None,
        }
    }
}

impl<Y, R, O, T: Task<Y, R, O>> Generator<Y, R, O, T> {
    /// Between two drive steps nothing is pending on the channel, the task is
    /// in a state that it can reach, and the generator knows its phase.
    pub closed spec fn wf(&self) -> bool {
        &&& self.point@.idle()
        &&& self.phase == Self::lifecycle(self@)
        &&& self.task matches Some(task) ==> task.inv()
    }

    /// What the generator's own channel holds.
    pub closed spec fn channel(&self) -> Slots<Y, R> {
        self.point@
    }

    /// Where a generator in `state` stands. Without a task it counts as not
    /// driven yet.
    pub open spec fn lifecycle(state: Option<T::V>) -> Phase {
        match state {
            Some(task) => T::phase(task),
            None => Phase::Created,
        }
    }

    /// What a drive step reports: a task in the phase that the call expects
    /// takes one step on `input`; anything else is a protocol violation.
    /// `start` expects a task that was not driven yet, `resume` one that is
    /// paused.
    pub open spec fn driven(
        state: Option<T::V>,
        expected: Phase,
        input: Option<R>,
    ) -> Result<GeneratorState<Y, O>, ProtocolViolation> {
        match state {
            None => Err(ProtocolViolation::NoTask),
            Some(task) => match T::phase(task) {
                Phase::Completed => Err(ProtocolViolation::AlreadyCompleted),
                Phase::Created => if expected is Created {
                    Ok(T::step(task, input).1)
                } else {
                    Err(ProtocolViolation::NotStarted)
                },
                Phase::Running => if expected is Running {
                    Ok(T::step(task, input).1)
                } else {
                    Err(ProtocolViolation::AlreadyStarted)
                },
            },
        }
    }

    /// The state that a drive step leaves behind: the task has taken its
    /// step, or, after a protocol violation, nothing has changed.
    pub open spec fn advanced(state: Option<T::V>, expected: Phase, input: Option<R>) -> Option<
        T::V,
    > {
        match state {
            Some(task) if Self::driven(state, expected, input) is Ok => Some(T::step(task, input).0),
            _ => state,
        }
    }

    /// A completed generator never moves again: whichever way it is driven,
    /// and with whatever value, the call reports that the generator has
    /// completed and leaves its state as it was.
    pub proof fn lemma_completed_is_final(state: Option<T::V>, expected: Phase, input: Option<R>)
        requires
            Self::lifecycle(state) is Completed,
        ensures
            Self::driven(state, expected, input) == Err::<GeneratorState<Y, O>, _>(
                ProtocolViolation::AlreadyCompleted,
            ),
            Self::advanced(state, expected, input) == state,
    {
    }

    /// A drive step that reports a suspension leaves the generator paused,
    /// one that reports a completion leaves it completed, and a protocol
    /// violation leaves it in the phase that it was in.
    pub proof fn lemma_drive_sets_lifecycle(state: Option<T::V>, expected: Phase, input: Option<R>)
        ensures
            Self::lifecycle(Self::advanced(state, expected, input)) == (match Self::driven(
                state,
                expected,
                input,
            ) {
                Ok(outcome) => phase_after(outcome),
                Err(_) => Self::lifecycle(state),
            }),
    {
        if let Some(task) = state {
            T::step_sets_phase(task, input);
        }
    }

    /// The state of a generator that was in `state`, was started, and was
    /// then resumed with each of `answers` in turn.
    pub open spec fn resumed_with(state: Option<T::V>, answers: Seq<R>) -> Option<T::V>
        decreases answers.len(),
    {
        if answers.len() == 0 {
            Self::advanced(state, Phase::Created, None)
        } else {
            Self::advanced(
                Self::resumed_with(state, answers.drop_last()),
                Phase::Running,
                Some(answers.last()),
            )
        }
    }

    /// The state of a task that was in `task`, took its first step, and then
    /// one step on each of `answers` in turn.
    pub open spec fn stepped(task: T::V, answers: Seq<R>) -> T::V
        decreases answers.len(),
    {
        if answers.len() == 0 {
            T::step(task, None).0
        } else {
            T::step(Self::stepped(task, answers.drop_last()), Some(answers.last())).0
        }
    }

    /// Each of those steps of the task ends in a suspension.
    pub open spec fn suspends_on(task: T::V, answers: Seq<R>) -> bool
        decreases answers.len(),
    {
        if answers.len() == 0 {
            T::step(task, None).1 is Suspended
        } else {
            &&& Self::suspends_on(task, answers.drop_last())
            &&& T::step(
                Self::stepped(task, answers.drop_last()),
                Some(answers.last()),
            ).1 is Suspended
        }
    }

    /// Resume values reach the task in the order of the calls. While the task
    /// keeps suspending, the generator that was started and resumed with
    /// `answers` holds the task that has taken its first step and one step on
    /// each of these values, in that order; and the next `resume` feeds its
    /// value to exactly the step that follows, and reports what that step
    /// ends in.
    pub proof fn lemma_resumes_in_order(task: T::V, answers: Seq<R>, next: R)
        requires
            T::phase(task) is Created,
            Self::suspends_on(task, answers),
        ensures
            Self::resumed_with(Some(task), answers) == Some(Self::stepped(task, answers)),
            Self::lifecycle(Self::resumed_with(Some(task), answers)) is Running,
            Self::driven(Self::resumed_with(Some(task), answers), Phase::Running, Some(next)) == Ok::<
                _,
                ProtocolViolation,
            >(T::step(Self::stepped(task, answers), Some(next)).1),
        decreases answers.len(),
    {
        if answers.len() == 0 {
            T::step_sets_phase(task, None);
        } else {
            let earlier = answers.drop_last();
            Self::lemma_resumes_in_order(task, earlier, answers.last());
            T::step_sets_phase(Self::stepped(task, earlier), Some(answers.last()));
        }
    }

    /// A generator that owns `task` and a channel of its own.
    pub fn new(task: T) -> (generator: Self)
        requires
            task.inv(),
            T::phase(task@) is Created,
        ensures
            generator.wf(),
            generator@ == Some(task@),
            generator.channel() == Slots::<Y, R>::empty(),
    {
        Generator { point: YieldPoint::new(), task: Some(task), phase: Phase::Created, output: PhantomData }
    }

    /// A generator that owns `task` and drives it over `yield_point`.
    pub fn new_with_yield_point(yield_point: YieldPoint<Y, R>, task: T) -> (generator: Self)
        requires
            yield_point@.idle(),
            task.inv(),
            T::phase(task@) is Created,
        ensures
            generator.wf(),
            generator@ == Some(task@),
            generator.channel() == yield_point@,
    {
        Generator { point: yield_point, task: Some(task), phase: Phase::Created, output: PhantomData }
    }

    /// A generator without a task. Driving it is a protocol violation until
    /// `accept_task` has attached one.
    pub fn new_empty() -> (generator: Self)
        ensures
            generator.wf(),
            generator@ is None,
            generator.channel() == Slots::<Y, R>::empty(),
    {
        Generator { point: YieldPoint::new(), task: None, phase: Phase::Created, output: PhantomData }
    }

    /// Attaches `task` in place of the task that the generator owned, if any.
    /// The generator then counts as not driven yet.
    pub fn accept_task(&mut self, task: T)
        requires
            old(self).wf(),
            task.inv(),
            T::phase(task@) is Created,
        ensures
            final(self).wf(),
            final(self)@ == Some(task@),
            final(self).channel() == old(self).channel(),
    {
        self.task = Some(task);
        self.phase = Phase::Created;
    }

    /// Makes the generator drive its task over `yield_point` from now on.
    pub fn accept_yield_point(&mut self, yield_point: YieldPoint<Y, R>)
        requires
            old(self).wf(),
            yield_point@.idle(),
        ensures
            final(self).wf(),
            final(self)@ == old(self)@,
            final(self).channel() == yield_point@,
    {
        self.point = yield_point;
    }

    /// The first drive step. It is a violation to start a generator twice, or
    /// one without a task.
    pub fn start(&mut self) -> (outcome: Result<GeneratorState<Y, O>, ProtocolViolation>)
        requires
            old(self).wf(),
        ensures
            final(self).wf(),
            outcome == Self::driven(old(self)@, Phase::Created, None),
            final(self)@ == Self::advanced(old(self)@, Phase::Created, None),
    {
        match self.task {
            None => Err(ProtocolViolation::NoTask),
            Some(_) => match self.phase {
                Phase::Created => Ok(self.step()),
                Phase::Running => Err(ProtocolViolation::AlreadyStarted),
                Phase::Completed => Err(ProtocolViolation::AlreadyCompleted),
            },
        }
    }

    /// Hands `value` to the pending suspension and performs one drive step.
    /// It is a violation to resume a generator that was not started, that has
    /// completed, or that has no task.
    pub fn resume(&mut self, value: R) -> (outcome: Result<GeneratorState<Y, O>, ProtocolViolation>)
        requires
            old(self).wf(),
        ensures
            final(self).wf(),
            outcome == Self::driven(old(self)@, Phase::Running, Some(value)),
            final(self)@ == Self::advanced(old(self)@, Phase::Running, Some(value)),
    {
        match self.task {
            None => Err(ProtocolViolation::NoTask),
            Some(_) => match self.phase {
                Phase::Created => Err(ProtocolViolation::NotStarted),
                Phase::Running => {
                    self.point.deposit(value);
                    Ok(self.step())
                },
                Phase::Completed => Err(ProtocolViolation::AlreadyCompleted),
            },
        }
    }

    /// Advances the task by exactly one inspection. A task that paused has
    /// left its value in the yield cell: the step takes it out and reports
    /// it. A task that completed leaves the generator in its last phase.
    fn step(&mut self) -> (state: GeneratorState<Y, O>)
        requires
            old(self).task is Some,
            old(self).task->0.inv(),
            T::phase(old(self).task->0@) == old(self).phase,
            ready_for(old(self).phase, old(self).point@),
        ensures
            final(self).wf(),
            state == T::step(old(self).task->0@, old(self).point@.resumed).1,
            final(self)@ == Some(T::step(old(self).task->0@, old(self).point@.resumed).0),
    {
        proof {
            T::step_sets_phase(self.task->0@, self.point@.resumed);
        }
        let out = match &mut self.task {
            Some(task) => task.poll(&mut self.point),
            None => None,
        };
        match out {
            None => {
                let value = self.point.collect();
                self.phase = Phase::Running;
                GeneratorState::Suspended(value.unwrap())
            },
            Some(output) => {
                self.phase = Phase::Completed;
                GeneratorState::Completed(output)
            },
        }
    }
}

/// A generator is a task itself, so that one producer can run another inside
/// it. The inner generator is advanced over the channel of the outer one,
/// where its suspensions surface; its own channel stays unused. Without a
/// task it has no step to take and counts as completed.
impl<Y, R, O, T: Task<Y, R, O>> Task<Y, R, O> for Generator<Y, R, O, T> {
    open spec fn inv(&self) -> bool {
        self.wf() && self@ is Some
    }

    open spec fn phase(state: Option<T::V>) -> Phase {
        match state {
            Some(task) => T::phase(task),
            None => Phase::Completed,
        }
    }

    open spec fn step(state: Option<T::V>, input: Option<R>) -> (
        Option<T::V>,
        GeneratorState<Y, O>,
    ) {
        match state {
            Some(task) => (Some(T::step(task, input).0), T::step(task, input).1),
            None => (None, GeneratorState::Completed(arbitrary())),
        }
    }

    proof fn step_sets_phase(state: Option<T::V>, input: Option<R>) {
        if let Some(task) = state {
            T::step_sets_phase(task, input);
        }
    }

    fn poll(&mut self, point: &mut YieldPoint<Y, R>) -> (out: Option<O>) {
        proof {
            T::step_sets_phase(self.task->0@, point@.resumed);
        }
        let out = match &mut self.task {
            Some(task) => task.poll(point),
            None => None,
        };
        if out.is_none() {
            self.phase = Phase::Running;
        } else {
            self.phase = Phase::Completed;
        }
        out
    }
}

} // verus!
