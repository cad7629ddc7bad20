//! A push-to-pull adapter. A producer hands values off one at a time through
//! a capacity-one slot and suspends after each; a consumer drives it from
//! outside by repeatedly asking for the next value. The slot's capacity of
//! one enforces backpressure: the producer cannot run past its current
//! handoff until the consumer has extracted the value.

pub mod atomic_swap;
pub mod once_take;

use vstd::prelude::*;
use core::marker::PhantomData;
use crate::atomic_swap::AtomicSwap;

verus! {

/// One side's suspend/resume registration. Only the waiting side registers
/// into its own slot, and only the opposite side wakes it; a wake consumes
/// the registration, so it can never fire twice for one suspension.
pub struct WakeSlot {
    registered: bool,
}

impl View for WakeSlot {
    type V = bool;

    closed spec fn view(&self) -> bool {
        self.registered
    }
}

impl WakeSlot {
    pub fn new() -> (r: Self)
        ensures
            !r@,
    {
        WakeSlot { registered: false }
    }

    /// The waiting side records that it is suspended and wants to be resumed.
    pub fn register(&mut self)
        ensures
            final(self)@,
    {
        self.registered = true;
    }

    /// The opposite side resumes the waiter if one is registered. The
    /// registration is consumed, so one suspension gets at most one wake.
    pub fn wake(&mut self) -> (woke: bool)
        ensures
            !final(self)@,
            woke == old(self)@,
    {
        let woke = self.registered;
        self.registered = false;
        woke
    }
}

/// The state both parties share: the handoff slot, plus one suspend/resume
/// registration for the consumer side and one for the producer side.
pub struct FaucetSharedData<T> {
    stream_waker: WakeSlot,
    emit_waker: WakeSlot,
    stream_item: AtomicSwap<T>,
}

impl<T> FaucetSharedData<T> {
    pub closed spec fn wf(&self) -> bool {
        self.stream_item.wf()
    }

    /// The value currently sitting in the handoff slot, if any.
    pub closed spec fn slot(&self) -> Option<T> {
        self.stream_item@
    }

    /// Whether the producer side is registered for a resume.
    pub closed spec fn emit_registered(&self) -> bool {
        self.emit_waker@
    }

    /// Whether the consumer side is registered for a resume.
    pub closed spec fn stream_registered(&self) -> bool {
        self.stream_waker@
    }

    pub fn new() -> (r: Self)
        ensures
            r.wf(),
            r.slot() is None,
            !r.emit_registered(),
            !r.stream_registered(),
    {
        FaucetSharedData {
            stream_waker: WakeSlot::new(),
            emit_waker: WakeSlot::new(),
            stream_item: AtomicSwap::new(),
        }
    }

    /// The consumer side of one pull: extract the deposit, if there is one,
    /// and resume the producer side exactly when a value came out.
    pub fn extract(&mut self) -> (r: Option<T>)
        requires
            old(self).wf(),
        ensures
            final(self).wf(),
            r == old(self).slot(),
            final(self).slot() is None,
            old(self).slot() is Some ==> !final(self).emit_registered(),
            old(self).slot() is None ==> *final(self) == *old(self),
            final(self).stream_registered() == old(self).stream_registered(),
    {
        match self.stream_item.take() {
            Some(item) => {
                self.emit_waker.wake();
                Some(item)
            }
            None => None,
        }
    }
}

/// The handle a producer emits through. The faucet constructs one per
/// producer and binds it to its own shared state.
pub struct Emit<T> {
    marker: PhantomData<T>,
}

impl<T> Emit<T> {
    /// Make an emit handle. The faucet makes one itself on the first pull;
    /// an outside driver of the same protocol makes its own.
    pub fn new() -> (r: Self) {
        Emit { marker: PhantomData }
    }

    /// Begin delivering one value: the returned suspension drives the value
    /// through the handoff slot and completes once the producer side is
    /// resumed.
    pub fn emit(&mut self, item: T) -> (r: EmitFuture<T>)
        ensures
            r@ == Some(item),
    {
        EmitFuture { item: Some(item) }
    }
}

/// The suspension that delivers one emitted value. It holds the value until
/// the value has gone into the slot, and completes on the advance after the
/// producer side was resumed.
pub struct EmitFuture<T> {
    item: Option<T>,
}

impl<T> View for EmitFuture<T> {
    type V = Option<T>;

    closed spec fn view(&self) -> Option<T> {
        self.item
    }
}

/// What one advance of an emit suspension decided, and which resume action
/// the party driving it owes.
pub enum EmitPoll {
    /// The delivery is complete; the producer runs on past its emit call.
    Ready,
    /// The value went into the slot and the consumer side was woken; the
    /// producer stays suspended until the faucet resumes it.
    Delivered,
    /// The slot was already full, which normal flow never produces; the
    /// value is kept, and the producer asks to be resumed at once to retry,
    /// staying suspended.
    Rejected,
}

impl<T> EmitFuture<T> {
    /// Advance the delivery by one step against the shared state.
    pub fn poll(&mut self, shared: &mut FaucetSharedData<T>) -> (r: EmitPoll)
        requires
            old(shared).wf(),
        ensures
            final(shared).wf(),
            old(self)@ is None ==> r is Ready
                && final(self)@ is None
                && *final(shared) == *old(shared),
            old(self)@ is Some && old(shared).slot() is None ==> r is Delivered
                && final(self)@ is None
                && final(shared).slot() == old(self)@
                && final(shared).emit_registered()
                && !final(shared).stream_registered(),
            old(self)@ is Some && old(shared).slot() is Some ==> r is Rejected
                && *final(self) == *old(self)
                && final(shared).slot() == old(shared).slot()
                && final(shared).emit_registered()
                && final(shared).stream_registered() == old(shared).stream_registered(),
    {
        let item = match self.item.take() {
            None => {
                return EmitPoll::Ready;
            }
            Some(item) => item,
        };

        // Whether the value can go in or not, the producer side suspends, so
        // it registers for a resume before anything can try to wake it.
        shared.emit_waker.register();

        match shared.stream_item.put(item) {
            Some(rejected_item) => {
                self.item = Some(rejected_item);
                EmitPoll::Rejected
            }
            None => {
                shared.stream_waker.wake();
                EmitPoll::Delivered
            }
        }
    }
}

/// One suspension step of a producer's script.
pub enum ProducerAction<T> {
    /// Deliver this value through the slot, then stay suspended until the
    /// faucet resumes the producer side.
    Emit(T),
    /// Suspend once without delivering anything, resuming on the next
    /// advance; this stands for any await that yields control and comes
    /// back, such as a timer.
    Pause,
    /// Suspend and never resume.
    Hang,
}

/// The values a script delivers before it first suspends forever, in order.
/// These are exactly the values a consumer can still pull out of it.
pub open spec fn emits_before_hang<T>(s: Seq<ProducerAction<T>>) -> Seq<T>
    decreases s.len(),
{
    if s.len() == 0 {
        Seq::empty()
    } else {
        match s[0] {
            ProducerAction::Emit(x) => seq![x] + emits_before_hang(s.skip(1)),
            ProducerAction::Pause => emits_before_hang(s.skip(1)),
            ProducerAction::Hang => Seq::empty(),
        }
    }
}

/// All the values a script emits, in order.
pub open spec fn emits<T>(s: Seq<ProducerAction<T>>) -> Seq<T>
    decreases s.len(),
{
    if s.len() == 0 {
        Seq::empty()
    } else {
        match s[0] {
            ProducerAction::Emit(x) => seq![x] + emits(s.skip(1)),
            _ => emits(s.skip(1)),
        }
    }
}

/// Whether a script never suspends forever.
pub open spec fn hang_free<T>(s: Seq<ProducerAction<T>>) -> bool {
    forall|i: int| 0 <= i < s.len() ==> !((#[trigger] s[i]) is Hang)
}

/// Law: a producer that never suspends forever owes the consumer exactly
/// the values it emits, in emission order.
pub proof fn lemma_hang_free_remaining<T>(s: Seq<ProducerAction<T>>)
    requires
        hang_free(s),
    ensures
        emits_before_hang(s) == emits(s),
    decreases s.len(),
{
    if s.len() > 0 {
        assert(!(s[0] is Hang));
        lemma_hang_free_skip(s);
        lemma_hang_free_remaining(s.skip(1));
    }
}

/// A script that never suspends forever stays so when its first step is
/// dropped.
pub proof fn lemma_hang_free_skip<T>(s: Seq<ProducerAction<T>>)
    requires
        hang_free(s),
        s.len() > 0,
    ensures
        hang_free(s.skip(1)),
{
    assert forall|i: int| 0 <= i < s.skip(1).len() implies !((#[trigger] s.skip(1)[i]) is Hang) by {
        assert(s.skip(1)[i] == s[i + 1]);
    }
}

/// The producer: a unit of work that runs its script one suspension at a
/// time, delivering values through the shared state it is bound to. Each
/// advance resolves the previous suspension and runs up to the next one.
pub struct ProducerTask<T> {
    emitter: Emit<T>,
    todo: Vec<ProducerAction<T>>,
    current: Option<EmitFuture<T>>,
}

impl<T> ProducerTask<T> {
    /// The suspension steps the producer has not run yet.
    pub closed spec fn rest(&self) -> Seq<ProducerAction<T>> {
        self.todo@
    }

    /// Any emit still in flight has already delivered its value; the task
    /// only holds on to a suspension that waits for a resume.
    pub closed spec fn wf(&self) -> bool {
        self.current matches Some(ef) ==> ef@ is None
    }

    /// Advance the producer by exactly one step: resolve the delivered emit
    /// it was suspended in, if any, then run until the next suspension or
    /// until the script ends. Returns whether the producer finished.
    ///
    /// At most one value is deposited per step, and only into an empty
    /// slot, so the producer can never run ahead of the consumer's
    /// extractions.
    pub fn step(&mut self, shared: &mut FaucetSharedData<T>) -> (done: bool)
        requires
            old(self).wf(),
            old(shared).wf(),
            old(shared).slot() is None,
        ensures
            final(self).wf(),
            final(shared).wf(),
            done <==> old(self).rest().len() == 0,
            done ==> final(self).rest() == old(self).rest()
                && final(shared).slot() is None
                && final(shared).stream_registered() == old(shared).stream_registered(),
            old(self).rest().len() > 0 ==> (old(self).rest()[0] matches ProducerAction::Emit(x)
                ==> final(self).rest() == old(self).rest().skip(1)
                && final(shared).slot() == Some(x)
                && final(shared).emit_registered()
                && !final(shared).stream_registered()),
            old(self).rest().len() > 0 && old(self).rest()[0] is Pause
                ==> final(self).rest() == old(self).rest().skip(1)
                && final(shared).slot() is None
                && final(shared).stream_registered() == old(shared).stream_registered(),
            old(self).rest().len() > 0 && old(self).rest()[0] is Hang
                ==> final(self).rest() == old(self).rest()
                && final(shared).slot() is None
                && final(shared).stream_registered() == old(shared).stream_registered(),
    {
        // Resolve the emit the producer was suspended in: the faucet only
        // advances the task after extracting, so the delivery is complete
        // and the producer runs on past its emit call.
        match self.current.take() {
            Some(mut ef) => {
                match ef.poll(shared) {
                    EmitPoll::Ready => {}
                    _ => {
                        // Still suspended inside the emit; keep waiting.
                        self.current = Some(ef);
                        return false;
                    }
                }
            }
            None => {}
        }

        if self.todo.len() == 0 {
            return true;
        }

        let action = self.todo.remove(0);
        proof {
            assert(self.todo@ =~= old(self).rest().skip(1));
        }
        match action {
            ProducerAction::Emit(item) => {
                // The slot is empty at this point, so this first advance
                // deposits the value and wakes the consumer side; the
                // producer stays suspended in the emit.
                let mut ef = self.emitter.emit(item);
                ef.poll(shared);
                self.current = Some(ef);
                false
            }
            ProducerAction::Pause => false,
            ProducerAction::Hang => {
                self.todo.insert(0, ProducerAction::Hang);
                proof {
                    assert(self.todo@ =~= old(self).rest());
                }
                false
            }
        }
    }
}

/// A producer factory: the faucet hands it an emit handle bound to its own
/// shared state and gets back the producer task to drive.
pub trait FaucetStart {
    type Item;

    /// The script of suspension steps the started producer will run.
    spec fn plan(&self) -> Seq<ProducerAction<Self::Item>>;

    /// Consume the factory and build the producer task bound to `emitter`.
    fn start(self, emitter: Emit<Self::Item>) -> (t: ProducerTask<Self::Item>)
        ensures
            t.wf(),
            t.rest() == self.plan(),
    ;
}

/// The plainest producer factory: it runs a script given as a vector.
pub struct ScriptStart<T> {
    pub script: Vec<ProducerAction<T>>,
}

impl<T> FaucetStart for ScriptStart<T> {
    type Item = T;

    open spec fn plan(&self) -> Seq<ProducerAction<T>> {
        self.script@
    }

    fn start(self, emitter: Emit<T>) -> (t: ProducerTask<T>) {
        ProducerTask { emitter, todo: self.script, current: None }
    }
}

/// What one pull request resolved to.
pub enum NextStep<T> {
    /// The next value of the sequence.
    Value(T),
    /// The sequence is over; every later pull resolves to `End` again.
    End,
    /// The producer suspended without delivering; the pull itself suspends
    /// and must be re-run once the producer can move again.
    Pending,
}

/// The outcome one pull reports, given what the producer's step deposited
/// and whether the step reported the producer finished: a deposit is
/// yielded even when the step also finished; otherwise finishing ends the
/// sequence, and anything else leaves the pull suspended.
pub fn decide_next<T>(emitted: Option<T>, task_done: bool) -> (r: NextStep<T>)
    ensures
        emitted matches Some(v) ==> r == NextStep::Value(v),
        emitted is None && task_done ==> r is End,
        emitted is None && !task_done ==> r is Pending,
{
    match emitted {
        Some(item) => NextStep::Value(item),
        None => if task_done {
            NextStep::End
        } else {
            NextStep::Pending
        },
    }
}

enum FaucetState<F: FaucetStart> {
    NotStarted(F),
    Running(ProducerTask<F::Item>),
    Finished,
}

/// The pull-facing adapter. It owns the shared state and, once started, the
/// producer task; every pull advances the producer by exactly one step and
/// extracts whatever that step deposited.
pub struct Faucet<F: FaucetStart> {
    state: FaucetState<F>,
    shared: FaucetSharedData<F::Item>,
}

impl<F: FaucetStart> Faucet<F> {
    /// The suspension steps the producer has not run yet: the whole plan
    /// before the first pull, nothing once finished.
    pub closed spec fn script(&self) -> Seq<ProducerAction<F::Item>> {
        match self.state {
            FaucetState::NotStarted(f) => f.plan(),
            FaucetState::Running(t) => t.rest(),
            FaucetState::Finished => Seq::empty(),
        }
    }

    pub closed spec fn is_started(&self) -> bool {
        !(self.state is NotStarted)
    }

    pub closed spec fn is_finished(&self) -> bool {
        self.state is Finished
    }

    /// The values the consumer can still pull out, in order.
    pub open spec fn remaining(&self) -> Seq<F::Item> {
        emits_before_hang(self.script())
    }

    /// Whether the producer has nothing left to run, so that the next pull
    /// resolves to `End`.
    pub open spec fn at_end(&self) -> bool {
        self.script().len() == 0
    }

    /// Whether the producer's next step delivers a value.
    pub open spec fn next_is_emit(&self) -> bool {
        self.script().len() > 0 && self.script()[0] is Emit
    }

    /// Whether the producer is suspended forever: pulls stay pending and
    /// `End` never comes.
    pub open spec fn hung(&self) -> bool {
        self.script().len() > 0 && self.script()[0] is Hang
    }

    pub closed spec fn wf(&self) -> bool {
        &&& self.shared.wf()
        &&& self.shared.slot() is None
        &&& (self.state matches FaucetState::Running(t) ==> t.wf())
    }

    pub fn new(func: F) -> (r: Self)
        ensures
            r.wf(),
            !r.is_started(),
            !r.is_finished(),
            r.script() == func.plan(),
    {
        Faucet {
            state: FaucetState::NotStarted(func),
            shared: FaucetSharedData::new(),
        }
    }

    /// One pull request. Exactly one of three things happens, decided by
    /// the producer's next suspension step: the next owed value comes out,
    /// the sequence ends for good, or the pull suspends. The first pull
    /// starts the producer; a finished faucet answers `End` forever.
    pub fn poll_next(&mut self) -> (r: NextStep<F::Item>)
        requires
            old(self).wf(),
        ensures
            final(self).wf(),
            final(self).is_started(),
            old(self).is_finished() ==> final(self).is_finished(),
            r is End <==> old(self).at_end(),
            r is End ==> final(self).is_finished(),
            r is Pending <==> !old(self).at_end() && !old(self).next_is_emit(),
            r !is End ==> !final(self).is_finished(),
            r is Value ==> old(self).next_is_emit(),
            old(self).script().len() > 0 ==> (old(self).script()[0] matches ProducerAction::Emit(x)
                ==> r == NextStep::Value(x)
                && final(self).script() == old(self).script().skip(1)),
            r is Pending && !old(self).hung() ==> final(self).script() == old(self).script().skip(1),
            r is Pending && old(self).hung() ==> final(self).script() == old(self).script(),
            r is End ==> final(self).script() == old(self).script(),
    {
        // The consumer side registers before the producer is advanced, so a
        // wake arriving during the step is never lost.
        self.shared.stream_waker.register();

        let mut st = FaucetState::Finished;
        core::mem::swap(&mut st, &mut self.state);
        match st {
            FaucetState::Finished => NextStep::End,
            FaucetState::NotStarted(func) => {
                let task = func.start(Emit::new());
                self.run_step(task)
            }
            FaucetState::Running(task) => self.run_step(task),
        }
    }

    /// Law: pulling repeatedly on a producer that never suspends forever
    /// yields exactly the values it still owes, in order, and then the
    /// sequence ends. This pulls until `End`, collecting every value.
    pub fn collect_values(&mut self) -> (r: Vec<F::Item>)
        requires
            old(self).wf(),
            hang_free(old(self).script()),
        ensures
            final(self).wf(),
            final(self).is_finished(),
            r@ == old(self).remaining(),
    {
        let mut values: Vec<F::Item> = Vec::new();
        loop
            invariant
                self.wf(),
                hang_free(self.script()),
                values@ + self.remaining() == old(self).remaining(),
            decreases self.script().len(),
        {
            let ghost pre = *self;
            match self.poll_next() {
                NextStep::Value(v) => {
                    proof {
                        lemma_hang_free_skip(pre.script());
                    }
                    values.push(v);
                }
                NextStep::End => {
                    proof {
                        assert(values@ + self.remaining() =~= values@);
                    }
                    return values;
                }
                NextStep::Pending => {
                    proof {
                        lemma_hang_free_skip(pre.script());
                        assert(!pre.hung());
                    }
                }
            }
        }
    }

    /// The Running-state handling of one pull: advance the producer one
    /// step, extract whatever it deposited, and resume the producer side if
    /// a value came out.
    fn run_step(&mut self, task: ProducerTask<F::Item>) -> (r: NextStep<F::Item>)
        requires
            old(self).state is Finished,
            old(self).shared.wf(),
            old(self).shared.slot() is None,
            task.wf(),
        ensures
            final(self).wf(),
            final(self).is_started(),
            r is End <==> task.rest().len() == 0,
            r is End ==> final(self).is_finished(),
            r !is End ==> !final(self).is_finished(),
            task.rest().len() > 0 ==> (task.rest()[0] matches ProducerAction::Emit(x)
                ==> r == NextStep::Value(x)
                && final(self).script() == task.rest().skip(1)),
            task.rest().len() > 0 && task.rest()[0] is Pause
                ==> r is Pending && final(self).script() == task.rest().skip(1),
            task.rest().len() > 0 && task.rest()[0] is Hang
                ==> r is Pending && final(self).script() == task.rest(),
    {
        let mut task = task;
        let done = task.step(&mut self.shared);

        // Extracting also permits the producer's emit suspension to
        // complete on its next advance.
        let emitted_item = self.shared.extract();

        match emitted_item {
            Some(item) => {
                self.state = FaucetState::Running(task);
                NextStep::Value(item)
            }
            None => {
                if done {
                    // The producer finished without a final emit; the task
                    // is dropped and can never emit again.
                    NextStep::End
                } else {
                    self.state = FaucetState::Running(task);
                    NextStep::Pending
                }
            }
        }
    }
}

} // verus!
