//! Encoding a step, committing it, and waiting for it with a bound.
//!
//! The wait's bound is far past any real step, so reaching it does not mean
//! slow: it means the device is not coming back. A command buffer that has not
//! signalled may still be executing, so there is no recovery, and [`Stepper`]
//! latches into a wedged state and refuses every later step.
//!
//! The device calls are the caller's: each decision here says what to call, or
//! why not. A step alternates the two, so [`Stepper::run`] goes from what just
//! happened to what to do about it.

use crate::metal::error::{Error, ErrorView};
use crate::strings;
use crate::strings::push_decimal;
use vstd::prelude::*;
use vstd::string::*;

verus! {

/// How long one probe of the completion wait lasts, in milliseconds.
pub const WAIT_PROBE_MS: u64 = 5000;

/// How many probes before the step is declared not coming back.
pub const WAIT_PROBES: u32 = 12;

/// What a dispatch's barrier makes visible to the next one.
#[derive(Clone, Copy, Debug, PartialEq, Eq, Structural)]
pub enum Visibility {
    /// Order execution only, without flushing caches.
    ExecutionOnly,
    /// Flush caches to the device coherence point.
    Device,
}

impl Default for Visibility {
    fn default() -> (v: Self)
        ensures
            v == Visibility::ExecutionOnly,
    {
        Visibility::ExecutionOnly
    }
}

/// The bindings one dispatch reads its buffers from.
#[derive(Debug)]
pub struct ArgumentTable {
    capacity: usize,
}

/// An address to set in a table.
#[derive(Clone, Copy, Debug, PartialEq, Eq, Structural)]
pub struct Binding {
    /// Where.
    pub index: usize,
    /// What.
    pub address: u64,
}

/// The refusal of a binding past a table's end.
pub open spec fn past_the_table(index: usize, capacity: usize) -> ErrorView {
    ErrorView::Create {
        what: "argument table binding"@,
        message: "index "@ + strings::decimal(index as nat) + " past the table's "@
            + strings::decimal(capacity as nat) + " bindings"@,
    }
}

/// What binding an address in a table comes to.
pub open spec fn bound_in(capacity: usize, index: usize, address: u64) -> Result<
    Binding,
    ErrorView,
> {
    if index < capacity {
        Ok(Binding { index, address })
    } else {
        Err(past_the_table(index, capacity))
    }
}

impl ArgumentTable {
    /// How many bindings the table holds.
    pub closed spec fn holds(&self) -> usize {
        self.capacity
    }

    /// A table with room for `capacity` bindings.
    pub fn new(capacity: usize) -> (table: Self)
        ensures
            table.holds() == capacity,
    {
        ArgumentTable { capacity }
    }

    /// How many bindings this table holds.
    pub fn capacity(&self) -> (n: usize)
        ensures
            n == self.holds(),
    {
        self.capacity
    }

    /// Bind an address at `index`. Out of range is an error rather than a
    /// binding that silently does not happen.
    pub fn bind_address(&self, index: usize, address: u64) -> (binding: Result<Binding, Error>)
        ensures
            binding is Ok <==> index < self.holds(),
            binding matches Ok(b) ==> b == (Binding { index, address }),
            binding matches Err(e) ==> e@ == past_the_table(index, self.holds()),
            match binding {
                Ok(b) => bound_in(self.holds(), index, address) == Ok::<Binding, ErrorView>(b),
                Err(e) => bound_in(self.holds(), index, address) == Err::<Binding, ErrorView>(e@),
            },
    {
        if index >= self.capacity {
            let mut message = String::from_str("index ");
            push_decimal(&mut message, index as u64);
            message.append(" past the table's ");
            push_decimal(&mut message, self.capacity as u64);
            message.append(" bindings");
            return Err(Error::Create { what: "argument table binding", message });
        }
        Ok(Binding { index, address })
    }
}

/// The per-dispatch surface of a step being encoded.
#[derive(Debug)]
pub struct StepEncoder {
    /// The thread limit of the pipeline currently set, or zero if none is.
    max_threads: usize,
}

/// A dispatch the device will perform.
#[derive(Clone, Copy, Debug, PartialEq, Eq)]
pub struct Dispatched {
    /// Threads along each axis.
    pub threads: [usize; 3],
    /// Threads of one threadgroup along each axis.
    pub threadgroup: [usize; 3],
}

/// Threads in a threadgroup.
pub open spec fn group_threads(threadgroup: [usize; 3]) -> int {
    threadgroup@[0] * threadgroup@[1] * threadgroup@[2]
}

/// Why a dispatch is refused, when it is: the device would skip it and report
/// success.
pub open spec fn dispatch_refusal(limit: usize, threadgroup: [usize; 3]) -> Option<ErrorView> {
    let per_group = group_threads(threadgroup);
    if limit == 0 {
        Some(
            ErrorView::Create {
                what: "dispatch"@,
                message:
                    "no pipeline is set; the dispatch would run the previous kernel or none"@,
            },
        )
    } else if per_group == 0 {
        Some(
            ErrorView::Create {
                what: "dispatch"@,
                message: "a threadgroup of no threads runs nothing"@,
            },
        )
    } else if per_group > limit {
        Some(
            ErrorView::Create {
                what: "dispatch"@,
                message: strings::decimal(per_group as nat)
                    + " threads a threadgroup, and the pipeline allows "@ + strings::decimal(
                    limit as nat,
                ) + "; Metal would skip this dispatch and report success"@,
            },
        )
    } else {
        None
    }
}

impl StepEncoder {
    /// The thread limit of the pipeline currently set, or zero if none is.
    pub closed spec fn limit(&self) -> usize {
        self.max_threads
    }

    /// A step with no pipeline set.
    pub fn new() -> (encoder: Self)
        ensures
            encoder.limit() == 0,
    {
        StepEncoder { max_threads: 0 }
    }

    /// A pipeline was set, whose threadgroups hold at most `max_threads`.
    pub fn set_pipeline(&mut self, max_threads: usize)
        ensures
            final(self).limit() == max_threads,
    {
        self.max_threads = max_threads;
    }

    /// Dispatch `threads`, in threadgroups of `threadgroup`.
    ///
    /// Refuses a threadgroup wider than the pipeline allows: the device does
    /// not, it simply does not perform the dispatch.
    pub fn dispatch(&mut self, threads: [usize; 3], threadgroup: [usize; 3]) -> (done: Result<
        Dispatched,
        Error,
    >)
        requires
            old(self).limit() > 0 ==> threadgroup@[0] * threadgroup@[1] <= usize::MAX
                && group_threads(threadgroup) <= usize::MAX,
        ensures
            final(self).limit() == old(self).limit(),
            match done {
                Ok(d) => dispatch_refusal(old(self).limit(), threadgroup) is None && d.threads
                    == threads && d.threadgroup == threadgroup,
                Err(e) => dispatch_refusal(old(self).limit(), threadgroup) == Some(e@),
            },
    {
        if self.max_threads == 0 {
            return Err(
                Error::Create {
                    what: "dispatch",
                    message:
                        "no pipeline is set; the dispatch would run the previous kernel or none".to_owned(),
                },
            );
        }
        let x: usize = threadgroup[0];
        let y: usize = threadgroup[1];
        let z: usize = threadgroup[2];
        assert(0 <= x * y) by (nonlinear_arith);
        let plane: usize = x * y;
        assert(0 <= plane * z) by (nonlinear_arith);
        let per_group: usize = plane * z;
        if per_group == 0 {
            return Err(
                Error::Create {
                    what: "dispatch",
                    message: "a threadgroup of no threads runs nothing".to_owned(),
                },
            );
        }
        if per_group > self.max_threads {
            let mut message = String::new();
            push_decimal(&mut message, per_group as u64);
            assert(message@ =~= strings::decimal(per_group as nat));
            message.append(" threads a threadgroup, and the pipeline allows ");
            push_decimal(&mut message, self.max_threads as u64);
            message.append("; Metal would skip this dispatch and report success");
            return Err(Error::Create { what: "dispatch", message });
        }
        Ok(Dispatched { threads, threadgroup })
    }
}

/// A wait for an event to reach a value.
#[derive(Clone, Copy, Debug, PartialEq, Eq, Structural)]
pub struct Wait {
    /// The value to reach.
    pub value: u64,
    /// Probes still to make, each of [`WAIT_PROBE_MS`].
    pub left: u32,
}

/// Where a step stands.
#[derive(Clone, Copy, Debug, PartialEq, Eq, Structural)]
pub enum Phase {
    /// No step is under way.
    Idle,
    /// A command buffer is being made.
    Buffer,
    /// Its encoder is being made.
    Encoder,
    /// The step is being encoded.
    Encoding,
    /// The step is committed, and its event is awaited.
    Waiting(Wait),
}

/// What happened.
#[derive(Debug)]
pub enum StepEvent {
    /// A step is asked for.
    Begin,
    /// The command buffer was made, or was not.
    Buffer(bool),
    /// Its encoder was made, or was not.
    Encoder(bool),
    /// The step was encoded, or was refused.
    Encoded(Result<(), Error>),
    /// The awaited event was signaled within the probe, or was not.
    Probed(bool),
}

/// What to do about it.
#[derive(Debug)]
pub enum StepAction {
    /// Reset this one of the alternating allocators and make a command buffer.
    MakeBuffer {
        /// Which, counted past the end of the pair.
        allocator: u64,
    },
    /// Begin the command buffer on the allocator, have it use the residency
    /// set, and make its encoder.
    MakeEncoder,
    /// Encode the step.
    Encode,
    /// End the encoder and the command buffer, and return the refusal.
    Close(Error),
    /// End the encoder and the command buffer, commit it, signal the value,
    /// and probe for it.
    Commit(Wait),
    /// Probe again.
    Probe(Wait),
    /// Return this.
    Return(Result<(), Error>),
}

/// [`StepEvent`] with its texts as sequences.
pub enum StepEventView {
    Begin,
    Buffer(bool),
    Encoder(bool),
    Encoded(Result<(), ErrorView>),
    Probed(bool),
}

/// [`StepAction`] with its texts as sequences.
pub enum StepActionView {
    MakeBuffer { allocator: u64 },
    MakeEncoder,
    Encode,
    Close(ErrorView),
    Commit(Wait),
    Probe(Wait),
    Return(Result<(), ErrorView>),
}

/// A result with its refusal's texts as sequences.
pub open spec fn outcome_view(r: Result<(), Error>) -> Result<(), ErrorView> {
    match r {
        Ok(_) => Ok(()),
        Err(e) => Err(e@),
    }
}

impl View for StepEvent {
    type V = StepEventView;

    open spec fn view(&self) -> StepEventView {
        match *self {
            StepEvent::Begin => StepEventView::Begin,
            StepEvent::Buffer(made) => StepEventView::Buffer(made),
            StepEvent::Encoder(made) => StepEventView::Encoder(made),
            StepEvent::Encoded(r) => StepEventView::Encoded(outcome_view(r)),
            StepEvent::Probed(signaled) => StepEventView::Probed(signaled),
        }
    }
}

impl View for StepAction {
    type V = StepActionView;

    open spec fn view(&self) -> StepActionView {
        match *self {
            StepAction::MakeBuffer { allocator } => StepActionView::MakeBuffer { allocator },
            StepAction::MakeEncoder => StepActionView::MakeEncoder,
            StepAction::Encode => StepActionView::Encode,
            StepAction::Close(e) => StepActionView::Close(e@),
            StepAction::Commit(w) => StepActionView::Commit(w),
            StepAction::Probe(w) => StepActionView::Probe(w),
            StepAction::Return(r) => StepActionView::Return(outcome_view(r)),
        }
    }
}

/// Runs steps one at a time.
#[derive(Debug, PartialEq, Eq, Structural)]
pub struct Stepper {
    /// The event value the last committed step signals.
    committed: u64,
    /// Set once a wait ran out. There is no way back.
    wedged: bool,
    /// Where the step under way stands.
    phase: Phase,
}

/// What a [`Stepper`] knows.
pub struct StepperView {
    /// Steps committed so far.
    pub committed: u64,
    /// Whether a wait ran out.
    pub wedged: bool,
    /// Where the step under way stands.
    pub phase: Phase,
}

impl StepperView {
    /// A wedged stepper is idle, and a wait has probes left and is for the
    /// last step committed.
    pub open spec fn wf(self) -> bool {
        &&& self.wedged ==> self.phase == Phase::Idle
        &&& self.phase matches Phase::Waiting(w) ==> 0 < w.left <= WAIT_PROBES && w.value
            == self.committed
    }

    /// Is this what can happen next? The last event value is never committed.
    pub open spec fn awaits(self, event: StepEventView) -> bool {
        match event {
            StepEventView::Begin => self.phase == Phase::Idle,
            StepEventView::Buffer(_) => self.phase == Phase::Buffer,
            StepEventView::Encoder(_) => self.phase == Phase::Encoder,
            StepEventView::Encoded(r) => self.phase == Phase::Encoding && (r is Ok
                ==> self.committed < u64::MAX),
            StepEventView::Probed(_) => self.phase is Waiting,
        }
    }

    /// The same, with the step under way standing elsewhere.
    pub open spec fn at(self, phase: Phase) -> StepperView {
        StepperView { phase, ..self }
    }
}

/// The refusal of every step after a wait ran out.
pub open spec fn abandoned_earlier() -> ErrorView {
    ErrorView::Create {
        what: "step"@,
        message: "this context was abandoned after a completion wait ran out"@,
    }
}

/// The refusal of the step whose wait ran out.
pub open spec fn not_coming_back(value: u64) -> ErrorView {
    ErrorView::Create {
        what: "step"@,
        message: "the GPU did not reach event "@ + strings::decimal(value as nat) + " within "@
            + strings::decimal((WAIT_PROBE_MS * WAIT_PROBES) as nat)
            + " ms; this context is abandoned because its command buffers may still be running"@,
    }
}

/// The refusal of a step for which the device did not make an object.
pub open spec fn not_made(what: Seq<char>) -> ErrorView {
    ErrorView::Create { what, message: Seq::empty() }
}

/// One turn of a step: where it stands next, and what to do.
pub open spec fn stepped(s: StepperView, event: StepEventView) -> (StepperView, StepActionView) {
    match event {
        StepEventView::Begin => if s.wedged {
            (s, StepActionView::Return(Err(abandoned_earlier())))
        } else {
            (s.at(Phase::Buffer), StepActionView::MakeBuffer { allocator: s.committed })
        },
        StepEventView::Buffer(made) => if made {
            (s.at(Phase::Encoder), StepActionView::MakeEncoder)
        } else {
            (s.at(Phase::Idle), StepActionView::Return(Err(not_made("MTL4CommandBuffer"@))))
        },
        StepEventView::Encoder(made) => if made {
            (s.at(Phase::Encoding), StepActionView::Encode)
        } else {
            (
                s.at(Phase::Idle),
                StepActionView::Return(Err(not_made("MTL4ComputeCommandEncoder"@))),
            )
        },
        StepEventView::Encoded(Err(e)) => (s.at(Phase::Idle), StepActionView::Close(e)),
        StepEventView::Encoded(Ok(_)) => {
            let value = (s.committed + 1) as u64;
            let wait = Wait { value, left: WAIT_PROBES };
            (
                StepperView { committed: value, phase: Phase::Waiting(wait), ..s },
                StepActionView::Commit(wait),
            )
        },
        StepEventView::Probed(signaled) => {
            let wait = s.phase->Waiting_0;
            if signaled {
                (s.at(Phase::Idle), StepActionView::Return(Ok(())))
            } else if wait.left > 1 {
                let rest = Wait { value: wait.value, left: (wait.left - 1) as u32 };
                (s.at(Phase::Waiting(rest)), StepActionView::Probe(rest))
            } else {
                (
                    StepperView { wedged: true, phase: Phase::Idle, ..s },
                    StepActionView::Return(Err(not_coming_back(wait.value))),
                )
            }
        },
    }
}

/// The refusal of a step for which the device did not make an object.
fn unmade(what: &'static str) -> (action: StepAction)
    ensures
        action@ == StepActionView::Return(Err(not_made(what@))),
{
    let message = String::new();
    assert(message@ =~= Seq::<char>::empty());
    StepAction::Return(Err(Error::Create { what, message }))
}

/// The refusal of the step whose wait ran out.
fn ran_out(value: u64) -> (action: StepAction)
    ensures
        action@ == StepActionView::Return(Err(not_coming_back(value))),
{
    let mut message = String::from_str("the GPU did not reach event ");
    push_decimal(&mut message, value);
    message.append(" within ");
    push_decimal(&mut message, WAIT_PROBE_MS * WAIT_PROBES as u64);
    message.append(
        " ms; this context is abandoned because its command buffers may still be running",
    );
    StepAction::Return(Err(Error::Create { what: "step", message }))
}

impl View for Stepper {
    type V = StepperView;

    closed spec fn view(&self) -> StepperView {
        StepperView { committed: self.committed, wedged: self.wedged, phase: self.phase }
    }
}

impl Stepper {
    /// A stepper that has committed nothing.
    pub fn new() -> (stepper: Self)
        ensures
            stepper@ == (StepperView { committed: 0, wedged: false, phase: Phase::Idle }),
    {
        Stepper { committed: 0, wedged: false, phase: Phase::Idle }
    }

    /// How many steps have been committed.
    pub fn steps(&self) -> (n: u64)
        ensures
            n == self@.committed,
    {
        self.committed
    }

    /// Whether a wait ran out, after which nothing more will run.
    pub fn is_wedged(&self) -> (yes: bool)
        ensures
            yes == self@.wedged,
    {
        self.wedged
    }

    /// One turn of a step.
    ///
    /// A step that was refused while it was encoded is closed like one that
    /// was not: an encoder abandoned mid-step leaves an open command buffer
    /// against an allocator that is about to be reset.
    pub fn run(&mut self, event: StepEvent) -> (action: StepAction)
        requires
            old(self)@.wf(),
            old(self)@.awaits(event@),
        ensures
            final(self)@.wf(),
            (final(self)@, action@) == stepped(old(self)@, event@),
    {
        match event {
            StepEvent::Begin => {
                if self.wedged {
                    return StepAction::Return(
                        Err(
                            Error::Create {
                                what: "step",
                                message:
                                    "this context was abandoned after a completion wait ran out".to_owned(),
                            },
                        ),
                    );
                }
                self.phase = Phase::Buffer;
                StepAction::MakeBuffer { allocator: self.committed }
            },
            StepEvent::Buffer(made) => {
                if !made {
                    self.phase = Phase::Idle;
                    return unmade("MTL4CommandBuffer");
                }
                self.phase = Phase::Encoder;
                StepAction::MakeEncoder
            },
            StepEvent::Encoder(made) => {
                if !made {
                    self.phase = Phase::Idle;
                    return unmade("MTL4ComputeCommandEncoder");
                }
                self.phase = Phase::Encoding;
                StepAction::Encode
            },
            StepEvent::Encoded(encoded) => match encoded {
                Err(e) => {
                    self.phase = Phase::Idle;
                    StepAction::Close(e)
                },
                Ok(_) => {
                    let value: u64 = self.committed + 1;
                    let wait = Wait { value, left: WAIT_PROBES };
                    self.committed = value;
                    self.phase = Phase::Waiting(wait);
                    StepAction::Commit(wait)
                },
            },
            StepEvent::Probed(signaled) => self.probed(signaled),
        }
    }

    /// The awaited event was signaled within the probe, or was not.
    fn probed(&mut self, signaled: bool) -> (action: StepAction)
        requires
            old(self)@.wf(),
            old(self)@.phase is Waiting,
        ensures
            final(self)@.wf(),
            (final(self)@, action@) == stepped(old(self)@, StepEventView::Probed(signaled)),
    {
        let wait = match self.phase {
            Phase::Waiting(wait) => wait,
            _ => Wait { value: 0, left: 0 },
        };
        if signaled {
            self.phase = Phase::Idle;
            return StepAction::Return(Ok(()));
        }
        if wait.left > 1 {
            let rest = Wait { value: wait.value, left: wait.left - 1 };
            self.phase = Phase::Waiting(rest);
            return StepAction::Probe(rest);
        }
        self.wedged = true;
        self.phase = Phase::Idle;
        ran_out(wait.value)
    }
}

/// Each of these can happen in its turn.
pub open spec fn possible(s: StepperView, events: Seq<StepEventView>) -> bool
    decreases events.len(),
{
    events.len() > 0 ==> s.awaits(events[0]) && possible(stepped(s, events[0]).0, events.skip(1))
}

/// Where a stepper stands after these.
pub open spec fn after(s: StepperView, events: Seq<StepEventView>) -> StepperView
    decreases events.len(),
{
    if events.len() == 0 {
        s
    } else {
        after(stepped(s, events[0]).0, events.skip(1))
    }
}

/// A wait that ran out is the end: whatever is asked of the stepper later, it
/// commits nothing more and stays wedged.
pub proof fn law_there_is_no_way_back(s: StepperView, events: Seq<StepEventView>)
    requires
        s.wf(),
        s.wedged,
        possible(s, events),
    ensures
        after(s, events) == s,
    decreases events.len(),
{
    if events.len() > 0 {
        assert(events[0] == StepEventView::Begin);
        law_there_is_no_way_back(stepped(s, events[0]).0, events.skip(1));
    }
}

/// A wedged stepper refuses every step, and makes nothing for it.
pub proof fn law_a_wedged_stepper_refuses_every_step(s: StepperView)
    requires
        s.wedged,
    ensures
        stepped(s, StepEventView::Begin) == (
            s,
            StepActionView::Return(Err::<(), ErrorView>(abandoned_earlier())),
        ),
{
}

/// Steps are counted as they are committed, and by nothing else.
pub proof fn law_a_step_is_counted_when_it_is_committed(s: StepperView, event: StepEventView)
    requires
        s.wf(),
        s.awaits(event),
    ensures
        stepped(s, event).0.committed == s.committed + if stepped(s, event).1 is Commit {
            1int
        } else {
            0int
        },
{
}

/// However its encoding went, a step's command buffer is closed; and it is
/// committed only if the encoding succeeded.
pub proof fn law_a_step_is_closed_on_both_paths(s: StepperView, encoded: Result<(), ErrorView>)
    requires
        s.awaits(StepEventView::Encoded(encoded)),
    ensures
        match encoded {
            Ok(_) => stepped(s, StepEventView::Encoded(encoded)).1 is Commit,
            Err(e) => stepped(s, StepEventView::Encoded(encoded)) == (
                s.at(Phase::Idle),
                StepActionView::Close(e),
            ),
        },
{
}

/// What a wait comes to, given each probe's answer in turn.
pub open spec fn waited(s: StepperView, answers: Seq<bool>) -> (StepperView, StepActionView)
    decreases answers.len(),
{
    let next = stepped(s, StepEventView::Probed(answers[0]));
    if answers.len() <= 1 || !(next.0.phase is Waiting) {
        next
    } else {
        waited(next.0, answers.skip(1))
    }
}

/// A wait ends well if one of its probes is answered; if none is, the stepper
/// is wedged and the step refused.
pub proof fn law_a_wait_is_abandoned_only_when_every_probe_runs_out(
    s: StepperView,
    answers: Seq<bool>,
)
    requires
        s.wf(),
        s.phase is Waiting,
        answers.len() >= s.phase->Waiting_0.left,
    ensures
        waited(s, answers) == if exists|i: int|
            0 <= i < s.phase->Waiting_0.left && #[trigger] answers[i] {
            (s.at(Phase::Idle), StepActionView::Return(Ok::<(), ErrorView>(())))
        } else {
            (
                StepperView { wedged: true, phase: Phase::Idle, ..s },
                StepActionView::Return(Err::<(), ErrorView>(not_coming_back(s.committed))),
            )
        },
    decreases answers.len(),
{
    let left = s.phase->Waiting_0.left;
    if answers[0] {
        assert(exists|i: int| 0 <= i < left && #[trigger] answers[i]);
    } else if left > 1 {
        let next = stepped(s, StepEventView::Probed(false)).0;
        let rest = answers.skip(1);
        law_a_wait_is_abandoned_only_when_every_probe_runs_out(next, rest);
        assert(forall|i: int| 0 <= i < rest.len() ==> rest[i] == answers[i + 1]);
        if exists|i: int| 0 <= i < left && #[trigger] answers[i] {
            let i = choose|i: int| 0 <= i < left && #[trigger] answers[i];
            assert(rest[i - 1] == answers[i]);
        }
        if exists|i: int| 0 <= i < left - 1 && #[trigger] rest[i] {
            let i = choose|i: int| 0 <= i < left - 1 && #[trigger] rest[i];
            assert(answers[i + 1] == rest[i]);
        }
    }
}

/// A step that goes well goes through its turns: a command buffer on an
/// allocator, its encoder, the encoding, the commit, and the wait. It signals
/// the value past its allocator's number, so two steps in a row take the two
/// allocators of the pair; it is waited for a minute in all; and it leaves one
/// more step committed and nothing else changed.
pub proof fn law_a_step_goes_through_its_turns(s: StepperView)
    requires
        s.wf(),
        !s.wedged,
        s.phase == Phase::Idle,
        s.committed < u64::MAX,
    ensures
        ({
            let begun = stepped(s, StepEventView::Begin);
            let buffered = stepped(begun.0, StepEventView::Buffer(true));
            let opened = stepped(buffered.0, StepEventView::Encoder(true));
            let committed = stepped(opened.0, StepEventView::Encoded(Ok(())));
            let over = stepped(committed.0, StepEventView::Probed(true));
            &&& s.awaits(StepEventView::Begin)
            &&& begun.0.awaits(StepEventView::Buffer(true))
            &&& buffered.0.awaits(StepEventView::Encoder(true))
            &&& opened.0.awaits(StepEventView::Encoded(Ok(())))
            &&& committed.0.awaits(StepEventView::Probed(true))
            &&& begun.1 matches StepActionView::MakeBuffer { allocator } && allocator == s.committed
                && (committed.1 matches StepActionView::Commit(wait) && wait.value == allocator + 1
                && wait.left * WAIT_PROBE_MS == 60_000)
            &&& buffered.1 == StepActionView::MakeEncoder
            &&& opened.1 == StepActionView::Encode
            &&& over.1 == StepActionView::Return(Ok::<(), ErrorView>(()))
            &&& over.0.committed == s.committed + 1
            &&& !over.0.wedged
            &&& over.0.phase == Phase::Idle
        }),
{
}

/// A step that the device makes nothing for is given up with the name of what
/// was not made, and leaves the stepper as it was before the step.
pub proof fn law_a_step_nothing_is_made_for_is_given_up(s: StepperView)
    requires
        s.wf(),
        !s.wedged,
        s.phase == Phase::Idle,
    ensures
        ({
            let begun = stepped(s, StepEventView::Begin).0;
            let buffered = stepped(begun, StepEventView::Buffer(true)).0;
            let no_buffer = stepped(begun, StepEventView::Buffer(false));
            let no_encoder = stepped(buffered, StepEventView::Encoder(false));
            &&& no_buffer.0 == s
            &&& no_encoder.0 == s
            &&& no_buffer.1 matches StepActionView::Return(
                Err(ErrorView::Create { what, message }),
            ) && what == "MTL4CommandBuffer"@ && message.len() == 0
            &&& no_encoder.1 matches StepActionView::Return(
                Err(ErrorView::Create { what, message }),
            ) && what == "MTL4ComputeCommandEncoder"@ && message.len() == 0
        }),
{
}

/// One kind of event is awaited at a time, and only an idle stepper begins.
pub proof fn law_one_kind_of_event_is_awaited(s: StepperView, a: StepEventView, b: StepEventView)
    requires
        s.awaits(a),
        s.awaits(b),
    ensures
        a is Begin <==> b is Begin,
        a is Buffer <==> b is Buffer,
        a is Encoder <==> b is Encoder,
        a is Encoded <==> b is Encoded,
        a is Probed <==> b is Probed,
        a is Begin <==> s.phase == Phase::Idle,
{
}

/// A dispatch is refused exactly where the device would skip it: no pipeline is
/// set, the threadgroup has no threads, or it has more than the pipeline
/// allows.
pub proof fn law_a_dispatch_runs_where_the_pipeline_allows_it(
    limit: usize,
    threadgroup: [usize; 3],
)
    ensures
        ({
            let threads = threadgroup@[0] * threadgroup@[1] * threadgroup@[2];
            &&& dispatch_refusal(limit, threadgroup) is None <==> limit > 0 && threads != 0
                && threads <= limit
            &&& dispatch_refusal(limit, threadgroup) matches Some(e) ==> e matches ErrorView::Create {
                what,
                message,
            } && what == "dispatch"@ && (limit > 0 && threads > limit ==> strings::decimal(
                threads as nat,
            ).is_prefix_of(message))
        }),
{
    let threads = group_threads(threadgroup);
    if limit > 0 && threads > limit {
        let message = dispatch_refusal(limit, threadgroup)->Some_0->Create_message;
        let head = strings::decimal(threads as nat);
        assert(head =~= message.subrange(0, head.len() as int));
    }
}

/// The refusals name what they are about: the event that was not reached, and
/// the binding that is not in the table.
pub proof fn law_a_refusal_names_its_number(value: u64, index: usize, capacity: usize)
    ensures
        not_coming_back(value) matches ErrorView::Create { what, message } && what == "step"@ && (
        "the GPU did not reach event "@ + strings::decimal(value as nat)).is_prefix_of(message),
        past_the_table(index, capacity) matches ErrorView::Create { what, message } && what
            == "argument table binding"@ && ("index "@ + strings::decimal(
            index as nat,
        )).is_prefix_of(message) && (strings::decimal(capacity as nat)
            + " bindings"@).is_suffix_of(message),
{
    let reached = not_coming_back(value)->Create_message;
    let event = "the GPU did not reach event "@ + strings::decimal(value as nat);
    assert(event =~= reached.subrange(0, event.len() as int));
    let bound = past_the_table(index, capacity)->Create_message;
    let head = "index "@ + strings::decimal(index as nat);
    let tail = strings::decimal(capacity as nat) + " bindings"@;
    assert(head =~= bound.subrange(0, head.len() as int));
    assert(tail =~= bound.subrange((bound.len() - tail.len()) as int, bound.len() as int));
}

/// Every index of a table can be bound and none past it, and a binding sets
/// what it was given where it was told to.
pub proof fn law_a_table_binds_every_index_it_has(capacity: usize, index: usize, address: u64)
    ensures
        bound_in(capacity, index, address) is Err <==> index >= capacity,
        bound_in(capacity, index, address) matches Ok(b) ==> b.index == index && b.address
            == address,
{
}

} // verus!
