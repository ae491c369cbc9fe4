//! One operation as a state machine. The machine decides; whoever drives it
//! touches the files: it performs each action and hands back what happened.

use vstd::prelude::*;
use crate::algorithm::Algorithm;
use crate::failure::Failure;
use crate::registry::{is_container, stream_of};
use crate::transform::{compress, decompress, spec_decompress};

verus! {

/// What is to be done to the bytes of the input file.
#[derive(Clone, Copy, Debug, PartialEq, Eq, Structural)]
pub enum Request {
    Compress { algorithm: Algorithm, level: u32 },
    Decompress { algorithm: Algorithm },
}

/// The byte counts of a finished operation.
#[derive(Clone, Copy, Debug, PartialEq, Eq, Structural)]
pub struct Report {
    /// Length of the input file as it was read.
    pub input_size: u64,
    /// Length of the output file as it was measured after writing.
    pub output_size: u64,
}

/// Where an operation stands. `Done` and `Failed` are final.
#[derive(Clone, Copy, Debug, PartialEq, Eq, Structural)]
pub enum State {
    Idle,
    Validating,
    Reading,
    Transforming { input_size: u64 },
    Finalizing { input_size: u64 },
    Done(Report),
    Failed(Failure),
}

/// What the driver reports back to the machine.
#[derive(Debug)]
pub enum Event {
    /// The operation is to begin.
    Start,
    /// The input path names a file.
    InputFound,
    /// The input path names nothing.
    InputMissing,
    /// The whole input file, as read.
    InputRead(Vec<u8>),
    /// The input file could not be read.
    InputUnreadable,
    /// What the transformation of the input gave.
    Transformed(Result<Vec<u8>, Failure>),
    /// The output file was written in full; its length as measured.
    OutputWritten(u64),
    /// The output file could not be created or written.
    OutputUnwritable,
}

/// What the machine asks of the driver next.
#[derive(Debug)]
pub enum Action {
    /// Find out whether the input path names a file.
    ProbeInput,
    /// Read the whole input file.
    ReadInput,
    /// Transform these bytes as the request says.
    Transform(Vec<u8>),
    /// Create or truncate the output file, write these bytes, and measure it.
    WriteOutput(Vec<u8>),
    /// The event was not awaited: nothing changes.
    Wait,
    /// The operation has ended.
    Stop,
}

/// An event with its bytes as a sequence.
pub enum EventView {
    Start,
    InputFound,
    InputMissing,
    InputRead(Seq<u8>),
    InputUnreadable,
    Transformed(Result<Seq<u8>, Failure>),
    OutputWritten(u64),
    OutputUnwritable,
}

/// An action with its bytes as a sequence.
pub enum ActionView {
    ProbeInput,
    ReadInput,
    Transform(Seq<u8>),
    WriteOutput(Seq<u8>),
    Wait,
    Stop,
}

impl View for Event {
    type V = EventView;

    open spec fn view(&self) -> EventView {
        match *self {
            Event::Start => EventView::Start,
            Event::InputFound => EventView::InputFound,
            Event::InputMissing => EventView::InputMissing,
            Event::InputRead(data) => EventView::InputRead(data@),
            Event::InputUnreadable => EventView::InputUnreadable,
            Event::Transformed(Ok(out)) => EventView::Transformed(Ok(out@)),
            Event::Transformed(Err(failure)) => EventView::Transformed(Err(failure)),
            Event::OutputWritten(size) => EventView::OutputWritten(size),
            Event::OutputUnwritable => EventView::OutputUnwritable,
        }
    }
}

impl View for Action {
    type V = ActionView;

    open spec fn view(&self) -> ActionView {
        match *self {
            Action::ProbeInput => ActionView::ProbeInput,
            Action::ReadInput => ActionView::ReadInput,
            Action::Transform(data) => ActionView::Transform(data@),
            Action::WriteOutput(out) => ActionView::WriteOutput(out@),
            Action::Wait => ActionView::Wait,
            Action::Stop => ActionView::Stop,
        }
    }
}

impl State {
    /// Whether the operation has ended, well or badly.
    pub open spec fn spec_is_final(self) -> bool {
        self is Done || self is Failed
    }

    /// Whether the input is known to exist: every state that follows a
    /// successful probe.
    pub open spec fn input_confirmed(self) -> bool {
        self is Reading || self is Transforming || self is Finalizing || self is Done
    }

    /// What a final state stands for: the report of a finished operation or
    /// the failure that ended it. A state that is not final stands for
    /// nothing yet.
    pub open spec fn spec_outcome(self) -> Option<Result<Report, Failure>> {
        match self {
            State::Done(report) => Some(Ok(report)),
            State::Failed(failure) => Some(Err(failure)),
            _ => None,
        }
    }

    /// Returns the result of the operation once it has ended.
    #[verifier::when_used_as_spec(spec_outcome)]
    pub fn outcome(self) -> (r: Option<Result<Report, Failure>>)
        ensures
            r == self.spec_outcome(),
            r is Some <==> self.spec_is_final(),
    {
        match self {
            State::Done(report) => Some(Ok(report)),
            State::Failed(failure) => Some(Err(failure)),
            _ => None,
        }
    }

    /// Decides whether the operation has ended.
    #[verifier::when_used_as_spec(spec_is_final)]
    pub fn is_final(self) -> (r: bool)
        ensures
            r == self.spec_is_final(),
    {
        match self {
            State::Done(_) => true,
            State::Failed(_) => true,
            _ => false,
        }
    }
}

impl Request {
    /// The algorithm that governs the operation.
    pub open spec fn spec_algorithm(self) -> Algorithm {
        match self {
            Request::Compress { algorithm, level } => algorithm,
            Request::Decompress { algorithm } => algorithm,
        }
    }

    /// What the request gives for `data`: the container or the restored
    /// bytes, or the failure of the codec.
    pub open spec fn spec_outcome(self, data: Seq<u8>) -> Result<Seq<u8>, Failure> {
        match self {
            Request::Compress { algorithm, level } => match stream_of(
                algorithm,
                data,
                algorithm.spec_clamp_level(level),
            ) {
                Some(out) => Ok(out),
                None => Err(Failure::CodecEncodeFailure),
            },
            Request::Decompress { algorithm } => match spec_decompress(algorithm, data) {
                Some(out) => Ok(out),
                None => Err(Failure::CodecDecodeFailure),
            },
        }
    }

    /// Whether `outcome` is what the request gives for `data`, with all that
    /// holds of it.
    pub open spec fn admits(self, data: Seq<u8>, outcome: Result<Seq<u8>, Failure>) -> bool {
        match self {
            Request::Compress { algorithm, level } => match outcome {
                Ok(out) => is_container(algorithm, data, algorithm.spec_clamp_level(level), out),
                Err(failure) => failure == Failure::CodecEncodeFailure && stream_of(
                    algorithm,
                    data,
                    algorithm.spec_clamp_level(level),
                ) is None,
            },
            Request::Decompress { algorithm } => match outcome {
                Ok(out) => spec_decompress(algorithm, data) == Some(out),
                Err(failure) => failure == Failure::CodecDecodeFailure && spec_decompress(
                    algorithm,
                    data,
                ) is None,
            },
        }
    }

    /// Returns the algorithm that governs the operation.
    #[verifier::when_used_as_spec(spec_algorithm)]
    pub fn algorithm(self) -> (r: Algorithm)
        ensures
            r == self.spec_algorithm(),
    {
        match self {
            Request::Compress { algorithm, level } => algorithm,
            Request::Decompress { algorithm } => algorithm,
        }
    }

    /// Carries out the `Transform` action: compresses or decompresses `data`
    /// as the request says, and wraps what came of it as the event to hand
    /// back.
    pub fn transform(self, data: &[u8]) -> (r: Event)
        ensures
            r@ == EventView::Transformed(self.spec_outcome(data@)),
            self.admits(data@, self.spec_outcome(data@)),
    {
        match self {
            Request::Compress { algorithm, level } => Event::Transformed(
                compress(data, algorithm, level),
            ),
            Request::Decompress { algorithm } => Event::Transformed(decompress(data, algorithm)),
        }
    }
}

/// The transition that `event` causes in `state`, and the action it calls
/// for. An event that the state does not await changes nothing; a final state
/// stays as it is.
pub open spec fn spec_step(state: State, event: EventView) -> (State, ActionView) {
    match state {
        State::Idle => match event {
            EventView::Start => (State::Validating, ActionView::ProbeInput),
            _ => (state, ActionView::Wait),
        },
        State::Validating => match event {
            EventView::InputFound => (State::Reading, ActionView::ReadInput),
            EventView::InputMissing => (State::Failed(Failure::InputNotFound), ActionView::Stop),
            _ => (state, ActionView::Wait),
        },
        State::Reading => match event {
            EventView::InputRead(data) => (
                State::Transforming { input_size: data.len() as u64 },
                ActionView::Transform(data),
            ),
            EventView::InputUnreadable => (
                State::Failed(Failure::InputUnreadable),
                ActionView::Stop,
            ),
            _ => (state, ActionView::Wait),
        },
        State::Transforming { input_size } => match event {
            EventView::Transformed(Ok(out)) => (
                State::Finalizing { input_size },
                ActionView::WriteOutput(out),
            ),
            EventView::Transformed(Err(failure)) => (State::Failed(failure), ActionView::Stop),
            _ => (state, ActionView::Wait),
        },
        State::Finalizing { input_size } => match event {
            EventView::OutputWritten(output_size) => (
                State::Done(Report { input_size, output_size }),
                ActionView::Stop,
            ),
            EventView::OutputUnwritable => (
                State::Failed(Failure::OutputUnwritable),
                ActionView::Stop,
            ),
            _ => (state, ActionView::Wait),
        },
        State::Done(_) => (state, ActionView::Stop),
        State::Failed(_) => (state, ActionView::Stop),
    }
}

/// Where a run of `events` leaves the machine that started in `state`, and
/// the actions it called for on the way, one for each event.
pub open spec fn spec_run(state: State, events: Seq<EventView>) -> (State, Seq<ActionView>)
    decreases events.len(),
{
    if events.len() == 0 {
        (state, Seq::empty())
    } else {
        let (next, action) = spec_step(state, events[0]);
        let (last, actions) = spec_run(next, events.drop_first());
        (last, seq![action] + actions)
    }
}

/// Takes one step: the state that `event` leads to, and the action to
/// perform next.
pub fn step(state: State, event: Event) -> (r: (State, Action))
    ensures
        (r.0, r.1@) == spec_step(state, event@),
{
    match state {
        State::Idle => match event {
            Event::Start => (State::Validating, Action::ProbeInput),
            _ => (state, Action::Wait),
        },
        State::Validating => match event {
            Event::InputFound => (State::Reading, Action::ReadInput),
            Event::InputMissing => (State::Failed(Failure::InputNotFound), Action::Stop),
            _ => (state, Action::Wait),
        },
        State::Reading => match event {
            Event::InputRead(data) => {
                let input_size: u64 = data.len() as u64;
                (State::Transforming { input_size }, Action::Transform(data))
            },
            Event::InputUnreadable => (State::Failed(Failure::InputUnreadable), Action::Stop),
            _ => (state, Action::Wait),
        },
        State::Transforming { input_size } => match event {
            Event::Transformed(Ok(out)) => (State::Finalizing { input_size }, Action::WriteOutput(out)),
            Event::Transformed(Err(failure)) => (State::Failed(failure), Action::Stop),
            _ => (state, Action::Wait),
        },
        State::Finalizing { input_size } => match event {
            Event::OutputWritten(output_size) => (
                State::Done(Report { input_size, output_size }),
                Action::Stop,
            ),
            Event::OutputUnwritable => (State::Failed(Failure::OutputUnwritable), Action::Stop),
            _ => (state, Action::Wait),
        },
        State::Done(_) => (state, Action::Stop),
        State::Failed(_) => (state, Action::Stop),
    }
}

/// The step that `event` causes, carried on through the transformation
/// where the step calls for one: what is left for the driver is file work.
pub open spec fn spec_advance(request: Request, state: State, event: EventView) -> (
    State,
    ActionView,
) {
    let (next, action) = spec_step(state, event);
    match action {
        ActionView::Transform(data) => spec_step(
            next,
            EventView::Transformed(request.spec_outcome(data)),
        ),
        _ => (next, action),
    }
}

/// Takes one step for the driver. Where the step calls for the input to be
/// transformed, the transformation is carried out here and its outcome fed
/// back at once, so the action returned is never `Transform`. The bytes then
/// handed on for writing are all that the request promises of them: a
/// container that is framed and reads back, or the restored payload.
pub fn advance(request: Request, state: State, event: Event) -> (r: (State, Action))
    ensures
        (r.0, r.1@) == spec_advance(request, state, event@),
        !(r.1@ is Transform),
        state is Reading ==> (event@ matches EventView::InputRead(data) ==> request.admits(
            data,
            request.spec_outcome(data),
        )),
{
    let (next, action) = step(state, event);
    match action {
        Action::Transform(data) => {
            let transformed = request.transform(data.as_slice());
            step(next, transformed)
        },
        other => (next, other),
    }
}

/// A run calls for exactly one action for each event.
pub proof fn lemma_run_length(state: State, events: Seq<EventView>)
    ensures
        spec_run(state, events).1.len() == events.len(),
    decreases events.len(),
{
    if events.len() > 0 {
        lemma_run_length(spec_step(state, events[0]).0, events.drop_first());
    }
}

/// A final state is never left, whatever events follow, and calls for
/// nothing but `Stop`.
pub proof fn lemma_final_state_stays(state: State, events: Seq<EventView>)
    requires
        state.spec_is_final(),
    ensures
        spec_run(state, events).0 == state,
        spec_run(state, events).1.len() == events.len(),
        forall|i: int|
            0 <= i < events.len() ==> (#[trigger] spec_run(state, events).1[i]) == ActionView::Stop,
    decreases events.len(),
{
    if events.len() > 0 {
        lemma_final_state_stays(state, events.drop_first());
    }
}

/// The events of a run in which the probe finds no input, followed by
/// whatever the driver may send after that.
pub open spec fn spec_missing_input_run(rest: Seq<EventView>) -> Seq<EventView> {
    seq![EventView::Start, EventView::InputMissing] + rest
}

/// Missing input: once the probe reports that the input path names nothing,
/// the operation has failed with `InputNotFound`, and no event that follows
/// makes the machine ask for the output file to be written.
pub proof fn lemma_missing_input_touches_no_output(rest: Seq<EventView>)
    ensures
        ({
            let run = spec_run(State::Idle, spec_missing_input_run(rest));
            &&& run.0 == State::Failed(Failure::InputNotFound)
            &&& run.1.len() == rest.len() + 2
            &&& forall|i: int| 0 <= i < run.1.len() ==> !((#[trigger] run.1[i]) is WriteOutput)
        }),
{
    let events = spec_missing_input_run(rest);
    let failed = State::Failed(Failure::InputNotFound);
    let tail = events.drop_first();
    assert(tail.drop_first() =~= rest);
    assert(spec_step(State::Idle, events[0]) == (State::Validating, ActionView::ProbeInput));
    assert(spec_step(State::Validating, tail[0]) == (failed, ActionView::Stop));
    lemma_final_state_stays(failed, rest);
    let after = spec_run(failed, rest);
    assert(spec_run(State::Validating, tail) == (after.0, seq![ActionView::Stop] + after.1));
    let run = spec_run(State::Idle, events);
    assert(run == (after.0, seq![ActionView::ProbeInput] + (seq![ActionView::Stop] + after.1)));
    assert forall|i: int| 0 <= i < run.1.len() implies !((#[trigger] run.1[i]) is WriteOutput) by {
        if i >= 2 {
            assert(run.1[i] == after.1[i - 2]);
        }
    }
}

/// Output only after input: in any run, from any state in which the input is
/// not yet known to exist, an action that writes the output file is preceded
/// by the event that reports the input as found.
pub proof fn lemma_output_follows_found_input(state: State, events: Seq<EventView>, i: int)
    requires
        0 <= i < events.len(),
        spec_run(state, events).1[i] is WriteOutput,
        !state.input_confirmed(),
    ensures
        exists|j: int| 0 <= j < i && events[j] == EventView::InputFound,
    decreases events.len(),
{
    let (next, action) = spec_step(state, events[0]);
    let tail = events.drop_first();
    lemma_run_length(state, events);
    lemma_run_length(next, tail);
    assert(spec_run(state, events).1 == seq![action] + spec_run(next, tail).1);
    if i == 0 {
        assert(action is WriteOutput);
        assert(false);
    } else {
        assert(spec_run(next, tail).1[i - 1] is WriteOutput);
        if next.input_confirmed() {
            assert(events[0] == EventView::InputFound);
        } else {
            lemma_output_follows_found_input(next, tail, i - 1);
            let j = choose|j: int| 0 <= j < i - 1 && tail[j] == EventView::InputFound;
            assert(events[j + 1] == EventView::InputFound);
        }
    }
}

/// The events of a run in which every step goes well.
pub open spec fn spec_full_run(data: Seq<u8>, out: Seq<u8>, measured: u64) -> Seq<EventView> {
    seq![
        EventView::Start,
        EventView::InputFound,
        EventView::InputRead(data),
        EventView::Transformed(Ok(out)),
        EventView::OutputWritten(measured),
    ]
}

/// Size reporting: a run that goes through to the end reports the length of
/// the bytes that were read and the length that was measured after writing.
/// The input length is reported as it is wherever it fits in 64 bits.
pub proof fn lemma_sizes_reported(data: Seq<u8>, out: Seq<u8>, measured: u64)
    ensures
        spec_run(State::Idle, spec_full_run(data, out, measured)).0 == State::Done(
            Report { input_size: data.len() as u64, output_size: measured },
        ),
        data.len() <= u64::MAX ==> (spec_run(State::Idle, spec_full_run(data, out, measured)).0
            matches State::Done(report) && report.input_size == data.len() && report.output_size
            == measured),
{
    let e0 = spec_full_run(data, out, measured);
    let e1 = e0.drop_first();
    let e2 = e1.drop_first();
    let e3 = e2.drop_first();
    let e4 = e3.drop_first();
    let e5 = e4.drop_first();
    assert(e5.len() == 0);
    let size = data.len() as u64;
    let done = State::Done(Report { input_size: size, output_size: measured });
    assert(spec_run(done, e5).0 == done);
    assert(spec_run(State::Finalizing { input_size: size }, e4).0 == done);
    assert(spec_run(State::Transforming { input_size: size }, e3).0 == done);
    assert(spec_run(State::Reading, e2).0 == done);
    assert(spec_run(State::Validating, e1).0 == done);
}

} // verus!
