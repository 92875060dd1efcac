//! The consumer loop as a state machine: one message at a time goes from
//! normalisation over the lookup of its sensor to the write of its row. The
//! caller does the waiting, the queries and the logging; this module decides.

use crate::json::{JsonModel, JsonValue};
use crate::normalisation::{
    defaulted, defaults_applied, lemma_names_are_not_empty, normalise_at, normalise_with,
    normalised, read_timestamp, timestamp_text, Defaulted, NormalisedReading, ReadingModel,
};
use crate::persistence::{
    draw_id, is_random_id, persisted, persisted_reading, PersistedModel, PersistedReading,
};
use crate::registry::SensorKey;
use crate::time::{instant_of, read_clock, Timestamp};
use vstd::prelude::*;
use vstd::string::StringSliceAdditionalSpecFns;
use vstd::utf8::valid_utf8;

verus! {

/// What a message that has been claimed is waiting for.
#[derive(Debug)]
pub enum Stage {
    /// The reading is normalised; the lookup of its sensor is under way.
    Resolving(NormalisedReading),
    /// The sensor is known; the write of this row is under way.
    Writing(PersistedReading),
}

/// Where the consumer loop stands.
#[derive(Debug)]
pub enum ConsumerState {
    /// Waiting for the next message.
    Idle,
    /// A message is claimed and on its way through the pipeline.
    Processing(Stage),
    /// The stream has failed for good; nothing more is consumed.
    Terminated,
}

/// What has happened outside since the last step.
#[derive(Debug)]
pub enum StreamEvent {
    /// A message arrived. `document` is its payload as JSON, or nothing where
    /// the payload is no JSON document; `numeric` is the outcome of reading the
    /// document's string value as a decimal number.
    Message { document: Option<JsonValue>, numeric: Option<u64> },
    /// The registry holds the sensor, under this key.
    SensorFound(SensorKey),
    /// The registry holds no such sensor.
    SensorMissing,
    /// The registry could not be asked.
    LookupFailed,
    /// The row is stored.
    Written,
    /// The row could not be stored.
    WriteFailed,
    /// The stream itself has failed and will not recover.
    TransportFailed,
}

/// What the pipeline gives up on. Nothing is lost in silence: whatever is
/// dropped is handed back, for the caller to route where it sees fit.
#[derive(Debug)]
pub enum Discarded {
    /// A reading whose sensor could not be determined.
    Reading(NormalisedReading),
    /// A row that could not be stored.
    Row(PersistedReading),
}

/// What the caller has to do next.
#[derive(Debug)]
pub enum Action {
    /// Wait for the next message.
    Receive,
    /// Ask the registry for the sensor with both names.
    Lookup { identifier: String, measuring: String },
    /// Store the row.
    Insert(PersistedReading),
    /// Dispose of what was dropped, then wait for the next message.
    Discard(Discarded),
    /// Nothing new: the outcome of what is under way is still owed.
    Wait,
    /// Leave the loop.
    Stop,
}

/// What a step has to report to whoever watches the pipeline.
#[derive(Debug, Clone, Copy, PartialEq, Eq, Structural)]
pub enum Report {
    /// A document was normalised, with these fields filled by default.
    Accepted(Defaulted),
    /// The message is no JSON document and is skipped.
    Malformed,
    /// The sensor was found under this key.
    Resolved(SensorKey),
    /// No sensor is registered under the reading's names; the reading is dropped.
    UnknownSensor,
    /// The registry could not be asked; the reading is dropped.
    LookupFailed,
    /// The row is stored.
    Persisted,
    /// The row could not be stored; the reading is dropped.
    WriteFailed,
    /// The stream has failed; the loop ends.
    TransportFailed,
    /// The event does not belong to the state and changes nothing.
    Ignored,
}

/// The mathematical value of a [`Stage`].
pub enum StageModel {
    Resolving(ReadingModel),
    Writing(PersistedModel),
}

/// The mathematical value of a [`ConsumerState`].
pub enum StateModel {
    Idle,
    Processing(StageModel),
    Terminated,
}

/// The mathematical value of a [`StreamEvent`].
pub enum EventModel {
    Message { document: Option<JsonModel>, numeric: Option<u64> },
    SensorFound(SensorKey),
    SensorMissing,
    LookupFailed,
    Written,
    WriteFailed,
    TransportFailed,
}

/// The mathematical value of a [`Discarded`].
pub enum DiscardedModel {
    Reading(ReadingModel),
    Row(PersistedModel),
}

/// The mathematical value of an [`Action`].
pub enum ActionModel {
    Receive,
    Lookup { identifier: Seq<char>, measuring: Seq<char> },
    Insert(PersistedModel),
    Discard(DiscardedModel),
    Wait,
    Stop,
}

impl View for ConsumerState {
    type V = StateModel;

    open spec fn view(&self) -> StateModel {
        match self {
            ConsumerState::Idle => StateModel::Idle,
            ConsumerState::Processing(Stage::Resolving(reading)) => StateModel::Processing(
                StageModel::Resolving(reading@),
            ),
            ConsumerState::Processing(Stage::Writing(row)) => StateModel::Processing(
                StageModel::Writing(row@),
            ),
            ConsumerState::Terminated => StateModel::Terminated,
        }
    }
}

impl View for StreamEvent {
    type V = EventModel;

    open spec fn view(&self) -> EventModel {
        match self {
            StreamEvent::Message { document, numeric } => EventModel::Message {
                document: match document {
                    Some(doc) => Some(doc@),
                    None => None,
                },
                numeric: *numeric,
            },
            StreamEvent::SensorFound(key) => EventModel::SensorFound(*key),
            StreamEvent::SensorMissing => EventModel::SensorMissing,
            StreamEvent::LookupFailed => EventModel::LookupFailed,
            StreamEvent::Written => EventModel::Written,
            StreamEvent::WriteFailed => EventModel::WriteFailed,
            StreamEvent::TransportFailed => EventModel::TransportFailed,
        }
    }
}

impl View for Action {
    type V = ActionModel;

    open spec fn view(&self) -> ActionModel {
        match self {
            Action::Receive => ActionModel::Receive,
            Action::Lookup { identifier, measuring } => ActionModel::Lookup {
                identifier: identifier@,
                measuring: measuring@,
            },
            Action::Insert(row) => ActionModel::Insert(row@),
            Action::Discard(Discarded::Reading(reading)) => ActionModel::Discard(
                DiscardedModel::Reading(reading@),
            ),
            Action::Discard(Discarded::Row(row)) => ActionModel::Discard(DiscardedModel::Row(row@)),
            Action::Wait => ActionModel::Wait,
            Action::Stop => ActionModel::Stop,
        }
    }
}

/// Whether a text is what a payload holds: the text whose UTF-8 encoding the
/// payload's bytes are, and the empty text where there is no payload or where
/// its bytes are not UTF-8.
pub open spec fn is_payload_text(payload: Option<&[u8]>, text: &str) -> bool {
    match payload {
        Some(bytes) => if valid_utf8(bytes@) {
            text.spec_bytes() == bytes@
        } else {
            text@.len() == 0
        },
        None => text@.len() == 0,
    }
}

/// Reads bytes as UTF-8 with `std::str::from_utf8`: the text whose encoding
/// the bytes are, or nothing where they are not valid UTF-8.
#[verifier::external_body]
fn utf8_text<'a>(bytes: &'a [u8]) -> (r: Option<&'a str>)
    ensures
        r is Some <==> valid_utf8(bytes@),
        r matches Some(text) ==> text.spec_bytes() == bytes@,
{
    std::str::from_utf8(bytes).ok()
}

/// The text of a message's payload. A message without a payload, or with one
/// that is not UTF-8, reads as the empty text, which is no document.
pub fn payload_text<'a>(payload: Option<&'a [u8]>) -> (r: &'a str)
    ensures
        is_payload_text(payload, r),
{
    proof {
        reveal_strlit("");
    }
    match payload {
        Some(bytes) => match utf8_text(bytes) {
            Some(text) => text,
            None => "",
        },
        None => "",
    }
}

/// The step that ends the loop.
pub open spec fn halted() -> (StateModel, ActionModel, Report) {
    (StateModel::Terminated, ActionModel::Stop, Report::TransportFailed)
}

/// The step that ends a message without loss and turns to the next one.
pub open spec fn released(report: Report) -> (StateModel, ActionModel, Report) {
    (StateModel::Idle, ActionModel::Receive, report)
}

/// The step that drops what is under way, hands it back and turns to the next message.
pub open spec fn dropped(what: DiscardedModel, report: Report) -> (
    StateModel,
    ActionModel,
    Report,
) {
    (StateModel::Idle, ActionModel::Discard(what), report)
}

/// The step that claims a document: it is normalised as of `now`, and the
/// lookup of its sensor is asked for.
pub open spec fn claimed(doc: JsonModel, numeric: Option<u64>, now: Timestamp) -> (
    StateModel,
    ActionModel,
    Report,
) {
    let stamp = instant_of(timestamp_text(doc));
    let reading = normalised(doc, numeric, stamp, now);
    (
        StateModel::Processing(StageModel::Resolving(reading)),
        ActionModel::Lookup { identifier: reading.identifier, measuring: reading.measuring },
        Report::Accepted(defaulted(doc, stamp)),
    )
}

/// The consumer loop's step: the state that follows, what the caller has to do
/// and what is to be reported, where `now` is the instant of the step and `id`
/// the identifier to store a row under.
///
/// - Once terminated, the loop stays terminated.
/// - A failure of the stream terminates it from any other state.
/// - While idle, a message that is a document is claimed, and one that is not
///   is skipped.
/// - While the lookup is under way, a sensor that is found leads to the write
///   of the row; a missing sensor or a failed lookup drops the reading.
/// - While the write is under way, its outcome, good or bad, ends the message;
///   a failed write drops the row.
/// - Any other event changes nothing.
pub open spec fn next(state: StateModel, event: EventModel, now: Timestamp, id: u128) -> (
    StateModel,
    ActionModel,
    Report,
) {
    match state {
        StateModel::Terminated => (StateModel::Terminated, ActionModel::Stop, Report::Ignored),
        StateModel::Idle => match event {
            EventModel::TransportFailed => halted(),
            EventModel::Message { document: Some(doc), numeric } => claimed(doc, numeric, now),
            EventModel::Message { document: None, numeric } => released(Report::Malformed),
            _ => released(Report::Ignored),
        },
        StateModel::Processing(StageModel::Resolving(reading)) => match event {
            EventModel::TransportFailed => halted(),
            EventModel::SensorFound(key) => (
                StateModel::Processing(StageModel::Writing(persisted(id, key, reading))),
                ActionModel::Insert(persisted(id, key, reading)),
                Report::Resolved(key),
            ),
            EventModel::SensorMissing => dropped(
                DiscardedModel::Reading(reading),
                Report::UnknownSensor,
            ),
            EventModel::LookupFailed => dropped(
                DiscardedModel::Reading(reading),
                Report::LookupFailed,
            ),
            _ => (state, ActionModel::Wait, Report::Ignored),
        },
        StateModel::Processing(StageModel::Writing(row)) => match event {
            EventModel::TransportFailed => halted(),
            EventModel::Written => released(Report::Persisted),
            EventModel::WriteFailed => dropped(DiscardedModel::Row(row), Report::WriteFailed),
            _ => (state, ActionModel::Wait, Report::Ignored),
        },
    }
}

/// The view of a step's result.
pub open spec fn step_model(step: (ConsumerState, Action, Report)) -> (
    StateModel,
    ActionModel,
    Report,
) {
    (step.0@, step.1@, step.2)
}

impl ConsumerState {
    /// The state in which the loop starts.
    pub fn start() -> (r: ConsumerState)
        ensures
            r@ == StateModel::Idle,
    {
        ConsumerState::Idle
    }

    /// Whether the loop has ended.
    pub fn is_terminated(&self) -> (r: bool)
        ensures
            r == (self@ == StateModel::Terminated),
    {
        match self {
            ConsumerState::Terminated => true,
            _ => false,
        }
    }
}

/// Takes one step of the consumer loop at the instant `now`, with `id` as the
/// identifier for a row, should one be written.
pub fn transition(state: ConsumerState, event: StreamEvent, now: Timestamp, id: u128) -> (r: (
    ConsumerState,
    Action,
    Report,
))
    ensures
        step_model(r) == next(state@, event@, now, id),
{
    match state {
        ConsumerState::Terminated => (ConsumerState::Terminated, Action::Stop, Report::Ignored),
        ConsumerState::Idle => match event {
            StreamEvent::TransportFailed => (
                ConsumerState::Terminated,
                Action::Stop,
                Report::TransportFailed,
            ),
            StreamEvent::Message { document, numeric } => match document {
                Some(doc) => {
                    let (reading, defaults) = normalise_at(&doc, numeric, now);
                    claim(reading, defaults)
                },
                None => (ConsumerState::Idle, Action::Receive, Report::Malformed),
            },
            _ => (ConsumerState::Idle, Action::Receive, Report::Ignored),
        },
        ConsumerState::Processing(Stage::Resolving(reading)) => match event {
            StreamEvent::TransportFailed => (
                ConsumerState::Terminated,
                Action::Stop,
                Report::TransportFailed,
            ),
            StreamEvent::SensorFound(key) => {
                let row = persisted_reading(id, key, &reading);
                let pending = row.duplicate();
                (
                    ConsumerState::Processing(Stage::Writing(pending)),
                    Action::Insert(row),
                    Report::Resolved(key),
                )
            },
            StreamEvent::SensorMissing => (
                ConsumerState::Idle,
                Action::Discard(Discarded::Reading(reading)),
                Report::UnknownSensor,
            ),
            StreamEvent::LookupFailed => (
                ConsumerState::Idle,
                Action::Discard(Discarded::Reading(reading)),
                Report::LookupFailed,
            ),
            _ => (
                ConsumerState::Processing(Stage::Resolving(reading)),
                Action::Wait,
                Report::Ignored,
            ),
        },
        ConsumerState::Processing(Stage::Writing(row)) => match event {
            StreamEvent::TransportFailed => (
                ConsumerState::Terminated,
                Action::Stop,
                Report::TransportFailed,
            ),
            StreamEvent::Written => (ConsumerState::Idle, Action::Receive, Report::Persisted),
            StreamEvent::WriteFailed => (
                ConsumerState::Idle,
                Action::Discard(Discarded::Row(row)),
                Report::WriteFailed,
            ),
            _ => (ConsumerState::Processing(Stage::Writing(row)), Action::Wait, Report::Ignored),
        },
    }
}

/// Claims a reading: the lookup of its sensor is asked for.
fn claim(reading: NormalisedReading, defaults: Defaulted) -> (r: (ConsumerState, Action, Report))
    ensures
        step_model(r) == (
            StateModel::Processing(StageModel::Resolving(reading@)),
            ActionModel::Lookup {
                identifier: reading@.identifier,
                measuring: reading@.measuring,
            },
            Report::Accepted(defaults),
        ),
{
    let action = Action::Lookup {
        identifier: reading.identifier.clone(),
        measuring: reading.measuring.clone(),
    };
    (ConsumerState::Processing(Stage::Resolving(reading)), action, Report::Accepted(defaults))
}

/// Takes one step of the consumer loop. The clock is read only where a
/// document is claimed whose timestamp is no valid date, and a fresh identifier
/// is drawn only where a row is to be written; the step is then the one that
/// [`next`] gives for some instant and for that identifier.
pub fn advance(state: ConsumerState, event: StreamEvent) -> (r: (ConsumerState, Action, Report))
    ensures
        exists|now: Timestamp, id: u128| step_model(r) == #[trigger] next(state@, event@, now, id),
        r.1 matches Action::Insert(row) ==> is_random_id(row.id),
{
    let ghost before = state@;
    let ghost seen = event@;
    let epoch = Timestamp { seconds: 0, nanos: 0 };
    match state {
        ConsumerState::Idle => match event {
            StreamEvent::Message { document: Some(doc), numeric } => {
                let stamp = read_timestamp(&doc);
                let now = match stamp {
                    Some(t) => t,
                    None => read_clock(),
                };
                let reading = normalise_with(&doc, numeric, stamp, now);
                let r = claim(reading, defaults_applied(&doc, stamp));
                assert(step_model(r) == next(before, seen, now, 0));
                r
            },
            other => {
                let r = transition(ConsumerState::Idle, other, epoch, 0);
                assert(step_model(r) == next(before, seen, epoch, 0));
                r
            },
        },
        ConsumerState::Processing(Stage::Resolving(reading)) => match event {
            StreamEvent::SensorFound(key) => {
                let id = draw_id();
                let r = transition(
                    ConsumerState::Processing(Stage::Resolving(reading)),
                    StreamEvent::SensorFound(key),
                    epoch,
                    id,
                );
                assert(step_model(r) == next(before, seen, epoch, id));
                r
            },
            other => {
                let r = transition(
                    ConsumerState::Processing(Stage::Resolving(reading)),
                    other,
                    epoch,
                    0,
                );
                assert(step_model(r) == next(before, seen, epoch, 0));
                r
            },
        },
        other => {
            let r = transition(other, event, epoch, 0);
            assert(step_model(r) == next(before, seen, epoch, 0));
            r
        },
    }
}

/// Once the loop has terminated, no event brings it back.
pub proof fn lemma_terminated_is_final(event: EventModel, now: Timestamp, id: u128)
    ensures
        next(StateModel::Terminated, event, now, id) == (
            StateModel::Terminated,
            ActionModel::Stop,
            Report::Ignored,
        ),
{
}

/// A failure of the stream ends the loop from every state but the terminated
/// one, and nothing else ends it.
pub proof fn lemma_only_transport_failure_terminates(
    state: StateModel,
    event: EventModel,
    now: Timestamp,
    id: u128,
)
    requires
        state != StateModel::Terminated,
    ensures
        next(state, event, now, id).0 == StateModel::Terminated <==> event
            == EventModel::TransportFailed,
        event == EventModel::TransportFailed ==> next(state, event, now, id) == halted(),
{
}

/// Whatever becomes of a message, the loop returns to idle and turns to the
/// next one: after a payload that is no document, a missing sensor, a failed
/// lookup, a stored row and a failed write alike. What is dropped on the way is
/// handed back.
pub proof fn lemma_every_outcome_returns_to_idle(
    reading: ReadingModel,
    row: PersistedModel,
    numeric: Option<u64>,
    now: Timestamp,
    id: u128,
)
    ensures
        next(StateModel::Idle, EventModel::Message { document: None, numeric }, now, id)
            == released(Report::Malformed),
        next(
            StateModel::Processing(StageModel::Resolving(reading)),
            EventModel::SensorMissing,
            now,
            id,
        ) == dropped(DiscardedModel::Reading(reading), Report::UnknownSensor),
        next(
            StateModel::Processing(StageModel::Resolving(reading)),
            EventModel::LookupFailed,
            now,
            id,
        ) == dropped(DiscardedModel::Reading(reading), Report::LookupFailed),
        next(StateModel::Processing(StageModel::Writing(row)), EventModel::Written, now, id)
            == released(Report::Persisted),
        next(StateModel::Processing(StageModel::Writing(row)), EventModel::WriteFailed, now, id)
            == dropped(DiscardedModel::Row(row), Report::WriteFailed),
{
}

/// Every lookup asks for a sensor by two names, neither of them empty.
pub proof fn lemma_lookups_are_named(
    state: StateModel,
    event: EventModel,
    now: Timestamp,
    id: u128,
)
    ensures
        next(state, event, now, id).1 matches ActionModel::Lookup { identifier, measuring }
            ==> identifier.len() > 0 && measuring.len() > 0,
{
    match (state, event) {
        (StateModel::Idle, EventModel::Message { document: Some(doc), numeric }) => {
            lemma_names_are_not_empty(doc, numeric, instant_of(timestamp_text(doc)), now);
        },
        _ => {},
    }
}

/// While one message is on its way, no other is claimed: a message that
/// arrives then changes nothing.
pub proof fn lemma_one_message_at_a_time(
    stage: StageModel,
    document: Option<JsonModel>,
    numeric: Option<u64>,
    now: Timestamp,
    id: u128,
)
    ensures
        next(StateModel::Processing(stage), EventModel::Message { document, numeric }, now, id)
            == (StateModel::Processing(stage), ActionModel::Wait, Report::Ignored),
{
}

/// A row is written only for a reading whose sensor was found, and it is the
/// row of that reading, tied to that sensor, under the identifier of the step.
pub proof fn lemma_rows_come_from_found_sensors(
    state: StateModel,
    event: EventModel,
    now: Timestamp,
    id: u128,
)
    ensures
        next(state, event, now, id).1 matches ActionModel::Insert(row) ==> {
            &&& state matches StateModel::Processing(StageModel::Resolving(reading))
            &&& event matches EventModel::SensorFound(key)
            &&& row == persisted(id, key, reading)
            &&& next(state, event, now, id).0 == StateModel::Processing(StageModel::Writing(row))
        },
{
}

/// The row that a document leads to once its sensor is found under `key`, where
/// the document is claimed at `now` and the row stored under `id`.
pub open spec fn row_for(
    doc: JsonModel,
    numeric: Option<u64>,
    key: SensorKey,
    now: Timestamp,
    id: u128,
) -> ActionModel {
    next(
        next(StateModel::Idle, EventModel::Message { document: Some(doc), numeric }, now, id).0,
        EventModel::SensorFound(key),
        now,
        id,
    ).1
}

/// A message that is delivered twice is written twice: the two rows have the
/// same content and are told apart by their identifiers alone. This holds of
/// every document that carries a valid timestamp; one that carries none takes
/// its timestamp from the clock, so its two rows agree only where the clock
/// was read at the same instant.
pub proof fn lemma_redelivery_writes_the_same_content(
    doc: JsonModel,
    numeric: Option<u64>,
    key: SensorKey,
    first_now: Timestamp,
    first_id: u128,
    second_now: Timestamp,
    second_id: u128,
)
    requires
        instant_of(timestamp_text(doc)) is Some || first_now == second_now,
    ensures
        row_for(doc, numeric, key, first_now, first_id) matches ActionModel::Insert(first)
            && row_for(doc, numeric, key, second_now, second_id) matches ActionModel::Insert(
            second,
        ) && first.same_content(second) && first.id == first_id && second.id == second_id && (first
            == second <==> first_id == second_id),
{
}

} // verus!
