//! The asynchronous read engine: a state machine that drives a single
//! read-to-completion operation against a binary object.
//!
//! The host runtime performs the actual read and fires a one-shot "loadend"
//! notification; the engine here makes every decision. Starting a read
//! registers the one-shot listener and moves to `Reading`; the completion
//! notification is inspected exactly once and converted into a typed
//! outcome, to be handed to the caller's callback; discarding the handle
//! mid-flight tears the operation down in a fixed order — deregister the
//! listener first, then abort the host reader — so that the abort cannot
//! fire the very notification the listener would still handle.

use vstd::prelude::*;

use crate::blob::BlobLike;

verus! {

/// The host reported an exception while performing a read. Carried to the
/// caller as part of the read outcome, never thrown.
#[derive(Clone, PartialEq, Eq, Debug)]
pub struct FileReadError {
    message: String,
}

impl FileReadError {
    /// The host exception's human-readable message.
    pub closed spec fn spec_message(&self) -> Seq<char> {
        self.message@
    }

    /// Wraps the message the host reported for the failed read.
    pub fn new(message: String) -> (r: FileReadError)
        ensures
            r.spec_message() == message@,
    {
        FileReadError { message }
    }

    /// The host exception's message, for display.
    pub fn message(&self) -> (r: String)
        ensures
            r@ == self.spec_message(),
    {
        self.message.clone()
    }
}

/// The requested interpretation of the read bytes.
#[derive(Clone, Copy, PartialEq, Eq, Debug)]
pub enum ReadMode {
    /// Decode the bytes as text.
    Text,
    /// Encode the bytes as a data URL string.
    DataUrl,
    /// Hand the bytes back as a raw buffer.
    ArrayBuffer,
}

/// Where a single read operation stands.
#[derive(Clone, Copy, PartialEq, Eq, Debug)]
pub enum ReaderState {
    /// A reader exists but no read was issued yet; a returned handle is
    /// never in this state, since starting a read issues the request at
    /// once.
    Idle,
    /// The read was issued and the one-shot completion listener is
    /// registered.
    Reading,
    /// The completion notification fired with a decoded result. Terminal.
    Completed,
    /// The completion notification fired with a host-reported error.
    /// Terminal.
    Errored,
    /// The handle was discarded mid-flight and the operation torn down.
    /// Terminal.
    Aborted,
}

/// The raw decoded value found in the host reader's result slot.
#[derive(Clone, PartialEq, Eq, Debug)]
pub enum RawValue {
    /// A host string: what a text or data-URL read leaves behind.
    Str(String),
    /// A host buffer: what an array-buffer read leaves behind.
    Bytes(Vec<u8>),
}

/// A decoded result, typed by the decode mode that was requested.
#[derive(Clone, PartialEq, Eq, Debug)]
pub enum ReadValue {
    /// The bytes decoded as text.
    Text(String),
    /// The bytes encoded as a data URL.
    DataUrl(String),
    /// The raw bytes.
    ArrayBuffer(Vec<u8>),
}

/// One step of the teardown that runs when a handle is discarded
/// mid-flight.
#[derive(Clone, Copy, PartialEq, Eq, Debug)]
pub enum TeardownStep {
    /// Remove the one-shot completion listener.
    DeregisterListener,
    /// Tell the host reader to abort the read.
    AbortRead,
}

/// Whether the raw host value has the shape the decode mode expects: a
/// string for text and data-URL reads, a buffer for array-buffer reads.
pub open spec fn raw_matches_mode(value: RawValue, mode: ReadMode) -> bool {
    match mode {
        ReadMode::Text => value is Str,
        ReadMode::DataUrl => value is Str,
        ReadMode::ArrayBuffer => value is Bytes,
    }
}

/// The typed result that a raw host value of the expected shape yields under
/// a decode mode.
pub open spec fn coerce_raw(mode: ReadMode, value: RawValue) -> ReadValue
    recommends
        raw_matches_mode(value, mode),
{
    match (mode, value) {
        (ReadMode::Text, RawValue::Str(s)) => ReadValue::Text(s),
        (ReadMode::DataUrl, RawValue::Str(s)) => ReadValue::DataUrl(s),
        (ReadMode::ArrayBuffer, RawValue::Bytes(b)) => ReadValue::ArrayBuffer(b),
        _ => arbitrary(),
    }
}

/// Whether a completion notification arriving in `state` delivers an outcome
/// to the caller's callback: it does exactly while the read is in flight.
pub open spec fn delivers(state: ReaderState) -> bool {
    state is Reading
}

/// The state a completion notification leaves the engine in: a read in
/// flight ends `Errored` when the host reported an error and `Completed`
/// otherwise; every other state is left untouched.
pub open spec fn loadend_next(state: ReaderState, failed: bool) -> ReaderState {
    if state is Reading {
        if failed {
            ReaderState::Errored
        } else {
            ReaderState::Completed
        }
    } else {
        state
    }
}

/// The state a teardown leaves the engine in: a read in flight is aborted;
/// every other state is left untouched.
pub open spec fn teardown_next(state: ReaderState) -> ReaderState {
    if state is Reading {
        ReaderState::Aborted
    } else {
        state
    }
}

/// Inspects the host reader's slots after the completion notification: an
/// occupied error slot wins; otherwise the result slot, which the host
/// guarantees to be filled, is the outcome.
fn get_result(error: Option<FileReadError>, value: Option<RawValue>) -> (r: Result<
    RawValue,
    FileReadError,
>)
    requires
        error is None ==> value is Some,
    ensures
        error matches Some(e) ==> r == Err::<RawValue, FileReadError>(e),
        value matches Some(v) ==> (error is None ==> r == Ok::<RawValue, FileReadError>(v)),
{
    match error {
        Some(e) => Err(e),
        None => match value {
            Some(v) => Ok(v),
            None => unreached(),
        },
    }
}

/// Coerces a host string value to the string it holds; the host guarantees
/// the shape, so any other value cannot reach this point.
fn as_string(value: RawValue) -> (r: String)
    requires
        value is Str,
    ensures
        value matches RawValue::Str(s) ==> r == s,
{
    match value {
        RawValue::Str(s) => s,
        RawValue::Bytes(_) => unreached(),
    }
}

/// A handle on one in-flight (or finished) read operation.
///
/// The caller must keep the handle alive for the read to complete:
/// discarding it early must run `teardown`, which cancels the operation.
/// The host's completion notification is handed to `on_loadend`, whose
/// returned outcome — present exactly once over the handle's life — is what
/// the caller's callback receives.
pub struct FileReader {
    state: ReaderState,
    mode: ReadMode,
    listener_registered: bool,
    subject_size: Ghost<u64>,
}

impl FileReader {
    /// Where this operation stands.
    pub closed spec fn spec_state(&self) -> ReaderState {
        self.state
    }

    /// The decode mode the read was issued with.
    pub closed spec fn spec_mode(&self) -> ReadMode {
        self.mode
    }

    /// Whether the one-shot completion listener is currently registered.
    pub closed spec fn spec_listener_registered(&self) -> bool {
        self.listener_registered
    }

    /// The reported byte length of the binary object the read was issued
    /// against.
    pub closed spec fn spec_subject_size(&self) -> u64 {
        self.subject_size@
    }

    /// The one-shot listener is registered exactly while the read is in
    /// flight: it self-removes on firing, and teardown removes it before
    /// aborting.
    pub open spec fn wf(&self) -> bool {
        self.spec_listener_registered() <==> self.spec_state() is Reading
    }

    /// Where this operation stands, as a value.
    pub fn state(&self) -> (r: ReaderState)
        ensures
            r == self.spec_state(),
    {
        self.state
    }

    /// Decides what the completion notification amounts to, exactly once.
    ///
    /// `error` and `value` are the host reader's error and result slots at
    /// the moment the notification fired. While the read is in flight the
    /// call delivers the typed outcome for the caller's callback and moves
    /// to the terminal `Completed` or `Errored` state, the one-shot listener
    /// having removed itself. In any other state — in particular after a
    /// teardown — nothing is delivered and nothing changes.
    pub fn on_loadend(&mut self, error: Option<FileReadError>, value: Option<RawValue>) -> (r:
        Option<Result<ReadValue, FileReadError>>)
        requires
            old(self).wf(),
            delivers(old(self).spec_state()) && error is None ==> (value matches Some(v)
                && raw_matches_mode(v, old(self).spec_mode())),
        ensures
            final(self).wf(),
            final(self).spec_mode() == old(self).spec_mode(),
            final(self).spec_subject_size() == old(self).spec_subject_size(),
            final(self).spec_state() == loadend_next(old(self).spec_state(), error is Some),
            r is Some <==> delivers(old(self).spec_state()),
            error matches Some(e) ==> (delivers(old(self).spec_state()) ==> r == Some(
                Err::<ReadValue, FileReadError>(e),
            )),
            value matches Some(v) ==> (delivers(old(self).spec_state()) && error is None ==> r
                == Some(Ok::<ReadValue, FileReadError>(coerce_raw(old(self).spec_mode(), v)))),
            !delivers(old(self).spec_state()) ==> r is None && *final(self) == *old(self),
    {
        match self.state {
            ReaderState::Reading => {
                self.listener_registered = false;
                match get_result(error, value) {
                    Err(e) => {
                        self.state = ReaderState::Errored;
                        Some(Err(e))
                    },
                    Ok(raw) => {
                        self.state = ReaderState::Completed;
                        let typed = match self.mode {
                            ReadMode::Text => ReadValue::Text(as_string(raw)),
                            ReadMode::DataUrl => ReadValue::DataUrl(as_string(raw)),
                            ReadMode::ArrayBuffer => match raw {
                                RawValue::Bytes(b) => ReadValue::ArrayBuffer(b),
                                RawValue::Str(_) => unreached(),
                            },
                        };
                        Some(Ok(typed))
                    },
                }
            },
            _ => None,
        }
    }

    /// Tears the operation down when the handle's life ends.
    ///
    /// While the read is still in flight this returns the steps the host
    /// edge must perform, in the only safe order: deregister the one-shot
    /// listener first, then abort the host reader — aborting first would
    /// fire the very notification the listener still handles. In a terminal
    /// state the teardown is a no-op: the listener already removed itself
    /// and the reader needs no abort.
    pub fn teardown(&mut self) -> (steps: Vec<TeardownStep>)
        requires
            old(self).wf(),
        ensures
            final(self).wf(),
            final(self).spec_mode() == old(self).spec_mode(),
            final(self).spec_subject_size() == old(self).spec_subject_size(),
            final(self).spec_state() == teardown_next(old(self).spec_state()),
            delivers(old(self).spec_state()) ==> steps@ =~= seq![
                TeardownStep::DeregisterListener,
                TeardownStep::AbortRead,
            ],
            !delivers(old(self).spec_state()) ==> steps@ =~= Seq::<TeardownStep>::empty()
                && *final(self) == *old(self),
    {
        match self.state {
            ReaderState::Reading => {
                self.listener_registered = false;
                self.state = ReaderState::Aborted;
                let mut steps: Vec<TeardownStep> = Vec::new();
                steps.push(TeardownStep::DeregisterListener);
                steps.push(TeardownStep::AbortRead);
                steps
            },
            _ => Vec::new(),
        }
    }
}

/// Allocates the engine for one read operation: the one-shot completion
/// listener is registered and the read request is issued at once, so the
/// returned handle is already `Reading`.
fn read_as(mode: ReadMode, subject_size: Ghost<u64>) -> (r: FileReader)
    ensures
        r.wf(),
        r.spec_state() is Reading,
        r.spec_mode() == mode,
        r.spec_subject_size() == subject_size@,
{
    FileReader { state: ReaderState::Reading, mode, listener_registered: true, subject_size }
}

/// Starts a read-as-text operation against a binary object: the host edge
/// registers the one-shot listener and issues the text read immediately,
/// and the caller's callback will receive the decoded text exactly once,
/// through `on_loadend`, unless the handle is torn down first.
pub fn read_to_string<B: BlobLike>(blob: &B) -> (r: FileReader)
    ensures
        r.wf(),
        r.spec_state() is Reading,
        r.spec_mode() is Text,
        r.spec_subject_size() == blob.spec_size(),
{
    read_as(ReadMode::Text, Ghost(blob.spec_size()))
}

/// Starts a read-as-data-URL operation against a binary object, under the
/// same contract as `read_to_string` but delivering a data-URL string.
pub fn read_to_data_url<B: BlobLike>(blob: &B) -> (r: FileReader)
    ensures
        r.wf(),
        r.spec_state() is Reading,
        r.spec_mode() is DataUrl,
        r.spec_subject_size() == blob.spec_size(),
{
    read_as(ReadMode::DataUrl, Ghost(blob.spec_size()))
}

/// Starts a read-as-array-buffer operation against a binary object, under
/// the same contract as `read_to_string` but delivering the raw bytes.
pub fn read_to_array_buffer<B: BlobLike>(blob: &B) -> (r: FileReader)
    ensures
        r.wf(),
        r.spec_state() is Reading,
        r.spec_mode() is ArrayBuffer,
        r.spec_subject_size() == blob.spec_size(),
{
    read_as(ReadMode::ArrayBuffer, Ghost(blob.spec_size()))
}

/// Anything the host edge can throw at an engine over its life: a
/// completion notification (handled by `on_loadend`) or the discard of the
/// handle (handled by `teardown`).
#[derive(Clone, Copy, PartialEq, Eq, Debug)]
pub enum EngineEvent {
    /// The host's "loadend" notification fired, with or without an error in
    /// the reader's error slot.
    Notification { failed: bool },
    /// The handle's life ended.
    Discard,
}

/// The state an event leaves the engine in.
pub open spec fn next_state(state: ReaderState, event: EngineEvent) -> ReaderState {
    match event {
        EngineEvent::Notification { failed } => loadend_next(state, failed),
        EngineEvent::Discard => teardown_next(state),
    }
}

/// Whether an event arriving in `state` delivers an outcome to the caller's
/// callback: only a notification can, and only while the read is in flight.
pub open spec fn event_delivers(state: ReaderState, event: EngineEvent) -> bool {
    event is Notification && delivers(state)
}

/// How many outcomes a sequence of events, played from `state`, delivers in
/// all.
pub open spec fn count_deliveries(state: ReaderState, events: Seq<EngineEvent>) -> nat
    decreases events.len(),
{
    if events.len() == 0 {
        0
    } else {
        (if event_delivers(state, events[0]) {
            1nat
        } else {
            0nat
        }) + count_deliveries(next_state(state, events[0]), events.skip(1))
    }
}

/// An engine that is no longer reading delivers nothing, ever: no sequence
/// of notifications and discards can make its callback run.
pub proof fn lemma_no_delivery_once_settled(state: ReaderState, events: Seq<EngineEvent>)
    requires
        !delivers(state),
    ensures
        count_deliveries(state, events) == 0,
    decreases events.len(),
{
    if events.len() > 0 {
        lemma_no_delivery_once_settled(next_state(state, events[0]), events.skip(1));
    }
}

/// The callback is invoked at most once, full stop: from any starting state,
/// any sequence of completion notifications and discards, in any order,
/// delivers at most one outcome.
pub proof fn lemma_at_most_one_delivery_ever(state: ReaderState, events: Seq<EngineEvent>)
    ensures
        count_deliveries(state, events) <= 1,
    decreases events.len(),
{
    if events.len() > 0 {
        let after = next_state(state, events[0]);
        if event_delivers(state, events[0]) {
            lemma_no_delivery_once_settled(after, events.skip(1));
        } else {
            lemma_at_most_one_delivery_ever(after, events.skip(1));
        }
    }
}

/// An outcome was delivered at most once: after a completion notification
/// resolves a read, no later notification finds the engine reading again,
/// whatever the two notifications reported.
pub proof fn lemma_at_most_once_delivery(state: ReaderState, failed: bool)
    requires
        delivers(state),
    ensures
        !delivers(loadend_next(state, failed)),
{
}

/// A handle discarded before the notification fired never delivers: after a
/// teardown — from any state at all — no completion notification delivers
/// an outcome, so the caller's callback can never run.
pub proof fn lemma_no_delivery_after_teardown(state: ReaderState)
    ensures
        !delivers(teardown_next(state)),
{
}

/// The three post-reading states are terminal and mutually exclusive: once
/// the engine has completed, errored or aborted, neither a completion
/// notification nor a teardown moves it again.
pub proof fn lemma_terminal_states_stable(state: ReaderState, failed: bool)
    requires
        state is Completed || state is Errored || state is Aborted,
    ensures
        loadend_next(state, failed) == state,
        teardown_next(state) == state,
{
}

} // verus!
