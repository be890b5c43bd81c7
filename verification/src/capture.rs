//! The one-shot exchange that carries a viewport capture from the UI
//! thread back to the caller that asked for it.
//!
//! A capture is dispatched once, and the caller then waits a bounded time
//! for exactly one outcome. [`CaptureState`] is the state of one such
//! exchange and [`CaptureState::advance`] its transition function; the
//! caller feeds it what happened (the dispatch was accepted or rejected, an
//! outcome arrived, the wait ran out) and reads the result off the state.

use vstd::prelude::*;
use vstd::string::StringExecFns;

verus! {

/// How long, in seconds, a caller waits for the outcome of a capture.
pub const CAPTURE_TIMEOUT_SECS: u64 = 10;

/// An encoded image of what a web-view showed.
#[derive(Debug)]
pub struct Screenshot {
    /// The compressed image.
    pub data: Vec<u8>,
}

/// Why a capture produced no screenshot.
#[derive(Debug)]
pub enum ScreenshotError {
    /// A step of the capture failed; the text names the step and the cause.
    CaptureFailed(String),
    /// No outcome arrived within the bound.
    Timeout,
    /// The platform has no capture implementation.
    PlatformUnsupported,
}

/// A [`ScreenshotError`] as a mathematical value.
pub enum ScreenshotErrorSpec {
    CaptureFailed(Seq<char>),
    Timeout,
    PlatformUnsupported,
}

impl View for ScreenshotError {
    type V = ScreenshotErrorSpec;

    open spec fn view(&self) -> ScreenshotErrorSpec {
        match self {
            ScreenshotError::CaptureFailed(reason) => ScreenshotErrorSpec::CaptureFailed(reason@),
            ScreenshotError::Timeout => ScreenshotErrorSpec::Timeout,
            ScreenshotError::PlatformUnsupported => ScreenshotErrorSpec::PlatformUnsupported,
        }
    }
}

/// The outcome of a capture as a mathematical value: the bytes of the
/// image, or the error.
pub type OutcomeSpec = Result<Seq<u8>, ScreenshotErrorSpec>;

/// The outcome of a capture as a mathematical value.
pub open spec fn outcome_view(outcome: Result<Screenshot, ScreenshotError>) -> OutcomeSpec {
    match outcome {
        Ok(screenshot) => Ok(screenshot.data@),
        Err(error) => Err(error@),
    }
}

/// The state of one capture exchange.
#[derive(Debug)]
pub enum CaptureState {
    /// Nothing has been dispatched yet.
    Idle,
    /// The work is on its way to the UI thread, and the caller waits.
    Dispatched,
    /// The exchange has ended with this outcome.
    Completed(Result<Screenshot, ScreenshotError>),
    /// The wait ran out before an outcome arrived.
    TimedOut,
}

/// What can happen to a capture exchange.
#[derive(Debug)]
pub enum CaptureEvent {
    /// The platform has no capture implementation.
    NoBackend,
    /// The UI thread accepted the work.
    DispatchAccepted,
    /// The work could not be scheduled; the cause is given.
    DispatchRejected(String),
    /// The UI thread sent this outcome.
    Delivered(Result<Screenshot, ScreenshotError>),
    /// The bound of the wait was reached.
    WaitExpired,
}

/// A [`CaptureState`] as a mathematical value.
pub enum CaptureStateSpec {
    Idle,
    Dispatched,
    Completed(OutcomeSpec),
    TimedOut,
}

/// A [`CaptureEvent`] as a mathematical value.
pub enum CaptureEventSpec {
    NoBackend,
    DispatchAccepted,
    DispatchRejected(Seq<char>),
    Delivered(OutcomeSpec),
    WaitExpired,
}

impl View for CaptureState {
    type V = CaptureStateSpec;

    open spec fn view(&self) -> CaptureStateSpec {
        match self {
            CaptureState::Idle => CaptureStateSpec::Idle,
            CaptureState::Dispatched => CaptureStateSpec::Dispatched,
            CaptureState::Completed(outcome) => CaptureStateSpec::Completed(outcome_view(*outcome)),
            CaptureState::TimedOut => CaptureStateSpec::TimedOut,
        }
    }
}

impl View for CaptureEvent {
    type V = CaptureEventSpec;

    open spec fn view(&self) -> CaptureEventSpec {
        match self {
            CaptureEvent::NoBackend => CaptureEventSpec::NoBackend,
            CaptureEvent::DispatchAccepted => CaptureEventSpec::DispatchAccepted,
            CaptureEvent::DispatchRejected(cause) => CaptureEventSpec::DispatchRejected(cause@),
            CaptureEvent::Delivered(outcome) => CaptureEventSpec::Delivered(outcome_view(*outcome)),
            CaptureEvent::WaitExpired => CaptureEventSpec::WaitExpired,
        }
    }
}

/// The reason given where the work could not be scheduled for `cause`.
pub open spec fn dispatch_failure_text(cause: Seq<char>) -> Seq<char> {
    "Failed to access webview: "@ + cause
}

/// The transition function of a capture exchange. `Idle` is left by the
/// answer to the dispatch, `Dispatched` by the first of an outcome and the
/// end of the wait; every other pair of state and event changes nothing.
pub open spec fn next_state(state: CaptureStateSpec, event: CaptureEventSpec) -> CaptureStateSpec {
    match (state, event) {
        (CaptureStateSpec::Idle, CaptureEventSpec::NoBackend) => CaptureStateSpec::Completed(
            Err(ScreenshotErrorSpec::PlatformUnsupported),
        ),
        (CaptureStateSpec::Idle, CaptureEventSpec::DispatchAccepted) => CaptureStateSpec::Dispatched,
        (CaptureStateSpec::Idle, CaptureEventSpec::DispatchRejected(cause)) => {
            CaptureStateSpec::Completed(
                Err(ScreenshotErrorSpec::CaptureFailed(dispatch_failure_text(cause))),
            )
        },
        (CaptureStateSpec::Dispatched, CaptureEventSpec::Delivered(outcome)) => {
            CaptureStateSpec::Completed(outcome)
        },
        (CaptureStateSpec::Dispatched, CaptureEventSpec::WaitExpired) => CaptureStateSpec::TimedOut,
        _ => state,
    }
}

/// What the caller gets in a state: nothing yet before the exchange has
/// ended, then the outcome that arrived, or `Timeout`.
pub open spec fn result_in(state: CaptureStateSpec) -> Option<OutcomeSpec> {
    match state {
        CaptureStateSpec::Idle => None,
        CaptureStateSpec::Dispatched => None,
        CaptureStateSpec::Completed(outcome) => Some(outcome),
        CaptureStateSpec::TimedOut => Some(Err(ScreenshotErrorSpec::Timeout)),
    }
}

/// Whether the exchange has ended in `state`.
pub open spec fn is_terminal(state: CaptureStateSpec) -> bool {
    state is Completed || state is TimedOut
}

/// The state that a run of events leads to from `state`.
pub open spec fn state_after(state: CaptureStateSpec, events: Seq<CaptureEventSpec>) -> CaptureStateSpec
    decreases events.len(),
{
    if events.len() == 0 {
        state
    } else {
        state_after(next_state(state, events.first()), events.drop_first())
    }
}

impl CaptureState {
    /// The state of an exchange that has not begun.
    pub fn new() -> (state: CaptureState)
        ensures
            state == CaptureState::Idle,
    {
        CaptureState::Idle
    }

    /// Whether the caller is to wait for an outcome in this state.
    pub fn is_waiting(&self) -> (waiting: bool)
        ensures
            waiting == (self is Dispatched),
    {
        match self {
            CaptureState::Dispatched => true,
            _ => false,
        }
    }

    /// The state after `event`. An outcome that arrives while the caller
    /// waits is kept as it is.
    pub fn advance(self, event: CaptureEvent) -> (next: CaptureState)
        ensures
            next@ == next_state(self@, event@),
            (self is Dispatched && event is Delivered) ==> next == CaptureState::Completed(
                event->Delivered_0,
            ),
            !(self is Idle || (self is Dispatched && (event is Delivered || event is WaitExpired)))
                ==> next == self,
    {
        match self {
            CaptureState::Idle => match event {
                CaptureEvent::NoBackend => CaptureState::Completed(
                    Err(ScreenshotError::PlatformUnsupported),
                ),
                CaptureEvent::DispatchAccepted => CaptureState::Dispatched,
                CaptureEvent::DispatchRejected(cause) => {
                    let mut reason = "Failed to access webview: ".to_owned();
                    reason.append(cause.as_str());
                    CaptureState::Completed(Err(ScreenshotError::CaptureFailed(reason)))
                },
                CaptureEvent::Delivered(_) => CaptureState::Idle,
                CaptureEvent::WaitExpired => CaptureState::Idle,
            },
            CaptureState::Dispatched => match event {
                CaptureEvent::Delivered(outcome) => CaptureState::Completed(outcome),
                CaptureEvent::WaitExpired => CaptureState::TimedOut,
                _ => CaptureState::Dispatched,
            },
            CaptureState::Completed(outcome) => CaptureState::Completed(outcome),
            CaptureState::TimedOut => CaptureState::TimedOut,
        }
    }

    /// What the caller returns: `None` while the exchange has not ended,
    /// then the outcome that arrived, as it is, or `Timeout`.
    pub fn into_result(self) -> (result: Option<Result<Screenshot, ScreenshotError>>)
        ensures
            match self {
                CaptureState::Idle => result is None,
                CaptureState::Dispatched => result is None,
                CaptureState::Completed(outcome) => result == Some(outcome),
                CaptureState::TimedOut => result == Some(
                    Err::<Screenshot, ScreenshotError>(ScreenshotError::Timeout),
                ),
            },
            match result {
                Some(outcome) => result_in(self@) == Some(outcome_view(outcome)),
                None => result_in(self@) is None,
            },
    {
        match self {
            CaptureState::Idle => None,
            CaptureState::Dispatched => None,
            CaptureState::Completed(outcome) => Some(outcome),
            CaptureState::TimedOut => Some(Err(ScreenshotError::Timeout)),
        }
    }
}

/// The text of one decimal digit.
pub open spec fn digit_text(digit: nat) -> Seq<char> {
    if digit == 0 {
        "0"@
    } else if digit == 1 {
        "1"@
    } else if digit == 2 {
        "2"@
    } else if digit == 3 {
        "3"@
    } else if digit == 4 {
        "4"@
    } else if digit == 5 {
        "5"@
    } else if digit == 6 {
        "6"@
    } else if digit == 7 {
        "7"@
    } else if digit == 8 {
        "8"@
    } else {
        "9"@
    }
}

/// A natural number in decimal, without leading zeros.
pub open spec fn natural_text(number: nat) -> Seq<char>
    decreases number,
{
    if number < 10 {
        digit_text(number)
    } else {
        natural_text(number / 10) + digit_text(number % 10)
    }
}

/// An integer in decimal, with a minus sign where it is negative.
pub open spec fn decimal_text(number: int) -> Seq<char> {
    if number < 0 {
        "-"@ + natural_text((-number) as nat)
    } else {
        natural_text(number as nat)
    }
}

/// The reason given for a failed step: what the step was about, then the
/// cause.
pub open spec fn failure_text(context: Seq<char>, cause: Seq<char>) -> Seq<char> {
    context + ": "@ + cause
}

/// The reason given for a web-view that has no area to draw.
pub open spec fn invalid_dimensions_text(width: int, height: int) -> Seq<char> {
    "Invalid WebView dimensions: "@ + decimal_text(width) + "x"@ + decimal_text(height)
}

/// A signed byte read as the unsigned byte with the same bits.
pub open spec fn unsigned_byte(byte: i8) -> u8 {
    if byte >= 0 {
        byte as u8
    } else {
        (byte + 256) as u8
    }
}

/// The text of one decimal digit.
fn digit(value: u32) -> (text: &'static str)
    requires
        value < 10,
    ensures
        text@ == digit_text(value as nat),
{
    if value == 0 {
        "0"
    } else if value == 1 {
        "1"
    } else if value == 2 {
        "2"
    } else if value == 3 {
        "3"
    } else if value == 4 {
        "4"
    } else if value == 5 {
        "5"
    } else if value == 6 {
        "6"
    } else if value == 7 {
        "7"
    } else if value == 8 {
        "8"
    } else {
        "9"
    }
}

/// Appends a natural number in decimal to `text`.
fn append_natural(text: &mut String, number: u32)
    ensures
        final(text)@ == old(text)@ + natural_text(number as nat),
    decreases number,
{
    if number >= 10 {
        append_natural(text, number / 10);
    }
    text.append(digit(number % 10));
}

/// Writes an integer in decimal.
pub fn decimal(number: i32) -> (text: String)
    ensures
        text@ == decimal_text(number as int),
{
    let mut text = String::new();
    if number < 0 {
        text.append("-");
        let magnitude: u32 = (-(number as i64)) as u32;
        append_natural(&mut text, magnitude);
    } else {
        append_natural(&mut text, number as u32);
    }
    text
}

/// The failure of the step that `context` describes, for the cause `cause`.
pub fn capture_failed(context: &str, cause: &str) -> (error: ScreenshotError)
    ensures
        error@ == ScreenshotErrorSpec::CaptureFailed(failure_text(context@, cause@)),
{
    let mut reason = context.to_owned();
    reason.append(": ");
    reason.append(cause);
    ScreenshotError::CaptureFailed(reason)
}

/// Accepts the dimensions of a web-view where both are positive, and fails
/// the capture where one is not.
pub fn check_dimensions(width: i32, height: i32) -> (checked: Result<(), ScreenshotError>)
    ensures
        checked is Ok <==> (width > 0 && height > 0),
        checked matches Err(error) ==> error@ == ScreenshotErrorSpec::CaptureFailed(
            invalid_dimensions_text(width as int, height as int),
        ),
{
    if width <= 0 || height <= 0 {
        let mut reason = "Invalid WebView dimensions: ".to_owned();
        reason.append(decimal(width).as_str());
        reason.append("x");
        reason.append(decimal(height).as_str());
        Err(ScreenshotError::CaptureFailed(reason))
    } else {
        Ok(())
    }
}

/// Reads signed bytes, as Java hands them out, as the unsigned bytes with
/// the same bits.
pub fn unsigned_bytes(signed: &Vec<i8>) -> (bytes: Vec<u8>)
    ensures
        bytes@ == signed@.map_values(|byte: i8| unsigned_byte(byte)),
{
    let mut bytes: Vec<u8> = Vec::new();
    let mut i: usize = 0;
    while i < signed.len()
        invariant
            i <= signed@.len(),
            bytes@.len() == i,
            forall|k: int| 0 <= k < i ==> #[trigger] bytes@[k] == unsigned_byte(signed@[k]),
        decreases signed@.len() - i,
    {
        let byte = signed[i];
        if byte >= 0 {
            bytes.push(byte as u8);
        } else {
            bytes.push((byte as i16 + 256) as u8);
        }
        i += 1;
    }
    assert(bytes@ =~= signed@.map_values(|byte: i8| unsigned_byte(byte)));
    bytes
}

/// Once an exchange has ended nothing changes its state: not a second
/// outcome, not the end of a wait.
pub proof fn lemma_terminal_states_absorb(state: CaptureStateSpec, events: Seq<CaptureEventSpec>)
    requires
        is_terminal(state),
    ensures
        state_after(state, events) == state,
    decreases events.len(),
{
    if events.len() > 0 {
        lemma_terminal_states_absorb(state, events.drop_first());
    }
}

/// Running two lists of events in a row is running their concatenation.
pub proof fn lemma_state_after_concat(
    state: CaptureStateSpec,
    first: Seq<CaptureEventSpec>,
    second: Seq<CaptureEventSpec>,
)
    ensures
        state_after(state, first + second) == state_after(state_after(state, first), second),
    decreases first.len(),
{
    if first.len() == 0 {
        assert(first + second =~= second);
    } else {
        assert((first + second).first() == first.first());
        assert((first + second).drop_first() =~= first.drop_first() + second);
        lemma_state_after_concat(next_state(state, first.first()), first.drop_first(), second);
    }
}

/// A dispatch that is rejected ends the exchange with `CaptureFailed` at
/// once: whatever happens afterwards, the caller never waits and the result
/// is never `Timeout`.
pub proof fn lemma_rejected_dispatch_fails_at_once(cause: Seq<char>, later: Seq<CaptureEventSpec>)
    ensures
        state_after(
            CaptureStateSpec::Idle,
            seq![CaptureEventSpec::DispatchRejected(cause)] + later,
        ) == CaptureStateSpec::Completed(
            Err(ScreenshotErrorSpec::CaptureFailed(dispatch_failure_text(cause))),
        ),
{
    let rejected = seq![CaptureEventSpec::DispatchRejected(cause)];
    let failed = CaptureStateSpec::Completed(
        Err(ScreenshotErrorSpec::CaptureFailed(dispatch_failure_text(cause))),
    );
    lemma_state_after_concat(CaptureStateSpec::Idle, rejected, later);
    assert(state_after(CaptureStateSpec::Idle, rejected) == failed) by {
        assert(rejected.drop_first() =~= Seq::<CaptureEventSpec>::empty());
        assert(state_after(failed, rejected.drop_first()) == failed);
    }
    lemma_terminal_states_absorb(failed, later);
}

/// After the wait has run out the result is `Timeout` and stays so: an
/// outcome that the abandoned work sends later reaches nobody.
pub proof fn lemma_late_outcome_is_discarded(
    state: CaptureStateSpec,
    before: Seq<CaptureEventSpec>,
    late: Seq<CaptureEventSpec>,
)
    requires
        state_after(state, before) is TimedOut,
    ensures
        state_after(state, before + late) is TimedOut,
        result_in(state_after(state, before + late)) == Some(
            Err::<Seq<u8>, ScreenshotErrorSpec>(ScreenshotErrorSpec::Timeout),
        ),
{
    lemma_state_after_concat(state, before, late);
    lemma_terminal_states_absorb(state_after(state, before), late);
}

/// The result of an exchange is fixed by the event that ends it: once a
/// result is there, no further event changes it.
pub proof fn lemma_result_is_final(
    state: CaptureStateSpec,
    before: Seq<CaptureEventSpec>,
    after: Seq<CaptureEventSpec>,
)
    requires
        result_in(state_after(state, before)) is Some,
    ensures
        result_in(state_after(state, before + after)) == result_in(state_after(state, before)),
{
    lemma_state_after_concat(state, before, after);
    lemma_terminal_states_absorb(state_after(state, before), after);
}

} // verus!
