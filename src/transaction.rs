//! One chip-select framed exchange on the bus.
//!
//! The exchange is a state machine: it names the next bus action, the
//! caller performs it and reports how it went, and the machine decides
//! what follows. Chip-select is released on every path, failures included,
//! before the outcome is handed back.
use vstd::prelude::*;

verus! {

/// Cycles to wait after selecting the chip before the first clock edge
/// (at least 50 ns).
pub const SETUP_DELAY_CYCLES: u32 = 8;

/// Cycles to keep chip-select released between two frames (at least 500 ns).
pub const FRAME_GAP_CYCLES: u32 = 32;

/// What the bus is to do next.
#[derive(Debug)]
pub enum BusAction<E> {
    /// Drive chip-select low.
    Select,
    /// Busy-wait this many cycles.
    Wait(u32),
    /// Send one word.
    Send(u16),
    /// Receive one word.
    Receive,
    /// Drive chip-select high.
    Release,
    /// The exchange is over: the reply word, or the bus error.
    Finish(Result<u16, E>),
}

/// How the last action went.
#[derive(Debug)]
pub enum BusEvent<E> {
    /// A `Select`, `Wait` or `Release` was carried out.
    Done,
    /// The outcome of a `Send`.
    Sent(Result<(), E>),
    /// The outcome of a `Receive`.
    Received(Result<u16, E>),
}

/// Where an exchange stands.
#[derive(Debug)]
pub enum Phase<E> {
    Selecting,
    SetupWait,
    Sending,
    Receiving,
    Releasing(Result<u16, E>),
    GapWait(Result<u16, E>),
    Finished,
}

/// An exchange of one request word for one reply word.
pub struct Transaction<E> {
    pub word: u16,
    pub phase: Phase<E>,
}

/// The event the exchange waits for in `phase`.
pub open spec fn accepts<E>(phase: Phase<E>, ev: BusEvent<E>) -> bool {
    match phase {
        Phase::Selecting | Phase::SetupWait => ev is Done,
        Phase::Releasing(_) | Phase::GapWait(_) => ev is Done,
        Phase::Sending => ev is Sent,
        Phase::Receiving => ev is Received,
        Phase::Finished => false,
    }
}

/// The next phase and action after `ev` in `phase`, for a request `word`.
pub open spec fn next<E>(word: u16, phase: Phase<E>, ev: BusEvent<E>) -> (Phase<E>, BusAction<E>) {
    match phase {
        Phase::Selecting => (Phase::SetupWait, BusAction::Wait(SETUP_DELAY_CYCLES)),
        Phase::SetupWait => (Phase::Sending, BusAction::Send(word)),
        Phase::Sending => match ev {
            BusEvent::Sent(Err(e)) => (Phase::Releasing(Err(e)), BusAction::Release),
            _ => (Phase::Receiving, BusAction::Receive),
        },
        Phase::Receiving => match ev {
            BusEvent::Received(r) => (Phase::Releasing(r), BusAction::Release),
            _ => (Phase::Receiving, BusAction::Receive),
        },
        Phase::Releasing(r) => (Phase::GapWait(r), BusAction::Wait(FRAME_GAP_CYCLES)),
        Phase::GapWait(r) => (Phase::Finished, BusAction::Finish(r)),
        Phase::Finished => (Phase::Finished, BusAction::Release),
    }
}

impl<E> Transaction<E> {
    /// Begins an exchange that sends `word`: the first action selects the chip.
    pub fn start(word: u16) -> (r: (Transaction<E>, BusAction<E>))
        ensures
            r.0.word == word,
            r.0.phase == Phase::<E>::Selecting,
            r.1 == BusAction::<E>::Select,
    {
        (Transaction { word, phase: Phase::Selecting }, BusAction::Select)
    }

    /// Takes the outcome of the last action and names the next one.
    pub fn step(self, ev: BusEvent<E>) -> (r: (Transaction<E>, BusAction<E>))
        requires
            accepts(self.phase, ev),
        ensures
            r.0.word == self.word,
            (r.0.phase, r.1) == next(self.word, self.phase, ev),
    {
        let word = self.word;
        match self.phase {
            Phase::Selecting => (Transaction { word, phase: Phase::SetupWait }, BusAction::Wait(SETUP_DELAY_CYCLES)),
            Phase::SetupWait => (Transaction { word, phase: Phase::Sending }, BusAction::Send(word)),
            Phase::Sending => match ev {
                BusEvent::Sent(Err(e)) => (Transaction { word, phase: Phase::Releasing(Err(e)) }, BusAction::Release),
                _ => (Transaction { word, phase: Phase::Receiving }, BusAction::Receive),
            },
            Phase::Receiving => match ev {
                BusEvent::Received(r) => (Transaction { word, phase: Phase::Releasing(r) }, BusAction::Release),
                _ => (Transaction { word, phase: Phase::Receiving }, BusAction::Receive),
            },
            Phase::Releasing(r) => (Transaction { word, phase: Phase::GapWait(r) }, BusAction::Wait(FRAME_GAP_CYCLES)),
            Phase::GapWait(r) => (Transaction { word, phase: Phase::Finished }, BusAction::Finish(r)),
            Phase::Finished => (Transaction { word, phase: Phase::Finished }, BusAction::Release),
        }
    }
}

/// With every action succeeding, an exchange selects the chip, waits the
/// setup time, sends the word, receives the reply, releases the chip,
/// waits the frame gap and then hands the reply back, in that order.
pub proof fn exchange_order<E>(word: u16, reply: u16)
    ensures
        ({
            let (p1, a1) = next::<E>(word, Phase::Selecting, BusEvent::Done);
            let (p2, a2) = next::<E>(word, p1, BusEvent::Done);
            let (p3, a3) = next::<E>(word, p2, BusEvent::Sent(Ok(())));
            let (p4, a4) = next::<E>(word, p3, BusEvent::Received(Ok(reply)));
            let (p5, a5) = next::<E>(word, p4, BusEvent::Done);
            let (p6, a6) = next::<E>(word, p5, BusEvent::Done);
            &&& a1 == BusAction::<E>::Wait(SETUP_DELAY_CYCLES)
            &&& accepts(p1, BusEvent::<E>::Done) && a2 == BusAction::<E>::Send(word)
            &&& accepts(p2, BusEvent::<E>::Sent(Ok(()))) && a3 == BusAction::<E>::Receive
            &&& accepts(p3, BusEvent::<E>::Received(Ok(reply))) && a4 == BusAction::<E>::Release
            &&& accepts(p4, BusEvent::<E>::Done) && a5 == BusAction::<E>::Wait(FRAME_GAP_CYCLES)
            &&& accepts(p5, BusEvent::<E>::Done) && a6 == BusAction::<E>::Finish(Ok(reply))
            &&& p6 == Phase::<E>::Finished
        }),
{
}

/// When receiving fails, the next action releases chip-select; after it
/// only the frame gap follows, and then the error is handed back. Chip-select
/// is released exactly once before the error surfaces.
pub proof fn release_on_receive_failure<E>(word: u16, e: E)
    ensures
        ({
            let (p1, a1) = next::<E>(word, Phase::Receiving, BusEvent::Received(Err(e)));
            let (p2, a2) = next::<E>(word, p1, BusEvent::Done);
            let (p3, a3) = next::<E>(word, p2, BusEvent::Done);
            &&& a1 == BusAction::<E>::Release
            &&& accepts(p1, BusEvent::<E>::Done) && a2 == BusAction::<E>::Wait(FRAME_GAP_CYCLES)
            &&& accepts(p2, BusEvent::<E>::Done) && a3 == BusAction::<E>::Finish(Err(e))
            &&& p3 == Phase::<E>::Finished
        }),
{
}

/// When sending fails, chip-select is released before the error is handed
/// back, and no receive is attempted.
pub proof fn release_on_send_failure<E>(word: u16, e: E)
    ensures
        ({
            let (p1, a1) = next::<E>(word, Phase::Sending, BusEvent::Sent(Err(e)));
            let (p2, a2) = next::<E>(word, p1, BusEvent::Done);
            let (p3, a3) = next::<E>(word, p2, BusEvent::Done);
            &&& a1 == BusAction::<E>::Release
            &&& accepts(p1, BusEvent::<E>::Done) && a2 == BusAction::<E>::Wait(FRAME_GAP_CYCLES)
            &&& accepts(p2, BusEvent::<E>::Done) && a3 == BusAction::<E>::Finish(Err(e))
            &&& p3 == Phase::<E>::Finished
        }),
{
}

} // verus!
