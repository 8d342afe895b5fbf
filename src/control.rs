use vstd::prelude::*;

use crate::messaging::{heartbeat, is_heartbeat, Publication, PublishError};
use crate::serial::{SerialBridge, SerialError, READ_TIMEOUT_MS, SCRATCH_LEN};
use crate::wifi::ConnectError;

verus! {

/// How long the loop rests after a read that brought nothing, in seconds.
pub const IDLE_SLEEP_SECS: u64 = 5;

/// An error that ends the node's run.
#[derive(Debug, Clone, Copy, PartialEq, Eq, Structural)]
pub enum BridgeError {
    Connect(ConnectError),
    Publish(PublishError),
    Serial(SerialError),
}

/// Where an iteration of the main loop stands; every phase but `Halted`
/// waits for the outcome of one operation.
#[derive(Debug, Clone, Copy, PartialEq, Eq, Structural)]
pub enum LoopPhase {
    Publishing,
    Reading,
    Writing,
    Sleeping,
    Halted,
}

/// The operation that the loop asks of the drivers next.
#[derive(Debug)]
pub enum LoopStep {
    Publish(Publication),
    Read { timeout_ms: u32, capacity: usize },
    Write(Vec<u8>),
    Sleep { secs: u64 },
    Halt(BridgeError),
}

/// The outcome of the operation in flight.
#[derive(Debug)]
pub enum LoopEvent {
    Published(Result<(), PublishError>),
    Received(Result<Vec<u8>, SerialError>),
    Written(Result<(), SerialError>),
    Slept,
}

pub open spec fn awaits(p: LoopPhase, e: LoopEvent) -> bool {
    match p {
        LoopPhase::Publishing => e is Published,
        LoopPhase::Reading => e is Received,
        LoopPhase::Writing => e is Written,
        LoopPhase::Sleeping => e is Slept,
        LoopPhase::Halted => false,
    }
}

/// Bytes kept of a chunk: at most what the scratch buffer holds.
pub open spec fn kept(b: Seq<u8>) -> Seq<u8> {
    if b.len() <= SCRATCH_LEN {
        b
    } else {
        b.subrange(0, SCRATCH_LEN as int)
    }
}

/// The read that follows a publication: bounded wait, scratch-sized.
pub open spec fn is_bounded_read(s: LoopStep) -> bool {
    s matches LoopStep::Read { timeout_ms, capacity } && timeout_ms == READ_TIMEOUT_MS
        && capacity == SCRATCH_LEN
}

pub open spec fn publishes_heartbeat(s: LoopStep) -> bool {
    s matches LoopStep::Publish(p) && is_heartbeat(p)
}

/// The bytes that a write step sends.
pub open spec fn write_of(s: LoopStep) -> Option<Seq<u8>> {
    match s {
        LoopStep::Write(w) => Some(w@),
        _ => None,
    }
}

pub open spec fn sleep_of(s: LoopStep) -> Option<u64> {
    match s {
        LoopStep::Sleep { secs } => Some(secs),
        _ => None,
    }
}

pub open spec fn halt_of(s: LoopStep) -> Option<BridgeError> {
    match s {
        LoopStep::Halt(e) => Some(e),
        _ => None,
    }
}

/// The main loop: publish the heartbeat, read the serial line with a
/// bounded wait, write back what came or rest when nothing did, and again.
pub struct Controller {
    pub phase: LoopPhase,
    pub serial: SerialBridge,
}

impl Controller {
    pub open spec fn wf(&self) -> bool {
        self.serial.wf()
    }

    /// The bytes of the last read.
    pub open spec fn received(&self) -> Seq<u8> {
        self.serial@
    }

    /// A loop at the top of its first iteration, and the heartbeat it
    /// publishes first.
    pub fn start() -> (r: (Controller, LoopStep))
        ensures
            r.0.wf(),
            r.0.phase == LoopPhase::Publishing,
            r.0.received() == Seq::<u8>::empty(),
            publishes_heartbeat(r.1),
    {
        let c = Controller { phase: LoopPhase::Publishing, serial: SerialBridge::new() };
        (c, LoopStep::Publish(heartbeat()))
    }

    /// Whether `event` is the outcome that the loop waits for.
    pub fn awaits(&self, event: &LoopEvent) -> (r: bool)
        ensures
            r == awaits(self.phase, *event),
    {
        match self.phase {
            LoopPhase::Publishing => matches!(event, LoopEvent::Published(_)),
            LoopPhase::Reading => matches!(event, LoopEvent::Received(_)),
            LoopPhase::Writing => matches!(event, LoopEvent::Written(_)),
            LoopPhase::Sleeping => matches!(event, LoopEvent::Slept),
            LoopPhase::Halted => false,
        }
    }

    /// Takes the outcome of the operation in flight and names the next one.
    /// Every error ends the run with that error.
    pub fn step(&mut self, event: LoopEvent) -> (r: LoopStep)
        requires
            old(self).wf(),
            awaits(old(self).phase, event),
        ensures
            final(self).wf(),
            event matches LoopEvent::Published(Ok(_)) ==> final(self).phase == LoopPhase::Reading
                && is_bounded_read(r),
            event matches LoopEvent::Published(Err(e)) ==> final(self).phase == LoopPhase::Halted
                && halt_of(r) == Some(BridgeError::Publish(e)),
            event matches LoopEvent::Received(Ok(b)) ==> final(self).received() == kept(b@),
            event matches LoopEvent::Received(Ok(b)) ==> (b@.len() > 0 ==> final(self).phase
                == LoopPhase::Writing && write_of(r) == Some(kept(b@))),
            event matches LoopEvent::Received(Ok(b)) ==> (0 < b@.len() <= SCRATCH_LEN ==> write_of(r)
                == Some(b@)),
            event matches LoopEvent::Received(Ok(b)) ==> (b@.len() == 0 ==> final(self).phase
                == LoopPhase::Sleeping && sleep_of(r) == Some(IDLE_SLEEP_SECS)),
            event matches LoopEvent::Received(Err(e)) ==> final(self).phase == LoopPhase::Halted
                && halt_of(r) == Some(BridgeError::Serial(e)),
            event matches LoopEvent::Written(Ok(_)) ==> final(self).phase == LoopPhase::Publishing
                && publishes_heartbeat(r),
            event matches LoopEvent::Written(Err(e)) ==> final(self).phase == LoopPhase::Halted
                && halt_of(r) == Some(BridgeError::Serial(e)),
            event is Slept ==> final(self).phase == LoopPhase::Publishing && publishes_heartbeat(r),
    {
        match event {
            LoopEvent::Published(Ok(_)) => {
                self.phase = LoopPhase::Reading;
                LoopStep::Read { timeout_ms: READ_TIMEOUT_MS, capacity: SCRATCH_LEN }
            },
            LoopEvent::Published(Err(e)) => {
                self.phase = LoopPhase::Halted;
                LoopStep::Halt(BridgeError::Publish(e))
            },
            LoopEvent::Received(Ok(b)) => {
                let n = self.serial.receive(b.as_slice());
                if n > 0 {
                    self.phase = LoopPhase::Writing;
                    LoopStep::Write(self.serial.echo())
                } else {
                    self.phase = LoopPhase::Sleeping;
                    LoopStep::Sleep { secs: IDLE_SLEEP_SECS }
                }
            },
            LoopEvent::Received(Err(e)) => {
                self.phase = LoopPhase::Halted;
                LoopStep::Halt(BridgeError::Serial(e))
            },
            LoopEvent::Written(Ok(_)) => {
                self.phase = LoopPhase::Publishing;
                LoopStep::Publish(heartbeat())
            },
            LoopEvent::Written(Err(e)) => {
                self.phase = LoopPhase::Halted;
                LoopStep::Halt(BridgeError::Serial(e))
            },
            LoopEvent::Slept => {
                self.phase = LoopPhase::Publishing;
                LoopStep::Publish(heartbeat())
            },
        }
    }
}

} // verus!
