use vstd::prelude::*;

verus! {

/// Delivery guarantee of a publication.
#[derive(Debug, Clone, Copy, PartialEq, Eq, Structural)]
pub enum QoS {
    AtMostOnce,
    AtLeastOnce,
    ExactlyOnce,
}

/// The client refused or could not send a publication; `code` is the
/// driver's error code.
#[derive(Debug, Clone, Copy, PartialEq, Eq, Structural)]
pub struct PublishError {
    pub code: i32,
}

/// One message to hand to the broker client.
#[derive(Debug)]
pub struct Publication {
    pub topic: String,
    pub qos: QoS,
    pub retain: bool,
    pub payload: String,
}

pub open spec fn client_id_text() -> Seq<char> {
    "esp32-bridge"@
}

pub open spec fn status_topic() -> Seq<char> {
    "esp32/bridge/status"@
}

pub open spec fn heartbeat_text() -> Seq<char> {
    "Hello from ESP32!"@
}

/// The fixed status message: its topic, payload, delivery guarantee and
/// retain flag.
pub open spec fn is_heartbeat(p: Publication) -> bool {
    &&& p.topic@ == status_topic()
    &&& p.payload@ == heartbeat_text()
    &&& p.qos == QoS::AtLeastOnce
    &&& !p.retain
}

/// The identifier under which the node opens its broker session.
pub fn client_id() -> (r: String)
    ensures
        r@ == client_id_text(),
{
    String::from_str("esp32-bridge")
}

/// The heartbeat published at the top of every loop iteration.
pub fn heartbeat() -> (r: Publication)
    ensures
        is_heartbeat(r),
{
    Publication {
        topic: String::from_str("esp32/bridge/status"),
        qos: QoS::AtLeastOnce,
        retain: false,
        payload: String::from_str("Hello from ESP32!"),
    }
}

/// Any two heartbeats carry the same topic, payload, guarantee and retain
/// flag, so publishing them again and again asks the same of the client.
pub proof fn lemma_heartbeat_repeats(a: Publication, b: Publication)
    requires
        is_heartbeat(a),
        is_heartbeat(b),
    ensures
        a.topic@ == b.topic@,
        a.payload@ == b.payload@,
        a.qos == b.qos,
        a.retain == b.retain,
{
}

/// What the drain worker does with the outcome of one pull.
#[derive(Debug, Clone, Copy, PartialEq, Eq, Structural)]
pub enum DrainStep {
    Record,
    Stop,
}

/// The consumer of the broker session's event sequence. It records every
/// event it pulls; once a pull fails the sequence has ended and is not
/// taken up again.
pub struct EventDrain {
    pub open: bool,
}

impl EventDrain {
    pub fn new() -> (r: EventDrain)
        ensures
            r.open,
    {
        EventDrain { open: true }
    }

    /// Takes the outcome of one pull: `true` when an event came.
    pub fn pulled(&mut self, got_event: bool) -> (r: DrainStep)
        ensures
            final(self).open == (old(self).open && got_event),
            r == (if final(self).open {
                DrainStep::Record
            } else {
                DrainStep::Stop
            }),
    {
        self.open = self.open && got_event;
        if self.open {
            DrainStep::Record
        } else {
            DrainStep::Stop
        }
    }
}

} // verus!
