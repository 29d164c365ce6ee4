use vstd::prelude::*;

use crate::async_io::cursor::copied_len;

verus! {

/// The payload of a channel as its caller sees it over several calls of
/// `recv`.
pub struct Delivery {
    /// What the calls have handed to the caller so far, in order.
    pub handed: Seq<u8>,
    /// The room that is left in the destination of the call under way.
    pub room: nat,
    /// What is held back for the next call.
    pub pending: Seq<u8>,
}

/// What happens to the payload of a channel.
pub enum DeliveryStep {
    /// A call of `recv` begins, with a destination of so many bytes: what
    /// is held back is delivered first, as `deliver_pending` does.
    Call(nat),
    /// The engine gives the payload of a record, which is delivered as
    /// `accept_record` does.
    Record(Seq<u8>),
}

impl Delivery {
    /// Payload is held back only when the destination is full.
    pub open spec fn wf(self) -> bool {
        self.pending.len() > 0 ==> self.room == 0
    }

    /// Nothing handed over, nothing held back, no call under way.
    pub open spec fn fresh() -> Delivery {
        Delivery { handed: Seq::empty(), room: 0, pending: Seq::empty() }
    }

    /// After a call has begun with a destination of `room` bytes.
    pub open spec fn call(self, room: nat) -> Delivery {
        let n = copied_len(room, self.pending.len());
        Delivery {
            handed: self.handed + self.pending.take(n as int),
            room: (room - n) as nat,
            pending: self.pending.skip(n as int),
        }
    }

    /// After the payload of a record has been delivered.
    pub open spec fn record(self, payload: Seq<u8>) -> Delivery {
        let n = copied_len(self.room, payload.len());
        Delivery {
            handed: self.handed + payload.take(n as int),
            room: (self.room - n) as nat,
            pending: self.pending + payload.skip(n as int),
        }
    }

    pub open spec fn step(self, step: DeliveryStep) -> Delivery {
        match step {
            DeliveryStep::Call(room) => self.call(room),
            DeliveryStep::Record(payload) => self.record(payload),
        }
    }

    /// After a series of steps.
    pub open spec fn run(self, steps: Seq<DeliveryStep>) -> Delivery
        decreases steps.len(),
    {
        if steps.len() == 0 {
            self
        } else {
            self.run(steps.drop_last()).step(steps.last())
        }
    }
}

/// The payload that the engine gave over a series of steps, in order.
pub open spec fn payload_of(steps: Seq<DeliveryStep>) -> Seq<u8>
    decreases steps.len(),
{
    if steps.len() == 0 {
        Seq::empty()
    } else {
        payload_of(steps.drop_last()) + match steps.last() {
            DeliveryStep::Call(_) => Seq::empty(),
            DeliveryStep::Record(payload) => payload,
        }
    }
}

/// The delivery within one call of `recv`: what the destination of the call
/// holds so far, the room that it has left, and what is held back.
pub open spec fn in_call(written: Seq<u8>, room: nat, pending: Seq<u8>) -> Delivery {
    Delivery { handed: written, room, pending }
}

/// One step loses no byte, repeats none and moves none: what has been
/// handed over and what is held back are, one after the other, what they
/// were, followed by the payload that the step brought. Payload stays held
/// back only behind a full destination.
pub proof fn lemma_step_keeps_every_byte(d: Delivery, step: DeliveryStep)
    requires
        d.wf(),
    ensures
        d.step(step).wf(),
        d.step(step).handed + d.step(step).pending == d.handed + d.pending + payload_of(seq![step]),
        d.handed.is_prefix_of(d.step(step).handed),
        d.step(step).handed.len() - d.handed.len() <= match step {
            DeliveryStep::Call(room) => room,
            DeliveryStep::Record(_) => d.room,
        },
{
    let one = seq![step];
    assert(one.drop_last() =~= Seq::<DeliveryStep>::empty());
    assert(one.last() == step);
    assert(payload_of(one.drop_last()) =~= Seq::<u8>::empty());
    match step {
        DeliveryStep::Call(room) => {
            let n = copied_len(room, d.pending.len()) as int;
            assert(payload_of(one) =~= Seq::<u8>::empty());
            assert(d.pending.take(n) + d.pending.skip(n) =~= d.pending);
            assert(d.step(step).handed + d.step(step).pending =~= d.handed + d.pending
                + payload_of(one));
        },
        DeliveryStep::Record(payload) => {
            let n = copied_len(d.room, payload.len()) as int;
            assert(payload_of(one) =~= payload);
            assert(payload.take(n) + payload.skip(n) =~= payload);
            if d.pending.len() > 0 {
                assert(n == 0);
                assert(payload.take(0) =~= Seq::<u8>::empty());
            }
            assert(d.step(step).handed + d.step(step).pending =~= d.handed + d.pending
                + payload_of(one));
        },
    }
}

/// Over any series of calls of `recv` and records of the engine, whatever
/// the sizes of the destinations, the bytes handed to the caller followed
/// by the bytes held back are the payloads that the engine gave, in their
/// order: no byte is lost, repeated or moved, and what one call could not
/// take is what the next calls get first.
pub proof fn lemma_run_keeps_every_byte(d: Delivery, steps: Seq<DeliveryStep>)
    requires
        d.wf(),
    ensures
        d.run(steps).wf(),
        d.run(steps).handed + d.run(steps).pending == d.handed + d.pending + payload_of(steps),
        d.handed.is_prefix_of(d.run(steps).handed),
    decreases steps.len(),
{
    if steps.len() == 0 {
        assert(d.handed + d.pending + Seq::<u8>::empty() =~= d.handed + d.pending);
    } else {
        let before = d.run(steps.drop_last());
        let last = steps.last();
        lemma_run_keeps_every_byte(d, steps.drop_last());
        lemma_step_keeps_every_byte(before, last);
        let one = seq![last];
        assert(one.drop_last() =~= Seq::<DeliveryStep>::empty());
        assert(one.last() == last);
        assert(payload_of(one.drop_last()) =~= Seq::<u8>::empty());
        let brought = match last {
            DeliveryStep::Call(_) => Seq::<u8>::empty(),
            DeliveryStep::Record(payload) => payload,
        };
        assert(payload_of(one) =~= brought);
        assert(payload_of(steps) == payload_of(steps.drop_last()) + brought);
        assert(d.run(steps).handed + d.run(steps).pending =~= d.handed + d.pending + payload_of(
            steps,
        ));
    }
}

/// Once nothing is held back, the caller has every byte that the engine
/// gave: from a fresh channel, the bytes handed over are the payloads, in
/// order, and their number is the number of payload bytes.
pub proof fn lemma_all_payload_arrives(steps: Seq<DeliveryStep>)
    requires
        Delivery::fresh().run(steps).pending.len() == 0,
    ensures
        Delivery::fresh().run(steps).handed == payload_of(steps),
{
    lemma_run_keeps_every_byte(Delivery::fresh(), steps);
    let end = Delivery::fresh().run(steps);
    assert(end.pending =~= Seq::<u8>::empty());
    assert(end.handed + end.pending =~= end.handed);
    assert(Seq::<u8>::empty() + Seq::<u8>::empty() + payload_of(steps) =~= payload_of(steps));
}

} // verus!
