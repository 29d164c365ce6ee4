use core::task::Context;
use vstd::prelude::*;

use crate::async_io::buffer::Buffer;
use crate::async_io::buffer::BufferModel;
use crate::async_io::error::Error;
use crate::async_io::error::TlsError;
use crate::async_io::state::ChannelState;
use crate::async_io::stream::TlsStream;
use crate::async_io::traits::AsyncIO;
use crate::async_io::utils::poll_read;
use crate::async_io::utils::poll_write;
use crate::async_io::utils::INCOMING_GROWTH;

verus! {

/// What the poll loop of a handshake does after a turn of the engine.
#[derive(Debug, Clone, Copy, PartialEq, Eq, Structural)]
pub enum Action {
    /// The handshake is complete.
    Break,
    /// Ask the engine again at once.
    Continue,
    /// Read from the transport.
    Read,
    /// Write the outgoing buffer to the transport.
    Write,
}

/// What a handshake remembers from one turn to the next.
#[derive(Debug, Clone, Copy, PartialEq, Eq, Structural)]
pub struct Updates {
    /// The last write emptied the outgoing buffer and the engine has not
    /// been told yet.
    pub transmit_complete: bool,
}

impl Default for Updates {
    fn default() -> (r: Self)
        ensures
            !r.transmit_complete,
    {
        Updates { transmit_complete: false }
    }
}

/// How a poll goes on once an action has been performed.
#[derive(Debug, Clone, Copy, PartialEq, Eq, Structural)]
pub enum Progress {
    /// Take another turn.
    Again,
    /// The transport would block: suspend until it signals.
    Suspend,
    /// Hand the connection over as an open channel.
    Finish,
}

/// The action that answers `state` in a handshake, or `None` where the
/// state is fatal to it.
pub open spec fn action_for(state: ChannelState, transmit_complete: bool) -> Option<Action> {
    match state {
        ChannelState::NeedsEncode => Some(Action::Continue),
        ChannelState::NeedsTransmit => if transmit_complete {
            Some(Action::Continue)
        } else {
            Some(Action::Write)
        },
        ChannelState::NeedsReceive => Some(Action::Read),
        ChannelState::ReadableApplication => Some(Action::Break),
        ChannelState::WritableApplication => Some(Action::Break),
        ChannelState::Closed => None,
    }
}

/// Whether the engine is to encode a handshake message in this turn.
pub open spec fn encode_due(state: ChannelState) -> bool {
    state is NeedsEncode
}

/// Whether the engine is to be told in this turn that its data was
/// transmitted.
pub open spec fn acknowledge_due(state: ChannelState, transmit_complete: bool) -> bool {
    state is NeedsTransmit && transmit_complete
}

/// A handshake ends exactly in the states in which traffic may flow.
pub proof fn lemma_break_iff_traffic(state: ChannelState, transmit_complete: bool)
    ensures
        action_for(state, transmit_complete) == Some(Action::Break) <==> state.is_traffic(),
        action_for(state, transmit_complete).is_none() <==> state is Closed,
{
}

/// The engine is told of a transmission only after a write has emptied the
/// outgoing buffer, and the turn that tells it goes on without touching the
/// transport; while data is left to write, the turn asks for a write.
pub proof fn lemma_transmit_turn(transmit_complete: bool)
    ensures
        acknowledge_due(ChannelState::NeedsTransmit, transmit_complete) <==> action_for(
            ChannelState::NeedsTransmit,
            transmit_complete,
        ) == Some(Action::Continue),
        !transmit_complete ==> action_for(ChannelState::NeedsTransmit, transmit_complete) == Some(
            Action::Write,
        ),
{
}

/// A handshake completes at the first state of traffic that the engine
/// reports, and not before: if the engine goes through `script`, reports
/// traffic at position `k` for the first time and is not closed before,
/// then every turn before `k` asks for more work and turn `k` ends the
/// handshake, whatever the transmissions have been like. The number of
/// turns is the number of states that the engine goes through.
pub proof fn lemma_handshake_completes(script: Seq<ChannelState>, flags: Seq<bool>, k: int)
    requires
        0 <= k < script.len(),
        flags.len() == script.len(),
        script[k].is_traffic(),
        forall|i: int| 0 <= i < k ==> !script[i].is_traffic() && !(script[i] is Closed),
    ensures
        action_for(script[k], flags[k]) == Some(Action::Break),
        forall|i: int|
            0 <= i < k ==> ((#[trigger] action_for(script[i], flags[i])) matches Some(action)
                && action != Action::Break),
{
    assert forall|i: int| 0 <= i < k implies ((#[trigger] action_for(script[i], flags[i])) matches Some(
        action,
    ) && action != Action::Break) by {
        lemma_break_iff_traffic(script[i], flags[i]);
    }
}

/// How a handshake goes on after a read of the transport, which found
/// `before` bytes buffered and left `after`: it suspends if the read would
/// block, aborts if the transport gave no byte, and otherwise takes another
/// turn.
pub fn settle_handshake_read<E>(would_block: bool, before: usize, after: usize) -> (r: Result<
    Progress,
    Error<E>,
>)
    requires
        before <= after,
    ensures
        would_block ==> r == Ok::<Progress, Error<E>>(Progress::Suspend),
        !would_block && after == before ==> r == Err::<Progress, Error<E>>(
            Error::ConnectionAborted,
        ),
        !would_block && after > before ==> r == Ok::<Progress, Error<E>>(Progress::Again),
{
    if would_block {
        Ok(Progress::Suspend)
    } else if after == before {
        Err(Error::ConnectionAborted)
    } else {
        Ok(Progress::Again)
    }
}

/// How a handshake goes on after a write to the transport: it notes
/// whether the write emptied the outgoing buffer, suspends if the write
/// would block, and otherwise takes another turn.
pub fn settle_handshake_write(would_block: bool, emptied: bool, updates: &mut Updates) -> (r:
    Progress)
    ensures
        final(updates).transmit_complete == emptied,
        r == if would_block {
            Progress::Suspend
        } else {
            Progress::Again
        },
{
    updates.transmit_complete = emptied;
    if would_block {
        Progress::Suspend
    } else {
        Progress::Again
    }
}

/// What a turn of a handshake asks of the engine besides the action.
#[derive(Debug, Clone, Copy, PartialEq, Eq, Structural)]
pub enum EngineCall {
    /// Encode the pending handshake message into the outgoing buffer.
    Encode,
    /// Tell the engine that its data has been transmitted.
    Acknowledge,
    /// Nothing.
    Nothing,
}

/// The engine call that is due in a turn in which the engine reported
/// `state`.
pub open spec fn engine_call_for(state: ChannelState, transmit_complete: bool) -> EngineCall {
    if encode_due(state) {
        EngineCall::Encode
    } else if acknowledge_due(state, transmit_complete) {
        EngineCall::Acknowledge
    } else {
        EngineCall::Nothing
    }
}

/// The engine call that is due in a turn in which the engine reported
/// `state`, before `advance` is asked for the action.
pub fn due_engine_call(updates: &Updates, state: &Result<ChannelState, TlsError>) -> (r:
    EngineCall)
    ensures
        match state {
            Ok(s) => r == engine_call_for(*s, updates.transmit_complete),
            Err(_) => r == EngineCall::Nothing,
        },
{
    match state {
        Ok(ChannelState::NeedsEncode) => EngineCall::Encode,
        Ok(ChannelState::NeedsTransmit) => if updates.transmit_complete {
            EngineCall::Acknowledge
        } else {
            EngineCall::Nothing
        },
        _ => EngineCall::Nothing,
    }
}

/// Whether the turn that answers `state` calls the transport.
pub open spec fn calls_transport(state: ChannelState, transmit_complete: bool) -> bool {
    action_for(state, transmit_complete) == Some(Action::Read) || action_for(
        state,
        transmit_complete,
    ) == Some(Action::Write)
}

/// The number of calls of the engine in the turn that answers `state`: one
/// to ask for the state, and one more where a call is due.
pub open spec fn engine_calls_in(state: ChannelState, transmit_complete: bool) -> nat {
    if engine_call_for(state, transmit_complete) == EngineCall::Nothing {
        1
    } else {
        2
    }
}

/// The number of calls of the engine in the first `n` turns of a handshake
/// in which the engine goes through `script`.
pub open spec fn engine_calls(script: Seq<ChannelState>, flags: Seq<bool>, n: nat) -> nat
    decreases n,
{
    if n == 0 {
        0
    } else {
        engine_calls(script, flags, (n - 1) as nat) + engine_calls_in(script[n - 1], flags[n - 1])
    }
}

/// The number of turns among the first `n` in which the engine is made to
/// encode or is told of a transmission.
pub open spec fn engine_moves(script: Seq<ChannelState>, flags: Seq<bool>, n: nat) -> nat
    decreases n,
{
    if n == 0 {
        0
    } else {
        engine_moves(script, flags, (n - 1) as nat) + if engine_call_for(
            script[n - 1],
            flags[n - 1],
        ) == EngineCall::Nothing {
            0nat
        } else {
            1nat
        }
    }
}

/// The number of turns among the first `n` that call the transport.
pub open spec fn transport_calls(script: Seq<ChannelState>, flags: Seq<bool>, n: nat) -> nat
    decreases n,
{
    if n == 0 {
        0
    } else {
        transport_calls(script, flags, (n - 1) as nat) + if calls_transport(
            script[n - 1],
            flags[n - 1],
        ) {
            1nat
        } else {
            0nat
        }
    }
}

/// A turn does one thing: it makes the engine move, or it calls the
/// transport, or it ends the handshake. A turn that makes the engine move
/// goes on at once, and only such a turn does.
pub proof fn lemma_turn_does_one_thing(state: ChannelState, transmit_complete: bool)
    ensures
        engine_call_for(state, transmit_complete) != EngineCall::Nothing <==> action_for(
            state,
            transmit_complete,
        ) == Some(Action::Continue),
        calls_transport(state, transmit_complete) ==> engine_call_for(state, transmit_complete)
            == EngineCall::Nothing,
        action_for(state, transmit_complete) matches Some(action) ==> (action == Action::Break
            || action == Action::Continue || calls_transport(state, transmit_complete)),
{
}

/// A handshake costs no more calls of the engine than its messages and the
/// transport make necessary: if the engine reports traffic at turn `k`
/// for the first time and is not closed before, the calls of the engine up
/// to and with that turn are two for every turn that made the engine move,
/// one for every call of the transport, and one for the last turn. The
/// number of turns is the sum of the three.
pub proof fn lemma_handshake_costs(script: Seq<ChannelState>, flags: Seq<bool>, k: nat)
    requires
        k < script.len(),
        flags.len() == script.len(),
        script[k as int].is_traffic(),
        forall|i: int| 0 <= i < k ==> !script[i].is_traffic() && !(script[i] is Closed),
    ensures
        engine_calls(script, flags, k + 1) == 2 * engine_moves(script, flags, k + 1)
            + transport_calls(script, flags, k + 1) + 1,
        k + 1 == engine_moves(script, flags, k + 1) + transport_calls(script, flags, k + 1) + 1,
{
    lemma_turns_before_traffic(script, flags, k, k);
    lemma_turn_does_one_thing(script[k as int], flags[k as int]);
    lemma_break_iff_traffic(script[k as int], flags[k as int]);
}

/// Before the engine reports traffic, every turn makes the engine move or
/// calls the transport.
proof fn lemma_turns_before_traffic(script: Seq<ChannelState>, flags: Seq<bool>, k: nat, n: nat)
    requires
        n <= k,
        k < script.len(),
        flags.len() == script.len(),
        forall|i: int| 0 <= i < k ==> !script[i].is_traffic() && !(script[i] is Closed),
    ensures
        engine_calls(script, flags, n) == 2 * engine_moves(script, flags, n) + transport_calls(
            script,
            flags,
            n,
        ),
        n == engine_moves(script, flags, n) + transport_calls(script, flags, n),
    decreases n,
{
    if n > 0 {
        lemma_turns_before_traffic(script, flags, k, (n - 1) as nat);
        lemma_turn_does_one_thing(script[n - 1], flags[n - 1]);
        lemma_break_iff_traffic(script[n - 1], flags[n - 1]);
    }
}

/// The parts of a connection while its handshake runs: the engine, the
/// transport, and a buffer for each direction.
pub struct ConnectInner<C, IO> {
    pub conn: C,
    pub incoming: Buffer,
    pub io: IO,
    pub outgoing: Buffer,
}

impl<C, IO: AsyncIO> ConnectInner<C, IO> {
    pub open spec fn wf(&self) -> bool {
        self.incoming.wf() && self.outgoing.wf()
    }

    pub fn new(conn: C, io: IO) -> (r: Self)
        ensures
            r.conn == conn,
            r.io == io,
            r.incoming@ == BufferModel::empty(),
            r.outgoing@ == BufferModel::empty(),
            r.wf(),
    {
        ConnectInner { conn, incoming: Buffer::default(), io, outgoing: Buffer::default() }
    }

    /// Decides what a turn of the handshake does, from the state that the
    /// engine reported for the buffered input.
    ///
    /// In `NeedsEncode` the caller has the engine encode into the outgoing
    /// buffer; in `NeedsTransmit` with a completed transmission it tells the
    /// engine so, and the completion is forgotten. A closed connection is
    /// fatal, and so is a protocol error, which is passed on.
    pub fn advance(updates: &mut Updates, state: Result<ChannelState, TlsError>) -> (r: Result<
        Action,
        Error<IO::Error>,
    >)
        ensures
            match state {
                Ok(s) => {
                    &&& match action_for(s, old(updates).transmit_complete) {
                        Some(action) => r == Ok::<Action, Error<IO::Error>>(action),
                        None => r == Err::<Action, Error<IO::Error>>(Error::ConnectionAborted),
                    }
                    &&& final(updates).transmit_complete == (old(updates).transmit_complete && !(s is NeedsTransmit))
                },
                Err(e) => r == Err::<Action, Error<IO::Error>>(Error::TlsError(e)) && *final(updates) == *old(updates),
            },
    {
        match state {
            Err(e) => Err(Error::TlsError(e)),
            Ok(ChannelState::NeedsEncode) => Ok(Action::Continue),
            Ok(ChannelState::NeedsTransmit) => {
                if updates.transmit_complete {
                    updates.transmit_complete = false;
                    Ok(Action::Continue)
                } else {
                    Ok(Action::Write)
                }
            },
            Ok(ChannelState::NeedsReceive) => Ok(Action::Read),
            Ok(ChannelState::ReadableApplication) => Ok(Action::Break),
            Ok(ChannelState::WritableApplication) => Ok(Action::Break),
            Ok(ChannelState::Closed) => Err(Error::ConnectionAborted),
        }
    }

    /// Plans a turn of the handshake, from the state that the engine
    /// reported for the buffered input: the call that the engine is owed
    /// first, and the action that follows it. A state that is fatal to the
    /// handshake gives its error and no plan.
    pub fn turn_plan(updates: &mut Updates, state: Result<ChannelState, TlsError>) -> (r: Result<
        (EngineCall, Action),
        Error<IO::Error>,
    >)
        ensures
            match state {
                Ok(s) => {
                    &&& match action_for(s, old(updates).transmit_complete) {
                        Some(action) => r == Ok::<(EngineCall, Action), Error<IO::Error>>(
                            (engine_call_for(s, old(updates).transmit_complete), action),
                        ),
                        None => r == Err::<(EngineCall, Action), Error<IO::Error>>(
                            Error::ConnectionAborted,
                        ),
                    }
                    &&& final(updates).transmit_complete == (old(updates).transmit_complete && !(s is NeedsTransmit))
                },
                Err(e) => r == Err::<(EngineCall, Action), Error<IO::Error>>(Error::TlsError(e))
                    && *final(updates) == *old(updates),
            },
    {
        let due = due_engine_call(updates, &state);
        match Self::advance(updates, state) {
            Ok(action) => Ok((due, action)),
            Err(e) => Err(e),
        }
    }

    /// Performs the action of a turn on the transport.
    ///
    /// `Write` writes the outgoing buffer once and notes whether it is now
    /// empty; `Read` reads once into the incoming buffer, and a read of no
    /// bytes is an aborted connection. Neither is tried again here: where
    /// the transport would block, the answer is `Suspend`.
    pub fn perform(&mut self, updates: &mut Updates, action: Action, cx: &mut Context<'_>) -> (r:
        Result<Progress, Error<IO::Error>>)
        requires
            old(self).wf(),
            old(self).incoming@.capacity() + INCOMING_GROWTH <= usize::MAX,
        ensures
            final(self).wf(),
            final(self).conn == old(self).conn,
            match action {
                Action::Continue => r == Ok::<Progress, Error<IO::Error>>(Progress::Again)
                    && *final(self) == *old(self) && *final(updates) == *old(updates),
                Action::Break => r == Ok::<Progress, Error<IO::Error>>(Progress::Finish)
                    && *final(self) == *old(self) && *final(updates) == *old(updates),
                Action::Write => {
                    &&& final(self).incoming == old(self).incoming
                    &&& final(self).outgoing@.used <= old(self).outgoing@.used
                    &&& final(self).outgoing@.filled() == old(self).outgoing@.filled().skip(
                        old(self).outgoing@.used - final(self).outgoing@.used,
                    )
                    &&& match r {
                        Ok(p) => p != Progress::Finish && final(updates).transmit_complete == (
                        final(self).outgoing@.used == 0) && (p == Progress::Suspend
                            ==> final(self).outgoing@ == old(self).outgoing@),
                        Err(e) => e is TransitError && *final(updates) == *old(updates)
                            && final(self).outgoing@ == old(self).outgoing@,
                    }
                },
                Action::Read => {
                    &&& final(self).outgoing == old(self).outgoing
                    &&& *final(updates) == *old(updates)
                    &&& final(self).incoming@.filled().take(old(self).incoming@.used as int)
                        == old(self).incoming@.filled()
                    &&& match r {
                        Ok(p) => p != Progress::Finish && (p == Progress::Again ==> final(self).incoming@.used > old(self).incoming@.used) && (p == Progress::Suspend
                            ==> final(self).incoming@.used == old(self).incoming@.used),
                        Err(e) => (e is TransitError || e is ConnectionAborted) && final(self).incoming@.used == old(self).incoming@.used,
                    }
                },
            },
    {
        match action {
            Action::Continue => Ok(Progress::Again),
            Action::Break => Ok(Progress::Finish),
            Action::Write => {
                let would_block = poll_write(&mut self.io, &mut self.outgoing, cx)?;
                Ok(settle_handshake_write(would_block, self.outgoing.is_empty(), updates))
            },
            Action::Read => {
                let before = self.incoming.len();
                let would_block = poll_read(&mut self.io, &mut self.incoming, cx)?;
                settle_handshake_read(would_block, before, self.incoming.len())
            },
        }
    }

    /// Hands the four parts over to an open channel, as they are.
    pub fn into_stream(self) -> (r: TlsStream<C, IO>)
        ensures
            r.conn == self.conn,
            r.incoming == self.incoming,
            r.io == self.io,
            r.outgoing == self.outgoing,
            r.pending@.len() == 0,
    {
        TlsStream {
            conn: self.conn,
            incoming: self.incoming,
            io: self.io,
            outgoing: self.outgoing,
            pending: Vec::new(),
        }
    }
}

/// A handshake in progress. It holds its parts until the handshake is
/// complete, and nothing afterwards.
pub struct Connect<C, IO> {
    pub inner: Option<ConnectInner<C, IO>>,
}

impl<C, IO: AsyncIO> Connect<C, IO> {
    pub fn new(conn: C, io: IO) -> (r: Self)
        ensures
            r.inner matches Some(inner) && inner.conn == conn && inner.io == io && inner.incoming@
                == BufferModel::empty() && inner.outgoing@ == BufferModel::empty(),
    {
        Connect { inner: Some(ConnectInner::new(conn, io)) }
    }

    /// Takes the parts out for a poll; `None` once the handshake has
    /// completed.
    pub fn take(&mut self) -> (r: Option<ConnectInner<C, IO>>)
        ensures
            r == old(self).inner,
            final(self).inner.is_none(),
    {
        self.inner.take()
    }

    /// Puts the parts back after a poll that did not complete the handshake.
    pub fn restore(&mut self, inner: ConnectInner<C, IO>)
        ensures
            final(self).inner == Some(inner),
    {
        self.inner = Some(inner);
    }
}

} // verus!
