//! The decisions of the two loops that serve a player's connection.
//!
//! The loops themselves wait on the network and live outside this library.
//! The outbound loop wakes at a fixed interval, asks `outbound_tick` what to
//! do, sends the batch it is handed and reports a failed send to
//! `delivery_failed`. The inbound loop reports every frame to
//! `frame_received` and hands the text frames on to the game. A player whose
//! connection is gone keeps their place in the room and their queue, and
//! `reattach` gives them a new connection.

use vstd::prelude::*;
use vstd::string::*;
use crate::room::{PlayerView, RoomState, RoomView};
use crate::text::{lemma_texts_add, texts};

verus! {

/// Milliseconds between two wake-ups of the outbound loop.
pub const PLAYER_CONNECTION_LOOP_INTERVAL: u64 = 100;

/// Milliseconds of silence after which a player counts as disconnected.
pub const PLAYER_SILENCE_MAX_DURATION: u64 = 10000;

/// What the outbound loop is to do after a wake-up.
#[derive(Clone, PartialEq, Eq, Debug)]
pub enum OutboundAction {
    /// The connection is already marked dead: end the loop.
    Stop,
    /// The player has been silent for too long and is now marked dead:
    /// close the connection and end the loop.
    TimedOut,
    /// Send these messages in this order, then sleep until the next wake-up.
    Deliver(Vec<String>),
}

/// The value of an `OutboundAction`.
pub enum OutboundView {
    Stop,
    TimedOut,
    Deliver(Seq<Seq<char>>),
}

impl View for OutboundAction {
    type V = OutboundView;

    open spec fn view(&self) -> OutboundView {
        match self {
            OutboundAction::Stop => OutboundView::Stop,
            OutboundAction::TimedOut => OutboundView::TimedOut,
            OutboundAction::Deliver(batch) => OutboundView::Deliver(texts(batch@)),
        }
    }
}

/// What the transport has handed to the inbound loop.
#[derive(Clone, Copy, PartialEq, Eq, Debug, Structural)]
pub enum FrameKind {
    /// A text frame.
    Text,
    /// A ping of the transport itself.
    Ping,
    /// Anything else: a close, an error, the end of the stream.
    Closed,
}

/// Why a player could not be given a new connection.
#[derive(Clone, Copy, PartialEq, Eq, Debug, Structural)]
pub enum ReattachError {
    /// Nobody has joined in that place yet.
    NoSuchPlayer,
    /// The player's connection is still marked alive.
    StillConnected,
}

/// Milliseconds between `last` and `now`; none if the clock reads earlier
/// than `last`.
pub open spec fn silence(now: u64, last: u64) -> int {
    if now >= last {
        now - last
    } else {
        0
    }
}

impl PlayerView {
    /// The player with the given messages, in order, at the end of the queue.
    pub open spec fn with_messages(self, more: Seq<Seq<char>>) -> PlayerView
        decreases more.len(),
    {
        if more.len() == 0 {
            self
        } else {
            self.with_messages(more.drop_last()).with_message(more.last())
        }
    }
}

impl RoomView {
    /// What `outbound_tick` leaves of the room and what it answers. A dead
    /// connection ends the loop. A player silent for longer than
    /// `PLAYER_SILENCE_MAX_DURATION` is marked dead, with the queue left for a
    /// later connection. Otherwise the whole queue is taken out to be sent.
    pub open spec fn outbound_tick(self, host_player: bool, now: u64) -> (RoomView, OutboundView) {
        let player = self.player(host_player);
        if !player.connection_alive {
            (self, OutboundView::Stop)
        } else if silence(now, player.last_ping_time) > PLAYER_SILENCE_MAX_DURATION {
            (
                self.with_player(host_player, PlayerView { connection_alive: false, ..player }),
                OutboundView::TimedOut,
            )
        } else {
            (
                self.with_player(
                    host_player,
                    PlayerView { messages_to_send: Seq::empty(), ..player },
                ),
                OutboundView::Deliver(player.messages_to_send),
            )
        }
    }

    /// The room after a send has failed with the first `sent` messages of
    /// `batch` gone out: the player is marked dead, and the rest of the batch
    /// stands in front of whatever has been queued since.
    pub open spec fn delivery_failed(
        self,
        host_player: bool,
        batch: Seq<Seq<char>>,
        sent: int,
    ) -> RoomView {
        let player = self.player(host_player);
        let from = if sent < batch.len() {
            sent
        } else {
            batch.len() as int
        };
        self.with_player(
            host_player,
            PlayerView {
                connection_alive: false,
                messages_to_send: batch.subrange(from, batch.len() as int)
                    + player.messages_to_send,
                ..player
            },
        )
    }

    /// What `frame_received` leaves of the room and whether the inbound loop
    /// goes on. A text frame shows that the player is there; anything else
    /// ends the connection.
    pub open spec fn frame_received(self, host_player: bool, frame: FrameKind, now: u64) -> (
        RoomView,
        bool,
    ) {
        let player = self.player(host_player);
        match frame {
            FrameKind::Text => (
                self.with_player(host_player, PlayerView { last_ping_time: now, ..player }),
                true,
            ),
            _ => (
                self.with_player(host_player, PlayerView { connection_alive: false, ..player }),
                false,
            ),
        }
    }

    /// What `reattach` leaves of the room and what it answers. Only a player
    /// who is there and whose connection is marked dead gets a new one; the
    /// player then counts as alive and as heard from at `now`.
    pub open spec fn reattach(self, host_player: bool, now: u64) -> (
        RoomView,
        Result<(), ReattachError>,
    ) {
        if !host_player && self.other_player is None {
            (self, Err(ReattachError::NoSuchPlayer))
        } else if self.player(host_player).connection_alive {
            (self, Err(ReattachError::StillConnected))
        } else {
            (
                self.with_player(
                    host_player,
                    PlayerView {
                        connection_alive: true,
                        last_ping_time: now,
                        ..self.player(host_player)
                    },
                ),
                Ok(()),
            )
        }
    }
}

/// Whether the player's connection is marked alive. Both loops end when it
/// is not.
pub fn is_connected(room: &RoomState, host_player: bool) -> (r: bool)
    requires
        host_player || room.other_player is Some,
    ensures
        r == room@.player(host_player).connection_alive,
{
    if host_player {
        room.host_player.connection_alive
    } else {
        match &room.other_player {
            Some(other_player) => other_player.connection_alive,
            None => false,
        }
    }
}

/// Decides what the outbound loop does at a wake-up at time `now`; see
/// `RoomView::outbound_tick`.
pub fn outbound_tick(room: &mut RoomState, host_player: bool, now: u64) -> (action: OutboundAction)
    requires
        host_player || old(room).other_player is Some,
    ensures
        (final(room)@, action@) == old(room)@.outbound_tick(host_player, now),
        old(room)@.wf() ==> final(room)@.wf(),
{
    let mut messages_to_send: Vec<String> = Vec::new();
    let player = room.get_player(host_player);
    if !player.connection_alive {
        // End loop if disconnected
        return OutboundAction::Stop;
    }
    if now >= player.last_ping_time && now - player.last_ping_time > PLAYER_SILENCE_MAX_DURATION {
        // Disconnect if no pings
        player.connection_alive = false;
        return OutboundAction::TimedOut;
    }
    // Get the list of messages to send from the room
    std::mem::swap(&mut messages_to_send, &mut player.messages_to_send);
    OutboundAction::Deliver(messages_to_send)
}

/// Records that sending `batch` failed after `sent` of its messages had gone
/// out; see `RoomView::delivery_failed`.
pub fn delivery_failed(room: &mut RoomState, host_player: bool, batch: Vec<String>, sent: usize)
    requires
        host_player || old(room).other_player is Some,
    ensures
        final(room)@ == old(room)@.delivery_failed(host_player, texts(batch@), sent as int),
        old(room)@.wf() ==> final(room)@.wf(),
{
    let mut batch = batch;
    let from: usize = if sent < batch.len() {
        sent
    } else {
        batch.len()
    };
    let mut unsent = batch.split_off(from);
    let player = room.get_player(host_player);
    player.connection_alive = false;
    proof {
        lemma_texts_add(unsent@, player.messages_to_send@);
    }
    // Put the messages that could not be sent back in front of the queue
    unsent.append(&mut player.messages_to_send);
    std::mem::swap(&mut unsent, &mut player.messages_to_send);
}

/// Records a frame that arrived at time `now` and says whether the inbound
/// loop goes on; see `RoomView::frame_received`.
pub fn frame_received(
    room: &mut RoomState,
    host_player: bool,
    frame: FrameKind,
    now: u64,
) -> (go_on: bool)
    requires
        host_player || old(room).other_player is Some,
    ensures
        (final(room)@, go_on) == old(room)@.frame_received(host_player, frame, now),
        old(room)@.wf() ==> final(room)@.wf(),
{
    let player = room.get_player(host_player);
    match frame {
        FrameKind::Text => {
            player.last_ping_time = now;
            true
        },
        _ => {
            player.connection_alive = false;
            false
        },
    }
}

/// Gives a player whose connection is marked dead a new one at time `now`;
/// see `RoomView::reattach`. The match and the player's queue are not touched.
pub fn reattach(room: &mut RoomState, host_player: bool, now: u64) -> (r: Result<(), ReattachError>)
    ensures
        (final(room)@, r) == old(room)@.reattach(host_player, now),
        old(room)@.wf() ==> final(room)@.wf(),
{
    if !host_player && room.other_player.is_none() {
        return Err(ReattachError::NoSuchPlayer);
    }
    let player = room.get_player(host_player);
    if player.connection_alive {
        return Err(ReattachError::StillConnected);
    }
    player.connection_alive = true;
    player.last_ping_time = now;
    Ok(())
}

/// Queueing messages one after the other puts them at the end of the queue
/// in the order in which they were queued, and changes nothing else.
pub proof fn lemma_with_messages(player: PlayerView, more: Seq<Seq<char>>)
    ensures
        player.with_messages(more) == (PlayerView {
            messages_to_send: player.messages_to_send + more,
            ..player
        }),
    decreases more.len(),
{
    if more.len() > 0 {
        lemma_with_messages(player, more.drop_last());
    }
}

/// A player who sends nothing for longer than the silence limit is marked
/// dead at the next wake-up of the outbound loop, though nothing was closed;
/// the queue stays as it is.
pub proof fn lemma_silence_disconnects(room: RoomView, host_player: bool, now: u64)
    requires
        host_player || room.other_player is Some,
        room.player(host_player).connection_alive,
        now - room.player(host_player).last_ping_time > PLAYER_SILENCE_MAX_DURATION,
    ensures
        room.outbound_tick(host_player, now).1 == OutboundView::TimedOut,
        !room.outbound_tick(host_player, now).0.player(host_player).connection_alive,
        room.outbound_tick(host_player, now).0.player(host_player).messages_to_send
            == room.player(host_player).messages_to_send,
        room.outbound_tick(host_player, now).0.outbound_tick(host_player, now).1
            == OutboundView::Stop,
{
}

/// A player heard from within the silence limit stays connected at a
/// wake-up, and the whole queue goes out in order.
pub proof fn lemma_heard_from_stays_connected(
    room: RoomView,
    host_player: bool,
    heard: u64,
    now: u64,
)
    requires
        host_player || room.other_player is Some,
        room.player(host_player).connection_alive,
        now - heard <= PLAYER_SILENCE_MAX_DURATION,
    ensures
        ({
            let refreshed = room.frame_received(host_player, FrameKind::Text, heard).0;
            &&& refreshed.outbound_tick(host_player, now).1 == OutboundView::Deliver(
                room.player(host_player).messages_to_send,
            )
            &&& refreshed.outbound_tick(host_player, now).0.player(host_player).connection_alive
        }),
{
}

/// A player who comes back gets everything that is owed, once and in order.
/// Let a send fail after `sent` messages of `batch`, let `later` be queued
/// while the player is away, and let the player come back at `back`. The
/// first wake-up within the silence limit hands out the unsent rest of the
/// batch, then what was queued before the failure, then `later`; it leaves the
/// queue empty, so that the wake-up after it hands out nothing; and the match
/// is as it was.
pub proof fn lemma_reconnection_delivers_backlog(
    room: RoomView,
    host_player: bool,
    batch: Seq<Seq<char>>,
    sent: int,
    later: Seq<Seq<char>>,
    back: u64,
    now: u64,
)
    requires
        host_player || room.other_player is Some,
        0 <= sent <= batch.len(),
        now - back <= PLAYER_SILENCE_MAX_DURATION,
    ensures
        ({
            let failed = room.delivery_failed(host_player, batch, sent);
            let away = failed.with_player(
                host_player,
                failed.player(host_player).with_messages(later),
            );
            let (returned, accepted) = away.reattach(host_player, back);
            let (after, action) = returned.outbound_tick(host_player, now);
            &&& !failed.player(host_player).connection_alive
            &&& accepted is Ok
            &&& action == OutboundView::Deliver(
                batch.subrange(sent, batch.len() as int) + room.player(
                    host_player,
                ).messages_to_send + later,
            )
            &&& after.player(host_player).messages_to_send == Seq::<Seq<char>>::empty()
            &&& after.outbound_tick(host_player, now).1 == OutboundView::Deliver(Seq::empty())
            &&& after.game_state == room.game_state
            &&& after.player(!host_player) == room.player(!host_player)
            &&& after.player(host_player).past_words == room.player(host_player).past_words
            &&& after.player(host_player).typed_word_this_turn == room.player(
                host_player,
            ).typed_word_this_turn
        }),
{
    let failed = room.delivery_failed(host_player, batch, sent);
    lemma_with_messages(failed.player(host_player), later);
}

/// Something that happens to one player's connection or queue.
pub enum DeliveryEvent {
    /// A message is queued for the player.
    Queue(Seq<char>),
    /// The outbound loop wakes up, at the given time.
    Wake(u64),
    /// The sending of the batch in hand ends: that many of its messages went
    /// out, and if that is not all of them, the next send failed.
    Sent(int),
    /// The player is given a new connection, at the given time.
    Reattach(u64),
    /// A frame arrives, at the given time.
    Frame(FrameKind, u64),
}

/// A room together with the record of what has gone to one of its players.
pub struct Delivery {
    /// The room.
    pub room: RoomView,
    /// The batch that the outbound loop has in hand.
    pub in_hand: Seq<Seq<char>>,
    /// Every message that has gone out to the player, in the order of sending.
    pub delivered: Seq<Seq<char>>,
    /// Every message ever queued for the player, in the order of queueing.
    pub queued: Seq<Seq<char>>,
}

impl Delivery {
    /// The record at the moment the watching starts: what is in the queue is
    /// all that was ever queued, and nothing has gone out.
    pub open spec fn start(room: RoomView, host_player: bool) -> Delivery {
        Delivery {
            room,
            in_hand: Seq::empty(),
            delivered: Seq::empty(),
            queued: room.player(host_player).messages_to_send,
        }
    }

    /// The record after one event. The outbound loop has one batch in hand at
    /// a time: a wake-up while a batch is in hand does nothing.
    pub open spec fn step(self, host_player: bool, event: DeliveryEvent) -> Delivery {
        match event {
            DeliveryEvent::Queue(text) => Delivery {
                room: self.room.with_player(
                    host_player,
                    self.room.player(host_player).with_message(text),
                ),
                queued: self.queued.push(text),
                ..self
            },
            DeliveryEvent::Wake(now) => if self.in_hand.len() > 0 {
                self
            } else {
                match self.room.outbound_tick(host_player, now).1 {
                    OutboundView::Deliver(batch) => Delivery {
                        room: self.room.outbound_tick(host_player, now).0,
                        in_hand: batch,
                        ..self
                    },
                    _ => Delivery { room: self.room.outbound_tick(host_player, now).0, ..self },
                }
            },
            DeliveryEvent::Sent(sent) => if 0 <= sent < self.in_hand.len() {
                Delivery {
                    room: self.room.delivery_failed(host_player, self.in_hand, sent),
                    in_hand: Seq::empty(),
                    delivered: self.delivered + self.in_hand.subrange(0, sent),
                    ..self
                }
            } else {
                Delivery {
                    in_hand: Seq::empty(),
                    delivered: self.delivered + self.in_hand,
                    ..self
                }
            },
            DeliveryEvent::Reattach(now) => Delivery {
                room: self.room.reattach(host_player, now).0,
                ..self
            },
            DeliveryEvent::Frame(kind, now) => Delivery {
                room: self.room.frame_received(host_player, kind, now).0,
                ..self
            },
        }
    }

    /// The record after the given events, one after the other.
    pub open spec fn run(self, host_player: bool, events: Seq<DeliveryEvent>) -> Delivery
        decreases events.len(),
    {
        if events.len() == 0 {
            self
        } else {
            self.run(host_player, events.drop_last()).step(host_player, events.last())
        }
    }

    /// Nothing is lost and nothing comes twice: what has gone out, then what
    /// the loop has in hand, then what waits in the queue, is exactly what was
    /// queued, in the order of queueing.
    pub open spec fn accounted(self, host_player: bool) -> bool {
        self.delivered + self.in_hand + self.room.player(host_player).messages_to_send
            == self.queued
    }
}

/// Deliveries are in order and exactly once. Whatever happens to a player's
/// connection, and in whatever order (messages queued, wake-ups of the
/// outbound loop, sends that fail half way, frames, time-outs, new
/// connections), what has been sent is a prefix of what was queued, and the
/// rest of it is still in hand or in the queue, in order.
pub proof fn lemma_delivery_in_order_exactly_once(
    room: RoomView,
    host_player: bool,
    events: Seq<DeliveryEvent>,
)
    requires
        host_player || room.other_player is Some,
    ensures
        Delivery::start(room, host_player).run(host_player, events).accounted(host_player),
        Delivery::start(room, host_player).run(host_player, events).delivered.is_prefix_of(
            Delivery::start(room, host_player).run(host_player, events).queued,
        ),
        host_player || Delivery::start(room, host_player).run(
            host_player,
            events,
        ).room.other_player is Some,
        Delivery::start(room, host_player).run(host_player, events).room.game_state
            == room.game_state,
    decreases events.len(),
{
    if events.len() > 0 {
        lemma_delivery_in_order_exactly_once(room, host_player, events.drop_last());
        let before = Delivery::start(room, host_player).run(host_player, events.drop_last());
        let pending = before.room.player(host_player).messages_to_send;
        match events.last() {
            DeliveryEvent::Sent(sent) => {
                if 0 <= sent < before.in_hand.len() {
                    // What went out and what is put back make up the batch.
                    assert(before.delivered + before.in_hand.subrange(0, sent)
                        + Seq::<Seq<char>>::empty() + (before.in_hand.subrange(
                        sent,
                        before.in_hand.len() as int,
                    ) + pending) =~= before.delivered + before.in_hand + pending);
                }
            },
            _ => {},
        }
    }
}

} // verus!
