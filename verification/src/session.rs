//! The decisions of one connection's session.
//!
//! A session is a supervisor and two loops. The supervisor sends the
//! handshake, starts the loops and ends the session when either loop ends.
//! The read loop turns what arrives on the socket into commands; the write
//! loop forwards private and room-wide messages to the socket. Every function
//! here is a pure step: the caller performs the I/O, reports what happened,
//! and carries out the answer.

use crate::encoding::{base64_len, png_rgba8};
use crate::limiter::{
    at_most,
    in_order_from,
    law_wait_after_last_request,
    Bucket,
    RateLimiter,
    REFILL_INTERVAL_MS,
    REFILL_TOKENS,
};
use crate::model::{
    dabs_verdict,
    ClientMsg,
    ClientMsgView,
    DabsError,
    DabsPayload,
    DabsPayloadView,
    ServerMsg,
    ServerMsgView,
};
use crate::tile::Tile;
use vstd::prelude::*;

verus! {

/// Largest text frame that is decoded, in bytes. Longer frames are skipped.
pub const MAX_FRAME_BYTES: usize = 65536;

/// How long the read loop waits for a frame before it gives the peer up.
pub const IDLE_TIMEOUT_MS: u64 = 60000;

/// Where a session stands in its life.
#[derive(Clone, Copy, Debug, PartialEq, Eq, Structural)]
pub enum Phase {
    /// Upgraded; the handshake message has not gone out yet.
    Connecting,
    /// Both loops are running.
    Active,
    /// One loop has ended; the other is being cancelled.
    Closing,
    /// Nothing runs and nothing is held any more.
    Closed,
}

/// What the supervisor learns about its session.
#[derive(Clone, Copy, Debug, PartialEq, Eq, Structural)]
pub enum Signal {
    /// The handshake message was written to the socket.
    HandshakeSent,
    /// Writing the handshake message failed.
    HandshakeFailed,
    /// The read loop has ended.
    ReaderDone,
    /// The write loop has ended.
    WriterDone,
}

/// What the supervisor must do next.
#[derive(Clone, Copy, Debug, PartialEq, Eq, Structural)]
pub enum Directive {
    /// Subscribe to the room and start the read and write loops.
    StartLoops,
    /// Cancel the write loop.
    CancelWriter,
    /// Cancel the read loop.
    CancelReader,
    /// Drop the subscription and the private channel.
    Release,
    /// The signal does not concern this phase; do nothing.
    Nothing,
}

/// The session's transition table.
pub open spec fn transition(phase: Phase, signal: Signal) -> (Phase, Directive) {
    match (phase, signal) {
        (Phase::Connecting, Signal::HandshakeSent) => (Phase::Active, Directive::StartLoops),
        (Phase::Connecting, Signal::HandshakeFailed) => (Phase::Closed, Directive::Release),
        (Phase::Active, Signal::ReaderDone) => (Phase::Closing, Directive::CancelWriter),
        (Phase::Active, Signal::WriterDone) => (Phase::Closing, Directive::CancelReader),
        (Phase::Closing, Signal::ReaderDone) => (Phase::Closed, Directive::Release),
        (Phase::Closing, Signal::WriterDone) => (Phase::Closed, Directive::Release),
        _ => (phase, Directive::Nothing),
    }
}

/// The phase reached from `phase` after `signals`, in order.
pub open spec fn phase_after(phase: Phase, signals: Seq<Signal>) -> Phase
    decreases signals.len(),
{
    if signals.len() == 0 {
        phase
    } else {
        phase_after(transition(phase, signals.first()).0, signals.drop_first())
    }
}

/// How far along its life a phase is.
pub open spec fn progress(phase: Phase) -> nat {
    match phase {
        Phase::Connecting => 0,
        Phase::Active => 1,
        Phase::Closing => 2,
        Phase::Closed => 3,
    }
}

/// Moves a session on by one signal.
pub fn advance(phase: Phase, signal: Signal) -> (next: (Phase, Directive))
    ensures
        next == transition(phase, signal),
{
    match phase {
        Phase::Connecting => match signal {
            Signal::HandshakeSent => (Phase::Active, Directive::StartLoops),
            Signal::HandshakeFailed => (Phase::Closed, Directive::Release),
            _ => (phase, Directive::Nothing),
        },
        Phase::Active => match signal {
            Signal::ReaderDone => (Phase::Closing, Directive::CancelWriter),
            Signal::WriterDone => (Phase::Closing, Directive::CancelReader),
            _ => (phase, Directive::Nothing),
        },
        Phase::Closing => match signal {
            Signal::ReaderDone | Signal::WriterDone => (Phase::Closed, Directive::Release),
            _ => (phase, Directive::Nothing),
        },
        Phase::Closed => (phase, Directive::Nothing),
    }
}

/// The handshake message: the peer's port and the room it is bound to.
pub fn hello(port: u16, room_id: u128) -> (msg: ServerMsg)
    ensures
        msg@ == (ServerMsgView::Debug { port, room_id }),
{
    ServerMsg::Debug { port, room_id }
}

/// A session never moves backwards, whatever it is told.
pub proof fn law_phases_only_advance(phase: Phase, signals: Seq<Signal>)
    ensures
        progress(phase_after(phase, signals)) >= progress(phase),
    decreases signals.len(),
{
    if signals.len() > 0 {
        law_phases_only_advance(transition(phase, signals.first()).0, signals.drop_first());
    }
}

/// A closed session stays closed.
pub proof fn law_closed_is_final(signals: Seq<Signal>)
    ensures
        phase_after(Phase::Closed, signals) == Phase::Closed,
    decreases signals.len(),
{
    if signals.len() > 0 {
        law_closed_is_final(signals.drop_first());
    }
}

/// The loops are started at most once, and only by a handshake that went
/// out while the session was connecting; a failed handshake closes the
/// session before any loop runs.
pub proof fn law_loops_need_handshake(phase: Phase, signal: Signal)
    ensures
        transition(phase, signal).1 == Directive::StartLoops <==> phase == Phase::Connecting
            && signal == Signal::HandshakeSent,
        transition(Phase::Connecting, Signal::HandshakeFailed) == (
            Phase::Closed,
            Directive::Release,
        ),
{
}

/// When one loop of an active session ends, the other one is cancelled, and
/// the session closes as soon as that one has ended too.
pub proof fn law_first_exit_wins(first: Signal, second: Signal)
    requires
        first == Signal::ReaderDone || first == Signal::WriterDone,
        second == Signal::ReaderDone || second == Signal::WriterDone,
    ensures
        transition(Phase::Active, first).0 == Phase::Closing,
        transition(Phase::Active, Signal::ReaderDone).1 == Directive::CancelWriter,
        transition(Phase::Active, Signal::WriterDone).1 == Directive::CancelReader,
        phase_after(Phase::Active, seq![first, second]) == Phase::Closed,
{
    let s = seq![first, second];
    assert(s.first() == first);
    assert(s.drop_first() =~= seq![second]);
    assert(seq![second].first() == second);
    assert(seq![second].drop_first() =~= Seq::<Signal>::empty());
    reveal_with_fuel(phase_after, 3);
}

/// What the socket's read side reports.
#[derive(Clone, Copy, Debug, PartialEq, Eq, Structural)]
pub enum Inbound {
    /// A text frame of `len` bytes.
    Text { len: usize },
    /// A binary frame.
    Binary,
    /// A ping frame.
    Ping,
    /// A pong frame.
    Pong,
    /// A close frame.
    Close,
    /// The stream has ended.
    Ended,
    /// The transport reported an error.
    Failed,
    /// No frame arrived within `IDLE_TIMEOUT_MS`.
    Idle,
}

/// What the read loop does with what arrived.
#[derive(Clone, Copy, Debug, PartialEq, Eq, Structural)]
pub enum Intake {
    /// Decode the text and hand the outcome to [`Reader::on_message`].
    Decode,
    /// Ignore it and wait for the next frame.
    Skip,
    /// Leave the read loop.
    Stop,
}

/// The read loop's verdict on an arrival.
pub open spec fn intake_of(inbound: Inbound) -> Intake {
    match inbound {
        Inbound::Text { len } => if len <= MAX_FRAME_BYTES {
            Intake::Decode
        } else {
            Intake::Skip
        },
        Inbound::Binary | Inbound::Ping | Inbound::Pong => Intake::Skip,
        Inbound::Close | Inbound::Ended | Inbound::Failed | Inbound::Idle => Intake::Stop,
    }
}

/// Decides what the read loop does with an arrival.
pub fn intake(inbound: Inbound) -> (verdict: Intake)
    ensures
        verdict == intake_of(inbound),
{
    match inbound {
        Inbound::Text { len } => {
            if len > MAX_FRAME_BYTES {
                Intake::Skip
            } else {
                Intake::Decode
            }
        },
        Inbound::Binary => Intake::Skip,
        Inbound::Ping => Intake::Skip,
        Inbound::Pong => Intake::Skip,
        Inbound::Close => Intake::Stop,
        Inbound::Ended => Intake::Stop,
        Inbound::Failed => Intake::Stop,
        Inbound::Idle => Intake::Stop,
    }
}

/// Why a message was dropped without effect.
#[derive(Clone, Copy, Debug, PartialEq, Eq, Structural)]
pub enum Dropped {
    /// The text could not be decoded as a client message.
    Malformed,
    /// The paint operation breaks a rule of the wire protocol.
    Invalid(DabsError),
    /// The connection has used up its tokens.
    RateLimited,
}

/// What the read loop must carry out for one decoded message.
#[derive(Clone, Debug, PartialEq, Eq)]
pub enum Command {
    /// Snapshot the tile and send the patch on this connection's private
    /// channel only.
    Snapshot,
    /// Apply the operation to the tile, then publish it to the room's hub.
    Paint(DabsPayload),
    /// Do nothing; the connection stays open.
    Drop(Dropped),
}

/// The mathematical content of a [`Command`].
pub enum CommandView {
    Snapshot,
    Paint(DabsPayloadView),
    Drop(Dropped),
}

impl View for Command {
    type V = CommandView;

    open spec fn view(&self) -> CommandView {
        match self {
            Command::Snapshot => CommandView::Snapshot,
            Command::Paint(payload) => CommandView::Paint(payload@),
            Command::Drop(why) => CommandView::Drop(*why),
        }
    }
}

/// The content of a decoding outcome: `None` stands for text that is not a
/// client message.
pub open spec fn decoded_view(decoded: Option<ClientMsg>) -> Option<ClientMsgView> {
    match decoded {
        Some(msg) => Some(msg@),
        None => None,
    }
}

/// The command a decoding outcome leads to, for a connection whose bucket
/// is `bucket` at instant `now`.
pub open spec fn command_for(bucket: Bucket, decoded: Option<ClientMsgView>, now: nat)
    -> CommandView {
    match decoded {
        None => CommandView::Drop(Dropped::Malformed),
        Some(ClientMsgView::Join { since }) => CommandView::Snapshot,
        Some(ClientMsgView::Dabs(payload)) => match dabs_verdict(payload.dabs.len()) {
            Err(e) => CommandView::Drop(Dropped::Invalid(e)),
            Ok(()) => if bucket.admits(now) {
                CommandView::Paint(payload)
            } else {
                CommandView::Drop(Dropped::RateLimited)
            },
        },
    }
}

/// The bucket after a decoding outcome was handled at instant `now`. Only a
/// valid paint operation is charged.
pub open spec fn bucket_after(bucket: Bucket, decoded: Option<ClientMsgView>, now: nat) -> Bucket {
    match decoded {
        Some(ClientMsgView::Dabs(payload)) => if payload.is_valid() {
            bucket.after(now)
        } else {
            bucket
        },
        _ => bucket,
    }
}

/// The state of one connection's read loop.
pub struct Reader {
    limiter: RateLimiter,
}

impl Reader {
    /// The bucket that gates this connection's paint operations.
    pub closed spec fn bucket(&self) -> Bucket {
        self.limiter@
    }

    /// The read loop of a connection opened at `now_ms`, its bucket full.
    pub fn new(now_ms: u64) -> (reader: Reader)
        ensures
            reader.bucket() == Bucket::full(now_ms as nat),
    {
        Reader { limiter: RateLimiter::new(now_ms) }
    }

    /// Tokens this connection has left without a further refill.
    pub fn tokens(&self) -> (n: u32)
        ensures
            n == self.bucket().tokens,
            self.bucket().wf(),
    {
        self.limiter.tokens()
    }

    /// Decides what to do with one decoded message, read at `now_ms`. Pass
    /// `None` for text that could not be decoded.
    ///
    /// A join asks for a snapshot. A paint operation is validated first and
    /// rate-limited second, so an invalid one costs no token; only an
    /// operation that passes both is handed back to be applied and published.
    pub fn on_message(&mut self, decoded: Option<ClientMsg>, now_ms: u64) -> (command: Command)
        ensures
            command@ == command_for(old(self).bucket(), decoded_view(decoded), now_ms as nat),
            final(self).bucket() == bucket_after(
                old(self).bucket(),
                decoded_view(decoded),
                now_ms as nat,
            ),
            command@ matches CommandView::Paint(payload) ==> payload.is_valid(),
    {
        match decoded {
            None => Command::Drop(Dropped::Malformed),
            Some(ClientMsg::Join { since: _ }) => Command::Snapshot,
            Some(ClientMsg::Dabs(payload)) => match payload.validate() {
                Err(e) => Command::Drop(Dropped::Invalid(e)),
                Ok(()) => {
                    if self.limiter.try_consume(now_ms) {
                        Command::Paint(payload)
                    } else {
                        Command::Drop(Dropped::RateLimited)
                    }
                },
            },
        }
    }
}

/// The message that tells a room about a paint operation.
pub fn echo_of(payload: DabsPayload) -> (msg: ServerMsg)
    ensures
        msg@ == ServerMsgView::Dabs(payload@),
{
    ServerMsg::Dabs(payload)
}

/// Answers a join: the patch that describes `tile` as it is now, to be sent
/// to the joining connection alone. Every tile has a patch, so there is
/// always a reply; should the encoder ever answer otherwise, nothing is sent
/// to anyone, and the connection and the room go on as before.
pub fn join_reply(tile: &Tile) -> (reply: Option<ServerMsg>)
    ensures
        reply matches Some(msg) && msg@ == tile@.patch(),
        base64_len(png_rgba8(tile@.pixels, tile@.width, tile@.height).len()) <= usize::MAX,
{
    match tile.patch() {
        Ok(msg) => Some(msg),
        Err(_) => None,
    }
}

/// Carries out a paint command on the room's tile. `painted` is the canvas
/// with the operation's dabs composited onto it. The tile takes the canvas
/// and moves to its next version, and the operation is handed back as the
/// message to publish; if the tile refuses the canvas it is left as it was
/// and nothing is to be published.
pub fn paint(tile: &mut Tile, payload: DabsPayload, painted: Vec<u8>) -> (echo: Option<ServerMsg>)
    ensures
        final(tile)@.wf(),
        match echo {
            Some(msg) => {
                &&& old(tile)@.apply_verdict(painted@).is_ok()
                &&& final(tile)@ == old(tile)@.applied(painted@)
                &&& msg@ == ServerMsgView::Dabs(payload@)
            },
            None => {
                &&& old(tile)@.apply_verdict(painted@).is_err()
                &&& final(tile)@ == old(tile)@
            },
        },
{
    match tile.apply(painted) {
        Ok(_) => Some(echo_of(payload)),
        Err(_) => None,
    }
}

/// A paint operation whose values do not form whole dabs, or that carries
/// more than the allowed number of values, is never handed on to a tile or a
/// hub, and it costs the connection nothing.
pub proof fn law_validation_boundary(bucket: Bucket, payload: DabsPayloadView, now: nat)
    requires
        payload.dabs.len() % 4 != 0 || payload.dabs.len() > 4096,
    ensures
        !(command_for(bucket, Some(ClientMsgView::Dabs(payload)), now) is Paint),
        command_for(bucket, Some(ClientMsgView::Dabs(payload)), now) is Drop,
        bucket_after(bucket, Some(ClientMsgView::Dabs(payload)), now) == bucket,
{
}

/// Whatever arrives, a paint command carries exactly the operation that was
/// received, and that operation is valid and was admitted by the bucket.
pub proof fn law_paint_is_validated(bucket: Bucket, decoded: Option<ClientMsgView>, now: nat)
    ensures
        command_for(bucket, decoded, now) matches CommandView::Paint(payload) ==> decoded == Some(
            ClientMsgView::Dabs(payload),
        ) && payload.is_valid() && bucket.admits(now),
{
}

/// A paint operation together with the instant at which it is read.
pub struct PaintFrame {
    pub payload: DabsPayloadView,
    pub at: nat,
}

/// The instants of a run of frames.
pub open spec fn instants(frames: Seq<PaintFrame>) -> Seq<nat> {
    Seq::new(frames.len(), |i: int| frames[i].at)
}

/// How many of a connection's paint frames, handled in order, become paint
/// commands.
pub open spec fn painted(bucket: Bucket, frames: Seq<PaintFrame>) -> nat
    decreases frames.len(),
{
    if frames.len() == 0 {
        0
    } else {
        let msg = Some(ClientMsgView::Dabs(frames.first().payload));
        let rest = painted(
            bucket_after(bucket, msg, frames.first().at),
            frames.drop_first(),
        );
        if command_for(bucket, msg, frames.first().at) is Paint {
            rest + 1
        } else {
            rest
        }
    }
}

/// The bucket of a connection after a run of paint frames.
pub open spec fn bucket_after_frames(bucket: Bucket, frames: Seq<PaintFrame>) -> Bucket
    decreases frames.len(),
{
    if frames.len() == 0 {
        bucket
    } else {
        bucket_after_frames(
            bucket_after(
                bucket,
                Some(ClientMsgView::Dabs(frames.first().payload)),
                frames.first().at,
            ),
            frames.drop_first(),
        )
    }
}

/// Valid paint frames are gated by the bucket and by nothing else: as many
/// become paint commands as the bucket admits requests at their instants,
/// and the bucket is charged for exactly those.
pub proof fn law_valid_frames_paint_as_admitted(bucket: Bucket, frames: Seq<PaintFrame>)
    requires
        forall|i: int| 0 <= i < frames.len() ==> (#[trigger] frames[i]).payload.is_valid(),
    ensures
        painted(bucket, frames) == bucket.admitted(instants(frames)),
        bucket_after_frames(bucket, frames) == bucket.after_all(instants(frames)),
    decreases frames.len(),
{
    if frames.len() > 0 {
        let head = frames.first();
        let rest = frames.drop_first();
        assert(head == frames[0]);
        assert(instants(frames).first() == head.at);
        assert(instants(frames).drop_first() =~= instants(rest));
        assert forall|i: int| 0 <= i < rest.len() implies (#[trigger] rest[i]).payload.is_valid() by {
            assert(rest[i] == frames[i + 1]);
        }
        law_valid_frames_paint_as_admitted(bucket.after(head.at), rest);
    } else {
        assert(instants(frames) =~= Seq::<nat>::empty());
    }
}

/// A connection that has sent paint frames and then falls silent for one
/// refill interval finds its next valid frames painted again: at least five
/// of them, or all if they are fewer. The clock is taken never to run
/// backwards.
pub proof fn law_painting_resumes_after_wait(
    bucket: Bucket,
    seen: Seq<PaintFrame>,
    later: Seq<PaintFrame>,
)
    requires
        bucket.wf(),
        seen.len() > 0,
        later.len() > 0,
        forall|i: int| 0 <= i < seen.len() ==> (#[trigger] seen[i]).payload.is_valid(),
        forall|i: int| 0 <= i < later.len() ==> (#[trigger] later[i]).payload.is_valid(),
        in_order_from(bucket.last_refill_ms, instants(seen)),
        later[0].at >= seen.last().at + REFILL_INTERVAL_MS,
    ensures
        painted(bucket_after_frames(bucket, seen), later) >= at_most(
            later.len(),
            REFILL_TOKENS as nat,
        ),
{
    law_valid_frames_paint_as_admitted(bucket, seen);
    law_valid_frames_paint_as_admitted(bucket_after_frames(bucket, seen), later);
    assert(instants(seen).last() == seen.last().at);
    assert(instants(later)[0] == later[0].at);
    law_wait_after_last_request(bucket, instants(seen), instants(later));
}

/// Which of the write loop's two inputs is served next.
#[derive(Clone, Copy, Debug, PartialEq, Eq, Structural)]
pub enum Source {
    /// This connection's private channel.
    Private,
    /// The room's hub.
    Hub,
}

/// Picks the input to serve. The private channel goes first whenever it has
/// a message, so that a snapshot is not starved by room traffic.
pub fn pick_source(private_ready: bool, hub_ready: bool) -> (source: Option<Source>)
    ensures
        private_ready ==> source == Some(Source::Private),
        !private_ready && hub_ready ==> source == Some(Source::Hub),
        !private_ready && !hub_ready ==> source.is_none(),
{
    if private_ready {
        Some(Source::Private)
    } else if hub_ready {
        Some(Source::Hub)
    } else {
        None
    }
}

/// What the write loop received from one of its inputs.
#[derive(Clone, Debug, PartialEq, Eq)]
pub enum Outbound {
    /// A message for this connection only.
    Private(String),
    /// A message published to the room.
    Hub(String),
    /// The hub dropped `missed` messages this subscriber was too slow for.
    HubLagged { missed: u64 },
    /// The hub has no publisher left.
    HubClosed,
    /// The private channel has no sender left.
    PrivateClosed,
}

/// What the write loop does next.
#[derive(Clone, Debug, PartialEq, Eq)]
pub enum WriteStep {
    /// Write this text to the socket.
    Send(String),
    /// Go on waiting for the next message.
    Continue,
    /// Leave the write loop.
    Stop,
}

/// Decides what the write loop does with what it received. Messages are
/// forwarded unchanged; falling behind on the hub is survived; only a hub
/// without publishers ends the loop.
pub fn on_outbound(outbound: Outbound) -> (step: WriteStep)
    ensures
        match outbound {
            Outbound::Private(text) => step matches WriteStep::Send(out) && out@ == text@,
            Outbound::Hub(text) => step matches WriteStep::Send(out) && out@ == text@,
            Outbound::HubLagged { missed } => step is Continue,
            Outbound::PrivateClosed => step is Continue,
            Outbound::HubClosed => step is Stop,
        },
{
    match outbound {
        Outbound::Private(text) => WriteStep::Send(text),
        Outbound::Hub(text) => WriteStep::Send(text),
        Outbound::HubLagged { missed: _ } => WriteStep::Continue,
        Outbound::PrivateClosed => WriteStep::Continue,
        Outbound::HubClosed => WriteStep::Stop,
    }
}

/// Whether the write loop goes on after an attempt to write to the socket:
/// it does exactly when the write succeeded.
pub fn after_send(delivered: bool) -> (step: WriteStep)
    ensures
        delivered ==> step is Continue,
        !delivered ==> step is Stop,
{
    if delivered {
        WriteStep::Continue
    } else {
        WriteStep::Stop
    }
}

} // verus!
