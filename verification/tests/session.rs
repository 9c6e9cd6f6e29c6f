use canvas_server::model::{ClientMsg, DabsError, DabsPayload, ServerMsg};
use canvas_server::session::{
    advance, after_send, echo_of, hello, intake, join_reply, on_outbound, paint, pick_source,
    Command, Directive, Dropped, Inbound, Intake, Outbound, Phase, Reader, Signal, Source,
    WriteStep, IDLE_TIMEOUT_MS, MAX_FRAME_BYTES,
};
use canvas_server::tile::Tile;

fn dabs(tool: u8, len: usize) -> DabsPayload {
    DabsPayload { tool, dabs: (0..len as u32).collect() }
}

fn run(mut phase: Phase, signals: &[Signal]) -> Phase {
    for s in signals {
        phase = advance(phase, *s).0;
    }
    phase
}

#[test]
fn session_limits() {
    assert_eq!(MAX_FRAME_BYTES, 64 * 1024);
    assert_eq!(IDLE_TIMEOUT_MS, 60 * 1000);
}

#[test]
fn handshake_sent_starts_the_loops() {
    assert_eq!(
        advance(Phase::Connecting, Signal::HandshakeSent),
        (Phase::Active, Directive::StartLoops)
    );
}

#[test]
fn handshake_failure_closes_before_any_loop_runs() {
    assert_eq!(
        advance(Phase::Connecting, Signal::HandshakeFailed),
        (Phase::Closed, Directive::Release)
    );
}

#[test]
fn reader_exit_cancels_the_writer() {
    assert_eq!(
        advance(Phase::Active, Signal::ReaderDone),
        (Phase::Closing, Directive::CancelWriter)
    );
}

#[test]
fn writer_exit_cancels_the_reader() {
    assert_eq!(
        advance(Phase::Active, Signal::WriterDone),
        (Phase::Closing, Directive::CancelReader)
    );
}

#[test]
fn closing_ends_when_the_other_loop_has_ended() {
    assert_eq!(advance(Phase::Closing, Signal::ReaderDone), (Phase::Closed, Directive::Release));
    assert_eq!(advance(Phase::Closing, Signal::WriterDone), (Phase::Closed, Directive::Release));
}

#[test]
fn signals_out_of_place_are_ignored() {
    assert_eq!(advance(Phase::Connecting, Signal::ReaderDone), (Phase::Connecting, Directive::Nothing));
    assert_eq!(advance(Phase::Connecting, Signal::WriterDone), (Phase::Connecting, Directive::Nothing));
    assert_eq!(advance(Phase::Active, Signal::HandshakeSent), (Phase::Active, Directive::Nothing));
    assert_eq!(advance(Phase::Active, Signal::HandshakeFailed), (Phase::Active, Directive::Nothing));
    assert_eq!(advance(Phase::Closing, Signal::HandshakeSent), (Phase::Closing, Directive::Nothing));
    assert_eq!(advance(Phase::Closing, Signal::HandshakeFailed), (Phase::Closing, Directive::Nothing));
}

#[test]
fn closed_is_terminal() {
    for s in [Signal::HandshakeSent, Signal::HandshakeFailed, Signal::ReaderDone, Signal::WriterDone] {
        assert_eq!(advance(Phase::Closed, s), (Phase::Closed, Directive::Nothing));
    }
}

#[test]
fn a_whole_life() {
    assert_eq!(
        run(Phase::Connecting, &[Signal::HandshakeSent, Signal::WriterDone, Signal::ReaderDone]),
        Phase::Closed
    );
    assert_eq!(
        run(Phase::Connecting, &[Signal::HandshakeSent, Signal::ReaderDone, Signal::ReaderDone]),
        Phase::Closed
    );
    assert_eq!(run(Phase::Connecting, &[Signal::HandshakeSent, Signal::ReaderDone]), Phase::Closing);
    assert_eq!(
        run(Phase::Connecting, &[Signal::HandshakeFailed, Signal::HandshakeSent]),
        Phase::Closed
    );
}

#[test]
fn hello_reports_port_and_room() {
    assert_eq!(hello(4711, 99), ServerMsg::Debug { port: 4711, room_id: 99 });
    assert_eq!(hello(0, u128::MAX), ServerMsg::Debug { port: 0, room_id: u128::MAX });
}

#[test]
fn text_frames_up_to_64_kib_are_decoded() {
    assert_eq!(intake(Inbound::Text { len: 0 }), Intake::Decode);
    assert_eq!(intake(Inbound::Text { len: 1 }), Intake::Decode);
    assert_eq!(intake(Inbound::Text { len: 65535 }), Intake::Decode);
    assert_eq!(intake(Inbound::Text { len: 65536 }), Intake::Decode);
}

#[test]
fn oversized_text_frames_are_skipped_not_fatal() {
    assert_eq!(intake(Inbound::Text { len: 65537 }), Intake::Skip);
    assert_eq!(intake(Inbound::Text { len: usize::MAX }), Intake::Skip);
}

#[test]
fn control_and_binary_frames_are_skipped() {
    assert_eq!(intake(Inbound::Binary), Intake::Skip);
    assert_eq!(intake(Inbound::Ping), Intake::Skip);
    assert_eq!(intake(Inbound::Pong), Intake::Skip);
}

#[test]
fn close_end_error_and_silence_stop_the_reader() {
    assert_eq!(intake(Inbound::Close), Intake::Stop);
    assert_eq!(intake(Inbound::Ended), Intake::Stop);
    assert_eq!(intake(Inbound::Failed), Intake::Stop);
    assert_eq!(intake(Inbound::Idle), Intake::Stop);
}

#[test]
fn malformed_text_is_dropped() {
    let mut r = Reader::new(0);
    assert_eq!(r.on_message(None, 5), Command::Drop(Dropped::Malformed));
    assert_eq!(r.tokens(), 20);
}

#[test]
fn join_asks_for_a_snapshot_and_costs_nothing() {
    let mut r = Reader::new(0);
    for since in [0u64, 1, u64::MAX] {
        assert_eq!(r.on_message(Some(ClientMsg::Join { since }), 5), Command::Snapshot);
    }
    assert_eq!(r.tokens(), 20);
}

#[test]
fn valid_dabs_are_handed_on_unchanged() {
    let mut r = Reader::new(0);
    let p = dabs(1, 8);
    assert_eq!(r.on_message(Some(ClientMsg::Dabs(p.clone())), 5), Command::Paint(p));
    assert_eq!(r.tokens(), 19);
}

#[test]
fn invalid_dabs_never_become_a_paint_command() {
    let mut r = Reader::new(0);
    for len in [1usize, 2, 3, 5, 4095, 4097] {
        assert_eq!(
            r.on_message(Some(ClientMsg::Dabs(dabs(0, len))), 5),
            Command::Drop(Dropped::Invalid(DabsError::Ragged))
        );
    }
    for len in [4100usize, 8192] {
        assert_eq!(
            r.on_message(Some(ClientMsg::Dabs(dabs(0, len))), 5),
            Command::Drop(Dropped::Invalid(DabsError::TooMany))
        );
    }
    assert_eq!(r.tokens(), 20);
}

#[test]
fn longest_valid_operation_passes() {
    let mut r = Reader::new(0);
    let p = dabs(0, 4096);
    assert_eq!(r.on_message(Some(ClientMsg::Dabs(p.clone())), 0), Command::Paint(p));
}

#[test]
fn flooding_is_dropped_silently() {
    let mut r = Reader::new(1000);
    let mut painted = 0;
    let mut limited = 0;
    for i in 0..25u64 {
        match r.on_message(Some(ClientMsg::Dabs(dabs(0, 4))), 1000 + i) {
            Command::Paint(_) => painted += 1,
            Command::Drop(Dropped::RateLimited) => limited += 1,
            other => panic!("unexpected command {:?}", other),
        }
    }
    assert_eq!((painted, limited), (20, 5));
    assert_eq!(r.on_message(Some(ClientMsg::Join { since: 0 }), 1030), Command::Snapshot);
    assert!(matches!(r.on_message(Some(ClientMsg::Dabs(dabs(0, 4))), 1200), Command::Paint(_)));
    assert_eq!(r.tokens(), 4);
}

#[test]
fn echo_carries_the_operation() {
    let p = dabs(1, 4);
    assert_eq!(echo_of(p.clone()), ServerMsg::Dabs(p));
}

#[test]
fn private_messages_go_first() {
    assert_eq!(pick_source(true, true), Some(Source::Private));
    assert_eq!(pick_source(true, false), Some(Source::Private));
    assert_eq!(pick_source(false, true), Some(Source::Hub));
    assert_eq!(pick_source(false, false), None);
}

#[test]
fn messages_are_forwarded_unchanged() {
    assert_eq!(on_outbound(Outbound::Private("a".to_string())), WriteStep::Send("a".to_string()));
    assert_eq!(on_outbound(Outbound::Hub("{}".to_string())), WriteStep::Send("{}".to_string()));
    assert_eq!(on_outbound(Outbound::Hub(String::new())), WriteStep::Send(String::new()));
}

#[test]
fn lag_never_ends_the_writer() {
    for missed in [0u64, 1, 1024, u64::MAX] {
        assert_eq!(on_outbound(Outbound::HubLagged { missed }), WriteStep::Continue);
    }
}

#[test]
fn a_closed_hub_ends_the_writer() {
    assert_eq!(on_outbound(Outbound::HubClosed), WriteStep::Stop);
}

#[test]
fn a_closed_private_channel_does_not_end_the_writer() {
    assert_eq!(on_outbound(Outbound::PrivateClosed), WriteStep::Continue);
}

#[test]
fn a_failed_send_ends_the_writer() {
    assert_eq!(after_send(true), WriteStep::Continue);
    assert_eq!(after_send(false), WriteStep::Stop);
}

#[test]
fn join_reply_is_the_patch_of_the_tile() {
    let tile = Tile::new(4, 4);
    let reply = join_reply(&tile);
    assert_eq!(reply, Some(tile.patch().unwrap()));
    assert!(matches!(reply, Some(ServerMsg::TilePatch { tx: 0, ty: 0, version: 0, .. })));
}

#[test]
fn paint_advances_the_tile_and_echoes() {
    let mut tile = Tile::new(2, 2);
    let p = dabs(0, 4);
    let echo = paint(&mut tile, p.clone(), vec![7u8; 16]);
    assert_eq!(echo, Some(ServerMsg::Dabs(p)));
    assert_eq!(tile.version(), 1);
    assert_eq!(tile.pixels(), &[7u8; 16]);
}

#[test]
fn refused_canvas_is_not_echoed() {
    let mut tile = Tile::new(2, 2);
    assert_eq!(paint(&mut tile, dabs(0, 4), vec![7u8; 12]), None);
    assert_eq!(tile.version(), 0);
    assert_eq!(tile.pixels(), &[0u8; 16]);
}

#[test]
fn every_tile_has_a_join_reply() {
    for (w, h) in [(1u32, 1u32), (7, 3), (800, 800)] {
        let mut tile = Tile::new(w, h);
        assert!(join_reply(&tile).is_some());
        let len = tile.pixels().len();
        let noisy: Vec<u8> = (0..len).map(|i| (i * 2654435761usize >> 7) as u8).collect();
        tile.apply(noisy).unwrap();
        assert!(matches!(
            join_reply(&tile),
            Some(ServerMsg::TilePatch { tx: 0, ty: 0, version: 1, .. })
        ));
    }
}

#[test]
fn painting_resumes_after_a_silent_interval() {
    let mut r = Reader::new(5000);
    for i in 0..20u64 {
        assert!(matches!(
            r.on_message(Some(ClientMsg::Dabs(dabs(0, 4))), 5000 + i * 5),
            Command::Paint(_)
        ));
    }
    let last = 5000 + 19 * 5;
    assert_eq!(
        r.on_message(Some(ClientMsg::Dabs(dabs(0, 4))), last),
        Command::Drop(Dropped::RateLimited)
    );
    for _ in 0..5 {
        assert!(matches!(
            r.on_message(Some(ClientMsg::Dabs(dabs(0, 4))), last + 200),
            Command::Paint(_)
        ));
    }
}
