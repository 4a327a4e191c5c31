use terminai_core::pump::{MAX_OUTPUT_BYTES, TRUNCATION_NOTICE};
use terminai_core::session::size_or_default;
use terminai_core::{OutputPump, PtyControl, PumpInput, PumpStep, ReadResult, TerminalSize};

fn step(emit: usize, notice: bool, kill: bool, exited: bool) -> PumpStep {
    PumpStep { emit, notice, kill, exited }
}

#[test]
fn session_resizes_and_stops_cleanly() {
    let mut s = PtyControl::new(None, MAX_OUTPUT_BYTES);
    assert_eq!(s.pump_poll(), step(0, false, false, false));
    assert_eq!(s.pump_read(ReadResult::Data(4)), step(4, false, false, false));
    assert_eq!(s.resize(30, 120), TerminalSize { rows: 30, cols: 120 });
    s.stop();
    let mut exits = 0usize;
    let st = s.pump_poll();
    if st.exited {
        exits += 1;
    }
    assert!(exits >= 1);
    assert!(!st.kill);
}

#[test]
fn default_size_is_24_by_80() {
    assert_eq!(size_or_default(None), TerminalSize { rows: 24, cols: 80 });
    assert_eq!(size_or_default(Some(TerminalSize { rows: 5, cols: 6 })), TerminalSize { rows: 5, cols: 6 });
    let s = PtyControl::new(None, 10);
    assert_eq!(s.size(), TerminalSize { rows: 24, cols: 80 });
    assert!(s.is_running());
}

#[test]
fn kill_now_twice_is_a_no_op() {
    let mut s = PtyControl::new(None, 10);
    assert!(s.kill_now());
    assert!(!s.kill_now());
    assert!(!s.is_running());
}

#[test]
fn ceiling_truncates_and_kills_once() {
    let mut s = PtyControl::new(None, 10);
    assert_eq!(s.pump_read(ReadResult::Data(4)), step(4, false, false, false));
    assert_eq!(s.pump_read(ReadResult::Data(4)), step(4, false, false, false));
    assert_eq!(s.pump_read(ReadResult::Data(4)), step(2, true, true, true));
    assert_eq!(s.emitted(), 10);
    assert!(!s.is_running());
    assert_eq!(s.pump_read(ReadResult::Data(4)), step(0, false, false, false));
    assert!(!s.kill_now());
    assert_eq!(TRUNCATION_NOTICE, "[output truncated]\n");
}

#[test]
fn ceiling_reached_exactly_truncates_before_next_read() {
    let mut s = PtyControl::new(None, 8);
    assert_eq!(s.pump_read(ReadResult::Data(8)), step(8, false, false, false));
    assert_eq!(s.pump_poll(), step(0, true, true, true));
}

#[test]
fn eof_and_errors_exit_without_notice() {
    let mut s = PtyControl::new(None, 8);
    assert_eq!(s.pump_read(ReadResult::Data(0)), step(0, false, false, true));
    let mut s = PtyControl::new(None, 8);
    assert_eq!(s.pump_read(ReadResult::Eof), step(0, false, false, true));
    let mut s = PtyControl::new(None, 8);
    assert_eq!(s.pump_read(ReadResult::Failed), step(0, false, false, true));
    assert!(s.kill_now());
}

#[test]
fn data_read_after_stop_is_discarded() {
    let mut s = PtyControl::new(None, 100);
    s.stop();
    assert_eq!(s.pump_read(ReadResult::Data(5)), step(0, false, false, true));
    assert_eq!(s.emitted(), 0);
}

#[test]
fn graceful_stop_respects_exit() {
    let mut s = PtyControl::new(None, 100);
    s.stop();
    assert!(!s.after_grace(true));
    let mut s = PtyControl::new(None, 100);
    s.stop();
    assert!(s.after_grace(false));
    assert!(!s.kill_now());
}

#[test]
fn resize_keeps_emitted_output() {
    let mut s = PtyControl::new(Some(TerminalSize { rows: 10, cols: 10 }), 100);
    s.pump_read(ReadResult::Data(7));
    s.resize(50, 200);
    assert_eq!(s.emitted(), 7);
    assert!(s.is_running());
    assert_eq!(s.size(), TerminalSize { rows: 50, cols: 200 });
}

#[test]
fn pump_keeps_read_order() {
    let chunks: [&[u8]; 3] = [b"a\n", b"b\n", b"c\n"];
    let mut pump = OutputPump::new(100);
    let mut out: Vec<u8> = Vec::new();
    for c in chunks.iter() {
        let st = pump.step(&PumpInput::Poll { live: true });
        assert!(!st.exited);
        let st = pump.step(&PumpInput::Read { live: true, result: ReadResult::Data(c.len()) });
        out.extend_from_slice(&c[..st.emit]);
    }
    assert_eq!(out, b"a\nb\nc\n");
    let st = pump.step(&PumpInput::Read { live: true, result: ReadResult::Eof });
    assert!(st.exited);
    assert!(pump.is_done());
}
