use portable_pty::{CommandBuilder, PtySize, native_pty_system};
use rabitty::session::{OutputEvent, ReadOutcome, SessionReader};
use std::io::Read;

#[test]
fn echo_session_emits_one_data_then_closed() {
    let pty_system = native_pty_system();
    let pair = pty_system
        .openpty(PtySize { rows: 24, cols: 80, pixel_width: 0, pixel_height: 0 })
        .expect("openpty");
    let mut cmd = CommandBuilder::new("echo");
    cmd.arg("hi");
    let mut child = pair.slave.spawn_command(cmd).expect("spawn echo");
    drop(pair.slave);
    let mut pty_reader = pair.master.try_clone_reader().expect("clone reader");

    let mut reader = SessionReader::new(42);
    let mut events: Vec<OutputEvent> = Vec::new();
    let mut buf = [0u8; 4096];
    loop {
        let outcome = match pty_reader.read(&mut buf) {
            Ok(0) => ReadOutcome::Eof,
            Ok(n) => ReadOutcome::Chunk(buf[..n].to_vec()),
            Err(e) if e.kind() == std::io::ErrorKind::Interrupted => ReadOutcome::Interrupted,
            Err(e) if e.kind() == std::io::ErrorKind::WouldBlock => ReadOutcome::WouldBlock,
            Err(_) => ReadOutcome::Failed,
        };
        let directive = reader.handle(outcome);
        if let Some(event) = directive.event {
            events.push(event);
        }
        if directive.stop {
            break;
        }
    }
    let _ = child.wait();
    drop(pair.master);

    assert_eq!(events.len(), 2, "expected exactly Data then Closed: {:?}", events);
    match &events[0] {
        OutputEvent::Data { tab_id, bytes } => {
            assert_eq!(*tab_id, 42);
            assert_eq!(bytes, b"hi\r\n");
        }
        other => panic!("expected Data first, got {:?}", other),
    }
    match &events[1] {
        OutputEvent::Closed { tab_id } => assert_eq!(*tab_id, 42),
        other => panic!("expected Closed last, got {:?}", other),
    }
}
