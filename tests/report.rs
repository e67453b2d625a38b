use ansi_csi::report::{
    parse_reply, PositionReport, ReplyParser, ReportEvent, ReportPhase, ReportStep,
};

#[test]
fn reply_reads_row_and_column() {
    assert_eq!(parse_reply(b"\x1b[12;40R"), Some((12, 40)));
    assert_eq!(parse_reply(b"\x1b[1;1R"), Some((1, 1)));
}

#[test]
fn reply_without_terminator_reports_nothing() {
    assert_eq!(parse_reply(b""), None);
    assert_eq!(parse_reply(b"\x1b[12;40"), None);
}

#[test]
fn reply_without_separator_has_row_zero() {
    assert_eq!(parse_reply(b"\x1b[7R"), Some((0, 7)));
}

#[test]
fn bytes_after_terminator_are_ignored() {
    assert_eq!(parse_reply(b"\x1b[3;5R9;9R"), Some((3, 5)));
}

#[test]
fn stray_bytes_are_skipped() {
    assert_eq!(parse_reply(b"x\x1b[1a2;b4?0R"), Some((12, 40)));
    assert_eq!(parse_reply(b"\x1b[12;40R"), parse_reply(b"\x1b[12 ;4\x070R"));
}

#[test]
fn large_numbers_stop_at_the_maximum() {
    let reply = format!("\x1b[{};99999999999999999999999R", usize::MAX);
    assert_eq!(parse_reply(reply.as_bytes()), Some((usize::MAX, usize::MAX)));
}

#[test]
fn parser_feeds_one_byte_at_a_time() {
    let mut p = ReplyParser::new();
    assert_eq!(p.feed(0x1b), None);
    assert_eq!(p.feed(b'['), None);
    assert_eq!(p.feed(b'2'), None);
    assert_eq!(p.feed(b'3'), None);
    assert_eq!(p.acc, 23);
    assert_eq!(p.feed(b';'), None);
    assert_eq!(p.row, 23);
    assert_eq!(p.acc, 0);
    assert_eq!(p.feed(b'8'), None);
    assert_eq!(p.feed(b'R'), Some((23, 8)));
    assert_eq!(p.feed(b'5'), Some((23, 8)));
    assert_eq!(p.position(), Some((23, 8)));
}

fn drive(events: &[ReportEvent]) -> (PositionReport, Vec<ReportStep>) {
    let mut report = PositionReport::new();
    let mut steps = Vec::new();
    for ev in events {
        steps.push(report.next(*ev));
    }
    (report, steps)
}

#[test]
fn report_reads_a_position() {
    let mut events = vec![ReportEvent::Begin, ReportEvent::EchoDisabled, ReportEvent::QuerySent];
    for b in b"\x1b[4;3R" {
        events.push(ReportEvent::Byte(*b));
    }
    events.push(ReportEvent::EchoRestored);
    let (report, steps) = drive(&events);
    assert_eq!(steps[0], ReportStep::DisableEcho);
    assert_eq!(steps[1], ReportStep::SendQuery);
    assert_eq!(steps[2], ReportStep::ReadByte);
    assert_eq!(steps[7], ReportStep::ReadByte);
    assert_eq!(steps[8], ReportStep::RestoreEcho);
    assert_eq!(steps[9], ReportStep::Finish(Some((4, 3))));
    assert_eq!(report.phase, ReportPhase::Finished);
}

#[test]
fn report_restores_echo_when_the_query_fails() {
    let (_, steps) = drive(&[
        ReportEvent::Begin,
        ReportEvent::EchoDisabled,
        ReportEvent::QueryFailed,
        ReportEvent::EchoRestored,
    ]);
    assert_eq!(
        steps,
        vec![
            ReportStep::DisableEcho,
            ReportStep::SendQuery,
            ReportStep::RestoreEcho,
            ReportStep::Finish(None),
        ]
    );
}

#[test]
fn report_restores_echo_when_no_reply_comes() {
    let (_, steps) = drive(&[
        ReportEvent::Begin,
        ReportEvent::EchoDisabled,
        ReportEvent::QuerySent,
        ReportEvent::Byte(0x1b),
        ReportEvent::Byte(b'['),
        ReportEvent::Byte(b'4'),
        ReportEvent::InputEnded,
        ReportEvent::Byte(b'R'),
        ReportEvent::EchoRestored,
        ReportEvent::Byte(b'R'),
    ]);
    assert_eq!(steps[6], ReportStep::RestoreEcho);
    assert_eq!(steps[7], ReportStep::RestoreEcho);
    assert_eq!(steps[8], ReportStep::Finish(None));
    assert_eq!(steps[9], ReportStep::Finish(None));
}

#[test]
fn report_finishes_when_echo_cannot_be_changed() {
    let (_, steps) = drive(&[ReportEvent::Begin, ReportEvent::EchoUnavailable]);
    assert_eq!(steps, vec![ReportStep::DisableEcho, ReportStep::Finish(None)]);
}
