use pcbusb::{
    check_status, classify_read, clear_filters_command, drain_continues, init_plan,
    plan_add_filter, receive_blocking_step, status_frames_off_command, Baudrate, Error, ErrorKind,
    Filter, FilterCommand, Frame, Id, Message, ReadOutcome, ReceiveStep, ACCEPTANCE_FILTER_11BIT,
    ACCEPTANCE_FILTER_29BIT, ALLOW_STATUS_FRAMES, ERROR_OK, ERROR_QRCVEMPTY, FILTER_CLOSE,
    FILTER_CUSTOM, FILTER_OPEN, MESSAGE_FILTER, MESSAGE_STANDARD, PARAMETER_OFF, USBBUS1,
};

/// The filter mode a channel reports after a command, as the driver
/// behaves: a mode write reports that mode, an acceptance write reports
/// custom mode.
fn apply(cmd: FilterCommand) -> u32 {
    match cmd {
        FilterCommand::SetMode(mode) => mode,
        FilterCommand::SetAcceptance { .. } => FILTER_CUSTOM,
    }
}

#[test]
fn second_custom_filter_is_rejected() {
    let first = Filter::new(Id::Standard(0x123));
    let second = Filter::new(Id::Standard(0x456));

    let mut mode = FILTER_CLOSE;
    let cmd = plan_add_filter(mode, &first).expect("first filter installs");
    assert_eq!(
        cmd,
        FilterCommand::SetAcceptance { parameter: ACCEPTANCE_FILTER_11BIT, mask: 0x7FF, id: 0x123 }
    );
    mode = apply(cmd);

    let err = plan_add_filter(mode, &second).expect_err("second filter must fail");
    assert_eq!(err.kind(), ErrorKind::AlreadyConfigured);
}

#[test]
fn clear_then_add_always_succeeds() {
    // Whatever was installed before, clearing closes the channel and the
    // next installation goes through.
    for prior in [FILTER_CLOSE, FILTER_OPEN, FILTER_CUSTOM] {
        let _ = prior;
        let mode = apply(clear_filters_command());
        assert_eq!(mode, FILTER_CLOSE);
        assert!(plan_add_filter(mode, &Filter::new(Id::Standard(0x10))).is_ok());
        assert!(plan_add_filter(mode, &Filter::new(Id::Extended(0x1000))).is_ok());
        assert!(plan_add_filter(mode, &Filter::accept_all()).is_ok());
    }
}

#[test]
fn accept_all_sets_the_open_mode() {
    let cmd = plan_add_filter(FILTER_CLOSE, &Filter::accept_all()).expect("accept-all installs");
    assert_eq!(cmd, FilterCommand::SetMode(FILTER_OPEN));
    assert_eq!(apply(cmd), FILTER_OPEN);
}

#[test]
fn extended_filter_targets_the_twenty_nine_bit_parameter() {
    let mut f = Filter::new(Id::Extended(0x1500));
    f.with_mask(0x1F00);
    let cmd = plan_add_filter(FILTER_OPEN, &f).expect("installs on an open channel");
    assert_eq!(
        cmd,
        FilterCommand::SetAcceptance { parameter: ACCEPTANCE_FILTER_29BIT, mask: 0x1F00, id: 0x1500 }
    );
}

#[test]
fn clearing_uses_the_filter_mode_parameter() {
    assert_eq!(clear_filters_command(), FilterCommand::SetMode(FILTER_CLOSE));
    let _ = MESSAGE_FILTER;
}

#[test]
fn check_status_accepts_only_ok() {
    assert!(check_status(ERROR_OK).is_ok());
    let err = check_status(0x4000).expect_err("hard status fails");
    assert_eq!(err.kind(), ErrorKind::DriverFailure);
    assert_eq!(err.code(), 0x4000);
}

#[test]
fn error_values_carry_kind_and_code() {
    let e = Error::new(5);
    assert_eq!(e.kind(), ErrorKind::DriverFailure);
    assert_eq!(e.code(), 5);
    assert_eq!(Error::already_configured().kind(), ErrorKind::AlreadyConfigured);
    assert_eq!(Error::malformed_frame().kind(), ErrorKind::MalformedFrame);
    assert_eq!(Error::already_configured().code(), 0);
}

#[test]
fn empty_queue_is_would_block_not_an_error() {
    let scratch = Message { id: 0, msgtype: 0, len: 0, data: [0; 8] };
    let outcome = classify_read(ERROR_QRCVEMPTY, &scratch);
    assert!(matches!(outcome, ReadOutcome::Empty));
    assert!(matches!(receive_blocking_step(outcome), ReceiveStep::Wait));
}

#[test]
fn hard_read_status_fails_with_its_code() {
    let scratch = Message { id: 0, msgtype: 0, len: 0, data: [0; 8] };
    match classify_read(0x8000, &scratch) {
        ReadOutcome::Failed(e) => {
            assert_eq!(e.kind(), ErrorKind::DriverFailure);
            assert_eq!(e.code(), 0x8000);
        }
        _ => panic!("a hard status must fail"),
    }
}

#[test]
fn undecodable_message_fails_as_malformed() {
    let bad = Message { id: 0x123, msgtype: 0x80, len: 0, data: [0; 8] };
    match classify_read(ERROR_OK, &bad) {
        ReadOutcome::Failed(e) => assert_eq!(e.kind(), ErrorKind::MalformedFrame),
        _ => panic!("an undecodable message must fail"),
    }
}

#[test]
fn transmit_scenario_at_500_kbit() {
    // Initialize at 500 kbit/s, transmit standard frame 0x123 with four
    // data bytes: the plan names the first USB channel and the 500 kbit/s
    // register code, the write encodes the frame, an ok status succeeds.
    let plan = init_plan(Baudrate::Baud500k);
    assert_eq!(plan.channel, USBBUS1);
    assert_eq!(plan.baudrate_code, 0x001C);
    assert_eq!((plan.hw_type, plan.io_port, plan.interrupt), (0, 0, 0));
    assert_eq!(status_frames_off_command(), (ALLOW_STATUS_FRAMES, PARAMETER_OFF));

    let frame = Frame::new(Id::Standard(0x123), &[0x01, 0x02, 0x03, 0x04]).unwrap();
    let m = frame.to_message();
    assert_eq!((m.id, m.msgtype, m.len), (0x123, MESSAGE_STANDARD, 4));
    assert!(check_status(ERROR_OK).is_ok());
}

#[test]
fn startup_drain_discards_stale_frames_then_delivers_fresh_ones() {
    // A simulated driver queue: two frames arrived before initialization,
    // then the queue runs empty, then one fresh frame arrives.
    let stale_a = Frame::new(Id::Standard(0x7A), &[9]).unwrap().to_message();
    let stale_b = Frame::new(Id::Standard(0x7B), &[8, 7]).unwrap().to_message();
    let scratch = Message { id: 0, msgtype: 0, len: 0, data: [0; 8] };

    // The drain keeps reading past every delivered frame and stops at the
    // first queue-empty report.
    assert!(drain_continues(&classify_read(ERROR_OK, &stale_a)));
    assert!(drain_continues(&classify_read(ERROR_OK, &stale_b)));
    assert!(!drain_continues(&classify_read(ERROR_QRCVEMPTY, &scratch)));

    // The blocking receive that follows parks once on the empty queue and
    // then delivers exactly the fresh frame, not a stale one.
    let waiting = receive_blocking_step(classify_read(ERROR_QRCVEMPTY, &scratch));
    assert!(matches!(waiting, ReceiveStep::Wait));

    let fresh = Frame::new(Id::Standard(0x123), &[1, 2, 3, 4]).unwrap();
    match receive_blocking_step(classify_read(ERROR_OK, &fresh.to_message())) {
        ReceiveStep::Deliver(got) => {
            assert_eq!(got.id(), Id::Standard(0x123));
            assert_eq!(got.data(), vec![1, 2, 3, 4]);
            assert!(!got.is_remote_frame());
        }
        _ => panic!("a delivered frame must reach the caller"),
    }
}

#[test]
fn drain_keeps_going_after_a_hard_error() {
    let scratch = Message { id: 0, msgtype: 0, len: 0, data: [0; 8] };
    assert!(drain_continues(&classify_read(0x4000, &scratch)));
}

#[test]
fn blocking_step_surfaces_hard_errors_at_once() {
    let scratch = Message { id: 0, msgtype: 0, len: 0, data: [0; 8] };
    match receive_blocking_step(classify_read(0x4000, &scratch)) {
        ReceiveStep::Fail(e) => {
            assert_eq!(e.kind(), ErrorKind::DriverFailure);
            assert_eq!(e.code(), 0x4000);
        }
        _ => panic!("a hard error must fail the blocking receive"),
    }
}
