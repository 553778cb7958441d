use lr2021::buffer::BUFFER_SIZE;
use lr2021::busy::{BusyAsync, BusyBlocking, WaitStep};
use lr2021::transport::{Action, Event, Transport, CMD_TIMEOUT_US, RESET_HOLD_US, RSP_TIMEOUT_US};
use lr2021::Lr2021Error;

/// Drives a transaction to its end: `answer` gives the event and the bytes
/// read for each action (with the bytes the transport sent for a transfer).
fn run<F>(t: &mut Transport, first: Action, mut answer: F) -> (Vec<Action>, Vec<Vec<u8>>)
where
    F: FnMut(&Action, &[u8]) -> (Event, Vec<u8>),
{
    let mut actions = vec![first];
    let mut sent = Vec::new();
    let mut a = first;
    let mut guard = 0;
    while !matches!(a, Action::Finish(_)) {
        let out = if a == Action::Transfer { t.outgoing() } else { Vec::new() };
        if a == Action::Transfer {
            sent.push(out.clone());
        }
        let (ev, rx) = answer(&a, &out);
        a = t.step(ev, &rx);
        actions.push(a);
        guard += 1;
        assert!(guard < 100);
    }
    (actions, sent)
}

fn result(actions: &[Action]) -> Result<(), Lr2021Error> {
    match actions.last() {
        Some(Action::Finish(r)) => *r,
        _ => panic!("transaction did not finish"),
    }
}

fn count(actions: &[Action], a: Action) -> usize {
    actions.iter().filter(|x| **x == a).count()
}

#[test]
fn oversized_command_is_refused_before_any_activity() {
    let mut t = Transport::new();
    let req = vec![0u8; BUFFER_SIZE + 1];
    let a = t.cmd_wr(&req);
    assert_eq!(a, Action::Finish(Err(Lr2021Error::InvalidSize)));
    assert!(!t.is_running());
    let a = t.cmd_wr_begin(&req);
    assert_eq!(a, Action::Finish(Err(Lr2021Error::InvalidSize)));
    let a = t.cmd_rd(&req, &[0u8; 4]);
    assert_eq!(a, Action::Finish(Err(Lr2021Error::InvalidSize)));
    let a = t.cmd_buf_wr(BUFFER_SIZE + 1);
    assert_eq!(a, Action::Finish(Err(Lr2021Error::InvalidSize)));
    let a = t.cmd_data_wr(&[0, 2], &vec![0u8; BUFFER_SIZE + 1]);
    assert_eq!(a, Action::Finish(Err(Lr2021Error::InvalidSize)));
}

#[test]
fn largest_command_is_accepted() {
    let mut t = Transport::new();
    let req = vec![0x02u8; BUFFER_SIZE];
    assert_eq!(t.cmd_wr(&req), Action::WaitReady(CMD_TIMEOUT_US));
}

#[test]
fn write_then_read_returns_response_and_header() {
    let mut t = Transport::new();
    let req = [0x01u8, 0x02];
    let rsp = [0u8; 6];
    let answer = [0x04u8, 0x05, 0xAA, 0xBB, 0xCC, 0xDD];
    let mut transfers = 0;
    let first = t.cmd_rd(&req, &rsp);
    let (actions, sent) = run(&mut t, first, |a, out| match a {
        Action::Transfer => {
            transfers += 1;
            if transfers == 1 {
                assert_eq!(out, &req[..]);
                (Event::Done, vec![0x04, 0x05])
            } else {
                (Event::Done, answer.to_vec())
            }
        },
        _ => (Event::Done, Vec::new()),
    });
    assert_eq!(result(&actions), Ok(()));
    assert_eq!(t.response(), answer.to_vec());
    assert_eq!(t.status().0, 0x0405);
    assert_eq!(sent, vec![req.to_vec(), rsp.to_vec()]);
    assert_eq!(
        actions,
        vec![
            Action::WaitReady(CMD_TIMEOUT_US),
            Action::SetNss(false),
            Action::Transfer,
            Action::SetNss(true),
            Action::WaitReady(RSP_TIMEOUT_US),
            Action::SetNss(false),
            Action::Transfer,
            Action::SetNss(true),
            Action::Finish(Ok(())),
        ]
    );
}

#[test]
fn busy_never_clearing_times_out_without_transfer() {
    let mut t = Transport::new();
    let first = t.cmd_wr(&[0x01, 0x00]);
    let (actions, _) = run(&mut t, first, |a, _| match a {
        Action::WaitReady(_) => (Event::Timeout, Vec::new()),
        _ => (Event::Done, Vec::new()),
    });
    assert_eq!(actions, vec![Action::WaitReady(CMD_TIMEOUT_US), Action::Finish(Err(Lr2021Error::BusyTimeout))]);

    let first = t.wake_up();
    let (actions, _) = run(&mut t, first, |a, _| match a {
        Action::WaitReady(_) => (Event::Timeout, Vec::new()),
        _ => (Event::Done, Vec::new()),
    });
    assert_eq!(
        actions,
        vec![
            Action::SetNss(false),
            Action::WaitReady(CMD_TIMEOUT_US),
            Action::SetNss(true),
            Action::Finish(Err(Lr2021Error::BusyTimeout)),
        ]
    );
}

#[test]
fn response_wait_timeout_stops_bus_traffic() {
    let mut t = Transport::new();
    let mut waits = 0;
    let first = t.cmd_rd(&[0x01, 0x00], &[0u8; 4]);
    let (actions, sent) = run(&mut t, first, |a, _| match a {
        Action::WaitReady(_) => {
            waits += 1;
            if waits == 1 { (Event::Done, Vec::new()) } else { (Event::Timeout, Vec::new()) }
        },
        Action::Transfer => (Event::Done, vec![0x04, 0x00]),
        _ => (Event::Done, Vec::new()),
    });
    assert_eq!(result(&actions), Err(Lr2021Error::BusyTimeout));
    assert_eq!(sent.len(), 1);
    assert_eq!(actions[actions.len() - 2], Action::WaitReady(RSP_TIMEOUT_US));
}

#[test]
fn polling_wait_times_out_on_simulated_clock() {
    let timeout = 1000u64;
    let mut elapsed = 0u64;
    let mut samples = 0;
    let step = loop {
        samples += 1;
        match BusyBlocking::wait_ready(Some(true), elapsed, timeout) {
            WaitStep::Poll => elapsed += 7,
            s => break s,
        }
    };
    assert_eq!(step, WaitStep::Failed(Lr2021Error::BusyTimeout));
    assert!(elapsed >= timeout && elapsed < timeout + 7);
    assert_eq!(samples, 144);
    assert_eq!(BusyBlocking::wait_ready(Some(false), 5000, timeout), WaitStep::Ready);
    assert_eq!(BusyBlocking::wait_ready(None, 0, timeout), WaitStep::Failed(Lr2021Error::Pin));
}

#[test]
fn interrupt_wait_decisions() {
    assert_eq!(BusyAsync::wait_ready(Some(false)), WaitStep::Ready);
    assert_eq!(BusyAsync::wait_ready(Some(true)), WaitStep::AwaitLow);
    assert_eq!(BusyAsync::wait_ready(None), WaitStep::Failed(Lr2021Error::Pin));
    assert_eq!(BusyAsync::wait_done(true), Ok(()));
    assert_eq!(BusyAsync::wait_done(false), Err(Lr2021Error::BusyTimeout));
}

#[test]
fn failed_command_releases_select_once() {
    let mut t = Transport::new();
    let first = t.cmd_wr(&[0x01, 0x00, 0x00]);
    let (actions, _) = run(&mut t, first, |a, _| match a {
        Action::Transfer => (Event::Done, vec![0x00, 0x00, 0x00]),
        _ => (Event::Done, Vec::new()),
    });
    assert_eq!(result(&actions), Err(Lr2021Error::CmdFail));
    assert_eq!(count(&actions, Action::SetNss(true)), 1);
    assert_eq!(count(&actions, Action::SetNss(false)), 1);
}

#[test]
fn parameter_error_is_reported() {
    let mut t = Transport::new();
    let first = t.cmd_wr(&[0x01, 0x00]);
    let (actions, _) = run(&mut t, first, |a, _| match a {
        Action::Transfer => (Event::Done, vec![0x02, 0x00]),
        _ => (Event::Done, Vec::new()),
    });
    assert_eq!(result(&actions), Err(Lr2021Error::CmdErr));
    assert_eq!(count(&actions, Action::SetNss(true)), 1);
}

#[test]
fn unknown_status_is_reported() {
    let mut t = Transport::new();
    let first = t.cmd_wr(&[0x01, 0x00]);
    let (actions, _) = run(&mut t, first, |a, _| match a {
        Action::Transfer => (Event::Done, vec![0x0E, 0x00]),
        _ => (Event::Done, Vec::new()),
    });
    assert_eq!(result(&actions), Err(Lr2021Error::Unknown));
}

#[test]
fn spi_failure_releases_select() {
    let mut t = Transport::new();
    let first = t.cmd_wr(&[0x01, 0x00]);
    let (actions, _) = run(&mut t, first, |a, _| match a {
        Action::Transfer => (Event::SpiFailed, Vec::new()),
        _ => (Event::Done, Vec::new()),
    });
    assert_eq!(result(&actions), Err(Lr2021Error::Spi));
    assert_eq!(actions[actions.len() - 2], Action::SetNss(true));
}

#[test]
fn pin_failure_is_reported() {
    let mut t = Transport::new();
    let first = t.cmd_wr(&[0x01, 0x00]);
    let (actions, _) = run(&mut t, first, |a, _| match a {
        Action::SetNss(false) => (Event::PinFailed, Vec::new()),
        _ => (Event::Done, Vec::new()),
    });
    assert_eq!(result(&actions), Err(Lr2021Error::Pin));
}

#[test]
fn reset_pulses_the_reset_line() {
    let mut t = Transport::new();
    let first = t.reset();
    let (actions, sent) = run(&mut t, first, |_, _| (Event::Done, Vec::new()));
    assert_eq!(
        actions,
        vec![
            Action::SetReset(false),
            Action::Delay(RESET_HOLD_US),
            Action::SetReset(true),
            Action::Delay(RESET_HOLD_US),
            Action::Finish(Ok(())),
        ]
    );
    assert_eq!(RESET_HOLD_US, 10_000);
    assert!(sent.is_empty());
}

#[test]
fn begin_leaves_select_asserted() {
    let mut t = Transport::new();
    let first = t.cmd_wr_begin(&[0x00, 0x02]);
    let (actions, _) = run(&mut t, first, |a, _| match a {
        Action::Transfer => (Event::Done, vec![0x04, 0x00]),
        _ => (Event::Done, Vec::new()),
    });
    assert_eq!(actions, vec![Action::WaitReady(CMD_TIMEOUT_US), Action::SetNss(false), Action::Transfer, Action::Finish(Ok(()))]);
}

#[test]
fn streamed_write_keeps_echo_in_data_region() {
    let mut t = Transport::new();
    let first = t.cmd_data_wr(&[0x00, 0x02], &[1, 2, 3]);
    let mut transfers = 0;
    let (actions, sent) = run(&mut t, first, |a, _| match a {
        Action::Transfer => {
            transfers += 1;
            if transfers == 1 { (Event::Done, vec![0x06, 0x00]) } else { (Event::Done, vec![9, 8, 7]) }
        },
        _ => (Event::Done, Vec::new()),
    });
    assert_eq!(result(&actions), Ok(()));
    assert_eq!(sent, vec![vec![0x00, 0x02], vec![1, 2, 3]]);
    assert_eq!(&t.buffer()[..3], &[9, 8, 7]);
    assert_eq!(t.status().0, 0x0600);
}

#[test]
fn streamed_read_returns_exchanged_bytes() {
    let mut t = Transport::new();
    let first = t.cmd_data_rw(&[0x00, 0x01], &[0, 0, 0, 0]);
    let mut transfers = 0;
    let (actions, _) = run(&mut t, first, |a, _| match a {
        Action::Transfer => {
            transfers += 1;
            if transfers == 1 { (Event::Done, vec![0x04, 0x00]) } else { (Event::Done, vec![5, 6, 7, 8]) }
        },
        _ => (Event::Done, Vec::new()),
    });
    assert_eq!(result(&actions), Ok(()));
    assert_eq!(t.response(), vec![5, 6, 7, 8]);
}

#[test]
fn buffer_command_sends_data_region() {
    let mut t = Transport::new();
    t.write_buffer(0, &[0x02, 0x2C, 0x00, 0x10]);
    let first = t.cmd_buf_wr(3);
    let (actions, sent) = run(&mut t, first, |a, _| match a {
        Action::Transfer => (Event::Done, vec![0x04, 0x05, 0x00]),
        _ => (Event::Done, Vec::new()),
    });
    assert_eq!(result(&actions), Ok(()));
    assert_eq!(sent, vec![vec![0x02, 0x2C, 0x00]]);
    assert_eq!(t.status().0, 0x0405);
}

#[test]
fn buffer_command_with_response() {
    let mut t = Transport::new();
    t.write_buffer(0, &[0x01, 0x00]);
    let first = t.cmd_buf_rd(2, &[0, 0, 0]);
    let mut transfers = 0;
    let (actions, _) = run(&mut t, first, |a, _| match a {
        Action::Transfer => {
            transfers += 1;
            if transfers == 1 { (Event::Done, vec![0x04, 0x00]) } else { (Event::Done, vec![0x06, 0x01, 0x42]) }
        },
        _ => (Event::Done, Vec::new()),
    });
    assert_eq!(result(&actions), Ok(()));
    assert_eq!(t.response(), vec![0x06, 0x01, 0x42]);
    assert_eq!(t.status().0, 0x0601);
}

#[test]
fn wake_up_selects_until_ready() {
    let mut t = Transport::new();
    let first = t.wake_up();
    let (actions, _) = run(&mut t, first, |_, _| (Event::Done, Vec::new()));
    assert_eq!(
        actions,
        vec![Action::SetNss(false), Action::WaitReady(CMD_TIMEOUT_US), Action::SetNss(true), Action::Finish(Ok(()))]
    );
}

#[test]
fn last_intr_reads_echoed_flags() {
    let mut t = Transport::new();
    let first = t.cmd_wr(&[0x01, 0x00, 0, 0, 0, 0, 0, 0]);
    let (actions, _) = run(&mut t, first, |a, _| match a {
        Action::Transfer => (Event::Done, vec![0x04, 0x00, 0x00, 0x00, 0x00, 0x04, 0x00, 0x00]),
        _ => (Event::Done, Vec::new()),
    });
    assert_eq!(result(&actions), Ok(()));
    assert!(t.last_intr().rx_done());
    assert_eq!(t.last_intr().value(), 0x0004_0000);
}

#[test]
fn memory_read_fills_buffer_head() {
    let mut t = Transport::new();
    let mut transfers = 0;
    let first = t.rd_mem(&[0x01, 0x06, 0x00, 0xF2, 0x00, 0x24, 0x01], 1);
    let (actions, sent) = run(&mut t, first, |a, _| match a {
        Action::Transfer => {
            transfers += 1;
            if transfers == 1 { (Event::Done, vec![0x04, 0x00, 0, 0, 0, 0, 0]) } else { (Event::Done, vec![0x04, 0x00, 0xAB, 0xCD]) }
        },
        _ => (Event::Done, Vec::new()),
    });
    assert_eq!(result(&actions), Ok(()));
    // the read sends a NOP header followed by the bytes echoed by the command
    assert_eq!(sent[1], vec![0x00, 0x00, 0x00, 0x00]);
    assert_eq!(&t.buffer()[..2], &[0xAB, 0xCD]);
    assert_eq!(actions[4], Action::WaitReady(RSP_TIMEOUT_US));
}

#[test]
fn memory_read_of_too_many_words_is_refused() {
    let mut t = Transport::new();
    assert_eq!(t.rd_mem(&[0x01, 0x06], 41), Action::Finish(Err(Lr2021Error::CmdErr)));
    assert_eq!(t.rd_mem(&[0x01, 0x06], 40), Action::WaitReady(CMD_TIMEOUT_US));
}
