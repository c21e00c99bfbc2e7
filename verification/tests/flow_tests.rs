use raydium_swap::flow::{step, Event, Stage};

#[test]
fn happy_path_reaches_done() {
    let mut s = Stage::FetchFee;
    s = step(&s, &Event::FeeFetched { ok: true });
    assert_eq!(s, Stage::FetchQuote);
    s = step(&s, &Event::QuoteFetched { ok: true });
    assert_eq!(s, Stage::BuildTx);
    s = step(&s, &Event::TxBuilt { ok: true, legs: 1 });
    assert_eq!(s, Stage::SendLeg { next: 0, total: 1 });
    s = step(&s, &Event::LegSent { ok: true });
    assert_eq!(s, Stage::ConfirmLeg { sent: 0, total: 1 });
    s = step(&s, &Event::LegConfirmed { ok: true });
    assert_eq!(s, Stage::Done { total: 1 });
}

#[test]
fn fee_failure_aborts_before_any_send() {
    let s = step(&Stage::FetchFee, &Event::FeeFetched { ok: false });
    assert_eq!(s, Stage::Aborted);
}

#[test]
fn quote_failure_aborts() {
    let s = step(&Stage::FetchQuote, &Event::QuoteFetched { ok: false });
    assert_eq!(s, Stage::Aborted);
}

#[test]
fn builder_failure_aborts() {
    let s = step(&Stage::BuildTx, &Event::TxBuilt { ok: false, legs: 0 });
    assert_eq!(s, Stage::Aborted);
}

#[test]
fn legs_are_sent_in_order_and_failure_halts() {
    let mut s = Stage::BuildTx;
    s = step(&s, &Event::TxBuilt { ok: true, legs: 3 });
    assert_eq!(s, Stage::SendLeg { next: 0, total: 3 });
    s = step(&s, &Event::LegSent { ok: true });
    s = step(&s, &Event::LegConfirmed { ok: true });
    assert_eq!(s, Stage::SendLeg { next: 1, total: 3 });
    s = step(&s, &Event::LegSent { ok: true });
    s = step(&s, &Event::LegConfirmed { ok: false });
    assert_eq!(s, Stage::Aborted);
    s = step(&s, &Event::LegSent { ok: true });
    assert_eq!(s, Stage::Aborted);
}

#[test]
fn zero_legs_finish_immediately() {
    let s = step(&Stage::BuildTx, &Event::TxBuilt { ok: true, legs: 0 });
    assert_eq!(s, Stage::Done { total: 0 });
}

#[test]
fn done_is_final() {
    let s = step(&Stage::Done { total: 2 }, &Event::LegSent { ok: true });
    assert_eq!(s, Stage::Done { total: 2 });
}

#[test]
fn mismatched_event_aborts() {
    let s = step(&Stage::FetchFee, &Event::LegConfirmed { ok: true });
    assert_eq!(s, Stage::Aborted);
}
