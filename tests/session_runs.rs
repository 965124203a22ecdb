use token_minter::session::{Action, Event, Phase, Session};

#[test]
fn empty_run_finishes_at_once() {
    let (s, a) = Session::start(0);
    assert_eq!(a, Action::Finish);
    assert_eq!(s.phase, Phase::Finished);
}

#[test]
fn metadata_goes_out_only_after_mint_is_confirmed() {
    let (mut s, a) = Session::start(2);
    assert_eq!(a, Action::FetchAnchor);
    // a confirmation before anything was submitted changes nothing
    assert_eq!(s.step(Event::Confirmed), Action::Wait);
    assert_eq!(s.confirmed, 0);
    assert_eq!(s.step(Event::AnchorFetched { anchor: [1; 32] }), Action::Submit { index: 0, anchor: [1; 32] });
    // a second anchor while awaiting the verdict submits nothing
    assert_eq!(s.step(Event::AnchorFetched { anchor: [2; 32] }), Action::Wait);
    assert_eq!(s.step(Event::Confirmed), Action::FetchAnchor);
    assert_eq!(s.confirmed, 1);
    assert_eq!(s.step(Event::AnchorFetched { anchor: [3; 32] }), Action::Submit { index: 1, anchor: [3; 32] });
    assert_eq!(s.step(Event::Confirmed), Action::Finish);
    assert_eq!(s.phase, Phase::Finished);
    assert_eq!(s.confirmed, 2);
}

#[test]
fn rejected_transaction_ends_the_run() {
    let (mut s, _) = Session::start(2);
    s.step(Event::AnchorFetched { anchor: [5; 32] });
    assert_eq!(s.step(Event::Rejected), Action::Abort);
    assert_eq!(s.phase, Phase::Failed);
    assert_eq!(s.confirmed, 0);
    assert_eq!(s.step(Event::AnchorFetched { anchor: [6; 32] }), Action::Wait);
    assert_eq!(s.step(Event::Confirmed), Action::Wait);
    assert_eq!(s.confirmed, 0);
}
