use settlement_engine::lifecycle::{create_rfq, RfqParams};
use settlement_engine::rfq::{Key, Rfq, RfqState};

fn params() -> RfqParams {
    RfqParams {
        base_mint: [5u8; 32],
        quote_mint: [6u8; 32],
        bond_amount: 100,
        base_amount: 1000,
        min_quote_amount: 500,
        fee_amount: 10,
        facilitator_fee_bps: 0,
        commit_ttl_secs: 60,
        reveal_ttl_secs: 60,
        selection_ttl_secs: 60,
        fund_ttl_secs: 60,
    }
}

fn draft_rfq(created_at: i64) -> Rfq {
    let key: Key = [1u8; 32];
    let maker: Key = [2u8; 32];
    create_rfq(key, maker, [3u8; 32], [4u8; 32], &params(), created_at).unwrap()
}

#[test]
fn no_phase_deadlines_before_opening() {
    let rfq = draft_rfq(1000);
    assert_eq!(rfq.state, RfqState::Draft);
    assert_eq!(rfq.commit_deadline(), None);
    assert_eq!(rfq.reveal_deadline(), None);
    assert_eq!(rfq.selection_deadline(), None);
    // the funding horizon previews from creation time when never opened
    assert_eq!(rfq.funding_deadline(), Some(1000 + 240));
}

#[test]
fn deadlines_derive_from_opened_at() {
    let mut rfq = draft_rfq(1000);
    rfq.opened_at = Some(2000);
    rfq.state = RfqState::Open;
    assert_eq!(rfq.commit_deadline(), Some(2060));
    assert_eq!(rfq.reveal_deadline(), Some(2120));
    assert_eq!(rfq.selection_deadline(), Some(2180));
    assert_eq!(rfq.funding_deadline(), Some(2240));
}

#[test]
fn deadline_ordering_is_strict() {
    let mut rfq = draft_rfq(0);
    rfq.opened_at = Some(500);
    rfq.state = RfqState::Open;
    let c = rfq.commit_deadline().unwrap();
    let r = rfq.reveal_deadline().unwrap();
    let s = rfq.selection_deadline().unwrap();
    assert!(c < r);
    assert!(r < s);
}

#[test]
fn funding_deadline_anchors_to_selection() {
    let mut rfq = draft_rfq(0);
    rfq.opened_at = Some(100);
    rfq.state = RfqState::Selected;
    rfq.selected_at = Some(250);
    // selected_at + fund_ttl, never opened_at + total after selection
    assert_eq!(rfq.funding_deadline(), Some(310));
    assert_ne!(rfq.funding_deadline(), Some(100 + 240));
}

#[test]
fn phase_predicates() {
    let mut rfq = draft_rfq(0);
    assert!(rfq.is_draft());
    assert!(!rfq.has_selection());
    assert_eq!(rfq.opened(), None);
    rfq.state = RfqState::Selected;
    rfq.opened_at = Some(1);
    rfq.selected_at = Some(2);
    assert!(!rfq.is_draft());
    assert!(rfq.has_selection());
    assert_eq!(rfq.opened(), Some(1));
}
