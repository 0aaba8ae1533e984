use invoicenow::invoice::{cancel_invoice, create_invoice, fund_escrow, mark_paid, release_milestone};
use invoicenow::{Holder, Invoice, InvoiceError, InvoiceStatus, Milestone, PartyId, Transfer};

fn party(n: u64) -> PartyId {
    PartyId { w0: n, w1: 0, w2: 0, w3: 0 }
}

fn milestone(desc: &str, amount: u64) -> Milestone {
    Milestone { description: desc.to_string(), amount, completed: false, completed_at: 0 }
}

fn invoice_with(amount: u64, milestones: Vec<Milestone>) -> Invoice {
    create_invoice(party(1), "INV-1".to_string(), amount, party(9), 5_000, "memo".to_string(), milestones, 100)
        .unwrap()
}

#[test]
fn create_invoice_is_pending_and_unpaid() {
    let inv = invoice_with(1000, vec![milestone("a", 500)]);
    assert_eq!(inv.status, InvoiceStatus::Pending);
    assert_eq!(inv.client, PartyId::unset());
    assert_eq!(inv.current_milestone, 0);
    assert_eq!(inv.paid_at, 0);
    assert_eq!(inv.created_at, 100);
    assert!(!inv.escrow_funded);
}

#[test]
fn create_invoice_rejects_long_id() {
    let id = "x".repeat(33);
    let r = create_invoice(party(1), id, 1, party(9), 0, String::new(), vec![], 0);
    assert_eq!(r.unwrap_err(), InvoiceError::InvoiceIdTooLong);
    let ok = create_invoice(party(1), "x".repeat(32), 1, party(9), 0, String::new(), vec![], 0);
    assert!(ok.is_ok());
}

#[test]
fn create_invoice_counts_bytes_not_chars() {
    // eleven three-byte characters: 33 bytes
    let id = "\u{20ac}".repeat(11);
    let r = create_invoice(party(1), id, 1, party(9), 0, String::new(), vec![], 0);
    assert_eq!(r.unwrap_err(), InvoiceError::InvoiceIdTooLong);
}

#[test]
fn create_invoice_rejects_long_memo() {
    let r = create_invoice(party(1), "id".to_string(), 1, party(9), 0, "m".repeat(257), vec![], 0);
    assert_eq!(r.unwrap_err(), InvoiceError::MemoTooLong);
}

#[test]
fn create_invoice_rejects_too_many_milestones() {
    let ms: Vec<Milestone> = (0..11).map(|i| milestone("m", i)).collect();
    let r = create_invoice(party(1), "id".to_string(), 1, party(9), 0, String::new(), ms, 0);
    assert_eq!(r.unwrap_err(), InvoiceError::TooManyMilestones);
    let ms: Vec<Milestone> = (0..10).map(|i| milestone("m", i)).collect();
    assert!(create_invoice(party(1), "id".to_string(), 1, party(9), 0, String::new(), ms, 0).is_ok());
}

#[test]
fn fund_escrow_moves_invoice_to_escrow_funded() {
    let mut inv = invoice_with(1000, vec![milestone("a", 400), milestone("b", 600)]);
    let (escrow, transfer) = fund_escrow(&mut inv, party(2), 1200).unwrap();
    assert_eq!(escrow.invoice_id, "INV-1");
    assert_eq!(transfer, Transfer { from: Holder::Client, to: Holder::EscrowVault, amount: 1200 });
    assert_eq!(inv.status, InvoiceStatus::EscrowFunded);
    assert_eq!(inv.client, party(2));
    assert!(inv.escrow_funded);
}

#[test]
fn fund_escrow_short_amount_fails_and_stays_pending() {
    let mut inv = invoice_with(1000, vec![milestone("a", 1000)]);
    let r = fund_escrow(&mut inv, party(2), 999);
    assert_eq!(r.unwrap_err(), InvoiceError::InsufficientFunding);
    assert_eq!(inv.status, InvoiceStatus::Pending);
    assert!(!inv.escrow_funded);
    assert_eq!(inv.client, PartyId::unset());
}

#[test]
fn fund_escrow_twice_is_rejected() {
    let mut inv = invoice_with(1000, vec![milestone("a", 1000)]);
    fund_escrow(&mut inv, party(2), 1000).unwrap();
    let r = fund_escrow(&mut inv, party(3), 5000);
    assert_eq!(r.unwrap_err(), InvoiceError::InvalidInvoiceStatus);
    assert_eq!(inv.client, party(2));
    assert_eq!(inv.status, InvoiceStatus::EscrowFunded);
}

#[test]
fn fund_escrow_needs_milestones() {
    let mut inv = invoice_with(1000, vec![]);
    assert_eq!(fund_escrow(&mut inv, party(2), 1000).unwrap_err(), InvoiceError::NoMilestones);
}

#[test]
fn milestones_release_in_order_until_paid() {
    let mut inv = invoice_with(1000, vec![milestone("a", 100), milestone("b", 200), milestone("c", 700)]);
    fund_escrow(&mut inv, party(2), 1000).unwrap();
    let amounts = [100u64, 200, 700];
    for (i, amount) in amounts.iter().enumerate() {
        assert_eq!(inv.status, InvoiceStatus::EscrowFunded);
        let t = release_milestone(&mut inv, party(1), 1000 + i as i64).unwrap();
        assert_eq!(t, Transfer { from: Holder::EscrowVault, to: Holder::Creator, amount: *amount });
        assert_eq!(inv.current_milestone as usize, i + 1);
        assert!(inv.milestones[i].completed);
        assert_eq!(inv.milestones[i].completed_at, 1000 + i as i64);
        if i + 1 < amounts.len() {
            assert_eq!(inv.status, InvoiceStatus::EscrowFunded);
            assert_eq!(inv.paid_at, 0);
            assert!(!inv.milestones[i + 1].completed);
        }
    }
    assert_eq!(inv.status, InvoiceStatus::Paid);
    assert_eq!(inv.paid_at, 1002);
    let r = release_milestone(&mut inv, party(2), 2000);
    assert_eq!(r.unwrap_err(), InvoiceError::InvalidInvoiceStatus);
    assert_eq!(inv.current_milestone, 3);
}

#[test]
fn release_by_client_is_allowed_and_stranger_is_not() {
    let mut inv = invoice_with(10, vec![milestone("a", 5), milestone("b", 5)]);
    fund_escrow(&mut inv, party(2), 10).unwrap();
    assert!(release_milestone(&mut inv, party(2), 1).is_ok());
    let r = release_milestone(&mut inv, party(7), 2);
    assert_eq!(r.unwrap_err(), InvoiceError::Unauthorized);
    assert_eq!(inv.current_milestone, 1);
    assert!(!inv.milestones[1].completed);
}

#[test]
fn release_needs_funded_escrow() {
    let mut inv = invoice_with(10, vec![milestone("a", 5)]);
    assert_eq!(release_milestone(&mut inv, party(1), 1).unwrap_err(), InvoiceError::InvalidInvoiceStatus);
    inv.status = InvoiceStatus::EscrowFunded;
    assert_eq!(release_milestone(&mut inv, party(1), 1).unwrap_err(), InvoiceError::EscrowNotFunded);
    inv.escrow_funded = true;
    inv.current_milestone = 1;
    assert_eq!(release_milestone(&mut inv, party(1), 1).unwrap_err(), InvoiceError::AllMilestonesComplete);
}

#[test]
fn mark_paid_records_direct_payment() {
    let mut inv = invoice_with(10, vec![]);
    mark_paid(&mut inv, party(4), "sig", 777).unwrap();
    assert_eq!(inv.status, InvoiceStatus::Paid);
    assert_eq!(inv.paid_at, 777);
    assert_eq!(inv.client, party(4));
    assert_eq!(mark_paid(&mut inv, party(4), "sig", 778).unwrap_err(), InvoiceError::InvalidInvoiceStatus);
    assert_eq!(inv.paid_at, 777);
}

#[test]
fn mark_paid_rejects_long_reference() {
    let mut inv = invoice_with(10, vec![]);
    let sig = "s".repeat(89);
    assert_eq!(mark_paid(&mut inv, party(4), &sig, 1).unwrap_err(), InvoiceError::TxSignatureTooLong);
    assert_eq!(inv.status, InvoiceStatus::Pending);
    assert!(mark_paid(&mut inv, party(4), &"s".repeat(88), 1).is_ok());
}

#[test]
fn cancel_only_by_creator_while_pending() {
    let mut inv = invoice_with(10, vec![]);
    assert_eq!(cancel_invoice(&mut inv, party(2)).unwrap_err(), InvoiceError::Unauthorized);
    assert_eq!(inv.status, InvoiceStatus::Pending);
    cancel_invoice(&mut inv, party(1)).unwrap();
    assert_eq!(inv.status, InvoiceStatus::Cancelled);
    assert_eq!(cancel_invoice(&mut inv, party(1)).unwrap_err(), InvoiceError::InvalidInvoiceStatus);
}

#[test]
fn invoice_space_counts_identifier_bytes() {
    assert_eq!(Invoice::space(""), 1898);
    assert_eq!(Invoice::space("INV-1"), 1903);
    assert_eq!(Milestone::SPACE, 149);
}
