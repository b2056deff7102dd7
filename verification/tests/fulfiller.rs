use atlas_os::{FulfillerError, FulfillmentRecord, FulfillmentStatus};

#[test]
fn test_happy_path_fulfillment() {
    let mut record = FulfillmentRecord::new("TRADE-1", "tanker-alpha.usdc", "rotterdam-customs.usdc");
    assert_eq!(record.status, FulfillmentStatus::Pending);

    // 1. Offload
    record.start_offloading().unwrap();
    assert_eq!(record.status, FulfillmentStatus::Offloading);

    // 2. Customs
    record.clear_customs("rotterdam-customs.usdc").unwrap();
    assert_eq!(record.status, FulfillmentStatus::CustomsCleared);

    // 3. Finalize
    let hash = record.finalize_delivery().unwrap();
    assert_eq!(record.status, FulfillmentStatus::Completed);
    assert!(record.verification_hash.is_some());
    assert_eq!(hash, "proof_of_delivery_TRADE-1");
}

#[test]
fn test_invalid_transition() {
    let mut record = FulfillmentRecord::new("TRADE-1", "t", "c");
    // Cannot clear customs before offloading
    let res = record.clear_customs("c");
    assert!(res.is_err());
}

#[test]
fn test_unauthorized_customs() {
    let mut record = FulfillmentRecord::new("TRADE-1", "t", "rotterdam-customs.usdc");
    record.start_offloading().unwrap();
    // Wrong authority
    let res = record.clear_customs("fake-customs.usdc");
    assert_eq!(res, Err(FulfillerError::UnauthorizedAuthority("rotterdam-customs.usdc".to_string())));
}

#[test]
fn new_record_is_pending_without_hash() {
    let record = FulfillmentRecord::new("T-9", "ship.usdc", "port.usdc");
    assert_eq!(record.trade_id, "T-9");
    assert_eq!(record.carrier_handle, "ship.usdc");
    assert_eq!(record.customs_handle, "port.usdc");
    assert_eq!(record.status, FulfillmentStatus::Pending);
    assert_eq!(record.verification_hash, None);
}

#[test]
fn invalid_transitions_name_both_stages_and_change_nothing() {
    let mut record = FulfillmentRecord::new("T", "c", "k");
    assert_eq!(
        record.clear_customs("k"),
        Err(FulfillerError::InvalidTransition(FulfillmentStatus::Pending, FulfillmentStatus::CustomsCleared))
    );
    assert_eq!(
        record.finalize_delivery(),
        Err(FulfillerError::InvalidTransition(FulfillmentStatus::Pending, FulfillmentStatus::Completed))
    );
    assert_eq!(record.status, FulfillmentStatus::Pending);
    record.start_offloading().unwrap();
    assert_eq!(
        record.start_offloading(),
        Err(FulfillerError::InvalidTransition(FulfillmentStatus::Offloading, FulfillmentStatus::Offloading))
    );
    assert_eq!(record.status, FulfillmentStatus::Offloading);
    assert_eq!(record.verification_hash, None);
}

#[test]
fn unauthorized_customs_keeps_offloading() {
    let mut record = FulfillmentRecord::new("T", "c", "k");
    record.start_offloading().unwrap();
    assert!(record.clear_customs("K").is_err());
    assert_eq!(record.status, FulfillmentStatus::Offloading);
    record.clear_customs("k").unwrap();
    assert_eq!(record.status, FulfillmentStatus::CustomsCleared);
}

#[test]
fn finalize_stores_the_returned_proof() {
    let mut record = FulfillmentRecord::new("", "c", "k");
    record.start_offloading().unwrap();
    record.clear_customs("k").unwrap();
    let hash = record.finalize_delivery().unwrap();
    assert_eq!(hash, "proof_of_delivery_");
    assert_eq!(record.verification_hash, Some(hash));
}

#[test]
fn completed_record_accepts_only_a_dispute() {
    let mut record = FulfillmentRecord::new("T-2", "c", "k");
    record.start_offloading().unwrap();
    record.clear_customs("k").unwrap();
    record.finalize_delivery().unwrap();
    assert_eq!(
        record.start_offloading(),
        Err(FulfillerError::InvalidTransition(FulfillmentStatus::Completed, FulfillmentStatus::Offloading))
    );
    assert_eq!(
        record.finalize_delivery(),
        Err(FulfillerError::InvalidTransition(FulfillmentStatus::Completed, FulfillmentStatus::Completed))
    );
    assert_eq!(record.status, FulfillmentStatus::Completed);
    record.dispute();
    assert_eq!(record.status, FulfillmentStatus::Disputed);
    assert_eq!(record.verification_hash, Some("proof_of_delivery_T-2".to_string()));
}

#[test]
fn disputed_record_stays_disputed() {
    let mut record = FulfillmentRecord::new("T", "c", "k");
    record.dispute();
    assert_eq!(record.status, FulfillmentStatus::Disputed);
    assert!(record.start_offloading().is_err());
    assert!(record.clear_customs("k").is_err());
    assert!(record.finalize_delivery().is_err());
    record.dispute();
    assert_eq!(record.status, FulfillmentStatus::Disputed);
    assert_eq!(record.trade_id, "T");
}
