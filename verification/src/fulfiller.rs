use vstd::prelude::*;

verus! {

/// The stages of a fulfillment.
#[derive(Debug, Clone, Copy, PartialEq, Eq, Structural)]
pub enum FulfillmentStatus {
    /// Escrow is settled, cargo is at port, waiting to offload.
    Pending,
    /// Cargo is being physically unloaded from the carrier.
    Offloading,
    /// Local authority has cleared the goods for final delivery.
    CustomsCleared,
    /// Delivery confirmed to the buyer's destination.
    Completed,
    /// Issue reported during fulfillment.
    Disputed,
}

/// One trade's fulfillment: who carries it, who clears it, and where it stands.
#[derive(Debug, Clone)]
pub struct FulfillmentRecord {
    pub trade_id: String,
    pub carrier_handle: String,
    pub customs_handle: String,
    pub status: FulfillmentStatus,
    pub verification_hash: Option<String>,
}

/// A fulfillment record as plain values.
pub struct FulfillmentView {
    pub trade_id: Seq<char>,
    pub carrier_handle: Seq<char>,
    pub customs_handle: Seq<char>,
    pub status: FulfillmentStatus,
    pub verification_hash: Option<Seq<char>>,
}

pub open spec fn opt_view(o: Option<String>) -> Option<Seq<char>> {
    match o {
        Some(s) => Some(s@),
        None => None,
    }
}

impl View for FulfillmentRecord {
    type V = FulfillmentView;

    open spec fn view(&self) -> FulfillmentView {
        FulfillmentView {
            trade_id: self.trade_id@,
            carrier_handle: self.carrier_handle@,
            customs_handle: self.customs_handle@,
            status: self.status,
            verification_hash: opt_view(self.verification_hash),
        }
    }
}

/// Errors of the fulfillment workflow.
#[derive(Debug, PartialEq)]
pub enum FulfillerError {
    /// The record is not in the stage (first field) that allows moving to the second.
    InvalidTransition(FulfillmentStatus, FulfillmentStatus),
    /// Approval must come from the named authority.
    UnauthorizedAuthority(String),
}

/// A fulfillment error as plain values.
pub enum FulfillerErrorView {
    InvalidTransition(FulfillmentStatus, FulfillmentStatus),
    UnauthorizedAuthority(Seq<char>),
}

impl View for FulfillerError {
    type V = FulfillerErrorView;

    open spec fn view(&self) -> FulfillerErrorView {
        match self {
            FulfillerError::InvalidTransition(a, b) => FulfillerErrorView::InvalidTransition(*a, *b),
            FulfillerError::UnauthorizedAuthority(h) => FulfillerErrorView::UnauthorizedAuthority(h@),
        }
    }
}

/// A result with its value and error taken as plain values.
pub open spec fn outcome<T: View>(r: Result<T, FulfillerError>) -> Result<T::V, FulfillerErrorView> {
    match r {
        Ok(v) => Ok(v@),
        Err(e) => Err(e@),
    }
}

/// The prefix of every proof of delivery.
pub open spec fn proof_prefix() -> Seq<char> {
    "proof_of_delivery_"@
}

/// The proof of delivery of a trade.
pub open spec fn proof_of_delivery(trade_id: Seq<char>) -> Seq<char> {
    proof_prefix() + trade_id
}

/// A fresh record: pending, with no proof of delivery.
pub open spec fn spec_new(trade_id: Seq<char>, carrier: Seq<char>, customs: Seq<char>) -> FulfillmentView {
    FulfillmentView {
        trade_id,
        carrier_handle: carrier,
        customs_handle: customs,
        status: FulfillmentStatus::Pending,
        verification_hash: None,
    }
}

/// `r` with its status set to `s`.
pub open spec fn with_status(r: FulfillmentView, s: FulfillmentStatus) -> FulfillmentView {
    FulfillmentView { status: s, ..r }
}

/// `start_offloading` on the model: the next record and the outcome.
pub open spec fn spec_start_offloading(r: FulfillmentView) -> (FulfillmentView, Result<(), FulfillerErrorView>) {
    if r.status != FulfillmentStatus::Pending {
        (r, Err(FulfillerErrorView::InvalidTransition(r.status, FulfillmentStatus::Offloading)))
    } else {
        (with_status(r, FulfillmentStatus::Offloading), Ok(()))
    }
}

/// `clear_customs` on the model.
pub open spec fn spec_clear_customs(r: FulfillmentView, authority: Seq<char>) -> (FulfillmentView, Result<(), FulfillerErrorView>) {
    if r.status != FulfillmentStatus::Offloading {
        (r, Err(FulfillerErrorView::InvalidTransition(r.status, FulfillmentStatus::CustomsCleared)))
    } else if authority != r.customs_handle {
        (r, Err(FulfillerErrorView::UnauthorizedAuthority(r.customs_handle)))
    } else {
        (with_status(r, FulfillmentStatus::CustomsCleared), Ok(()))
    }
}

/// `finalize_delivery` on the model.
pub open spec fn spec_finalize_delivery(r: FulfillmentView) -> (FulfillmentView, Result<Seq<char>, FulfillerErrorView>) {
    if r.status != FulfillmentStatus::CustomsCleared {
        (r, Err(FulfillerErrorView::InvalidTransition(r.status, FulfillmentStatus::Completed)))
    } else {
        (
            FulfillmentView {
                status: FulfillmentStatus::Completed,
                verification_hash: Some(proof_of_delivery(r.trade_id)),
                ..r
            },
            Ok(proof_of_delivery(r.trade_id)),
        )
    }
}

/// `dispute` on the model.
pub open spec fn spec_dispute(r: FulfillmentView) -> FulfillmentView {
    with_status(r, FulfillmentStatus::Disputed)
}

impl FulfillmentRecord {
    /// A pending record for `trade_id`, carried by `carrier` and cleared by `customs`.
    pub fn new(trade_id: &str, carrier: &str, customs: &str) -> (r: Self)
        ensures
            r@ == spec_new(trade_id@, carrier@, customs@),
    {
        FulfillmentRecord {
            trade_id: trade_id.to_string(),
            carrier_handle: carrier.to_string(),
            customs_handle: customs.to_string(),
            status: FulfillmentStatus::Pending,
            verification_hash: None,
        }
    }

    /// Moves a pending record to offloading.
    pub fn start_offloading(&mut self) -> (r: Result<(), FulfillerError>)
        ensures
            (final(self)@, outcome(r)) == spec_start_offloading(old(self)@),
    {
        if self.status != FulfillmentStatus::Pending {
            return Err(FulfillerError::InvalidTransition(self.status, FulfillmentStatus::Offloading));
        }
        self.status = FulfillmentStatus::Offloading;
        Ok(())
    }

    /// Moves an offloading record to customs cleared; the approval must come
    /// from the record's customs authority.
    pub fn clear_customs(&mut self, authority_handle: &str) -> (r: Result<(), FulfillerError>)
        ensures
            (final(self)@, outcome(r)) == spec_clear_customs(old(self)@, authority_handle@),
    {
        if self.status != FulfillmentStatus::Offloading {
            return Err(FulfillerError::InvalidTransition(self.status, FulfillmentStatus::CustomsCleared));
        }
        let authority = authority_handle.to_string();
        if !(authority == self.customs_handle) {
            return Err(FulfillerError::UnauthorizedAuthority(self.customs_handle.clone()));
        }
        self.status = FulfillmentStatus::CustomsCleared;
        Ok(())
    }

    /// Completes a customs-cleared record and returns its proof of delivery,
    /// which the record keeps as its verification hash.
    pub fn finalize_delivery(&mut self) -> (r: Result<String, FulfillerError>)
        ensures
            (final(self)@, outcome(r)) == spec_finalize_delivery(old(self)@),
    {
        if self.status != FulfillmentStatus::CustomsCleared {
            return Err(FulfillerError::InvalidTransition(self.status, FulfillmentStatus::Completed));
        }
        let mut receipt = "proof_of_delivery_".to_string();
        receipt.append(self.trade_id.as_str());
        self.verification_hash = Some(receipt.clone());
        self.status = FulfillmentStatus::Completed;
        Ok(receipt)
    }

    /// Marks the record as disputed, whatever its stage.
    pub fn dispute(&mut self)
        ensures
            final(self)@ == spec_dispute(old(self)@),
    {
        self.status = FulfillmentStatus::Disputed;
    }
}

} // verus!
