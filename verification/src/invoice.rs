//! The invoice registry: a record per invoice number, which can be minted
//! once, read, and marked as paid.

use vstd::prelude::*;
use std::collections::HashMap;

verus! {

broadcast use vstd::std_specs::hash::group_hash_axioms;

/// What the registry keeps of one invoice.
#[derive(Clone, Debug, PartialEq, Eq)]
pub struct InvoiceMetadata {
    /// The invoiced amount.
    pub amount: i128,
    /// When the invoice falls due, in seconds since the epoch.
    pub due_date: u64,
    /// A digest that stands for the buyer.
    pub buyer_hash: String,
    /// A digest of the invoice document.
    pub invoice_hash: String,
    /// Whether the invoice has been marked as paid.
    pub paid: bool,
}

/// Why the registry refused a call.
#[derive(Clone, Copy, Debug, PartialEq, Eq, Structural)]
pub enum InvoiceError {
    /// The call was not authorized by the one the invoice is minted to.
    Unauthorized,
    /// An invoice with this number exists already.
    AlreadyMinted,
    /// No invoice has this number.
    NotFound,
}

/// The registry of invoices, by number.
pub struct InvoiceNFT {
    invoices: HashMap<u64, InvoiceMetadata>,
}

impl View for InvoiceNFT {
    type V = Map<u64, InvoiceMetadata>;

    closed spec fn view(&self) -> Map<u64, InvoiceMetadata> {
        self.invoices@
    }
}

impl InvoiceNFT {
    /// A registry without invoices.
    pub fn new() -> (registry: InvoiceNFT)
        ensures
            registry@ == Map::<u64, InvoiceMetadata>::empty(),
    {
        InvoiceNFT { invoices: HashMap::new() }
    }

    /// Registers the invoice `id` with `metadata`, on behalf of `to`.
    /// Refused with `Unauthorized` unless `to` signed, and with
    /// `AlreadyMinted` where the number is taken; a refusal changes nothing.
    pub fn mint(&mut self, signer: u64, to: u64, id: u64, metadata: InvoiceMetadata) -> (r: Result<
        (),
        InvoiceError,
    >)
        ensures
            signer != to ==> r == Err::<(), InvoiceError>(InvoiceError::Unauthorized),
            signer == to && old(self)@.contains_key(id) ==> r == Err::<(), InvoiceError>(
                InvoiceError::AlreadyMinted,
            ),
            signer == to && !old(self)@.contains_key(id) ==> r == Ok::<(), InvoiceError>(()),
            r is Err ==> final(self)@ == old(self)@,
            r is Ok ==> final(self)@ == old(self)@.insert(id, metadata),
    {
        if signer != to {
            return Err(InvoiceError::Unauthorized);
        }
        if self.invoices.contains_key(&id) {
            return Err(InvoiceError::AlreadyMinted);
        }
        self.invoices.insert(id, metadata);
        Ok(())
    }

    /// Looks the invoice `id` up.
    pub fn get_invoice(&self, id: u64) -> (found: Option<&InvoiceMetadata>)
        ensures
            match found {
                Some(metadata) => self@.contains_key(id) && *metadata == self@[id],
                None => !self@.contains_key(id),
            },
    {
        self.invoices.get(&id)
    }

    /// Marks the invoice `id` as paid and leaves the rest of its record and
    /// every other invoice as they are. Refused with `NotFound`, and nothing
    /// changed, where no invoice has this number. Whoever calls may mark an
    /// invoice: the registry asks for no authorization here.
    pub fn mark_paid(&mut self, id: u64) -> (r: Result<(), InvoiceError>)
        ensures
            !old(self)@.contains_key(id) ==> r == Err::<(), InvoiceError>(InvoiceError::NotFound)
                && final(self)@ == old(self)@,
            old(self)@.contains_key(id) ==> r == Ok::<(), InvoiceError>(()) && final(self)@ == old(
                self,
            )@.insert(id, InvoiceMetadata { paid: true, ..old(self)@[id] }),
    {
        match self.invoices.remove(&id) {
            Some(metadata) => {
                let mut metadata = metadata;
                metadata.paid = true;
                self.invoices.insert(id, metadata);
                Ok(())
            },
            None => {
                Err(InvoiceError::NotFound)
            },
        }
    }
}

} // verus!
