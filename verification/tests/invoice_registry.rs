use lending_pool::invoice::{InvoiceError, InvoiceMetadata, InvoiceNFT};

fn sample(amount: i128) -> InvoiceMetadata {
    InvoiceMetadata {
        amount,
        due_date: 1_700_000_000,
        buyer_hash: String::from("b1"),
        invoice_hash: String::from("i1"),
        paid: false,
    }
}

#[test]
fn mint_then_read() {
    let mut registry = InvoiceNFT::new();
    assert_eq!(registry.get_invoice(7), None);
    assert_eq!(registry.mint(1, 1, 7, sample(500)), Ok(()));
    assert_eq!(registry.get_invoice(7), Some(&sample(500)));
    assert_eq!(registry.get_invoice(8), None);
}

#[test]
fn mint_needs_the_owner_and_a_free_number() {
    let mut registry = InvoiceNFT::new();
    assert_eq!(registry.mint(2, 1, 7, sample(500)), Err(InvoiceError::Unauthorized));
    assert_eq!(registry.get_invoice(7), None);
    assert_eq!(registry.mint(1, 1, 7, sample(500)), Ok(()));
    assert_eq!(registry.mint(1, 1, 7, sample(900)), Err(InvoiceError::AlreadyMinted));
    assert_eq!(registry.mint(3, 3, 7, sample(900)), Err(InvoiceError::AlreadyMinted));
    assert_eq!(registry.get_invoice(7), Some(&sample(500)));
}

#[test]
fn mark_paid_sets_the_flag_only() {
    let mut registry = InvoiceNFT::new();
    assert_eq!(registry.mint(1, 1, 7, sample(500)), Ok(()));
    assert_eq!(registry.mint(1, 1, 8, sample(600)), Ok(()));
    assert_eq!(registry.mark_paid(7), Ok(()));
    let mut paid = sample(500);
    paid.paid = true;
    assert_eq!(registry.get_invoice(7), Some(&paid));
    assert_eq!(registry.get_invoice(8), Some(&sample(600)));
    assert_eq!(registry.mark_paid(7), Ok(()));
    assert_eq!(registry.get_invoice(7), Some(&paid));
}

#[test]
fn mark_paid_of_an_unknown_invoice() {
    let mut registry = InvoiceNFT::new();
    assert_eq!(registry.mark_paid(7), Err(InvoiceError::NotFound));
    assert_eq!(registry.get_invoice(7), None);
}
