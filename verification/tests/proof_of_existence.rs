use state_machine::proof_of_existence::Pallet;
use state_machine::support::DispatchError;

#[test]
fn basic_proof_of_existence() {
    let mut poe_pallet = Pallet::new();
    assert_eq!(poe_pallet.get_claim(&"Hello, world!".to_string()), None);
    assert_eq!(
        poe_pallet.create_claim("alice".to_string(), "Hello, world!".to_string()),
        Ok(())
    );
    assert_eq!(
        poe_pallet.get_claim(&"Hello, world!".to_string()),
        Some(&"alice".to_string())
    );
    assert_eq!(
        poe_pallet.create_claim("bob".to_string(), "Hello, world!".to_string()),
        Err(DispatchError::AlreadyClaimed)
    );
    assert_eq!(
        poe_pallet.revoke_claim("alice".to_string(), "Hello, world!".to_string()),
        Ok(())
    );
    assert_eq!(
        poe_pallet.create_claim("bob".to_string(), "Hello, world!".to_string()),
        Ok(())
    );
}

#[test]
fn revoke_without_claim_is_rejected() {
    let mut poe_pallet = Pallet::new();
    assert_eq!(
        poe_pallet.revoke_claim("alice".to_string(), "unseen".to_string()),
        Err(DispatchError::NoSuchClaim)
    );
}

#[test]
fn revoke_by_non_owner_is_rejected() {
    let mut poe_pallet = Pallet::new();
    assert_eq!(poe_pallet.create_claim("alice".to_string(), "doc".to_string()), Ok(()));
    assert_eq!(
        poe_pallet.revoke_claim("bob".to_string(), "doc".to_string()),
        Err(DispatchError::NotOwner)
    );
    assert_eq!(poe_pallet.get_claim(&"doc".to_string()), Some(&"alice".to_string()));
}

#[test]
fn claim_is_exclusive_to_first_claimer() {
    let mut poe_pallet = Pallet::new();
    assert_eq!(poe_pallet.create_claim("alice".to_string(), "c".to_string()), Ok(()));
    assert_eq!(
        poe_pallet.create_claim("alice".to_string(), "c".to_string()),
        Err(DispatchError::AlreadyClaimed)
    );
    assert_eq!(
        poe_pallet.create_claim("bob".to_string(), "c".to_string()),
        Err(DispatchError::AlreadyClaimed)
    );
    assert_eq!(poe_pallet.get_claim(&"c".to_string()), Some(&"alice".to_string()));
}
