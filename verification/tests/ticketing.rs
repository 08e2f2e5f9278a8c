//! End-to-end exercises of the ticketing registry with synthetic identities.

use anchor_lang::solana_program::pubkey::Pubkey;
use decentralized_ticketing::errors::CustomError;
use decentralized_ticketing::identity::Identity;
use decentralized_ticketing::registry::{
    CloseEvent, Initialize, InitializeEvent, MintTicket, Ticketing, TransferTicket, VerifyTicket,
};

fn id(n: u8) -> Identity {
    Identity([n; 32])
}

/// The metadata address the registry is expected to derive, computed
/// independently through the host's own derivation.
fn expected_metadata_address(registry: &Identity, mint: &Identity) -> Identity {
    let registry_key = Pubkey::new_from_array(registry.0);
    let mint_key = Pubkey::new_from_array(mint.0);
    let (key, _bump) = Pubkey::try_find_program_address(
        &[b"metadata", registry_key.as_ref(), mint_key.as_ref()],
        &registry_key,
    )
    .expect("derivation should succeed for these identities");
    Identity(key.to_bytes())
}

fn registry() -> Ticketing {
    Ticketing::new(id(0))
}

fn mint_ctx(event: Identity, ticket: Identity, payer: Identity, mint: Identity) -> MintTicket {
    let metadata_program = id(40);
    MintTicket {
        event_account: event,
        ticket_account: ticket,
        authority: payer,
        metadata: expected_metadata_address(&metadata_program, &mint),
        mint,
        metadata_program,
    }
}

#[test]
fn initialize_greets_and_changes_nothing() {
    let reg = registry();
    assert!(reg.initialize(&Initialize {}).is_ok());
    assert_eq!(reg.program_id().0, id(0).0);
}

#[test]
fn event_lifecycle_scenario() {
    let o1 = id(1);
    let u1 = id(2);
    let u2 = id(3);
    let event = id(10);
    let ticket = id(11);
    let mint = id(12);
    let mut reg = registry();

    // Create event ("Concert A", "Arena 1", 1700000000) by O1.
    let create = InitializeEvent { event_account: event, authority: o1 };
    let r = reg.initialize_event(
        &create,
        String::from("Concert A"),
        String::from("Arena 1"),
        1_700_000_000,
    );
    assert!(r.is_ok());
    let stored = reg.get_event(&event).expect("event should exist");
    assert_eq!(stored.name, "Concert A");
    assert_eq!(stored.venue, "Arena 1");
    assert_eq!(stored.time, 1_700_000_000);
    assert_eq!(stored.organizer.0, o1.0);

    // Mint ticket (seat "A1", category "VIP") against that event by U1.
    let ctx = mint_ctx(event, ticket, u1, mint);
    let r = reg.mint_ticket(&ctx, String::from("A1"), String::from("VIP"));
    assert!(r.is_ok());
    let stored = reg.get_ticket(&ticket).expect("ticket should exist");
    assert_eq!(stored.event.0, event.0);
    assert_eq!(stored.seat, "A1");
    assert_eq!(stored.category, "VIP");
    assert!(!stored.scanned);

    // A metadata record stands at the deterministically derived address,
    // owned by the metadata registry program.
    let owner = reg
        .metadata_owner(&ctx.metadata)
        .expect("metadata record should exist at the derived address");
    assert_eq!(owner.0, ctx.metadata_program.0);

    // Verify the ticket: scanned becomes true.
    let verify = VerifyTicket { ticket_account: ticket, authority: u1 };
    assert!(reg.verify_ticket(&verify).is_ok());
    assert!(reg.get_ticket(&ticket).unwrap().scanned);

    // Verify again: AlreadyScannedError, record unchanged.
    assert_eq!(reg.verify_ticket(&verify), Err(CustomError::AlreadyScannedError));
    let stored = reg.get_ticket(&ticket).unwrap();
    assert!(stored.scanned);
    assert_eq!(stored.seat, "A1");
    assert_eq!(stored.category, "VIP");
    assert_eq!(stored.event.0, event.0);

    // Transfer to U2: the stored `event` field now holds U2's identity.
    let transfer = TransferTicket { ticket_account: ticket, authority: u1, new_owner: u2 };
    assert!(reg.transfer_ticket(&transfer).is_ok());
    let stored = reg.get_ticket(&ticket).unwrap();
    assert_eq!(stored.event.0, u2.0);
    assert!(stored.scanned);

    // Close by U1: AuthorizationError, the event record is unaffected.
    let close_bad = CloseEvent { event_account: event, authority: u1 };
    assert_eq!(reg.close_event(&close_bad), Err(CustomError::AuthorizationError));
    assert_eq!(reg.get_event(&event).unwrap().organizer.0, o1.0);

    // Close by O1: the event record is destroyed.
    let close_good = CloseEvent { event_account: event, authority: o1 };
    assert!(reg.close_event(&close_good).is_ok());
    assert!(reg.get_event(&event).is_none());
}

#[test]
fn duplicate_event_handle_is_rejected() {
    let mut reg = registry();
    let ctx = InitializeEvent { event_account: id(10), authority: id(1) };
    assert!(reg.initialize_event(&ctx, String::from("a"), String::from("b"), 0).is_ok());
    let again = InitializeEvent { event_account: id(10), authority: id(2) };
    assert_eq!(
        reg.initialize_event(&again, String::from("c"), String::from("d"), 1),
        Err(CustomError::AllocationError)
    );
    // The first record stands untouched, its organizer unaltered.
    let stored = reg.get_event(&id(10)).unwrap();
    assert_eq!(stored.name, "a");
    assert_eq!(stored.organizer.0, id(1).0);
}

#[test]
fn mint_against_missing_event_creates_nothing() {
    let mut reg = registry();
    let ctx = mint_ctx(id(10), id(11), id(2), id(12));
    assert_eq!(
        reg.mint_ticket(&ctx, String::from("A1"), String::from("VIP")),
        Err(CustomError::NotFoundError)
    );
    assert!(reg.get_ticket(&id(11)).is_none());
    assert!(reg.metadata_owner(&ctx.metadata).is_none());
}

#[test]
fn duplicate_ticket_handle_is_rejected() {
    let mut reg = registry();
    let create = InitializeEvent { event_account: id(10), authority: id(1) };
    assert!(reg.initialize_event(&create, String::from("a"), String::from("b"), 0).is_ok());
    let ctx = mint_ctx(id(10), id(11), id(2), id(12));
    assert!(reg.mint_ticket(&ctx, String::from("A1"), String::from("VIP")).is_ok());
    let again = mint_ctx(id(10), id(11), id(2), id(13));
    assert_eq!(
        reg.mint_ticket(&again, String::from("B2"), String::from("GA")),
        Err(CustomError::AllocationError)
    );
    // The first ticket stands untouched.
    assert_eq!(reg.get_ticket(&id(11)).unwrap().seat, "A1");
}

#[test]
fn mint_with_wrong_metadata_account_is_rejected() {
    let mut reg = registry();
    let create = InitializeEvent { event_account: id(10), authority: id(1) };
    assert!(reg.initialize_event(&create, String::from("a"), String::from("b"), 0).is_ok());
    let mut ctx = mint_ctx(id(10), id(11), id(2), id(12));
    ctx.metadata = id(50);  // not the derived address
    assert_eq!(
        reg.mint_ticket(&ctx, String::from("A1"), String::from("VIP")),
        Err(CustomError::ValidationError)
    );
    assert!(reg.get_ticket(&id(11)).is_none());
    assert!(reg.metadata_owner(&id(50)).is_none());
}

#[test]
fn metadata_attachment_never_succeeds_twice() {
    let registry_program = id(40);
    let mint = id(12);
    let mut reg = registry();
    let first = reg.attach_metadata(&registry_program, &mint);
    let handle = first.expect("first attachment should succeed");
    // The registry derived exactly the host's address, so the record stands
    // where any verifier re-derives it.
    assert_eq!(handle.0, expected_metadata_address(&registry_program, &mint).0);
    assert_eq!(reg.metadata_owner(&handle).unwrap().0, registry_program.0);
    // The second attempt finds the address non-empty.
    let second = reg.attach_metadata(&registry_program, &mint);
    assert!(matches!(second, Err(CustomError::ValidationError)));
    assert_eq!(reg.metadata_owner(&handle).unwrap().0, registry_program.0);
}

#[test]
fn attachment_addresses_differ_by_mint() {
    let registry_program = id(40);
    let mut reg = registry();
    let a = reg.attach_metadata(&registry_program, &id(12)).expect("first should succeed");
    let b = reg.attach_metadata(&registry_program, &id(13)).expect("second should succeed");
    assert_ne!(a.0, b.0);
    assert_ne!(a.0, registry_program.0);
    assert_ne!(b.0, registry_program.0);
}

#[test]
fn mint_after_attachment_at_same_address_is_rejected() {
    let mut reg = registry();
    let create = InitializeEvent { event_account: id(10), authority: id(1) };
    assert!(reg.initialize_event(&create, String::from("a"), String::from("b"), 0).is_ok());
    let ctx = mint_ctx(id(10), id(11), id(2), id(12));
    assert!(reg.attach_metadata(&ctx.metadata_program, &ctx.mint).is_ok());
    assert_eq!(
        reg.mint_ticket(&ctx, String::from("A1"), String::from("VIP")),
        Err(CustomError::ValidationError)
    );
    assert!(reg.get_ticket(&id(11)).is_none());
}

#[test]
fn verify_missing_ticket_is_not_found() {
    let mut reg = registry();
    let verify = VerifyTicket { ticket_account: id(11), authority: id(2) };
    assert_eq!(reg.verify_ticket(&verify), Err(CustomError::NotFoundError));
}

#[test]
fn transfer_missing_ticket_is_not_found() {
    let mut reg = registry();
    let transfer = TransferTicket { ticket_account: id(11), authority: id(2), new_owner: id(3) };
    assert_eq!(reg.transfer_ticket(&transfer), Err(CustomError::NotFoundError));
}

#[test]
fn close_missing_event_is_not_found() {
    let mut reg = registry();
    let close = CloseEvent { event_account: id(10), authority: id(1) };
    assert_eq!(reg.close_event(&close), Err(CustomError::NotFoundError));
}

#[test]
fn transfer_to_same_identity_is_noop_success() {
    let mut reg = registry();
    let create = InitializeEvent { event_account: id(10), authority: id(1) };
    assert!(reg.initialize_event(&create, String::from("a"), String::from("b"), 0).is_ok());
    let ctx = mint_ctx(id(10), id(11), id(2), id(12));
    assert!(reg.mint_ticket(&ctx, String::from("A1"), String::from("VIP")).is_ok());
    let transfer = TransferTicket { ticket_account: id(11), authority: id(2), new_owner: id(10) };
    assert!(reg.transfer_ticket(&transfer).is_ok());
    assert_eq!(reg.get_ticket(&id(11)).unwrap().event.0, id(10).0);
}

#[test]
fn identity_equality_is_by_bytes() {
    assert!(id(7).equals(&id(7)));
    assert!(!id(7).equals(&id(8)));
    let mut bytes = [7u8; 32];
    bytes[31] = 8;
    assert!(!id(7).equals(&Identity(bytes)));
}

#[test]
fn error_descriptions_name_each_kind() {
    assert_eq!(
        CustomError::AllocationError.describe(),
        "target handle is already occupied"
    );
    assert_eq!(
        CustomError::NotFoundError.describe(),
        "referenced handle does not resolve"
    );
    assert_eq!(
        CustomError::AuthorizationError.describe(),
        "invoker is not the required authority"
    );
    assert_eq!(
        CustomError::AlreadyScannedError.describe(),
        "ticket has already been scanned"
    );
    assert_eq!(
        CustomError::ValidationError.describe(),
        "metadata target is invalid or not empty"
    );
}
