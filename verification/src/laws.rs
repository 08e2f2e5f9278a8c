//! The laws of the engine, stated over the spec transitions and proved once
//! and for all: the one-way scanned flag, the immutability of an event's
//! organizer, the organizer-only close, the atomicity of a failed mint, and
//! the create-only metadata attachment.

use vstd::prelude::*;
use crate::errors::CustomError;
use crate::registry::{
    StateView, spec_attach_metadata, spec_close_event, spec_initialize, spec_initialize_event,
    spec_mint_ticket, spec_transfer_ticket, spec_verify_ticket,
};

verus! {

/// One operation of the registry, with its arguments, as a mathematical
/// value, so that a law can quantify over every operation at once.
pub ghost enum Op {
    Initialize,
    InitializeEvent {
        event: Seq<u8>,
        authority: Seq<u8>,
        name: Seq<char>,
        venue: Seq<char>,
        time: int,
    },
    MintTicket {
        event: Seq<u8>,
        ticket: Seq<u8>,
        authority: Seq<u8>,
        metadata: Seq<u8>,
        mint: Seq<u8>,
        metadata_program: Seq<u8>,
        seat: Seq<char>,
        category: Seq<char>,
    },
    VerifyTicket { ticket: Seq<u8>, authority: Seq<u8> },
    TransferTicket { ticket: Seq<u8>, authority: Seq<u8>, new_owner: Seq<u8> },
    CloseEvent { event: Seq<u8>, authority: Seq<u8> },
    AttachMetadata { registry: Seq<u8>, mint: Seq<u8> },
}

/// The state after one operation, whatever its result.
pub open spec fn spec_step(s: StateView, op: Op) -> StateView {
    match op {
        Op::Initialize => spec_initialize(s).0,
        Op::InitializeEvent { event, authority, name, venue, time } => spec_initialize_event(
            s,
            event,
            authority,
            name,
            venue,
            time,
        ).0,
        Op::MintTicket {
            event,
            ticket,
            authority: _,
            metadata,
            mint,
            metadata_program,
            seat,
            category,
        } => spec_mint_ticket(s, event, ticket, mint, metadata_program, metadata, seat, category).0,
        Op::VerifyTicket { ticket, authority: _ } => spec_verify_ticket(s, ticket).0,
        Op::TransferTicket { ticket, authority: _, new_owner } => spec_transfer_ticket(
            s,
            ticket,
            new_owner,
        ).0,
        Op::CloseEvent { event, authority } => spec_close_event(s, event, authority).0,
        Op::AttachMetadata { registry, mint } => spec_attach_metadata(s, registry, mint).0,
    }
}

/// `scanned` is one-way: once a ticket is checked in, no operation, whatever
/// its arguments or outcome, removes the ticket record or clears the flag.
pub proof fn lemma_scanned_one_way(s: StateView, op: Op, ticket: Seq<u8>)
    requires
        s.tickets.contains_key(ticket),
        s.tickets[ticket].scanned,
    ensures
        spec_step(s, op).tickets.contains_key(ticket),
        spec_step(s, op).tickets[ticket].scanned,
{
}

/// Verifying the same ticket twice: the first success sets `scanned`; the
/// second call fails with `AlreadyScannedError` and the state, the ticket
/// record included, is exactly what the first call left.
pub proof fn lemma_verify_twice(s: StateView, ticket: Seq<u8>)
    requires
        spec_verify_ticket(s, ticket).1 is Ok,
    ensures
        ({
            let (s1, r1) = spec_verify_ticket(s, ticket);
            let (s2, r2) = spec_verify_ticket(s1, ticket);
            &&& s1.tickets[ticket].scanned
            &&& r2 == Err::<(), CustomError>(CustomError::AlreadyScannedError)
            &&& s2 == s1
        }),
{
}

/// An event's organizer is never altered after creation: any operation
/// either keeps the event record with the same organizer, or — only a
/// successful `close_event` of that very event — destroys the record whole.
pub proof fn lemma_organizer_immutable(s: StateView, op: Op, event: Seq<u8>)
    requires
        s.events.contains_key(event),
    ensures
        ({
            let s2 = spec_step(s, op);
            s2.events.contains_key(event) ==> s2.events[event].organizer == s.events[
                event
            ].organizer
        }),
{
}

/// The organizer recorded at creation is the creating invoker's identity.
pub proof fn lemma_organizer_is_creator(
    s: StateView,
    event: Seq<u8>,
    authority: Seq<u8>,
    name: Seq<char>,
    venue: Seq<char>,
    time: int,
)
    ensures
        ({
            let (s2, r) = spec_initialize_event(s, event, authority, name, venue, time);
            r is Ok ==> s2.events[event].organizer == authority
        }),
{
}

/// Closing succeeds exactly when the invoker's identity equals the stored
/// organizer of an existing event. Any other invoker of an existing event
/// gets `AuthorizationError` and the whole state, the record included, stays
/// intact; on success only that event record is destroyed.
pub proof fn lemma_close_event_authorization(s: StateView, event: Seq<u8>, authority: Seq<u8>)
    ensures
        ({
            let (s2, r) = spec_close_event(s, event, authority);
            &&& (r is Ok <==> s.events.contains_key(event) && s.events[event].organizer
                == authority)
            &&& (s.events.contains_key(event) && s.events[event].organizer != authority ==> r
                == Err::<(), CustomError>(CustomError::AuthorizationError) && s2 == s)
            &&& (r is Ok ==> s2 == (StateView { events: s.events.remove(event), ..s }))
        }),
{
}

/// Minting against a handle that resolves to no event fails with
/// `NotFoundError` and creates nothing: no ticket record and no metadata
/// record, the state unchanged whole.
pub proof fn lemma_mint_missing_event(
    s: StateView,
    event: Seq<u8>,
    ticket: Seq<u8>,
    mint: Seq<u8>,
    metadata_program: Seq<u8>,
    metadata: Seq<u8>,
    seat: Seq<char>,
    category: Seq<char>,
)
    requires
        !s.events.contains_key(event),
    ensures
        spec_mint_ticket(s, event, ticket, mint, metadata_program, metadata, seat, category) == (
            s,
            Err::<(), CustomError>(CustomError::NotFoundError),
        ),
{
}

/// Attachment never silently succeeds twice: after a successful attachment
/// for a registry and mint, a second attempt for the same pair derives the
/// same address, fails with `ValidationError` because that address already
/// holds data, and changes nothing.
pub proof fn lemma_attach_metadata_never_twice(s: StateView, registry: Seq<u8>, mint: Seq<u8>)
    requires
        spec_attach_metadata(s, registry, mint).1 is Ok,
    ensures
        ({
            let (s1, r1) = spec_attach_metadata(s, registry, mint);
            let (s2, r2) = spec_attach_metadata(s1, registry, mint);
            &&& r2 == Err::<Seq<u8>, CustomError>(CustomError::ValidationError)
            &&& s2 == s1
        }),
{
}

} // verus!
