//! The event/ticket state-transition engine. Every operation is a single
//! atomic step: it either applies its whole effect or leaves the registry
//! exactly as it was. Each operation takes the invoker's host-verified
//! identity explicitly through its context, never from ambient state.
//!
//! Two permissive behaviours of the recorded design are kept as they stand:
//! minting does not require the invoker to be the event's organizer, and any
//! signed invoker may verify any ticket.

use vstd::prelude::*;
use crate::accounts::{EventAccount, EventView, TicketAccount, TicketView};
use crate::addressing::{derive_metadata_address, metadata_address_of};
use crate::errors::CustomError;
use crate::identity::Identity;
use crate::table::Table;

verus! {

/// The mathematical value of the whole registry: the program's fixed
/// identity, and one map per record kind, each from address bytes to the
/// record's value. Metadata records map the derived address to the identity
/// of the registry program that owns the record.
pub ghost struct StateView {
    pub program_id: Seq<u8>,
    pub events: Map<Seq<u8>, EventView>,
    pub tickets: Map<Seq<u8>, TicketView>,
    pub metadata: Map<Seq<u8>, Seq<u8>>,
}

/// What `initialize` does: greet and change nothing.
pub open spec fn spec_initialize(s: StateView) -> (StateView, Result<(), CustomError>) {
    (s, Ok(()))
}

/// What `initialize_event` does: allocate an event record at a fresh handle,
/// recording the invoker as its immutable organizer.
pub open spec fn spec_initialize_event(
    s: StateView,
    event: Seq<u8>,
    authority: Seq<u8>,
    name: Seq<char>,
    venue: Seq<char>,
    time: int,
) -> (StateView, Result<(), CustomError>) {
    if s.events.contains_key(event) {
        (s, Err(CustomError::AllocationError))
    } else {
        (
            StateView {
                events: s.events.insert(
                    event,
                    EventView { name, venue, time, organizer: authority },
                ),
                ..s
            },
            Ok(()),
        )
    }
}

/// What `attach_metadata` does: derive the metadata address for `mint` from
/// the registry program's identity, and provision a record there, owned by
/// the registry. Create-only: a target that already holds data, or whose
/// address cannot be derived, is rejected and nothing changes.
pub open spec fn spec_attach_metadata(s: StateView, registry: Seq<u8>, mint: Seq<u8>) -> (
    StateView,
    Result<Seq<u8>, CustomError>,
) {
    match metadata_address_of(registry, mint) {
        None => (s, Err(CustomError::ValidationError)),
        Some(addr) => if s.metadata.contains_key(addr) {
            (s, Err(CustomError::ValidationError))
        } else {
            (StateView { metadata: s.metadata.insert(addr, registry), ..s }, Ok(addr))
        },
    }
}

/// What `mint_ticket` does: against an existing event, allocate a ticket
/// record at a fresh handle, unscanned, and attach its metadata record at
/// the derived address, which must be the metadata account the caller passed.
/// One indivisible step: if any part fails, no record is created.
pub open spec fn spec_mint_ticket(
    s: StateView,
    event: Seq<u8>,
    ticket: Seq<u8>,
    mint: Seq<u8>,
    metadata_program: Seq<u8>,
    metadata: Seq<u8>,
    seat: Seq<char>,
    category: Seq<char>,
) -> (StateView, Result<(), CustomError>) {
    if !s.events.contains_key(event) {
        (s, Err(CustomError::NotFoundError))
    } else if s.tickets.contains_key(ticket) {
        (s, Err(CustomError::AllocationError))
    } else {
        let (attached, res) = spec_attach_metadata(s, metadata_program, mint);
        match res {
            Err(e) => (s, Err(e)),
            Ok(addr) => if addr != metadata {
                (s, Err(CustomError::ValidationError))
            } else {
                (
                    StateView {
                        tickets: attached.tickets.insert(
                            ticket,
                            TicketView { event, seat, category, scanned: false },
                        ),
                        ..attached
                    },
                    Ok(()),
                )
            },
        }
    }
}

/// What `verify_ticket` does: check a ticket in, once. `scanned` only ever
/// moves from false to true; a second attempt fails and changes nothing.
pub open spec fn spec_verify_ticket(s: StateView, ticket: Seq<u8>) -> (
    StateView,
    Result<(), CustomError>,
) {
    if !s.tickets.contains_key(ticket) {
        (s, Err(CustomError::NotFoundError))
    } else if s.tickets[ticket].scanned {
        (s, Err(CustomError::AlreadyScannedError))
    } else {
        (
            StateView {
                tickets: s.tickets.insert(
                    ticket,
                    TicketView { scanned: true, ..s.tickets[ticket] },
                ),
                ..s
            },
            Ok(()),
        )
    }
}

/// What `transfer_ticket` does: overwrite the ticket's `event` field with
/// the new owner's identity, leaving seat, category and the scanned flag
/// alone. This conflates the event link with the current holder; it is the
/// recorded behaviour of this registry, kept as it stands.
pub open spec fn spec_transfer_ticket(s: StateView, ticket: Seq<u8>, new_owner: Seq<u8>) -> (
    StateView,
    Result<(), CustomError>,
) {
    if !s.tickets.contains_key(ticket) {
        (s, Err(CustomError::NotFoundError))
    } else {
        (
            StateView {
                tickets: s.tickets.insert(
                    ticket,
                    TicketView { event: new_owner, ..s.tickets[ticket] },
                ),
                ..s
            },
            Ok(()),
        )
    }
}

/// What `close_event` does: destroy the event record and return its storage
/// deposit to the organizer. Only the stored organizer may close; tickets
/// already minted against the event are not cascaded and keep their
/// now-dangling reference.
pub open spec fn spec_close_event(s: StateView, event: Seq<u8>, authority: Seq<u8>) -> (
    StateView,
    Result<(), CustomError>,
) {
    if !s.events.contains_key(event) {
        (s, Err(CustomError::NotFoundError))
    } else if s.events[event].organizer != authority {
        (s, Err(CustomError::AuthorizationError))
    } else {
        (StateView { events: s.events.remove(event), ..s }, Ok(()))
    }
}

/// Context of `initialize`.
#[derive(Clone, Copy, Debug)]
pub struct Initialize {}

/// Context of `initialize_event`: the handle of the event record to
/// allocate, and the signing invoker, who becomes the organizer and funds
/// the record's storage deposit.
#[derive(Clone, Copy, Debug)]
pub struct InitializeEvent {
    pub event_account: Identity,
    pub authority: Identity,
}

/// Context of `mint_ticket`: the referenced event, the handle of the ticket
/// record to allocate, the signing invoker who funds the records, the
/// metadata account, the mint the metadata describes, and the metadata
/// registry program that will own the metadata record.
#[derive(Clone, Copy, Debug)]
pub struct MintTicket {
    pub event_account: Identity,
    pub ticket_account: Identity,
    pub authority: Identity,
    pub metadata: Identity,
    pub mint: Identity,
    pub metadata_program: Identity,
}

/// Context of `verify_ticket`: the ticket to check in and the signing
/// invoker. Any signed invoker may verify any ticket.
#[derive(Clone, Copy, Debug)]
pub struct VerifyTicket {
    pub ticket_account: Identity,
    pub authority: Identity,
}

/// Context of `transfer_ticket`: the ticket, the signing invoker, and the
/// identity the ticket's `event` field is overwritten with.
#[derive(Clone, Copy, Debug)]
pub struct TransferTicket {
    pub ticket_account: Identity,
    pub authority: Identity,
    pub new_owner: Identity,
}

/// Context of `close_event`: the event to destroy and the signing invoker,
/// who must be the stored organizer and receives the deposit back.
#[derive(Clone, Copy, Debug)]
pub struct CloseEvent {
    pub event_account: Identity,
    pub authority: Identity,
}

/// The ticketing registry: the program's fixed identity and the records of
/// each kind, addressed by identity.
pub struct Ticketing {
    program_id: Identity,
    events: Table<EventAccount>,
    tickets: Table<TicketAccount>,
    metadata: Table<Identity>,
}

impl View for Ticketing {
    type V = StateView;

    closed spec fn view(&self) -> StateView {
        StateView {
            program_id: self.program_id@,
            events: self.events@,
            tickets: self.tickets@,
            metadata: self.metadata@,
        }
    }
}

impl Ticketing {
    /// Each record kind maps every address to at most one record.
    pub closed spec fn wf(self) -> bool {
        self.events.wf() && self.tickets.wf() && self.metadata.wf()
    }

    /// A fresh registry for the program with the given fixed identity:
    /// no events, no tickets, no metadata.
    pub fn new(program_id: Identity) -> (r: Self)
        ensures
            r.wf(),
            r@ == (StateView {
                program_id: program_id@,
                events: Map::<Seq<u8>, EventView>::empty(),
                tickets: Map::<Seq<u8>, TicketView>::empty(),
                metadata: Map::<Seq<u8>, Seq<u8>>::empty(),
            }),
    {
        Ticketing {
            program_id,
            events: Table::new(),
            tickets: Table::new(),
            metadata: Table::new(),
        }
    }

    /// The program's fixed identity, set at startup.
    pub fn program_id(&self) -> (r: &Identity)
        ensures
            r@ == self@.program_id,
    {
        &self.program_id
    }

    /// Greet; touches nothing.
    pub fn initialize(&self, _ctx: &Initialize) -> (r: Result<(), CustomError>)
        ensures
            (self@, r) == spec_initialize(self@),
    {
        Ok(())
    }

    /// Allocate an event record at the context's fresh handle. The organizer
    /// is set to the invoker's identity unconditionally; no organizer is
    /// trusted from input. Fails when the handle is already occupied, and
    /// then changes nothing.
    pub fn initialize_event(
        &mut self,
        ctx: &InitializeEvent,
        name: String,
        venue: String,
        time: i64,
    ) -> (r: Result<(), CustomError>)
        requires
            old(self).wf(),
        ensures
            final(self).wf(),
            (final(self)@, r) == spec_initialize_event(
                old(self)@,
                ctx.event_account@,
                ctx.authority@,
                name@,
                venue@,
                time as int,
            ),
    {
        if self.events.contains(&ctx.event_account) {
            return Err(CustomError::AllocationError);
        }
        let account = EventAccount { name, venue, time, organizer: ctx.authority };
        self.events.insert(ctx.event_account, account);
        Ok(())
    }

    /// Provision the metadata record for `mint` at the address derived from
    /// the registry program's identity and the mint's identity, owned by the
    /// registry, and hand the derived address back. Create-only: fails, and
    /// changes nothing, when the address cannot be derived or already holds
    /// a record.
    pub fn attach_metadata(&mut self, registry: &Identity, mint: &Identity) -> (r: Result<
        Identity,
        CustomError,
    >)
        requires
            old(self).wf(),
        ensures
            final(self).wf(),
            ({
                let (s2, res) = spec_attach_metadata(old(self)@, registry@, mint@);
                final(self)@ == s2 && (match (r, res) {
                    (Ok(h), Ok(a)) => h@ == a,
                    (Err(e1), Err(e2)) => e1 == e2,
                    _ => false,
                })
            }),
    {
        let derived = match derive_metadata_address(registry, mint) {
            None => {
                return Err(CustomError::ValidationError);
            },
            Some(a) => a,
        };
        if self.metadata.contains(&derived) {
            return Err(CustomError::ValidationError);
        }
        self.metadata.insert(derived, *registry);
        Ok(derived)
    }

    /// Mint a ticket against an existing event: allocate the ticket record
    /// at the context's fresh handle, unscanned, and provision its metadata
    /// record at the derived address, which must be the metadata account the
    /// context names. One indivisible step: on any failure no ticket record
    /// and no metadata record is created.
    pub fn mint_ticket(&mut self, ctx: &MintTicket, seat: String, category: String) -> (r: Result<
        (),
        CustomError,
    >)
        requires
            old(self).wf(),
        ensures
            final(self).wf(),
            (final(self)@, r) == spec_mint_ticket(
                old(self)@,
                ctx.event_account@,
                ctx.ticket_account@,
                ctx.mint@,
                ctx.metadata_program@,
                ctx.metadata@,
                seat@,
                category@,
            ),
    {
        if !self.events.contains(&ctx.event_account) {
            return Err(CustomError::NotFoundError);
        }
        if self.tickets.contains(&ctx.ticket_account) {
            return Err(CustomError::AllocationError);
        }
        let derived = match derive_metadata_address(&ctx.metadata_program, &ctx.mint) {
            None => {
                return Err(CustomError::ValidationError);
            },
            Some(a) => a,
        };
        if !derived.equals(&ctx.metadata) {
            return Err(CustomError::ValidationError);
        }
        if self.metadata.contains(&derived) {
            return Err(CustomError::ValidationError);
        }
        let ticket = TicketAccount { event: ctx.event_account, seat, category, scanned: false };
        self.metadata.insert(derived, ctx.metadata_program);
        self.tickets.insert(ctx.ticket_account, ticket);
        Ok(())
    }

    /// Check a ticket in. Fails, and changes nothing, when the ticket does
    /// not resolve or was already scanned; otherwise sets the one-way
    /// `scanned` flag.
    pub fn verify_ticket(&mut self, ctx: &VerifyTicket) -> (r: Result<(), CustomError>)
        requires
            old(self).wf(),
        ensures
            final(self).wf(),
            (final(self)@, r) == spec_verify_ticket(old(self)@, ctx.ticket_account@),
    {
        let updated = match self.tickets.get(&ctx.ticket_account) {
            None => {
                return Err(CustomError::NotFoundError);
            },
            Some(ticket) => {
                if ticket.scanned {
                    return Err(CustomError::AlreadyScannedError);
                }
                TicketAccount {
                    event: ticket.event,
                    seat: ticket.seat.clone(),
                    category: ticket.category.clone(),
                    scanned: true,
                }
            },
        };
        let _ = self.tickets.set(&ctx.ticket_account, updated);
        Ok(())
    }

    /// Overwrite the ticket's `event` field with the context's new owner,
    /// leaving seat, category and the scanned flag alone. Transferring to
    /// the current value is a no-op success.
    pub fn transfer_ticket(&mut self, ctx: &TransferTicket) -> (r: Result<(), CustomError>)
        requires
            old(self).wf(),
        ensures
            final(self).wf(),
            (final(self)@, r) == spec_transfer_ticket(
                old(self)@,
                ctx.ticket_account@,
                ctx.new_owner@,
            ),
    {
        let updated = match self.tickets.get(&ctx.ticket_account) {
            None => {
                return Err(CustomError::NotFoundError);
            },
            Some(ticket) => TicketAccount {
                event: ctx.new_owner,
                seat: ticket.seat.clone(),
                category: ticket.category.clone(),
                scanned: ticket.scanned,
            },
        };
        let _ = self.tickets.set(&ctx.ticket_account, updated);
        Ok(())
    }

    /// Destroy an event record and return its storage deposit to the
    /// organizer. Fails, and leaves the record intact, unless the invoker's
    /// identity equals the stored organizer. Tickets minted against the
    /// event are not destroyed with it.
    pub fn close_event(&mut self, ctx: &CloseEvent) -> (r: Result<(), CustomError>)
        requires
            old(self).wf(),
        ensures
            final(self).wf(),
            (final(self)@, r) == spec_close_event(old(self)@, ctx.event_account@, ctx.authority@),
    {
        let authorized = match self.events.get(&ctx.event_account) {
            None => None,
            Some(account) => Some(account.organizer.equals(&ctx.authority)),
        };
        match authorized {
            None => Err(CustomError::NotFoundError),
            Some(false) => Err(CustomError::AuthorizationError),
            Some(true) => {
                let _ = self.events.remove(&ctx.event_account);
                Ok(())
            },
        }
    }

    /// Read the event record at `handle`.
    pub fn get_event(&self, handle: &Identity) -> (r: Option<&EventAccount>)
        requires
            self.wf(),
        ensures
            match r {
                Some(v) => self@.events.contains_key(handle@) && v@ == self@.events[handle@],
                None => !self@.events.contains_key(handle@),
            },
    {
        self.events.get(handle)
    }

    /// Read the ticket record at `handle`.
    pub fn get_ticket(&self, handle: &Identity) -> (r: Option<&TicketAccount>)
        requires
            self.wf(),
        ensures
            match r {
                Some(v) => self@.tickets.contains_key(handle@) && v@ == self@.tickets[handle@],
                None => !self@.tickets.contains_key(handle@),
            },
    {
        self.tickets.get(handle)
    }

    /// Read the owner of the metadata record at `addr`.
    pub fn metadata_owner(&self, addr: &Identity) -> (r: Option<&Identity>)
        requires
            self.wf(),
        ensures
            match r {
                Some(v) => self@.metadata.contains_key(addr@) && v@ == self@.metadata[addr@],
                None => !self@.metadata.contains_key(addr@),
            },
    {
        self.metadata.get(addr)
    }
}

} // verus!
