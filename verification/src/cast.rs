//! Reading an event as one of its payload types.
use vstd::prelude::*;
use crate::events::{
    EventView, ApproveEvent, BurnEvent, CloseAccountEvent, Event, FreezeAccountEvent, InitializeAccountEvent,
    InitializeImmutableOwnerEvent, InitializeMintEvent, InitializeMultisigEvent, MintToEvent,
    RevokeEvent, SetAuthorityEvent, ThawAccountEvent, TransferEvent,
};
use crate::instruction::{
    check_instruction_parsable, instruction_parsable, parse_approve_instruction, parse_burn_instruction,
    parse_close_account_instruction, parse_freeze_account_instruction,
    parse_initialize_account_instruction, parse_initialize_immutable_owner_instruction,
    parse_initialize_mint_instruction, parse_initialize_multisig_instruction,
    parse_instruction_result, parse_mint_to_instruction, parse_revoke_instruction,
    parse_set_authority_instruction, parse_thaw_account_instruction, parse_transfer_instruction,
};
use crate::input::{StructuredInstruction, TransactionContext};

verus! {

/// A record that an `Event` can carry: each event type is the payload of exactly one variant.
pub trait EventPayload: Sized {
    /// The payload that `event` carries, if it is of this type.
    spec fn payload_of(event: Event) -> Option<Self>;

    /// The event that carries `payload`.
    spec fn wrap(payload: Self) -> Event;

    proof fn lemma_payload_of_wrap(payload: Self)
        ensures
            Self::payload_of(Self::wrap(payload)) == Some(payload),
    ;

    proof fn lemma_wrap_of_payload(event: Event)
        ensures
            Self::payload_of(event) matches Some(p) ==> Self::wrap(p) == event,
    ;

    /// The view is that of an event of this type.
    spec fn is_kind_of(view: EventView) -> bool;

    /// The event of this type that the instruction records; an error where it records
    /// another or none.
    fn parse_instruction_as(
        instruction: &StructuredInstruction,
        context: &TransactionContext,
    ) -> (result: Result<Self, &'static str>)
        requires
            instruction_parsable(*instruction, *context),
        ensures
            match result {
                Ok(p) => parse_instruction_result(*instruction, *context)
                    == Ok::<Option<EventView>, &'static str>(Some(Self::wrap(p).deep_view())),
                Err(_) => !(parse_instruction_result(*instruction, *context) matches Ok(Some(v))
                    && Self::is_kind_of(v)),
            },
    ;

    fn from_event(event: &Event) -> (payload: Option<&Self>)
        ensures
            match payload {
                Some(p) => Self::payload_of(*event) == Some(*p),
                None => Self::payload_of(*event) is None,
            },
    ;
}

impl Event {
    /// The payload of this event if it is of type `T`, else `None`.
    pub fn cast<T: EventPayload>(&self) -> (payload: Option<&T>)
        ensures
            match payload {
                Some(p) => T::payload_of(*self) == Some(*p),
                None => T::payload_of(*self) is None,
            },
    {
        T::from_event(self)
    }
}

impl EventPayload for InitializeMintEvent {
    open spec fn payload_of(event: Event) -> Option<Self> {
        match event {
            Event::InitializeMint(e) => Some(e),
            _ => None,
        }
    }

    open spec fn wrap(payload: Self) -> Event {
        Event::InitializeMint(payload)
    }

    proof fn lemma_payload_of_wrap(payload: Self) {
    }

    proof fn lemma_wrap_of_payload(event: Event) {
    }

    open spec fn is_kind_of(view: EventView) -> bool {
        view is InitializeMint
    }

    fn parse_instruction_as(
        instruction: &StructuredInstruction,
        context: &TransactionContext,
    ) -> (result: Result<Self, &'static str>) {
        parse_initialize_mint_instruction(instruction, context)
    }

    fn from_event(event: &Event) -> (payload: Option<&Self>) {
        match event {
            Event::InitializeMint(e) => Some(e),
            _ => None,
        }
    }
}

impl EventPayload for InitializeAccountEvent {
    open spec fn payload_of(event: Event) -> Option<Self> {
        match event {
            Event::InitializeAccount(e) => Some(e),
            _ => None,
        }
    }

    open spec fn wrap(payload: Self) -> Event {
        Event::InitializeAccount(payload)
    }

    proof fn lemma_payload_of_wrap(payload: Self) {
    }

    proof fn lemma_wrap_of_payload(event: Event) {
    }

    open spec fn is_kind_of(view: EventView) -> bool {
        view is InitializeAccount
    }

    fn parse_instruction_as(
        instruction: &StructuredInstruction,
        context: &TransactionContext,
    ) -> (result: Result<Self, &'static str>) {
        parse_initialize_account_instruction(instruction, context)
    }

    fn from_event(event: &Event) -> (payload: Option<&Self>) {
        match event {
            Event::InitializeAccount(e) => Some(e),
            _ => None,
        }
    }
}

impl EventPayload for InitializeMultisigEvent {
    open spec fn payload_of(event: Event) -> Option<Self> {
        match event {
            Event::InitializeMultisig(e) => Some(e),
            _ => None,
        }
    }

    open spec fn wrap(payload: Self) -> Event {
        Event::InitializeMultisig(payload)
    }

    proof fn lemma_payload_of_wrap(payload: Self) {
    }

    proof fn lemma_wrap_of_payload(event: Event) {
    }

    open spec fn is_kind_of(view: EventView) -> bool {
        view is InitializeMultisig
    }

    fn parse_instruction_as(
        instruction: &StructuredInstruction,
        context: &TransactionContext,
    ) -> (result: Result<Self, &'static str>) {
        parse_initialize_multisig_instruction(instruction, context)
    }

    fn from_event(event: &Event) -> (payload: Option<&Self>) {
        match event {
            Event::InitializeMultisig(e) => Some(e),
            _ => None,
        }
    }
}

impl EventPayload for TransferEvent {
    open spec fn payload_of(event: Event) -> Option<Self> {
        match event {
            Event::Transfer(e) => Some(e),
            _ => None,
        }
    }

    open spec fn wrap(payload: Self) -> Event {
        Event::Transfer(payload)
    }

    proof fn lemma_payload_of_wrap(payload: Self) {
    }

    proof fn lemma_wrap_of_payload(event: Event) {
    }

    open spec fn is_kind_of(view: EventView) -> bool {
        view is Transfer
    }

    fn parse_instruction_as(
        instruction: &StructuredInstruction,
        context: &TransactionContext,
    ) -> (result: Result<Self, &'static str>) {
        parse_transfer_instruction(instruction, context)
    }

    fn from_event(event: &Event) -> (payload: Option<&Self>) {
        match event {
            Event::Transfer(e) => Some(e),
            _ => None,
        }
    }
}

impl EventPayload for ApproveEvent {
    open spec fn payload_of(event: Event) -> Option<Self> {
        match event {
            Event::Approve(e) => Some(e),
            _ => None,
        }
    }

    open spec fn wrap(payload: Self) -> Event {
        Event::Approve(payload)
    }

    proof fn lemma_payload_of_wrap(payload: Self) {
    }

    proof fn lemma_wrap_of_payload(event: Event) {
    }

    open spec fn is_kind_of(view: EventView) -> bool {
        view is Approve
    }

    fn parse_instruction_as(
        instruction: &StructuredInstruction,
        context: &TransactionContext,
    ) -> (result: Result<Self, &'static str>) {
        parse_approve_instruction(instruction, context)
    }

    fn from_event(event: &Event) -> (payload: Option<&Self>) {
        match event {
            Event::Approve(e) => Some(e),
            _ => None,
        }
    }
}

impl EventPayload for RevokeEvent {
    open spec fn payload_of(event: Event) -> Option<Self> {
        match event {
            Event::Revoke(e) => Some(e),
            _ => None,
        }
    }

    open spec fn wrap(payload: Self) -> Event {
        Event::Revoke(payload)
    }

    proof fn lemma_payload_of_wrap(payload: Self) {
    }

    proof fn lemma_wrap_of_payload(event: Event) {
    }

    open spec fn is_kind_of(view: EventView) -> bool {
        view is Revoke
    }

    fn parse_instruction_as(
        instruction: &StructuredInstruction,
        context: &TransactionContext,
    ) -> (result: Result<Self, &'static str>) {
        parse_revoke_instruction(instruction, context)
    }

    fn from_event(event: &Event) -> (payload: Option<&Self>) {
        match event {
            Event::Revoke(e) => Some(e),
            _ => None,
        }
    }
}

impl EventPayload for SetAuthorityEvent {
    open spec fn payload_of(event: Event) -> Option<Self> {
        match event {
            Event::SetAuthority(e) => Some(e),
            _ => None,
        }
    }

    open spec fn wrap(payload: Self) -> Event {
        Event::SetAuthority(payload)
    }

    proof fn lemma_payload_of_wrap(payload: Self) {
    }

    proof fn lemma_wrap_of_payload(event: Event) {
    }

    open spec fn is_kind_of(view: EventView) -> bool {
        view is SetAuthority
    }

    fn parse_instruction_as(
        instruction: &StructuredInstruction,
        context: &TransactionContext,
    ) -> (result: Result<Self, &'static str>) {
        parse_set_authority_instruction(instruction, context)
    }

    fn from_event(event: &Event) -> (payload: Option<&Self>) {
        match event {
            Event::SetAuthority(e) => Some(e),
            _ => None,
        }
    }
}

impl EventPayload for MintToEvent {
    open spec fn payload_of(event: Event) -> Option<Self> {
        match event {
            Event::MintTo(e) => Some(e),
            _ => None,
        }
    }

    open spec fn wrap(payload: Self) -> Event {
        Event::MintTo(payload)
    }

    proof fn lemma_payload_of_wrap(payload: Self) {
    }

    proof fn lemma_wrap_of_payload(event: Event) {
    }

    open spec fn is_kind_of(view: EventView) -> bool {
        view is MintTo
    }

    fn parse_instruction_as(
        instruction: &StructuredInstruction,
        context: &TransactionContext,
    ) -> (result: Result<Self, &'static str>) {
        parse_mint_to_instruction(instruction, context)
    }

    fn from_event(event: &Event) -> (payload: Option<&Self>) {
        match event {
            Event::MintTo(e) => Some(e),
            _ => None,
        }
    }
}

impl EventPayload for BurnEvent {
    open spec fn payload_of(event: Event) -> Option<Self> {
        match event {
            Event::Burn(e) => Some(e),
            _ => None,
        }
    }

    open spec fn wrap(payload: Self) -> Event {
        Event::Burn(payload)
    }

    proof fn lemma_payload_of_wrap(payload: Self) {
    }

    proof fn lemma_wrap_of_payload(event: Event) {
    }

    open spec fn is_kind_of(view: EventView) -> bool {
        view is Burn
    }

    fn parse_instruction_as(
        instruction: &StructuredInstruction,
        context: &TransactionContext,
    ) -> (result: Result<Self, &'static str>) {
        parse_burn_instruction(instruction, context)
    }

    fn from_event(event: &Event) -> (payload: Option<&Self>) {
        match event {
            Event::Burn(e) => Some(e),
            _ => None,
        }
    }
}

impl EventPayload for CloseAccountEvent {
    open spec fn payload_of(event: Event) -> Option<Self> {
        match event {
            Event::CloseAccount(e) => Some(e),
            _ => None,
        }
    }

    open spec fn wrap(payload: Self) -> Event {
        Event::CloseAccount(payload)
    }

    proof fn lemma_payload_of_wrap(payload: Self) {
    }

    proof fn lemma_wrap_of_payload(event: Event) {
    }

    open spec fn is_kind_of(view: EventView) -> bool {
        view is CloseAccount
    }

    fn parse_instruction_as(
        instruction: &StructuredInstruction,
        context: &TransactionContext,
    ) -> (result: Result<Self, &'static str>) {
        parse_close_account_instruction(instruction, context)
    }

    fn from_event(event: &Event) -> (payload: Option<&Self>) {
        match event {
            Event::CloseAccount(e) => Some(e),
            _ => None,
        }
    }
}

impl EventPayload for FreezeAccountEvent {
    open spec fn payload_of(event: Event) -> Option<Self> {
        match event {
            Event::FreezeAccount(e) => Some(e),
            _ => None,
        }
    }

    open spec fn wrap(payload: Self) -> Event {
        Event::FreezeAccount(payload)
    }

    proof fn lemma_payload_of_wrap(payload: Self) {
    }

    proof fn lemma_wrap_of_payload(event: Event) {
    }

    open spec fn is_kind_of(view: EventView) -> bool {
        view is FreezeAccount
    }

    fn parse_instruction_as(
        instruction: &StructuredInstruction,
        context: &TransactionContext,
    ) -> (result: Result<Self, &'static str>) {
        parse_freeze_account_instruction(instruction, context)
    }

    fn from_event(event: &Event) -> (payload: Option<&Self>) {
        match event {
            Event::FreezeAccount(e) => Some(e),
            _ => None,
        }
    }
}

impl EventPayload for ThawAccountEvent {
    open spec fn payload_of(event: Event) -> Option<Self> {
        match event {
            Event::ThawAccount(e) => Some(e),
            _ => None,
        }
    }

    open spec fn wrap(payload: Self) -> Event {
        Event::ThawAccount(payload)
    }

    proof fn lemma_payload_of_wrap(payload: Self) {
    }

    proof fn lemma_wrap_of_payload(event: Event) {
    }

    open spec fn is_kind_of(view: EventView) -> bool {
        view is ThawAccount
    }

    fn parse_instruction_as(
        instruction: &StructuredInstruction,
        context: &TransactionContext,
    ) -> (result: Result<Self, &'static str>) {
        parse_thaw_account_instruction(instruction, context)
    }

    fn from_event(event: &Event) -> (payload: Option<&Self>) {
        match event {
            Event::ThawAccount(e) => Some(e),
            _ => None,
        }
    }
}

impl EventPayload for InitializeImmutableOwnerEvent {
    open spec fn payload_of(event: Event) -> Option<Self> {
        match event {
            Event::InitializeImmutableOwner(e) => Some(e),
            _ => None,
        }
    }

    open spec fn wrap(payload: Self) -> Event {
        Event::InitializeImmutableOwner(payload)
    }

    proof fn lemma_payload_of_wrap(payload: Self) {
    }

    proof fn lemma_wrap_of_payload(event: Event) {
    }

    open spec fn is_kind_of(view: EventView) -> bool {
        view is InitializeImmutableOwner
    }

    fn parse_instruction_as(
        instruction: &StructuredInstruction,
        context: &TransactionContext,
    ) -> (result: Result<Self, &'static str>) {
        parse_initialize_immutable_owner_instruction(instruction, context)
    }

    fn from_event(event: &Event) -> (payload: Option<&Self>) {
        match event {
            Event::InitializeImmutableOwner(e) => Some(e),
            _ => None,
        }
    }
}

/// The event of type `T` that the instruction records, where `parse_instruction` reads only
/// accounts that are there; `None` elsewhere.
pub fn try_parse_instruction_as<T: EventPayload>(
    instruction: &StructuredInstruction,
    context: &TransactionContext,
) -> (result: Option<Result<T, &'static str>>)
    ensures
        match result {
            Some(Ok(p)) => {
                &&& instruction_parsable(*instruction, *context)
                &&& parse_instruction_result(*instruction, *context)
                    == Ok::<Option<EventView>, &'static str>(Some(T::wrap(p).deep_view()))
            },
            Some(Err(_)) => {
                &&& instruction_parsable(*instruction, *context)
                &&& !(parse_instruction_result(*instruction, *context) matches Ok(Some(v)) && T::is_kind_of(v))
            },
            None => !instruction_parsable(*instruction, *context),
        },
{
    if check_instruction_parsable(instruction, context) {
        Some(T::parse_instruction_as(instruction, context))
    } else {
        None
    }
}

} // verus!
