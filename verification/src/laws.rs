//! What holds of the library as a whole.
use vstd::prelude::*;
use crate::cast::EventPayload;
use crate::events::{
    ApproveEvent, BurnEvent, CloseAccountEvent, Event, FreezeAccountEvent, InitializeAccountEvent,
    InitializeImmutableOwnerEvent, InitializeMintEvent, InitializeMultisigEvent, MintToEvent,
    RevokeEvent, SetAuthorityEvent, ThawAccountEvent, TransferEvent,
};
use crate::input::{Block, ConfirmedTransaction, Pubkey, TokenInstruction, TransactionContext};
use crate::events::{SplTokenEventView, SplTokenTransactionEventsView};
use crate::base58::base58;
use crate::database::{row_position, RowOperation};
use crate::tables::{entries_complete, lemma_block_events_complete, apply_writes, block_rows, block_writes, fields_after, RowWrite};
use crate::transaction::{
    block_events, event_at, events_of_instructions, lemma_event_at_position, transaction_events, transaction_failed,
    transactions_with_events,
};
use crate::instruction::{
    accounts_available, instruction_event, multisig_accounts_named, names_account, signer_addresses,
};

verus! {

/// Casting an event to the type of its payload gives back that payload.
pub proof fn law_cast_of_wrapped<T: EventPayload>(payload: T)
    ensures
        T::payload_of(T::wrap(payload)) == Some(payload),
{
    T::lemma_payload_of_wrap(payload);
}

/// A payload that a cast finds is the one the event carries: wrapping it again gives the event.
pub proof fn law_cast_rewraps<T: EventPayload>(event: Event)
    ensures
        T::payload_of(event) matches Some(p) ==> T::wrap(p) == event,
{
    T::lemma_wrap_of_payload(event);
}

/// The number of payload types to which the event casts.
pub open spec fn payload_type_count(event: Event) -> int {
    (if InitializeMintEvent::payload_of(event) is Some { 1int } else { 0 })
        + (if InitializeAccountEvent::payload_of(event) is Some { 1int } else { 0 })
        + (if InitializeMultisigEvent::payload_of(event) is Some { 1int } else { 0 })
        + (if TransferEvent::payload_of(event) is Some { 1int } else { 0 })
        + (if ApproveEvent::payload_of(event) is Some { 1int } else { 0 })
        + (if RevokeEvent::payload_of(event) is Some { 1int } else { 0 })
        + (if SetAuthorityEvent::payload_of(event) is Some { 1int } else { 0 })
        + (if MintToEvent::payload_of(event) is Some { 1int } else { 0 })
        + (if BurnEvent::payload_of(event) is Some { 1int } else { 0 })
        + (if CloseAccountEvent::payload_of(event) is Some { 1int } else { 0 })
        + (if FreezeAccountEvent::payload_of(event) is Some { 1int } else { 0 })
        + (if ThawAccountEvent::payload_of(event) is Some { 1int } else { 0 })
        + (if InitializeImmutableOwnerEvent::payload_of(event) is Some { 1int } else { 0 })
}

/// Every event casts to exactly one of the payload types.
pub proof fn law_cast_exactly_one_type(event: Event)
    ensures
        payload_type_count(event) == 1,
{
}

/// `TransferChecked` records the event of `Transfer` on the same accounts without the
/// mint, which it names second; the decimals play no part.
pub proof fn law_transfer_checked_skips_mint(
    context: TransactionContext,
    accounts: Seq<u8>,
    amount: u64,
    decimals: u8,
)
    requires
        accounts.len() >= 2,
    ensures
        accounts_available(TokenInstruction::TransferChecked { amount, decimals }, context, accounts)
            == accounts_available(TokenInstruction::Transfer { amount }, context, accounts.remove(1)),
        accounts_available(TokenInstruction::TransferChecked { amount, decimals }, context, accounts)
            ==> instruction_event(TokenInstruction::TransferChecked { amount, decimals }, context, accounts)
            == instruction_event(TokenInstruction::Transfer { amount }, context, accounts.remove(1)),
{
    let without_mint = accounts.remove(1);
    assert(without_mint[0] == accounts[0]);
    assert forall|k: int| 1 <= k < without_mint.len() implies without_mint[k] == accounts[k + 1] by {}
}

/// `ApproveChecked` records the event of `Approve` on the same accounts without the mint,
/// which it names second; the decimals play no part.
pub proof fn law_approve_checked_skips_mint(
    context: TransactionContext,
    accounts: Seq<u8>,
    amount: u64,
    decimals: u8,
)
    requires
        accounts.len() >= 2,
    ensures
        accounts_available(TokenInstruction::ApproveChecked { amount, decimals }, context, accounts)
            == accounts_available(TokenInstruction::Approve { amount }, context, accounts.remove(1)),
        accounts_available(TokenInstruction::ApproveChecked { amount, decimals }, context, accounts)
            ==> instruction_event(TokenInstruction::ApproveChecked { amount, decimals }, context, accounts)
            == instruction_event(TokenInstruction::Approve { amount }, context, accounts.remove(1)),
{
    let without_mint = accounts.remove(1);
    assert(without_mint[0] == accounts[0]);
    assert forall|k: int| 1 <= k < without_mint.len() implies without_mint[k] == accounts[k + 1] by {}
}

/// `MintToChecked` and `BurnChecked` record the events of `MintTo` and `Burn`: the decimals
/// play no part.
pub proof fn law_checked_mint_and_burn_ignore_decimals(
    context: TransactionContext,
    accounts: Seq<u8>,
    amount: u64,
    decimals: u8,
)
    ensures
        instruction_event(TokenInstruction::MintToChecked { amount, decimals }, context, accounts)
            == instruction_event(TokenInstruction::MintTo { amount }, context, accounts),
        instruction_event(TokenInstruction::BurnChecked { amount, decimals }, context, accounts)
            == instruction_event(TokenInstruction::Burn { amount }, context, accounts),
{
}

/// A `Burn` records its source token account, authority and amount, not the mint account
/// that it names second: whichever account stands there, the event is the same (the
/// instruction names its authority third).
pub proof fn law_burn_mint_not_recorded(context: TransactionContext, accounts: Seq<u8>, amount: u64, mint: u8)
    requires
        accounts.len() >= 3,
    ensures
        instruction_event(TokenInstruction::Burn { amount }, context, accounts.update(1, mint))
            == instruction_event(TokenInstruction::Burn { amount }, context, accounts),
{
    let other = accounts.update(1, mint);
    assert(other[0] == accounts[0] && other[2] == accounts[2]);
}

/// `InitializeMint2` records the event of `InitializeMint`.
pub proof fn law_initialize_mint2_as_initialize_mint(
    context: TransactionContext,
    accounts: Seq<u8>,
    decimals: u8,
    mint_authority: Pubkey,
    freeze_authority: Option<Pubkey>,
)
    ensures
        instruction_event(
            TokenInstruction::InitializeMint2 { decimals, mint_authority, freeze_authority },
            context,
            accounts,
        ) == instruction_event(
            TokenInstruction::InitializeMint { decimals, mint_authority, freeze_authority },
            context,
            accounts,
        ),
{
}

/// `InitializeAccount2` and `InitializeAccount3` record the event of `InitializeAccount`:
/// the owner in their data plays no part.
pub proof fn law_initialize_account_owner_ignored(
    context: TransactionContext,
    accounts: Seq<u8>,
    owner: Pubkey,
)
    ensures
        instruction_event(TokenInstruction::InitializeAccount2 { owner }, context, accounts)
            == instruction_event(TokenInstruction::InitializeAccount, context, accounts),
        instruction_event(TokenInstruction::InitializeAccount3 { owner }, context, accounts)
            == instruction_event(TokenInstruction::InitializeAccount, context, accounts),
{
}

/// `InitializeMultisig2` records the event of `InitializeMultisig` on the same accounts with
/// a rent sysvar account named second, whichever account that is.
pub proof fn law_initialize_multisig2_without_rent_sysvar(
    context: TransactionContext,
    accounts: Seq<u8>,
    m: u8,
    rent_sysvar: u8,
)
    requires
        accounts.len() >= 1,
    ensures
        instruction_event(TokenInstruction::InitializeMultisig2 { m }, context, accounts)
            == instruction_event(TokenInstruction::InitializeMultisig { m }, context, accounts.insert(1, rent_sysvar)),
        accounts_available(TokenInstruction::InitializeMultisig2 { m }, context, accounts)
            == accounts_available(TokenInstruction::InitializeMultisig { m }, context, accounts.insert(1, rent_sysvar)),
{
    let with_rent = accounts.insert(1, rent_sysvar);
    assert(with_rent[0] == accounts[0]);
    assert forall|j: int| 2 <= j < with_rent.len() implies with_rent[j] == accounts[j - 1] by {}
    assert(signer_addresses(context, accounts, 1) =~= signer_addresses(context, with_rent, 2));
    if multisig_accounts_named(context, accounts, 1) {
        assert forall|j: int| 2 <= j < with_rent.len() implies #[trigger] names_account(context, with_rent, j) by {
            assert(names_account(context, accounts, j - 1));
        }
    }
    if multisig_accounts_named(context, with_rent, 2) {
        assert forall|j: int| 1 <= j < accounts.len() implies #[trigger] names_account(context, accounts, j) by {
            assert(names_account(context, with_rent, j + 1));
        }
    }
}

/// A failed transaction has no events.
pub proof fn law_failed_transaction_has_no_events(transaction: ConfirmedTransaction)
    requires
        transaction.meta is Some,
        transaction_failed(transaction),
    ensures
        transaction_events(transaction).len() == 0,
{
}

/// The event recorded for an instruction of the transaction.
pub open spec fn recorded_for_some_instruction(transaction: ConfirmedTransaction, event: SplTokenEventView) -> bool {
    exists|i: int| 0 <= i < transaction.instructions@.len() && #[trigger] event_at(transaction, i) == Some(event)
}

proof fn lemma_events_come_from_instructions(transaction: ConfirmedTransaction, n: int)
    ensures
        events_of_instructions(transaction, n).len() <= if n < 0 { 0 } else { n },
        forall|k: int| #![trigger events_of_instructions(transaction, n)[k]]
            0 <= k < events_of_instructions(transaction, n).len() ==> exists|i: int|
                0 <= i < n && #[trigger] event_at(transaction, i) == Some(events_of_instructions(transaction, n)[k]),
    decreases n,
{
    if n > 0 {
        lemma_events_come_from_instructions(transaction, n - 1);
        let earlier = events_of_instructions(transaction, n - 1);
        let events = events_of_instructions(transaction, n);
        assert forall|k: int| #![trigger events[k]] 0 <= k < events.len() implies exists|i: int|
            0 <= i < n && #[trigger] event_at(transaction, i) == Some(events[k]) by {
            if k < earlier.len() {
                assert(events[k] == earlier[k]);
                let i = choose|i: int| 0 <= i < n - 1 && #[trigger] event_at(transaction, i) == Some(earlier[k]);
                assert(0 <= i < n && event_at(transaction, i) == Some(events[k]));
            } else {
                assert(event_at(transaction, n - 1) == Some(events[k]));
            }
        }
    }
}

proof fn lemma_instructions_have_their_events(transaction: ConfirmedTransaction, n: int)
    ensures
        forall|i: int| 0 <= i < n && #[trigger] event_at(transaction, i) is Some ==> exists|k: int|
            0 <= k < events_of_instructions(transaction, n).len()
                && Some(events_of_instructions(transaction, n)[k]) == event_at(transaction, i),
    decreases n,
{
    if n > 0 {
        lemma_instructions_have_their_events(transaction, n - 1);
        let earlier = events_of_instructions(transaction, n - 1);
        let events = events_of_instructions(transaction, n);
        assert forall|i: int| 0 <= i < n && #[trigger] event_at(transaction, i) is Some implies exists|k: int|
            0 <= k < events.len() && Some(events[k]) == event_at(transaction, i) by {
            if i < n - 1 {
                let k = choose|k: int| 0 <= k < earlier.len() && Some(earlier[k]) == event_at(transaction, i);
                assert(events[k] == earlier[k]);
            } else {
                assert(Some(events[events.len() - 1]) == event_at(transaction, i));
            }
        }
    }
}

pub(crate) proof fn lemma_events_ordered(transaction: ConfirmedTransaction, n: int)
    requires
        n <= 0x1_0000_0000,
    ensures
        forall|k: int| 0 <= k < events_of_instructions(transaction, n).len()
            ==> (#[trigger] events_of_instructions(transaction, n)[k].instruction_index) < n,
        forall|k1: int, k2: int| 0 <= k1 < k2 < events_of_instructions(transaction, n).len()
            ==> #[trigger] events_of_instructions(transaction, n)[k1].instruction_index
                < #[trigger] events_of_instructions(transaction, n)[k2].instruction_index,
    decreases n,
{
    if n > 0 {
        lemma_events_ordered(transaction, n - 1);
        lemma_event_at_position(transaction, n - 1);
        let earlier = events_of_instructions(transaction, n - 1);
        let events = events_of_instructions(transaction, n);
        assert forall|k: int| 0 <= k < events.len() implies (#[trigger] events[k].instruction_index) < n by {
            if k < earlier.len() {
                assert(events[k] == earlier[k]);
            }
        }
        assert forall|k1: int, k2: int| 0 <= k1 < k2 < events.len() implies
            #[trigger] events[k1].instruction_index < #[trigger] events[k2].instruction_index by {
            assert(events[k1] == earlier[k1]);
            if k2 < earlier.len() {
                assert(events[k2] == earlier[k2]);
            } else {
                assert(earlier[k1].instruction_index < n - 1);
            }
        }
    }
}

/// The events of a transaction that did not fail are those of its instructions: each event is
/// the one recorded for one of its instructions, every instruction that records one appears,
/// there are no more events than instructions, and, where the positions fit in 32 bits, the
/// events follow the instructions' order.
pub proof fn law_transaction_events_follow_instructions(transaction: ConfirmedTransaction)
    requires
        transaction.meta is Some,
        !transaction_failed(transaction),
    ensures
        ({
            let events = transaction_events(transaction);
            let n = transaction.instructions@.len();
            &&& events.len() <= n
            &&& forall|k: int| 0 <= k < events.len() ==> recorded_for_some_instruction(transaction, #[trigger] events[k])
            &&& forall|i: int| 0 <= i < n && #[trigger] event_at(transaction, i) is Some ==> exists|k: int|
                0 <= k < events.len() && Some(events[k]) == event_at(transaction, i)
            &&& n <= 0x1_0000_0000 ==> forall|k1: int, k2: int| 0 <= k1 < k2 < events.len()
                ==> #[trigger] events[k1].instruction_index < #[trigger] events[k2].instruction_index
        }),
{
    let n = transaction.instructions@.len() as int;
    lemma_events_come_from_instructions(transaction, n);
    lemma_instructions_have_their_events(transaction, n);
    if n <= 0x1_0000_0000 {
        lemma_events_ordered(transaction, n);
    }
    let events = transaction_events(transaction);
    assert forall|k: int| 0 <= k < events.len() implies recorded_for_some_instruction(transaction, #[trigger] events[k]) by {
        let i = choose|i: int| 0 <= i < transaction.instructions@.len() && #[trigger] event_at(transaction, i) == Some(events[k]);
    }
}

/// The entry for the transaction at `index` of the block.
pub open spec fn entry_for(block: Block, index: int) -> SplTokenTransactionEventsView {
    SplTokenTransactionEventsView {
        signature: base58(block.transactions@[index].signature@),
        transaction_index: index as u32,
        events: transaction_events(block.transactions@[index]),
    }
}

proof fn lemma_transactions_with_events(block: Block, n: int)
    requires
        0 <= n <= block.transactions@.len(),
    ensures
        ({
            let entries = transactions_with_events(block, n);
            &&& entries.len() <= n
            &&& forall|k: int| 0 <= k < entries.len() ==> (#[trigger] entries[k]).events.len() > 0
            &&& forall|k: int| #![trigger entries[k]] 0 <= k < entries.len() ==> exists|i: int|
                0 <= i < n && #[trigger] entry_for(block, i) == entries[k]
            &&& forall|i: int| 0 <= i < n && (#[trigger] transaction_events(block.transactions@[i])).len() > 0
                ==> exists|k: int| 0 <= k < entries.len() && entries[k] == entry_for(block, i)
            &&& n <= 0x1_0000_0000 ==> forall|k: int| 0 <= k < entries.len() ==> (#[trigger] entries[k].transaction_index) < n
            &&& n <= 0x1_0000_0000 ==> forall|k1: int, k2: int| 0 <= k1 < k2 < entries.len()
                ==> #[trigger] entries[k1].transaction_index < #[trigger] entries[k2].transaction_index
        }),
    decreases n,
{
    if n > 0 {
        lemma_transactions_with_events(block, n - 1);
        let earlier = transactions_with_events(block, n - 1);
        let entries = transactions_with_events(block, n);
        assert forall|k: int| 0 <= k < entries.len() implies (#[trigger] entries[k]).events.len() > 0 by {
            if k < earlier.len() {
                assert(entries[k] == earlier[k]);
            }
        }
        assert forall|k: int| #![trigger entries[k]] 0 <= k < entries.len() implies exists|i: int|
            0 <= i < n && #[trigger] entry_for(block, i) == entries[k] by {
            if k < earlier.len() {
                assert(entries[k] == earlier[k]);
                let i = choose|i: int| 0 <= i < n - 1 && #[trigger] entry_for(block, i) == earlier[k];
                assert(0 <= i < n && entry_for(block, i) == entries[k]);
            } else {
                assert(entry_for(block, n - 1) == entries[k]);
            }
        }
        assert forall|i: int| 0 <= i < n && (#[trigger] transaction_events(block.transactions@[i])).len() > 0
            implies exists|k: int| 0 <= k < entries.len() && entries[k] == entry_for(block, i) by {
            if i < n - 1 {
                let k = choose|k: int| 0 <= k < earlier.len() && earlier[k] == entry_for(block, i);
                assert(entries[k] == earlier[k]);
            } else {
                assert(entries[entries.len() - 1] == entry_for(block, i));
            }
        }
        if n <= 0x1_0000_0000 {
            assert forall|k: int| 0 <= k < entries.len() implies (#[trigger] entries[k].transaction_index) < n by {
                if k < earlier.len() {
                    assert(entries[k] == earlier[k]);
                }
            }
            assert forall|k1: int, k2: int| 0 <= k1 < k2 < entries.len() implies
                #[trigger] entries[k1].transaction_index < #[trigger] entries[k2].transaction_index by {
                assert(entries[k1] == earlier[k1]);
                if k2 < earlier.len() {
                    assert(entries[k2] == earlier[k2]);
                } else {
                    assert(earlier[k1].transaction_index < n - 1);
                }
            }
        }
    }
}

/// The entries of a block are its transactions that have events, each with its signature, its
/// position and its events: no entry is empty, every transaction with events has its entry,
/// and, where the positions fit in 32 bits, the entries follow the block's order.
pub proof fn law_block_entries_follow_transactions(block: Block)
    ensures
        ({
            let entries = block_events(block);
            let n = block.transactions@.len();
            &&& entries.len() <= n
            &&& forall|k: int| 0 <= k < entries.len() ==> (#[trigger] entries[k]).events.len() > 0
            &&& forall|k: int| #![trigger entries[k]] 0 <= k < entries.len() ==> exists|i: int|
                0 <= i < n && #[trigger] entry_for(block, i) == entries[k]
            &&& forall|i: int| 0 <= i < n && (#[trigger] transaction_events(block.transactions@[i])).len() > 0
                ==> exists|k: int| 0 <= k < entries.len() && entries[k] == entry_for(block, i)
            &&& n <= 0x1_0000_0000 ==> forall|k1: int, k2: int| 0 <= k1 < k2 < entries.len()
                ==> #[trigger] entries[k1].transaction_index < #[trigger] entries[k2].transaction_index
        }),
{
    lemma_transactions_with_events(block, block.transactions@.len() as int);
}

/// No two writes are for the same table and key.
pub open spec fn writes_keys_distinct(writes: Seq<RowWrite>) -> bool {
    forall|i: int, j: int|
        0 <= i < j < writes.len() ==> !(#[trigger] writes[i].0 == #[trigger] writes[j].0 && writes[i].1 == writes[j].1)
}

proof fn lemma_apply_writes_distinct(writes: Seq<RowWrite>)
    requires
        writes_keys_distinct(writes),
    ensures
        apply_writes(Seq::empty(), writes).len() == writes.len(),
        forall|i: int| 0 <= i < writes.len() ==> #[trigger] apply_writes(Seq::empty(), writes)[i]
            == (writes[i].0, writes[i].1, fields_after(Map::empty(), writes[i].2), RowOperation::Create),
    decreases writes.len(),
{
    if writes.len() > 0 {
        let earlier = writes.drop_last();
        assert forall|i: int, j: int| 0 <= i < j < earlier.len() implies
            !(#[trigger] earlier[i].0 == #[trigger] earlier[j].0 && earlier[i].1 == earlier[j].1) by {
            assert(earlier[i] == writes[i] && earlier[j] == writes[j]);
        }
        lemma_apply_writes_distinct(earlier);
        let rows = apply_writes(Seq::empty(), earlier);
        let last = writes.last();
        if row_position(rows, last.0, last.1) is Some {
            let i = choose|i: int| 0 <= i < rows.len() && rows[i].0 == last.0 && rows[i].1 == last.1;
            assert(rows[i] == (earlier[i].0, earlier[i].1, fields_after(Map::empty(), earlier[i].2), RowOperation::Create));
            assert(earlier[i] == writes[i]);
            assert(writes[i].0 == writes[writes.len() - 1].0);
            assert(false);
        }
        assert(last == writes[writes.len() - 1]);
        assert forall|i: int| 0 <= i < writes.len() implies #[trigger] apply_writes(Seq::empty(), writes)[i]
            == (writes[i].0, writes[i].1, fields_after(Map::empty(), writes[i].2), RowOperation::Create) by {
            if i < earlier.len() {
                assert(earlier[i] == writes[i]);
            }
        }
    }
}

/// The rows that a block's events write, in order: one for each event that records one.
pub open spec fn event_writes(block: Block) -> Seq<RowWrite> {
    let entries = block_events(block);
    block_writes(entries, block.slot, entries.len() as int)
}

/// Where no two events of a block write the same table and key, the database holds one row
/// per event, in the events' order, with the event's table, its key, and the columns its row
/// sets.
pub proof fn law_one_row_per_event(block: Block)
    requires
        writes_keys_distinct(event_writes(block)),
    ensures
        block_rows(block).len() == event_writes(block).len(),
        forall|i: int| 0 <= i < event_writes(block).len() ==> #[trigger] block_rows(block)[i]
            == (event_writes(block)[i].0, event_writes(block)[i].1, fields_after(Map::empty(), event_writes(block)[i].2), RowOperation::Create),
{
    lemma_apply_writes_distinct(event_writes(block));
}

/// Every event of a block carries the token accounts that it names and an authority type that
/// has a name, so that each can be written as a row.
pub proof fn law_block_events_complete(block: Block)
    ensures
        entries_complete(block_events(block)),
{
    lemma_block_events_complete(block, block.transactions@.len() as int);
}

} // verus!
