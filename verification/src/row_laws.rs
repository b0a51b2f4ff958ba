//! What the database rows of a block hold, event by event.
use vstd::prelude::*;
use crate::database::{clickhouse_array, decimal};
use crate::events::{
    authority_type_name, authority_type_of_number, ApproveView, BurnView, CloseAccountView, EventView,
    FreezeAccountView, InitializeAccountView, InitializeImmutableOwnerView, InitializeMintView,
    InitializeMultisigView, MintToView, RevokeView, SetAuthorityView, ThawAccountView, TransferView,
};
use crate::tables::{block_rows, block_writes, event_row, fields_after, row_key, text_or_null, transaction_writes, RowWrite};
use crate::database::{digit, PrimaryKeyModel, RowOperation};
use crate::events::SplTokenTransactionEventsView;
use crate::input::Block;
use crate::laws::{
    entry_for, event_writes, law_block_entries_follow_transactions, law_one_row_per_event, lemma_events_ordered,
    writes_keys_distinct,
};
use crate::transaction::{events_of_instructions, transaction_events, transaction_failed};
use crate::transaction::block_events;

verus! {

/// Setting one more cell sets its column on top of the others.
pub broadcast proof fn lemma_fields_after_push(
    fields: Map<Seq<char>, Seq<char>>,
    cells: Seq<(Seq<char>, Seq<char>)>,
    cell: (Seq<char>, Seq<char>),
)
    ensures
        #[trigger] fields_after(fields, cells.push(cell)) == fields_after(fields, cells).insert(cell.0, cell.1),
{
    assert(cells.push(cell).drop_last() =~= cells);
}

/// The columns that rows hold, with their lengths and first characters, which tell them apart.
proof fn lemma_column_names_known()
    ensures
        "transaction_index"@.len() == 17 && "transaction_index"@[0] == 't',
        "slot"@.len() == 4 && "slot"@[0] == 's',
        "mint"@.len() == 4 && "mint"@[0] == 'm',
        "decimals"@.len() == 8 && "decimals"@[0] == 'd',
        "mint_authority"@.len() == 14 && "mint_authority"@[0] == 'm',
        "freeze_authority"@.len() == 16 && "freeze_authority"@[0] == 'f',
        "account_address"@.len() == 15 && "account_address"@[0] == 'a',
        "account_owner"@.len() == 13 && "account_owner"@[0] == 'a',
        "multisig"@.len() == 8 && "multisig"@[0] == 'm',
        "signers"@.len() == 7 && "signers"@[0] == 's',
        "source_address"@.len() == 14 && "source_address"@[0] == 's',
        "source_owner"@.len() == 12 && "source_owner"@[0] == 's',
        "destination_address"@.len() == 19 && "destination_address"@[0] == 'd',
        "destination_owner"@.len() == 17 && "destination_owner"@[0] == 'd',
        "authority"@.len() == 9 && "authority"@[0] == 'a',
        "amount"@.len() == 6 && "amount"@[0] == 'a',
        "delegate"@.len() == 8 && "delegate"@[0] == 'd',
        "authority_type"@.len() == 14 && "authority_type"@[0] == 'a',
        "new_authority"@.len() == 13 && "new_authority"@[0] == 'n',
        "destination"@.len() == 11 && "destination"@[0] == 'd',
{
    reveal_strlit("transaction_index");
    reveal_strlit("slot");
    reveal_strlit("mint");
    reveal_strlit("decimals");
    reveal_strlit("mint_authority");
    reveal_strlit("freeze_authority");
    reveal_strlit("account_address");
    reveal_strlit("account_owner");
    reveal_strlit("multisig");
    reveal_strlit("signers");
    reveal_strlit("source_address");
    reveal_strlit("source_owner");
    reveal_strlit("destination_address");
    reveal_strlit("destination_owner");
    reveal_strlit("authority");
    reveal_strlit("amount");
    reveal_strlit("delegate");
    reveal_strlit("authority_type");
    reveal_strlit("new_authority");
    reveal_strlit("destination");
}

/// The row of a mint's initialization holds the mint, its decimals, its mint authority and its freeze authority: the authority's own text where there is one, `null` only where there is none; besides the transaction's position and the slot; no other column.
pub proof fn law_initialize_mint_row_columns(transaction_index: u32, slot: u64, e: InitializeMintView)
    ensures
        ({
            let row = event_row(transaction_index, slot, EventView::InitializeMint(e));
            let fields = fields_after(Map::empty(), row.1);
            &&& row.0 == "spl_token_initialize_mint_events"@
            &&& fields.dom() =~= set!["transaction_index"@, "slot"@, "mint"@, "decimals"@, "mint_authority"@, "freeze_authority"@]
            &&& fields["transaction_index"@] == decimal(transaction_index as nat)
            &&& fields["slot"@] == decimal(slot as nat)
            &&& fields["mint"@] == e.mint
            &&& fields["decimals"@] == decimal(e.decimals as nat)
            &&& fields["mint_authority"@] == e.mint_authority
            &&& e.freeze_authority is Some ==> fields["freeze_authority"@] == e.freeze_authority->Some_0
            &&& e.freeze_authority is None ==> fields["freeze_authority"@] == "null"@
        }),
{
    broadcast use lemma_fields_after_push;
    reveal(event_row);
    lemma_column_names_known();
    let cells = Seq::empty()
        .push(("transaction_index"@, decimal(transaction_index as nat)))
        .push(("slot"@, decimal(slot as nat)))
        .push(("mint"@, e.mint))
        .push(("decimals"@, decimal(e.decimals as nat)))
        .push(("mint_authority"@, e.mint_authority))
        .push(("freeze_authority"@, text_or_null(e.freeze_authority)));
    assert(event_row(transaction_index, slot, EventView::InitializeMint(e)).1 =~= cells);
    assert(fields_after(Map::empty(), Seq::<(Seq<char>, Seq<char>)>::empty()) == Map::<Seq<char>, Seq<char>>::empty());
}

/// The row of an account's initialization holds the account's address, owner and mint, besides the transaction's position and the slot; no other column.
pub proof fn law_initialize_account_row_columns(transaction_index: u32, slot: u64, e: InitializeAccountView)
    ensures
        ({
            let row = event_row(transaction_index, slot, EventView::InitializeAccount(e));
            let fields = fields_after(Map::empty(), row.1);
            &&& row.0 == "spl_token_initialize_account_events"@
            &&& fields.dom() =~= set!["transaction_index"@, "slot"@, "account_address"@, "account_owner"@, "mint"@]
            &&& fields["transaction_index"@] == decimal(transaction_index as nat)
            &&& fields["slot"@] == decimal(slot as nat)
            &&& fields["account_address"@] == e.account.unwrap().address
            &&& fields["account_owner"@] == e.account.unwrap().owner
            &&& fields["mint"@] == e.account.unwrap().mint
        }),
{
    broadcast use lemma_fields_after_push;
    reveal(event_row);
    lemma_column_names_known();
    let cells = Seq::empty()
        .push(("transaction_index"@, decimal(transaction_index as nat)))
        .push(("slot"@, decimal(slot as nat)))
        .push(("account_address"@, e.account.unwrap().address))
        .push(("account_owner"@, e.account.unwrap().owner))
        .push(("mint"@, e.account.unwrap().mint));
    assert(event_row(transaction_index, slot, EventView::InitializeAccount(e)).1 =~= cells);
    assert(fields_after(Map::empty(), Seq::<(Seq<char>, Seq<char>)>::empty()) == Map::<Seq<char>, Seq<char>>::empty());
}

/// The row of a multisig's initialization holds the multisig and its signers, in order, as an array; not `m`, besides the transaction's position and the slot; no other column.
pub proof fn law_initialize_multisig_row_columns(transaction_index: u32, slot: u64, e: InitializeMultisigView)
    ensures
        ({
            let row = event_row(transaction_index, slot, EventView::InitializeMultisig(e));
            let fields = fields_after(Map::empty(), row.1);
            &&& row.0 == "spl_token_initialize_multisig_events"@
            &&& fields.dom() =~= set!["transaction_index"@, "slot"@, "multisig"@, "signers"@]
            &&& fields["transaction_index"@] == decimal(transaction_index as nat)
            &&& fields["slot"@] == decimal(slot as nat)
            &&& fields["multisig"@] == e.multisig
            &&& fields["signers"@] == clickhouse_array(e.signers)
        }),
{
    broadcast use lemma_fields_after_push;
    reveal(event_row);
    lemma_column_names_known();
    let cells = Seq::empty()
        .push(("transaction_index"@, decimal(transaction_index as nat)))
        .push(("slot"@, decimal(slot as nat)))
        .push(("multisig"@, e.multisig))
        .push(("signers"@, clickhouse_array(e.signers)));
    assert(event_row(transaction_index, slot, EventView::InitializeMultisig(e)).1 =~= cells);
    assert(fields_after(Map::empty(), Seq::<(Seq<char>, Seq<char>)>::empty()) == Map::<Seq<char>, Seq<char>>::empty());
}

/// The row of a transfer holds its source's address, owner and mint, its destination's address and owner, its authority and its amount, besides the transaction's position and the slot; no other column.
pub proof fn law_transfer_row_columns(transaction_index: u32, slot: u64, e: TransferView)
    ensures
        ({
            let row = event_row(transaction_index, slot, EventView::Transfer(e));
            let fields = fields_after(Map::empty(), row.1);
            &&& row.0 == "spl_token_transfer_events"@
            &&& fields.dom() =~= set!["transaction_index"@, "slot"@, "source_address"@, "source_owner"@, "destination_address"@, "destination_owner"@, "mint"@, "authority"@, "amount"@]
            &&& fields["transaction_index"@] == decimal(transaction_index as nat)
            &&& fields["slot"@] == decimal(slot as nat)
            &&& fields["source_address"@] == e.source.unwrap().address
            &&& fields["source_owner"@] == e.source.unwrap().owner
            &&& fields["destination_address"@] == e.destination.unwrap().address
            &&& fields["destination_owner"@] == e.destination.unwrap().owner
            &&& fields["mint"@] == e.source.unwrap().mint
            &&& fields["authority"@] == e.authority
            &&& fields["amount"@] == decimal(e.amount as nat)
        }),
{
    broadcast use lemma_fields_after_push;
    reveal(event_row);
    lemma_column_names_known();
    let cells = Seq::empty()
        .push(("transaction_index"@, decimal(transaction_index as nat)))
        .push(("slot"@, decimal(slot as nat)))
        .push(("source_address"@, e.source.unwrap().address))
        .push(("source_owner"@, e.source.unwrap().owner))
        .push(("destination_address"@, e.destination.unwrap().address))
        .push(("destination_owner"@, e.destination.unwrap().owner))
        .push(("mint"@, e.source.unwrap().mint))
        .push(("authority"@, e.authority))
        .push(("amount"@, decimal(e.amount as nat)));
    assert(event_row(transaction_index, slot, EventView::Transfer(e)).1 =~= cells);
    assert(fields_after(Map::empty(), Seq::<(Seq<char>, Seq<char>)>::empty()) == Map::<Seq<char>, Seq<char>>::empty());
}

/// The row of an approval holds its source's address, owner and mint, its delegate and its amount, besides the transaction's position and the slot; no other column.
pub proof fn law_approve_row_columns(transaction_index: u32, slot: u64, e: ApproveView)
    ensures
        ({
            let row = event_row(transaction_index, slot, EventView::Approve(e));
            let fields = fields_after(Map::empty(), row.1);
            &&& row.0 == "spl_token_approve_events"@
            &&& fields.dom() =~= set!["transaction_index"@, "slot"@, "source_address"@, "source_owner"@, "mint"@, "delegate"@, "amount"@]
            &&& fields["transaction_index"@] == decimal(transaction_index as nat)
            &&& fields["slot"@] == decimal(slot as nat)
            &&& fields["source_address"@] == e.source.unwrap().address
            &&& fields["source_owner"@] == e.source.unwrap().owner
            &&& fields["mint"@] == e.source.unwrap().mint
            &&& fields["delegate"@] == e.delegate
            &&& fields["amount"@] == decimal(e.amount as nat)
        }),
{
    broadcast use lemma_fields_after_push;
    reveal(event_row);
    lemma_column_names_known();
    let cells = Seq::empty()
        .push(("transaction_index"@, decimal(transaction_index as nat)))
        .push(("slot"@, decimal(slot as nat)))
        .push(("source_address"@, e.source.unwrap().address))
        .push(("source_owner"@, e.source.unwrap().owner))
        .push(("mint"@, e.source.unwrap().mint))
        .push(("delegate"@, e.delegate))
        .push(("amount"@, decimal(e.amount as nat)));
    assert(event_row(transaction_index, slot, EventView::Approve(e)).1 =~= cells);
    assert(fields_after(Map::empty(), Seq::<(Seq<char>, Seq<char>)>::empty()) == Map::<Seq<char>, Seq<char>>::empty());
}

/// The row of a revocation holds its source's address, owner and mint, besides the transaction's position and the slot; no other column.
pub proof fn law_revoke_row_columns(transaction_index: u32, slot: u64, e: RevokeView)
    ensures
        ({
            let row = event_row(transaction_index, slot, EventView::Revoke(e));
            let fields = fields_after(Map::empty(), row.1);
            &&& row.0 == "spl_token_revoke_events"@
            &&& fields.dom() =~= set!["transaction_index"@, "slot"@, "source_address"@, "source_owner"@, "mint"@]
            &&& fields["transaction_index"@] == decimal(transaction_index as nat)
            &&& fields["slot"@] == decimal(slot as nat)
            &&& fields["source_address"@] == e.source.unwrap().address
            &&& fields["source_owner"@] == e.source.unwrap().owner
            &&& fields["mint"@] == e.source.unwrap().mint
        }),
{
    broadcast use lemma_fields_after_push;
    reveal(event_row);
    lemma_column_names_known();
    let cells = Seq::empty()
        .push(("transaction_index"@, decimal(transaction_index as nat)))
        .push(("slot"@, decimal(slot as nat)))
        .push(("source_address"@, e.source.unwrap().address))
        .push(("source_owner"@, e.source.unwrap().owner))
        .push(("mint"@, e.source.unwrap().mint));
    assert(event_row(transaction_index, slot, EventView::Revoke(e)).1 =~= cells);
    assert(fields_after(Map::empty(), Seq::<(Seq<char>, Seq<char>)>::empty()) == Map::<Seq<char>, Seq<char>>::empty());
}

/// The row of an authority change holds the mint or account, the authority type's name and the new authority (its own text where there is one, `null` only where there is none); not the current authority, besides the transaction's position and the slot; no other column.
pub proof fn law_set_authority_row_columns(transaction_index: u32, slot: u64, e: SetAuthorityView)
    ensures
        ({
            let row = event_row(transaction_index, slot, EventView::SetAuthority(e));
            let fields = fields_after(Map::empty(), row.1);
            &&& row.0 == "spl_token_set_authority_events"@
            &&& fields.dom() =~= set!["transaction_index"@, "slot"@, "mint"@, "authority_type"@, "new_authority"@]
            &&& fields["transaction_index"@] == decimal(transaction_index as nat)
            &&& fields["slot"@] == decimal(slot as nat)
            &&& fields["mint"@] == e.mint
            &&& fields["authority_type"@] == authority_type_name(authority_type_of_number(e.authority_type).unwrap())
            &&& e.new_authority is Some ==> fields["new_authority"@] == e.new_authority->Some_0
            &&& e.new_authority is None ==> fields["new_authority"@] == "null"@
        }),
{
    broadcast use lemma_fields_after_push;
    reveal(event_row);
    lemma_column_names_known();
    let cells = Seq::empty()
        .push(("transaction_index"@, decimal(transaction_index as nat)))
        .push(("slot"@, decimal(slot as nat)))
        .push(("mint"@, e.mint))
        .push(("authority_type"@, authority_type_name(authority_type_of_number(e.authority_type).unwrap())))
        .push(("new_authority"@, text_or_null(e.new_authority)));
    assert(event_row(transaction_index, slot, EventView::SetAuthority(e)).1 =~= cells);
    assert(fields_after(Map::empty(), Seq::<(Seq<char>, Seq<char>)>::empty()) == Map::<Seq<char>, Seq<char>>::empty());
}

/// The row of a mint holds its destination's address and owner, the event's mint, the mint authority and the amount, besides the transaction's position and the slot; no other column.
pub proof fn law_mint_to_row_columns(transaction_index: u32, slot: u64, e: MintToView)
    ensures
        ({
            let row = event_row(transaction_index, slot, EventView::MintTo(e));
            let fields = fields_after(Map::empty(), row.1);
            &&& row.0 == "spl_token_mint_to_events"@
            &&& fields.dom() =~= set!["transaction_index"@, "slot"@, "destination_address"@, "destination_owner"@, "mint"@, "mint_authority"@, "amount"@]
            &&& fields["transaction_index"@] == decimal(transaction_index as nat)
            &&& fields["slot"@] == decimal(slot as nat)
            &&& fields["destination_address"@] == e.destination.unwrap().address
            &&& fields["destination_owner"@] == e.destination.unwrap().owner
            &&& fields["mint"@] == e.mint
            &&& fields["mint_authority"@] == e.mint_authority
            &&& fields["amount"@] == decimal(e.amount as nat)
        }),
{
    broadcast use lemma_fields_after_push;
    reveal(event_row);
    lemma_column_names_known();
    let cells = Seq::empty()
        .push(("transaction_index"@, decimal(transaction_index as nat)))
        .push(("slot"@, decimal(slot as nat)))
        .push(("destination_address"@, e.destination.unwrap().address))
        .push(("destination_owner"@, e.destination.unwrap().owner))
        .push(("mint"@, e.mint))
        .push(("mint_authority"@, e.mint_authority))
        .push(("amount"@, decimal(e.amount as nat)));
    assert(event_row(transaction_index, slot, EventView::MintTo(e)).1 =~= cells);
    assert(fields_after(Map::empty(), Seq::<(Seq<char>, Seq<char>)>::empty()) == Map::<Seq<char>, Seq<char>>::empty());
}

/// The row of a burn holds its source's address, owner and mint, its amount and its authority, besides the transaction's position and the slot; no other column.
pub proof fn law_burn_row_columns(transaction_index: u32, slot: u64, e: BurnView)
    ensures
        ({
            let row = event_row(transaction_index, slot, EventView::Burn(e));
            let fields = fields_after(Map::empty(), row.1);
            &&& row.0 == "spl_token_burn_events"@
            &&& fields.dom() =~= set!["transaction_index"@, "slot"@, "source_address"@, "source_owner"@, "mint"@, "amount"@, "authority"@]
            &&& fields["transaction_index"@] == decimal(transaction_index as nat)
            &&& fields["slot"@] == decimal(slot as nat)
            &&& fields["source_address"@] == e.source.unwrap().address
            &&& fields["source_owner"@] == e.source.unwrap().owner
            &&& fields["mint"@] == e.source.unwrap().mint
            &&& fields["amount"@] == decimal(e.amount as nat)
            &&& fields["authority"@] == e.authority
        }),
{
    broadcast use lemma_fields_after_push;
    reveal(event_row);
    lemma_column_names_known();
    let cells = Seq::empty()
        .push(("transaction_index"@, decimal(transaction_index as nat)))
        .push(("slot"@, decimal(slot as nat)))
        .push(("source_address"@, e.source.unwrap().address))
        .push(("source_owner"@, e.source.unwrap().owner))
        .push(("mint"@, e.source.unwrap().mint))
        .push(("amount"@, decimal(e.amount as nat)))
        .push(("authority"@, e.authority));
    assert(event_row(transaction_index, slot, EventView::Burn(e)).1 =~= cells);
    assert(fields_after(Map::empty(), Seq::<(Seq<char>, Seq<char>)>::empty()) == Map::<Seq<char>, Seq<char>>::empty());
}

/// The row of an account's closing holds the account's address, owner and mint, and the destination, besides the transaction's position and the slot; no other column.
pub proof fn law_close_account_row_columns(transaction_index: u32, slot: u64, e: CloseAccountView)
    ensures
        ({
            let row = event_row(transaction_index, slot, EventView::CloseAccount(e));
            let fields = fields_after(Map::empty(), row.1);
            &&& row.0 == "spl_token_close_account_events"@
            &&& fields.dom() =~= set!["transaction_index"@, "slot"@, "source_address"@, "source_owner"@, "destination"@, "mint"@]
            &&& fields["transaction_index"@] == decimal(transaction_index as nat)
            &&& fields["slot"@] == decimal(slot as nat)
            &&& fields["source_address"@] == e.source.unwrap().address
            &&& fields["source_owner"@] == e.source.unwrap().owner
            &&& fields["destination"@] == e.destination
            &&& fields["mint"@] == e.source.unwrap().mint
        }),
{
    broadcast use lemma_fields_after_push;
    reveal(event_row);
    lemma_column_names_known();
    let cells = Seq::empty()
        .push(("transaction_index"@, decimal(transaction_index as nat)))
        .push(("slot"@, decimal(slot as nat)))
        .push(("source_address"@, e.source.unwrap().address))
        .push(("source_owner"@, e.source.unwrap().owner))
        .push(("destination"@, e.destination))
        .push(("mint"@, e.source.unwrap().mint));
    assert(event_row(transaction_index, slot, EventView::CloseAccount(e)).1 =~= cells);
    assert(fields_after(Map::empty(), Seq::<(Seq<char>, Seq<char>)>::empty()) == Map::<Seq<char>, Seq<char>>::empty());
}

/// The row of a freeze holds the account's address, owner and mint, and the freeze authority, besides the transaction's position and the slot; no other column.
pub proof fn law_freeze_account_row_columns(transaction_index: u32, slot: u64, e: FreezeAccountView)
    ensures
        ({
            let row = event_row(transaction_index, slot, EventView::FreezeAccount(e));
            let fields = fields_after(Map::empty(), row.1);
            &&& row.0 == "spl_token_freeze_account_events"@
            &&& fields.dom() =~= set!["transaction_index"@, "slot"@, "source_address"@, "source_owner"@, "mint"@, "freeze_authority"@]
            &&& fields["transaction_index"@] == decimal(transaction_index as nat)
            &&& fields["slot"@] == decimal(slot as nat)
            &&& fields["source_address"@] == e.source.unwrap().address
            &&& fields["source_owner"@] == e.source.unwrap().owner
            &&& fields["mint"@] == e.source.unwrap().mint
            &&& fields["freeze_authority"@] == e.freeze_authority
        }),
{
    broadcast use lemma_fields_after_push;
    reveal(event_row);
    lemma_column_names_known();
    let cells = Seq::empty()
        .push(("transaction_index"@, decimal(transaction_index as nat)))
        .push(("slot"@, decimal(slot as nat)))
        .push(("source_address"@, e.source.unwrap().address))
        .push(("source_owner"@, e.source.unwrap().owner))
        .push(("mint"@, e.source.unwrap().mint))
        .push(("freeze_authority"@, e.freeze_authority));
    assert(event_row(transaction_index, slot, EventView::FreezeAccount(e)).1 =~= cells);
    assert(fields_after(Map::empty(), Seq::<(Seq<char>, Seq<char>)>::empty()) == Map::<Seq<char>, Seq<char>>::empty());
}

/// The row of a thaw holds the account's address, owner and mint, and the freeze authority, besides the transaction's position and the slot; no other column.
pub proof fn law_thaw_account_row_columns(transaction_index: u32, slot: u64, e: ThawAccountView)
    ensures
        ({
            let row = event_row(transaction_index, slot, EventView::ThawAccount(e));
            let fields = fields_after(Map::empty(), row.1);
            &&& row.0 == "spl_token_thaw_account_events"@
            &&& fields.dom() =~= set!["transaction_index"@, "slot"@, "source_address"@, "source_owner"@, "mint"@, "freeze_authority"@]
            &&& fields["transaction_index"@] == decimal(transaction_index as nat)
            &&& fields["slot"@] == decimal(slot as nat)
            &&& fields["source_address"@] == e.source.unwrap().address
            &&& fields["source_owner"@] == e.source.unwrap().owner
            &&& fields["mint"@] == e.source.unwrap().mint
            &&& fields["freeze_authority"@] == e.freeze_authority
        }),
{
    broadcast use lemma_fields_after_push;
    reveal(event_row);
    lemma_column_names_known();
    let cells = Seq::empty()
        .push(("transaction_index"@, decimal(transaction_index as nat)))
        .push(("slot"@, decimal(slot as nat)))
        .push(("source_address"@, e.source.unwrap().address))
        .push(("source_owner"@, e.source.unwrap().owner))
        .push(("mint"@, e.source.unwrap().mint))
        .push(("freeze_authority"@, e.freeze_authority));
    assert(event_row(transaction_index, slot, EventView::ThawAccount(e)).1 =~= cells);
    assert(fields_after(Map::empty(), Seq::<(Seq<char>, Seq<char>)>::empty()) == Map::<Seq<char>, Seq<char>>::empty());
}

/// The row of an immutable owner's initialization holds the account's address, owner and mint, besides the transaction's position and the slot; no other column.
pub proof fn law_initialize_immutable_owner_row_columns(transaction_index: u32, slot: u64, e: InitializeImmutableOwnerView)
    ensures
        ({
            let row = event_row(transaction_index, slot, EventView::InitializeImmutableOwner(e));
            let fields = fields_after(Map::empty(), row.1);
            &&& row.0 == "spl_token_initialize_immutable_owner_events"@
            &&& fields.dom() =~= set!["transaction_index"@, "slot"@, "account_address"@, "account_owner"@, "mint"@]
            &&& fields["transaction_index"@] == decimal(transaction_index as nat)
            &&& fields["slot"@] == decimal(slot as nat)
            &&& fields["account_address"@] == e.account.unwrap().address
            &&& fields["account_owner"@] == e.account.unwrap().owner
            &&& fields["mint"@] == e.account.unwrap().mint
        }),
{
    broadcast use lemma_fields_after_push;
    reveal(event_row);
    lemma_column_names_known();
    let cells = Seq::empty()
        .push(("transaction_index"@, decimal(transaction_index as nat)))
        .push(("slot"@, decimal(slot as nat)))
        .push(("account_address"@, e.account.unwrap().address))
        .push(("account_owner"@, e.account.unwrap().owner))
        .push(("mint"@, e.account.unwrap().mint));
    assert(event_row(transaction_index, slot, EventView::InitializeImmutableOwner(e)).1 =~= cells);
    assert(fields_after(Map::empty(), Seq::<(Seq<char>, Seq<char>)>::empty()) == Map::<Seq<char>, Seq<char>>::empty());
}

/// The row that the event at position `j` of the entry writes: its table, its key and its
/// columns in order.
pub open spec fn write_of(entry: SplTokenTransactionEventsView, j: int, slot: u64) -> RowWrite {
    let row = event_row(entry.transaction_index, slot, entry.events[j].event.unwrap());
    (row.0, row_key(entry.signature, entry.events[j].instruction_index), row.1)
}

/// The position, among the first `n` events of the entry, of the event that writes the `p`-th
/// row of `transaction_writes`.
spec fn write_source(entry: SplTokenTransactionEventsView, slot: u64, n: int, p: int) -> int
    decreases n,
{
    if n <= 0 {
        0
    } else if p < transaction_writes(entry, slot, n - 1).len() {
        write_source(entry, slot, n - 1, p)
    } else {
        n - 1
    }
}

proof fn lemma_transaction_writes_cover(entry: SplTokenTransactionEventsView, slot: u64, n: int)
    requires
        0 <= n <= entry.events.len(),
    ensures
        forall|j: int| 0 <= j < n && (#[trigger] entry.events[j]).event is Some ==> exists|p: int|
            0 <= p < transaction_writes(entry, slot, n).len() && transaction_writes(entry, slot, n)[p]
                == write_of(entry, j, slot),
        forall|p: int| 0 <= p < transaction_writes(entry, slot, n).len() ==> {
            let j = #[trigger] write_source(entry, slot, n, p);
            0 <= j < n && entry.events[j].event is Some && transaction_writes(entry, slot, n)[p]
                == write_of(entry, j, slot)
        },
    decreases n,
{
    if n > 0 {
        lemma_transaction_writes_cover(entry, slot, n - 1);
        let earlier = transaction_writes(entry, slot, n - 1);
        let writes = transaction_writes(entry, slot, n);
        assert forall|j: int| 0 <= j < n && (#[trigger] entry.events[j]).event is Some implies exists|p: int|
            0 <= p < writes.len() && writes[p] == write_of(entry, j, slot) by {
            if j < n - 1 {
                let p = choose|p: int| 0 <= p < earlier.len() && earlier[p] == write_of(entry, j, slot);
                assert(writes[p] == earlier[p]);
            } else {
                assert(writes[writes.len() - 1] == write_of(entry, j, slot));
            }
        }
        assert forall|p: int| 0 <= p < writes.len() implies {
            let j = #[trigger] write_source(entry, slot, n, p);
            0 <= j < n && entry.events[j].event is Some && writes[p] == write_of(entry, j, slot)
        } by {
            if p < earlier.len() {
                assert(writes[p] == earlier[p]);
                assert(write_source(entry, slot, n, p) == write_source(entry, slot, n - 1, p));
            }
        }
    } else {
        assert(transaction_writes(entry, slot, n).len() == 0);
    }
}

/// The transaction and the event position that write the `i`-th row of `block_writes`.
spec fn block_write_source(entries: Seq<SplTokenTransactionEventsView>, slot: u64, n: int, i: int) -> (int, int)
    decreases n,
{
    if n <= 0 {
        (0, 0)
    } else {
        let earlier = block_writes(entries, slot, n - 1);
        if i < earlier.len() {
            block_write_source(entries, slot, n - 1, i)
        } else {
            (n - 1, write_source(entries[n - 1], slot, entries[n - 1].events.len() as int, i - earlier.len()))
        }
    }
}

proof fn lemma_block_writes_cover(entries: Seq<SplTokenTransactionEventsView>, slot: u64, n: int)
    requires
        0 <= n <= entries.len(),
    ensures
        forall|k: int, j: int| 0 <= k < n && 0 <= j < entries[k].events.len()
            && (#[trigger] entries[k].events[j]).event is Some ==> exists|i: int|
            0 <= i < block_writes(entries, slot, n).len() && block_writes(entries, slot, n)[i]
                == write_of(entries[k], j, slot),
        forall|i: int| 0 <= i < block_writes(entries, slot, n).len() ==> {
            let (k, j) = #[trigger] block_write_source(entries, slot, n, i);
            0 <= k < n && 0 <= j < entries[k].events.len() && entries[k].events[j].event is Some
                && block_writes(entries, slot, n)[i] == write_of(entries[k], j, slot)
        },
    decreases n,
{
    if n > 0 {
        lemma_block_writes_cover(entries, slot, n - 1);
        let last = entries[n - 1];
        lemma_transaction_writes_cover(last, slot, last.events.len() as int);
        let a = block_writes(entries, slot, n - 1);
        let b = transaction_writes(last, slot, last.events.len() as int);
        let writes = block_writes(entries, slot, n);
        assert(writes == a + b);
        assert forall|k: int, j: int| 0 <= k < n && 0 <= j < entries[k].events.len()
            && (#[trigger] entries[k].events[j]).event is Some implies exists|i: int|
            0 <= i < writes.len() && writes[i] == write_of(entries[k], j, slot) by {
            if k < n - 1 {
                let i = choose|i: int| 0 <= i < a.len() && a[i] == write_of(entries[k], j, slot);
                assert(writes[i] == a[i]);
            } else {
                assert(last.events[j] == entries[k].events[j]);
                let p = choose|p: int| 0 <= p < b.len() && b[p] == write_of(last, j, slot);
                assert(writes[a.len() + p] == b[p]);
            }
        }
        assert forall|i: int| 0 <= i < writes.len() implies {
            let (k, j) = #[trigger] block_write_source(entries, slot, n, i);
            0 <= k < n && 0 <= j < entries[k].events.len() && entries[k].events[j].event is Some
                && writes[i] == write_of(entries[k], j, slot)
        } by {
            if i < a.len() {
                assert(writes[i] == a[i]);
                assert(block_write_source(entries, slot, n, i) == block_write_source(entries, slot, n - 1, i));
            } else {
                assert(writes[i] == b[i - a.len()]);
                let p = i - a.len();
                assert(0 <= write_source(last, slot, last.events.len() as int, p));
            }
        }
    } else {
        assert(block_writes(entries, slot, n).len() == 0);
    }
}

/// The row, scheduled for creation, that the event at position `j` of the entry makes in a
/// new table: its table, its key, and the columns of `event_row`.
pub open spec fn row_of(entry: SplTokenTransactionEventsView, j: int, slot: u64) -> (Seq<char>, crate::database::PrimaryKeyModel, Map<Seq<char>, Seq<char>>, RowOperation) {
    let w = write_of(entry, j, slot);
    (w.0, w.1, fields_after(Map::empty(), w.2), RowOperation::Create)
}

/// Where no two events of a block write the same table and key, each event that records one
/// has its own row in the database: the event's table, keyed by the transaction's signature
/// and the instruction's position, with exactly the columns of `event_row`, scheduled for
/// creation.
pub proof fn law_each_event_has_row(block: Block)
    requires
        writes_keys_distinct(event_writes(block)),
    ensures
        forall|k: int, j: int| 0 <= k < block_events(block).len() && 0 <= j < block_events(block)[k].events.len()
            && (#[trigger] block_events(block)[k].events[j]).event is Some
            ==> block_rows(block).contains(row_of(block_events(block)[k], j, block.slot)),
{
    let entries = block_events(block);
    let writes = event_writes(block);
    law_one_row_per_event(block);
    lemma_block_writes_cover(entries, block.slot, entries.len() as int);
    assert forall|k: int, j: int| 0 <= k < entries.len() && 0 <= j < entries[k].events.len()
        && (#[trigger] entries[k].events[j]).event is Some
        implies block_rows(block).contains(row_of(entries[k], j, block.slot)) by {
        let i = choose|i: int| 0 <= i < writes.len() && writes[i] == write_of(entries[k], j, block.slot);
        assert(block_rows(block)[i] == row_of(entries[k], j, block.slot));
    }
}

/// Where no two events of a block write the same table and key, every row of the database
/// is the row of one of the block's events: no row comes from anywhere else.
pub proof fn law_each_row_from_event(block: Block)
    requires
        writes_keys_distinct(event_writes(block)),
    ensures
        forall|row| #[trigger] block_rows(block).contains(row) ==> exists|k: int, j: int|
            0 <= k < block_events(block).len() && 0 <= j < block_events(block)[k].events.len()
                && (#[trigger] block_events(block)[k].events[j]).event is Some
                && row == row_of(block_events(block)[k], j, block.slot),
{
    let entries = block_events(block);
    let writes = event_writes(block);
    law_one_row_per_event(block);
    lemma_block_writes_cover(entries, block.slot, entries.len() as int);
    assert forall|row| #[trigger] block_rows(block).contains(row) implies exists|k: int, j: int|
        0 <= k < block_events(block).len() && 0 <= j < block_events(block)[k].events.len()
            && (#[trigger] block_events(block)[k].events[j]).event is Some
            && row == row_of(block_events(block)[k], j, block.slot) by {
        let i = choose|i: int| 0 <= i < block_rows(block).len() && block_rows(block)[i] == row;
        let (k, j) = block_write_source(entries, block.slot, entries.len() as int, i);
        assert(entries[k].events[j].event is Some && writes[i] == write_of(entries[k], j, block.slot));
        assert(block_rows(block)[i] == row_of(entries[k], j, block.slot));
    }
}

/// A decimal text has at least one digit.
proof fn lemma_decimal_nonempty(n: nat)
    ensures
        decimal(n).len() >= 1,
    decreases n,
{
    if n >= 10 {
        lemma_decimal_nonempty(n / 10);
    }
}

/// Two numbers with the same decimal text are equal.
proof fn lemma_decimal_injective(a: nat, b: nat)
    requires
        decimal(a) == decimal(b),
    ensures
        a == b,
    decreases a,
{
    if a < 10 && b < 10 {
        assert(decimal(a)[0] == digit(a) && decimal(b)[0] == digit(b));
    } else if a < 10 {
        lemma_decimal_nonempty(b / 10);
        assert(decimal(b).len() == decimal(b / 10).len() + 1);
    } else if b < 10 {
        lemma_decimal_nonempty(a / 10);
        assert(decimal(a).len() == decimal(a / 10).len() + 1);
    } else {
        let da = decimal(a / 10).push(digit(a % 10));
        let db = decimal(b / 10).push(digit(b % 10));
        assert(da.last() == digit(a % 10) && db.last() == digit(b % 10));
        assert(da.drop_last() =~= decimal(a / 10));
        assert(db.drop_last() =~= decimal(b / 10));
        lemma_decimal_injective(a / 10, b / 10);
    }
}

/// Two row keys are equal only where their signatures and their positions are.
proof fn lemma_row_key_parts(s1: Seq<char>, i1: u32, s2: Seq<char>, i2: u32)
    requires
        row_key(s1, i1) == row_key(s2, i2),
    ensures
        s1 == s2,
        i1 == i2,
{
    reveal_strlit("signature");
    reveal_strlit("instruction_index");
    assert("signature"@.len() == 9 && "instruction_index"@.len() == 17);
    assert("signature"@ != "instruction_index"@);
    let m1 = row_key(s1, i1)->Composite_0;
    let m2 = row_key(s2, i2)->Composite_0;
    assert(m1["signature"@] == s1 && m2["signature"@] == s2);
    assert(m1["instruction_index"@] == decimal(i1 as nat) && m2["instruction_index"@] == decimal(i2 as nat));
    lemma_decimal_injective(i1 as nat, i2 as nat);
}

/// Later rows of a transaction come from later events.
proof fn lemma_write_source_rising(entry: SplTokenTransactionEventsView, slot: u64, n: int)
    requires
        0 <= n <= entry.events.len(),
    ensures
        forall|p1: int, p2: int| 0 <= p1 < p2 < transaction_writes(entry, slot, n).len()
            ==> #[trigger] write_source(entry, slot, n, p1) < #[trigger] write_source(entry, slot, n, p2),
    decreases n,
{
    if n > 0 {
        lemma_write_source_rising(entry, slot, n - 1);
        lemma_transaction_writes_cover(entry, slot, n - 1);
        let earlier = transaction_writes(entry, slot, n - 1);
        assert forall|p1: int, p2: int| 0 <= p1 < p2 < transaction_writes(entry, slot, n).len()
            implies #[trigger] write_source(entry, slot, n, p1) < #[trigger] write_source(entry, slot, n, p2) by {
            assert(write_source(entry, slot, n, p1) == write_source(entry, slot, n - 1, p1));
            if p2 < earlier.len() {
                assert(write_source(entry, slot, n, p2) == write_source(entry, slot, n - 1, p2));
            }
        }
    }
}

/// Later rows of a block come from later transactions, or from later events of the same one.
proof fn lemma_block_write_source_rising(entries: Seq<SplTokenTransactionEventsView>, slot: u64, n: int)
    requires
        0 <= n <= entries.len(),
    ensures
        forall|i1: int, i2: int| 0 <= i1 < i2 < block_writes(entries, slot, n).len() ==> {
            let (k1, j1) = #[trigger] block_write_source(entries, slot, n, i1);
            let (k2, j2) = #[trigger] block_write_source(entries, slot, n, i2);
            k1 < k2 || (k1 == k2 && j1 < j2)
        },
    decreases n,
{
    if n > 0 {
        lemma_block_write_source_rising(entries, slot, n - 1);
        lemma_block_writes_cover(entries, slot, n - 1);
        let last = entries[n - 1];
        lemma_write_source_rising(last, slot, last.events.len() as int);
        let a = block_writes(entries, slot, n - 1);
        assert forall|i1: int, i2: int| 0 <= i1 < i2 < block_writes(entries, slot, n).len() implies {
            let (k1, j1) = #[trigger] block_write_source(entries, slot, n, i1);
            let (k2, j2) = #[trigger] block_write_source(entries, slot, n, i2);
            k1 < k2 || (k1 == k2 && j1 < j2)
        } by {
            if i2 < a.len() {
                assert(block_write_source(entries, slot, n, i1) == block_write_source(entries, slot, n - 1, i1));
                assert(block_write_source(entries, slot, n, i2) == block_write_source(entries, slot, n - 1, i2));
            } else if i1 < a.len() {
                assert(block_write_source(entries, slot, n, i1) == block_write_source(entries, slot, n - 1, i1));
            } else {
                let p1 = i1 - a.len();
                let p2 = i2 - a.len();
                assert(write_source(last, slot, last.events.len() as int, p1) < write_source(last, slot, last.events.len() as int, p2));
            }
        }
    }
}

/// Where the events of each entry rise in position and no two entries share a signature, no
/// two rows that the entries write have the same key.
proof fn lemma_block_writes_keys_distinct(entries: Seq<SplTokenTransactionEventsView>, slot: u64)
    requires
        forall|k: int, j1: int, j2: int| 0 <= k < entries.len() && 0 <= j1 < j2 < entries[k].events.len()
            ==> #[trigger] entries[k].events[j1].instruction_index < #[trigger] entries[k].events[j2].instruction_index,
        forall|k1: int, k2: int| 0 <= k1 < k2 < entries.len() ==> #[trigger] entries[k1].signature != #[trigger] entries[k2].signature,
    ensures
        writes_keys_distinct(block_writes(entries, slot, entries.len() as int)),
{
    let n = entries.len() as int;
    let writes = block_writes(entries, slot, n);
    lemma_block_writes_cover(entries, slot, n);
    lemma_block_write_source_rising(entries, slot, n);
    assert forall|i1: int, i2: int| 0 <= i1 < i2 < writes.len() implies
        !(#[trigger] writes[i1].0 == #[trigger] writes[i2].0 && writes[i1].1 == writes[i2].1) by {
        let (k1, j1) = block_write_source(entries, slot, n, i1);
        let (k2, j2) = block_write_source(entries, slot, n, i2);
        assert(writes[i1] == write_of(entries[k1], j1, slot));
        assert(writes[i2] == write_of(entries[k2], j2, slot));
        if writes[i1].1 == writes[i2].1 {
            lemma_row_key_parts(
                entries[k1].signature,
                entries[k1].events[j1].instruction_index,
                entries[k2].signature,
                entries[k2].events[j2].instruction_index,
            );
            if k1 < k2 {
                assert(entries[k1].signature != entries[k2].signature);
            } else {
                assert(entries[k1].events[j1].instruction_index < entries[k1].events[j2].instruction_index);
            }
        }
    }
}

/// Where no two transactions of a block with events share a signature, no two events of the
/// block write the same table and key, so that `law_one_row_per_event`,
/// `law_each_event_has_row` and `law_each_row_from_event` hold of it: the database holds one
/// row for each event. (Each transaction's instructions must be at most 2^32, so that their
/// positions, which are written as 32-bit numbers, stay apart.)
pub proof fn law_distinct_signatures_give_distinct_keys(block: Block)
    requires
        forall|i: int| 0 <= i < block.transactions@.len()
            ==> (#[trigger] block.transactions@[i]).instructions@.len() <= 0x1_0000_0000,
        forall|k1: int, k2: int| 0 <= k1 < k2 < block_events(block).len()
            ==> #[trigger] block_events(block)[k1].signature != #[trigger] block_events(block)[k2].signature,
    ensures
        writes_keys_distinct(event_writes(block)),
{
    let entries = block_events(block);
    law_block_entries_follow_transactions(block);
    assert forall|k: int, j1: int, j2: int| 0 <= k < entries.len() && 0 <= j1 < j2 < entries[k].events.len()
        implies #[trigger] entries[k].events[j1].instruction_index < #[trigger] entries[k].events[j2].instruction_index by {
        let i = choose|i: int| 0 <= i < block.transactions@.len() && #[trigger] entry_for(block, i) == entries[k];
        let transaction = block.transactions@[i];
        assert(entries[k].events == transaction_events(transaction));
        assert(!transaction_failed(transaction));
        lemma_events_ordered(transaction, transaction.instructions@.len() as int);
        assert(entries[k].events == events_of_instructions(transaction, transaction.instructions@.len() as int));
    }
    lemma_block_writes_keys_distinct(entries, block.slot);
}

/// The number that a decimal digit stands for.
pub open spec fn digit_value(c: char) -> nat {
    if c == '1' { 1 }
    else if c == '2' { 2 }
    else if c == '3' { 3 }
    else if c == '4' { 4 }
    else if c == '5' { 5 }
    else if c == '6' { 6 }
    else if c == '7' { 7 }
    else if c == '8' { 8 }
    else if c == '9' { 9 }
    else { 0 }
}

/// The number that a text of decimal digits reads as, most significant digit first.
pub open spec fn digits_value(text: Seq<char>) -> nat
    decreases text.len(),
{
    if text.len() == 0 {
        0
    } else {
        digits_value(text.drop_last()) * 10 + digit_value(text.last())
    }
}

/// The decimal text of a number, as the rows write numbers, is made of the digits `0` to
/// `9`, reads back as that number, and starts with `0` only where the number is zero.
pub proof fn law_decimal_reads_back(n: nat)
    ensures
        forall|i: int| 0 <= i < decimal(n).len() ==> '0' <= #[trigger] decimal(n)[i] <= '9',
        digits_value(decimal(n)) == n,
        decimal(n).len() >= 1,
        decimal(n)[0] == '0' ==> n == 0,
    decreases n,
{
    let d = decimal(n);
    if n >= 10 {
        law_decimal_reads_back(n / 10);
        assert(d.drop_last() =~= decimal(n / 10));
        assert(d[0] == decimal(n / 10)[0]);
        assert(d.last() == digit(n % 10));
        assert(digit_value(digit(n % 10)) == n % 10);
        assert(digits_value(d) == digits_value(d.drop_last()) * 10 + digit_value(d.last()));
        assert(digits_value(d) == (n / 10) * 10 + n % 10);
        assert((n / 10) * 10 + n % 10 == n) by (nonlinear_arith);
    } else {
        assert(d.drop_last() =~= Seq::<char>::empty());
        assert(digit_value(digit(n)) == n);
        assert(digits_value(d) == digits_value(d.drop_last()) * 10 + digit_value(d.last()));
    }
}

/// The key of an event's row: the column `signature` holds the transaction's signature and
/// the column `instruction_index` the decimal text of the instruction's position, and there
/// is no other key column.
pub proof fn law_row_key_columns(entry: SplTokenTransactionEventsView, j: int, slot: u64)
    ensures
        row_of(entry, j, slot).1 is Composite,
        row_of(entry, j, slot).1->Composite_0.dom() =~= set!["signature"@, "instruction_index"@],
        row_of(entry, j, slot).1->Composite_0["signature"@] == entry.signature,
        row_of(entry, j, slot).1->Composite_0["instruction_index"@] == decimal(entry.events[j].instruction_index as nat),
{
    reveal_strlit("signature");
    reveal_strlit("instruction_index");
    assert("signature"@.len() == 9 && "instruction_index"@.len() == 17);
}

} // verus!
