//! The database rows of a block's token program events.
use vstd::prelude::*;
use vstd::string::StringExecFns;
use substreams_database_change::pb::sf::substreams::sink::database::v1::TableChange;
use substreams_database_change::tables::{Row, Tables};
use crate::database::{
    all_created, clickhouse_array, create_row, decimal, decimal_text, into_table_changes, new_tables,
    row_contents, row_fields_in, rows_with, set_clickhouse_array_column, set_column, table_change_row,
    tables_rows, two_column_key, PrimaryKeyModel, RowModel, RowOperation,
};
use crate::events::{
    authority_type_name, authority_type_of_number, AuthorityType, Event, EventView,
    SplTokenTransactionEventsView,
};
use crate::input::{Block, ConfirmedTransaction, TokenInstruction, TransactionContext};
use crate::instruction::instruction_event;
use crate::transaction::{
    block_events, block_parsable, check_block_parsable, event_at, events_of_instructions, parse_block, transactions_with_events,
};

verus! {

/// The primary key of an event's row: the transaction's signature and the instruction's position.
pub open spec fn row_key(signature: Seq<char>, instruction_index: u32) -> PrimaryKeyModel {
    two_column_key("signature"@, signature, "instruction_index"@, decimal(instruction_index as nat))
}

/// The text of an optional value: the value, or `null`.
pub open spec fn text_or_null(value: Option<Seq<char>>) -> Seq<char> {
    match value {
        Some(text) => text,
        None => "null"@,
    }
}

/// The table of an event's row and its columns, in the order in which they are set.
#[verifier::opaque]
pub open spec fn event_row(transaction_index: u32, slot: u64, event: EventView) -> (Seq<char>, Seq<(Seq<char>, Seq<char>)>) {
    let common = seq![
        ("transaction_index"@, decimal(transaction_index as nat)),
        ("slot"@, decimal(slot as nat)),
    ];
    match event {
        EventView::InitializeMint(e) => ("spl_token_initialize_mint_events"@, common + seq![
            ("mint"@, e.mint),
            ("decimals"@, decimal(e.decimals as nat)),
            ("mint_authority"@, e.mint_authority),
            ("freeze_authority"@, text_or_null(e.freeze_authority)),
        ]),
        EventView::InitializeAccount(e) => ("spl_token_initialize_account_events"@, common + seq![
            ("account_address"@, e.account.unwrap().address),
            ("account_owner"@, e.account.unwrap().owner),
            ("mint"@, e.account.unwrap().mint),
        ]),
        EventView::InitializeMultisig(e) => ("spl_token_initialize_multisig_events"@, common + seq![
            ("multisig"@, e.multisig),
            ("signers"@, clickhouse_array(e.signers)),
        ]),
        EventView::Transfer(e) => ("spl_token_transfer_events"@, common + seq![
            ("source_address"@, e.source.unwrap().address),
            ("source_owner"@, e.source.unwrap().owner),
            ("destination_address"@, e.destination.unwrap().address),
            ("destination_owner"@, e.destination.unwrap().owner),
            ("mint"@, e.source.unwrap().mint),
            ("authority"@, e.authority),
            ("amount"@, decimal(e.amount as nat)),
        ]),
        EventView::Approve(e) => ("spl_token_approve_events"@, common + seq![
            ("source_address"@, e.source.unwrap().address),
            ("source_owner"@, e.source.unwrap().owner),
            ("mint"@, e.source.unwrap().mint),
            ("delegate"@, e.delegate),
            ("amount"@, decimal(e.amount as nat)),
        ]),
        EventView::Revoke(e) => ("spl_token_revoke_events"@, common + seq![
            ("source_address"@, e.source.unwrap().address),
            ("source_owner"@, e.source.unwrap().owner),
            ("mint"@, e.source.unwrap().mint),
        ]),
        EventView::SetAuthority(e) => ("spl_token_set_authority_events"@, common + seq![
            ("mint"@, e.mint),
            ("authority_type"@, authority_type_name(authority_type_of_number(e.authority_type).unwrap())),
            ("new_authority"@, text_or_null(e.new_authority)),
        ]),
        EventView::MintTo(e) => ("spl_token_mint_to_events"@, common + seq![
            ("destination_address"@, e.destination.unwrap().address),
            ("destination_owner"@, e.destination.unwrap().owner),
            ("mint"@, e.mint),
            ("mint_authority"@, e.mint_authority),
            ("amount"@, decimal(e.amount as nat)),
        ]),
        EventView::Burn(e) => ("spl_token_burn_events"@, common + seq![
            ("source_address"@, e.source.unwrap().address),
            ("source_owner"@, e.source.unwrap().owner),
            ("mint"@, e.source.unwrap().mint),
            ("amount"@, decimal(e.amount as nat)),
            ("authority"@, e.authority),
        ]),
        EventView::CloseAccount(e) => ("spl_token_close_account_events"@, common + seq![
            ("source_address"@, e.source.unwrap().address),
            ("source_owner"@, e.source.unwrap().owner),
            ("destination"@, e.destination),
            ("mint"@, e.source.unwrap().mint),
        ]),
        EventView::FreezeAccount(e) => ("spl_token_freeze_account_events"@, common + seq![
            ("source_address"@, e.source.unwrap().address),
            ("source_owner"@, e.source.unwrap().owner),
            ("mint"@, e.source.unwrap().mint),
            ("freeze_authority"@, e.freeze_authority),
        ]),
        EventView::ThawAccount(e) => ("spl_token_thaw_account_events"@, common + seq![
            ("source_address"@, e.source.unwrap().address),
            ("source_owner"@, e.source.unwrap().owner),
            ("mint"@, e.source.unwrap().mint),
            ("freeze_authority"@, e.freeze_authority),
        ]),
        EventView::InitializeImmutableOwner(e) => ("spl_token_initialize_immutable_owner_events"@, common + seq![
            ("account_address"@, e.account.unwrap().address),
            ("account_owner"@, e.account.unwrap().owner),
            ("mint"@, e.account.unwrap().mint),
        ]),
    }
}

/// The event carries every token account that its row reads, and a known authority type.
pub open spec fn event_complete(event: EventView) -> bool {
    match event {
        EventView::InitializeAccount(e) => e.account is Some,
        EventView::Transfer(e) => e.source is Some && e.destination is Some,
        EventView::Approve(e) => e.source is Some,
        EventView::Revoke(e) => e.source is Some,
        EventView::SetAuthority(e) => authority_type_of_number(e.authority_type) is Some,
        EventView::MintTo(e) => e.destination is Some,
        EventView::Burn(e) => e.source is Some,
        EventView::CloseAccount(e) => e.source is Some,
        EventView::FreezeAccount(e) => e.source is Some,
        EventView::ThawAccount(e) => e.source is Some,
        EventView::InitializeImmutableOwner(e) => e.account is Some,
        _ => true,
    }
}

/// The fields after setting each of `cells`, in order.
pub open spec fn fields_after(fields: Map<Seq<char>, Seq<char>>, cells: Seq<(Seq<char>, Seq<char>)>) -> Map<Seq<char>, Seq<char>>
    decreases cells.len(),
{
    if cells.len() == 0 {
        fields
    } else {
        fields_after(fields, cells.drop_last()).insert(cells.last().0, cells.last().1)
    }
}

/// The rows after creating the row of `table` with key `key`, unless it is there, and setting
/// each of `cells` in it, in order; the row is scheduled for creation.
pub open spec fn write_row_into(
    rows: Seq<RowModel>,
    table: Seq<char>,
    key: PrimaryKeyModel,
    cells: Seq<(Seq<char>, Seq<char>)>,
) -> Seq<RowModel> {
    rows_with(rows, table, key, (fields_after(row_fields_in(rows, table, key), cells), RowOperation::Create))
}

/// A row to write: its table, its primary key and its columns in order.
pub type RowWrite = (Seq<char>, PrimaryKeyModel, Seq<(Seq<char>, Seq<char>)>);

/// The rows after each write, in order.
pub open spec fn apply_writes(rows: Seq<RowModel>, writes: Seq<RowWrite>) -> Seq<RowModel>
    decreases writes.len(),
{
    if writes.len() == 0 {
        rows
    } else {
        let last = writes.last();
        write_row_into(apply_writes(rows, writes.drop_last()), last.0, last.1, last.2)
    }
}

/// The rows that the first `n` events of a transaction write, in order.
pub open spec fn transaction_writes(transaction: SplTokenTransactionEventsView, slot: u64, n: int) -> Seq<RowWrite>
    decreases n,
{
    if n <= 0 {
        Seq::empty()
    } else {
        let earlier = transaction_writes(transaction, slot, n - 1);
        let entry = transaction.events[n - 1];
        match entry.event {
            Some(event) => {
                let row = event_row(transaction.transaction_index, slot, event);
                earlier.push((row.0, row_key(transaction.signature, entry.instruction_index), row.1))
            },
            None => earlier,
        }
    }
}

/// The rows that the first `n` transactions write, in order.
pub open spec fn block_writes(transactions: Seq<SplTokenTransactionEventsView>, slot: u64, n: int) -> Seq<RowWrite>
    decreases n,
{
    if n <= 0 {
        Seq::empty()
    } else {
        block_writes(transactions, slot, n - 1) + transaction_writes(
            transactions[n - 1],
            slot,
            transactions[n - 1].events.len() as int,
        )
    }
}

/// The database rows of a block's events: one per event, unless two events share a table
/// and a key, in which case the later one's columns overwrite the earlier one's.
pub open spec fn block_rows(block: Block) -> Seq<RowModel> {
    let transactions = block_events(block);
    apply_writes(Seq::empty(), block_writes(transactions, block.slot, transactions.len() as int))
}

/// One column to set: a text, or an array of texts.
pub enum Cell {
    Text { name: &'static str, value: String },
    Array { name: &'static str, values: Vec<String> },
}

pub open spec fn cell_view(cell: Cell) -> (Seq<char>, Seq<char>) {
    match cell {
        Cell::Text { name, value } => (name@, value@),
        Cell::Array { name, values } => (name@, clickhouse_array(values.deep_view())),
    }
}

pub open spec fn cells_view(cells: Seq<Cell>) -> Seq<(Seq<char>, Seq<char>)> {
    cells.map_values(|c: Cell| cell_view(c))
}

fn text_cell(name: &'static str, value: String) -> (cell: Cell)
    ensures
        cell_view(cell) == (name@, value@),
{
    Cell::Text { name, value }
}

fn text_or_null_string(value: &Option<String>) -> (text: String)
    ensures
        text@ == text_or_null(value.deep_view()),
{
    match value {
        Some(text) => text.clone(),
        None => {
            proof {
                reveal_strlit("null");
            }
            String::from_str("null")
        },
    }
}

/// The table of an event's row and its columns, in the order in which they are set.
fn event_row_cells(transaction_index: u32, slot: u64, event: &Event) -> (row: (&'static str, Vec<Cell>))
    requires
        event_complete(event.deep_view()),
    ensures
        (row.0@, cells_view(row.1@)) == event_row(transaction_index, slot, event.deep_view()),
{
    let mut cells: Vec<Cell> = Vec::new();
    cells.push(text_cell("transaction_index", decimal_text(transaction_index as u64)));
    cells.push(text_cell("slot", decimal_text(slot)));
    let table: &'static str = match event {
        Event::InitializeMint(e) => {
            cells.push(text_cell("mint", e.mint.clone()));
            cells.push(text_cell("decimals", decimal_text(e.decimals as u64)));
            cells.push(text_cell("mint_authority", e.mint_authority.clone()));
            cells.push(text_cell("freeze_authority", text_or_null_string(&e.freeze_authority)));
            "spl_token_initialize_mint_events"
        },
        Event::InitializeAccount(e) => {
            let account = e.account.as_ref().unwrap();
            cells.push(text_cell("account_address", account.address.clone()));
            cells.push(text_cell("account_owner", account.owner.clone()));
            cells.push(text_cell("mint", account.mint.clone()));
            "spl_token_initialize_account_events"
        },
        Event::InitializeMultisig(e) => {
            cells.push(text_cell("multisig", e.multisig.clone()));
            let signers = e.signers.clone();
            assert(signers.deep_view() =~= e.signers.deep_view());
            cells.push(Cell::Array { name: "signers", values: signers });
            "spl_token_initialize_multisig_events"
        },
        Event::Transfer(e) => {
            let source = e.source.as_ref().unwrap();
            let destination = e.destination.as_ref().unwrap();
            cells.push(text_cell("source_address", source.address.clone()));
            cells.push(text_cell("source_owner", source.owner.clone()));
            cells.push(text_cell("destination_address", destination.address.clone()));
            cells.push(text_cell("destination_owner", destination.owner.clone()));
            cells.push(text_cell("mint", source.mint.clone()));
            cells.push(text_cell("authority", e.authority.clone()));
            cells.push(text_cell("amount", decimal_text(e.amount)));
            "spl_token_transfer_events"
        },
        Event::Approve(e) => {
            let source = e.source.as_ref().unwrap();
            cells.push(text_cell("source_address", source.address.clone()));
            cells.push(text_cell("source_owner", source.owner.clone()));
            cells.push(text_cell("mint", source.mint.clone()));
            cells.push(text_cell("delegate", e.delegate.clone()));
            cells.push(text_cell("amount", decimal_text(e.amount)));
            "spl_token_approve_events"
        },
        Event::Revoke(e) => {
            let source = e.source.as_ref().unwrap();
            cells.push(text_cell("source_address", source.address.clone()));
            cells.push(text_cell("source_owner", source.owner.clone()));
            cells.push(text_cell("mint", source.mint.clone()));
            "spl_token_revoke_events"
        },
        Event::SetAuthority(e) => {
            cells.push(text_cell("mint", e.mint.clone()));
            let authority_type: AuthorityType = AuthorityType::from_i32(e.authority_type).unwrap();
            cells.push(text_cell("authority_type", String::from_str(authority_type.as_str_name())));
            cells.push(text_cell("new_authority", text_or_null_string(&e.new_authority)));
            "spl_token_set_authority_events"
        },
        Event::MintTo(e) => {
            let destination = e.destination.as_ref().unwrap();
            cells.push(text_cell("destination_address", destination.address.clone()));
            cells.push(text_cell("destination_owner", destination.owner.clone()));
            cells.push(text_cell("mint", e.mint.clone()));
            cells.push(text_cell("mint_authority", e.mint_authority.clone()));
            cells.push(text_cell("amount", decimal_text(e.amount)));
            "spl_token_mint_to_events"
        },
        Event::Burn(e) => {
            let source = e.source.as_ref().unwrap();
            cells.push(text_cell("source_address", source.address.clone()));
            cells.push(text_cell("source_owner", source.owner.clone()));
            cells.push(text_cell("mint", source.mint.clone()));
            cells.push(text_cell("amount", decimal_text(e.amount)));
            cells.push(text_cell("authority", e.authority.clone()));
            "spl_token_burn_events"
        },
        Event::CloseAccount(e) => {
            let source = e.source.as_ref().unwrap();
            cells.push(text_cell("source_address", source.address.clone()));
            cells.push(text_cell("source_owner", source.owner.clone()));
            cells.push(text_cell("destination", e.destination.clone()));
            cells.push(text_cell("mint", source.mint.clone()));
            "spl_token_close_account_events"
        },
        Event::FreezeAccount(e) => {
            let source = e.source.as_ref().unwrap();
            cells.push(text_cell("source_address", source.address.clone()));
            cells.push(text_cell("source_owner", source.owner.clone()));
            cells.push(text_cell("mint", source.mint.clone()));
            cells.push(text_cell("freeze_authority", e.freeze_authority.clone()));
            "spl_token_freeze_account_events"
        },
        Event::ThawAccount(e) => {
            let source = e.source.as_ref().unwrap();
            cells.push(text_cell("source_address", source.address.clone()));
            cells.push(text_cell("source_owner", source.owner.clone()));
            cells.push(text_cell("mint", source.mint.clone()));
            cells.push(text_cell("freeze_authority", e.freeze_authority.clone()));
            "spl_token_thaw_account_events"
        },
        Event::InitializeImmutableOwner(e) => {
            let account = e.account.as_ref().unwrap();
            cells.push(text_cell("account_address", account.address.clone()));
            cells.push(text_cell("account_owner", account.owner.clone()));
            cells.push(text_cell("mint", account.mint.clone()));
            "spl_token_initialize_immutable_owner_events"
        },
    };
    reveal(event_row);
    assert(cells_view(cells@) =~= event_row(transaction_index, slot, event.deep_view()).1);
    (table, cells)
}

/// Sets each of `cells`, in order, in the row.
fn set_cells(row: &mut Row, cells: Vec<Cell>)
    requires
        row_contents(*old(row)).1 is Create,
    ensures
        row_contents(*final(row)) == (fields_after(row_contents(*old(row)).0, cells_view(cells@)), RowOperation::Create),
{
    let ghost start = row_contents(*row).0;
    let ghost all = cells_view(cells@);
    let mut k: usize = 0;
    while k < cells.len()
        invariant
            k <= cells@.len(),
            all == cells_view(cells@),
            row_contents(*row) == (fields_after(start, all.take(k as int)), RowOperation::Create),
        decreases cells@.len() - k,
    {
        match &cells[k] {
            Cell::Text { name, value } => {
                set_column(row, name, value.clone());
            },
            Cell::Array { name, values } => {
                let values = values.clone();
                assert(values.deep_view() =~= match cells@[k as int] {
                    Cell::Array { values, .. } => values.deep_view(),
                    _ => Seq::empty(),
                });
                set_clickhouse_array_column(row, name, values);
            },
        }
        assert(all.take(k + 1).drop_last() =~= all.take(k as int));
        k = k + 1;
    }
    assert(all.take(cells@.len() as int) =~= all);
}

/// Creates the row of `table` keyed by the signature and the instruction's position, unless
/// it is there, and sets each of `cells` in it, in order.
fn write_row(
    tables: &mut Tables,
    table: &'static str,
    signature: &String,
    instruction_index: u32,
    cells: Vec<Cell>,
)
    requires
        all_created(tables_rows(*old(tables))),
    ensures
        all_created(tables_rows(*final(tables))),
        tables_rows(*final(tables)) == write_row_into(
            tables_rows(*old(tables)),
            table@,
            row_key(signature@, instruction_index),
            cells_view(cells@),
        ),
{
    proof {
        reveal_strlit("signature");
        reveal_strlit("instruction_index");
        assert("signature"@.len() != "instruction_index"@.len());
    }
    let ghost rows = tables_rows(*tables);
    let index_text = decimal_text(instruction_index as u64);
    let row = create_row(tables, table, ("signature", signature.clone()), ("instruction_index", index_text));
    set_cells(row, cells);
}

/// Every event of the entries carries what its row reads.
pub open spec fn entries_complete(transactions: Seq<SplTokenTransactionEventsView>) -> bool {
    forall|i: int, j: int|
        0 <= i < transactions.len() && 0 <= j < transactions[i].events.len()
            ==> match #[trigger] transactions[i].events[j].event {
            Some(event) => event_complete(event),
            None => true,
        }
}

proof fn lemma_instruction_event_complete(
    instruction: TokenInstruction,
    context: TransactionContext,
    accounts: Seq<u8>,
)
    ensures
        instruction_event(instruction, context, accounts) matches Some(e) ==> event_complete(e),
{
}

proof fn lemma_instruction_events_complete(transaction: ConfirmedTransaction, n: int)
    ensures
        forall|j: int|
            0 <= j < events_of_instructions(transaction, n).len() ==> match #[trigger] events_of_instructions(
                transaction,
                n,
            )[j].event {
                Some(event) => event_complete(event),
                None => true,
            },
    decreases n,
{
    if n > 0 {
        reveal(event_at);
        lemma_instruction_events_complete(transaction, n - 1);
        let instruction = transaction.instructions@[n - 1];
        if let Some(t) = instruction.token_instruction {
            lemma_instruction_event_complete(t, transaction.context, instruction.accounts@);
        }
    }
}

pub proof fn lemma_block_events_complete(block: Block, n: int)
    ensures
        entries_complete(transactions_with_events(block, n)),
    decreases n,
{
    if n > 0 {
        lemma_block_events_complete(block, n - 1);
        let transaction = block.transactions@[n - 1];
        lemma_instruction_events_complete(transaction, transaction.instructions@.len() as int);
    }
}

/// The database changes of a block's token program events: each event writes a row in its
/// table, keyed by the transaction's signature and the instruction's position, and a later
/// write of the same table and key replaces the columns it sets. Where no two events share a
/// table and key, which distinct signatures ensure, that is one row per event
/// (`law_one_row_per_event`, `law_distinct_signatures_give_distinct_keys`).
pub fn tables_changes(block: &Block) -> (result: Result<Vec<TableChange>, substreams::errors::Error>)
    requires
        block_parsable(*block),
    ensures
        match result {
            Ok(changes) => {
                &&& changes@.len() == block_rows(*block).len()
                &&& forall|i: int| 0 <= i < changes@.len() ==> table_change_row(#[trigger] changes@[i]) == block_rows(*block)[i]
                &&& forall|i: int| 0 <= i < changes@.len() ==> (#[trigger] table_change_row(changes@[i])).3 is Create
            },
            Err(_) => false,
        },
{
    let mut tables = new_tables();
    let transactions = parse_block(block);
    let ghost entries = transactions.deep_view();
    proof {
        lemma_block_events_complete(*block, block.transactions@.len() as int);
    }
    let mut i: usize = 0;
    while i < transactions.len()
        invariant
            i <= transactions@.len(),
            entries == transactions.deep_view(),
            entries == block_events(*block),
            entries_complete(entries),
            all_created(tables_rows(tables)),
            tables_rows(tables) == apply_writes(Seq::empty(), block_writes(entries, block.slot, i as int)),
        decreases transactions@.len() - i,
    {
        let transaction = &transactions[i];
        let ghost entry = entries[i as int];
        let ghost before = block_writes(entries, block.slot, i as int);
        let mut j: usize = 0;
        while j < transaction.events.len()
            invariant
                i < transactions@.len(),
                j <= transaction.events@.len(),
                entries == transactions.deep_view(),
                entries_complete(entries),
                entry == entries[i as int],
                *transaction == transactions@[i as int],
                all_created(tables_rows(tables)),
                tables_rows(tables) == apply_writes(
                    Seq::empty(),
                    before + transaction_writes(entry, block.slot, j as int),
                ),
            decreases transaction.events@.len() - j,
        {
            let event = &transaction.events[j];
            assert(entry.events[j as int] == event.deep_view());
            match &event.event {
                Some(e) => {
                    assert(entries[i as int].events[j as int].event == Some(e.deep_view()));
                    let (table, cells) = event_row_cells(transaction.transaction_index, block.slot, e);
                    let ghost writes = before + transaction_writes(entry, block.slot, j as int);
                    let ghost next = before + transaction_writes(entry, block.slot, j + 1);
                    write_row(&mut tables, table, &transaction.signature, event.instruction_index, cells);
                    assert(next.drop_last() =~= writes);
                },
                None => {
                    assert(before + transaction_writes(entry, block.slot, j + 1) =~= before
                        + transaction_writes(entry, block.slot, j as int));
                },
            }
            j = j + 1;
        }
        i = i + 1;
    }
    assert(forall|k: int| 0 <= k < tables_rows(tables).len() ==> !(#[trigger] tables_rows(tables)[k].3 is Unspecified)) by {
        assert forall|k: int| 0 <= k < tables_rows(tables).len() implies !(#[trigger] tables_rows(tables)[k].3 is Unspecified) by {
            assert(tables_rows(tables)[k].3 is Create);
        }
    }
    Ok(into_table_changes(tables))
}

/// `tables_changes` where `parse_block` completes on the block; `None` elsewhere.
pub fn try_tables_changes(block: &Block) -> (result: Option<Result<Vec<TableChange>, substreams::errors::Error>>)
    ensures
        match result {
            Some(Ok(changes)) => {
                &&& block_parsable(*block)
                &&& changes@.len() == block_rows(*block).len()
                &&& forall|i: int| 0 <= i < changes@.len() ==> table_change_row(#[trigger] changes@[i]) == block_rows(*block)[i]
                &&& forall|i: int| 0 <= i < changes@.len() ==> (#[trigger] table_change_row(changes@[i])).3 is Create
            },
            Some(Err(_)) => false,
            None => !block_parsable(*block),
        },
{
    if check_block_parsable(block) {
        Some(tables_changes(block))
    } else {
        None
    }
}

} // verus!
