//! The token program events of a transaction and of a block.
use vstd::prelude::*;
use crate::base58::{base58, encode_base58};
use crate::events::{SplTokenEvent, SplTokenEventView, SplTokenTransactionEvents, SplTokenTransactionEventsView};
use crate::input::{Block, ConfirmedTransaction, StructuredInstruction, TransactionContext};
use crate::instruction::{
    check_instruction_parsable, instruction_parsable, is_token_program_account, is_token_program_instruction, parse_instruction,
    parse_instruction_result,
};

verus! {

/// The instruction reads only accounts that are there, and, if it is of the token program,
/// its data decodes: the events of a transaction are not defined otherwise.
pub open spec fn instruction_admitted(instruction: StructuredInstruction, context: TransactionContext) -> bool {
    &&& instruction_parsable(instruction, context)
    &&& is_token_program_instruction(instruction, context) ==> instruction.token_instruction is Some
}

/// The transaction failed.
pub open spec fn transaction_failed(transaction: ConfirmedTransaction) -> bool {
    transaction.meta.unwrap().err is Some
}

/// The inputs on which `parse_transaction` completes: the transaction has its outcome, and,
/// unless it failed, each of its token program instructions decodes and names accounts that
/// are there.
pub open spec fn transaction_parsable(transaction: ConfirmedTransaction) -> bool {
    &&& transaction.meta is Some
    &&& !transaction_failed(transaction) ==> forall|i: int|
        0 <= i < transaction.instructions@.len() ==> #[trigger] instruction_admitted(
            transaction.instructions@[i],
            transaction.context,
        )
}

/// The event recorded for the instruction at `index`, if that instruction is of the token program.
#[verifier::opaque]
pub open spec fn event_at(transaction: ConfirmedTransaction, index: int) -> Option<SplTokenEventView> {
    let instruction = transaction.instructions@[index];
    if !is_token_program_instruction(instruction, transaction.context) {
        None
    } else {
        match parse_instruction_result(instruction, transaction.context) {
            Ok(event) => Some(SplTokenEventView { instruction_index: index as u32, event }),
            Err(_) => None,
        }
    }
}

/// The event recorded for an instruction carries that instruction's position.
pub proof fn lemma_event_at_position(transaction: ConfirmedTransaction, index: int)
    ensures
        event_at(transaction, index) matches Some(event) ==> event.instruction_index == index as u32,
{
    reveal(event_at);
}

/// The events recorded for the first `n` instructions of the transaction, in order.
pub open spec fn events_of_instructions(transaction: ConfirmedTransaction, n: int) -> Seq<SplTokenEventView>
    decreases n,
{
    if n <= 0 {
        Seq::empty()
    } else {
        let earlier = events_of_instructions(transaction, n - 1);
        match event_at(transaction, n - 1) {
            Some(event) => earlier.push(event),
            None => earlier,
        }
    }
}

/// The events of a transaction: none for one that failed, else one for each token program
/// instruction, in execution order.
pub open spec fn transaction_events(transaction: ConfirmedTransaction) -> Seq<SplTokenEventView> {
    if transaction_failed(transaction) {
        Seq::empty()
    } else {
        events_of_instructions(transaction, transaction.instructions@.len() as int)
    }
}

/// The events of a transaction, one for each of its token program instructions, with the
/// position of that instruction; none for a transaction that failed.
pub fn parse_transaction(transaction: &ConfirmedTransaction) -> (events: Vec<SplTokenEvent>)
    requires
        transaction_parsable(*transaction),
    ensures
        events.deep_view() == transaction_events(*transaction),
{
    let context = &transaction.context;
    let mut events: Vec<SplTokenEvent> = Vec::new();
    let instructions = &transaction.instructions;

    if transaction.meta.as_ref().unwrap().err.is_some() {
        return Vec::new();
    }

    let mut i: usize = 0;
    while i < instructions.len()
        invariant
            i <= instructions@.len(),
            instructions == transaction.instructions,
            context == transaction.context,
            transaction_parsable(*transaction),
            !transaction_failed(*transaction),
            events.deep_view() == events_of_instructions(*transaction, i as int),
        decreases instructions@.len() - i,
    {
        proof {
            reveal(event_at);
        }
        let instruction = &instructions[i];
        assert(instruction_admitted(transaction.instructions@[i as int], transaction.context));
        if is_token_program_account(context, instruction.program_id_index as usize) {
            match parse_instruction(instruction, context) {
                Ok(event) => {
                    let ghost before = events.deep_view();
                    events.push(SplTokenEvent { instruction_index: i as u32, event });
                    assert(events.deep_view() =~= before.push(
                        SplTokenEventView { instruction_index: i as u32, event: event.deep_view() },
                    ));
                },
                Err(_) => {
                    assert(false);
                },
            }
        }
        i = i + 1;
    }
    events
}

/// The inputs on which `parse_block` completes: each transaction is one that
/// `parse_transaction` completes on.
pub open spec fn block_parsable(block: Block) -> bool {
    forall|i: int| 0 <= i < block.transactions@.len() ==> #[trigger] transaction_parsable(block.transactions@[i])
}

/// The entries for the first `n` transactions of the block: one for each that has events.
pub open spec fn transactions_with_events(block: Block, n: int) -> Seq<SplTokenTransactionEventsView>
    decreases n,
{
    if n <= 0 {
        Seq::empty()
    } else {
        let earlier = transactions_with_events(block, n - 1);
        let transaction = block.transactions@[n - 1];
        let events = transaction_events(transaction);
        if events.len() == 0 {
            earlier
        } else {
            earlier.push(SplTokenTransactionEventsView {
                signature: base58(transaction.signature@),
                transaction_index: (n - 1) as u32,
                events,
            })
        }
    }
}

/// The token program events of a block: for each transaction that has any, its signature,
/// its position in the block and its events.
pub open spec fn block_events(block: Block) -> Seq<SplTokenTransactionEventsView> {
    transactions_with_events(block, block.transactions@.len() as int)
}

/// The token program events of a block, by transaction; transactions without any are left out.
pub fn parse_block(block: &Block) -> (transactions: Vec<SplTokenTransactionEvents>)
    requires
        block_parsable(*block),
    ensures
        transactions.deep_view() == block_events(*block),
{
    let mut transactions_events: Vec<SplTokenTransactionEvents> = Vec::new();
    let mut i: usize = 0;
    while i < block.transactions.len()
        invariant
            i <= block.transactions@.len(),
            block_parsable(*block),
            transactions_events.deep_view() == transactions_with_events(*block, i as int),
        decreases block.transactions@.len() - i,
    {
        let transaction = &block.transactions[i];
        assert(transaction_parsable(block.transactions@[i as int]));
        let events = parse_transaction(transaction);
        if events.len() != 0 {
            let ghost before = transactions_events.deep_view();
            let ghost events_view = events.deep_view();
            let entry = SplTokenTransactionEvents {
                signature: encode_base58(transaction.signature.as_slice()),
                transaction_index: i as u32,
                events,
            };
            transactions_events.push(entry);
            assert(transactions_events.deep_view() =~= before.push(SplTokenTransactionEventsView {
                signature: base58(transaction.signature@),
                transaction_index: i as u32,
                events: events_view,
            }));
        }
        i = i + 1;
    }
    transactions_events
}

/// Whether `parse_transaction` completes on the transaction.
pub fn check_transaction_parsable(transaction: &ConfirmedTransaction) -> (b: bool)
    ensures
        b == transaction_parsable(*transaction),
{
    let meta = match &transaction.meta {
        Some(meta) => meta,
        None => {
            return false;
        },
    };
    if meta.err.is_some() {
        return true;
    }
    let mut i: usize = 0;
    while i < transaction.instructions.len()
        invariant
            i <= transaction.instructions@.len(),
            transaction.meta is Some,
            !transaction_failed(*transaction),
            forall|j: int|
                0 <= j < i ==> #[trigger] instruction_admitted(transaction.instructions@[j], transaction.context),
        decreases transaction.instructions@.len() - i,
    {
        let instruction = &transaction.instructions[i];
        if !check_instruction_parsable(instruction, &transaction.context) {
            assert(!instruction_admitted(transaction.instructions@[i as int], transaction.context));
            return false;
        }
        if is_token_program_account(&transaction.context, instruction.program_id_index as usize)
            && instruction.token_instruction.is_none() {
            assert(!instruction_admitted(transaction.instructions@[i as int], transaction.context));
            return false;
        }
        i = i + 1;
    }
    true
}

/// `parse_transaction` where it completes; `None` elsewhere.
pub fn try_parse_transaction(transaction: &ConfirmedTransaction) -> (events: Option<Vec<SplTokenEvent>>)
    ensures
        match events {
            Some(events) => transaction_parsable(*transaction) && events.deep_view() == transaction_events(*transaction),
            None => !transaction_parsable(*transaction),
        },
{
    if check_transaction_parsable(transaction) {
        Some(parse_transaction(transaction))
    } else {
        None
    }
}

/// Whether `parse_block` completes on the block.
pub fn check_block_parsable(block: &Block) -> (b: bool)
    ensures
        b == block_parsable(*block),
{
    let mut i: usize = 0;
    while i < block.transactions.len()
        invariant
            i <= block.transactions@.len(),
            forall|j: int| 0 <= j < i ==> #[trigger] transaction_parsable(block.transactions@[j]),
        decreases block.transactions@.len() - i,
    {
        if !check_transaction_parsable(&block.transactions[i]) {
            return false;
        }
        i = i + 1;
    }
    true
}

/// `parse_block` where it completes; `None` elsewhere.
pub fn try_parse_block(block: &Block) -> (transactions: Option<Vec<SplTokenTransactionEvents>>)
    ensures
        match transactions {
            Some(transactions) => block_parsable(*block) && transactions.deep_view() == block_events(*block),
            None => !block_parsable(*block),
        },
{
    if check_block_parsable(block) {
        Some(parse_block(block))
    } else {
        None
    }
}

} // verus!
