use spl_token_substreams::events::{
    Event, RevokeEvent, SplTokenEvent, SplTokenTransactionEvents, TokenAccount, TransferEvent,
};
use spl_token_substreams::input::{
    Block, ConfirmedTransaction, StructuredInstruction, TokenAccountKeys, TokenInstruction,
    TransactionContext, TransactionStatusMeta,
};
use spl_token_substreams::transaction::{
    check_block_parsable, check_transaction_parsable, parse_block, parse_transaction,
    try_parse_block, try_parse_transaction,
};

const TOKEN_PROGRAM_ID: &str = "TokenkegQfeZyiNwAJbNbGKPFXCWuBvf9Ss623VQ5DA";

fn key(n: u8) -> Vec<u8> {
    vec![n; 32]
}

fn text(n: u8) -> String {
    bs58::encode(key(n)).into_string()
}

fn token_account(n: u8) -> TokenAccount {
    TokenAccount { address: text(n), owner: text(n + 100), mint: text(n + 200) }
}

/// Account 0 is the token program, 1 to 4 are plain accounts; 1 and 2 are token accounts.
fn context() -> TransactionContext {
    let mut accounts = vec![bs58::decode(TOKEN_PROGRAM_ID).into_vec().unwrap()];
    let mut token_accounts = vec![None];
    for n in 1..=4u8 {
        accounts.push(key(n));
        token_accounts.push(if n <= 2 {
            Some(TokenAccountKeys { address: key(n), owner: key(n + 100), mint: key(n + 200) })
        } else {
            None
        });
    }
    TransactionContext { accounts, token_accounts }
}

fn token(accounts: Vec<u8>, instruction: TokenInstruction) -> StructuredInstruction {
    StructuredInstruction { program_id_index: 0, accounts, token_instruction: Some(instruction) }
}

fn other_program() -> StructuredInstruction {
    StructuredInstruction { program_id_index: 3, accounts: vec![1, 2], token_instruction: None }
}

fn transaction(signature: u8, failed: bool, instructions: Vec<StructuredInstruction>) -> ConfirmedTransaction {
    ConfirmedTransaction {
        signature: vec![signature; 64],
        meta: Some(TransactionStatusMeta { err: if failed { Some(vec![1]) } else { None } }),
        context: context(),
        instructions,
    }
}

fn transfer(amount: u64) -> TransferEvent {
    TransferEvent {
        source: Some(token_account(1)),
        destination: Some(token_account(2)),
        amount,
        authority: text(3),
    }
}

#[test]
fn events_keep_instruction_positions() {
    let tx = transaction(9, false, vec![
        other_program(),
        token(vec![1, 2, 3], TokenInstruction::Transfer { amount: 5 }),
        other_program(),
        token(vec![], TokenInstruction::SyncNative),
        token(vec![2, 3], TokenInstruction::Revoke),
    ]);
    assert_eq!(parse_transaction(&tx), vec![
        SplTokenEvent { instruction_index: 1, event: Some(Event::Transfer(transfer(5))) },
        SplTokenEvent { instruction_index: 3, event: None },
        SplTokenEvent { instruction_index: 4, event: Some(Event::Revoke(RevokeEvent { source: Some(token_account(2)) })) },
    ]);
}

#[test]
fn failed_transaction_has_no_events() {
    let tx = transaction(9, true, vec![token(vec![1, 2, 3], TokenInstruction::Transfer { amount: 5 })]);
    assert_eq!(parse_transaction(&tx), vec![]);
}

#[test]
fn failed_transaction_is_not_checked_further() {
    // Undecodable token program data does not matter in a failed transaction.
    let bad = StructuredInstruction { program_id_index: 0, accounts: vec![], token_instruction: None };
    let tx = transaction(9, true, vec![bad.clone()]);
    assert!(check_transaction_parsable(&tx));
    assert_eq!(try_parse_transaction(&tx), Some(vec![]));
    let ok_tx = transaction(9, false, vec![bad]);
    assert!(!check_transaction_parsable(&ok_tx));
    assert_eq!(try_parse_transaction(&ok_tx), None);
}

#[test]
fn transaction_without_outcome_is_refused() {
    let mut tx = transaction(9, false, vec![]);
    tx.meta = None;
    assert_eq!(try_parse_transaction(&tx), None);
}

#[test]
fn block_keeps_transactions_with_events() {
    let block = Block {
        slot: 77,
        transactions: vec![
            transaction(1, false, vec![other_program()]),
            transaction(2, false, vec![token(vec![1, 2, 3], TokenInstruction::Transfer { amount: 8 })]),
            transaction(3, true, vec![token(vec![1, 2, 3], TokenInstruction::Transfer { amount: 9 })]),
            transaction(4, false, vec![token(vec![], TokenInstruction::SyncNative)]),
        ],
    };
    let expected = vec![
        SplTokenTransactionEvents {
            signature: bs58::encode(vec![2u8; 64]).into_string(),
            transaction_index: 1,
            events: vec![SplTokenEvent { instruction_index: 0, event: Some(Event::Transfer(transfer(8))) }],
        },
        SplTokenTransactionEvents {
            signature: bs58::encode(vec![4u8; 64]).into_string(),
            transaction_index: 3,
            events: vec![SplTokenEvent { instruction_index: 0, event: None }],
        },
    ];
    assert!(check_block_parsable(&block));
    assert_eq!(parse_block(&block), expected.clone());
    assert_eq!(try_parse_block(&block), Some(expected));
}

#[test]
fn empty_block_has_no_entries() {
    let block = Block { slot: 1, transactions: vec![] };
    assert_eq!(parse_block(&block), vec![]);
}

#[test]
fn block_with_unparsable_transaction_is_refused() {
    let block = Block {
        slot: 1,
        transactions: vec![transaction(1, false, vec![token(vec![1], TokenInstruction::Transfer { amount: 1 })])],
    };
    assert!(!check_block_parsable(&block));
    assert_eq!(try_parse_block(&block), None);
}
