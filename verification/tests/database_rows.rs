use std::collections::HashMap;
use substreams_database_change::pb::sf::substreams::sink::database::v1::TableChange;
use substreams_database_change::pb::sf::substreams::sink::database::v1::table_change::Operation;
use substreams_database_change::pb::sf::substreams::sink::database::v1::__buffa::oneof::table_change::PrimaryKey;
use spl_token_substreams::input::{
    Block, ConfirmedTransaction, StructuredInstruction, TokenAccountKeys, TokenAuthorityType,
    TokenInstruction, TransactionContext, TransactionStatusMeta,
};
use spl_token_substreams::tables::{tables_changes, try_tables_changes};

const TOKEN_PROGRAM_ID: &str = "TokenkegQfeZyiNwAJbNbGKPFXCWuBvf9Ss623VQ5DA";

fn key(n: u8) -> Vec<u8> {
    vec![n; 32]
}

fn text(n: u8) -> String {
    bs58::encode(key(n)).into_string()
}

fn context() -> TransactionContext {
    let mut accounts = vec![bs58::decode(TOKEN_PROGRAM_ID).into_vec().unwrap()];
    let mut token_accounts = vec![None];
    for n in 1..=5u8 {
        accounts.push(key(n));
        token_accounts.push(if n <= 2 {
            Some(TokenAccountKeys { address: key(n), owner: key(n + 100), mint: key(n + 200) })
        } else {
            None
        });
    }
    TransactionContext { accounts, token_accounts }
}

fn token(accounts: Vec<u8>, instruction: TokenInstruction) -> StructuredInstruction {
    StructuredInstruction { program_id_index: 0, accounts, token_instruction: Some(instruction) }
}

fn transaction(signature: u8, instructions: Vec<StructuredInstruction>) -> ConfirmedTransaction {
    ConfirmedTransaction {
        signature: vec![signature; 64],
        meta: Some(TransactionStatusMeta { err: None }),
        context: context(),
        instructions,
    }
}

fn fields(change: &TableChange) -> HashMap<String, String> {
    change.fields.iter().map(|f| (f.name.clone(), f.value.clone())).collect()
}

fn keys(change: &TableChange) -> HashMap<String, String> {
    match &change.primary_key {
        Some(PrimaryKey::CompositePk(pk)) => pk.keys.iter().map(|(k, v)| (k.clone(), v.clone())).collect(),
        _ => panic!("expected a composite key"),
    }
}

fn all_created(changes: &[TableChange]) -> bool {
    changes.iter().all(|c| c.operation == Operation::OPERATION_CREATE)
}

fn expect(pairs: &[(&str, String)]) -> HashMap<String, String> {
    pairs.iter().map(|(k, v)| (k.to_string(), v.clone())).collect()
}

#[test]
fn transfer_row() {
    let block = Block {
        slot: 123456,
        transactions: vec![
            transaction(1, vec![]),
            transaction(2, vec![token(vec![1, 2, 3], TokenInstruction::Transfer { amount: 1000 })]),
        ],
    };
    let changes = tables_changes(&block).unwrap();
    assert_eq!(changes.len(), 1);
    assert!(all_created(&changes));
    assert_eq!(changes[0].table, "spl_token_transfer_events");
    let signature = bs58::encode(vec![2u8; 64]).into_string();
    assert_eq!(keys(&changes[0]), expect(&[("signature", signature), ("instruction_index", "0".to_string())]));
    assert_eq!(fields(&changes[0]), expect(&[
        ("transaction_index", "1".to_string()),
        ("slot", "123456".to_string()),
        ("source_address", text(1)),
        ("source_owner", text(101)),
        ("destination_address", text(2)),
        ("destination_owner", text(102)),
        ("mint", text(201)),
        ("authority", text(3)),
        ("amount", "1000".to_string()),
    ]));
}

#[test]
fn rows_follow_events_in_order() {
    let block = Block {
        slot: 5,
        transactions: vec![transaction(7, vec![
            token(vec![4], TokenInstruction::InitializeMint { decimals: 9, mint_authority: [3u8; 32], freeze_authority: None }),
            token(vec![], TokenInstruction::SyncNative),
            token(vec![4, 5, 1, 2], TokenInstruction::InitializeMultisig { m: 2 }),
            token(vec![4, 5], TokenInstruction::SetAuthority { authority_type: TokenAuthorityType::CloseAccount, new_authority: None }),
            token(vec![4, 2, 5], TokenInstruction::MintToChecked { amount: 0, decimals: 9 }),
        ])],
    };
    let changes = tables_changes(&block).unwrap();
    assert!(all_created(&changes));
    let tables: Vec<&str> = changes.iter().map(|c| c.table.as_str()).collect();
    assert_eq!(tables, vec![
        "spl_token_initialize_mint_events",
        "spl_token_initialize_multisig_events",
        "spl_token_set_authority_events",
        "spl_token_mint_to_events",
    ]);
    let index_of = |c: &TableChange| keys(c)["instruction_index"].clone();
    assert_eq!(changes.iter().map(index_of).collect::<Vec<_>>(), vec!["0", "2", "3", "4"]);
    assert_eq!(fields(&changes[0]), expect(&[
        ("transaction_index", "0".to_string()),
        ("slot", "5".to_string()),
        ("mint", text(4)),
        ("decimals", "9".to_string()),
        ("mint_authority", text(3)),
        ("freeze_authority", "null".to_string()),
    ]));
    assert_eq!(fields(&changes[1]), expect(&[
        ("transaction_index", "0".to_string()),
        ("slot", "5".to_string()),
        ("multisig", text(4)),
        ("signers", format!("[{},{}]", text(1), text(2))),
    ]));
    assert_eq!(fields(&changes[2]), expect(&[
        ("transaction_index", "0".to_string()),
        ("slot", "5".to_string()),
        ("mint", text(4)),
        ("authority_type", "CLOSE_ACCOUNT".to_string()),
        ("new_authority", "null".to_string()),
    ]));
    assert_eq!(fields(&changes[3])["amount"], "0");
    assert_eq!(fields(&changes[3])["destination_owner"], text(102));
}

#[test]
fn account_rows() {
    let block = Block {
        slot: 18446744073709551615,
        transactions: vec![transaction(3, vec![
            token(vec![1], TokenInstruction::InitializeAccount3 { owner: [9u8; 32] }),
            token(vec![1, 3], TokenInstruction::Approve { amount: 4294967296 }),
            token(vec![1], TokenInstruction::Revoke),
            token(vec![2, 4, 5], TokenInstruction::BurnChecked { amount: 12, decimals: 1 }),
            token(vec![2, 3], TokenInstruction::CloseAccount),
            token(vec![2, 3], TokenInstruction::FreezeAccount),
            token(vec![2, 3], TokenInstruction::ThawAccount),
            token(vec![1], TokenInstruction::InitializeImmutableOwner),
        ])],
    };
    let changes = tables_changes(&block).unwrap();
    assert_eq!(changes.len(), 8);
    assert!(all_created(&changes));
    assert_eq!(changes[0].table, "spl_token_initialize_account_events");
    assert_eq!(fields(&changes[0]), expect(&[
        ("transaction_index", "0".to_string()),
        ("slot", "18446744073709551615".to_string()),
        ("account_address", text(1)),
        ("account_owner", text(101)),
        ("mint", text(201)),
    ]));
    assert_eq!(changes[1].table, "spl_token_approve_events");
    assert_eq!(fields(&changes[1])["amount"], "4294967296");
    assert_eq!(fields(&changes[1])["delegate"], text(3));
    assert_eq!(changes[2].table, "spl_token_revoke_events");
    assert_eq!(changes[3].table, "spl_token_burn_events");
    assert_eq!(fields(&changes[3])["authority"], text(5));
    assert_eq!(changes[4].table, "spl_token_close_account_events");
    assert_eq!(fields(&changes[4])["destination"], text(3));
    assert_eq!(changes[5].table, "spl_token_freeze_account_events");
    assert_eq!(fields(&changes[5])["freeze_authority"], text(3));
    assert_eq!(changes[6].table, "spl_token_thaw_account_events");
    assert_eq!(changes[7].table, "spl_token_initialize_immutable_owner_events");
}

#[test]
fn same_key_rows_merge() {
    // Two transactions with one signature and the same instruction position write one row.
    let block = Block {
        slot: 1,
        transactions: vec![
            transaction(6, vec![token(vec![1], TokenInstruction::Revoke)]),
            transaction(6, vec![token(vec![2], TokenInstruction::Revoke)]),
        ],
    };
    let changes = tables_changes(&block).unwrap();
    assert_eq!(changes.len(), 1);
    assert!(all_created(&changes));
    assert_eq!(fields(&changes[0])["source_address"], text(2));
    assert_eq!(fields(&changes[0])["transaction_index"], "1");
}

#[test]
fn unparsable_block_gives_no_changes() {
    let block = Block { slot: 1, transactions: vec![transaction(1, vec![token(vec![], TokenInstruction::Revoke)])] };
    assert!(try_tables_changes(&block).is_none());
    let good = Block { slot: 1, transactions: vec![] };
    assert_eq!(try_tables_changes(&good).unwrap().unwrap().len(), 0);
}

#[test]
fn initialize_mint_row_without_freeze_authority() {
    let block = Block {
        slot: 9,
        transactions: vec![transaction(0, vec![token(vec![2], TokenInstruction::InitializeMint {
            decimals: 6,
            mint_authority: [1u8; 32],
            freeze_authority: None,
        })])],
    };
    let changes = tables_changes(&block).unwrap();
    assert_eq!(changes.len(), 1);
    assert_eq!(changes[0].operation, Operation::OPERATION_CREATE);
    assert_eq!(changes[0].table, "spl_token_initialize_mint_events");
    assert_eq!(keys(&changes[0]), expect(&[("signature", "1".repeat(64)), ("instruction_index", "0".to_string())]));
    assert_eq!(fields(&changes[0]), expect(&[
        ("transaction_index", "0".to_string()),
        ("slot", "9".to_string()),
        ("mint", text(2)),
        ("decimals", "6".to_string()),
        ("mint_authority", text(1)),
        ("freeze_authority", "null".to_string()),
    ]));
}

#[test]
fn distinct_signatures_keep_rows_apart() {
    // Two transactions with their own signatures and the same instruction position write two rows.
    let block = Block {
        slot: 2,
        transactions: vec![
            transaction(6, vec![token(vec![1], TokenInstruction::Revoke)]),
            transaction(8, vec![token(vec![2], TokenInstruction::Revoke)]),
        ],
    };
    let changes = tables_changes(&block).unwrap();
    assert_eq!(changes.len(), 2);
    assert!(all_created(&changes));
    assert_eq!(keys(&changes[0])["signature"], bs58::encode(vec![6u8; 64]).into_string());
    assert_eq!(keys(&changes[1])["signature"], bs58::encode(vec![8u8; 64]).into_string());
    assert_eq!(fields(&changes[0])["source_address"], text(1));
    assert_eq!(fields(&changes[1])["source_address"], text(2));
}
