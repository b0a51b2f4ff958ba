use spl_token_substreams::cast::try_parse_instruction_as;
use spl_token_substreams::events::{
    ApproveEvent, AuthorityType, BurnEvent, CloseAccountEvent, Event, FreezeAccountEvent,
    InitializeAccountEvent, InitializeImmutableOwnerEvent, InitializeMintEvent,
    InitializeMultisigEvent, MintToEvent, RevokeEvent, SetAuthorityEvent, ThawAccountEvent,
    TokenAccount, TransferEvent,
};
use spl_token_substreams::input::{
    StructuredInstruction, TokenAccountKeys, TokenAuthorityType, TokenInstruction,
    TransactionContext,
};
use spl_token_substreams::instruction::{
    check_instruction_parsable, parse_approve_instruction, parse_burn_instruction,
    parse_close_account_instruction, parse_freeze_account_instruction,
    parse_initialize_account_instruction, parse_initialize_immutable_owner_instruction,
    parse_initialize_mint_instruction, parse_initialize_multisig_instruction, parse_instruction,
    parse_mint_to_instruction, parse_revoke_instruction, parse_set_authority_instruction,
    parse_thaw_account_instruction, parse_transfer_instruction, token_account_of, token_program,
    try_parse_instruction,
};

const TOKEN_PROGRAM_ID: &str = "TokenkegQfeZyiNwAJbNbGKPFXCWuBvf9Ss623VQ5DA";

fn key(n: u8) -> Vec<u8> {
    vec![n; 32]
}

fn text(n: u8) -> String {
    bs58::encode(key(n)).into_string()
}

fn token_account(n: u8) -> TokenAccount {
    TokenAccount { address: text(n), owner: text(n + 100), mint: text(n + 200) }
}

/// Account 0 is the token program, 1 to 6 are plain accounts; 1, 2 and 3 are token accounts.
fn context() -> TransactionContext {
    let mut accounts = vec![bs58::decode(TOKEN_PROGRAM_ID).into_vec().unwrap()];
    let mut token_accounts = vec![None];
    for n in 1..=6u8 {
        accounts.push(key(n));
        token_accounts.push(if n <= 3 {
            Some(TokenAccountKeys { address: key(n), owner: key(n + 100), mint: key(n + 200) })
        } else {
            None
        });
    }
    TransactionContext { accounts, token_accounts }
}

fn token_instruction(accounts: Vec<u8>, instruction: TokenInstruction) -> StructuredInstruction {
    StructuredInstruction { program_id_index: 0, accounts, token_instruction: Some(instruction) }
}

#[test]
fn base58_of_zero_key_is_all_ones() {
    let ctx = TransactionContext {
        accounts: vec![bs58::decode(TOKEN_PROGRAM_ID).into_vec().unwrap(), key(0)],
        token_accounts: vec![None, None],
    };
    let ix = token_instruction(vec![1, 1], TokenInstruction::SetAuthority {
        authority_type: TokenAuthorityType::MintTokens,
        new_authority: None,
    });
    let event = parse_set_authority_instruction(&ix, &ctx).unwrap();
    assert_eq!(event.mint, "11111111111111111111111111111111");
    assert_eq!(event.authority, "11111111111111111111111111111111");
}

#[test]
fn token_program_id_text() {
    assert_eq!(token_program(), TOKEN_PROGRAM_ID.to_string());
}

#[test]
fn token_account_is_written_in_base58() {
    let keys = TokenAccountKeys { address: key(0), owner: key(1), mint: key(2) };
    let account = token_account_of(&keys);
    assert_eq!(account.address, "11111111111111111111111111111111");
    assert_eq!(account.owner, text(1));
    assert_eq!(account.mint, text(2));
    assert_ne!(account.owner, account.mint);
}

#[test]
fn base58_keeps_leading_zeros_and_digits() {
    let keys = TokenAccountKeys { address: vec![0, 0, 61], owner: vec![57], mint: vec![1, 0] };
    let account = token_account_of(&keys);
    assert_eq!(account.address, "1124");
    assert_eq!(account.owner, "z");
    assert_eq!(account.mint, "5R");
}

#[test]
fn other_program_is_refused() {
    let ctx = context();
    let ix = StructuredInstruction {
        program_id_index: 4,
        accounts: vec![1, 2, 4],
        token_instruction: Some(TokenInstruction::Transfer { amount: 5 }),
    };
    assert_eq!(parse_instruction(&ix, &ctx), Err("Not a Token program instruction."));
    assert_eq!(parse_transfer_instruction(&ix, &ctx), Err("Failed to parse transfer instruction."));
}

#[test]
fn undecodable_data_is_refused() {
    let ctx = context();
    let ix = StructuredInstruction { program_id_index: 0, accounts: vec![1], token_instruction: None };
    assert_eq!(parse_instruction(&ix, &ctx), Err("Failed to parse Token program instruction."));
}

#[test]
fn instructions_without_event() {
    let ctx = context();
    for instruction in [
        TokenInstruction::SyncNative,
        TokenInstruction::GetAccountDataSize,
        TokenInstruction::AmountToUiAmount { amount: 3 },
        TokenInstruction::UiAmountToAmount { ui_amount: "1.5".to_string() },
    ] {
        let ix = token_instruction(vec![], instruction);
        assert_eq!(parse_instruction(&ix, &ctx), Ok(None));
        assert_eq!(parse_revoke_instruction(&ix, &ctx), Err("Failed to parse revoke instruction."));
    }
}

#[test]
fn initialize_mint_event() {
    let ctx = context();
    let authority = [7u8; 32];
    let freeze = [8u8; 32];
    let ix = token_instruction(vec![4, 5], TokenInstruction::InitializeMint {
        decimals: 6,
        mint_authority: authority,
        freeze_authority: Some(freeze),
    });
    let expected = InitializeMintEvent {
        mint: text(4),
        decimals: 6,
        mint_authority: text(7),
        freeze_authority: Some(text(8)),
    };
    assert_eq!(parse_instruction(&ix, &ctx), Ok(Some(Event::InitializeMint(expected.clone()))));
    assert_eq!(parse_initialize_mint_instruction(&ix, &ctx), Ok(expected.clone()));
    let ix2 = token_instruction(vec![4], TokenInstruction::InitializeMint2 {
        decimals: 6,
        mint_authority: authority,
        freeze_authority: None,
    });
    let expected2 = InitializeMintEvent { freeze_authority: None, ..expected };
    assert_eq!(parse_initialize_mint_instruction(&ix2, &ctx), Ok(expected2));
}

#[test]
fn initialize_account_events_ignore_owner() {
    let ctx = context();
    let expected = InitializeAccountEvent { account: Some(token_account(1)) };
    for instruction in [
        TokenInstruction::InitializeAccount,
        TokenInstruction::InitializeAccount2 { owner: [9u8; 32] },
        TokenInstruction::InitializeAccount3 { owner: [9u8; 32] },
    ] {
        let ix = token_instruction(vec![1, 5, 6], instruction);
        assert_eq!(parse_initialize_account_instruction(&ix, &ctx), Ok(expected.clone()));
    }
}

#[test]
fn initialize_multisig_signers() {
    let ctx = context();
    let with_rent = token_instruction(vec![4, 6, 5, 1], TokenInstruction::InitializeMultisig { m: 2 });
    let without_rent = token_instruction(vec![4, 5, 1], TokenInstruction::InitializeMultisig2 { m: 2 });
    let expected = InitializeMultisigEvent { multisig: text(4), signers: vec![text(5), text(1)], m: 2 };
    assert_eq!(parse_initialize_multisig_instruction(&with_rent, &ctx), Ok(expected.clone()));
    assert_eq!(parse_initialize_multisig_instruction(&without_rent, &ctx), Ok(expected));
    let no_signers = token_instruction(vec![4, 6], TokenInstruction::InitializeMultisig { m: 1 });
    assert_eq!(
        parse_initialize_multisig_instruction(&no_signers, &ctx),
        Ok(InitializeMultisigEvent { multisig: text(4), signers: vec![], m: 1 })
    );
}

#[test]
fn transfer_checked_skips_mint() {
    let ctx = context();
    let plain = token_instruction(vec![1, 2, 4], TokenInstruction::Transfer { amount: 1000 });
    let checked = token_instruction(vec![1, 5, 2, 4], TokenInstruction::TransferChecked { amount: 1000, decimals: 9 });
    let expected = TransferEvent {
        source: Some(token_account(1)),
        destination: Some(token_account(2)),
        amount: 1000,
        authority: text(4),
    };
    assert_eq!(parse_transfer_instruction(&plain, &ctx), Ok(expected.clone()));
    assert_eq!(parse_transfer_instruction(&checked, &ctx), Ok(expected));
}

#[test]
fn approve_checked_skips_mint() {
    let ctx = context();
    let plain = token_instruction(vec![1, 4, 5], TokenInstruction::Approve { amount: 7 });
    let checked = token_instruction(vec![1, 6, 4, 5], TokenInstruction::ApproveChecked { amount: 7, decimals: 2 });
    let expected = ApproveEvent { source: Some(token_account(1)), delegate: text(4), amount: 7 };
    assert_eq!(parse_approve_instruction(&plain, &ctx), Ok(expected.clone()));
    assert_eq!(parse_approve_instruction(&checked, &ctx), Ok(expected));
}

#[test]
fn revoke_event() {
    let ctx = context();
    let ix = token_instruction(vec![3, 4], TokenInstruction::Revoke);
    assert_eq!(parse_revoke_instruction(&ix, &ctx), Ok(RevokeEvent { source: Some(token_account(3)) }));
}

#[test]
fn set_authority_numbers() {
    let ctx = context();
    let kinds = [
        (TokenAuthorityType::MintTokens, 0),
        (TokenAuthorityType::FreezeAccount, 1),
        (TokenAuthorityType::AccountOwner, 2),
        (TokenAuthorityType::CloseAccount, 3),
    ];
    for (kind, number) in kinds {
        let ix = token_instruction(vec![4, 5], TokenInstruction::SetAuthority {
            authority_type: kind,
            new_authority: Some([6u8; 32]),
        });
        assert_eq!(
            parse_set_authority_instruction(&ix, &ctx),
            Ok(SetAuthorityEvent {
                mint: text(4),
                authority: text(5),
                authority_type: number,
                new_authority: Some(text(6)),
            })
        );
    }
}

#[test]
fn authority_type_names_and_numbers() {
    assert_eq!(AuthorityType::MintTokens.as_i32(), 0);
    assert_eq!(AuthorityType::CloseAccount.as_i32(), 3);
    assert_eq!(AuthorityType::from_i32(1), Some(AuthorityType::FreezeAccount));
    assert_eq!(AuthorityType::from_i32(2), Some(AuthorityType::AccountOwner));
    assert_eq!(AuthorityType::from_i32(4), None);
    assert_eq!(AuthorityType::from_i32(-1), None);
    assert_eq!(AuthorityType::MintTokens.as_str_name(), "MINT_TOKENS");
    assert_eq!(AuthorityType::FreezeAccount.as_str_name(), "FREEZE_ACCOUNT");
    assert_eq!(AuthorityType::AccountOwner.as_str_name(), "ACCOUNT_OWNER");
    assert_eq!(AuthorityType::CloseAccount.as_str_name(), "CLOSE_ACCOUNT");
}

#[test]
fn mint_to_and_checked() {
    let ctx = context();
    let expected = MintToEvent {
        mint: text(4),
        destination: Some(token_account(2)),
        mint_authority: text(5),
        amount: 42,
    };
    for instruction in [
        TokenInstruction::MintTo { amount: 42 },
        TokenInstruction::MintToChecked { amount: 42, decimals: 3 },
    ] {
        let ix = token_instruction(vec![4, 2, 5], instruction);
        assert_eq!(parse_mint_to_instruction(&ix, &ctx), Ok(expected.clone()));
    }
}

#[test]
fn burn_and_checked() {
    let ctx = context();
    let expected = BurnEvent { source: Some(token_account(2)), authority: text(6), amount: 11 };
    for instruction in [TokenInstruction::Burn { amount: 11 }, TokenInstruction::BurnChecked { amount: 11, decimals: 0 }] {
        let ix = token_instruction(vec![2, 4, 6], instruction);
        assert_eq!(parse_burn_instruction(&ix, &ctx), Ok(expected.clone()));
    }
}

#[test]
fn close_freeze_thaw_and_immutable_owner() {
    let ctx = context();
    let close = token_instruction(vec![3, 5, 6], TokenInstruction::CloseAccount);
    assert_eq!(
        parse_close_account_instruction(&close, &ctx),
        Ok(CloseAccountEvent { source: Some(token_account(3)), destination: text(5) })
    );
    let freeze = token_instruction(vec![3, 4, 6], TokenInstruction::FreezeAccount);
    assert_eq!(
        parse_freeze_account_instruction(&freeze, &ctx),
        Ok(FreezeAccountEvent { source: Some(token_account(3)), freeze_authority: text(4) })
    );
    let thaw = token_instruction(vec![3, 4, 6], TokenInstruction::ThawAccount);
    assert_eq!(
        parse_thaw_account_instruction(&thaw, &ctx),
        Ok(ThawAccountEvent { source: Some(token_account(3)), freeze_authority: text(4) })
    );
    assert_eq!(parse_freeze_account_instruction(&thaw, &ctx), Err("Failed to parse freeze account instruction."));
    let owner = token_instruction(vec![1], TokenInstruction::InitializeImmutableOwner);
    assert_eq!(
        parse_initialize_immutable_owner_instruction(&owner, &ctx),
        Ok(InitializeImmutableOwnerEvent { account: Some(token_account(1)) })
    );
}

#[test]
fn wrong_kind_errors() {
    let ctx = context();
    let ix = token_instruction(vec![1, 2, 4], TokenInstruction::Transfer { amount: 1 });
    assert_eq!(parse_initialize_mint_instruction(&ix, &ctx), Err("Failed to parse initialize mint instruction."));
    assert_eq!(parse_initialize_account_instruction(&ix, &ctx), Err("Failed to parse initialize account instruction."));
    assert_eq!(parse_initialize_multisig_instruction(&ix, &ctx), Err("Failed to parse initialize multisig instruction."));
    assert_eq!(parse_approve_instruction(&ix, &ctx), Err("Failed to parse approve instruction."));
    assert_eq!(parse_set_authority_instruction(&ix, &ctx), Err("Failed to parse set authority instruction."));
    assert_eq!(parse_mint_to_instruction(&ix, &ctx), Err("Failed to parse mint to instruction."));
    assert_eq!(parse_burn_instruction(&ix, &ctx), Err("Failed to parse burn instruction."));
    assert_eq!(parse_close_account_instruction(&ix, &ctx), Err("Failed to parse close account instruction."));
    assert_eq!(parse_thaw_account_instruction(&ix, &ctx), Err("Failed to parse thaw account instruction."));
    assert_eq!(
        parse_initialize_immutable_owner_instruction(&ix, &ctx),
        Err("Failed to parse initialize immutable owner instruction.")
    );
}

#[test]
fn missing_accounts_are_reported_by_the_checked_forms() {
    let ctx = context();
    // The destination (account 4) is not a token account.
    let ix = token_instruction(vec![1, 4, 5], TokenInstruction::Transfer { amount: 1 });
    assert!(!check_instruction_parsable(&ix, &ctx));
    assert_eq!(try_parse_instruction(&ix, &ctx), None);
    assert!(try_parse_instruction_as::<TransferEvent>(&ix, &ctx).is_none());
    // Too few accounts.
    let short = token_instruction(vec![1], TokenInstruction::CloseAccount);
    assert_eq!(try_parse_instruction(&short, &ctx), None);
    // The program index is out of range.
    let far = StructuredInstruction { program_id_index: 40, accounts: vec![], token_instruction: None };
    assert_eq!(try_parse_instruction(&far, &ctx), None);
    // An instruction of another program reads no account.
    let other = StructuredInstruction { program_id_index: 4, accounts: vec![], token_instruction: None };
    assert_eq!(try_parse_instruction(&other, &ctx), Some(Err("Not a Token program instruction.")));
}

#[test]
fn typed_checked_form_parses() {
    let ctx = context();
    let ix = token_instruction(vec![1, 2, 4], TokenInstruction::Transfer { amount: 9 });
    assert_eq!(
        try_parse_instruction_as::<TransferEvent>(&ix, &ctx),
        Some(Ok(TransferEvent {
            source: Some(token_account(1)),
            destination: Some(token_account(2)),
            amount: 9,
            authority: text(4),
        }))
    );
    assert_eq!(
        try_parse_instruction_as::<BurnEvent>(&ix, &ctx),
        Some(Err("Failed to parse burn instruction."))
    );
}
