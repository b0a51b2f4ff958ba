//! What the event of each token program instruction holds, field by field, in terms of the
//! instruction's data and the accounts it names.
use vstd::prelude::*;
use crate::base58::base58;
use crate::events::{EventView, TokenAccountView};
use crate::input::{StructuredInstruction, TokenAuthorityType, TokenInstruction, TransactionContext};
use crate::instruction::{is_token_program_instruction, parse_instruction_result};

verus! {

/// The base58 address of the account at position `k` of the instruction's accounts.
pub open spec fn address_at(instruction: StructuredInstruction, context: TransactionContext, k: int) -> Seq<char> {
    base58(context.accounts@[instruction.accounts@[k] as int]@)
}

/// The token account at position `k` of the instruction's accounts, each address in base58.
pub open spec fn token_account_at(instruction: StructuredInstruction, context: TransactionContext, k: int) -> TokenAccountView {
    let keys = context.token_accounts@[instruction.accounts@[k] as int].unwrap();
    TokenAccountView { address: base58(keys.address@), owner: base58(keys.owner@), mint: base58(keys.mint@) }
}

/// A transfer records the amount of its data, whatever that amount is, its source token
/// account (named first), its destination token account (named second, or third where the
/// checked form names the mint second) and its authority (named next).
pub proof fn law_transfer_event_fields(instruction: StructuredInstruction, context: TransactionContext)
    requires
        is_token_program_instruction(instruction, context),
    ensures
        instruction.token_instruction matches Some(TokenInstruction::Transfer { amount }) ==> {
            let e = parse_instruction_result(instruction, context)->Ok_0->Some_0->Transfer_0;
            &&& parse_instruction_result(instruction, context) matches Ok(Some(EventView::Transfer(_)))
            &&& e.amount == amount
            &&& e.source == Some(token_account_at(instruction, context, 0))
            &&& e.destination == Some(token_account_at(instruction, context, 1))
            &&& e.authority == address_at(instruction, context, 2)
        },
        instruction.token_instruction matches Some(TokenInstruction::TransferChecked { amount, .. }) ==> {
            let e = parse_instruction_result(instruction, context)->Ok_0->Some_0->Transfer_0;
            &&& parse_instruction_result(instruction, context) matches Ok(Some(EventView::Transfer(_)))
            &&& e.amount == amount
            &&& e.source == Some(token_account_at(instruction, context, 0))
            &&& e.destination == Some(token_account_at(instruction, context, 2))
            &&& e.authority == address_at(instruction, context, 3)
        },
{
}

/// A mint's initialization records the mint (the account named first), the decimals, the
/// mint authority of its data in base58, and the freeze authority in base58 where the data
/// has one and none where it has none.
pub proof fn law_initialize_mint_event_fields(instruction: StructuredInstruction, context: TransactionContext)
    requires
        is_token_program_instruction(instruction, context),
    ensures
        instruction.token_instruction matches Some(TokenInstruction::InitializeMint { decimals, mint_authority, freeze_authority }) ==> {
            let e = parse_instruction_result(instruction, context)->Ok_0->Some_0->InitializeMint_0;
            &&& parse_instruction_result(instruction, context) matches Ok(Some(EventView::InitializeMint(_)))
            &&& e.mint == address_at(instruction, context, 0)
            &&& e.decimals == decimals as u32
            &&& e.mint_authority == base58(mint_authority@)
            &&& freeze_authority is None ==> e.freeze_authority is None
            &&& freeze_authority is Some ==> e.freeze_authority == Some(base58(freeze_authority->Some_0@))
        },
        instruction.token_instruction matches Some(TokenInstruction::InitializeMint2 { decimals, mint_authority, freeze_authority }) ==> {
            let e = parse_instruction_result(instruction, context)->Ok_0->Some_0->InitializeMint_0;
            &&& parse_instruction_result(instruction, context) matches Ok(Some(EventView::InitializeMint(_)))
            &&& e.mint == address_at(instruction, context, 0)
            &&& e.decimals == decimals as u32
            &&& e.mint_authority == base58(mint_authority@)
            &&& freeze_authority is None ==> e.freeze_authority is None
            &&& freeze_authority is Some ==> e.freeze_authority == Some(base58(freeze_authority->Some_0@))
        },
{
}

/// An account's initialization records the token account named first, whatever owner the
/// data names.
pub proof fn law_initialize_account_event_fields(instruction: StructuredInstruction, context: TransactionContext)
    requires
        is_token_program_instruction(instruction, context),
    ensures
        instruction.token_instruction matches Some(TokenInstruction::InitializeAccount) ==> {
            let e = parse_instruction_result(instruction, context)->Ok_0->Some_0->InitializeAccount_0;
            &&& parse_instruction_result(instruction, context) matches Ok(Some(EventView::InitializeAccount(_)))
            &&& e.account == Some(token_account_at(instruction, context, 0))
        },
        instruction.token_instruction matches Some(TokenInstruction::InitializeAccount2 { .. }) ==> {
            let e = parse_instruction_result(instruction, context)->Ok_0->Some_0->InitializeAccount_0;
            &&& parse_instruction_result(instruction, context) matches Ok(Some(EventView::InitializeAccount(_)))
            &&& e.account == Some(token_account_at(instruction, context, 0))
        },
        instruction.token_instruction matches Some(TokenInstruction::InitializeAccount3 { .. }) ==> {
            let e = parse_instruction_result(instruction, context)->Ok_0->Some_0->InitializeAccount_0;
            &&& parse_instruction_result(instruction, context) matches Ok(Some(EventView::InitializeAccount(_)))
            &&& e.account == Some(token_account_at(instruction, context, 0))
        },
{
}

/// A multisig's initialization records the multisig (named first), `m` as it is, and every
/// account named after the multisig (and after the rent sysvar, which `InitializeMultisig`
/// names second) as a signer, in order: as many signers as such accounts, whatever `m` is.
/// (With fewer accounts than the multisig and the rent sysvar, there is no event to read.)
pub proof fn law_initialize_multisig_event_fields(instruction: StructuredInstruction, context: TransactionContext)
    requires
        is_token_program_instruction(instruction, context),
    ensures
        instruction.token_instruction matches Some(TokenInstruction::InitializeMultisig { m }) ==> (instruction.accounts@.len() >= 2 ==> {
                let e = parse_instruction_result(instruction, context)->Ok_0->Some_0->InitializeMultisig_0;
                &&& parse_instruction_result(instruction, context) matches Ok(Some(EventView::InitializeMultisig(_)))
                &&& e.multisig == address_at(instruction, context, 0)
                &&& e.m == m as u32
                &&& e.signers.len() == instruction.accounts@.len() - 2
                &&& forall|j: int| 0 <= j < e.signers.len() ==> #[trigger] e.signers[j] == address_at(instruction, context, j + 2)
            }),
        instruction.token_instruction matches Some(TokenInstruction::InitializeMultisig2 { m }) ==> (instruction.accounts@.len() >= 1 ==> {
                let e = parse_instruction_result(instruction, context)->Ok_0->Some_0->InitializeMultisig_0;
                &&& parse_instruction_result(instruction, context) matches Ok(Some(EventView::InitializeMultisig(_)))
                &&& e.multisig == address_at(instruction, context, 0)
                &&& e.m == m as u32
                &&& e.signers.len() == instruction.accounts@.len() - 1
                &&& forall|j: int| 0 <= j < e.signers.len() ==> #[trigger] e.signers[j] == address_at(instruction, context, j + 1)
            }),
{
}

/// An approval records the amount of its data, its source token account (named first) and
/// its delegate (named second, or third where the checked form names the mint second).
pub proof fn law_approve_event_fields(instruction: StructuredInstruction, context: TransactionContext)
    requires
        is_token_program_instruction(instruction, context),
    ensures
        instruction.token_instruction matches Some(TokenInstruction::Approve { amount }) ==> {
            let e = parse_instruction_result(instruction, context)->Ok_0->Some_0->Approve_0;
            &&& parse_instruction_result(instruction, context) matches Ok(Some(EventView::Approve(_)))
            &&& e.amount == amount
            &&& e.source == Some(token_account_at(instruction, context, 0))
            &&& e.delegate == address_at(instruction, context, 1)
        },
        instruction.token_instruction matches Some(TokenInstruction::ApproveChecked { amount, .. }) ==> {
            let e = parse_instruction_result(instruction, context)->Ok_0->Some_0->Approve_0;
            &&& parse_instruction_result(instruction, context) matches Ok(Some(EventView::Approve(_)))
            &&& e.amount == amount
            &&& e.source == Some(token_account_at(instruction, context, 0))
            &&& e.delegate == address_at(instruction, context, 2)
        },
{
}

/// A revocation records the token account named first.
pub proof fn law_revoke_event_fields(instruction: StructuredInstruction, context: TransactionContext)
    requires
        is_token_program_instruction(instruction, context),
    ensures
        instruction.token_instruction matches Some(TokenInstruction::Revoke) ==> {
            let e = parse_instruction_result(instruction, context)->Ok_0->Some_0->Revoke_0;
            &&& parse_instruction_result(instruction, context) matches Ok(Some(EventView::Revoke(_)))
            &&& e.source == Some(token_account_at(instruction, context, 0))
        },
{
}

/// A change of authority records the account named first as the mint, the one named second
/// as the current authority, the authority type's number (0 to mint tokens, 1 to freeze
/// accounts, 2 for an account's owner, 3 to close accounts), and the new authority in base58
/// where the data has one and none where it has none.
pub proof fn law_set_authority_event_fields(instruction: StructuredInstruction, context: TransactionContext)
    requires
        is_token_program_instruction(instruction, context),
    ensures
        instruction.token_instruction matches Some(TokenInstruction::SetAuthority { authority_type, new_authority }) ==> {
            let e = parse_instruction_result(instruction, context)->Ok_0->Some_0->SetAuthority_0;
            &&& parse_instruction_result(instruction, context) matches Ok(Some(EventView::SetAuthority(_)))
            &&& e.mint == address_at(instruction, context, 0)
            &&& e.authority == address_at(instruction, context, 1)
            &&& authority_type == TokenAuthorityType::MintTokens ==> e.authority_type == 0
            &&& authority_type == TokenAuthorityType::FreezeAccount ==> e.authority_type == 1
            &&& authority_type == TokenAuthorityType::AccountOwner ==> e.authority_type == 2
            &&& authority_type == TokenAuthorityType::CloseAccount ==> e.authority_type == 3
            &&& new_authority is None ==> e.new_authority is None
            &&& new_authority is Some ==> e.new_authority == Some(base58(new_authority->Some_0@))
        },
{
}

/// A mint of tokens records the amount of its data, whatever that amount is, the mint (named
/// first), the destination token account (named second) and the mint authority (named third),
/// in both forms.
pub proof fn law_mint_to_event_fields(instruction: StructuredInstruction, context: TransactionContext)
    requires
        is_token_program_instruction(instruction, context),
    ensures
        instruction.token_instruction matches Some(TokenInstruction::MintTo { amount }) ==> {
            let e = parse_instruction_result(instruction, context)->Ok_0->Some_0->MintTo_0;
            &&& parse_instruction_result(instruction, context) matches Ok(Some(EventView::MintTo(_)))
            &&& e.amount == amount
            &&& e.mint == address_at(instruction, context, 0)
            &&& e.destination == Some(token_account_at(instruction, context, 1))
            &&& e.mint_authority == address_at(instruction, context, 2)
        },
        instruction.token_instruction matches Some(TokenInstruction::MintToChecked { amount, .. }) ==> {
            let e = parse_instruction_result(instruction, context)->Ok_0->Some_0->MintTo_0;
            &&& parse_instruction_result(instruction, context) matches Ok(Some(EventView::MintTo(_)))
            &&& e.amount == amount
            &&& e.mint == address_at(instruction, context, 0)
            &&& e.destination == Some(token_account_at(instruction, context, 1))
            &&& e.mint_authority == address_at(instruction, context, 2)
        },
{
}

/// A burn records the amount of its data, whatever that amount is, the source token account
/// (named first) and the authority (named third), in both forms.
pub proof fn law_burn_event_fields(instruction: StructuredInstruction, context: TransactionContext)
    requires
        is_token_program_instruction(instruction, context),
    ensures
        instruction.token_instruction matches Some(TokenInstruction::Burn { amount }) ==> {
            let e = parse_instruction_result(instruction, context)->Ok_0->Some_0->Burn_0;
            &&& parse_instruction_result(instruction, context) matches Ok(Some(EventView::Burn(_)))
            &&& e.amount == amount
            &&& e.source == Some(token_account_at(instruction, context, 0))
            &&& e.authority == address_at(instruction, context, 2)
        },
        instruction.token_instruction matches Some(TokenInstruction::BurnChecked { amount, .. }) ==> {
            let e = parse_instruction_result(instruction, context)->Ok_0->Some_0->Burn_0;
            &&& parse_instruction_result(instruction, context) matches Ok(Some(EventView::Burn(_)))
            &&& e.amount == amount
            &&& e.source == Some(token_account_at(instruction, context, 0))
            &&& e.authority == address_at(instruction, context, 2)
        },
{
}

/// Closing, freezing and thawing an account record the token account named first and the
/// account named second: the destination of what is left, or the freeze authority.
pub proof fn law_close_freeze_thaw_event_fields(instruction: StructuredInstruction, context: TransactionContext)
    requires
        is_token_program_instruction(instruction, context),
    ensures
        instruction.token_instruction matches Some(TokenInstruction::CloseAccount) ==> {
            let e = parse_instruction_result(instruction, context)->Ok_0->Some_0->CloseAccount_0;
            &&& parse_instruction_result(instruction, context) matches Ok(Some(EventView::CloseAccount(_)))
            &&& e.source == Some(token_account_at(instruction, context, 0))
            &&& e.destination == address_at(instruction, context, 1)
        },
        instruction.token_instruction matches Some(TokenInstruction::FreezeAccount) ==> {
            let e = parse_instruction_result(instruction, context)->Ok_0->Some_0->FreezeAccount_0;
            &&& parse_instruction_result(instruction, context) matches Ok(Some(EventView::FreezeAccount(_)))
            &&& e.source == Some(token_account_at(instruction, context, 0))
            &&& e.freeze_authority == address_at(instruction, context, 1)
        },
        instruction.token_instruction matches Some(TokenInstruction::ThawAccount) ==> {
            let e = parse_instruction_result(instruction, context)->Ok_0->Some_0->ThawAccount_0;
            &&& parse_instruction_result(instruction, context) matches Ok(Some(EventView::ThawAccount(_)))
            &&& e.source == Some(token_account_at(instruction, context, 0))
            &&& e.freeze_authority == address_at(instruction, context, 1)
        },
{
}

/// Making an account's owner immutable records the token account named first.
pub proof fn law_initialize_immutable_owner_event_fields(instruction: StructuredInstruction, context: TransactionContext)
    requires
        is_token_program_instruction(instruction, context),
    ensures
        instruction.token_instruction matches Some(TokenInstruction::InitializeImmutableOwner) ==> {
            let e = parse_instruction_result(instruction, context)->Ok_0->Some_0->InitializeImmutableOwner_0;
            &&& parse_instruction_result(instruction, context) matches Ok(Some(EventView::InitializeImmutableOwner(_)))
            &&& e.account == Some(token_account_at(instruction, context, 0))
        },
{
}

/// Syncing a native account, asking an account's data size and converting amounts record
/// no event.
pub proof fn law_instructions_without_event(instruction: StructuredInstruction, context: TransactionContext)
    requires
        is_token_program_instruction(instruction, context),
        (instruction.token_instruction matches Some(TokenInstruction::SyncNative))
            || (instruction.token_instruction matches Some(TokenInstruction::GetAccountDataSize))
            || (instruction.token_instruction matches Some(TokenInstruction::AmountToUiAmount { .. }))
            || (instruction.token_instruction matches Some(TokenInstruction::UiAmountToAmount { .. })),
    ensures
        parse_instruction_result(instruction, context) == Ok::<Option<EventView>, &'static str>(None),
{
}

} // verus!
