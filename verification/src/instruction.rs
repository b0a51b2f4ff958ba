//! From one token program instruction to the event it records.
use vstd::prelude::*;
use vstd::string::StringExecFns;
use crate::base58::{base58, encode_base58};
use crate::events::{
    authority_type_number, ApproveEvent, ApproveView, AuthorityType, BurnEvent, BurnView,
    CloseAccountEvent, CloseAccountView, Event, EventView, FreezeAccountEvent, FreezeAccountView,
    InitializeAccountEvent, InitializeAccountView, InitializeImmutableOwnerEvent,
    InitializeImmutableOwnerView, InitializeMintEvent, InitializeMintView, InitializeMultisigEvent,
    InitializeMultisigView, MintToEvent, MintToView, RevokeEvent, RevokeView, SetAuthorityEvent,
    SetAuthorityView, ThawAccountEvent, ThawAccountView, TokenAccount, TokenAccountView,
    TransferEvent, TransferView,
};
use crate::input::{
    Pubkey, StructuredInstruction, TokenAccountKeys, TokenAuthorityType, TokenInstruction,
    TransactionContext,
};

verus! {

/// The address of the token program, in base58.
pub open spec fn token_program_id() -> Seq<char> {
    "TokenkegQfeZyiNwAJbNbGKPFXCWuBvf9Ss623VQ5DA"@
}

/// The instruction names, at position `k` of its accounts, an account of the transaction.
pub open spec fn names_account(context: TransactionContext, accounts: Seq<u8>, k: int) -> bool {
    &&& 0 <= k < accounts.len()
    &&& context.has_account(accounts[k] as int)
}

/// The instruction names, at position `k` of its accounts, a token account of the transaction.
pub open spec fn names_token_account(context: TransactionContext, accounts: Seq<u8>, k: int) -> bool {
    &&& 0 <= k < accounts.len()
    &&& context.has_token_account(accounts[k] as int)
}

/// The base58 address of the account that the instruction names at position `k`.
pub open spec fn named_address(context: TransactionContext, accounts: Seq<u8>, k: int) -> Seq<char> {
    base58(context.accounts@[accounts[k] as int]@)
}

/// A token account as an event records it: each address in base58.
pub open spec fn token_account_view(keys: TokenAccountKeys) -> TokenAccountView {
    TokenAccountView {
        address: base58(keys.address@),
        owner: base58(keys.owner@),
        mint: base58(keys.mint@),
    }
}

/// The token account that the instruction names at position `k`, as an event records it.
pub open spec fn named_token_account(
    context: TransactionContext,
    accounts: Seq<u8>,
    k: int,
) -> TokenAccountView {
    token_account_view(context.token_accounts@[accounts[k] as int].unwrap())
}

pub open spec fn optional_key_text(key: Option<Pubkey>) -> Option<Seq<char>> {
    match key {
        Some(k) => Some(base58(k@)),
        None => None,
    }
}

/// The event authority type for the authority type of an instruction.
pub open spec fn event_authority_type(t: TokenAuthorityType) -> AuthorityType {
    match t {
        TokenAuthorityType::MintTokens => AuthorityType::MintTokens,
        TokenAuthorityType::FreezeAccount => AuthorityType::FreezeAccount,
        TokenAuthorityType::AccountOwner => AuthorityType::AccountOwner,
        TokenAuthorityType::CloseAccount => AuthorityType::CloseAccount,
    }
}

pub open spec fn initialize_mint_view(
    context: TransactionContext,
    accounts: Seq<u8>,
    decimals: u32,
    mint_authority: Pubkey,
    freeze_authority: Option<Pubkey>,
) -> InitializeMintView {
    InitializeMintView {
        mint: named_address(context, accounts, 0),
        decimals,
        mint_authority: base58(mint_authority@),
        freeze_authority: optional_key_text(freeze_authority),
    }
}

pub open spec fn initialize_account_view(context: TransactionContext, accounts: Seq<u8>) -> InitializeAccountView {
    InitializeAccountView { account: Some(named_token_account(context, accounts, 0)) }
}

/// The signers of a multisig account: every account the instruction names from position `first` on.
pub open spec fn signer_addresses(context: TransactionContext, accounts: Seq<u8>, first: int) -> Seq<Seq<char>> {
    Seq::new((accounts.len() - first) as nat, |j: int| named_address(context, accounts, j + first))
}

pub open spec fn initialize_multisig_view(
    context: TransactionContext,
    accounts: Seq<u8>,
    m: u8,
    first_signer: int,
) -> InitializeMultisigView {
    InitializeMultisigView {
        multisig: named_address(context, accounts, 0),
        signers: signer_addresses(context, accounts, first_signer),
        m: m as u32,
    }
}

/// `delta` is 1 where the mint's account stands before the destination, else 0.
pub open spec fn transfer_view(context: TransactionContext, accounts: Seq<u8>, amount: u64, delta: int) -> TransferView {
    TransferView {
        source: Some(named_token_account(context, accounts, 0)),
        destination: Some(named_token_account(context, accounts, 1 + delta)),
        amount,
        authority: named_address(context, accounts, 2 + delta),
    }
}

/// `delta` is 1 where the mint's account stands before the delegate, else 0.
pub open spec fn approve_view(context: TransactionContext, accounts: Seq<u8>, amount: u64, delta: int) -> ApproveView {
    ApproveView {
        source: Some(named_token_account(context, accounts, 0)),
        delegate: named_address(context, accounts, 1 + delta),
        amount,
    }
}

pub open spec fn revoke_view(context: TransactionContext, accounts: Seq<u8>) -> RevokeView {
    RevokeView { source: Some(named_token_account(context, accounts, 0)) }
}

pub open spec fn set_authority_view(
    context: TransactionContext,
    accounts: Seq<u8>,
    authority_type: TokenAuthorityType,
    new_authority: Option<Pubkey>,
) -> SetAuthorityView {
    SetAuthorityView {
        mint: named_address(context, accounts, 0),
        authority: named_address(context, accounts, 1),
        authority_type: authority_type_number(event_authority_type(authority_type)),
        new_authority: optional_key_text(new_authority),
    }
}

pub open spec fn mint_to_view(context: TransactionContext, accounts: Seq<u8>, amount: u64) -> MintToView {
    MintToView {
        mint: named_address(context, accounts, 0),
        destination: Some(named_token_account(context, accounts, 1)),
        mint_authority: named_address(context, accounts, 2),
        amount,
    }
}

pub open spec fn burn_view(context: TransactionContext, accounts: Seq<u8>, amount: u64) -> BurnView {
    BurnView {
        source: Some(named_token_account(context, accounts, 0)),
        authority: named_address(context, accounts, 2),
        amount,
    }
}

pub open spec fn close_account_view(context: TransactionContext, accounts: Seq<u8>) -> CloseAccountView {
    CloseAccountView {
        source: Some(named_token_account(context, accounts, 0)),
        destination: named_address(context, accounts, 1),
    }
}

pub open spec fn freeze_account_view(context: TransactionContext, accounts: Seq<u8>) -> FreezeAccountView {
    FreezeAccountView {
        source: Some(named_token_account(context, accounts, 0)),
        freeze_authority: named_address(context, accounts, 1),
    }
}

pub open spec fn thaw_account_view(context: TransactionContext, accounts: Seq<u8>) -> ThawAccountView {
    ThawAccountView {
        source: Some(named_token_account(context, accounts, 0)),
        freeze_authority: named_address(context, accounts, 1),
    }
}

pub open spec fn initialize_immutable_owner_view(
    context: TransactionContext,
    accounts: Seq<u8>,
) -> InitializeImmutableOwnerView {
    InitializeImmutableOwnerView { account: Some(named_token_account(context, accounts, 0)) }
}

/// The accounts of a multisig initialization are there: the multisig's own and each signer's.
pub open spec fn multisig_accounts_named(context: TransactionContext, accounts: Seq<u8>, first_signer: int) -> bool {
    &&& first_signer <= accounts.len()
    &&& names_account(context, accounts, 0)
    &&& forall|j: int| first_signer <= j < accounts.len() ==> #[trigger] names_account(context, accounts, j)
}

/// Every account that the event of the instruction reads is there.
pub open spec fn accounts_available(
    instruction: TokenInstruction,
    context: TransactionContext,
    accounts: Seq<u8>,
) -> bool {
    match instruction {
        TokenInstruction::InitializeMint { .. } | TokenInstruction::InitializeMint2 { .. } =>
            names_account(context, accounts, 0),
        TokenInstruction::InitializeAccount
        | TokenInstruction::InitializeAccount2 { .. }
        | TokenInstruction::InitializeAccount3 { .. }
        | TokenInstruction::Revoke
        | TokenInstruction::InitializeImmutableOwner => names_token_account(context, accounts, 0),
        TokenInstruction::InitializeMultisig { .. } => multisig_accounts_named(context, accounts, 2),
        TokenInstruction::InitializeMultisig2 { .. } => multisig_accounts_named(context, accounts, 1),
        TokenInstruction::Transfer { .. } => {
            &&& names_token_account(context, accounts, 0)
            &&& names_token_account(context, accounts, 1)
            &&& names_account(context, accounts, 2)
        },
        TokenInstruction::TransferChecked { .. } => {
            &&& names_token_account(context, accounts, 0)
            &&& names_token_account(context, accounts, 2)
            &&& names_account(context, accounts, 3)
        },
        TokenInstruction::Approve { .. } => {
            &&& names_token_account(context, accounts, 0)
            &&& names_account(context, accounts, 1)
        },
        TokenInstruction::ApproveChecked { .. } => {
            &&& names_token_account(context, accounts, 0)
            &&& names_account(context, accounts, 2)
        },
        TokenInstruction::SetAuthority { .. } => {
            &&& names_account(context, accounts, 0)
            &&& names_account(context, accounts, 1)
        },
        TokenInstruction::MintTo { .. } | TokenInstruction::MintToChecked { .. } => {
            &&& names_account(context, accounts, 0)
            &&& names_token_account(context, accounts, 1)
            &&& names_account(context, accounts, 2)
        },
        TokenInstruction::Burn { .. } | TokenInstruction::BurnChecked { .. } => {
            &&& names_token_account(context, accounts, 0)
            &&& names_account(context, accounts, 1)
            &&& names_account(context, accounts, 2)
        },
        TokenInstruction::CloseAccount
        | TokenInstruction::FreezeAccount
        | TokenInstruction::ThawAccount => {
            &&& names_token_account(context, accounts, 0)
            &&& names_account(context, accounts, 1)
        },
        TokenInstruction::SyncNative
        | TokenInstruction::GetAccountDataSize
        | TokenInstruction::AmountToUiAmount { .. }
        | TokenInstruction::UiAmountToAmount { .. } => true,
    }
}

/// The event that a token program instruction records, if any.
pub open spec fn instruction_event(
    instruction: TokenInstruction,
    context: TransactionContext,
    accounts: Seq<u8>,
) -> Option<EventView> {
    match instruction {
        TokenInstruction::InitializeMint { decimals, mint_authority, freeze_authority }
        | TokenInstruction::InitializeMint2 { decimals, mint_authority, freeze_authority } =>
            Some(EventView::InitializeMint(
                initialize_mint_view(context, accounts, decimals as u32, mint_authority, freeze_authority),
            )),
        TokenInstruction::InitializeAccount
        | TokenInstruction::InitializeAccount2 { .. }
        | TokenInstruction::InitializeAccount3 { .. } =>
            Some(EventView::InitializeAccount(initialize_account_view(context, accounts))),
        TokenInstruction::InitializeMultisig { m } =>
            Some(EventView::InitializeMultisig(initialize_multisig_view(context, accounts, m, 2))),
        TokenInstruction::InitializeMultisig2 { m } =>
            Some(EventView::InitializeMultisig(initialize_multisig_view(context, accounts, m, 1))),
        TokenInstruction::Transfer { amount } =>
            Some(EventView::Transfer(transfer_view(context, accounts, amount, 0))),
        TokenInstruction::TransferChecked { amount, .. } =>
            Some(EventView::Transfer(transfer_view(context, accounts, amount, 1))),
        TokenInstruction::Approve { amount } =>
            Some(EventView::Approve(approve_view(context, accounts, amount, 0))),
        TokenInstruction::ApproveChecked { amount, .. } =>
            Some(EventView::Approve(approve_view(context, accounts, amount, 1))),
        TokenInstruction::Revoke => Some(EventView::Revoke(revoke_view(context, accounts))),
        TokenInstruction::SetAuthority { authority_type, new_authority } =>
            Some(EventView::SetAuthority(set_authority_view(context, accounts, authority_type, new_authority))),
        TokenInstruction::MintTo { amount } | TokenInstruction::MintToChecked { amount, .. } =>
            Some(EventView::MintTo(mint_to_view(context, accounts, amount))),
        TokenInstruction::Burn { amount } | TokenInstruction::BurnChecked { amount, .. } =>
            Some(EventView::Burn(burn_view(context, accounts, amount))),
        TokenInstruction::CloseAccount =>
            Some(EventView::CloseAccount(close_account_view(context, accounts))),
        TokenInstruction::FreezeAccount =>
            Some(EventView::FreezeAccount(freeze_account_view(context, accounts))),
        TokenInstruction::ThawAccount =>
            Some(EventView::ThawAccount(thaw_account_view(context, accounts))),
        TokenInstruction::InitializeImmutableOwner =>
            Some(EventView::InitializeImmutableOwner(initialize_immutable_owner_view(context, accounts))),
        TokenInstruction::SyncNative
        | TokenInstruction::GetAccountDataSize
        | TokenInstruction::AmountToUiAmount { .. }
        | TokenInstruction::UiAmountToAmount { .. } => None,
    }
}

/// The instruction's program is the token program.
pub open spec fn is_token_program_instruction(
    instruction: StructuredInstruction,
    context: TransactionContext,
) -> bool {
    base58(context.accounts@[instruction.program_id_index as int]@) == token_program_id()
}

/// What `parse_instruction` is owed to return.
pub open spec fn parse_instruction_result(
    instruction: StructuredInstruction,
    context: TransactionContext,
) -> Result<Option<EventView>, &'static str> {
    if !is_token_program_instruction(instruction, context) {
        Err("Not a Token program instruction.")
    } else {
        match instruction.token_instruction {
            None => Err("Failed to parse Token program instruction."),
            Some(t) => Ok(instruction_event(t, context, instruction.accounts@)),
        }
    }
}

/// The inputs on which `parse_instruction` reads only accounts that are there.
pub open spec fn instruction_parsable(instruction: StructuredInstruction, context: TransactionContext) -> bool {
    &&& context.has_account(instruction.program_id_index as int)
    &&& is_token_program_instruction(instruction, context) ==> match instruction.token_instruction {
        Some(t) => accounts_available(t, context, instruction.accounts@),
        None => true,
    }
}

pub open spec fn event_result_view(result: Result<Option<Event>, &'static str>) -> Result<Option<EventView>, &'static str> {
    match result {
        Ok(event) => Ok(event.deep_view()),
        Err(message) => Err(message),
    }
}

/// The token program's address, in base58.
pub fn token_program() -> (id: String)
    ensures
        id@ == token_program_id(),
{
    proof {
        reveal_strlit("TokenkegQfeZyiNwAJbNbGKPFXCWuBvf9Ss623VQ5DA");
    }
    String::from_str("TokenkegQfeZyiNwAJbNbGKPFXCWuBvf9Ss623VQ5DA")
}

/// Whether the account at `index` is the token program.
pub fn is_token_program_account(context: &TransactionContext, index: usize) -> (b: bool)
    requires
        context.has_account(index as int),
    ensures
        b == (base58(context.accounts@[index as int]@) == token_program_id()),
{
    let address = encode_base58(context.get_account_from_index(index).as_slice());
    let id = token_program();
    address == id
}

/// A token account as an event records it.
pub fn token_account_of(keys: &TokenAccountKeys) -> (account: TokenAccount)
    ensures
        account.deep_view() == token_account_view(*keys),
{
    TokenAccount {
        address: encode_base58(keys.address.as_slice()),
        owner: encode_base58(keys.owner.as_slice()),
        mint: encode_base58(keys.mint.as_slice()),
    }
}

fn named_address_text(context: &TransactionContext, accounts: &Vec<u8>, k: usize) -> (text: String)
    requires
        names_account(*context, accounts@, k as int),
    ensures
        text@ == named_address(*context, accounts@, k as int),
{
    encode_base58(context.get_account_from_index(accounts[k] as usize).as_slice())
}

fn named_token_account_of(context: &TransactionContext, accounts: &Vec<u8>, k: usize) -> (account: TokenAccount)
    requires
        names_token_account(*context, accounts@, k as int),
    ensures
        account.deep_view() == named_token_account(*context, accounts@, k as int),
{
    token_account_of(context.get_token_account_from_index(accounts[k] as usize))
}

fn optional_key(key: Option<Pubkey>) -> (text: Option<String>)
    ensures
        text.deep_view() == optional_key_text(key),
{
    match key {
        Some(k) => Some(encode_base58(k.as_slice())),
        None => None,
    }
}

fn _parse_initialize_mint_instruction(
    instruction: &StructuredInstruction,
    context: &TransactionContext,
    decimals: u32,
    mint_authority: Pubkey,
    freeze_authority: Option<Pubkey>,
) -> (event: InitializeMintEvent)
    requires
        names_account(*context, instruction.accounts@, 0),
    ensures
        event.deep_view() == initialize_mint_view(
            *context,
            instruction.accounts@,
            decimals,
            mint_authority,
            freeze_authority,
        ),
{
    let mint = named_address_text(context, &instruction.accounts, 0);
    let mint_authority = encode_base58(mint_authority.as_slice());
    let freeze_authority = optional_key(freeze_authority);
    InitializeMintEvent { mint, decimals, mint_authority, freeze_authority }
}

fn _parse_initialize_account_instruction(
    instruction: &StructuredInstruction,
    context: &TransactionContext,
) -> (event: InitializeAccountEvent)
    requires
        names_token_account(*context, instruction.accounts@, 0),
    ensures
        event.deep_view() == initialize_account_view(*context, instruction.accounts@),
{
    let account = named_token_account_of(context, &instruction.accounts, 0);
    InitializeAccountEvent { account: Some(account) }
}

/// `rent_sysvar_account`: the instruction names the rent sysvar before the signers.
fn _parse_initialize_multisig_instruction(
    instruction: &StructuredInstruction,
    context: &TransactionContext,
    m: u8,
    rent_sysvar_account: bool,
) -> (event: InitializeMultisigEvent)
    requires
        multisig_accounts_named(
            *context,
            instruction.accounts@,
            if rent_sysvar_account { 2 } else { 1 },
        ),
    ensures
        event.deep_view() == initialize_multisig_view(
            *context,
            instruction.accounts@,
            m,
            if rent_sysvar_account { 2 } else { 1 },
        ),
{
    let multisig = named_address_text(context, &instruction.accounts, 0);
    let delta: usize = if rent_sysvar_account { 2 } else { 1 };
    let mut signers: Vec<String> = Vec::new();
    let mut index: usize = delta;
    while index < instruction.accounts.len()
        invariant
            delta <= index <= instruction.accounts@.len(),
            multisig_accounts_named(*context, instruction.accounts@, delta as int),
            signers@.len() == index - delta,
            forall|j: int|
                0 <= j < signers@.len() ==> #[trigger] signers@[j]@ == named_address(
                    *context,
                    instruction.accounts@,
                    j + delta,
                ),
        decreases instruction.accounts@.len() - index,
    {
        assert(names_account(*context, instruction.accounts@, index as int));
        signers.push(named_address_text(context, &instruction.accounts, index));
        index = index + 1;
    }
    let event = InitializeMultisigEvent { multisig, signers, m: m as u32 };
    assert(event.signers.deep_view() =~= signer_addresses(*context, instruction.accounts@, delta as int));
    event
}

/// `expected_decimals` is there for `TransferChecked`, whose accounts name the mint second.
fn _parse_transfer_instruction(
    instruction: &StructuredInstruction,
    context: &TransactionContext,
    amount: u64,
    expected_decimals: Option<u8>,
) -> (event: TransferEvent)
    requires
        names_token_account(*context, instruction.accounts@, 0),
        names_token_account(*context, instruction.accounts@, 1 + if expected_decimals is None { 0int } else { 1 }),
        names_account(*context, instruction.accounts@, 2 + if expected_decimals is None { 0int } else { 1 }),
    ensures
        event.deep_view() == transfer_view(
            *context,
            instruction.accounts@,
            amount,
            if expected_decimals is None { 0 } else { 1 },
        ),
{
    let delta: usize = if expected_decimals.is_none() { 0 } else { 1 };
    let source = named_token_account_of(context, &instruction.accounts, 0);
    let destination = named_token_account_of(context, &instruction.accounts, 1 + delta);
    let authority = named_address_text(context, &instruction.accounts, 2 + delta);
    TransferEvent { source: Some(source), destination: Some(destination), amount, authority }
}

/// `expected_decimals` is there for `ApproveChecked`, whose accounts name the mint second.
fn _parse_approve_instruction(
    instruction: &StructuredInstruction,
    context: &TransactionContext,
    amount: u64,
    expected_decimals: Option<u8>,
) -> (event: ApproveEvent)
    requires
        names_token_account(*context, instruction.accounts@, 0),
        names_account(*context, instruction.accounts@, 1 + if expected_decimals is None { 0int } else { 1 }),
    ensures
        event.deep_view() == approve_view(
            *context,
            instruction.accounts@,
            amount,
            if expected_decimals is None { 0 } else { 1 },
        ),
{
    let delta: usize = if expected_decimals.is_none() { 0 } else { 1 };
    let source = named_token_account_of(context, &instruction.accounts, 0);
    let delegate = named_address_text(context, &instruction.accounts, 1 + delta);
    ApproveEvent { source: Some(source), delegate, amount }
}

fn _parse_revoke_instruction(
    instruction: &StructuredInstruction,
    context: &TransactionContext,
) -> (event: RevokeEvent)
    requires
        names_token_account(*context, instruction.accounts@, 0),
    ensures
        event.deep_view() == revoke_view(*context, instruction.accounts@),
{
    let source = named_token_account_of(context, &instruction.accounts, 0);
    RevokeEvent { source: Some(source) }
}

fn _parse_set_authority_instruction(
    instruction: &StructuredInstruction,
    context: &TransactionContext,
    authority_type: TokenAuthorityType,
    new_authority: Option<Pubkey>,
) -> (event: SetAuthorityEvent)
    requires
        names_account(*context, instruction.accounts@, 0),
        names_account(*context, instruction.accounts@, 1),
    ensures
        event.deep_view() == set_authority_view(
            *context,
            instruction.accounts@,
            authority_type,
            new_authority,
        ),
{
    let mint = named_address_text(context, &instruction.accounts, 0);
    let authority = named_address_text(context, &instruction.accounts, 1);
    let authority_type: i32 = match authority_type {
        TokenAuthorityType::MintTokens => AuthorityType::MintTokens.as_i32(),
        TokenAuthorityType::FreezeAccount => AuthorityType::FreezeAccount.as_i32(),
        TokenAuthorityType::AccountOwner => AuthorityType::AccountOwner.as_i32(),
        TokenAuthorityType::CloseAccount => AuthorityType::CloseAccount.as_i32(),
    };
    let new_authority = optional_key(new_authority);
    SetAuthorityEvent { mint, authority, authority_type, new_authority }
}

fn _parse_mint_to_instruction(
    instruction: &StructuredInstruction,
    context: &TransactionContext,
    amount: u64,
) -> (event: MintToEvent)
    requires
        names_account(*context, instruction.accounts@, 0),
        names_token_account(*context, instruction.accounts@, 1),
        names_account(*context, instruction.accounts@, 2),
    ensures
        event.deep_view() == mint_to_view(*context, instruction.accounts@, amount),
{
    let mint = named_address_text(context, &instruction.accounts, 0);
    let destination = named_token_account_of(context, &instruction.accounts, 1);
    let mint_authority = named_address_text(context, &instruction.accounts, 2);
    MintToEvent { mint, destination: Some(destination), mint_authority, amount }
}

fn _parse_burn_instruction(
    instruction: &StructuredInstruction,
    context: &TransactionContext,
    amount: u64,
) -> (event: BurnEvent)
    requires
        names_token_account(*context, instruction.accounts@, 0),
        names_account(*context, instruction.accounts@, 1),
        names_account(*context, instruction.accounts@, 2),
    ensures
        event.deep_view() == burn_view(*context, instruction.accounts@, amount),
{
    let source = named_token_account_of(context, &instruction.accounts, 0);
    let _mint = named_address_text(context, &instruction.accounts, 1);
    let authority = named_address_text(context, &instruction.accounts, 2);
    BurnEvent { source: Some(source), authority, amount }
}

fn _parse_close_account_instruction(
    instruction: &StructuredInstruction,
    context: &TransactionContext,
) -> (event: CloseAccountEvent)
    requires
        names_token_account(*context, instruction.accounts@, 0),
        names_account(*context, instruction.accounts@, 1),
    ensures
        event.deep_view() == close_account_view(*context, instruction.accounts@),
{
    let source = named_token_account_of(context, &instruction.accounts, 0);
    let destination = named_address_text(context, &instruction.accounts, 1);
    CloseAccountEvent { source: Some(source), destination }
}

fn _parse_freeze_account_instruction(
    instruction: &StructuredInstruction,
    context: &TransactionContext,
) -> (event: FreezeAccountEvent)
    requires
        names_token_account(*context, instruction.accounts@, 0),
        names_account(*context, instruction.accounts@, 1),
    ensures
        event.deep_view() == freeze_account_view(*context, instruction.accounts@),
{
    let source = named_token_account_of(context, &instruction.accounts, 0);
    let freeze_authority = named_address_text(context, &instruction.accounts, 1);
    FreezeAccountEvent { source: Some(source), freeze_authority }
}

fn _parse_thaw_account_instruction(
    instruction: &StructuredInstruction,
    context: &TransactionContext,
) -> (event: ThawAccountEvent)
    requires
        names_token_account(*context, instruction.accounts@, 0),
        names_account(*context, instruction.accounts@, 1),
    ensures
        event.deep_view() == thaw_account_view(*context, instruction.accounts@),
{
    let source = named_token_account_of(context, &instruction.accounts, 0);
    let freeze_authority = named_address_text(context, &instruction.accounts, 1);
    ThawAccountEvent { source: Some(source), freeze_authority }
}

fn _parse_initialize_immutable_owner_instruction(
    instruction: &StructuredInstruction,
    context: &TransactionContext,
) -> (event: InitializeImmutableOwnerEvent)
    requires
        names_token_account(*context, instruction.accounts@, 0),
    ensures
        event.deep_view() == initialize_immutable_owner_view(*context, instruction.accounts@),
{
    let account = named_token_account_of(context, &instruction.accounts, 0);
    InitializeImmutableOwnerEvent { account: Some(account) }
}

/// The event that a token program instruction records: `Ok(None)` for an instruction that
/// records none, an error for an instruction of another program or whose data does not decode.
pub fn parse_instruction(
    instruction: &StructuredInstruction,
    context: &TransactionContext,
) -> (result: Result<Option<Event>, &'static str>)
    requires
        instruction_parsable(*instruction, *context),
    ensures
        event_result_view(result) == parse_instruction_result(*instruction, *context),
{
    if !is_token_program_account(context, instruction.program_id_index as usize) {
        return Err("Not a Token program instruction.");
    }
    let unpacked = match &instruction.token_instruction {
        Some(t) => t,
        None => {
            return Err("Failed to parse Token program instruction.");
        },
    };
    match unpacked {
        TokenInstruction::InitializeMint { decimals, mint_authority, freeze_authority }
        | TokenInstruction::InitializeMint2 { decimals, mint_authority, freeze_authority } => {
            let event = _parse_initialize_mint_instruction(
                instruction,
                context,
                *decimals as u32,
                *mint_authority,
                *freeze_authority,
            );
            Ok(Some(Event::InitializeMint(event)))
        },
        TokenInstruction::InitializeAccount => {
            let event = _parse_initialize_account_instruction(instruction, context);
            Ok(Some(Event::InitializeAccount(event)))
        },
        TokenInstruction::InitializeAccount2 { .. } | TokenInstruction::InitializeAccount3 { .. } => {
            let event = _parse_initialize_account_instruction(instruction, context);
            Ok(Some(Event::InitializeAccount(event)))
        },
        TokenInstruction::InitializeMultisig { m } => {
            let event = _parse_initialize_multisig_instruction(instruction, context, *m, true);
            Ok(Some(Event::InitializeMultisig(event)))
        },
        TokenInstruction::InitializeMultisig2 { m } => {
            let event = _parse_initialize_multisig_instruction(instruction, context, *m, false);
            Ok(Some(Event::InitializeMultisig(event)))
        },
        TokenInstruction::Transfer { amount } => {
            let event = _parse_transfer_instruction(instruction, context, *amount, None);
            Ok(Some(Event::Transfer(event)))
        },
        TokenInstruction::TransferChecked { amount, decimals } => {
            let event = _parse_transfer_instruction(instruction, context, *amount, Some(*decimals));
            Ok(Some(Event::Transfer(event)))
        },
        TokenInstruction::Approve { amount } => {
            let event = _parse_approve_instruction(instruction, context, *amount, None);
            Ok(Some(Event::Approve(event)))
        },
        TokenInstruction::ApproveChecked { amount, decimals } => {
            let event = _parse_approve_instruction(instruction, context, *amount, Some(*decimals));
            Ok(Some(Event::Approve(event)))
        },
        TokenInstruction::Revoke => {
            let event = _parse_revoke_instruction(instruction, context);
            Ok(Some(Event::Revoke(event)))
        },
        TokenInstruction::SetAuthority { authority_type, new_authority } => {
            let event = _parse_set_authority_instruction(
                instruction,
                context,
                *authority_type,
                *new_authority,
            );
            Ok(Some(Event::SetAuthority(event)))
        },
        TokenInstruction::MintTo { amount } => {
            let event = _parse_mint_to_instruction(instruction, context, *amount);
            Ok(Some(Event::MintTo(event)))
        },
        TokenInstruction::MintToChecked { amount, .. } => {
            let event = _parse_mint_to_instruction(instruction, context, *amount);
            Ok(Some(Event::MintTo(event)))
        },
        TokenInstruction::Burn { amount } => {
            let event = _parse_burn_instruction(instruction, context, *amount);
            Ok(Some(Event::Burn(event)))
        },
        TokenInstruction::BurnChecked { amount, .. } => {
            let event = _parse_burn_instruction(instruction, context, *amount);
            Ok(Some(Event::Burn(event)))
        },
        TokenInstruction::CloseAccount => {
            let event = _parse_close_account_instruction(instruction, context);
            Ok(Some(Event::CloseAccount(event)))
        },
        TokenInstruction::FreezeAccount => {
            let event = _parse_freeze_account_instruction(instruction, context);
            Ok(Some(Event::FreezeAccount(event)))
        },
        TokenInstruction::ThawAccount => {
            let event = _parse_thaw_account_instruction(instruction, context);
            Ok(Some(Event::ThawAccount(event)))
        },
        TokenInstruction::InitializeImmutableOwner => {
            let event = _parse_initialize_immutable_owner_instruction(instruction, context);
            Ok(Some(Event::InitializeImmutableOwner(event)))
        },
        TokenInstruction::SyncNative => Ok(None),
        TokenInstruction::AmountToUiAmount { .. } => Ok(None),
        TokenInstruction::GetAccountDataSize => Ok(None),
        TokenInstruction::UiAmountToAmount { .. } => Ok(None),
    }
}

/// The initialize mint event that the instruction records; an error where it records another or none.
pub fn parse_initialize_mint_instruction(
    instruction: &StructuredInstruction,
    context: &TransactionContext,
) -> (result: Result<InitializeMintEvent, &'static str>)
    requires
        instruction_parsable(*instruction, *context),
    ensures
        match result {
            Ok(event) => parse_instruction_result(*instruction, *context) == Ok::<Option<EventView>, &'static str>(
                Some(EventView::InitializeMint(event.deep_view())),
            ),
            Err(message) => {
                &&& message == "Failed to parse initialize mint instruction."
                &&& !(parse_instruction_result(*instruction, *context) matches Ok(Some(EventView::InitializeMint(_))))
            },
        },
{
    match parse_instruction(instruction, context) {
        Ok(Some(Event::InitializeMint(event))) => Ok(event),
        _ => Err("Failed to parse initialize mint instruction."),
    }
}

/// The initialize account event that the instruction records; an error where it records another or none.
pub fn parse_initialize_account_instruction(
    instruction: &StructuredInstruction,
    context: &TransactionContext,
) -> (result: Result<InitializeAccountEvent, &'static str>)
    requires
        instruction_parsable(*instruction, *context),
    ensures
        match result {
            Ok(event) => parse_instruction_result(*instruction, *context) == Ok::<Option<EventView>, &'static str>(
                Some(EventView::InitializeAccount(event.deep_view())),
            ),
            Err(message) => {
                &&& message == "Failed to parse initialize account instruction."
                &&& !(parse_instruction_result(*instruction, *context) matches Ok(Some(EventView::InitializeAccount(_))))
            },
        },
{
    match parse_instruction(instruction, context) {
        Ok(Some(Event::InitializeAccount(event))) => Ok(event),
        _ => Err("Failed to parse initialize account instruction."),
    }
}

/// The initialize multisig event that the instruction records; an error where it records another or none.
pub fn parse_initialize_multisig_instruction(
    instruction: &StructuredInstruction,
    context: &TransactionContext,
) -> (result: Result<InitializeMultisigEvent, &'static str>)
    requires
        instruction_parsable(*instruction, *context),
    ensures
        match result {
            Ok(event) => parse_instruction_result(*instruction, *context) == Ok::<Option<EventView>, &'static str>(
                Some(EventView::InitializeMultisig(event.deep_view())),
            ),
            Err(message) => {
                &&& message == "Failed to parse initialize multisig instruction."
                &&& !(parse_instruction_result(*instruction, *context) matches Ok(Some(EventView::InitializeMultisig(_))))
            },
        },
{
    match parse_instruction(instruction, context) {
        Ok(Some(Event::InitializeMultisig(event))) => Ok(event),
        _ => Err("Failed to parse initialize multisig instruction."),
    }
}

/// The transfer event that the instruction records; an error where it records another or none.
pub fn parse_transfer_instruction(
    instruction: &StructuredInstruction,
    context: &TransactionContext,
) -> (result: Result<TransferEvent, &'static str>)
    requires
        instruction_parsable(*instruction, *context),
    ensures
        match result {
            Ok(event) => parse_instruction_result(*instruction, *context) == Ok::<Option<EventView>, &'static str>(
                Some(EventView::Transfer(event.deep_view())),
            ),
            Err(message) => {
                &&& message == "Failed to parse transfer instruction."
                &&& !(parse_instruction_result(*instruction, *context) matches Ok(Some(EventView::Transfer(_))))
            },
        },
{
    match parse_instruction(instruction, context) {
        Ok(Some(Event::Transfer(event))) => Ok(event),
        _ => Err("Failed to parse transfer instruction."),
    }
}

/// The approve event that the instruction records; an error where it records another or none.
pub fn parse_approve_instruction(
    instruction: &StructuredInstruction,
    context: &TransactionContext,
) -> (result: Result<ApproveEvent, &'static str>)
    requires
        instruction_parsable(*instruction, *context),
    ensures
        match result {
            Ok(event) => parse_instruction_result(*instruction, *context) == Ok::<Option<EventView>, &'static str>(
                Some(EventView::Approve(event.deep_view())),
            ),
            Err(message) => {
                &&& message == "Failed to parse approve instruction."
                &&& !(parse_instruction_result(*instruction, *context) matches Ok(Some(EventView::Approve(_))))
            },
        },
{
    match parse_instruction(instruction, context) {
        Ok(Some(Event::Approve(event))) => Ok(event),
        _ => Err("Failed to parse approve instruction."),
    }
}

/// The revoke event that the instruction records; an error where it records another or none.
pub fn parse_revoke_instruction(
    instruction: &StructuredInstruction,
    context: &TransactionContext,
) -> (result: Result<RevokeEvent, &'static str>)
    requires
        instruction_parsable(*instruction, *context),
    ensures
        match result {
            Ok(event) => parse_instruction_result(*instruction, *context) == Ok::<Option<EventView>, &'static str>(
                Some(EventView::Revoke(event.deep_view())),
            ),
            Err(message) => {
                &&& message == "Failed to parse revoke instruction."
                &&& !(parse_instruction_result(*instruction, *context) matches Ok(Some(EventView::Revoke(_))))
            },
        },
{
    match parse_instruction(instruction, context) {
        Ok(Some(Event::Revoke(event))) => Ok(event),
        _ => Err("Failed to parse revoke instruction."),
    }
}

/// The set authority event that the instruction records; an error where it records another or none.
pub fn parse_set_authority_instruction(
    instruction: &StructuredInstruction,
    context: &TransactionContext,
) -> (result: Result<SetAuthorityEvent, &'static str>)
    requires
        instruction_parsable(*instruction, *context),
    ensures
        match result {
            Ok(event) => parse_instruction_result(*instruction, *context) == Ok::<Option<EventView>, &'static str>(
                Some(EventView::SetAuthority(event.deep_view())),
            ),
            Err(message) => {
                &&& message == "Failed to parse set authority instruction."
                &&& !(parse_instruction_result(*instruction, *context) matches Ok(Some(EventView::SetAuthority(_))))
            },
        },
{
    match parse_instruction(instruction, context) {
        Ok(Some(Event::SetAuthority(event))) => Ok(event),
        _ => Err("Failed to parse set authority instruction."),
    }
}

/// The mint to event that the instruction records; an error where it records another or none.
pub fn parse_mint_to_instruction(
    instruction: &StructuredInstruction,
    context: &TransactionContext,
) -> (result: Result<MintToEvent, &'static str>)
    requires
        instruction_parsable(*instruction, *context),
    ensures
        match result {
            Ok(event) => parse_instruction_result(*instruction, *context) == Ok::<Option<EventView>, &'static str>(
                Some(EventView::MintTo(event.deep_view())),
            ),
            Err(message) => {
                &&& message == "Failed to parse mint to instruction."
                &&& !(parse_instruction_result(*instruction, *context) matches Ok(Some(EventView::MintTo(_))))
            },
        },
{
    match parse_instruction(instruction, context) {
        Ok(Some(Event::MintTo(event))) => Ok(event),
        _ => Err("Failed to parse mint to instruction."),
    }
}

/// The burn event that the instruction records; an error where it records another or none.
pub fn parse_burn_instruction(
    instruction: &StructuredInstruction,
    context: &TransactionContext,
) -> (result: Result<BurnEvent, &'static str>)
    requires
        instruction_parsable(*instruction, *context),
    ensures
        match result {
            Ok(event) => parse_instruction_result(*instruction, *context) == Ok::<Option<EventView>, &'static str>(
                Some(EventView::Burn(event.deep_view())),
            ),
            Err(message) => {
                &&& message == "Failed to parse burn instruction."
                &&& !(parse_instruction_result(*instruction, *context) matches Ok(Some(EventView::Burn(_))))
            },
        },
{
    match parse_instruction(instruction, context) {
        Ok(Some(Event::Burn(event))) => Ok(event),
        _ => Err("Failed to parse burn instruction."),
    }
}

/// The close account event that the instruction records; an error where it records another or none.
pub fn parse_close_account_instruction(
    instruction: &StructuredInstruction,
    context: &TransactionContext,
) -> (result: Result<CloseAccountEvent, &'static str>)
    requires
        instruction_parsable(*instruction, *context),
    ensures
        match result {
            Ok(event) => parse_instruction_result(*instruction, *context) == Ok::<Option<EventView>, &'static str>(
                Some(EventView::CloseAccount(event.deep_view())),
            ),
            Err(message) => {
                &&& message == "Failed to parse close account instruction."
                &&& !(parse_instruction_result(*instruction, *context) matches Ok(Some(EventView::CloseAccount(_))))
            },
        },
{
    match parse_instruction(instruction, context) {
        Ok(Some(Event::CloseAccount(event))) => Ok(event),
        _ => Err("Failed to parse close account instruction."),
    }
}

/// The freeze account event that the instruction records; an error where it records another or none.
pub fn parse_freeze_account_instruction(
    instruction: &StructuredInstruction,
    context: &TransactionContext,
) -> (result: Result<FreezeAccountEvent, &'static str>)
    requires
        instruction_parsable(*instruction, *context),
    ensures
        match result {
            Ok(event) => parse_instruction_result(*instruction, *context) == Ok::<Option<EventView>, &'static str>(
                Some(EventView::FreezeAccount(event.deep_view())),
            ),
            Err(message) => {
                &&& message == "Failed to parse freeze account instruction."
                &&& !(parse_instruction_result(*instruction, *context) matches Ok(Some(EventView::FreezeAccount(_))))
            },
        },
{
    match parse_instruction(instruction, context) {
        Ok(Some(Event::FreezeAccount(event))) => Ok(event),
        _ => Err("Failed to parse freeze account instruction."),
    }
}

/// The thaw account event that the instruction records; an error where it records another or none.
pub fn parse_thaw_account_instruction(
    instruction: &StructuredInstruction,
    context: &TransactionContext,
) -> (result: Result<ThawAccountEvent, &'static str>)
    requires
        instruction_parsable(*instruction, *context),
    ensures
        match result {
            Ok(event) => parse_instruction_result(*instruction, *context) == Ok::<Option<EventView>, &'static str>(
                Some(EventView::ThawAccount(event.deep_view())),
            ),
            Err(message) => {
                &&& message == "Failed to parse thaw account instruction."
                &&& !(parse_instruction_result(*instruction, *context) matches Ok(Some(EventView::ThawAccount(_))))
            },
        },
{
    match parse_instruction(instruction, context) {
        Ok(Some(Event::ThawAccount(event))) => Ok(event),
        _ => Err("Failed to parse thaw account instruction."),
    }
}

/// The initialize immutable owner event that the instruction records; an error where it records another or none.
pub fn parse_initialize_immutable_owner_instruction(
    instruction: &StructuredInstruction,
    context: &TransactionContext,
) -> (result: Result<InitializeImmutableOwnerEvent, &'static str>)
    requires
        instruction_parsable(*instruction, *context),
    ensures
        match result {
            Ok(event) => parse_instruction_result(*instruction, *context) == Ok::<Option<EventView>, &'static str>(
                Some(EventView::InitializeImmutableOwner(event.deep_view())),
            ),
            Err(message) => {
                &&& message == "Failed to parse initialize immutable owner instruction."
                &&& !(parse_instruction_result(*instruction, *context) matches Ok(Some(EventView::InitializeImmutableOwner(_))))
            },
        },
{
    match parse_instruction(instruction, context) {
        Ok(Some(Event::InitializeImmutableOwner(event))) => Ok(event),
        _ => Err("Failed to parse initialize immutable owner instruction."),
    }
}

fn check_names_account(context: &TransactionContext, accounts: &Vec<u8>, k: usize) -> (b: bool)
    ensures
        b == names_account(*context, accounts@, k as int),
{
    k < accounts.len() && (accounts[k] as usize) < context.accounts.len()
}

fn check_names_token_account(context: &TransactionContext, accounts: &Vec<u8>, k: usize) -> (b: bool)
    ensures
        b == names_token_account(*context, accounts@, k as int),
{
    if k < accounts.len() {
        let index = accounts[k] as usize;
        index < context.token_accounts.len() && context.token_accounts[index].is_some()
    } else {
        false
    }
}

fn check_multisig_accounts_named(context: &TransactionContext, accounts: &Vec<u8>, first_signer: usize) -> (b: bool)
    ensures
        b == multisig_accounts_named(*context, accounts@, first_signer as int),
{
    if first_signer > accounts.len() || !check_names_account(context, accounts, 0) {
        return false;
    }
    let mut j: usize = first_signer;
    while j < accounts.len()
        invariant
            first_signer <= j <= accounts@.len(),
            forall|i: int| first_signer <= i < j ==> #[trigger] names_account(*context, accounts@, i),
        decreases accounts@.len() - j,
    {
        if !check_names_account(context, accounts, j) {
            return false;
        }
        j = j + 1;
    }
    true
}

/// Whether every account that the event of the instruction reads is there.
pub fn check_accounts_available(
    instruction: &TokenInstruction,
    context: &TransactionContext,
    accounts: &Vec<u8>,
) -> (b: bool)
    ensures
        b == accounts_available(*instruction, *context, accounts@),
{
    match instruction {
        TokenInstruction::InitializeMint { .. } | TokenInstruction::InitializeMint2 { .. } =>
            check_names_account(context, accounts, 0),
        TokenInstruction::InitializeAccount
        | TokenInstruction::InitializeAccount2 { .. }
        | TokenInstruction::InitializeAccount3 { .. }
        | TokenInstruction::Revoke
        | TokenInstruction::InitializeImmutableOwner => check_names_token_account(context, accounts, 0),
        TokenInstruction::InitializeMultisig { .. } => check_multisig_accounts_named(context, accounts, 2),
        TokenInstruction::InitializeMultisig2 { .. } => check_multisig_accounts_named(context, accounts, 1),
        TokenInstruction::Transfer { .. } => check_names_token_account(context, accounts, 0)
            && check_names_token_account(context, accounts, 1) && check_names_account(context, accounts, 2),
        TokenInstruction::TransferChecked { .. } => check_names_token_account(context, accounts, 0)
            && check_names_token_account(context, accounts, 2) && check_names_account(context, accounts, 3),
        TokenInstruction::Approve { .. } => check_names_token_account(context, accounts, 0)
            && check_names_account(context, accounts, 1),
        TokenInstruction::ApproveChecked { .. } => check_names_token_account(context, accounts, 0)
            && check_names_account(context, accounts, 2),
        TokenInstruction::SetAuthority { .. } => check_names_account(context, accounts, 0)
            && check_names_account(context, accounts, 1),
        TokenInstruction::MintTo { .. } | TokenInstruction::MintToChecked { .. } =>
            check_names_account(context, accounts, 0) && check_names_token_account(context, accounts, 1)
                && check_names_account(context, accounts, 2),
        TokenInstruction::Burn { .. } | TokenInstruction::BurnChecked { .. } =>
            check_names_token_account(context, accounts, 0) && check_names_account(context, accounts, 1)
                && check_names_account(context, accounts, 2),
        TokenInstruction::CloseAccount
        | TokenInstruction::FreezeAccount
        | TokenInstruction::ThawAccount => check_names_token_account(context, accounts, 0)
            && check_names_account(context, accounts, 1),
        TokenInstruction::SyncNative
        | TokenInstruction::GetAccountDataSize
        | TokenInstruction::AmountToUiAmount { .. }
        | TokenInstruction::UiAmountToAmount { .. } => true,
    }
}

/// Whether `parse_instruction` reads only accounts that are there.
pub fn check_instruction_parsable(instruction: &StructuredInstruction, context: &TransactionContext) -> (b: bool)
    ensures
        b == instruction_parsable(*instruction, *context),
{
    if (instruction.program_id_index as usize) >= context.accounts.len() {
        return false;
    }
    if !is_token_program_account(context, instruction.program_id_index as usize) {
        return true;
    }
    match &instruction.token_instruction {
        Some(t) => check_accounts_available(t, context, &instruction.accounts),
        None => true,
    }
}

/// `parse_instruction` where it reads only accounts that are there; `None` elsewhere.
pub fn try_parse_instruction(
    instruction: &StructuredInstruction,
    context: &TransactionContext,
) -> (result: Option<Result<Option<Event>, &'static str>>)
    ensures
        match result {
            Some(r) => instruction_parsable(*instruction, *context) && event_result_view(r)
                == parse_instruction_result(*instruction, *context),
            None => !instruction_parsable(*instruction, *context),
        },
{
    if check_instruction_parsable(instruction, context) {
        Some(parse_instruction(instruction, context))
    } else {
        None
    }
}

} // verus!
