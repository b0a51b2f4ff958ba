//! What the library reads of a block: its transactions, their accounts and their
//! instructions, with each instruction's data as the token program decodes it.
use vstd::prelude::*;

verus! {

/// An account address: 32 bytes.
pub type Pubkey = [u8; 32];

/// The kind of authority named by a `SetAuthority` instruction's data.
#[derive(Clone, Copy, Debug, PartialEq, Eq, Structural)]
pub enum TokenAuthorityType {
    MintTokens,
    FreezeAccount,
    AccountOwner,
    CloseAccount,
}

/// The data of a token program instruction, decoded.
#[derive(Clone, Debug, PartialEq, Eq)]
pub enum TokenInstruction {
    InitializeMint { decimals: u8, mint_authority: Pubkey, freeze_authority: Option<Pubkey> },
    InitializeAccount,
    InitializeMultisig { m: u8 },
    Transfer { amount: u64 },
    Approve { amount: u64 },
    Revoke,
    SetAuthority { authority_type: TokenAuthorityType, new_authority: Option<Pubkey> },
    MintTo { amount: u64 },
    Burn { amount: u64 },
    CloseAccount,
    FreezeAccount,
    ThawAccount,
    TransferChecked { amount: u64, decimals: u8 },
    ApproveChecked { amount: u64, decimals: u8 },
    MintToChecked { amount: u64, decimals: u8 },
    BurnChecked { amount: u64, decimals: u8 },
    InitializeAccount2 { owner: Pubkey },
    SyncNative,
    InitializeAccount3 { owner: Pubkey },
    InitializeMultisig2 { m: u8 },
    InitializeMint2 { decimals: u8, mint_authority: Pubkey, freeze_authority: Option<Pubkey> },
    GetAccountDataSize,
    InitializeImmutableOwner,
    AmountToUiAmount { amount: u64 },
    UiAmountToAmount { ui_amount: String },
}

/// The addresses that describe a token account: its own, its owner's and its mint's.
#[derive(Clone, Debug, PartialEq, Eq)]
pub struct TokenAccountKeys {
    pub address: Vec<u8>,
    pub owner: Vec<u8>,
    pub mint: Vec<u8>,
}

/// The accounts of a transaction, by index: every account's address, and for each
/// account that is a token account, what describes it.
#[derive(Clone, Debug, PartialEq, Eq)]
pub struct TransactionContext {
    pub accounts: Vec<Vec<u8>>,
    pub token_accounts: Vec<Option<TokenAccountKeys>>,
}

impl TransactionContext {
    /// There is an account at `index`.
    pub open spec fn has_account(&self, index: int) -> bool {
        0 <= index < self.accounts@.len()
    }

    /// There is a token account at `index`.
    pub open spec fn has_token_account(&self, index: int) -> bool {
        &&& 0 <= index < self.token_accounts@.len()
        &&& self.token_accounts@[index] is Some
    }

    /// The address of the account at `index`.
    pub fn get_account_from_index(&self, index: usize) -> (address: &Vec<u8>)
        requires
            self.has_account(index as int),
        ensures
            *address == self.accounts@[index as int],
    {
        &self.accounts[index]
    }

    /// The token account at `index`.
    pub fn get_token_account_from_index(&self, index: usize) -> (account: &TokenAccountKeys)
        requires
            self.has_token_account(index as int),
        ensures
            self.token_accounts@[index as int] == Some(*account),
    {
        self.token_accounts[index].as_ref().unwrap()
    }
}

/// One instruction of a transaction: the index of its program's account, the indices of
/// the accounts it names, and its data as the token program decodes it (`None` where the
/// data is not a token program instruction).
#[derive(Clone, Debug, PartialEq, Eq)]
pub struct StructuredInstruction {
    pub program_id_index: u32,
    pub accounts: Vec<u8>,
    pub token_instruction: Option<TokenInstruction>,
}

/// The outcome of a transaction: `err` holds the error of one that failed.
#[derive(Clone, Debug, PartialEq, Eq)]
pub struct TransactionStatusMeta {
    pub err: Option<Vec<u8>>,
}

/// A transaction of a block: its first signature, its outcome, its accounts, and all its
/// instructions, inner ones included, in execution order.
#[derive(Clone, Debug, PartialEq, Eq)]
pub struct ConfirmedTransaction {
    pub signature: Vec<u8>,
    pub meta: Option<TransactionStatusMeta>,
    pub context: TransactionContext,
    pub instructions: Vec<StructuredInstruction>,
}

/// A block: its slot and its successful transactions, in order.
#[derive(Clone, Debug, PartialEq, Eq)]
pub struct Block {
    pub slot: u64,
    pub transactions: Vec<ConfirmedTransaction>,
}

} // verus!
