//! The token program events that the library emits, and their mathematical views.
//!
//! Every record is a plain value; its `deep_view` replaces each `String` by its
//! characters, each `Vec` by a `Seq` and each nested record by its own view.
use vstd::prelude::*;

verus! {

/// A token account: its own address, the wallet that owns it and its mint, each in base58.
#[derive(Clone, Debug, PartialEq, Eq)]
pub struct TokenAccount {
    pub address: String,
    pub owner: String,
    pub mint: String,
}

pub struct TokenAccountView {
    pub address: Seq<char>,
    pub owner: Seq<char>,
    pub mint: Seq<char>,
}

impl DeepView for TokenAccount {
    type V = TokenAccountView;

    open spec fn deep_view(&self) -> TokenAccountView {
        TokenAccountView { address: self.address@, owner: self.owner@, mint: self.mint@ }
    }
}

/// The kind of authority that a `SetAuthority` instruction changes.
#[derive(Clone, Copy, Debug, PartialEq, Eq, Structural)]
pub enum AuthorityType {
    MintTokens,
    FreezeAccount,
    AccountOwner,
    CloseAccount,
}

/// The number under which an authority type is stored in an event.
pub open spec fn authority_type_number(t: AuthorityType) -> i32 {
    match t {
        AuthorityType::MintTokens => 0,
        AuthorityType::FreezeAccount => 1,
        AuthorityType::AccountOwner => 2,
        AuthorityType::CloseAccount => 3,
    }
}

/// The authority type stored under a number, if any.
pub open spec fn authority_type_of_number(n: i32) -> Option<AuthorityType> {
    if n == 0 {
        Some(AuthorityType::MintTokens)
    } else if n == 1 {
        Some(AuthorityType::FreezeAccount)
    } else if n == 2 {
        Some(AuthorityType::AccountOwner)
    } else if n == 3 {
        Some(AuthorityType::CloseAccount)
    } else {
        None
    }
}

/// The name of an authority type, as a database row records it.
pub open spec fn authority_type_name(t: AuthorityType) -> Seq<char> {
    match t {
        AuthorityType::MintTokens => "MINT_TOKENS"@,
        AuthorityType::FreezeAccount => "FREEZE_ACCOUNT"@,
        AuthorityType::AccountOwner => "ACCOUNT_OWNER"@,
        AuthorityType::CloseAccount => "CLOSE_ACCOUNT"@,
    }
}

impl AuthorityType {
    pub fn as_i32(self) -> (n: i32)
        ensures
            n == authority_type_number(self),
    {
        match self {
            AuthorityType::MintTokens => 0,
            AuthorityType::FreezeAccount => 1,
            AuthorityType::AccountOwner => 2,
            AuthorityType::CloseAccount => 3,
        }
    }

    pub fn from_i32(n: i32) -> (t: Option<AuthorityType>)
        ensures
            t == authority_type_of_number(n),
    {
        if n == 0 {
            Some(AuthorityType::MintTokens)
        } else if n == 1 {
            Some(AuthorityType::FreezeAccount)
        } else if n == 2 {
            Some(AuthorityType::AccountOwner)
        } else if n == 3 {
            Some(AuthorityType::CloseAccount)
        } else {
            None
        }
    }

    pub fn as_str_name(&self) -> (name: &'static str)
        ensures
            name@ == authority_type_name(*self),
    {
        proof {
            reveal_strlit("MINT_TOKENS");
            reveal_strlit("FREEZE_ACCOUNT");
            reveal_strlit("ACCOUNT_OWNER");
            reveal_strlit("CLOSE_ACCOUNT");
        }
        match self {
            AuthorityType::MintTokens => "MINT_TOKENS",
            AuthorityType::FreezeAccount => "FREEZE_ACCOUNT",
            AuthorityType::AccountOwner => "ACCOUNT_OWNER",
            AuthorityType::CloseAccount => "CLOSE_ACCOUNT",
        }
    }
}

#[derive(Clone, Debug, PartialEq, Eq)]
pub struct InitializeMintEvent {
    pub mint: String,
    pub decimals: u32,
    pub mint_authority: String,
    pub freeze_authority: Option<String>,
}

pub struct InitializeMintView {
    pub mint: Seq<char>,
    pub decimals: u32,
    pub mint_authority: Seq<char>,
    pub freeze_authority: Option<Seq<char>>,
}

impl DeepView for InitializeMintEvent {
    type V = InitializeMintView;

    open spec fn deep_view(&self) -> InitializeMintView {
        InitializeMintView {
            mint: self.mint@,
            decimals: self.decimals,
            mint_authority: self.mint_authority@,
            freeze_authority: self.freeze_authority.deep_view(),
        }
    }
}

#[derive(Clone, Debug, PartialEq, Eq)]
pub struct InitializeAccountEvent {
    pub account: Option<TokenAccount>,
}

pub struct InitializeAccountView {
    pub account: Option<TokenAccountView>,
}

impl DeepView for InitializeAccountEvent {
    type V = InitializeAccountView;

    open spec fn deep_view(&self) -> InitializeAccountView {
        InitializeAccountView { account: self.account.deep_view() }
    }
}

#[derive(Clone, Debug, PartialEq, Eq)]
pub struct InitializeMultisigEvent {
    pub multisig: String,
    pub signers: Vec<String>,
    pub m: u32,
}

pub struct InitializeMultisigView {
    pub multisig: Seq<char>,
    pub signers: Seq<Seq<char>>,
    pub m: u32,
}

impl DeepView for InitializeMultisigEvent {
    type V = InitializeMultisigView;

    open spec fn deep_view(&self) -> InitializeMultisigView {
        InitializeMultisigView {
            multisig: self.multisig@,
            signers: self.signers.deep_view(),
            m: self.m,
        }
    }
}

#[derive(Clone, Debug, PartialEq, Eq)]
pub struct TransferEvent {
    pub source: Option<TokenAccount>,
    pub destination: Option<TokenAccount>,
    pub amount: u64,
    pub authority: String,
}

pub struct TransferView {
    pub source: Option<TokenAccountView>,
    pub destination: Option<TokenAccountView>,
    pub amount: u64,
    pub authority: Seq<char>,
}

impl DeepView for TransferEvent {
    type V = TransferView;

    open spec fn deep_view(&self) -> TransferView {
        TransferView {
            source: self.source.deep_view(),
            destination: self.destination.deep_view(),
            amount: self.amount,
            authority: self.authority@,
        }
    }
}

#[derive(Clone, Debug, PartialEq, Eq)]
pub struct ApproveEvent {
    pub source: Option<TokenAccount>,
    pub delegate: String,
    pub amount: u64,
}

pub struct ApproveView {
    pub source: Option<TokenAccountView>,
    pub delegate: Seq<char>,
    pub amount: u64,
}

impl DeepView for ApproveEvent {
    type V = ApproveView;

    open spec fn deep_view(&self) -> ApproveView {
        ApproveView {
            source: self.source.deep_view(),
            delegate: self.delegate@,
            amount: self.amount,
        }
    }
}

#[derive(Clone, Debug, PartialEq, Eq)]
pub struct RevokeEvent {
    pub source: Option<TokenAccount>,
}

pub struct RevokeView {
    pub source: Option<TokenAccountView>,
}

impl DeepView for RevokeEvent {
    type V = RevokeView;

    open spec fn deep_view(&self) -> RevokeView {
        RevokeView { source: self.source.deep_view() }
    }
}

#[derive(Clone, Debug, PartialEq, Eq)]
pub struct SetAuthorityEvent {
    pub mint: String,
    pub authority: String,
    pub authority_type: i32,
    pub new_authority: Option<String>,
}

pub struct SetAuthorityView {
    pub mint: Seq<char>,
    pub authority: Seq<char>,
    pub authority_type: i32,
    pub new_authority: Option<Seq<char>>,
}

impl DeepView for SetAuthorityEvent {
    type V = SetAuthorityView;

    open spec fn deep_view(&self) -> SetAuthorityView {
        SetAuthorityView {
            mint: self.mint@,
            authority: self.authority@,
            authority_type: self.authority_type,
            new_authority: self.new_authority.deep_view(),
        }
    }
}

#[derive(Clone, Debug, PartialEq, Eq)]
pub struct MintToEvent {
    pub mint: String,
    pub destination: Option<TokenAccount>,
    pub mint_authority: String,
    pub amount: u64,
}

pub struct MintToView {
    pub mint: Seq<char>,
    pub destination: Option<TokenAccountView>,
    pub mint_authority: Seq<char>,
    pub amount: u64,
}

impl DeepView for MintToEvent {
    type V = MintToView;

    open spec fn deep_view(&self) -> MintToView {
        MintToView {
            mint: self.mint@,
            destination: self.destination.deep_view(),
            mint_authority: self.mint_authority@,
            amount: self.amount,
        }
    }
}

#[derive(Clone, Debug, PartialEq, Eq)]
pub struct BurnEvent {
    pub source: Option<TokenAccount>,
    pub authority: String,
    pub amount: u64,
}

pub struct BurnView {
    pub source: Option<TokenAccountView>,
    pub authority: Seq<char>,
    pub amount: u64,
}

impl DeepView for BurnEvent {
    type V = BurnView;

    open spec fn deep_view(&self) -> BurnView {
        BurnView { source: self.source.deep_view(), authority: self.authority@, amount: self.amount }
    }
}

#[derive(Clone, Debug, PartialEq, Eq)]
pub struct CloseAccountEvent {
    pub source: Option<TokenAccount>,
    pub destination: String,
}

pub struct CloseAccountView {
    pub source: Option<TokenAccountView>,
    pub destination: Seq<char>,
}

impl DeepView for CloseAccountEvent {
    type V = CloseAccountView;

    open spec fn deep_view(&self) -> CloseAccountView {
        CloseAccountView { source: self.source.deep_view(), destination: self.destination@ }
    }
}

#[derive(Clone, Debug, PartialEq, Eq)]
pub struct FreezeAccountEvent {
    pub source: Option<TokenAccount>,
    pub freeze_authority: String,
}

pub struct FreezeAccountView {
    pub source: Option<TokenAccountView>,
    pub freeze_authority: Seq<char>,
}

impl DeepView for FreezeAccountEvent {
    type V = FreezeAccountView;

    open spec fn deep_view(&self) -> FreezeAccountView {
        FreezeAccountView { source: self.source.deep_view(), freeze_authority: self.freeze_authority@ }
    }
}

#[derive(Clone, Debug, PartialEq, Eq)]
pub struct ThawAccountEvent {
    pub source: Option<TokenAccount>,
    pub freeze_authority: String,
}

pub struct ThawAccountView {
    pub source: Option<TokenAccountView>,
    pub freeze_authority: Seq<char>,
}

impl DeepView for ThawAccountEvent {
    type V = ThawAccountView;

    open spec fn deep_view(&self) -> ThawAccountView {
        ThawAccountView { source: self.source.deep_view(), freeze_authority: self.freeze_authority@ }
    }
}

#[derive(Clone, Debug, PartialEq, Eq)]
pub struct InitializeImmutableOwnerEvent {
    pub account: Option<TokenAccount>,
}

pub struct InitializeImmutableOwnerView {
    pub account: Option<TokenAccountView>,
}

impl DeepView for InitializeImmutableOwnerEvent {
    type V = InitializeImmutableOwnerView;

    open spec fn deep_view(&self) -> InitializeImmutableOwnerView {
        InitializeImmutableOwnerView { account: self.account.deep_view() }
    }
}

/// One event of the token program.
#[derive(Clone, Debug, PartialEq, Eq)]
pub enum Event {
    InitializeMint(InitializeMintEvent),
    InitializeAccount(InitializeAccountEvent),
    InitializeMultisig(InitializeMultisigEvent),
    Transfer(TransferEvent),
    Approve(ApproveEvent),
    Revoke(RevokeEvent),
    SetAuthority(SetAuthorityEvent),
    MintTo(MintToEvent),
    Burn(BurnEvent),
    CloseAccount(CloseAccountEvent),
    FreezeAccount(FreezeAccountEvent),
    ThawAccount(ThawAccountEvent),
    InitializeImmutableOwner(InitializeImmutableOwnerEvent),
}

pub enum EventView {
    InitializeMint(InitializeMintView),
    InitializeAccount(InitializeAccountView),
    InitializeMultisig(InitializeMultisigView),
    Transfer(TransferView),
    Approve(ApproveView),
    Revoke(RevokeView),
    SetAuthority(SetAuthorityView),
    MintTo(MintToView),
    Burn(BurnView),
    CloseAccount(CloseAccountView),
    FreezeAccount(FreezeAccountView),
    ThawAccount(ThawAccountView),
    InitializeImmutableOwner(InitializeImmutableOwnerView),
}

impl DeepView for Event {
    type V = EventView;

    open spec fn deep_view(&self) -> EventView {
        match self {
            Event::InitializeMint(e) => EventView::InitializeMint(e.deep_view()),
            Event::InitializeAccount(e) => EventView::InitializeAccount(e.deep_view()),
            Event::InitializeMultisig(e) => EventView::InitializeMultisig(e.deep_view()),
            Event::Transfer(e) => EventView::Transfer(e.deep_view()),
            Event::Approve(e) => EventView::Approve(e.deep_view()),
            Event::Revoke(e) => EventView::Revoke(e.deep_view()),
            Event::SetAuthority(e) => EventView::SetAuthority(e.deep_view()),
            Event::MintTo(e) => EventView::MintTo(e.deep_view()),
            Event::Burn(e) => EventView::Burn(e.deep_view()),
            Event::CloseAccount(e) => EventView::CloseAccount(e.deep_view()),
            Event::FreezeAccount(e) => EventView::FreezeAccount(e.deep_view()),
            Event::ThawAccount(e) => EventView::ThawAccount(e.deep_view()),
            Event::InitializeImmutableOwner(e) => EventView::InitializeImmutableOwner(e.deep_view()),
        }
    }
}

/// An event together with the position of its instruction among the transaction's
/// instructions, inner instructions included, in execution order.
#[derive(Clone, Debug, PartialEq, Eq)]
pub struct SplTokenEvent {
    pub instruction_index: u32,
    pub event: Option<Event>,
}

pub struct SplTokenEventView {
    pub instruction_index: u32,
    pub event: Option<EventView>,
}

impl DeepView for SplTokenEvent {
    type V = SplTokenEventView;

    open spec fn deep_view(&self) -> SplTokenEventView {
        SplTokenEventView { instruction_index: self.instruction_index, event: self.event.deep_view() }
    }
}

/// The events of one transaction, with its signature in base58 and its position in the block.
#[derive(Clone, Debug, PartialEq, Eq)]
pub struct SplTokenTransactionEvents {
    pub signature: String,
    pub transaction_index: u32,
    pub events: Vec<SplTokenEvent>,
}

pub struct SplTokenTransactionEventsView {
    pub signature: Seq<char>,
    pub transaction_index: u32,
    pub events: Seq<SplTokenEventView>,
}

impl DeepView for SplTokenTransactionEvents {
    type V = SplTokenTransactionEventsView;

    open spec fn deep_view(&self) -> SplTokenTransactionEventsView {
        SplTokenTransactionEventsView {
            signature: self.signature@,
            transaction_index: self.transaction_index,
            events: self.events.deep_view(),
        }
    }
}

/// The events of a block, one entry per transaction that has any.
#[derive(Clone, Debug, PartialEq, Eq)]
pub struct SplTokenBlockEvents {
    pub transactions: Vec<SplTokenTransactionEvents>,
}

impl DeepView for SplTokenBlockEvents {
    type V = Seq<SplTokenTransactionEventsView>;

    open spec fn deep_view(&self) -> Seq<SplTokenTransactionEventsView> {
        self.transactions.deep_view()
    }
}

} // verus!
