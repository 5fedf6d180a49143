//! Afloat: the entry points of the tax-credit marketplace.
//!
//! Each call checks its origin and its caller's rights, then runs a sequence
//! of steps on the afloat, fruniques, marketplace and assets pallets. What the
//! caller's rights are is read from those pallets and handed in; the steps to
//! run are handed back, in order, and `run_steps` says how a call ends from the
//! outcomes of its steps: at the first failing one. The storage items that a
//! wipe touches are held in `AfloatStorage`, and `kill_storage` changes them.

use crate::common::{ensure_root, ensure_signed, run_in_order, steps_end, AccountId, Id, Origin};
use crate::fruniques::{FruniqueRole, ParentInfo};
use vstd::prelude::*;

verus! {

/// Balances of the assets pallet.
pub type Balance = u128;

/// Keys of offers and transactions.
pub type StorageId = Id;

/// Roles of the afloat marketplace.
#[derive(Clone, Copy, Debug, PartialEq, Eq, Structural)]
pub enum AfloatRole {
    Owner,
    Admin,
    BuyerOrSeller,
    CPA,
}

/// The profile given when signing up.
#[derive(Clone, Debug, PartialEq, Eq)]
pub enum SignUpArgs {
    BuyerOrSeller { cid: Vec<u8>, cid_creator: Vec<u8>, group: Vec<u8> },
    CPA { cid: Vec<u8>, cid_creator: Vec<u8>, group: Vec<u8> },
}

/// A change of a user's profile.
#[derive(Clone, Debug, PartialEq, Eq)]
pub enum UpdateUserArgs {
    Edit { cid: Vec<u8>, cid_creator: Vec<u8> },
    AdminEdit { cid: Vec<u8>, cid_creator: Vec<u8>, group: Vec<u8> },
    Delete,
}

/// A new sell or buy offer of tax credits.
#[derive(Clone, Copy, Debug, PartialEq, Eq, Structural)]
pub enum CreateOfferArgs {
    Sell { tax_credit_amount: Balance, tax_credit_id: u32, price_per_credit: Balance, expiration_date: u64 },
    Buy { tax_credit_amount: Balance, tax_credit_id: u32, price_per_credit: Balance, expiration_date: u64 },
}

/// The storage items a wipe removes.
#[derive(Clone, Copy, Debug, PartialEq, Eq, Structural)]
pub enum KillStorageArgs {
    All,
    UserInfo,
    AfloatMarketPlaceId,
    AfloatCollectionId,
    AfloatAssetId,
    AfloatOffers,
    AfloatTransactions,
}

/// What the setup call sets up; `A` describes the afloat asset.
#[derive(Clone, Debug, PartialEq, Eq)]
pub enum InitialSetupArgs<A> {
    All { creator: AccountId, admin: AccountId, asset: A },
    Roles { creator: AccountId, admin: AccountId },
    AddAfloatRole { who: AccountId, role: AfloatRole },
    AddFruniqueRole { who: AccountId, role: FruniqueRole },
}

/// Events of the pallet.
#[derive(Clone, Copy, Debug, PartialEq, Eq)]
pub enum Event {
    TimestampError,
    NewUser(AccountId),
    UserEdited(AccountId),
    UserDeleted(AccountId),
    SellOrderCreated(AccountId),
    BuyOrderCreated(AccountId),
    SellOrderTaken(AccountId),
    BuyOrderTaken(AccountId),
    AfloatBalanceSet(AccountId, AccountId, Balance),
    AdminAdded(AccountId, AccountId),
    UserAssignedToRoleAdded(AccountId, AccountId, AfloatRole),
}

/// Errors of the pallet.
#[derive(Clone, Copy, Debug, PartialEq, Eq, Structural)]
pub enum Error {
    NoneValue,
    StorageOverflow,
    MarketplaceNotInitialized,
    MarketPlaceIdNotFound,
    AssetNotFound,
    CollectionIdNotFound,
    UserNotFound,
    UserAlreadyExists,
    FailedToEditUserAccount,
    FailedToCreateFruniquesCollection,
    FailedToRemoveFruniquesRole,
    Unauthorized,
    NotInitialized,
    FailedToRemoveAfloatRole,
    MaxTransactionsReached,
    OfferNotFound,
    WrongOfferType,
    OfferExpired,
    OfferCancelled,
    OfferTaken,
    TransactionNotFound,
    TransactionExpired,
    TransactionCancelled,
    TransactionNotConfirmed,
    TransactionAlreadyConfirmedByBuyer,
    TransactionAlreadyConfirmedBySeller,
    TransactionNotConfirmedByBuyer,
    NotEnoughTaxCreditsAvailable,
    NotEnoughAfloatBalanceAvailable,
    TaxCreditAmountOverflow,
    ChildOfferIdNotFound,
    Underflow,
    ArithmeticOverflow,
    LabelTooLong,
    AfloatAssetNotSet,
    /// The call does not come from the required origin
    BadOrigin,
}

/// The number of entries a wipe removes from a map at a time.
pub const CLEAR_LIMIT: u32 = 1000;

/// A step of a call, run in order; a failing step fails the whole call.
#[derive(Debug, PartialEq, Eq)]
pub enum AfloatStep<A> {
    FruniquesInitialSetup,
    MarketplaceInitialSetup,
    CreateAfloatFrunique { creator: AccountId, admin: AccountId },
    AddAccountToAfloatFrunique { who: AccountId, role: FruniqueRole },
    CreateAfloatAsset { creator: AccountId, asset: A },
    CreateAfloatMarketplace { creator: AccountId, admin: AccountId },
    SetupRoles { creator: AccountId, admin: AccountId },
    GiveRoleToUser { who: AccountId, role: AfloatRole },
    CreateUser { creator: AccountId, who: AccountId, args: SignUpArgs },
    EditUser { who: AccountId, address: AccountId, cid: Vec<u8>, cid_creator: Vec<u8> },
    AdminEditUser { who: AccountId, address: AccountId, cid: Vec<u8>, cid_creator: Vec<u8>, group: Vec<u8> },
    DeleteUser { who: AccountId, address: AccountId },
    CreateSellOrder {
        who: AccountId,
        tax_credit_id: u32,
        price_per_credit: Balance,
        tax_credit_amount: Balance,
        expiration_date: u64,
    },
    CreateBuyOrder {
        who: AccountId,
        tax_credit_id: u32,
        price_per_credit: Balance,
        tax_credit_amount: Balance,
        expiration_date: u64,
    },
    StartTakeSellOrder { who: AccountId, offer_id: StorageId, tax_credit_amount: Balance },
    ConfirmSellTransaction { who: AccountId, transaction_id: StorageId },
    FinishTakeSellTransaction { who: AccountId, transaction_id: StorageId },
    CreateTaxCredit {
        who: AccountId,
        metadata: Vec<u8>,
        attributes: Option<Vec<(Vec<u8>, Vec<u8>)>>,
        parent_info: Option<ParentInfo>,
    },
    SetAfloatBalance { who: AccountId, beneficiary: AccountId, amount: Balance },
    AddAfloatAdmin { who: AccountId, admin: AccountId },
    CancelOffer { who: AccountId, order_id: StorageId },
    DepositEvent(Event),
}

/// The result of a call: its steps, or the error that stops it.
pub type CallResult<A> = Result<Vec<AfloatStep<A>>, Error>;

/// Sets up the marketplace; only the root origin may.
pub fn initial_setup<A>(origin: Origin, args: InitialSetupArgs<A>) -> (r: CallResult<A>)
    ensures
        origin != Origin::Root ==> r == Err::<Vec<AfloatStep<A>>, Error>(Error::BadOrigin),
        origin == Origin::Root ==> r.is_ok() && r.unwrap()@ == match args {
            InitialSetupArgs::All { creator, admin, asset } => seq![
                AfloatStep::<A>::FruniquesInitialSetup,
                AfloatStep::<A>::MarketplaceInitialSetup,
                AfloatStep::<A>::CreateAfloatFrunique { creator, admin },
                AfloatStep::<A>::AddAccountToAfloatFrunique { who: admin, role: FruniqueRole::Admin },
                AfloatStep::<A>::CreateAfloatAsset { creator, asset },
                AfloatStep::<A>::CreateAfloatMarketplace { creator, admin },
                AfloatStep::<A>::SetupRoles { creator, admin },
            ],
            InitialSetupArgs::Roles { creator, admin } => seq![AfloatStep::<A>::SetupRoles { creator, admin }],
            InitialSetupArgs::AddAfloatRole { who, role } => seq![AfloatStep::<A>::GiveRoleToUser { who, role }],
            InitialSetupArgs::AddFruniqueRole { who, role } => seq![
                AfloatStep::<A>::AddAccountToAfloatFrunique { who, role },
            ],
        },
{
    if !ensure_root(origin) {
        return Err(Error::BadOrigin);
    }
    let mut steps: Vec<AfloatStep<A>> = Vec::new();
    match args {
        InitialSetupArgs::All { creator, admin, asset } => {
            steps.push(AfloatStep::<A>::FruniquesInitialSetup);
            steps.push(AfloatStep::<A>::MarketplaceInitialSetup);
            steps.push(AfloatStep::<A>::CreateAfloatFrunique { creator, admin });
            steps.push(AfloatStep::<A>::AddAccountToAfloatFrunique { who: admin, role: FruniqueRole::Admin });
            steps.push(AfloatStep::<A>::CreateAfloatAsset { creator, asset });
            steps.push(AfloatStep::<A>::CreateAfloatMarketplace { creator, admin });
            steps.push(AfloatStep::<A>::SetupRoles { creator, admin });
        },
        InitialSetupArgs::Roles { creator, admin } => {
            steps.push(AfloatStep::<A>::SetupRoles { creator, admin });
        },
        InitialSetupArgs::AddAfloatRole { who, role } => {
            steps.push(AfloatStep::<A>::GiveRoleToUser { who, role });
        },
        InitialSetupArgs::AddFruniqueRole { who, role } => {
            steps.push(AfloatStep::<A>::AddAccountToAfloatFrunique { who, role });
        },
    }
    proof {
        assert(steps@ =~= match args {
            InitialSetupArgs::All { creator, admin, asset } => seq![
                AfloatStep::<A>::FruniquesInitialSetup,
                AfloatStep::<A>::MarketplaceInitialSetup,
                AfloatStep::<A>::CreateAfloatFrunique { creator, admin },
                AfloatStep::<A>::AddAccountToAfloatFrunique { who: admin, role: FruniqueRole::Admin },
                AfloatStep::<A>::CreateAfloatAsset { creator, asset },
                AfloatStep::<A>::CreateAfloatMarketplace { creator, admin },
                AfloatStep::<A>::SetupRoles { creator, admin },
            ],
            InitialSetupArgs::Roles { creator, admin } => seq![AfloatStep::<A>::SetupRoles { creator, admin }],
            InitialSetupArgs::AddAfloatRole { who, role } => seq![AfloatStep::<A>::GiveRoleToUser { who, role }],
            InitialSetupArgs::AddFruniqueRole { who, role } => seq![
                AfloatStep::<A>::AddAccountToAfloatFrunique { who, role },
            ],
        });
    }
    Ok(steps)
}

/// The storage items of the marketplace that a wipe touches: the profiles of
/// the users, the marketplace, collection and asset ids, the offers and the
/// transactions, each entry with the value `U`, `O` or `X` stored for it.
pub struct AfloatStorage<U, O, X> {
    pub user_info: Vec<(AccountId, U)>,
    pub marketplace_id: Option<Id>,
    pub collection_id: Option<u32>,
    pub asset_id: Option<u32>,
    pub offers: Vec<(StorageId, O)>,
    pub transactions: Vec<(StorageId, X)>,
}

pub struct AfloatStorageView<U, O, X> {
    pub user_info: Seq<(AccountId, U)>,
    pub marketplace_id: Option<Id>,
    pub collection_id: Option<u32>,
    pub asset_id: Option<u32>,
    pub offers: Seq<(StorageId, O)>,
    pub transactions: Seq<(StorageId, X)>,
}

impl<U, O, X> View for AfloatStorage<U, O, X> {
    type V = AfloatStorageView<U, O, X>;

    open spec fn view(&self) -> AfloatStorageView<U, O, X> {
        AfloatStorageView {
            user_info: self.user_info@,
            marketplace_id: self.marketplace_id,
            collection_id: self.collection_id,
            asset_id: self.asset_id,
            offers: self.offers@,
            transactions: self.transactions@,
        }
    }
}

/// A map after one clearing pass: at most `CLEAR_LIMIT` entries go, the first ones.
pub open spec fn cleared<T>(s: Seq<T>) -> Seq<T> {
    if s.len() <= CLEAR_LIMIT {
        Seq::empty()
    } else {
        s.subrange(CLEAR_LIMIT as int, s.len() as int)
    }
}

/// The storage after a successful wipe of `args`: only the items it names change.
pub open spec fn killed<U, O, X>(s: AfloatStorageView<U, O, X>, args: KillStorageArgs) -> AfloatStorageView<U, O, X> {
    match args {
        KillStorageArgs::All => AfloatStorageView {
            user_info: Seq::empty(),
            marketplace_id: None,
            collection_id: None,
            asset_id: None,
            offers: cleared(s.offers),
            transactions: cleared(s.transactions),
        },
        KillStorageArgs::UserInfo => AfloatStorageView { user_info: Seq::empty(), ..s },
        KillStorageArgs::AfloatMarketPlaceId => AfloatStorageView { marketplace_id: None, ..s },
        KillStorageArgs::AfloatCollectionId => AfloatStorageView { collection_id: None, ..s },
        KillStorageArgs::AfloatAssetId => AfloatStorageView { asset_id: None, ..s },
        KillStorageArgs::AfloatOffers => AfloatStorageView { offers: cleared(s.offers), ..s },
        KillStorageArgs::AfloatTransactions => AfloatStorageView { transactions: cleared(s.transactions), ..s },
    }
}

/// What a successful wipe does to each item: the users' profiles, the
/// marketplace, collection and asset ids are emptied exactly when `args` is
/// `All` or names them; the offers and the transactions, exactly when `args`
/// is `All` or names them, lose their first 1000 entries (all of them when they
/// hold no more) and keep the rest in order. Every item not wiped is unchanged.
pub proof fn lemma_kill_storage_effects<U, O, X>(s: AfloatStorageView<U, O, X>, args: KillStorageArgs)
    ensures
        ({
            let k = killed(s, args);
            let all = args is All;
            &&& (all || args is UserInfo) ==> k.user_info.len() == 0
            &&& !(all || args is UserInfo) ==> k.user_info == s.user_info
            &&& (all || args is AfloatMarketPlaceId) ==> k.marketplace_id is None
            &&& !(all || args is AfloatMarketPlaceId) ==> k.marketplace_id == s.marketplace_id
            &&& (all || args is AfloatCollectionId) ==> k.collection_id is None
            &&& !(all || args is AfloatCollectionId) ==> k.collection_id == s.collection_id
            &&& (all || args is AfloatAssetId) ==> k.asset_id is None
            &&& !(all || args is AfloatAssetId) ==> k.asset_id == s.asset_id
            &&& (all || args is AfloatOffers) ==> {
                &&& s.offers.len() <= 1000 ==> k.offers.len() == 0
                &&& s.offers.len() > 1000 ==> k.offers.len() == s.offers.len() - 1000 && forall|j: int|
                    0 <= j < k.offers.len() ==> #[trigger] k.offers[j] == s.offers[j + 1000]
            }
            &&& !(all || args is AfloatOffers) ==> k.offers == s.offers
            &&& (all || args is AfloatTransactions) ==> {
                &&& s.transactions.len() <= 1000 ==> k.transactions.len() == 0
                &&& s.transactions.len() > 1000 ==> k.transactions.len() == s.transactions.len() - 1000
                    && forall|j: int|
                    0 <= j < k.transactions.len() ==> #[trigger] k.transactions[j] == s.transactions[j + 1000]
            }
            &&& !(all || args is AfloatTransactions) ==> k.transactions == s.transactions
        }),
{
}

/// Whether a wipe of `args` deletes the users' profiles.
pub open spec fn deletes_users(args: KillStorageArgs) -> bool {
    args is All || args is UserInfo
}

/// One clearing pass over a map: removes its first `CLEAR_LIMIT` entries.
fn clear_pass<T>(v: &mut Vec<T>)
    ensures
        final(v)@ == cleared(old(v)@),
{
    if v.len() <= CLEAR_LIMIT as usize {
        v.clear();
    } else {
        let rest = v.split_off(CLEAR_LIMIT as usize);
        *v = rest;
    }
}

/// Wipes the storage items that `args` names; only the root origin may.
/// Deleting the users' profiles also reaches other pallets: the caller runs it
/// once the origin is accepted and reports how it went in `users_deleted`.
/// When it failed, the wipe stops with its error before anything is removed;
/// the offers and the transactions lose at most `CLEAR_LIMIT` entries each.
pub fn kill_storage<U, O, X>(
    storage: &mut AfloatStorage<U, O, X>,
    origin: Origin,
    args: KillStorageArgs,
    users_deleted: Result<(), Error>,
) -> (r: Result<(), Error>)
    ensures
        origin != Origin::Root ==> r == Err::<(), Error>(Error::BadOrigin) && final(storage)@ == old(storage)@,
        origin == Origin::Root && deletes_users(args) && users_deleted is Err ==> r == users_deleted
            && final(storage)@ == old(storage)@,
        origin == Origin::Root && !(deletes_users(args) && users_deleted is Err) ==> r == Ok::<(), Error>(())
            && final(storage)@ == killed(old(storage)@, args),
{
    if !ensure_root(origin) {
        return Err(Error::BadOrigin);
    }
    match args {
        KillStorageArgs::All => {
            users_deleted?;
            storage.user_info = Vec::new();
            storage.collection_id = None;
            storage.asset_id = None;
            clear_pass(&mut storage.offers);
            clear_pass(&mut storage.transactions);
            storage.marketplace_id = None;
        },
        KillStorageArgs::UserInfo => {
            users_deleted?;
            storage.user_info = Vec::new();
        },
        KillStorageArgs::AfloatMarketPlaceId => {
            storage.marketplace_id = None;
        },
        KillStorageArgs::AfloatCollectionId => {
            storage.collection_id = None;
        },
        KillStorageArgs::AfloatAssetId => {
            storage.asset_id = None;
        },
        KillStorageArgs::AfloatOffers => {
            clear_pass(&mut storage.offers);
        },
        KillStorageArgs::AfloatTransactions => {
            clear_pass(&mut storage.transactions);
        },
    }
    Ok(())
}

/// Runs the steps of a call in order, given the outcomes of the steps run so
/// far: returns the number of steps started and how the call ended, as
/// `steps_end` says: the first failing step ends the call with its error.
pub fn run_steps<A>(steps: &Vec<AfloatStep<A>>, outcomes: &Vec<Result<(), Error>>) -> (r: (usize, Option<
    Result<(), Error>,
>))
    ensures
        r.0 == steps_end(steps@.len(), outcomes@).0,
        r.1 == steps_end(steps@.len(), outcomes@).1,
{
    run_in_order(steps.len(), outcomes)
}

/// Signs the caller up with the given profile.
pub fn sign_up<A>(origin: Origin, args: SignUpArgs) -> (r: CallResult<A>)
    ensures
        match origin {
            Origin::Signed(who) => r.is_ok() && r.unwrap()@ == seq![AfloatStep::<A>::CreateUser { creator: who, who, args }],
            _ => r == Err::<Vec<AfloatStep<A>>, Error>(Error::BadOrigin),
        },
{
    let who = match ensure_signed(origin) {
        Some(w) => w,
        None => return Err(Error::BadOrigin),
    };
    let mut steps: Vec<AfloatStep<A>> = Vec::new();
    steps.push(AfloatStep::<A>::CreateUser { creator: who, who, args });
    assert(steps@ =~= seq![AfloatStep::<A>::CreateUser { creator: who, who, args }]);
    Ok(steps)
}

/// The steps of a profile change by `who` of the profile of `address`.
pub open spec fn update_steps<A>(who: AccountId, address: AccountId, args: UpdateUserArgs) -> Seq<AfloatStep<A>> {
    match args {
        UpdateUserArgs::Edit { cid, cid_creator } => seq![AfloatStep::<A>::EditUser { who, address, cid, cid_creator }],
        UpdateUserArgs::AdminEdit { cid, cid_creator, group } => seq![
            AfloatStep::<A>::AdminEditUser { who, address, cid, cid_creator, group },
        ],
        UpdateUserArgs::Delete => seq![AfloatStep::<A>::DeleteUser { who, address }],
    }
}

/// Changes the profile of `address`. A user may edit its own profile; an
/// admin or the owner may edit any profile, change its group or delete it.
/// `is_admin_or_owner` is the role check on the caller, `user_exists` whether
/// `address` has a profile.
pub fn update_user_info<A>(
    origin: Origin,
    address: AccountId,
    args: UpdateUserArgs,
    is_admin_or_owner: Result<bool, Error>,
    user_exists: bool,
) -> (r: CallResult<A>)
    ensures
        match origin {
            Origin::Signed(who) => match is_admin_or_owner {
                Err(e) => r == Err::<Vec<AfloatStep<A>>, Error>(e),
                Ok(admin) => if !user_exists {
                    r == Err::<Vec<AfloatStep<A>>, Error>(Error::UserNotFound)
                } else if !(who == address || admin) {
                    r == Err::<Vec<AfloatStep<A>>, Error>(Error::Unauthorized)
                } else if !(args is Edit) && !admin {
                    r == Err::<Vec<AfloatStep<A>>, Error>(Error::Unauthorized)
                } else {
                    r.is_ok() && r.unwrap()@ == update_steps::<A>(who, address, args)
                },
            },
            _ => r == Err::<Vec<AfloatStep<A>>, Error>(Error::BadOrigin),
        },
{
    let who = match ensure_signed(origin) {
        Some(w) => w,
        None => return Err(Error::BadOrigin),
    };
    let admin = is_admin_or_owner?;
    if !user_exists {
        return Err(Error::UserNotFound);
    }
    if !(who == address || admin) {
        return Err(Error::Unauthorized);
    }
    let mut steps: Vec<AfloatStep<A>> = Vec::new();
    match args {
        UpdateUserArgs::Edit { cid, cid_creator } => {
            steps.push(AfloatStep::<A>::EditUser { who, address, cid, cid_creator });
        },
        UpdateUserArgs::AdminEdit { cid, cid_creator, group } => {
            if !admin {
                return Err(Error::Unauthorized);
            }
            steps.push(AfloatStep::<A>::AdminEditUser { who, address, cid, cid_creator, group });
        },
        UpdateUserArgs::Delete => {
            if !admin {
                return Err(Error::Unauthorized);
            }
            steps.push(AfloatStep::<A>::DeleteUser { who, address });
        },
    }
    assert(steps@ =~= update_steps::<A>(who, address, args));
    Ok(steps)
}

/// Creates a sell or a buy offer for the caller.
pub fn create_offer<A>(origin: Origin, args: CreateOfferArgs) -> (r: CallResult<A>)
    ensures
        match origin {
            Origin::Signed(who) => r.is_ok() && r.unwrap()@ == match args {
                CreateOfferArgs::Sell { tax_credit_amount, tax_credit_id, price_per_credit, expiration_date } => seq![
                    AfloatStep::<A>::CreateSellOrder {
                        who,
                        tax_credit_id,
                        price_per_credit,
                        tax_credit_amount,
                        expiration_date,
                    },
                ],
                CreateOfferArgs::Buy { tax_credit_amount, tax_credit_id, price_per_credit, expiration_date } => seq![
                    AfloatStep::<A>::CreateBuyOrder {
                        who,
                        tax_credit_id,
                        price_per_credit,
                        tax_credit_amount,
                        expiration_date,
                    },
                ],
            },
            _ => r == Err::<Vec<AfloatStep<A>>, Error>(Error::BadOrigin),
        },
{
    let who = match ensure_signed(origin) {
        Some(w) => w,
        None => return Err(Error::BadOrigin),
    };
    let mut steps: Vec<AfloatStep<A>> = Vec::new();
    match args {
        CreateOfferArgs::Sell { tax_credit_amount, tax_credit_id, price_per_credit, expiration_date } => {
            steps.push(
                AfloatStep::<A>::CreateSellOrder { who, tax_credit_id, price_per_credit, tax_credit_amount, expiration_date },
            );
        },
        CreateOfferArgs::Buy { tax_credit_amount, tax_credit_id, price_per_credit, expiration_date } => {
            steps.push(
                AfloatStep::<A>::CreateBuyOrder { who, tax_credit_id, price_per_credit, tax_credit_amount, expiration_date },
            );
        },
    }
    assert(steps@ =~= match args {
        CreateOfferArgs::Sell { tax_credit_amount, tax_credit_id, price_per_credit, expiration_date } => seq![
            AfloatStep::<A>::CreateSellOrder { who, tax_credit_id, price_per_credit, tax_credit_amount, expiration_date },
        ],
        CreateOfferArgs::Buy { tax_credit_amount, tax_credit_id, price_per_credit, expiration_date } => seq![
            AfloatStep::<A>::CreateBuyOrder { who, tax_credit_id, price_per_credit, tax_credit_amount, expiration_date },
        ],
    });
    Ok(steps)
}

/// The single step of a signed call.
fn signed_step<A>(origin: Origin, step: AfloatStep<A>) -> (r: CallResult<A>)
    ensures
        match origin {
            Origin::Signed(_) => r.is_ok() && r.unwrap()@ == seq![step],
            _ => r == Err::<Vec<AfloatStep<A>>, Error>(Error::BadOrigin),
        },
{
    if ensure_signed(origin).is_none() {
        return Err(Error::BadOrigin);
    }
    let mut steps: Vec<AfloatStep<A>> = Vec::new();
    steps.push(step);
    assert(steps@ =~= seq![step]);
    Ok(steps)
}

/// The account that signed, or zero when none did.
pub open spec fn signer(origin: Origin) -> AccountId {
    match origin {
        Origin::Signed(who) => who,
        _ => 0,
    }
}

/// Starts taking `tax_credit_amount` credits of a sell offer.
pub fn start_take_sell_order<A>(origin: Origin, offer_id: StorageId, tax_credit_amount: Balance) -> (r: CallResult<
    A,
>)
    ensures
        match origin {
            Origin::Signed(who) => r.is_ok() && r.unwrap()@ == seq![
                AfloatStep::<A>::StartTakeSellOrder { who, offer_id, tax_credit_amount },
            ],
            _ => r == Err::<Vec<AfloatStep<A>>, Error>(Error::BadOrigin),
        },
{
    let who = match ensure_signed(origin) {
        Some(w) => w,
        None => 0,
    };
    signed_step(origin, AfloatStep::<A>::StartTakeSellOrder { who, offer_id, tax_credit_amount })
}

/// Confirms a sell transaction.
pub fn confirm_sell_transaction<A>(origin: Origin, transaction_id: StorageId) -> (r: CallResult<A>)
    ensures
        match origin {
            Origin::Signed(who) => r.is_ok() && r.unwrap()@ == seq![
                AfloatStep::<A>::ConfirmSellTransaction { who, transaction_id },
            ],
            _ => r == Err::<Vec<AfloatStep<A>>, Error>(Error::BadOrigin),
        },
{
    let who = match ensure_signed(origin) {
        Some(w) => w,
        None => 0,
    };
    signed_step(origin, AfloatStep::<A>::ConfirmSellTransaction { who, transaction_id })
}

/// Finishes a sell transaction.
pub fn finish_take_sell_transaction<A>(origin: Origin, transaction_id: StorageId) -> (r: CallResult<A>)
    ensures
        match origin {
            Origin::Signed(who) => r.is_ok() && r.unwrap()@ == seq![
                AfloatStep::<A>::FinishTakeSellTransaction { who, transaction_id },
            ],
            _ => r == Err::<Vec<AfloatStep<A>>, Error>(Error::BadOrigin),
        },
{
    let who = match ensure_signed(origin) {
        Some(w) => w,
        None => 0,
    };
    signed_step(origin, AfloatStep::<A>::FinishTakeSellTransaction { who, transaction_id })
}

/// Creates a tax credit frunique for the caller.
pub fn create_tax_credit<A>(
    origin: Origin,
    metadata: Vec<u8>,
    attributes: Option<Vec<(Vec<u8>, Vec<u8>)>>,
    parent_info: Option<ParentInfo>,
) -> (r: CallResult<A>)
    ensures
        match origin {
            Origin::Signed(who) => r.is_ok() && r.unwrap()@ == seq![
                AfloatStep::<A>::CreateTaxCredit { who, metadata, attributes, parent_info },
            ],
            _ => r == Err::<Vec<AfloatStep<A>>, Error>(Error::BadOrigin),
        },
{
    let who = match ensure_signed(origin) {
        Some(w) => w,
        None => 0,
    };
    signed_step(origin, AfloatStep::<A>::CreateTaxCredit { who, metadata, attributes, parent_info })
}

/// Cancels an offer of the caller.
pub fn cancel_offer<A>(origin: Origin, order_id: StorageId) -> (r: CallResult<A>)
    ensures
        match origin {
            Origin::Signed(who) => r.is_ok() && r.unwrap()@ == seq![AfloatStep::<A>::CancelOffer { who, order_id }],
            _ => r == Err::<Vec<AfloatStep<A>>, Error>(Error::BadOrigin),
        },
{
    let who = match ensure_signed(origin) {
        Some(w) => w,
        None => 0,
    };
    signed_step(origin, AfloatStep::<A>::CancelOffer { who, order_id })
}

/// The first steps of a call reserved to admins and the owner.
pub open spec fn admin_only<A>(origin: Origin, is_admin_or_owner: Result<bool, Error>, steps: Seq<AfloatStep<A>>, r: CallResult<A>) -> bool {
    match origin {
        Origin::Signed(_) => match is_admin_or_owner {
            Err(e) => r == Err::<Vec<AfloatStep<A>>, Error>(e),
            Ok(admin) => if !admin {
                r == Err::<Vec<AfloatStep<A>>, Error>(Error::Unauthorized)
            } else {
                r.is_ok() && r.unwrap()@ == steps
            },
        },
        _ => r == Err::<Vec<AfloatStep<A>>, Error>(Error::BadOrigin),
    }
}

/// Sets the afloat balance of `beneficiary`; only an admin or the owner may.
pub fn set_afloat_balance<A>(
    origin: Origin,
    beneficiary: AccountId,
    amount: Balance,
    is_admin_or_owner: Result<bool, Error>,
) -> (r: CallResult<A>)
    ensures
        admin_only(
            origin,
            is_admin_or_owner,
            seq![AfloatStep::<A>::SetAfloatBalance { who: signer(origin), beneficiary, amount }],
            r,
        ),
{
    let who = match ensure_signed(origin) {
        Some(w) => w,
        None => return Err(Error::BadOrigin),
    };
    if !is_admin_or_owner? {
        return Err(Error::Unauthorized);
    }
    let mut steps: Vec<AfloatStep<A>> = Vec::new();
    steps.push(AfloatStep::<A>::SetAfloatBalance { who, beneficiary, amount });
    assert(steps@ =~= seq![AfloatStep::<A>::SetAfloatBalance { who: signer(origin), beneficiary, amount }]);
    Ok(steps)
}

/// Makes `admin` an admin; only an admin or the owner may.
pub fn add_afloat_admin<A>(origin: Origin, admin: AccountId, is_admin_or_owner: Result<bool, Error>) -> (r:
    CallResult<A>)
    ensures
        admin_only(origin, is_admin_or_owner, seq![AfloatStep::<A>::AddAfloatAdmin { who: signer(origin), admin }], r),
{
    let who = match ensure_signed(origin) {
        Some(w) => w,
        None => return Err(Error::BadOrigin),
    };
    if !is_admin_or_owner? {
        return Err(Error::Unauthorized);
    }
    let mut steps: Vec<AfloatStep<A>> = Vec::new();
    steps.push(AfloatStep::<A>::AddAfloatAdmin { who, admin });
    assert(steps@ =~= seq![AfloatStep::<A>::AddAfloatAdmin { who: signer(origin), admin }]);
    Ok(steps)
}

/// Gives a user with a profile an afloat role; only an admin or the owner may.
pub fn assign_user_to_role<A>(
    origin: Origin,
    user_address: AccountId,
    role: AfloatRole,
    is_admin_or_owner: Result<bool, Error>,
    user_exists: bool,
) -> (r: CallResult<A>)
    ensures
        if origin is Signed && is_admin_or_owner == Ok::<bool, Error>(true) && !user_exists {
            r == Err::<Vec<AfloatStep<A>>, Error>(Error::UserNotFound)
        } else {
            admin_only(
                origin,
                is_admin_or_owner,
                seq![
                    AfloatStep::<A>::GiveRoleToUser { who: user_address, role },
                    AfloatStep::<A>::DepositEvent(Event::UserAssignedToRoleAdded(signer(origin), user_address, role)),
                ],
                r,
            )
        },
{
    let who = match ensure_signed(origin) {
        Some(w) => w,
        None => return Err(Error::BadOrigin),
    };
    if !is_admin_or_owner? {
        return Err(Error::Unauthorized);
    }
    if !user_exists {
        return Err(Error::UserNotFound);
    }
    let mut steps: Vec<AfloatStep<A>> = Vec::new();
    steps.push(AfloatStep::<A>::GiveRoleToUser { who: user_address, role });
    steps.push(AfloatStep::<A>::DepositEvent(Event::UserAssignedToRoleAdded(who, user_address, role)));
    assert(steps@ =~= seq![
        AfloatStep::<A>::GiveRoleToUser { who: user_address, role },
        AfloatStep::<A>::DepositEvent(Event::UserAssignedToRoleAdded(signer(origin), user_address, role)),
    ]);
    Ok(steps)
}

} // verus!
