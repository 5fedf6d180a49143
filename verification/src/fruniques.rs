//! Fruniques: NFTs that can be divided into children, each child inheriting a
//! fraction of its parent's weight, and that can be frozen and redeemed.
//!
//! The pallet keeps its own storage (collection and item counters, frunique
//! data, roots, redemptions) and the owners of the collections and items that it
//! has created through the uniques pallet. What must happen in the uniques and
//! role-based access control pallets is handed back as a list of calls; the
//! answers to the calls made so far are handed in, the first refused call ends
//! the operation with its error, and the storage changes only once every call
//! succeeded.

use crate::assoc::{AssocMap, CopyView};
use crate::codec::{blake2_256, blake2_256_of, encode_u32, scale_u32};
use crate::common::{
    bytes_copy, ensure_signed, lemma_steps_stop_at_first_failure, run_in_order, steps_end, AccountId, Id, Origin,
};
use crate::rbac::IdOrVec;
use crate::per_things::{lemma_mul_parts_le, mul_parts, percent_parts, Permill};
use vstd::prelude::*;

verus! {

broadcast use {Permill::lemma_spec_from_parts, Permill::lemma_parts_determine};

pub type CollectionId = u32;

pub type ItemId = u32;

/// A collection and an item in it.
pub type ItemKey = (CollectionId, ItemId);

/// Where a frunique comes from: its parent and the fraction inherited.
#[derive(Clone, Copy, Debug, PartialEq, Eq, Structural)]
pub struct ParentInfo {
    pub collection_id: CollectionId,
    pub parent_id: ItemId,
    pub parent_weight: Permill,
    pub is_hierarchical: bool,
}

/// A child of a frunique and the fraction it inherited.
#[derive(Clone, Copy, Debug, PartialEq, Eq, Structural)]
pub struct ChildInfo {
    pub collection_id: CollectionId,
    pub child_id: ItemId,
    pub weight_inherited: Permill,
    pub is_hierarchical: bool,
}

/// Roles of the role-based access control pallet within a collection.
#[derive(Clone, Copy, Debug, PartialEq, Eq, Structural)]
pub enum FruniqueRole {
    Owner,
    Admin,
    Collaborator,
    Collector,
    Holder,
}

/// What the pallet stores for each frunique.
#[derive(Debug)]
pub struct FruniqueData {
    pub metadata: Vec<u8>,
    pub weight: Permill,
    pub parent: Option<ParentInfo>,
    pub children: Option<Vec<ChildInfo>>,
    pub verified: bool,
    pub frozen: bool,
    pub redeemed: bool,
    pub spawned_by: Option<AccountId>,
    pub verified_by: Option<AccountId>,
}

pub struct FruniqueDataView {
    pub metadata: Seq<u8>,
    pub weight: Permill,
    pub parent: Option<ParentInfo>,
    pub children: Option<Seq<ChildInfo>>,
    pub verified: bool,
    pub frozen: bool,
    pub redeemed: bool,
    pub spawned_by: Option<AccountId>,
    pub verified_by: Option<AccountId>,
}

impl View for FruniqueData {
    type V = FruniqueDataView;

    open spec fn view(&self) -> FruniqueDataView {
        FruniqueDataView {
            metadata: self.metadata@,
            weight: self.weight,
            parent: self.parent,
            children: match self.children {
                Some(c) => Some(c@),
                None => None,
            },
            verified: self.verified,
            frozen: self.frozen,
            redeemed: self.redeemed,
            spawned_by: self.spawned_by,
            verified_by: self.verified_by,
        }
    }
}

/// A call that the pallet makes on the uniques or the access control pallet.
#[derive(Debug)]
pub enum FruniquesCall {
    /// Create an access control scope.
    CreateScope { scope: Id },
    /// Give a user a role in a scope.
    AssignRole { user: AccountId, scope: Id, role: FruniqueRole },
    /// Take a role in a scope from a user.
    RemoveRole { user: AccountId, scope: Id, role: FruniqueRole },
    /// Create a uniques collection.
    CreateCollection { collection: CollectionId, owner: AccountId, admin: AccountId },
    /// Set a collection's metadata.
    SetCollectionMetadata { collection: CollectionId, metadata: Vec<u8> },
    /// Mint an item.
    Mint { collection: CollectionId, item: ItemId, owner: AccountId },
    /// Set an item's metadata.
    SetMetadata { collection: CollectionId, item: ItemId, metadata: Vec<u8> },
    /// Set an attribute of an item, on behalf of `origin`.
    SetAttribute { origin: Origin, collection: CollectionId, item: ItemId, key: Vec<u8>, value: Vec<u8> },
    /// Burn an item, on behalf of `origin`, checking that `check_owner` owns it.
    Burn { origin: Origin, collection: CollectionId, item: ItemId, check_owner: AccountId },
    /// Create the roles of a group in the pallet; the access control pallet
    /// answers with their ids.
    CreateAndSetRoles { group: FruniqueRole },
    /// Give a role the permissions of a group.
    CreateAndSetPermissions { role: Id, group: FruniqueRole },
}

pub enum FruniquesCallView {
    CreateScope { scope: Seq<u8> },
    AssignRole { user: AccountId, scope: Seq<u8>, role: FruniqueRole },
    RemoveRole { user: AccountId, scope: Seq<u8>, role: FruniqueRole },
    CreateCollection { collection: CollectionId, owner: AccountId, admin: AccountId },
    SetCollectionMetadata { collection: CollectionId, metadata: Seq<u8> },
    Mint { collection: CollectionId, item: ItemId, owner: AccountId },
    SetMetadata { collection: CollectionId, item: ItemId, metadata: Seq<u8> },
    SetAttribute { origin: Origin, collection: CollectionId, item: ItemId, key: Seq<u8>, value: Seq<u8> },
    Burn { origin: Origin, collection: CollectionId, item: ItemId, check_owner: AccountId },
    CreateAndSetRoles { group: FruniqueRole },
    CreateAndSetPermissions { role: Seq<u8>, group: FruniqueRole },
}

impl View for FruniquesCall {
    type V = FruniquesCallView;

    open spec fn view(&self) -> FruniquesCallView {
        match self {
            FruniquesCall::CreateScope { scope } => FruniquesCallView::CreateScope { scope: scope@ },
            FruniquesCall::AssignRole { user, scope, role } => FruniquesCallView::AssignRole {
                user: *user,
                scope: scope@,
                role: *role,
            },
            FruniquesCall::RemoveRole { user, scope, role } => FruniquesCallView::RemoveRole {
                user: *user,
                scope: scope@,
                role: *role,
            },
            FruniquesCall::CreateCollection { collection, owner, admin } => FruniquesCallView::CreateCollection {
                collection: *collection,
                owner: *owner,
                admin: *admin,
            },
            FruniquesCall::SetCollectionMetadata { collection, metadata } => FruniquesCallView::SetCollectionMetadata {
                collection: *collection,
                metadata: metadata@,
            },
            FruniquesCall::Mint { collection, item, owner } => FruniquesCallView::Mint {
                collection: *collection,
                item: *item,
                owner: *owner,
            },
            FruniquesCall::SetMetadata { collection, item, metadata } => FruniquesCallView::SetMetadata {
                collection: *collection,
                item: *item,
                metadata: metadata@,
            },
            FruniquesCall::SetAttribute { origin, collection, item, key, value } => FruniquesCallView::SetAttribute {
                origin: *origin,
                collection: *collection,
                item: *item,
                key: key@,
                value: value@,
            },
            FruniquesCall::Burn { origin, collection, item, check_owner } => FruniquesCallView::Burn {
                origin: *origin,
                collection: *collection,
                item: *item,
                check_owner: *check_owner,
            },
            FruniquesCall::CreateAndSetRoles { group } => FruniquesCallView::CreateAndSetRoles { group: *group },
            FruniquesCall::CreateAndSetPermissions { role, group } => FruniquesCallView::CreateAndSetPermissions {
                role: role@,
                group: *group,
            },
        }
    }
}

pub open spec fn calls_view(calls: Seq<FruniquesCall>) -> Seq<FruniquesCallView> {
    calls.map_values(|c: FruniquesCall| c@)
}

/// Errors of the pallet.
#[derive(Clone, Copy, Debug, PartialEq, Eq, Structural)]
pub enum Error {
    /// The collection does not exist
    CollectionNotFound,
    /// The frunique does not exist
    FruniqueNotFound,
    /// The parent is frozen
    ParentFrozen,
    /// The parent has been redeemed
    ParentAlreadyRedeemed,
    /// The frunique is frozen
    FruniqueFrozen,
    /// The frunique has been redeemed
    FruniqueAlreadyRedeemed,
    /// The parent has the largest number of children allowed
    MaxNumberOfChildrenReached,
    /// The instance is not owned by anyone
    InstanceNotOwned,
    /// The call does not come from the required origin
    BadOrigin,
    /// The access control pallet refused a call, with the index of its error
    AccessControl(u32),
    /// The uniques pallet refused a call, with the index of its error
    Uniques(u32),
}

/// The pallet's state as maps.
pub struct FruniquesState {
    pub next_collection: CollectionId,
    pub collections: Map<CollectionId, AccountId>,
    pub items: Map<ItemKey, AccountId>,
    pub next_frunique: Map<CollectionId, ItemId>,
    pub info: Map<ItemKey, FruniqueDataView>,
    pub roots: Map<ItemKey, bool>,
    pub redeemed: Map<ItemKey, bool>,
    pub max_children: u32,
}

/// The scope of a collection in the access control pallet: the Blake2 digest
/// of the SCALE encoding of its id.
pub open spec fn spec_collection_scope(collection: CollectionId) -> Seq<u8> {
    blake2_256_of(scale_u32(collection))
}

/// The calls that creating collection `c` of `owner` makes, in order.
pub open spec fn create_collection_calls(
    c: CollectionId,
    owner: AccountId,
    admin: AccountId,
    metadata: Seq<u8>,
) -> Seq<FruniquesCallView> {
    seq![
        FruniquesCallView::CreateScope { scope: spec_collection_scope(c) },
        FruniquesCallView::AssignRole { user: owner, scope: spec_collection_scope(c), role: FruniqueRole::Owner },
        FruniquesCallView::CreateCollection { collection: c, owner, admin },
        FruniquesCallView::SetCollectionMetadata { collection: c, metadata },
    ]
}

/// The id the next frunique of a collection gets.
pub open spec fn next_item(s: FruniquesState, collection: CollectionId) -> ItemId {
    if s.next_frunique.contains_key(collection) {
        s.next_frunique[collection]
    } else {
        0
    }
}

/// The state after minting the next item of `collection` to `owner`.
pub open spec fn minted(s: FruniquesState, collection: CollectionId, owner: AccountId) -> FruniquesState {
    let item = next_item(s, collection);
    FruniquesState {
        next_frunique: s.next_frunique.insert(collection, (item + 1) as ItemId),
        items: s.items.insert((collection, item), owner),
        ..s
    }
}

/// The calls that minting `item` makes: mint, set the metadata, set each attribute.
pub open spec fn mint_calls(
    collection: CollectionId,
    item: ItemId,
    owner: AccountId,
    metadata: Seq<u8>,
    attributes: Option<Seq<(Vec<u8>, Vec<u8>)>>,
) -> Seq<FruniquesCallView> {
    seq![
        FruniquesCallView::Mint { collection, item, owner },
        FruniquesCallView::SetMetadata { collection, item, metadata },
    ] + match attributes {
        Some(a) => a.map_values(
            |kv: (Vec<u8>, Vec<u8>)|
                FruniquesCallView::SetAttribute { origin: Origin::Root, collection, item, key: kv.0@, value: kv.1@ },
        ),
        None => Seq::empty(),
    }
}

/// The attributes given to a mint, by their views.
pub open spec fn opt_attributes(attributes: Option<Vec<(Vec<u8>, Vec<u8>)>>) -> Option<Seq<(Vec<u8>, Vec<u8>)>> {
    match attributes {
        Some(a) => Some(a@),
        None => None,
    }
}

/// The calls that minting the next item of `collection` makes.
pub open spec fn mint_plan(
    s: FruniquesState,
    collection: CollectionId,
    owner: AccountId,
    metadata: Seq<u8>,
    attributes: Option<Seq<(Vec<u8>, Vec<u8>)>>,
) -> Seq<FruniquesCallView> {
    mint_calls(collection, next_item(s, collection), owner, metadata, attributes)
}

/// The data of a frunique without a parent.
pub open spec fn root_data(metadata: Seq<u8>, owner: AccountId) -> FruniqueDataView {
    FruniqueDataView {
        metadata,
        weight: Permill::spec_from_parts(1_000_000),
        parent: None,
        children: None,
        verified: false,
        frozen: false,
        redeemed: false,
        spawned_by: Some(owner),
        verified_by: None,
    }
}

/// The fraction a child of `parent` inherits: the parent's weight scaled by `p.parent_weight`.
pub open spec fn child_weight(p: ParentInfo, parent: FruniqueDataView) -> Permill {
    Permill::spec_from_parts(mul_parts(p.parent_weight.spec_parts(), parent.weight.spec_parts()))
}

/// The data of a child `item` of `p`'s parent.
pub open spec fn child_data(p: ParentInfo, pct: Permill, metadata: Seq<u8>, user: AccountId) -> FruniqueDataView {
    FruniqueDataView {
        metadata,
        weight: Permill::spec_from_parts(1_000_000),
        parent: Some(ParentInfo { parent_weight: pct, ..p }),
        children: None,
        verified: false,
        frozen: false,
        redeemed: false,
        spawned_by: Some(user),
        verified_by: None,
    }
}

pub open spec fn children_len(d: FruniqueDataView) -> nat {
    match d.children {
        Some(c) => c.len(),
        None => 0,
    }
}

/// `d` with one more child and `pct` less weight.
pub open spec fn with_child(d: FruniqueDataView, c: ChildInfo, pct: Permill) -> FruniqueDataView {
    FruniqueDataView {
        children: Some(
            match d.children {
                Some(ch) => ch.push(c),
                None => seq![c],
            },
        ),
        weight: Permill::spec_from_parts((d.weight.spec_parts() - pct.spec_parts()) as u32),
        ..d
    }
}

/// Whether the division of `p`'s parent would read frunique data that is not stored.
pub open spec fn division_reads_missing(s: FruniquesState, p: ParentInfo) -> bool {
    s.collections.contains_key(p.collection_id) && s.items.contains_key((p.collection_id, p.parent_id))
        && !s.info.contains_key((p.collection_id, p.parent_id))
}

/// Division: `item` of `collection` becomes a child of `p`'s parent.
pub open spec fn nft_division(
    s: FruniquesState,
    collection: CollectionId,
    item: ItemId,
    metadata: Seq<u8>,
    p: ParentInfo,
    user: AccountId,
) -> Result<FruniquesState, Error> {
    let pk = (p.collection_id, p.parent_id);
    let ck = (collection, item);
    if !s.collections.contains_key(p.collection_id) {
        Err(Error::CollectionNotFound)
    } else if !s.items.contains_key(pk) {
        Err(Error::FruniqueNotFound)
    } else if s.info[pk].frozen {
        Err(Error::ParentFrozen)
    } else if s.info[pk].redeemed {
        Err(Error::ParentAlreadyRedeemed)
    } else {
        let pct = child_weight(p, s.info[pk]);
        let child = child_data(p, pct, metadata, user);
        let info1 = s.info.insert(ck, child);
        let par = info1[pk];
        if children_len(par) >= s.max_children {
            Err(Error::MaxNumberOfChildrenReached)
        } else {
            let c = ChildInfo {
                collection_id: collection,
                child_id: item,
                weight_inherited: pct,
                is_hierarchical: p.is_hierarchical,
            };
            Ok(FruniquesState { info: info1.insert(pk, with_child(par, c, pct)), ..s })
        }
    }
}

/// Spawning a frunique in `collection`: mint the next item, then record it as a
/// root, or as a child of `parent`.
pub open spec fn spawn(
    s: FruniquesState,
    collection: CollectionId,
    owner: AccountId,
    metadata: Seq<u8>,
    parent: Option<ParentInfo>,
) -> Result<FruniquesState, Error> {
    if !s.collections.contains_key(collection) {
        Err(Error::CollectionNotFound)
    } else {
        let item = next_item(s, collection);
        let s1 = minted(s, collection, owner);
        match parent {
            Some(p) => nft_division(s1, collection, item, metadata, p, owner),
            None => Ok(
                FruniquesState {
                    info: s1.info.insert((collection, item), root_data(metadata, owner)),
                    roots: s1.roots.insert((collection, item), true),
                    ..s1
                },
            ),
        }
    }
}

/// Redemption: the frunique becomes redeemed and frozen.
pub open spec fn redeem(s: FruniquesState, collection: CollectionId, item: ItemId) -> Result<FruniquesState, Error> {
    let k = (collection, item);
    if !s.collections.contains_key(collection) {
        Err(Error::CollectionNotFound)
    } else if !s.items.contains_key(k) {
        Err(Error::FruniqueNotFound)
    } else if s.info[k].frozen {
        Err(Error::FruniqueFrozen)
    } else if s.info[k].redeemed {
        Err(Error::FruniqueAlreadyRedeemed)
    } else {
        Ok(
            FruniquesState {
                info: s.info.insert(k, FruniqueDataView { redeemed: true, frozen: true, ..s.info[k] }),
                redeemed: s.redeemed.insert(k, true),
                ..s
            },
        )
    }
}

/// Setting the frozen flag of a stored frunique.
pub open spec fn set_frozen(s: FruniquesState, k: ItemKey, frozen: bool) -> Result<FruniquesState, Error> {
    if !s.info.contains_key(k) {
        Err(Error::FruniqueNotFound)
    } else {
        Ok(FruniquesState { info: s.info.insert(k, FruniqueDataView { frozen, ..s.info[k] }), ..s })
    }
}

/// The number of groups of roles that the setup creates.
pub const SETUP_GROUPS: u32 = 5;

/// The group of roles that setup step `i` creates: owner, admin,
/// collaborator, collector, then holder.
pub open spec fn setup_group(i: int) -> FruniqueRole {
    if i == 0 {
        FruniqueRole::Owner
    } else if i == 1 {
        FruniqueRole::Admin
    } else if i == 2 {
        FruniqueRole::Collaborator
    } else if i == 3 {
        FruniqueRole::Collector
    } else {
        FruniqueRole::Holder
    }
}

/// The answer of the access control pallet to a call of the setup: the ids of
/// the roles it created, or its error. The setup reads nothing from the `Ok`
/// answer to a permission call.
pub type SetupAnswer = Result<Vec<Id>, Error>;

/// The calls the setup makes and how it ends, given the answers to its calls in
/// order. The roles of the groups before `g` are created, and `pending` roles
/// of group `g - 1` still wait for that group's permissions. Each call takes
/// the next answer; the first error ends the setup with that error, and the
/// end is `None` while the last call waits for its answer.
pub open spec fn setup_run(g: nat, pending: Seq<Id>, answers: Seq<SetupAnswer>) -> (
    Seq<FruniquesCallView>,
    Option<Result<(), Error>>,
)
    decreases answers.len(),
{
    if pending.len() > 0 {
        let call = FruniquesCallView::CreateAndSetPermissions { role: pending[0]@, group: setup_group(g - 1) };
        if answers.len() == 0 {
            (seq![call], None)
        } else {
            match answers[0] {
                Err(e) => (seq![call], Some(Err(e))),
                Ok(_) => {
                    let rest = setup_run(g, pending.drop_first(), answers.drop_first());
                    (seq![call] + rest.0, rest.1)
                },
            }
        }
    } else if g >= SETUP_GROUPS {
        (Seq::empty(), Some(Ok(())))
    } else {
        let call = FruniquesCallView::CreateAndSetRoles { group: setup_group(g as int) };
        if answers.len() == 0 {
            (seq![call], None)
        } else {
            match answers[0] {
                Err(e) => (seq![call], Some(Err(e))),
                Ok(ids) => {
                    let rest = setup_run(g + 1, ids@, answers.drop_first());
                    (seq![call] + rest.0, rest.1)
                },
            }
        }
    }
}

/// The whole setup from its start.
pub open spec fn initial_setup_run(answers: Seq<SetupAnswer>) -> (Seq<FruniquesCallView>, Option<Result<(), Error>>) {
    setup_run(0, Seq::empty(), answers)
}

/// The setup makes one call per answer it reads and stops at the first error:
/// while it waits, every answer so far was `Ok` and one more call is made; when
/// it fails, its error is the answer to its last call and every earlier answer
/// was `Ok`; when it succeeds, every answer it read was `Ok`.
pub proof fn lemma_setup_stops_at_first_error(g: nat, pending: Seq<Id>, answers: Seq<SetupAnswer>)
    ensures
        ({
            let (calls, end) = setup_run(g, pending, answers);
            &&& end is None ==> calls.len() == answers.len() + 1 && forall|k: int|
                0 <= k < answers.len() ==> (#[trigger] answers[k]) is Ok
            &&& end matches Some(Err(e)) ==> 1 <= calls.len() <= answers.len() && answers[calls.len() - 1]
                == Err::<Vec<Id>, Error>(e) && forall|k: int| 0 <= k < calls.len() - 1 ==> (#[trigger] answers[k]) is Ok
            &&& end == Some(Ok::<(), Error>(())) ==> calls.len() <= answers.len() && forall|k: int|
                0 <= k < calls.len() ==> (#[trigger] answers[k]) is Ok
        }),
    decreases answers.len(),
{
    if answers.len() > 0 {
        let rest = answers.drop_first();
        if pending.len() > 0 {
            lemma_setup_stops_at_first_error(g, pending.drop_first(), rest);
        } else if g < SETUP_GROUPS {
            if let Ok(ids) = answers[0] {
                lemma_setup_stops_at_first_error(g + 1, ids@, rest);
            }
        }
        assert forall|k: int| 0 < k < answers.len() implies answers[k] == rest[k - 1] by {}
    }
}

/// The value of four bytes read least significant first.
pub open spec fn le_u32(b: Seq<u8>) -> u32 {
    (b[0] as int + 256 * b[1] as int + 65536 * b[2] as int + 16777216 * b[3] as int) as u32
}

/// The value of four bytes read most significant first.
pub open spec fn be_u32(b: Seq<u8>) -> u32 {
    (b[3] as int + 256 * b[2] as int + 65536 * b[1] as int + 16777216 * b[0] as int) as u32
}

/// `u32::from_ne_bytes`: the bytes read in the machine's byte order.
/// Claimed: the value is the little-endian or the big-endian reading; which one
/// depends on the machine.
#[verifier::external_body]
fn u32_from_ne_bytes(b: [u8; 4]) -> (r: u32)
    ensures
        r == le_u32(b@) || r == be_u32(b@),
{
    u32::from_ne_bytes(b)
}

/// `String::push`: appends a character.
/// Claimed: the string's characters are the old ones followed by `c`.
#[verifier::external_body]
fn string_push(s: &mut String, c: char)
    ensures
        final(s)@ == old(s)@.push(c),
{
    s.push(c)
}

/// A copy of a list of role ids.
fn copy_role_ids(v: &Vec<Id>) -> (r: Vec<Id>)
    ensures
        r@ == v@,
{
    let mut r: Vec<Id> = Vec::new();
    let mut i: usize = 0;
    while i < v.len()
        invariant
            0 <= i <= v@.len(),
            r@ == v@.subrange(0, i as int),
        decreases v@.len() - i,
    {
        r.push(v[i]);
        i = i + 1;
        assert(r@ =~= v@.subrange(0, i as int));
    }
    assert(v@.subrange(0, v@.len() as int) =~= v@);
    r
}

/// The group of roles that setup step `i` creates.
fn setup_group_of(i: u32) -> (r: FruniqueRole)
    requires
        i < SETUP_GROUPS,
    ensures
        r == setup_group(i as int),
{
    if i == 0 {
        FruniqueRole::Owner
    } else if i == 1 {
        FruniqueRole::Admin
    } else if i == 2 {
        FruniqueRole::Collaborator
    } else if i == 3 {
        FruniqueRole::Collector
    } else {
        FruniqueRole::Holder
    }
}

/// The state of the fruniques pallet.
pub struct Pallet {
    next_collection: CollectionId,
    collections: AssocMap<CollectionId, AccountId>,
    items: AssocMap<ItemKey, AccountId>,
    next_frunique: AssocMap<CollectionId, ItemId>,
    info: AssocMap<ItemKey, FruniqueData>,
    roots: AssocMap<ItemKey, bool>,
    redeemed: AssocMap<ItemKey, bool>,
    max_children: u32,
}

impl View for Pallet {
    type V = FruniquesState;

    closed spec fn view(&self) -> FruniquesState {
        FruniquesState {
            next_collection: self.next_collection,
            collections: self.collections@,
            items: self.items@,
            next_frunique: self.next_frunique@,
            info: self.info@,
            roots: self.roots@,
            redeemed: self.redeemed@,
            max_children: self.max_children,
        }
    }
}

impl Pallet {
    pub closed spec fn wf(&self) -> bool {
        &&& self.collections.wf()
        &&& self.items.wf()
        &&& self.next_frunique.wf()
        &&& self.info.wf()
        &&& self.roots.wf()
        &&& self.redeemed.wf()
        &&& forall|c: CollectionId| #[trigger] self.collections@.contains_key(c) ==> c < self.next_collection
        &&& forall|c: CollectionId, i: ItemId|
            #[trigger] self.items@.contains_key((c, i)) ==> i < next_item(self@, c)
    }

    /// An empty pallet whose fruniques have at most `max_children` children.
    pub fn new(max_children: u32) -> (p: Pallet)
        ensures
            p.wf(),
            p@ == (FruniquesState {
                next_collection: 0,
                collections: Map::empty(),
                items: Map::empty(),
                next_frunique: Map::empty(),
                info: Map::empty(),
                roots: Map::empty(),
                redeemed: Map::empty(),
                max_children,
            }),
    {
        Pallet {
            next_collection: 0,
            collections: AssocMap::new(),
            items: AssocMap::new(),
            next_frunique: AssocMap::new(),
            info: AssocMap::new(),
            roots: AssocMap::new(),
            redeemed: AssocMap::new(),
            max_children,
        }
    }

    /// The id of the next collection.
    pub fn next_collection(&self) -> (r: CollectionId)
        ensures
            r == self@.next_collection,
    {
        self.next_collection
    }

    /// The id of the next frunique of a collection.
    pub fn next_frunique(&self, collection: CollectionId) -> (r: ItemId)
        requires
            self.wf(),
        ensures
            r == next_item(self@, collection),
    {
        match self.next_frunique.get(&collection) {
            Some(n) => *n,
            None => 0,
        }
    }

    /// Whether the collection exists.
    pub fn collection_exists(&self, class_id: CollectionId) -> (r: bool)
        requires
            self.wf(),
        ensures
            r == self@.collections.contains_key(class_id),
    {
        self.collections.contains_key(&class_id)
    }

    /// Whether the item exists.
    pub fn instance_exists(&self, class_id: CollectionId, instance_id: ItemId) -> (r: bool)
        requires
            self.wf(),
        ensures
            r == self@.items.contains_key((class_id, instance_id)),
    {
        self.items.contains_key(&(class_id, instance_id))
    }

    /// The owner of the item, if it exists.
    pub fn admin_of(&self, class_id: CollectionId, instance_id: ItemId) -> (r: Option<AccountId>)
        requires
            self.wf(),
        ensures
            r == (if self@.items.contains_key((class_id, instance_id)) {
                Some(self@.items[(class_id, instance_id)])
            } else {
                None::<AccountId>
            }),
    {
        match self.items.get(&(class_id, instance_id)) {
            Some(o) => Some(*o),
            None => None,
        }
    }

    /// The stored data of a frunique, if any.
    pub fn frunique_info(&self, collection: CollectionId, item: ItemId) -> (r: Option<&FruniqueData>)
        requires
            self.wf(),
        ensures
            match r {
                Some(d) => self@.info.contains_key((collection, item)) && d@ == self@.info[(collection, item)],
                None => !self@.info.contains_key((collection, item)),
            },
    {
        self.info.get(&(collection, item))
    }

    /// Whether the frunique was spawned as a root.
    pub fn frunique_roots(&self, collection: CollectionId, item: ItemId) -> (r: bool)
        requires
            self.wf(),
        ensures
            r == (self@.roots.contains_key((collection, item)) && self@.roots[(collection, item)]),
    {
        match self.roots.get(&(collection, item)) {
            Some(b) => *b,
            None => false,
        }
    }

    /// Whether the frunique has been redeemed.
    pub fn frunique_redeemed(&self, collection: CollectionId, item: ItemId) -> (r: bool)
        requires
            self.wf(),
        ensures
            r == (self@.redeemed.contains_key((collection, item)) && self@.redeemed[(collection, item)]),
    {
        match self.redeemed.get(&(collection, item)) {
            Some(b) => *b,
            None => false,
        }
    }

    /// Whether a stored frunique is frozen.
    pub fn is_frozen(&self, collection_id: CollectionId, instance_id: ItemId) -> (r: bool)
        requires
            self.wf(),
            self@.info.contains_key((collection_id, instance_id)),
        ensures
            r == self@.info[(collection_id, instance_id)].frozen,
    {
        self.info.get(&(collection_id, instance_id)).unwrap().frozen
    }

    /// The metadata of a stored frunique.
    pub fn get_nft_metadata(&self, collection: CollectionId, item: ItemId) -> (r: Vec<u8>)
        requires
            self.wf(),
            self@.info.contains_key((collection, item)),
        ensures
            r@ == self@.info[(collection, item)].metadata,
    {
        bytes_copy(&self.info.get(&(collection, item)).unwrap().metadata)
    }

    /// Mints the next item of `collection` to `owner`. It makes the uniques calls
    /// of `mint_calls` in order: mint, set the metadata, set each attribute.
    /// `answers` are the answers to the calls made so far; the first failing call
    /// ends the mint with its error and no later call is made. The item is
    /// recorded only once every call succeeded. Returns the calls made and how
    /// the mint ended (`None` while the last call waits for its answer).
    pub fn do_mint(
        &mut self,
        collection: CollectionId,
        owner: AccountId,
        metadata: Vec<u8>,
        attributes: Option<Vec<(Vec<u8>, Vec<u8>)>>,
        answers: &Vec<Result<(), Error>>,
    ) -> (r: (Vec<FruniquesCall>, Option<Result<(), Error>>))
        requires
            old(self).wf(),
            next_item(old(self)@, collection) < u32::MAX,
        ensures
            final(self).wf(),
            calls_view(r.0@) == mint_plan(old(self)@, collection, owner, metadata@, opt_attributes(attributes)).take(
                steps_end(mint_plan(old(self)@, collection, owner, metadata@, opt_attributes(attributes)).len(), answers@).0 as int,
            ),
            r.1 == steps_end(mint_plan(old(self)@, collection, owner, metadata@, opt_attributes(attributes)).len(), answers@).1,
            r.1 matches Some(Ok(_)) ==> final(self)@ == minted(old(self)@, collection, owner),
            !(r.1 matches Some(Ok(_))) ==> final(self)@ == old(self)@,
    {
        let nex_item = self.next_frunique(collection);
        let ghost s0 = self@;
        let ghost attrs_view = opt_attributes(attributes);
        let ghost md = metadata@;
        let mut calls: Vec<FruniquesCall> = Vec::new();
        calls.push(FruniquesCall::Mint { collection, item: nex_item, owner });
        calls.push(FruniquesCall::SetMetadata { collection, item: nex_item, metadata });
        let ghost head = calls_view(calls@);
        proof {
            assert(head =~= seq![
                FruniquesCallView::Mint { collection, item: nex_item, owner },
                FruniquesCallView::SetMetadata { collection, item: nex_item, metadata: md },
            ]);
        }
        match attributes {
            Some(attrs) => {
                let mut i: usize = 0;
                while i < attrs.len()
                    invariant
                        0 <= i <= attrs@.len(),
                        calls_view(calls@) == head + attrs@.subrange(0, i as int).map_values(
                            |kv: (Vec<u8>, Vec<u8>)|
                                FruniquesCallView::SetAttribute { origin: Origin::Root, collection, item: nex_item, key: kv.0@, value: kv.1@ },
                        ),
                    decreases attrs@.len() - i,
                {
                    let key = bytes_copy(&attrs[i].0);
                    let value = bytes_copy(&attrs[i].1);
                    let ghost before = calls_view(calls@);
                    let ghost f = |kv: (Vec<u8>, Vec<u8>)|
                        FruniquesCallView::SetAttribute { origin: Origin::Root, collection, item: nex_item, key: kv.0@, value: kv.1@ };
                    calls.push(FruniquesCall::SetAttribute { origin: Origin::Root, collection, item: nex_item, key, value });
                    i = i + 1;
                    proof {
                        assert(calls_view(calls@) =~= before.push(f(attrs@[i - 1])));
                        assert(attrs@.subrange(0, i as int).map_values(f) =~= attrs@.subrange(0, i - 1).map_values(f).push(f(attrs@[i - 1])));
                        assert(calls_view(calls@) =~= head + attrs@.subrange(0, i as int).map_values(
                            |kv: (Vec<u8>, Vec<u8>)|
                                FruniquesCallView::SetAttribute { origin: Origin::Root, collection, item: nex_item, key: kv.0@, value: kv.1@ },
                        ));
                    }
                }
                proof {
                    assert(attrs@.subrange(0, attrs@.len() as int) =~= attrs@);
                }
            },
            None => {
                proof {
                    assert(head + Seq::<FruniquesCallView>::empty() =~= head);
                }
            },
        }
        let ghost full = calls_view(calls@);
        proof {
            assert(full =~= mint_calls(collection, nex_item, owner, md, attrs_view));
        }
        let (ran, end) = run_in_order(calls.len(), answers);
        proof {
            lemma_steps_stop_at_first_failure::<(), Error>(calls@.len() as nat, answers@);
        }
        calls.truncate(ran);
        proof {
            assert(calls_view(calls@) =~= full.take(ran as int));
        }
        match end {
            Some(Ok(_)) => {
                self.next_frunique.insert(collection, nex_item + 1);
                self.items.insert((collection, nex_item), owner);
                proof {
                    assert(self@ =~= minted(s0, collection, owner));
                    assert forall|c: CollectionId, i: ItemId| #[trigger] self.items@.contains_key((c, i)) implies i
                        < next_item(self@, c) by {
                        if c == collection && i == nex_item {
                        } else {
                            assert(s0.items.contains_key((c, i)));
                        }
                    }
                }
            },
            _ => {},
        }
        (calls, end)
    }

    fn set_frozen_flag(&mut self, class_id: CollectionId, instance_id: ItemId, frozen: bool) -> (r: Result<(), Error>)
        requires
            old(self).wf(),
        ensures
            final(self).wf(),
            match set_frozen(old(self)@, (class_id, instance_id), frozen) {
                Ok(s) => r == Ok::<(), Error>(()) && final(self)@ == s,
                Err(e) => r == Err::<(), Error>(e) && final(self)@ == old(self)@,
            },
    {
        let ghost s0 = self@;
        let k = (class_id, instance_id);
        match self.info.remove(&k) {
            None => {
                proof {
                    assert(self.info@ =~= s0.info);
                    assert(self@ =~= s0);
                }
                Err(Error::FruniqueNotFound)
            },
            Some(d) => {
                let updated = FruniqueData { frozen, ..d };
                self.info.insert(k, updated);
                proof {
                    assert(self.info@ =~= s0.info.insert(k, FruniqueDataView { frozen, ..s0.info[k] }));
                    assert(self@ =~= set_frozen(s0, k, frozen).unwrap());
                }
                Ok(())
            },
        }
    }

    /// Freezes a stored frunique.
    pub fn do_freeze(&mut self, class_id: CollectionId, instance_id: ItemId) -> (r: Result<(), Error>)
        requires
            old(self).wf(),
        ensures
            final(self).wf(),
            match set_frozen(old(self)@, (class_id, instance_id), true) {
                Ok(s) => r == Ok::<(), Error>(()) && final(self)@ == s,
                Err(e) => r == Err::<(), Error>(e) && final(self)@ == old(self)@,
            },
    {
        self.set_frozen_flag(class_id, instance_id, true)
    }

    /// Thaws a stored frunique.
    pub fn do_thaw(&mut self, class_id: CollectionId, instance_id: ItemId) -> (r: Result<(), Error>)
        requires
            old(self).wf(),
        ensures
            final(self).wf(),
            match set_frozen(old(self)@, (class_id, instance_id), false) {
                Ok(s) => r == Ok::<(), Error>(()) && final(self)@ == s,
                Err(e) => r == Err::<(), Error>(e) && final(self)@ == old(self)@,
            },
    {
        self.set_frozen_flag(class_id, instance_id, false)
    }

    /// Redeems a frunique: it becomes redeemed and frozen.
    pub fn do_redeem(&mut self, collection: CollectionId, item: ItemId) -> (r: Result<(), Error>)
        requires
            old(self).wf(),
            old(self)@.collections.contains_key(collection) && old(self)@.items.contains_key((collection, item))
                ==> old(self)@.info.contains_key((collection, item)),
        ensures
            final(self).wf(),
            match redeem(old(self)@, collection, item) {
                Ok(s) => r == Ok::<(), Error>(()) && final(self)@ == s,
                Err(e) => r == Err::<(), Error>(e) && final(self)@ == old(self)@,
            },
    {
        let k = (collection, item);
        if !self.collections.contains_key(&collection) {
            return Err(Error::CollectionNotFound);
        }
        if !self.items.contains_key(&k) {
            return Err(Error::FruniqueNotFound);
        }
        let ghost s0 = self@;
        let d = self.info.remove(&k).unwrap();
        if d.frozen || d.redeemed {
            let frozen = d.frozen;
            self.info.insert(k, d);
            proof {
                assert(self.info@ =~= s0.info);
                assert(self@ =~= s0);
            }
            if frozen {
                return Err(Error::FruniqueFrozen);
            } else {
                return Err(Error::FruniqueAlreadyRedeemed);
            }
        }
        let updated = FruniqueData { redeemed: true, frozen: true, ..d };
        self.info.insert(k, updated);
        self.redeemed.insert(k, true);
        proof {
            assert(self.info@ =~= s0.info.insert(k, FruniqueDataView { redeemed: true, frozen: true, ..s0.info[k] }));
            assert(self@ =~= redeem(s0, collection, item).unwrap());
        }
        Ok(())
    }

    /// Divides: `item` of `collection` becomes a child of the parent named by
    /// `parent_info`, inheriting `parent_info.parent_weight` of the parent's weight,
    /// which the parent loses.
    pub fn do_nft_division(
        &mut self,
        collection: CollectionId,
        item: ItemId,
        metadata: Vec<u8>,
        parent_info: &ParentInfo,
        user: AccountId,
    ) -> (r: Result<(), Error>)
        requires
            old(self).wf(),
            !division_reads_missing(old(self)@, *parent_info),
        ensures
            final(self).wf(),
            match nft_division(old(self)@, collection, item, metadata@, *parent_info, user) {
                Ok(s) => r == Ok::<(), Error>(()) && final(self)@ == s,
                Err(e) => r == Err::<(), Error>(e) && final(self)@ == old(self)@,
            },
    {
        let ghost s0 = self@;
        let ghost md = metadata@;
        let pk = (parent_info.collection_id, parent_info.parent_id);
        let ck = (collection, item);
        if !self.collections.contains_key(&parent_info.collection_id) {
            return Err(Error::CollectionNotFound);
        }
        if !self.items.contains_key(&pk) {
            return Err(Error::FruniqueNotFound);
        }
        let parent = self.info.get(&pk).unwrap();
        if parent.frozen {
            return Err(Error::ParentFrozen);
        }
        if parent.redeemed {
            return Err(Error::ParentAlreadyRedeemed);
        }
        let pct = parent_info.parent_weight.mul(parent.weight);
        let same = collection == pk.0 && item == pk.1;
        let n_children: usize = if same {
            0
        } else {
            match &parent.children {
                Some(c) => c.len(),
                None => 0,
            }
        };
        if n_children as u64 >= self.max_children as u64 {
            return Err(Error::MaxNumberOfChildrenReached);
        }
        let full = Permill::from_parts(1_000_000);
        let child = FruniqueData {
            metadata,
            weight: full,
            parent: Some(ParentInfo { parent_weight: pct, ..*parent_info }),
            children: None,
            verified: false,
            frozen: false,
            redeemed: false,
            spawned_by: Some(user),
            verified_by: None,
        };
        proof {
            assert(Permill::spec_from_parts(1_000_000).spec_parts() == full.spec_parts());
            assert(child@ == child_data(*parent_info, pct, md, user));
            assert(pct == child_weight(*parent_info, s0.info[pk]));
        }
        self.info.insert(ck, child);
        let ghost info1 = self.info@;
        let par = self.info.remove(&pk).unwrap();
        let ghost par_view = par@;
        let ci = ChildInfo {
            collection_id: collection,
            child_id: item,
            weight_inherited: pct,
            is_hierarchical: parent_info.is_hierarchical,
        };
        let new_children = match par.children {
            Some(ch) => {
                let mut ch = ch;
                ch.push(ci);
                ch
            },
            None => {
                let mut v: Vec<ChildInfo> = Vec::new();
                v.push(ci);
                v
            },
        };
        proof {
            if !same {
                assert(par_view == s0.info[pk]);
            }
        }
        let new_weight = par.weight.sub(pct);
        let updated = FruniqueData { children: Some(new_children), weight: new_weight, ..par };
        proof {
            assert(Permill::spec_from_parts((par_view.weight.spec_parts() - pct.spec_parts()) as u32).spec_parts()
                == new_weight.spec_parts());
            assert(updated@.children =~= with_child(par_view, ci, pct).children);
            assert(updated@ == with_child(par_view, ci, pct));
        }
        self.info.insert(pk, updated);
        proof {
            assert(self.info@ =~= info1.insert(pk, with_child(par_view, ci, pct)));
            assert(self@ =~= nft_division(s0, collection, item, md, *parent_info, user).unwrap());
        }
        Ok(())
    }

    /// Spawns a frunique in `collection`: mints the next item to `owner` (see
    /// `do_mint`, which reads `answers`), then records it as a root, or divides it
    /// from the parent named by `parent_info`. On an error nothing changes.
    /// Returns the calls made and how the spawn ended (`None` while a call of the
    /// mint waits for its answer).
    pub fn do_spawn(
        &mut self,
        collection: CollectionId,
        owner: AccountId,
        metadata: Vec<u8>,
        attributes: Option<Vec<(Vec<u8>, Vec<u8>)>>,
        parent_info: Option<ParentInfo>,
        answers: &Vec<Result<(), Error>>,
    ) -> (r: (Vec<FruniquesCall>, Option<Result<(), Error>>))
        requires
            old(self).wf(),
            next_item(old(self)@, collection) < u32::MAX,
            match parent_info {
                Some(p) => !division_reads_missing(minted(old(self)@, collection, owner), p),
                None => true,
            },
        ensures
            final(self).wf(),
            !old(self)@.collections.contains_key(collection) ==> r.0@.len() == 0 && r.1 == Some(
                Err::<(), Error>(Error::CollectionNotFound),
            ) && final(self)@ == old(self)@,
            old(self)@.collections.contains_key(collection) ==> calls_view(r.0@) == mint_plan(
                old(self)@,
                collection,
                owner,
                metadata@,
                opt_attributes(attributes),
            ).take(steps_end(mint_plan(old(self)@, collection, owner, metadata@, opt_attributes(attributes)).len(), answers@).0 as int),
            old(self)@.collections.contains_key(collection) ==> match steps_end(
                mint_plan(old(self)@, collection, owner, metadata@, opt_attributes(attributes)).len(),
                answers@,
            ).1 {
                Some(Ok(_)) => match spawn(old(self)@, collection, owner, metadata@, parent_info) {
                    Ok(s) => r.1 == Some(Ok::<(), Error>(())) && final(self)@ == s,
                    Err(e) => r.1 == Some(Err::<(), Error>(e)) && final(self)@ == old(self)@,
                },
                end => r.1 == end && final(self)@ == old(self)@,
            },
    {
        if !self.collection_exists(collection) {
            return (Vec::new(), Some(Err(Error::CollectionNotFound)));
        }
        let ghost s0 = self@;
        let ghost md = metadata@;
        let old_next: Option<ItemId> = match self.next_frunique.get(&collection) {
            Some(n) => Some(*n),
            None => None,
        };
        let item = self.next_frunique(collection);
        let (calls, mint_end) = self.do_mint(collection, owner, bytes_copy(&metadata), attributes, answers);
        match mint_end {
            Some(Ok(_)) => {},
            _ => return (calls, mint_end),
        }
        match parent_info {
            Some(p) => {
                let res = self.do_nft_division(collection, item, metadata, &p, owner);
                match res {
                    Ok(()) => (calls, Some(Ok(()))),
                    Err(e) => {
                        // Nothing of the call stays: undo the mint.
                        let ghost s1 = self@;
                        self.items.remove(&(collection, item));
                        match old_next {
                            Some(n) => {
                                self.next_frunique.insert(collection, n);
                            },
                            None => {
                                self.next_frunique.remove(&collection);
                            },
                        }
                        proof {
                            assert(!s0.items.contains_key((collection, item)));
                            assert(self.items@ =~= s0.items);
                            assert(self.next_frunique@ =~= s0.next_frunique);
                            assert(self@ =~= s0);
                        }
                        (calls, Some(Err(e)))
                    },
                }
            },
            None => {
                let data = FruniqueData {
                    metadata,
                    weight: Self::percent_to_permill(100),
                    parent: None,
                    children: None,
                    verified: false,
                    frozen: false,
                    redeemed: false,
                    spawned_by: Some(owner),
                    verified_by: None,
                };
                proof {
                    assert(Permill::spec_from_parts(1_000_000).spec_parts() == data.weight.spec_parts());
                    assert(data@ == root_data(md, owner));
                }
                let ghost s1 = self@;
                self.info.insert((collection, item), data);
                self.roots.insert((collection, item), true);
                proof {
                    assert(self@ =~= spawn(s0, collection, owner, md, parent_info).unwrap());
                }
                (calls, Some(Ok(())))
            },
        }
    }

    /// Creates the next collection for the signer of `origin`. It makes four
    /// calls in order: create the collection's scope, give the owner the owner
    /// role in it, create the uniques collection, set its metadata. `answers`
    /// are the answers to the calls made so far; the first failing call ends the
    /// creation with its error and no later call is made. The collection is
    /// recorded only once all four succeeded. Returns the calls made and how the
    /// creation ended (`None` while the last call waits for its answer).
    pub fn do_create_collection(
        &mut self,
        origin: Origin,
        metadata: Vec<u8>,
        admin: AccountId,
        answers: &Vec<Result<(), Error>>,
    ) -> (r: (Vec<FruniquesCall>, Option<Result<CollectionId, Error>>))
        requires
            old(self).wf(),
            old(self)@.next_collection < u32::MAX,
        ensures
            final(self).wf(),
            match origin {
                Origin::Signed(owner) => {
                    let c = old(self)@.next_collection;
                    let (ran, end) = steps_end(4, answers@);
                    &&& calls_view(r.0@) == create_collection_calls(c, owner, admin, metadata@).take(ran as int)
                    &&& match end {
                        Some(Ok(_)) => r.1 == Some(Ok::<CollectionId, Error>(c)) && final(self)@ == (FruniquesState {
                            next_collection: (c + 1) as u32,
                            collections: old(self)@.collections.insert(c, owner),
                            ..old(self)@
                        }),
                        Some(Err(e)) => r.1 == Some(Err::<CollectionId, Error>(e)) && final(self)@ == old(self)@,
                        None => r.1 is None && final(self)@ == old(self)@,
                    }
                },
                _ => r.0@.len() == 0 && r.1 == Some(Err::<CollectionId, Error>(Error::BadOrigin)) && final(self)@
                    == old(self)@,
            },
    {
        let class_id = Self::u32_to_class_id(self.next_collection);
        let owner = match ensure_signed(origin) {
            Some(o) => o,
            None => return (Vec::new(), Some(Err(Error::BadOrigin))),
        };
        let scope_id = Self::collection_scope(class_id);
        let mut plan: Vec<FruniquesCall> = Vec::new();
        plan.push(FruniquesCall::CreateScope { scope: scope_id });
        plan.push(Self::insert_auth_in_frunique_collection(owner, class_id, FruniqueRole::Owner));
        plan.push(FruniquesCall::CreateCollection { collection: class_id, owner, admin });
        plan.push(FruniquesCall::SetCollectionMetadata { collection: class_id, metadata });
        let ghost full = calls_view(plan@);
        proof {
            assert(full =~= create_collection_calls(class_id, owner, admin, plan@[3]@->SetCollectionMetadata_metadata));
        }
        let (ran, end) = run_in_order(4, answers);
        proof {
            lemma_steps_stop_at_first_failure::<(), Error>(4, answers@);
        }
        plan.truncate(ran);
        proof {
            assert(calls_view(plan@) =~= full.take(ran as int));
        }
        match end {
            Some(Ok(())) => {
                let ghost s0 = self@;
                self.collections.insert(class_id, owner);
                self.next_collection = self.next_collection + 1;
                proof {
                    assert forall|c: CollectionId, i: ItemId| #[trigger] self.items@.contains_key((c, i)) implies i
                        < next_item(self@, c) by {
                        assert(s0.items.contains_key((c, i)));
                    }
                }
                (plan, Some(Ok(class_id)))
            },
            Some(Err(e)) => (plan, Some(Err(e))),
            None => (plan, None),
        }
    }

    /// Burns an item on behalf of `origin`; the item must have an owner. It makes
    /// one uniques call, whose answer is `answer`; the item is removed only when
    /// that call succeeded.
    pub fn burn(&mut self, origin: Origin, class_id: CollectionId, instance_id: ItemId, answer: Result<(), Error>) -> (r: (
        Vec<FruniquesCall>,
        Result<(), Error>,
    ))
        requires
            old(self).wf(),
        ensures
            final(self).wf(),
            old(self)@.items.contains_key((class_id, instance_id)) ==> calls_view(r.0@) == seq![
                FruniquesCallView::Burn {
                    origin,
                    collection: class_id,
                    item: instance_id,
                    check_owner: old(self)@.items[(class_id, instance_id)],
                },
            ],
            old(self)@.items.contains_key((class_id, instance_id)) ==> r.1 == answer,
            old(self)@.items.contains_key((class_id, instance_id)) && answer is Ok ==> final(self)@ == (FruniquesState {
                items: old(self)@.items.remove((class_id, instance_id)),
                ..old(self)@
            }),
            old(self)@.items.contains_key((class_id, instance_id)) && answer is Err ==> final(self)@ == old(self)@,
            !old(self)@.items.contains_key((class_id, instance_id)) ==> r.0@.len() == 0 && r.1 == Err::<(), Error>(
                Error::InstanceNotOwned,
            ) && final(self)@ == old(self)@,
    {
        let admin = self.admin_of(class_id, instance_id);
        match admin {
            None => (Vec::new(), Err(Error::InstanceNotOwned)),
            Some(owner) => {
                let mut calls: Vec<FruniquesCall> = Vec::new();
                calls.push(FruniquesCall::Burn { origin, collection: class_id, item: instance_id, check_owner: owner });
                proof {
                    assert(calls_view(calls@) =~= seq![
                        FruniquesCallView::Burn { origin, collection: class_id, item: instance_id, check_owner: owner },
                    ]);
                }
                if let Err(e) = answer {
                    return (calls, Err(e));
                }
                let ghost s0 = self@;
                self.items.remove(&(class_id, instance_id));
                proof {
                    assert forall|c: CollectionId, i: ItemId| #[trigger] self.items@.contains_key((c, i)) implies i < next_item(self@, c) by {
                        assert(s0.items.contains_key((c, i)));
                    }
                }
                (calls, answer)
            },
        }
    }

    /// Sets up the pallet's roles and permissions in the access control pallet.
    /// For the groups owner, admin, collaborator, collector and holder in turn,
    /// it creates the group's roles, then gives each role id the access control
    /// pallet answered with the group's permissions. `answers` are the answers
    /// to the calls made so far, in order. Returns the calls made, and how the
    /// setup ended: `Ok` after the last group, the error of the first call that
    /// failed (no call follows it), or `None` while the last call waits for its
    /// answer.
    pub fn do_initial_setup(answers: &Vec<SetupAnswer>) -> (r: (Vec<FruniquesCall>, Option<Result<(), Error>>))
        ensures
            calls_view(r.0@) == initial_setup_run(answers@).0,
            r.1 == initial_setup_run(answers@).1,
    {
        let mut calls: Vec<FruniquesCall> = Vec::new();
        let mut g: u32 = 0;
        let mut pending: Vec<Id> = Vec::new();
        let mut j: usize = 0;
        let mut i: usize = 0;
        proof {
            assert(answers@.subrange(0, answers@.len() as int) =~= answers@);
            assert(pending@.subrange(0, 0) =~= Seq::<Id>::empty());
            assert(calls_view(calls@) + initial_setup_run(answers@).0 =~= initial_setup_run(answers@).0);
        }
        loop
            invariant
                g <= SETUP_GROUPS,
                j <= pending@.len(),
                i <= answers@.len(),
                j < pending@.len() ==> g >= 1,
                calls_view(calls@) + setup_run(
                    g as nat,
                    pending@.subrange(j as int, pending@.len() as int),
                    answers@.subrange(i as int, answers@.len() as int),
                ).0 == initial_setup_run(answers@).0,
                setup_run(
                    g as nat,
                    pending@.subrange(j as int, pending@.len() as int),
                    answers@.subrange(i as int, answers@.len() as int),
                ).1 == initial_setup_run(answers@).1,
            decreases answers@.len() - i,
        {
            let ghost p = pending@.subrange(j as int, pending@.len() as int);
            let ghost a = answers@.subrange(i as int, answers@.len() as int);
            let ghost before = calls_view(calls@);
            if j < pending.len() {
                let group = setup_group_of(g - 1);
                let call = FruniquesCall::CreateAndSetPermissions { role: pending[j], group };
                calls.push(call);
                proof {
                    assert(p[0] == pending@[j as int]);
                    assert(calls_view(calls@) =~= before + seq![
                        FruniquesCallView::CreateAndSetPermissions { role: p[0]@, group: setup_group(g - 1) },
                    ]);
                }
                if i >= answers.len() {
                    proof {
                        assert(a.len() == 0);
                    }
                    return (calls, None);
                }
                proof {
                    assert(a[0] == answers@[i as int]);
                }
                match &answers[i] {
                    Err(e) => {
                        return (calls, Some(Err(*e)));
                    },
                    Ok(_) => {},
                }
                proof {
                    assert(p.drop_first() =~= pending@.subrange(j + 1, pending@.len() as int));
                    assert(a.drop_first() =~= answers@.subrange(i + 1, answers@.len() as int));
                    let rest = setup_run(g as nat, p.drop_first(), a.drop_first());
                    assert(calls_view(calls@) + rest.0 =~= before + setup_run(g as nat, p, a).0);
                }
                i = i + 1;
                j = j + 1;
            } else if g >= SETUP_GROUPS {
                proof {
                    assert(p.len() == 0);
                    assert(before + setup_run(g as nat, p, a).0 =~= before);
                }
                return (calls, Some(Ok(())));
            } else {
                calls.push(FruniquesCall::CreateAndSetRoles { group: setup_group_of(g) });
                proof {
                    assert(p.len() == 0);
                    assert(calls_view(calls@) =~= before + seq![
                        FruniquesCallView::CreateAndSetRoles { group: setup_group(g as int) },
                    ]);
                }
                if i >= answers.len() {
                    proof {
                        assert(a.len() == 0);
                    }
                    return (calls, None);
                }
                proof {
                    assert(a[0] == answers@[i as int]);
                }
                match &answers[i] {
                    Err(e) => {
                        return (calls, Some(Err(*e)));
                    },
                    Ok(ids) => {
                        pending = copy_role_ids(ids);
                        j = 0;
                    },
                }
                proof {
                    assert(pending@.subrange(0, pending@.len() as int) =~= pending@);
                    assert(a.drop_first() =~= answers@.subrange(i + 1, answers@.len() as int));
                    let rest = setup_run((g + 1) as nat, pending@, a.drop_first());
                    assert(calls_view(calls@) + rest.0 =~= before + setup_run(g as nat, p, a).0);
                }
                i = i + 1;
                g = g + 1;
            }
        }
    }

    /// The id of the pallet in the access control pallet: the bytes of its
    /// module name.
    pub fn pallet_id(module_name: &Vec<u8>) -> (r: IdOrVec)
        ensures
            r matches IdOrVec::Vec(v) && v@ == module_name@,
    {
        IdOrVec::Vec(bytes_copy(module_name))
    }

    /// The access control scope of a collection.
    pub fn collection_scope(class_id: CollectionId) -> (r: Id)
        ensures
            r@ == spec_collection_scope(class_id),
    {
        let encoded = encode_u32(class_id);
        blake2_256(&encoded)
    }

    /// The call that sets an attribute of an item on behalf of `origin`; the
    /// uniques pallet checks the origin's rights.
    pub fn set_attribute(origin: Origin, class_id: CollectionId, instance_id: ItemId, key: Vec<u8>, value: Vec<u8>) -> (r:
        FruniquesCall)
        ensures
            r@ == (FruniquesCallView::SetAttribute {
                origin,
                collection: class_id,
                item: instance_id,
                key: key@,
                value: value@,
            }),
    {
        FruniquesCall::SetAttribute { origin, collection: class_id, item: instance_id, key, value }
    }

    /// The call that gives `user` the role `role` in the collection's scope.
    pub fn insert_auth_in_frunique_collection(user: AccountId, class_id: CollectionId, role: FruniqueRole) -> (r:
        FruniquesCall)
        ensures
            r@ == (FruniquesCallView::AssignRole { user, scope: spec_collection_scope(class_id), role }),
    {
        FruniquesCall::AssignRole { user, scope: Self::collection_scope(class_id), role }
    }

    /// The call that takes the role `role` in the collection's scope from `user`.
    pub fn remove_auth_from_frunique_collection(user: AccountId, class_id: CollectionId, role: FruniqueRole) -> (r:
        FruniquesCall)
        ensures
            r@ == (FruniquesCallView::RemoveRole { user, scope: spec_collection_scope(class_id), role }),
    {
        FruniquesCall::RemoveRole { user, scope: Self::collection_scope(class_id), role }
    }

    /// The item id of a number.
    pub fn u32_to_instance_id(input: u32) -> (r: ItemId)
        ensures
            r == input,
    {
        input
    }

    /// The collection id of a number.
    pub fn u32_to_class_id(input: u32) -> (r: CollectionId)
        ensures
            r == input,
    {
        input
    }

    /// The fraction of a percentage, capped at one whole.
    pub fn percent_to_permill(input: u32) -> (r: Permill)
        ensures
            r.spec_parts() == percent_parts(input),
    {
        Permill::from_percent(input)
    }

    /// The parts per million of a fraction.
    pub fn permill_to_percent(input: Permill) -> (r: u32)
        ensures
            r == input.spec_parts(),
    {
        input.deconstruct()
    }

    /// The number whose bytes, in the machine's byte order, are `input`.
    pub fn bytes_to_u32(input: Vec<u8>) -> (r: u32)
        requires
            input@.len() == 4,
        ensures
            r == le_u32(input@) || r == be_u32(input@),
    {
        let b: [u8; 4] = [input[0], input[1], input[2], input[3]];
        proof {
            assert(b@ =~= input@);
        }
        u32_from_ne_bytes(b)
    }

    /// The string whose characters are the bytes of `input`, each read as the
    /// character with that code.
    pub fn bytes_to_string(input: Vec<u8>) -> (r: String)
        ensures
            r@ == input@.map_values(|x: u8| x as char),
    {
        let mut s = String::new();
        let mut i: usize = 0;
        while i < input.len()
            invariant
                0 <= i <= input@.len(),
                s@ == input@.subrange(0, i as int).map_values(|x: u8| x as char),
            decreases input@.len() - i,
        {
            let c = input[i] as char;
            string_push(&mut s, c);
            i = i + 1;
            proof {
                assert(s@ =~= input@.subrange(0, i as int).map_values(|x: u8| x as char));
            }
        }
        proof {
            assert(input@.subrange(0, input@.len() as int) =~= input@);
        }
        s
    }
}


/// A division takes from the parent exactly the weight the child inherits:
/// afterwards the parent's weight plus the inherited weight recorded in the
/// child is the parent's weight before, and the parent's last child is the new one.
pub proof fn lemma_division_conserves_weight(
    s: FruniquesState,
    collection: CollectionId,
    item: ItemId,
    metadata: Seq<u8>,
    p: ParentInfo,
    user: AccountId,
)
    requires
        nft_division(s, collection, item, metadata, p, user).is_ok(),
        (p.collection_id, p.parent_id) != (collection, item),
        p.parent_weight.spec_parts() <= 1_000_000,
        s.info[(p.collection_id, p.parent_id)].weight.spec_parts() <= 1_000_000,
    ensures
        ({
            let pk = (p.collection_id, p.parent_id);
            let ck = (collection, item);
            let s2 = nft_division(s, collection, item, metadata, p, user).unwrap();
            &&& s2.info[pk].weight.spec_parts() + s2.info[ck].parent.unwrap().parent_weight.spec_parts()
                == s.info[pk].weight.spec_parts()
            &&& s2.info[ck].weight.spec_parts() == 1_000_000
            &&& s2.info[ck].parent.unwrap().collection_id == p.collection_id
            &&& s2.info[ck].parent.unwrap().parent_id == p.parent_id
            &&& s2.info[pk].children.unwrap().last() == (ChildInfo {
                collection_id: collection,
                child_id: item,
                weight_inherited: s2.info[ck].parent.unwrap().parent_weight,
                is_hierarchical: p.is_hierarchical,
            })
        }),
{
    let pk = (p.collection_id, p.parent_id);
    lemma_mul_parts_le(p.parent_weight.spec_parts(), s.info[pk].weight.spec_parts());
}

/// A child inherits the requested fraction of its parent's weight as it stands
/// before the division: `parent_weight * weight / 1_000_000` parts, rounded
/// down. The child records that share as its parent weight, the parent records
/// it as the new child's inherited weight, and the parent keeps the rest.
pub proof fn lemma_division_inherits_share_of_current_weight(
    s: FruniquesState,
    collection: CollectionId,
    item: ItemId,
    metadata: Seq<u8>,
    p: ParentInfo,
    user: AccountId,
)
    requires
        nft_division(s, collection, item, metadata, p, user).is_ok(),
        (p.collection_id, p.parent_id) != (collection, item),
        p.parent_weight.spec_parts() <= 1_000_000,
        s.info[(p.collection_id, p.parent_id)].weight.spec_parts() <= 1_000_000,
    ensures
        ({
            let pk = (p.collection_id, p.parent_id);
            let ck = (collection, item);
            let s2 = nft_division(s, collection, item, metadata, p, user).unwrap();
            let before = s.info[pk].weight.spec_parts();
            let share = (p.parent_weight.spec_parts() as int * before as int) / 1_000_000;
            &&& s2.info[ck].parent.unwrap().parent_weight.spec_parts() == share
            &&& s2.info[pk].children.unwrap().last().weight_inherited.spec_parts() == share
            &&& s2.info[pk].weight.spec_parts() == before - share
            &&& s2.info[pk].children.unwrap().len() == (match s.info[pk].children {
                Some(c) => c.len(),
                None => 0,
            }) + 1
        }),
{
    let pk = (p.collection_id, p.parent_id);
    let a = p.parent_weight.spec_parts();
    let b = s.info[pk].weight.spec_parts();
    assert((a as int * b as int) / 1_000_000 <= b as int && (a as int * b as int) / 1_000_000 >= 0) by (nonlinear_arith)
        requires
            0 <= a <= 1_000_000,
            0 <= b <= 1_000_000,
    ;
}

/// Spawning a frunique without a parent mints the collection's next item to
/// the owner and records it as a whole root: full weight, the given metadata,
/// no parent or children, neither frozen nor redeemed, spawned by the owner.
pub proof fn lemma_spawn_root(s: FruniquesState, collection: CollectionId, owner: AccountId, metadata: Seq<u8>)
    requires
        s.collections.contains_key(collection),
        next_item(s, collection) < u32::MAX,
    ensures
        ({
            let item = next_item(s, collection);
            let k = (collection, item);
            let r = spawn(s, collection, owner, metadata, None);
            &&& r is Ok
            &&& r.unwrap().items[k] == owner
            &&& r.unwrap().roots[k]
            &&& r.unwrap().info[k].weight.spec_parts() == 1_000_000
            &&& r.unwrap().info[k].metadata == metadata
            &&& r.unwrap().info[k].parent is None
            &&& r.unwrap().info[k].children is None
            &&& !r.unwrap().info[k].frozen
            &&& !r.unwrap().info[k].redeemed
            &&& r.unwrap().info[k].spawned_by == Some(owner)
            &&& next_item(r.unwrap(), collection) == item + 1
        }),
{
}

/// Redeeming a stored frunique that is neither frozen nor redeemed marks it
/// redeemed and frozen and changes nothing else of it; otherwise it fails.
pub proof fn lemma_redeem_marks(s: FruniquesState, collection: CollectionId, item: ItemId)
    ensures
        ({
            let k = (collection, item);
            let r = redeem(s, collection, item);
            &&& r is Ok <==> (s.collections.contains_key(collection) && s.items.contains_key(k) && !s.info[k].frozen
                && !s.info[k].redeemed)
            &&& r is Ok ==> r.unwrap().info[k].redeemed && r.unwrap().info[k].frozen && r.unwrap().redeemed[k]
                && r.unwrap().info[k].weight == s.info[k].weight && r.unwrap().info[k].metadata == s.info[k].metadata
                && r.unwrap().info[k].parent == s.info[k].parent && r.unwrap().info[k].children == s.info[k].children
                && r.unwrap().items == s.items
        }),
{
}

/// Freezing a frunique that is not frozen and then thawing it gives back the state.
pub proof fn lemma_freeze_thaw_roundtrip(s: FruniquesState, k: ItemKey)
    requires
        s.info.contains_key(k),
        !s.info[k].frozen,
    ensures
        set_frozen(set_frozen(s, k, true).unwrap(), k, false) == Ok::<FruniquesState, Error>(s),
{
    let s2 = set_frozen(set_frozen(s, k, true).unwrap(), k, false).unwrap();
    assert(s2.info[k] == s.info[k]);
    assert(s2.info =~= s.info);
}

/// A redeemed frunique is frozen: it cannot be redeemed again, and no child
/// can be divided from it.
pub proof fn lemma_redeemed_is_final(
    s: FruniquesState,
    collection: CollectionId,
    item: ItemId,
    child_collection: CollectionId,
    child: ItemId,
    metadata: Seq<u8>,
    p: ParentInfo,
    user: AccountId,
)
    requires
        redeem(s, collection, item).is_ok(),
        p.collection_id == collection,
        p.parent_id == item,
    ensures
        redeem(redeem(s, collection, item).unwrap(), collection, item) == Err::<FruniquesState, Error>(
            Error::FruniqueFrozen,
        ),
        nft_division(redeem(s, collection, item).unwrap(), child_collection, child, metadata, p, user)
            == Err::<FruniquesState, Error>(Error::ParentFrozen),
        redeem(s, collection, item).unwrap().redeemed[(collection, item)],
{
}

/// Each mint in a collection takes the next id and advances it by one, so the
/// ids minted in a collection are all distinct; other collections keep theirs.
pub proof fn lemma_mint_advances_ids(s: FruniquesState, collection: CollectionId, owner: AccountId, other: CollectionId)
    requires
        next_item(s, collection) < u32::MAX,
        other != collection,
    ensures
        next_item(minted(s, collection, owner), collection) == next_item(s, collection) + 1,
        next_item(minted(s, collection, owner), other) == next_item(s, other),
        minted(s, collection, owner).items[(collection, next_item(s, collection))] == owner,
{
}

/// Freezing or thawing a stored frunique sets its frozen flag and keeps the
/// rest of it and of the pallet; it fails only for a frunique not stored.
pub proof fn lemma_set_frozen_sets(s: FruniquesState, k: ItemKey, frozen: bool)
    ensures
        set_frozen(s, k, frozen) is Ok <==> s.info.contains_key(k),
        set_frozen(s, k, frozen) matches Ok(s2) ==> {
            &&& s2.info.contains_key(k) && s2.info[k].frozen == frozen
            &&& s2.info[k].redeemed == s.info[k].redeemed && s2.info[k].weight == s.info[k].weight
            &&& s2.info[k].metadata == s.info[k].metadata && s2.info[k].parent == s.info[k].parent
            &&& s2.info[k].children == s.info[k].children && s2.info[k].verified == s.info[k].verified
            &&& forall|j: ItemKey| j != k ==> (#[trigger] s2.info.contains_key(j)) == s.info.contains_key(j)
                && (s.info.contains_key(j) ==> s2.info[j] == s.info[j])
            &&& s2.items == s.items && s2.collections == s.collections && s2.redeemed == s.redeemed
        },
{
}

/// Minting an item makes, in order, the mint to the owner, the setting of the
/// given metadata, then one setting per attribute, in the order given, each
/// with the root origin.
pub proof fn lemma_mint_calls_in_order(
    collection: CollectionId,
    item: ItemId,
    owner: AccountId,
    metadata: Seq<u8>,
    attributes: Option<Seq<(Vec<u8>, Vec<u8>)>>,
)
    ensures
        ({
            let c = mint_calls(collection, item, owner, metadata, attributes);
            let n: int = match attributes {
                Some(a) => a.len() as int,
                None => 0,
            };
            &&& c.len() == 2 + n
            &&& c[0] == (FruniquesCallView::Mint { collection, item, owner })
            &&& c[1] == (FruniquesCallView::SetMetadata { collection, item, metadata })
            &&& forall|i: int|
                0 <= i < n ==> #[trigger] c[2 + i] == (FruniquesCallView::SetAttribute {
                    origin: Origin::Root,
                    collection,
                    item,
                    key: attributes.unwrap()[i].0@,
                    value: attributes.unwrap()[i].1@,
                })
        }),
{
}

/// The setup goes through the groups owner, admin, collaborator, collector and
/// holder in this order: with no role waiting, its next call creates the roles
/// of the group it has reached; with roles waiting, it gives the first of them
/// the permissions of the group just created. Once past the holders it
/// succeeds without a call.
pub proof fn lemma_setup_group_order(g: nat, pending: Seq<Id>, answers: Seq<SetupAnswer>)
    ensures
        ({
            let groups = seq![
                FruniqueRole::Owner,
                FruniqueRole::Admin,
                FruniqueRole::Collaborator,
                FruniqueRole::Collector,
                FruniqueRole::Holder,
            ];
            let (calls, end) = setup_run(g, pending, answers);
            &&& pending.len() == 0 && g < 5 ==> calls[0] == (FruniquesCallView::CreateAndSetRoles {
                group: groups[g as int],
            })
            &&& pending.len() > 0 && 1 <= g <= 5 ==> calls[0] == (FruniquesCallView::CreateAndSetPermissions {
                role: pending[0]@,
                group: groups[g - 1],
            })
            &&& pending.len() == 0 && g >= 5 ==> calls.len() == 0 && end == Some(Ok::<(), Error>(()))
        }),
{
}

} // verus!
