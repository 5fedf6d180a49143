//! Fund-admin records: project records stored under `(project id, table)` and
//! a record id derived from the project id and the creation time.
//!
//! A record is accepted when its project id and hashed information are not
//! empty and fit their bounds, and when no record with the same key exists.
//! A call adds all its records or none.

use crate::assoc::{AssocMap, CopyView, MapKey};
use crate::codec::{blake2_256, blake2_256_of, encode_bytes_u64, scale_bytes_u64};
use crate::common::{bytes_copy, bytes_eq, ensure_root, ensure_signed, AccountId, Id, Origin};
use vstd::prelude::*;

verus! {

/// The largest number of bytes of a project id.
pub const PROJECT_ID_MAX_LEN: usize = 50;

/// The largest number of bytes of the hashed information.
pub const HASHED_INFO_MAX_LEN: usize = 400;

/// The table a record belongs to.
#[derive(Clone, Copy, Debug, PartialEq, Eq, Structural)]
pub enum TableType {
    Drawdown,
    RecoveryDrawdown,
    Revenue,
    RecoveryRevenue,
    Rebalance,
    DrawdownSources,
}

/// The operation a record reflects.
#[derive(Clone, Copy, Debug, PartialEq, Eq, Structural)]
pub enum RecordType {
    Creation,
    Submit,
    Approve,
    Reject,
    Recovery,
    Cancel,
    Confirm,
}

/// A record as submitted: project id, hashed information, table and record type.
pub type Record = (Vec<u8>, Vec<u8>, TableType, RecordType);

/// What is stored for each record.
#[derive(Debug)]
pub struct RecordData {
    pub project_id: Vec<u8>,
    pub hashed_info: Vec<u8>,
    pub table_type: TableType,
    pub record_type: RecordType,
    pub creation_date: u64,
}

pub struct RecordDataView {
    pub project_id: Seq<u8>,
    pub hashed_info: Seq<u8>,
    pub table_type: TableType,
    pub record_type: RecordType,
    pub creation_date: u64,
}

impl View for RecordData {
    type V = RecordDataView;

    open spec fn view(&self) -> RecordDataView {
        RecordDataView {
            project_id: self.project_id@,
            hashed_info: self.hashed_info@,
            table_type: self.table_type,
            record_type: self.record_type,
            creation_date: self.creation_date,
        }
    }
}

impl CopyView for RecordData {
    fn copy_view(&self) -> (r: Self) {
        RecordData {
            project_id: bytes_copy(&self.project_id),
            hashed_info: bytes_copy(&self.hashed_info),
            table_type: self.table_type,
            record_type: self.record_type,
            creation_date: self.creation_date,
        }
    }
}

/// The key of a stored record: `(project id, table)` and the record id.
#[derive(Debug)]
pub struct RecordKey {
    pub project_id: Vec<u8>,
    pub table_type: TableType,
    pub id: Id,
}

impl View for RecordKey {
    type V = (Seq<u8>, TableType, Seq<u8>);

    open spec fn view(&self) -> (Seq<u8>, TableType, Seq<u8>) {
        (self.project_id@, self.table_type, self.id@)
    }
}

impl MapKey for RecordKey {
    fn key_eq(&self, other: &Self) -> (r: bool) {
        let same_table = self.table_type == other.table_type;
        let same_id = crate::assoc::id_eq(&self.id, &other.id);
        let same_project = bytes_eq(&self.project_id, &other.project_id);
        same_project && same_table && same_id
    }

    fn key_copy(&self) -> (r: Self) {
        RecordKey { project_id: bytes_copy(&self.project_id), table_type: self.table_type, id: self.id }
    }
}

/// Errors of the pallet.
#[derive(Clone, Copy, Debug, PartialEq, Eq, Structural)]
pub enum Error {
    /// The record id already exists
    IdAlreadyExists,
    /// Timestamp was not generated correctly
    TimestampError,
    /// Signer account is not set
    SignerAccountNotSet,
    /// The sender is not the signer account
    SenderIsNotTheSignerAccount,
    /// The project id is empty
    ProjectIdIsEmpty,
    /// Hashed info is empty
    HashedInfoIsEmpty,
    /// Project id exceeded max length
    ProjectIdExceededMaxLength,
    /// Hashed info exceeded max length
    HashedInfoExceededMaxLength,
    /// Maximum number of registrations at a time reached
    MaxRegistrationsAtATimeReached,
    /// The call does not come from the required origin
    BadOrigin,
}

/// Events of the pallet.
#[derive(Debug)]
pub enum Event {
    /// A record was added
    RecordAdded(Vec<u8>, TableType, RecordType, Id),
}

pub enum EventView {
    RecordAdded(Seq<u8>, TableType, RecordType, Seq<u8>),
}

impl View for Event {
    type V = EventView;

    open spec fn view(&self) -> EventView {
        match self {
            Event::RecordAdded(p, t, r, id) => EventView::RecordAdded(p@, *t, *r, id@),
        }
    }
}

/// The id of a record of `project_id` created at `creation_date`: the Blake2
/// digest of the SCALE encoding of the pair.
pub open spec fn spec_record_id(project_id: Seq<u8>, creation_date: u64) -> Seq<u8> {
    blake2_256_of(scale_bytes_u64(project_id, creation_date))
}

/// The id of a record of `project_id` created at `creation_date`.
pub fn record_id(project_id: &Vec<u8>, creation_date: u64) -> (id: Id)
    requires
        project_id@.len() <= PROJECT_ID_MAX_LEN,
    ensures
        id@ == spec_record_id(project_id@, creation_date),
{
    let encoded = encode_bytes_u64(project_id, creation_date);
    blake2_256(&encoded)
}

pub type RecordMap = Map<(Seq<u8>, TableType, Seq<u8>), RecordDataView>;

/// The key under which a record submitted at `now` is stored.
pub open spec fn spec_key(r: Record, now: u64) -> (Seq<u8>, TableType, Seq<u8>) {
    (r.0@, r.2, spec_record_id(r.0@, now))
}

/// What is stored for a record submitted at `now`.
pub open spec fn spec_data(r: Record, now: u64) -> RecordDataView {
    RecordDataView {
        project_id: r.0@,
        hashed_info: r.1@,
        table_type: r.2,
        record_type: r.3,
        creation_date: now,
    }
}

/// The error a record submitted at `now` meets against the stored records, if any.
pub open spec fn record_error(m: RecordMap, r: Record, now: u64) -> Option<Error> {
    if r.0@.len() == 0 {
        Some(Error::ProjectIdIsEmpty)
    } else if r.1@.len() == 0 {
        Some(Error::HashedInfoIsEmpty)
    } else if r.0@.len() > PROJECT_ID_MAX_LEN {
        Some(Error::ProjectIdExceededMaxLength)
    } else if r.1@.len() > HASHED_INFO_MAX_LEN {
        Some(Error::HashedInfoExceededMaxLength)
    } else if m.contains_key(spec_key(r, now)) {
        Some(Error::IdAlreadyExists)
    } else {
        None
    }
}

/// The stored records after adding `rs` in order at `now`, or the first error met.
pub open spec fn add_records(m: RecordMap, rs: Seq<Record>, now: u64) -> Result<RecordMap, Error>
    decreases rs.len(),
{
    if rs.len() == 0 {
        Ok(m)
    } else {
        match record_error(m, rs[0], now) {
            Some(e) => Err(e),
            None => add_records(m.insert(spec_key(rs[0], now), spec_data(rs[0], now)), rs.drop_first(), now),
        }
    }
}

/// The events that adding `rs` at `now` deposits.
pub open spec fn added_events(rs: Seq<Record>, now: u64) -> Seq<EventView>
    decreases rs.len(),
{
    if rs.len() == 0 {
        Seq::empty()
    } else {
        seq![EventView::RecordAdded(rs[0].0@, rs[0].2, rs[0].3, spec_record_id(rs[0].0@, now))]
            + added_events(rs.drop_first(), now)
    }
}

/// The state of the fund-admin records pallet.
pub struct Pallet {
    signer_account: Option<AccountId>,
    records: AssocMap<RecordKey, RecordData>,
    events: Vec<Event>,
    max_records_at_time: u32,
}

impl Pallet {
    pub closed spec fn wf(&self) -> bool {
        self.records.wf()
    }

    pub closed spec fn spec_signer_account(&self) -> Option<AccountId> {
        self.signer_account
    }

    pub closed spec fn spec_records(&self) -> RecordMap {
        self.records@
    }

    pub closed spec fn spec_events(&self) -> Seq<EventView> {
        self.events@.map_values(|e: Event| e@)
    }

    pub closed spec fn spec_max_records_at_time(&self) -> u32 {
        self.max_records_at_time
    }

    /// An empty pallet that accepts at most `max_records_at_time` records per call.
    pub fn new(max_records_at_time: u32) -> (p: Pallet)
        ensures
            p.wf(),
            p.spec_signer_account() == None::<AccountId>,
            p.spec_records() == RecordMap::empty(),
            p.spec_events() == Seq::<EventView>::empty(),
            p.spec_max_records_at_time() == max_records_at_time,
    {
        let p = Pallet {
            signer_account: None,
            records: AssocMap::new(),
            events: Vec::new(),
            max_records_at_time,
        };
        assert(p.spec_events() =~= Seq::<EventView>::empty());
        p
    }

    /// The signer account, if set.
    pub fn signer_account(&self) -> (r: Option<AccountId>)
        ensures
            r == self.spec_signer_account(),
    {
        self.signer_account
    }

    /// The record stored under `(project_id, table_type)` and `id`, if any.
    pub fn records(&self, project_id: &Vec<u8>, table_type: TableType, id: &Id) -> (r: Option<&RecordData>)
        requires
            self.wf(),
        ensures
            match r {
                Some(d) => self.spec_records().contains_key((project_id@, table_type, id@))
                    && d@ == self.spec_records()[(project_id@, table_type, id@)],
                None => !self.spec_records().contains_key((project_id@, table_type, id@)),
            },
    {
        let key = RecordKey { project_id: bytes_copy(project_id), table_type, id: *id };
        self.records.get(&key)
    }

    /// The events deposited so far.
    pub fn events(&self) -> (r: &Vec<Event>)
        ensures
            r@.map_values(|e: Event| e@) == self.spec_events(),
    {
        &self.events
    }

    /// Sets the signer account; only the root origin may.
    pub fn set_signer_account(&mut self, origin: Origin, account: AccountId) -> (r: Result<(), Error>)
        requires
            old(self).wf(),
        ensures
            final(self).wf(),
            origin == Origin::Root ==> r == Ok::<(), Error>(()) && final(self).spec_signer_account() == Some(account),
            origin != Origin::Root ==> r == Err::<(), Error>(Error::BadOrigin)
                && final(self).spec_signer_account() == old(self).spec_signer_account(),
            final(self).spec_records() == old(self).spec_records(),
            final(self).spec_events() == old(self).spec_events(),
            final(self).spec_max_records_at_time() == old(self).spec_max_records_at_time(),
    {
        if !ensure_root(origin) {
            return Err(Error::BadOrigin);
        }
        self.signer_account = Some(account);
        Ok(())
    }

    /// Adds the records, each under `(project id, table)` and the id of its
    /// project id and `now`; adds all or, on the first error, none.
    pub fn do_add_record(&mut self, records: &Vec<Record>, now: u64) -> (r: Result<(), Error>)
        requires
            old(self).wf(),
        ensures
            final(self).wf(),
            final(self).spec_signer_account() == old(self).spec_signer_account(),
            final(self).spec_max_records_at_time() == old(self).spec_max_records_at_time(),
            records@.len() > old(self).spec_max_records_at_time() ==> r == Err::<(), Error>(
                Error::MaxRegistrationsAtATimeReached,
            ),
            records@.len() <= old(self).spec_max_records_at_time() ==> match add_records(
                old(self).spec_records(),
                records@,
                now,
            ) {
                Ok(m) => r == Ok::<(), Error>(()) && final(self).spec_records() == m
                    && final(self).spec_events() == old(self).spec_events() + added_events(records@, now),
                Err(e) => r == Err::<(), Error>(e),
            },
            r.is_err() ==> final(self).spec_records() == old(self).spec_records()
                && final(self).spec_events() == old(self).spec_events(),
    {
        if records.len() > self.max_records_at_time as usize {
            return Err(Error::MaxRegistrationsAtATimeReached);
        }
        let mut work = self.records.duplicate();
        let mut new_events: Vec<Event> = Vec::new();
        let ghost rs = records@;
        let ghost m0 = self.records@;
        let mut i: usize = 0;
        proof {
            assert(rs.subrange(0, rs.len() as int) =~= rs);
            assert(new_events@.map_values(|e: Event| e@) =~= Seq::<EventView>::empty());
            assert(Seq::<EventView>::empty() + added_events(rs, now) =~= added_events(rs, now));
        }
        #[verifier::loop_isolation(false)]
        while i < records.len()
            invariant
                0 <= i <= rs.len(),
                rs == records@,
                work.wf(),
                add_records(m0, rs, now) == add_records(work@, rs.subrange(i as int, rs.len() as int), now),
                new_events@.map_values(|e: Event| e@) + added_events(rs.subrange(i as int, rs.len() as int), now)
                    == added_events(rs, now),
            decreases rs.len() - i,
        {
            let ghost tail = rs.subrange(i as int, rs.len() as int);
            assert(tail[0] == rs[i as int]);
            assert(tail.drop_first() =~= rs.subrange(i + 1, rs.len() as int));
            let record = &records[i];
            if record.0.len() == 0 {
                return Err(Error::ProjectIdIsEmpty);
            }
            if record.1.len() == 0 {
                return Err(Error::HashedInfoIsEmpty);
            }
            if record.0.len() > PROJECT_ID_MAX_LEN {
                return Err(Error::ProjectIdExceededMaxLength);
            }
            if record.1.len() > HASHED_INFO_MAX_LEN {
                return Err(Error::HashedInfoExceededMaxLength);
            }
            let id = record_id(&record.0, now);
            let key = RecordKey { project_id: bytes_copy(&record.0), table_type: record.2, id };
            if work.contains_key(&key) {
                return Err(Error::IdAlreadyExists);
            }
            let data = RecordData {
                project_id: bytes_copy(&record.0),
                hashed_info: bytes_copy(&record.1),
                table_type: record.2,
                record_type: record.3,
                creation_date: now,
            };
            work.insert(key, data);
            let ghost before = new_events@.map_values(|e: Event| e@);
            new_events.push(Event::RecordAdded(bytes_copy(&record.0), record.2, record.3, id));
            i = i + 1;
            proof {
                assert(new_events@.map_values(|e: Event| e@) =~= before.push(
                    EventView::RecordAdded(rs[i - 1].0@, rs[i - 1].2, rs[i - 1].3, spec_record_id(rs[i - 1].0@, now)),
                ));
                assert(added_events(tail, now) =~= seq![EventView::RecordAdded(rs[i - 1].0@, rs[i - 1].2, rs[i - 1].3, spec_record_id(rs[i - 1].0@, now))]
                    + added_events(rs.subrange(i as int, rs.len() as int), now));
                assert(new_events@.map_values(|e: Event| e@) + added_events(rs.subrange(i as int, rs.len() as int), now)
                    =~= before + added_events(tail, now));
            }
        }
        proof {
            assert(rs.subrange(rs.len() as int, rs.len() as int) =~= Seq::<Record>::empty());
        }
        self.records = work;
        let ghost ev0 = self.events@.map_values(|e: Event| e@);
        let ghost evn = new_events@.map_values(|e: Event| e@);
        self.events.append(&mut new_events);
        proof {
            assert(self.events@.map_values(|e: Event| e@) =~= ev0 + evn);
        }
        Ok(())
    }

    /// Adds records; the call must be signed by the signer account.
    pub fn add_record(&mut self, origin: Origin, records: &Vec<Record>, now: u64) -> (r: Result<(), Error>)
        requires
            old(self).wf(),
        ensures
            final(self).wf(),
            final(self).spec_signer_account() == old(self).spec_signer_account(),
            final(self).spec_max_records_at_time() == old(self).spec_max_records_at_time(),
            match origin {
                Origin::Signed(who) => match old(self).spec_signer_account() {
                    None => r == Err::<(), Error>(Error::SignerAccountNotSet),
                    Some(s) => s != who ==> r == Err::<(), Error>(Error::SenderIsNotTheSignerAccount),
                },
                _ => r == Err::<(), Error>(Error::BadOrigin),
            },
            (origin == Origin::Signed(old(self).spec_signer_account().unwrap_or(0))
                && old(self).spec_signer_account().is_some())
                ==> if records@.len() > old(self).spec_max_records_at_time() {
                    r == Err::<(), Error>(Error::MaxRegistrationsAtATimeReached)
                } else {
                    match add_records(old(self).spec_records(), records@, now) {
                        Ok(m) => r == Ok::<(), Error>(()) && final(self).spec_records() == m
                            && final(self).spec_events() == old(self).spec_events() + added_events(records@, now),
                        Err(e) => r == Err::<(), Error>(e),
                    }
                },
            r.is_err() ==> final(self).spec_records() == old(self).spec_records()
                && final(self).spec_events() == old(self).spec_events(),
    {
        let who = match ensure_signed(origin) {
            Some(w) => w,
            None => return Err(Error::BadOrigin),
        };
        let signer = match self.signer_account {
            Some(s) => s,
            None => return Err(Error::SignerAccountNotSet),
        };
        if who != signer {
            return Err(Error::SenderIsNotTheSignerAccount);
        }
        self.do_add_record(records, now)
    }

    /// Wipes the stored data, the signer account and every record; only the
    /// root origin may.
    pub fn kill_storage(&mut self, origin: Origin) -> (r: Result<(), Error>)
        requires
            old(self).wf(),
        ensures
            final(self).wf(),
            r == (if origin == Origin::Root { Ok::<(), Error>(()) } else { Err(Error::BadOrigin) }),
            origin == Origin::Root ==> final(self).spec_signer_account() == None::<AccountId>
                && final(self).spec_records() == RecordMap::empty(),
            origin != Origin::Root ==> final(self).spec_signer_account() == old(self).spec_signer_account()
                && final(self).spec_records() == old(self).spec_records(),
            final(self).spec_events() == old(self).spec_events(),
            final(self).spec_max_records_at_time() == old(self).spec_max_records_at_time(),
    {
        if !ensure_root(origin) {
            return Err(Error::BadOrigin);
        }
        self.signer_account = None;
        self.records = AssocMap::new();
        Ok(())
    }
}


/// Adding records never changes a stored record, and once a call succeeds each
/// of its records can be read back under its key with what was submitted;
/// nothing else is added.
pub proof fn lemma_add_records_stores_each(m: RecordMap, rs: Seq<Record>, now: u64)
    requires
        add_records(m, rs, now).is_ok(),
    ensures
        ({
            let m2 = add_records(m, rs, now).unwrap();
            &&& forall|k| #[trigger] m.contains_key(k) ==> m2.contains_key(k) && m2[k] == m[k]
            &&& forall|i: int|
                0 <= i < rs.len() ==> m2.contains_key(#[trigger] spec_key(rs[i], now))
                    && m2[spec_key(rs[i], now)] == spec_data(rs[i], now)
            &&& forall|k|
                #[trigger] m2.contains_key(k) ==> m.contains_key(k) || exists|i: int|
                    0 <= i < rs.len() && k == spec_key(rs[i], now)
        }),
    decreases rs.len(),
{
    if rs.len() > 0 {
        let k0 = spec_key(rs[0], now);
        let m1 = m.insert(k0, spec_data(rs[0], now));
        let rest = rs.drop_first();
        lemma_add_records_stores_each(m1, rest, now);
        let m2 = add_records(m, rs, now).unwrap();
        assert(record_error(m, rs[0], now).is_none());
        assert(m2 == add_records(m1, rest, now).unwrap());
        assert forall|k| #[trigger] m.contains_key(k) implies m2.contains_key(k) && m2[k] == m[k] by {
            assert(m1.contains_key(k));
        }
        assert forall|i: int| 0 <= i < rs.len() implies m2.contains_key(#[trigger] spec_key(rs[i], now))
            && m2[spec_key(rs[i], now)] == spec_data(rs[i], now) by {
            if i > 0 {
                assert(rs[i] == rest[i - 1]);
                assert(m2.contains_key(spec_key(rest[i - 1], now)));
            } else {
                assert(m1.contains_key(k0));
            }
        }
        assert forall|k| #[trigger] m2.contains_key(k) implies m.contains_key(k) || exists|i: int|
            0 <= i < rs.len() && k == spec_key(rs[i], now) by {
            if !m1.contains_key(k) {
                let j = choose|j: int| 0 <= j < rest.len() && k == spec_key(rest[j], now);
                assert(rs[j + 1] == rest[j]);
            } else if k == k0 {
                assert(k == spec_key(rs[0], now));
            }
        }
    }
}

/// Every record of a successful call is stored under its project id, its table
/// and the digest of the SCALE encoding of (project id, `now`), with its
/// project id, hashed information, table and record type as submitted and
/// `now` as its creation date.
pub proof fn lemma_added_records_carry_their_time(m: RecordMap, rs: Seq<Record>, now: u64)
    requires
        add_records(m, rs, now).is_ok(),
    ensures
        forall|i: int|
            #![trigger rs[i]]
            0 <= i < rs.len() ==> {
                let key = (rs[i].0@, rs[i].2, blake2_256_of(scale_bytes_u64(rs[i].0@, now)));
                let m2 = add_records(m, rs, now).unwrap();
                &&& m2.contains_key(key)
                &&& m2[key].creation_date == now
                &&& m2[key].project_id == rs[i].0@
                &&& m2[key].hashed_info == rs[i].1@
                &&& m2[key].table_type == rs[i].2
                &&& m2[key].record_type == rs[i].3
            },
{
    lemma_add_records_stores_each(m, rs, now);
    assert forall|i: int| #![trigger rs[i]] 0 <= i < rs.len() implies {
        let key = (rs[i].0@, rs[i].2, blake2_256_of(scale_bytes_u64(rs[i].0@, now)));
        let m2 = add_records(m, rs, now).unwrap();
        &&& m2.contains_key(key)
        &&& m2[key].creation_date == now
        &&& m2[key].project_id == rs[i].0@
        &&& m2[key].hashed_info == rs[i].1@
        &&& m2[key].table_type == rs[i].2
        &&& m2[key].record_type == rs[i].3
    } by {
        assert(spec_key(rs[i], now) == (rs[i].0@, rs[i].2, blake2_256_of(scale_bytes_u64(rs[i].0@, now))));
    }
}

/// A call succeeds only when every record has a project id of 1 to 50 bytes
/// and hashed information of 1 to 400 bytes, and no two of its records, nor a
/// record and a stored one, share a key: project id, table, and the digest of
/// (project id, `now`).
pub proof fn lemma_added_records_are_valid(m: RecordMap, rs: Seq<Record>, now: u64)
    requires
        add_records(m, rs, now).is_ok(),
    ensures
        forall|i: int|
            #![trigger rs[i]]
            0 <= i < rs.len() ==> {
                &&& 0 < rs[i].0@.len() <= 50
                &&& 0 < rs[i].1@.len() <= 400
                &&& !m.contains_key((rs[i].0@, rs[i].2, blake2_256_of(scale_bytes_u64(rs[i].0@, now))))
            },
        forall|i: int, j: int|
            0 <= i < j < rs.len() ==> (#[trigger] rs[i].0@, rs[i].2, blake2_256_of(scale_bytes_u64(rs[i].0@, now))) != (
                #[trigger] rs[j].0@,
                rs[j].2,
                blake2_256_of(scale_bytes_u64(rs[j].0@, now)),
            ),
    decreases rs.len(),
{
    if rs.len() > 0 {
        let k0 = spec_key(rs[0], now);
        let m1 = m.insert(k0, spec_data(rs[0], now));
        let rest = rs.drop_first();
        assert(record_error(m, rs[0], now).is_none());
        lemma_added_records_are_valid(m1, rest, now);
        assert forall|i: int| #![trigger rs[i]] 0 <= i < rs.len() implies {
            &&& 0 < rs[i].0@.len() <= 50
            &&& 0 < rs[i].1@.len() <= 400
            &&& !m.contains_key((rs[i].0@, rs[i].2, blake2_256_of(scale_bytes_u64(rs[i].0@, now))))
        } by {
            if i > 0 {
                assert(rs[i] == rest[i - 1]);
            }
        }
        assert forall|i: int, j: int| 0 <= i < j < rs.len() implies (#[trigger] rs[i].0@, rs[i].2, blake2_256_of(
            scale_bytes_u64(rs[i].0@, now),
        )) != (#[trigger] rs[j].0@, rs[j].2, blake2_256_of(scale_bytes_u64(rs[j].0@, now))) by {
            assert(rs[j] == rest[j - 1]);
            if i > 0 {
                assert(rs[i] == rest[i - 1]);
            } else {
                assert(!m1.contains_key((rest[j - 1].0@, rest[j - 1].2, blake2_256_of(scale_bytes_u64(rest[j - 1].0@, now)))));
            }
        }
    }
}

} // verus!
