use crate::pubkey::Pubkey;
use crate::state::{BatchRecord, BatchStorage, StorageRecord, ZKStorage};
use vstd::prelude::*;

verus! {

/// What stands at an address: a commitment record or a batch record.
#[derive(Clone, Debug, PartialEq, Eq)]
pub enum AccountData {
    Storage(ZKStorage),
    Batch(BatchStorage),
}

/// What stands at an address, as mathematical values.
pub enum AccountRecord {
    Storage(StorageRecord),
    Batch(BatchRecord),
}

impl View for AccountData {
    type V = AccountRecord;

    open spec fn view(&self) -> AccountRecord {
        match self {
            AccountData::Storage(record) => AccountRecord::Storage(record@),
            AccountData::Batch(record) => AccountRecord::Batch(record@),
        }
    }
}

impl AccountData {
    /// A copy of the record.
    pub fn copy(&self) -> (data: AccountData)
        ensures
            data@ == self@,
    {
        match self {
            AccountData::Storage(record) => AccountData::Storage(record.copy()),
            AccountData::Batch(record) => AccountData::Batch(record.copy()),
        }
    }
}

/// An address with what stands there.
#[derive(Clone, Debug, PartialEq, Eq)]
pub struct Account {
    pub address: Pubkey,
    pub data: AccountData,
}

/// The keyed store that the program's records live in: one address space for
/// both kinds of record, the program's id, and the ledger's clock.
#[derive(Debug)]
pub struct Ledger {
    program_id: Pubkey,
    unix_timestamp: u64,
    accounts: Vec<Account>,
}

/// What a ledger holds, as mathematical values: at most one record at each address.
pub struct LedgerState {
    pub program_id: Seq<u8>,
    pub unix_timestamp: u64,
    pub accounts: Map<Seq<u8>, AccountRecord>,
}

/// The ledger of a program before anything was created, at time zero.
pub open spec fn empty_ledger(program_id: Seq<u8>) -> LedgerState {
    LedgerState { program_id, unix_timestamp: 0, accounts: Map::empty() }
}

/// `ledger` with `record` at `address`, in place of what stood there.
pub open spec fn with_account(
    ledger: LedgerState,
    address: Seq<u8>,
    record: AccountRecord,
) -> LedgerState {
    LedgerState { accounts: ledger.accounts.insert(address, record), ..ledger }
}

/// The commitment record at `address`, if one stands there.
pub open spec fn storage_at(ledger: LedgerState, address: Seq<u8>) -> Option<StorageRecord> {
    if ledger.accounts.contains_key(address) {
        match ledger.accounts[address] {
            AccountRecord::Storage(record) => Some(record),
            AccountRecord::Batch(_) => None,
        }
    } else {
        None
    }
}

/// The batch record at `address`, if one stands there.
pub open spec fn batch_at(ledger: LedgerState, address: Seq<u8>) -> Option<BatchRecord> {
    if ledger.accounts.contains_key(address) {
        match ledger.accounts[address] {
            AccountRecord::Storage(_) => None,
            AccountRecord::Batch(record) => Some(record),
        }
    } else {
        None
    }
}

/// A record that was found, as mathematical values.
pub open spec fn found_storage(found: Option<&ZKStorage>) -> Option<StorageRecord> {
    match found {
        Some(record) => Some(record@),
        None => None,
    }
}

/// A batch record that was found, as mathematical values.
pub open spec fn found_batch(found: Option<&BatchStorage>) -> Option<BatchRecord> {
    match found {
        Some(record) => Some(record@),
        None => None,
    }
}

/// `ledger` with its clock at `now`.
pub open spec fn at_time(ledger: LedgerState, now: u64) -> LedgerState {
    LedgerState { unix_timestamp: now, ..ledger }
}

/// Whether the account at position `i` has the address `address`.
spec fn stands_at(accounts: Seq<Account>, address: Seq<u8>, i: int) -> bool {
    0 <= i < accounts.len() && accounts[i].address@ == address
}

/// Whether some account has the address `address`.
spec fn holds(accounts: Seq<Account>, address: Seq<u8>) -> bool {
    exists|i: int| stands_at(accounts, address, i)
}

/// A position at which `address` stands.
spec fn position(accounts: Seq<Account>, address: Seq<u8>) -> int {
    choose|i: int| stands_at(accounts, address, i)
}

/// No address occurs twice.
spec fn distinct(accounts: Seq<Account>) -> bool {
    forall|i: int, j: int|
        0 <= i < j < accounts.len() ==> accounts[i].address@ != accounts[j].address@
}

/// The record at each address.
spec fn records(accounts: Seq<Account>) -> Map<Seq<u8>, AccountRecord> {
    Map::new(
        |address: Seq<u8>| holds(accounts, address),
        |address: Seq<u8>| accounts[position(accounts, address)].data@,
    )
}

/// Replacing the account at a position replaces the record at its address.
proof fn lemma_replaced(accounts: Seq<Account>, i: int, account: Account)
    requires
        distinct(accounts),
        stands_at(accounts, account.address@, i),
    ensures
        distinct(accounts.update(i, account)),
        records(accounts.update(i, account)) == records(accounts).insert(
            account.address@,
            account.data@,
        ),
{
    let changed = accounts.update(i, account);
    assert forall|a: Seq<u8>, k: int| stands_at(changed, a, k) == stands_at(accounts, a, k) by {}
    assert forall|a: Seq<u8>| holds(changed, a) == holds(accounts, a) by {
        if holds(changed, a) {
            assert(stands_at(accounts, a, position(changed, a)));
        }
        if holds(accounts, a) {
            assert(stands_at(changed, a, position(accounts, a)));
        }
    }
    assert forall|a: Seq<u8>| holds(changed, a) implies #[trigger] records(changed)[a] == (if a
        == account.address@ {
        account.data@
    } else {
        records(accounts)[a]
    }) by {
        assert(stands_at(accounts, a, position(changed, a)));
        assert(stands_at(accounts, a, position(accounts, a)));
    }
    assert(records(changed) =~= records(accounts).insert(account.address@, account.data@));
}

/// Adding an account at a free address adds the record at that address.
proof fn lemma_added(accounts: Seq<Account>, account: Account)
    requires
        distinct(accounts),
        !holds(accounts, account.address@),
    ensures
        distinct(accounts.push(account)),
        records(accounts.push(account)) == records(accounts).insert(
            account.address@,
            account.data@,
        ),
{
    let changed = accounts.push(account);
    let last = accounts.len() as int;
    assert forall|k: int| 0 <= k < last implies !stands_at(accounts, account.address@, k) by {}
    assert(stands_at(changed, account.address@, last));
    assert forall|i: int, j: int| 0 <= i < j < changed.len() implies changed[i].address@
        != changed[j].address@ by {
        if j == last {
            assert(!stands_at(accounts, account.address@, i));
        }
    }
    assert forall|a: Seq<u8>| holds(changed, a) == (a == account.address@ || holds(accounts, a)) by {
        if holds(changed, a) {
            let k = position(changed, a);
            if k < last {
                assert(stands_at(accounts, a, k));
            }
        }
        if holds(accounts, a) {
            assert(stands_at(changed, a, position(accounts, a)));
        }
    }
    assert forall|a: Seq<u8>| holds(changed, a) implies #[trigger] records(changed)[a] == (if a
        == account.address@ {
        account.data@
    } else {
        records(accounts)[a]
    }) by {
        let k = position(changed, a);
        if a != account.address@ {
            assert(stands_at(accounts, a, k));
            assert(stands_at(accounts, a, position(accounts, a)));
        } else if k < last {
            assert(stands_at(accounts, a, k));
        }
    }
    assert(records(changed) =~= records(accounts).insert(account.address@, account.data@));
}

/// There are as many addresses with a record as there are accounts.
proof fn lemma_domain_size(accounts: Seq<Account>)
    requires
        distinct(accounts),
    ensures
        records(accounts).dom().finite(),
        records(accounts).dom().len() == accounts.len(),
{
    let addresses = accounts.map_values(|account: Account| account.address@);
    assert(addresses.no_duplicates());
    addresses.unique_seq_to_set();
    assert(addresses.to_set() =~= records(accounts).dom()) by {
        assert forall|a: Seq<u8>| addresses.to_set().contains(a) == records(
            accounts,
        ).dom().contains(a) by {
            if addresses.contains(a) {
                let k = choose|k: int| 0 <= k < addresses.len() && addresses[k] == a;
                assert(stands_at(accounts, a, k));
            }
            if holds(accounts, a) {
                let k = position(accounts, a);
                assert(addresses[k] == a);
            }
        }
    }
}

impl View for Ledger {
    type V = LedgerState;

    closed spec fn view(&self) -> LedgerState {
        LedgerState {
            program_id: self.program_id@,
            unix_timestamp: self.unix_timestamp,
            accounts: records(self.accounts@),
        }
    }
}

impl Ledger {
    #[verifier::type_invariant]
    spec fn inv(self) -> bool {
        distinct(self.accounts@)
    }

    /// The empty ledger of the program `program_id`, at time zero.
    pub fn new(program_id: Pubkey) -> (ledger: Ledger)
        ensures
            ledger@ == empty_ledger(program_id@),
    {
        let accounts: Vec<Account> = Vec::new();
        assert(distinct(accounts@));
        let ledger = Ledger { program_id, unix_timestamp: 0, accounts };
        assert(ledger@.accounts =~= Map::empty());
        ledger
    }

    /// The id of the program that the ledger's addresses are derived under.
    pub fn program_id(&self) -> (id: Pubkey)
        ensures
            id@ == self@.program_id,
    {
        self.program_id
    }

    /// The ledger's time.
    pub fn unix_timestamp(&self) -> (now: u64)
        ensures
            now == self@.unix_timestamp,
    {
        self.unix_timestamp
    }

    /// Sets the ledger's clock.
    pub fn set_unix_timestamp(&mut self, now: u64)
        ensures
            final(self)@ == at_time(old(self)@, now),
    {
        proof {
            use_type_invariant(&*self);
        }
        self.unix_timestamp = now;
    }

    /// The number of addresses that hold a record.
    pub fn len(&self) -> (n: usize)
        ensures
            self@.accounts.dom().finite(),
            n == self@.accounts.dom().len(),
    {
        proof {
            use_type_invariant(self);
            lemma_domain_size(self.accounts@);
        }
        self.accounts.len()
    }

    /// Where in the vector `address` stands, if it holds a record.
    fn find(&self, address: &Pubkey) -> (found: Option<usize>)
        ensures
            found matches Some(i) ==> stands_at(self.accounts@, address@, i as int),
            found is None ==> !holds(self.accounts@, address@),
    {
        let mut i: usize = 0;
        while i < self.accounts.len()
            invariant
                i <= self.accounts.len(),
                forall|j: int| 0 <= j < i ==> !stands_at(self.accounts@, address@, j),
            decreases self.accounts.len() - i,
        {
            if self.accounts[i].address == *address {
                return Some(i);
            }
            i += 1;
        }
        None
    }

    /// What stands at `address`, if anything does.
    pub fn account(&self, address: &Pubkey) -> (found: Option<&AccountData>)
        ensures
            found is Some <==> self@.accounts.contains_key(address@),
            found matches Some(data) ==> data@ == self@.accounts[address@],
    {
        proof {
            use_type_invariant(self);
        }
        match self.find(address) {
            Some(i) => {
                assert(stands_at(self.accounts@, address@, position(self.accounts@, address@)));
                Some(&self.accounts[i].data)
            },
            None => None,
        }
    }

    /// The commitment record at `address`, if one stands there.
    pub fn storage(&self, address: &Pubkey) -> (found: Option<&ZKStorage>)
        ensures
            found_storage(found) == storage_at(self@, address@),
    {
        match self.account(address) {
            Some(AccountData::Storage(record)) => Some(record),
            _ => None,
        }
    }

    /// The batch record at `address`, if one stands there.
    pub fn batch(&self, address: &Pubkey) -> (found: Option<&BatchStorage>)
        ensures
            found_batch(found) == batch_at(self@, address@),
    {
        match self.account(address) {
            Some(AccountData::Batch(record)) => Some(record),
            _ => None,
        }
    }

    /// Puts `data` at `address`, in place of what stood there.
    pub fn put(&mut self, address: Pubkey, data: AccountData)
        ensures
            final(self)@ == with_account(old(self)@, address@, data@),
    {
        proof {
            use_type_invariant(&*self);
        }
        let found = self.find(&address);
        let account = Account { address, data };
        let mut accounts: Vec<Account> = Vec::new();
        core::mem::swap(&mut self.accounts, &mut accounts);
        match found {
            Some(i) => {
                proof {
                    lemma_replaced(accounts@, i as int, account);
                }
                accounts.set(i, account);
            },
            None => {
                proof {
                    lemma_added(accounts@, account);
                }
                accounts.push(account);
            },
        }
        self.accounts = accounts;
    }
}

} // verus!
