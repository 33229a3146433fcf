//! A model of the ledger that hosts the purchase handler.
//!
//! The ledger keeps a balance for every account it knows, a clock that may or
//! may not be able to supply a timestamp and that never goes back, and the
//! receipts emitted so far. It
//! offers the handler what the real host offers: the transfer service, the
//! clock reading and the emission of a receipt. Balances change only through
//! the transfer service.
//!
//! The ledger also keeps a journal of the calls that programs made to it. An
//! instruction that fails has its effects undone, but what it asked for stays
//! in the journal.

use vstd::prelude::*;
use crate::handler::{AccountInfo, Purchase, TransferError};
use crate::instruction::{decode_transfer, request_of, system_program_bytes, Instruction, TransferRequest};
use crate::pubkey::{lemma_same_bytes_same_key, Pubkey};

verus! {

/// One account on the ledger and the minor units it holds.
#[derive(Clone, Copy, Debug)]
struct Account {
    key: Pubkey,
    lamports: u64,
}

/// One call of a program to the ledger, with the ledger's answer.
#[derive(Clone, Copy, Debug, PartialEq, Eq)]
pub enum HostCall {
    /// The transfer service was called. `request` is what the instruction
    /// asked for, if it was a transfer request at all.
    Transfer { request: Option<TransferRequest>, answer: Result<(), TransferError> },
    /// The clock was read.
    Clock { reading: Option<i64> },
    /// A receipt was emitted.
    Emit { receipt: Purchase },
}

/// What a ledger holds, as mathematics: the balance of each known account,
/// the clock's timestamp if it can supply one, the latest timestamp that the
/// clock has shown so far, the receipts in the order of their emission, and
/// the calls made to the ledger in the order in which they came.
pub struct LedgerView {
    pub balances: Map<Pubkey, u64>,
    pub clock: Option<i64>,
    pub latest: Option<i64>,
    pub events: Seq<Purchase>,
    pub journal: Seq<HostCall>,
}

impl LedgerView {
    /// The two ledgers hold the same balances, clock and receipts. Their
    /// journals may differ.
    pub open spec fn same_state(self, other: LedgerView) -> bool {
        &&& self.balances == other.balances
        &&& self.clock == other.clock
        &&& self.latest == other.latest
        &&& self.events == other.events
    }

    /// A clock that can be read shows the latest timestamp it has shown.
    pub open spec fn clock_is_latest(self) -> bool {
        self.clock is Some ==> self.latest == self.clock
    }

    /// Whether a clock that has shown `self.latest` may next show `clock`: it
    /// may become unreadable at any time, and may show any timestamp that is
    /// not earlier than the latest one shown.
    pub open spec fn may_show(self, clock: Option<i64>) -> bool {
        clock is Some && self.latest is Some ==> clock->Some_0 >= self.latest->Some_0
    }
}

/// The ledger.
#[derive(Debug)]
pub struct Ledger {
    accounts: Vec<Account>,
    clock: Option<i64>,
    latest: Option<i64>,
    events: Vec<Purchase>,
    journal: Vec<HostCall>,
}

/// No identifier occurs twice among `accounts`.
spec fn distinct_keys(accounts: Seq<Account>) -> bool {
    forall|i: int, j: int| 0 <= i < j < accounts.len() ==> accounts[i].key != accounts[j].key
}

/// `key` is the identifier of one of `accounts`.
spec fn has_key(accounts: Seq<Account>, key: Pubkey) -> bool {
    exists|i: int| 0 <= i < accounts.len() && #[trigger] accounts[i].key == key
}

/// The place of `key` among `accounts`.
spec fn place_of(accounts: Seq<Account>, key: Pubkey) -> int {
    choose|i: int| 0 <= i < accounts.len() && #[trigger] accounts[i].key == key
}

/// The balance of each of `accounts`, by identifier.
spec fn balances_of(accounts: Seq<Account>) -> Map<Pubkey, u64> {
    Map::new(
        |key: Pubkey| has_key(accounts, key),
        |key: Pubkey| accounts[place_of(accounts, key)].lamports,
    )
}

/// Where no identifier occurs twice, the account in place `i` has the balance
/// listed under its identifier.
proof fn lemma_balance_at(accounts: Seq<Account>, i: int)
    requires
        distinct_keys(accounts),
        0 <= i < accounts.len(),
    ensures
        has_key(accounts, accounts[i].key),
        place_of(accounts, accounts[i].key) == i,
        balances_of(accounts).dom().contains(accounts[i].key),
        balances_of(accounts)[accounts[i].key] == accounts[i].lamports,
{
    let key = accounts[i].key;
    assert(accounts[i].key == key);
    let p = place_of(accounts, key);
    assert(0 <= p < accounts.len() && accounts[p].key == key);
    if p < i {
        assert(accounts[p].key != accounts[i].key);
    } else if i < p {
        assert(accounts[i].key != accounts[p].key);
    }
}

/// Giving the account in place `i` another balance changes that one entry.
proof fn lemma_balances_update(accounts: Seq<Account>, i: int, lamports: u64)
    requires
        distinct_keys(accounts),
        0 <= i < accounts.len(),
    ensures
        distinct_keys(accounts.update(i, Account { key: accounts[i].key, lamports })),
        balances_of(accounts.update(i, Account { key: accounts[i].key, lamports })) == balances_of(
            accounts,
        ).insert(accounts[i].key, lamports),
{
    let key = accounts[i].key;
    let after = accounts.update(i, Account { key, lamports });
    assert forall|a: int, b: int| 0 <= a < b < after.len() implies after[a].key != after[b].key by {
        assert(after[a].key == accounts[a].key);
        assert(after[b].key == accounts[b].key);
    }
    assert forall|k: Pubkey| has_key(after, k) == has_key(accounts, k) by {
        if has_key(accounts, k) {
            let p = place_of(accounts, k);
            assert(after[p].key == k);
        }
        if has_key(after, k) {
            let p = place_of(after, k);
            assert(accounts[p].key == k);
        }
    }
    lemma_balance_at(accounts, i);
    assert forall|k: Pubkey| has_key(after, k) implies #[trigger] balances_of(after)[k]
        == balances_of(accounts).insert(key, lamports)[k] by {
        let p = place_of(after, k);
        assert(0 <= p < after.len() && after[p].key == k);
        lemma_balance_at(after, p);
        lemma_balance_at(accounts, p);
    }
    assert(balances_of(after) =~= balances_of(accounts).insert(key, lamports));
}

/// Adding an account under a new identifier adds that one entry.
proof fn lemma_balances_push(accounts: Seq<Account>, account: Account)
    requires
        distinct_keys(accounts),
        !has_key(accounts, account.key),
    ensures
        distinct_keys(accounts.push(account)),
        balances_of(accounts.push(account)) == balances_of(accounts).insert(
            account.key,
            account.lamports,
        ),
{
    let after = accounts.push(account);
    assert forall|a: int, b: int| 0 <= a < b < after.len() implies after[a].key != after[b].key by {
        if b == accounts.len() {
            assert(accounts[a].key == after[a].key);
        } else {
            assert(after[a].key == accounts[a].key);
            assert(after[b].key == accounts[b].key);
        }
    }
    assert forall|k: Pubkey| has_key(after, k) == (has_key(accounts, k) || k == account.key) by {
        if has_key(accounts, k) {
            let p = place_of(accounts, k);
            assert(after[p].key == k);
        }
        if k == account.key {
            assert(after[accounts.len() as int].key == k);
        }
        if has_key(after, k) {
            let p = place_of(after, k);
            if p < accounts.len() {
                assert(accounts[p].key == k);
            }
        }
    }
    assert forall|k: Pubkey| has_key(after, k) implies #[trigger] balances_of(after)[k]
        == balances_of(accounts).insert(account.key, account.lamports)[k] by {
        let p = place_of(after, k);
        assert(0 <= p < after.len() && after[p].key == k);
        lemma_balance_at(after, p);
        if p < accounts.len() {
            assert(accounts[p].key == k);
            lemma_balance_at(accounts, p);
        }
    }
    assert(balances_of(after) =~= balances_of(accounts).insert(account.key, account.lamports));
}

/// One of `infos` has the identifier `key`.
pub open spec fn names(infos: Seq<AccountInfo>, key: Pubkey) -> bool {
    exists|i: int| 0 <= i < infos.len() && #[trigger] infos[i].key == key
}

/// One of `infos` has the identifier `key` and signed.
pub open spec fn signed_by(infos: Seq<AccountInfo>, key: Pubkey) -> bool {
    exists|i: int| 0 <= i < infos.len() && #[trigger] infos[i].key == key && infos[i].is_signer
}

/// What an authorized transfer does to the balances. Both accounts must be
/// known and the source must hold the amount. A transfer from an account to
/// itself then changes nothing; any other moves the amount, unless the
/// destination's balance would no longer fit in 64 bits.
pub open spec fn settle(balances: Map<Pubkey, u64>, request: TransferRequest) -> Result<
    Map<Pubkey, u64>,
    TransferError,
> {
    let TransferRequest { source, destination, amount } = request;
    if !balances.dom().contains(source) || !balances.dom().contains(destination) {
        Err(TransferError::Rejected)
    } else if balances[source] < amount {
        Err(TransferError::InsufficientFunds)
    } else if source == destination {
        Ok(balances)
    } else if balances[destination] + amount > u64::MAX {
        Err(TransferError::Rejected)
    } else {
        Ok(
            balances.insert(source, (balances[source] - amount) as u64).insert(
                destination,
                (balances[destination] + amount) as u64,
            ),
        )
    }
}

/// One of `infos` is the transfer service's own account.
pub open spec fn names_service(infos: Seq<AccountInfo>) -> bool {
    exists|i: int| 0 <= i < infos.len() && #[trigger] infos[i].key@ == system_program_bytes()
}

/// The transfer service's answer to `request`, called with the accounts
/// `infos`, and the balances after it. `source_signs` says whether the call
/// asks the source to sign. The service refuses a call that does not hand over
/// its own account and both accounts of the request, and a source that is not
/// asked to sign or did not sign. What remains is settled by [`settle`].
pub open spec fn call_outcome(
    balances: Map<Pubkey, u64>,
    request: TransferRequest,
    source_signs: bool,
    infos: Seq<AccountInfo>,
) -> Result<Map<Pubkey, u64>, TransferError> {
    if !names_service(infos) || !names(infos, request.source) || !names(
        infos,
        request.destination,
    ) {
        Err(TransferError::Rejected)
    } else if !source_signs || !signed_by(infos, request.source) {
        Err(TransferError::MissingSignature)
    } else {
        settle(balances, request)
    }
}

/// The transfer service's answer to the instruction `ix`, called with the
/// accounts `infos`, and the balances after it: a refusal of what is not a
/// transfer request, and else what [`call_outcome`] says of the request.
pub open spec fn transfer_outcome(
    balances: Map<Pubkey, u64>,
    ix: Instruction,
    infos: Seq<AccountInfo>,
) -> Result<Map<Pubkey, u64>, TransferError> {
    match request_of(ix) {
        None => Err(TransferError::Rejected),
        Some(request) => call_outcome(balances, request, ix.accounts@[0].is_signer, infos),
    }
}

/// To name the system program is to name the transfer service's account.
proof fn lemma_names_service(infos: Seq<AccountInfo>, program: Pubkey)
    requires
        program@ == system_program_bytes(),
    ensures
        names(infos, program) == names_service(infos),
{
    if names(infos, program) {
        let w = choose|w: int| 0 <= w < infos.len() && #[trigger] infos[w].key == program;
        assert(infos[w].key@ == system_program_bytes());
    }
    if names_service(infos) {
        let w = choose|w: int|
            0 <= w < infos.len() && #[trigger] infos[w].key@ == system_program_bytes();
        lemma_same_bytes_same_key(infos[w].key, program);
        assert(infos[w].key == program);
    }
}

/// Looks for `key` among `infos`: whether it is there, and whether it is
/// there as a signer.
fn look_up(infos: &Vec<AccountInfo>, key: &Pubkey) -> (found: (bool, bool))
    ensures
        found.0 == names(infos@, *key),
        found.1 == signed_by(infos@, *key),
{
    let mut named = false;
    let mut signed = false;
    let mut i: usize = 0;
    while i < infos.len()
        invariant
            i <= infos.len(),
            named == names(infos@.take(i as int), *key),
            signed == signed_by(infos@.take(i as int), *key),
        decreases infos.len() - i,
    {
        let info = infos[i];
        let hit = info.key.same(key);
        proof {
            let before = infos@.take(i as int);
            let after = infos@.take(i + 1);
            assert(after[i as int] == infos@[i as int]);
            if names(before, *key) {
                let w = choose|w: int| 0 <= w < before.len() && #[trigger] before[w].key == *key;
                assert(after[w].key == *key);
            }
            if signed_by(before, *key) {
                let w = choose|w: int|
                    0 <= w < before.len() && #[trigger] before[w].key == *key
                        && before[w].is_signer;
                assert(after[w].key == *key && after[w].is_signer);
            }
            if names(after, *key) && !hit {
                let w = choose|w: int| 0 <= w < after.len() && #[trigger] after[w].key == *key;
                assert(before[w].key == *key);
            }
            if signed_by(after, *key) && !(hit && info.is_signer) {
                let w = choose|w: int|
                    0 <= w < after.len() && #[trigger] after[w].key == *key && after[w].is_signer;
                assert(before[w].key == *key && before[w].is_signer);
            }
        }
        if hit {
            named = true;
            if info.is_signer {
                signed = true;
            }
        }
        i += 1;
    }
    proof {
        assert(infos@.take(infos.len() as int) =~= infos@);
    }
    (named, signed)
}

impl View for Ledger {
    type V = LedgerView;

    closed spec fn view(&self) -> LedgerView {
        LedgerView {
            balances: balances_of(self.accounts@),
            clock: self.clock,
            latest: self.latest,
            events: self.events@,
            journal: self.journal@,
        }
    }
}

impl Ledger {
    #[verifier::type_invariant]
    spec fn inv(&self) -> bool {
        &&& distinct_keys(self.accounts@)
        &&& self.clock is Some ==> self.latest == self.clock
    }


    /// A ledger without accounts, receipts or calls, whose clock reads `clock`.
    pub fn new(clock: Option<i64>) -> (ledger: Ledger)
        ensures
            ledger@.balances == Map::<Pubkey, u64>::empty(),
            ledger@.clock == clock,
            ledger@.latest == clock,
            ledger@.events == Seq::<Purchase>::empty(),
            ledger@.journal == Seq::<HostCall>::empty(),
    {
        let ledger = Ledger {
            accounts: Vec::new(),
            clock,
            latest: clock,
            events: Vec::new(),
            journal: Vec::new(),
        };
        proof {
            assert(balances_of(ledger.accounts@) =~= Map::<Pubkey, u64>::empty());
        }
        ledger
    }

    /// The place of the account `key`, if the ledger knows it.
    fn find(&self, key: &Pubkey) -> (place: Option<usize>)
        ensures
            match place {
                Some(i) => i < self.accounts@.len() && self.accounts@[i as int].key == *key,
                None => !has_key(self.accounts@, *key),
            },
    {
        let mut i: usize = 0;
        while i < self.accounts.len()
            invariant
                i <= self.accounts.len(),
                forall|j: int| 0 <= j < i ==> self.accounts@[j].key != *key,
            decreases self.accounts.len() - i,
        {
            if self.accounts[i].key.same(key) {
                return Some(i);
            }
            i += 1;
        }
        None
    }

    /// The balance of the account `key`, if the ledger knows it.
    pub fn balance(&self, key: &Pubkey) -> (lamports: Option<u64>)
        ensures
            lamports == if self@.balances.dom().contains(*key) {
                Some(self@.balances[*key])
            } else {
                None
            },
    {
        proof {
            use_type_invariant(self);
        }
        match self.find(key) {
            Some(i) => {
                proof {
                    lemma_balance_at(self.accounts@, i as int);
                }
                Some(self.accounts[i].lamports)
            },
            None => None,
        }
    }

    /// Opens the account `key` with `lamports` minor units. An identifier that
    /// the ledger already knows is left as it is, and the answer is `false`.
    pub fn open_account(&mut self, key: Pubkey, lamports: u64) -> (opened: bool)
        ensures
            opened == !old(self)@.balances.dom().contains(key),
            final(self)@.clock == old(self)@.clock,
            final(self)@.latest == old(self)@.latest,
            final(self)@.events == old(self)@.events,
            final(self)@.journal == old(self)@.journal,
            final(self)@.balances == if opened {
                old(self)@.balances.insert(key, lamports)
            } else {
                old(self)@.balances
            },
    {
        proof {
            use_type_invariant(&*self);
        }
        match self.find(&key) {
            Some(i) => {
                proof {
                    lemma_balance_at(self.accounts@, i as int);
                }
                false
            },
            None => {
                proof {
                    lemma_balances_push(self.accounts@, Account { key, lamports });
                }
                let mut accounts: Vec<Account> = Vec::new();
                std::mem::swap(&mut self.accounts, &mut accounts);
                accounts.push(Account { key, lamports });
                self.accounts = accounts;
                true
            },
        }
    }

    /// Settles an authorized transfer.
    fn settle(&mut self, request: &TransferRequest) -> (r: Result<(), TransferError>)
        ensures
            match settle(old(self)@.balances, *request) {
                Ok(balances) => r is Ok && final(self)@ == (LedgerView { balances, ..old(self)@ }),
                Err(e) => r == Err::<(), TransferError>(e) && final(self)@ == old(self)@,
            },
    {
        proof {
            use_type_invariant(&*self);
        }
        let from = match self.find(&request.source) {
            Some(i) => i,
            None => { return Err(TransferError::Rejected); },
        };
        let to = match self.find(&request.destination) {
            Some(i) => i,
            None => { return Err(TransferError::Rejected); },
        };
        proof {
            lemma_balance_at(self.accounts@, from as int);
            lemma_balance_at(self.accounts@, to as int);
        }
        let held = self.accounts[from].lamports;
        if held < request.amount {
            return Err(TransferError::InsufficientFunds);
        }
        if from == to {
            return Ok(());
        }
        let owned = self.accounts[to].lamports;
        if owned > u64::MAX - request.amount {
            return Err(TransferError::Rejected);
        }
        proof {
            let debited = self.accounts@.update(
                from as int,
                Account { key: request.source, lamports: (held - request.amount) as u64 },
            );
            lemma_balances_update(self.accounts@, from as int, (held - request.amount) as u64);
            lemma_balances_update(debited, to as int, (owned + request.amount) as u64);
        }
        let mut accounts: Vec<Account> = Vec::new();
        std::mem::swap(&mut self.accounts, &mut accounts);
        accounts[from] = Account { key: request.source, lamports: held - request.amount };
        accounts[to] = Account { key: request.destination, lamports: owned + request.amount };
        self.accounts = accounts;
        Ok(())
    }

    /// Appends `call` to the journal.
    fn note(&mut self, call: HostCall)
        ensures
            final(self)@ == (LedgerView { journal: old(self)@.journal.push(call), ..old(self)@ }),
    {
        proof {
            use_type_invariant(&*self);
        }
        let mut journal: Vec<HostCall> = Vec::new();
        std::mem::swap(&mut self.journal, &mut journal);
        journal.push(call);
        self.journal = journal;
    }

    /// Answers a call to the transfer service, without a note in the journal.
    fn serve(&mut self, ix: &Instruction, infos: &Vec<AccountInfo>) -> (r: Result<
        (),
        TransferError,
    >)
        ensures
            match transfer_outcome(old(self)@.balances, *ix, infos@) {
                Ok(balances) => r is Ok && final(self)@ == (LedgerView { balances, ..old(self)@ }),
                Err(e) => r == Err::<(), TransferError>(e) && final(self)@ == old(self)@,
            },
    {
        let request = match decode_transfer(ix) {
            Some(request) => request,
            None => { return Err(TransferError::Rejected); },
        };
        let service = look_up(infos, &ix.program_id);
        let source = look_up(infos, &request.source);
        let destination = look_up(infos, &request.destination);
        proof {
            lemma_names_service(infos@, ix.program_id);
        }
        if !service.0 || !source.0 || !destination.0 {
            return Err(TransferError::Rejected);
        }
        if !ix.accounts[0].is_signer || !source.1 {
            return Err(TransferError::MissingSignature);
        }
        self.settle(&request)
    }

    /// The transfer service: carries out the transfer that `ix` asks for, on
    /// behalf of a caller that hands over the accounts `infos`, or refuses it
    /// and changes no balance. Either way the call is noted in the journal.
    pub fn invoke(&mut self, ix: &Instruction, infos: &Vec<AccountInfo>) -> (r: Result<
        (),
        TransferError,
    >)
        ensures
            r == match transfer_outcome(old(self)@.balances, *ix, infos@) {
                Ok(_) => Ok::<(), TransferError>(()),
                Err(e) => Err::<(), TransferError>(e),
            },
            final(self)@ == (LedgerView {
                balances: match transfer_outcome(old(self)@.balances, *ix, infos@) {
                    Ok(balances) => balances,
                    Err(_) => old(self)@.balances,
                },
                journal: old(self)@.journal.push(
                    HostCall::Transfer { request: request_of(*ix), answer: r },
                ),
                ..old(self)@
            }),
    {
        let request = decode_transfer(ix);
        let answer = match self.serve(ix, infos) {
            Ok(_) => Ok(()),
            Err(e) => Err(e),
        };
        self.note(HostCall::Transfer { request, answer });
        answer
    }

    /// A copy of the ledger, on which an instruction can work before its
    /// effects are taken over or dropped.
    pub fn fork(&self) -> (copy: Ledger)
        ensures
            copy@ == self@,
    {
        proof {
            use_type_invariant(self);
        }
        let accounts = self.accounts.clone();
        let events = self.events.clone();
        let journal = self.journal.clone();
        proof {
            assert(accounts@ =~= self.accounts@);
            assert(events@ =~= self.events@);
            assert(journal@ =~= self.journal@);
        }
        Ledger { accounts, clock: self.clock, latest: self.latest, events, journal }
    }

    /// Takes over the effects of an instruction that worked on the copy `work`.
    pub fn commit(&mut self, work: Ledger)
        ensures
            final(self)@ == work@,
    {
        *self = work;
    }

    /// Drops the effects of an instruction that worked on the copy `work`.
    /// Balances and receipts stay as they were; the journal of the copy, which
    /// says what the instruction asked for, is kept.
    pub fn discard(&mut self, work: Ledger)
        ensures
            final(self)@ == (LedgerView { journal: work@.journal, ..old(self)@ }),
    {
        proof {
            use_type_invariant(&*self);
        }
        self.journal = work.journal;
    }

    /// Sets what the clock reads: a timestamp, or nothing when the ledger
    /// cannot supply one. The clock never goes back: a timestamp earlier than
    /// the latest one shown is not accepted, and the clock stays as it was.
    pub fn set_clock(&mut self, clock: Option<i64>) -> (accepted: bool)
        ensures
            accepted == old(self)@.may_show(clock),
            final(self)@ == if accepted {
                LedgerView {
                    clock,
                    latest: if clock is Some {
                        clock
                    } else {
                        old(self)@.latest
                    },
                    ..old(self)@
                }
            } else {
                old(self)@
            },
    {
        proof {
            use_type_invariant(&*self);
        }
        match clock {
            None => {
                self.clock = None;
                true
            },
            Some(timestamp) => {
                let back = match self.latest {
                    Some(latest) => timestamp < latest,
                    None => false,
                };
                if back {
                    false
                } else {
                    // While the latest timestamp changes, the clock shows none.
                    self.clock = None;
                    self.latest = clock;
                    self.clock = clock;
                    true
                }
            },
        }
    }

    /// What the clock reads at present. This is a look from outside, not a
    /// call of a program, and leaves no note in the journal.
    pub fn clock(&self) -> (reading: Option<i64>)
        ensures
            reading == self@.clock,
            self@.clock_is_latest(),
    {
        proof {
            use_type_invariant(self);
        }
        self.clock
    }

    /// The latest timestamp that the clock has shown, if it has shown any. A
    /// clock that can be read shows this timestamp.
    pub fn latest(&self) -> (timestamp: Option<i64>)
        ensures
            timestamp == self@.latest,
            self@.clock_is_latest(),
    {
        proof {
            use_type_invariant(self);
        }
        self.latest
    }

    /// The clock service: the ledger's timestamp in seconds, if it can supply
    /// one. The reading is noted in the journal.
    pub fn unix_timestamp(&mut self) -> (reading: Option<i64>)
        ensures
            reading == old(self)@.clock,
            final(self)@ == (LedgerView {
                journal: old(self)@.journal.push(HostCall::Clock { reading }),
                ..old(self)@
            }),
    {
        let reading = self.clock;
        self.note(HostCall::Clock { reading });
        reading
    }

    /// The event log: appends `receipt` to the receipts emitted, and notes the
    /// call in the journal.
    pub fn emit(&mut self, receipt: Purchase)
        ensures
            final(self)@ == (LedgerView {
                events: old(self)@.events.push(receipt),
                journal: old(self)@.journal.push(HostCall::Emit { receipt }),
                ..old(self)@
            }),
    {
        proof {
            use_type_invariant(&*self);
        }
        let mut events: Vec<Purchase> = Vec::new();
        std::mem::swap(&mut self.events, &mut events);
        events.push(receipt);
        self.events = events;
        self.note(HostCall::Emit { receipt });
    }

    /// The receipts emitted so far, oldest first.
    pub fn events(&self) -> (events: &Vec<Purchase>)
        ensures
            events@ == self@.events,
    {
        &self.events
    }

    /// The calls made to the ledger so far, oldest first.
    pub fn journal(&self) -> (journal: &Vec<HostCall>)
        ensures
            journal@ == self@.journal,
    {
        &self.journal
    }
}

} // verus!
