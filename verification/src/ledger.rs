//! The record store: a map from a vault's address to its record, with at
//! most one vault per authority, and a map from vault and user to the one
//! live withdrawal request of that pair.
use vstd::prelude::*;
use crate::errors::TreasuryError;
use crate::identity::Identity;
use crate::state::{TreasuryVault, WithdrawalRequest};

verus! {

/// A vault record at its address.
#[derive(Clone, Copy, Debug, PartialEq, Eq)]
struct VaultAccount {
    /// The address of the record.
    key: Identity,
    /// The record.
    data: TreasuryVault,
}

/// Why an operation on the store was refused.
#[derive(Clone, Copy, Debug, PartialEq, Eq, Structural)]
pub enum OperationError {
    /// No record exists under the key that the operation names.
    AccountNotFound,
    /// A record already exists under the key that the operation would
    /// create.
    AccountAlreadyExists,
    /// The operation's own rules refused it.
    Program(TreasuryError),
}

/// All vault records and all live withdrawal requests.
#[derive(Clone, Debug, PartialEq, Eq)]
pub struct Ledger {
    vaults: Vec<VaultAccount>,
    requests: Vec<WithdrawalRequest>,
}

/// Whether the entry of `s` at position `i` has the address `key`.
spec fn vault_is(s: Seq<VaultAccount>, i: int, key: Identity) -> bool {
    0 <= i < s.len() && s[i].key == key
}

/// Whether the entry of `s` at position `i` is the request of `key.0` for
/// `key.1`.
spec fn request_is(s: Seq<WithdrawalRequest>, i: int, key: (Identity, Identity)) -> bool {
    0 <= i < s.len() && s[i].vault == key.0 && s[i].user == key.1
}

/// No address and no authority has two of the vaults in `s`.
spec fn vaults_distinct(s: Seq<VaultAccount>) -> bool {
    forall|i: int, j: int|
        0 <= i < j < s.len() ==> (#[trigger] s[i]).key != (#[trigger] s[j]).key
            && s[i].data.authority != s[j].data.authority
}

/// No pair of vault and user has two of the requests in `s`, and each of
/// them is well formed.
spec fn requests_distinct(s: Seq<WithdrawalRequest>) -> bool {
    &&& forall|i: int, j: int|
        0 <= i < j < s.len() ==> !((#[trigger] s[i]).vault == (#[trigger] s[j]).vault && s[i].user
            == s[j].user)
    &&& forall|i: int| 0 <= i < s.len() ==> (#[trigger] s[i]).wf()
}

/// The vaults of `s` by address.
spec fn vault_map_of(s: Seq<VaultAccount>) -> Map<Identity, TreasuryVault> {
    Map::new(
        |k: Identity| exists|i: int| vault_is(s, i, k),
        |k: Identity| s[choose|i: int| vault_is(s, i, k)].data,
    )
}

/// The requests of `s` by vault and user.
spec fn request_map_of(s: Seq<WithdrawalRequest>) -> Map<
    (Identity, Identity),
    WithdrawalRequest,
> {
    Map::new(
        |k: (Identity, Identity)| exists|i: int| request_is(s, i, k),
        |k: (Identity, Identity)| s[choose|i: int| request_is(s, i, k)],
    )
}

/// Whether some vault of `m` has `authority` as its authority.
pub open spec fn names_authority(m: Map<Identity, TreasuryVault>, authority: Identity) -> bool {
    exists|k: Identity| #[trigger] m.contains_key(k) && m[k].authority == authority
}

/// Among distinct vaults the entry with a given address is the one that the
/// map holds under it.
proof fn lemma_vault_lookup(s: Seq<VaultAccount>, i: int, key: Identity)
    requires
        vaults_distinct(s),
        vault_is(s, i, key),
    ensures
        vault_map_of(s).contains_key(key),
        vault_map_of(s)[key] == s[i].data,
{
    let j = choose|j: int| vault_is(s, j, key);
    if i < j {
        assert(s[i].key != s[j].key);
    }
    if j < i {
        assert(s[j].key != s[i].key);
    }
}

/// Among distinct requests the entry for a given vault and user is the one
/// that the map holds under them.
proof fn lemma_request_lookup(s: Seq<WithdrawalRequest>, i: int, key: (Identity, Identity))
    requires
        requests_distinct(s),
        request_is(s, i, key),
    ensures
        request_map_of(s).contains_key(key),
        request_map_of(s)[key] == s[i],
{
    let j = choose|j: int| request_is(s, j, key);
    if i < j {
        assert(!(s[i].vault == s[j].vault && s[i].user == s[j].user));
    }
    if j < i {
        assert(!(s[j].vault == s[i].vault && s[j].user == s[i].user));
    }
}

/// Appending a vault whose address and authority are new keeps the vaults
/// distinct and adds one entry to the map.
proof fn lemma_vault_push(s: Seq<VaultAccount>, a: VaultAccount)
    requires
        vaults_distinct(s),
        !vault_map_of(s).contains_key(a.key),
        !names_authority(vault_map_of(s), a.data.authority),
    ensures
        vaults_distinct(s.push(a)),
        vault_map_of(s.push(a)) == vault_map_of(s).insert(a.key, a.data),
{
    let t = s.push(a);
    assert forall|i: int, j: int| 0 <= i < j < t.len() implies (#[trigger] t[i]).key != (
    #[trigger] t[j]).key && t[i].data.authority != t[j].data.authority by {
        assert(t[i] == s[i]);
        if j < s.len() {
            assert(t[j] == s[j]);
        } else {
            assert(vault_is(s, i, s[i].key));
            lemma_vault_lookup(s, i, s[i].key);
            assert(!vault_is(s, i, a.key));
        }
    }
    assert(vault_is(t, s.len() as int, a.key));
    assert forall|k: Identity| #[trigger]
        vault_map_of(t).contains_key(k) == vault_map_of(s).insert(a.key, a.data).contains_key(
            k,
        ) by {
        if vault_map_of(t).contains_key(k) {
            let i = choose|i: int| vault_is(t, i, k);
            if i < s.len() {
                assert(vault_is(s, i, k));
            }
        }
        if vault_map_of(s).contains_key(k) {
            let i = choose|i: int| vault_is(s, i, k);
            assert(vault_is(t, i, k));
        }
    }
    assert forall|k: Identity| #[trigger] vault_map_of(t).contains_key(k) implies vault_map_of(
        t,
    )[k] == vault_map_of(s).insert(a.key, a.data)[k] by {
        let i = choose|i: int| vault_is(t, i, k);
        if i < s.len() {
            assert(vault_is(s, i, k));
            lemma_vault_lookup(s, i, k);
        }
    }
    assert(vault_map_of(t) =~= vault_map_of(s).insert(a.key, a.data));
}

/// Writing new data with the same authority over a vault keeps the vaults
/// distinct and replaces one entry of the map.
proof fn lemma_vault_update(s: Seq<VaultAccount>, i: int, data: TreasuryVault)
    requires
        vaults_distinct(s),
        0 <= i < s.len(),
        data.authority == s[i].data.authority,
    ensures
        vaults_distinct(s.update(i, VaultAccount { key: s[i].key, data })),
        vault_map_of(s.update(i, VaultAccount { key: s[i].key, data })) == vault_map_of(s).insert(
            s[i].key,
            data,
        ),
{
    let t = s.update(i, VaultAccount { key: s[i].key, data });
    assert forall|a: int, b: int| 0 <= a < b < t.len() implies (#[trigger] t[a]).key != (
    #[trigger] t[b]).key && t[a].data.authority != t[b].data.authority by {
        assert(s[a].key != s[b].key && s[a].data.authority != s[b].data.authority);
        assert(t[a].key == s[a].key && t[a].data.authority == s[a].data.authority);
        assert(t[b].key == s[b].key && t[b].data.authority == s[b].data.authority);
    }
    assert(vault_is(s, i, s[i].key));
    assert forall|k: Identity| #[trigger]
        vault_map_of(t).contains_key(k) == vault_map_of(s).insert(s[i].key, data).contains_key(
            k,
        ) by {
        if vault_map_of(t).contains_key(k) {
            let j = choose|j: int| vault_is(t, j, k);
            assert(vault_is(s, j, k));
        }
        if vault_map_of(s).contains_key(k) {
            let j = choose|j: int| vault_is(s, j, k);
            assert(vault_is(t, j, k));
        }
    }
    assert forall|k: Identity| #[trigger] vault_map_of(t).contains_key(k) implies vault_map_of(
        t,
    )[k] == vault_map_of(s).insert(s[i].key, data)[k] by {
        let j = choose|j: int| vault_is(t, j, k);
        assert(vault_is(s, j, k));
        lemma_vault_lookup(s, j, k);
        if k == s[i].key {
            lemma_vault_lookup(s, i, k);
        }
    }
    assert(vault_map_of(t) =~= vault_map_of(s).insert(s[i].key, data));
}

/// Appending a well-formed request for a pair that has none keeps the
/// requests distinct and adds one entry to the map.
proof fn lemma_request_push(s: Seq<WithdrawalRequest>, r: WithdrawalRequest)
    requires
        requests_distinct(s),
        r.wf(),
        !request_map_of(s).contains_key((r.vault, r.user)),
    ensures
        requests_distinct(s.push(r)),
        request_map_of(s.push(r)) == request_map_of(s).insert((r.vault, r.user), r),
{
    let t = s.push(r);
    let key = (r.vault, r.user);
    assert forall|i: int, j: int| 0 <= i < j < t.len() implies !((#[trigger] t[i]).vault == (
    #[trigger] t[j]).vault && t[i].user == t[j].user) by {
        assert(t[i] == s[i]);
        if j < s.len() {
            assert(t[j] == s[j]);
        } else {
            assert(!request_is(s, i, key));
        }
    }
    assert forall|i: int| 0 <= i < t.len() implies (#[trigger] t[i]).wf() by {
        if i < s.len() {
            assert(t[i] == s[i]);
        }
    }
    assert(request_is(t, s.len() as int, key));
    assert forall|k: (Identity, Identity)| #[trigger]
        request_map_of(t).contains_key(k) == request_map_of(s).insert(key, r).contains_key(k) by {
        if request_map_of(t).contains_key(k) {
            let i = choose|i: int| request_is(t, i, k);
            if i < s.len() {
                assert(request_is(s, i, k));
            }
        }
        if request_map_of(s).contains_key(k) {
            let i = choose|i: int| request_is(s, i, k);
            assert(request_is(t, i, k));
        }
    }
    assert forall|k: (Identity, Identity)| #[trigger]
        request_map_of(t).contains_key(k) implies request_map_of(t)[k] == request_map_of(s).insert(
        key,
        r,
    )[k] by {
        let i = choose|i: int| request_is(t, i, k);
        if i < s.len() {
            assert(request_is(s, i, k));
            lemma_request_lookup(s, i, k);
        }
    }
    assert(request_map_of(t) =~= request_map_of(s).insert(key, r));
}

/// Taking a request out keeps the rest distinct and removes its entry, and
/// no other, from the map.
proof fn lemma_request_remove(s: Seq<WithdrawalRequest>, i: int)
    requires
        requests_distinct(s),
        0 <= i < s.len(),
    ensures
        requests_distinct(s.remove(i)),
        request_map_of(s.remove(i)) == request_map_of(s).remove((s[i].vault, s[i].user)),
{
    let t = s.remove(i);
    let key = (s[i].vault, s[i].user);
    assert forall|a: int, b: int| 0 <= a < b < t.len() implies !((#[trigger] t[a]).vault == (
    #[trigger] t[b]).vault && t[a].user == t[b].user) by {
        let ka = if a < i { a } else { a + 1 };
        let kb = if b < i { b } else { b + 1 };
        assert(t[a] == s[ka]);
        assert(t[b] == s[kb]);
        assert(!(s[ka].vault == s[kb].vault && s[ka].user == s[kb].user));
    }
    assert forall|a: int| 0 <= a < t.len() implies (#[trigger] t[a]).wf() by {
        let ka = if a < i { a } else { a + 1 };
        assert(t[a] == s[ka]);
        assert(s[ka].wf());
    }
    assert forall|k: (Identity, Identity)| #[trigger]
        request_map_of(t).contains_key(k) == request_map_of(s).remove(key).contains_key(k) by {
        if request_map_of(t).contains_key(k) {
            let j = choose|j: int| request_is(t, j, k);
            let kj = if j < i { j } else { j + 1 };
            assert(t[j] == s[kj]);
            assert(request_is(s, kj, k));
            if kj < i {
                assert(!(s[kj].vault == s[i].vault && s[kj].user == s[i].user));
            } else {
                assert(!(s[i].vault == s[kj].vault && s[i].user == s[kj].user));
            }
        }
        if request_map_of(s).contains_key(k) && k != key {
            let j = choose|j: int| request_is(s, j, k);
            let tj = if j < i { j } else { j - 1 };
            assert(t[tj] == s[j]);
            assert(request_is(t, tj, k));
        }
    }
    assert forall|k: (Identity, Identity)| #[trigger]
        request_map_of(t).contains_key(k) implies request_map_of(t)[k] == request_map_of(s).remove(
        key,
    )[k] by {
        let j = choose|j: int| request_is(t, j, k);
        let kj = if j < i { j } else { j + 1 };
        assert(t[j] == s[kj]);
        assert(request_is(s, kj, k));
        lemma_request_lookup(s, kj, k);
    }
    assert(request_map_of(t) =~= request_map_of(s).remove(key));
}

impl Ledger {
    /// The vault records by address.
    pub closed spec fn vault_map(&self) -> Map<Identity, TreasuryVault> {
        vault_map_of(self.vaults@)
    }

    /// The live withdrawal requests by vault and user.
    pub closed spec fn request_map(&self) -> Map<(Identity, Identity), WithdrawalRequest> {
        request_map_of(self.requests@)
    }

    /// What every store keeps: no address and no authority has two vaults,
    /// no pair of vault and user has two requests.
    pub closed spec fn wf(&self) -> bool {
        &&& vaults_distinct(self.vaults@)
        &&& requests_distinct(self.requests@)
    }

    /// The vault record at the address `key`, if there is one.
    pub open spec fn vault_at(&self, key: Identity) -> Option<TreasuryVault> {
        if self.vault_map().contains_key(key) {
            Some(self.vault_map()[key])
        } else {
            None
        }
    }

    /// The live request of `vault` for `user`, if there is one.
    pub open spec fn request_at(&self, vault: Identity, user: Identity) -> Option<
        WithdrawalRequest,
    > {
        if self.request_map().contains_key((vault, user)) {
            Some(self.request_map()[(vault, user)])
        } else {
            None
        }
    }

    /// Whether some vault has `authority` as its authority.
    pub open spec fn holds_authority(&self, authority: Identity) -> bool {
        names_authority(self.vault_map(), authority)
    }

    /// Whether `self` can come after `before`: every vault of `before` is
    /// still there under its address, with the configuration it was created
    /// with, and none of its totals and counts has gone down.
    pub open spec fn follows(&self, before: &Ledger) -> bool {
        forall|k: Identity| #[trigger]
            before.vault_map().contains_key(k) ==> self.vault_map().contains_key(k)
                && self.vault_map()[k].succeeds(&before.vault_map()[k])
    }

    /// In a well-formed store every request is filed under its own vault and
    /// user and is well formed, and two vaults never share an authority.
    pub proof fn lemma_wf(&self)
        requires
            self.wf(),
        ensures
            forall|k: (Identity, Identity)| #[trigger]
                self.request_map().contains_key(k) ==> self.request_map()[k].vault == k.0
                    && self.request_map()[k].user == k.1 && self.request_map()[k].wf(),
            forall|a: Identity, b: Identity|
                #![trigger self.vault_map()[a], self.vault_map()[b]]
                self.vault_map().contains_key(a) && self.vault_map().contains_key(b) && a != b
                    ==> self.vault_map()[a].authority != self.vault_map()[b].authority,
    {
        let s = self.vaults@;
        assert forall|a: Identity, b: Identity|
            #![trigger self.vault_map()[a], self.vault_map()[b]]
            self.vault_map().contains_key(a) && self.vault_map().contains_key(b) && a
                != b implies self.vault_map()[a].authority != self.vault_map()[b].authority by {
            let i = choose|i: int| vault_is(s, i, a);
            let j = choose|j: int| vault_is(s, j, b);
            if i < j {
                assert(s[i].data.authority != s[j].data.authority);
            } else {
                assert(s[j].data.authority != s[i].data.authority);
            }
        }
    }

    /// A store without records.
    pub fn new() -> (r: Ledger)
        ensures
            r.wf(),
            r.vault_map() == Map::<Identity, TreasuryVault>::empty(),
            r.request_map() == Map::<(Identity, Identity), WithdrawalRequest>::empty(),
    {
        let r = Ledger { vaults: Vec::new(), requests: Vec::new() };
        assert(r.vault_map() =~= Map::<Identity, TreasuryVault>::empty());
        assert(r.request_map() =~= Map::<(Identity, Identity), WithdrawalRequest>::empty());
        r
    }

    fn find_vault(&self, key: &Identity) -> (r: Option<usize>)
        requires
            self.wf(),
        ensures
            match r {
                Some(i) => vault_is(self.vaults@, i as int, *key) && self.vault_at(*key) == Some(
                    self.vaults@[i as int].data,
                ),
                None => self.vault_at(*key) is None,
            },
    {
        let mut i: usize = 0;
        while i < self.vaults.len()
            invariant
                i <= self.vaults.len(),
                self.wf(),
                forall|j: int| 0 <= j < i ==> !vault_is(self.vaults@, j, *key),
            decreases self.vaults.len() - i,
        {
            if self.vaults[i].key.same(key) {
                proof {
                    lemma_vault_lookup(self.vaults@, i as int, *key);
                }
                return Some(i);
            }
            i = i + 1;
        }
        None
    }

    fn find_request(&self, vault: &Identity, user: &Identity) -> (r: Option<usize>)
        requires
            self.wf(),
        ensures
            match r {
                Some(i) => request_is(self.requests@, i as int, (*vault, *user))
                    && self.request_at(*vault, *user) == Some(self.requests@[i as int]),
                None => self.request_at(*vault, *user) is None,
            },
    {
        let mut i: usize = 0;
        while i < self.requests.len()
            invariant
                i <= self.requests.len(),
                self.wf(),
                forall|j: int| 0 <= j < i ==> !request_is(self.requests@, j, (*vault, *user)),
            decreases self.requests.len() - i,
        {
            if self.requests[i].vault.same(vault) && self.requests[i].user.same(user) {
                proof {
                    lemma_request_lookup(self.requests@, i as int, (*vault, *user));
                }
                return Some(i);
            }
            i = i + 1;
        }
        None
    }

    /// Whether some vault has `authority` as its authority.
    pub fn has_authority(&self, authority: &Identity) -> (r: bool)
        requires
            self.wf(),
        ensures
            r == self.holds_authority(*authority),
    {
        let mut i: usize = 0;
        while i < self.vaults.len()
            invariant
                i <= self.vaults.len(),
                self.wf(),
                forall|j: int|
                    0 <= j < i ==> (#[trigger] self.vaults@[j]).data.authority != *authority,
            decreases self.vaults.len() - i,
        {
            if self.vaults[i].data.authority.same(authority) {
                proof {
                    let k = self.vaults@[i as int].key;
                    assert(vault_is(self.vaults@, i as int, k));
                    lemma_vault_lookup(self.vaults@, i as int, k);
                    assert(self.vault_map().contains_key(k));
                }
                return true;
            }
            i = i + 1;
        }
        proof {
            assert forall|k: Identity| #[trigger]
                self.vault_map().contains_key(k) implies self.vault_map()[k].authority
                != *authority by {
                let j = choose|j: int| vault_is(self.vaults@, j, k);
                assert(self.vaults@[j].data.authority != *authority);
            }
        }
        false
    }

    /// The vault record at the address `key`, if there is one.
    pub fn vault(&self, key: &Identity) -> (r: Option<TreasuryVault>)
        requires
            self.wf(),
        ensures
            r == self.vault_at(*key),
    {
        match self.find_vault(key) {
            Some(i) => Some(self.vaults[i].data),
            None => None,
        }
    }

    /// The live request of `vault` for `user`, if there is one.
    pub fn request(&self, vault: &Identity, user: &Identity) -> (r: Option<WithdrawalRequest>)
        requires
            self.wf(),
        ensures
            r == self.request_at(*vault, *user),
    {
        match self.find_request(vault, user) {
            Some(i) => Some(self.requests[i]),
            None => None,
        }
    }

    /// Stores a new vault record under `key` unless the address or the
    /// record's authority already has one. Returns whether it was stored.
    pub(crate) fn insert_vault(&mut self, key: Identity, data: TreasuryVault) -> (r: bool)
        requires
            old(self).wf(),
        ensures
            final(self).wf(),
            final(self).request_map() == old(self).request_map(),
            r == (old(self).vault_at(key) is None && !old(self).holds_authority(data.authority)),
            r ==> final(self).vault_map() == old(self).vault_map().insert(key, data),
            !r ==> *final(self) == *old(self),
    {
        if self.find_vault(&key).is_some() || self.has_authority(&data.authority) {
            return false;
        }
        proof {
            lemma_vault_push(self.vaults@, VaultAccount { key, data });
        }
        self.vaults.push(VaultAccount { key, data });
        true
    }

    /// Stores a new request unless its vault and user already have a live
    /// one. Returns whether it was stored.
    pub(crate) fn insert_request(&mut self, request: WithdrawalRequest) -> (r: bool)
        requires
            old(self).wf(),
            request.wf(),
        ensures
            final(self).wf(),
            final(self).vault_map() == old(self).vault_map(),
            r == (old(self).request_at(request.vault, request.user) is None),
            r ==> final(self).request_map() == old(self).request_map().insert(
                (request.vault, request.user),
                request,
            ),
            !r ==> *final(self) == *old(self),
    {
        if self.find_request(&request.vault, &request.user).is_some() {
            return false;
        }
        proof {
            lemma_request_push(self.requests@, request);
        }
        self.requests.push(request);
        true
    }

    /// Writes `data` over the vault record at the address `key`. Returns
    /// whether there was such a record. The new data must keep the
    /// authority of the old.
    pub(crate) fn replace_vault(&mut self, key: Identity, data: TreasuryVault) -> (r: bool)
        requires
            old(self).wf(),
            old(self).vault_at(key) matches Some(v) ==> v.authority == data.authority,
        ensures
            final(self).wf(),
            final(self).request_map() == old(self).request_map(),
            r == old(self).vault_at(key) is Some,
            r ==> final(self).vault_map() == old(self).vault_map().insert(key, data),
            !r ==> *final(self) == *old(self),
    {
        match self.find_vault(&key) {
            None => false,
            Some(i) => {
                proof {
                    lemma_vault_update(self.vaults@, i as int, data);
                }
                self.vaults[i] = VaultAccount { key, data };
                true
            },
        }
    }

    /// Takes the live request of `vault` for `user` out of the store and
    /// returns it, if there is one. The pair is free for a new request
    /// afterwards.
    pub(crate) fn remove_request(&mut self, vault: Identity, user: Identity) -> (r: Option<
        WithdrawalRequest,
    >)
        requires
            old(self).wf(),
        ensures
            final(self).wf(),
            final(self).vault_map() == old(self).vault_map(),
            r == old(self).request_at(vault, user),
            r is Some ==> final(self).request_map() == old(self).request_map().remove(
                (vault, user),
            ),
            r is None ==> *final(self) == *old(self),
    {
        match self.find_request(&vault, &user) {
            None => None,
            Some(i) => {
                proof {
                    lemma_request_remove(self.requests@, i as int);
                }
                Some(self.requests.remove(i))
            },
        }
    }
}

} // verus!
