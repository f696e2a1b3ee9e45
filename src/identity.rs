use vstd::prelude::*;

use crate::account::AccountReference;
use crate::text::str_eq;

verus! {

/// A local identity as the directory holds it.
#[derive(Clone, Debug)]
pub struct IdentityRecord {
    pub username: String,
    pub actor_id: String,
    pub profile_url: String,
    pub display_name: String,
}

/// Why a lookup found no identity.
#[derive(Clone, Copy, Debug, PartialEq, Eq, Structural)]
pub enum ResolveError {
    NotFound,
}

/// The identities served under one domain.
#[derive(Clone, Debug)]
pub struct Directory {
    pub domain: String,
    pub records: Vec<IdentityRecord>,
}

impl Directory {
    /// Some record carries `name`.
    pub open spec fn finds(&self, name: Seq<char>) -> bool {
        exists|i: int| 0 <= i < self.records@.len() && (#[trigger] self.records@[i]).username@ == name
    }

    /// `i` is the first record that carries `name`.
    pub open spec fn is_first(&self, name: Seq<char>, i: int) -> bool {
        &&& 0 <= i < self.records@.len()
        &&& self.records@[i].username@ == name
        &&& forall|j: int| 0 <= j < i ==> (#[trigger] self.records@[j]).username@ != name
    }

    /// The record that a lookup of `name` yields: the first that carries it.
    pub open spec fn record_for(&self, name: Seq<char>) -> IdentityRecord
        recommends
            self.finds(name),
    {
        self.records@[choose|i: int| self.is_first(name, i)]
    }

    /// An account of this directory's domain whose user it holds.
    pub open spec fn finds_account(&self, user: Seq<char>, host: Seq<char>) -> bool {
        host == self.domain@ && self.finds(user)
    }

    /// An empty directory for `domain`.
    pub fn new(domain: String) -> (r: Directory)
        ensures
            r.domain == domain,
            r.records@.len() == 0,
    {
        Directory { domain, records: Vec::new() }
    }

    /// Adds `record` after those already held.
    pub fn insert(&mut self, record: IdentityRecord)
        ensures
            final(self).domain == old(self).domain,
            final(self).records@ == old(self).records@.push(record),
    {
        self.records.push(record);
    }

    /// Looks up the identity named `username`.
    pub fn resolve(&self, username: &str) -> (r: Result<&IdentityRecord, ResolveError>)
        ensures
            r is Ok <==> self.finds(username@),
            r matches Ok(rec) ==> *rec == self.record_for(username@),
            r matches Err(e) ==> e == ResolveError::NotFound,
    {
        let mut i: usize = 0;
        while i < self.records.len()
            invariant
                i <= self.records@.len(),
                forall|j: int| 0 <= j < i ==> (#[trigger] self.records@[j]).username@ != username@,
            decreases self.records@.len() - i,
        {
            if str_eq(self.records[i].username.as_str(), username) {
                assert(self.is_first(username@, i as int));
                proof {
                    let k = choose|k: int| self.is_first(username@, k);
                    assert(k == i) by {
                        if k < i {
                            assert(self.records@[k].username@ != username@);
                        } else if k > i {
                            assert(self.records@[i as int].username@ != username@);
                        }
                    }
                }
                return Ok(&self.records[i]);
            }
            i = i + 1;
        }
        Err(ResolveError::NotFound)
    }

    /// Looks up the identity that `account` names, which must belong to this
    /// directory's domain.
    pub fn resolve_account(&self, account: &AccountReference) -> (r: Result<
        &IdentityRecord,
        ResolveError,
    >)
        ensures
            r is Ok <==> self.finds_account(account.username@, account.host@),
            r matches Ok(rec) ==> *rec == self.record_for(account.username@),
            r matches Err(e) ==> e == ResolveError::NotFound,
    {
        if !str_eq(account.host.as_str(), self.domain.as_str()) {
            return Err(ResolveError::NotFound);
        }
        self.resolve(account.username.as_str())
    }
}

} // verus!
