//! The append-only store of records and its access-controlled operations.

use vstd::prelude::*;
use crate::record::AccountId;
use crate::record::Product;
use crate::record::State;

verus! {

/// Why a store operation was refused.
#[derive(Copy, Clone, Debug, PartialEq, Eq, Structural)]
pub enum Error {
    /// No record carries the given identifier.
    PidNotExists,
    /// The caller is not the record's current owner.
    InvalidOwner,
    /// The caller is not the record's named delegate, or none is named.
    InvalidDelegate,
    /// The record is in the wrong state for the operation.
    InvalidState,
    /// The store holds no record yet.
    EmptyStore,
}

/// Every record of a well-formed store satisfies the record invariant.
pub open spec fn store_wf(s: Seq<Product>) -> bool {
    forall|i: int| 0 <= i < s.len() ==> (#[trigger] s[i]).wf()
}

/// The store contents after a record with payload `code` is created for
/// `caller`: the new record is appended, so its identifier is the length the
/// store had before.
pub open spec fn create_step(s: Seq<Product>, code: u16, caller: AccountId) -> Seq<Product> {
    s.push((Product { state: State::Owned, code, owner: caller, delegate_to: None }))
}

/// What delegation decides and does, as a function of the store contents and
/// the call's inputs alone: the result, and the store contents afterwards.
/// Checks run in the order existence, ownership, state; the first failure
/// decides the error, and a refused call changes nothing.
pub open spec fn delegate_step(
    s: Seq<Product>,
    pid: u32,
    caller: AccountId,
    target: AccountId,
) -> (Result<(), Error>, Seq<Product>) {
    if pid >= s.len() {
        (Err(Error::PidNotExists), s)
    } else if s[pid as int].owner != caller {
        (Err(Error::InvalidOwner), s)
    } else if s[pid as int].state != State::Owned {
        (Err(Error::InvalidState), s)
    } else {
        (
            Ok(()),
            s.update(pid as int, (Product {
                state: State::PendingDelegate,
                delegate_to: Some(target),
                code: s[pid as int].code,
                owner: s[pid as int].owner,
            })),
        )
    }
}

/// What acceptance decides and does, as a function of the store contents and
/// the call's inputs alone. Checks run in the order existence, delegate
/// identity, state; the first failure decides the error, and a refused call
/// changes nothing.
pub open spec fn accept_step(s: Seq<Product>, pid: u32, caller: AccountId) -> (Result<
    (),
    Error,
>, Seq<Product>) {
    if pid >= s.len() {
        (Err(Error::PidNotExists), s)
    } else if s[pid as int].delegate_to != Some(caller) {
        (Err(Error::InvalidDelegate), s)
    } else if s[pid as int].state != State::PendingDelegate {
        (Err(Error::InvalidState), s)
    } else {
        (
            Ok(()),
            s.update(pid as int, (Product {
                state: State::Owned,
                owner: caller,
                delegate_to: None,
                code: s[pid as int].code,
            })),
        )
    }
}

/// The ordered, append-only collection of all records. A record's identifier
/// is its position: the order of creation, starting at 0, with no gaps and no
/// reuse. Records are never removed or reindexed.
pub struct ProductFactory {
    products: Vec<Product>,
}

impl View for ProductFactory {
    type V = Seq<Product>;

    closed spec fn view(&self) -> Seq<Product> {
        self.products@
    }
}

impl ProductFactory {
    /// An empty store; identifiers will be assigned 0, 1, 2, ... in creation
    /// order.
    pub fn new() -> (f: ProductFactory)
        ensures
            f@ == Seq::<Product>::empty(),
            store_wf(f@),
    {
        ProductFactory { products: Vec::new() }
    }

    /// How many records have been created so far; also the next identifier to
    /// be assigned.
    pub fn len(&self) -> (n: usize)
        ensures
            n == self@.len(),
    {
        self.products.len()
    }

    /// Appends a new record owned by `caller` with payload `code`. The new
    /// record's identifier is the store length before the call; every record
    /// already created keeps its identifier and its contents.
    pub fn create_product(&mut self, code: u16, caller: AccountId)
        requires
            store_wf(old(self)@),
        ensures
            final(self)@ == create_step(old(self)@, code, caller),
            final(self)@.len() == old(self)@.len() + 1,
            final(self)@.last() == (Product {
                state: State::Owned,
                code,
                owner: caller,
                delegate_to: None,
            }),
            store_wf(final(self)@),
    {
        let p = Product::new(code, caller);
        self.products.push(p);
    }

    /// A snapshot of the most recently created record, or `EmptyStore` when
    /// nothing has been created yet.
    pub fn get_last(&self) -> (r: Result<Product, Error>)
        ensures
            self@.len() > 0 ==> r == Ok::<Product, Error>(self@.last()),
            self@.len() == 0 ==> r == Err::<Product, Error>(Error::EmptyStore),
    {
        if self.products.len() == 0 {
            Err(Error::EmptyStore)
        } else {
            Ok(self.products[self.products.len() - 1].get())
        }
    }

    /// A snapshot of the record with identifier `pid`, or `PidNotExists` when
    /// no record carries that identifier.
    pub fn get_by_id(&self, pid: u32) -> (r: Result<Product, Error>)
        ensures
            pid < self@.len() ==> r == Ok::<Product, Error>(self@[pid as int]),
            pid >= self@.len() ==> r == Err::<Product, Error>(Error::PidNotExists),
    {
        if (pid as usize) < self.products.len() {
            Ok(self.products[pid as usize].get())
        } else {
            Err(Error::PidNotExists)
        }
    }

    /// Delegates transfer rights on record `pid` to `target`. Succeeds if and
    /// only if the record exists, `caller` is its owner, and it is plainly
    /// owned; checks run in the order existence, ownership, state, and a
    /// refused call leaves the store unchanged.
    pub fn delegate_product(&mut self, pid: u32, caller: AccountId, target: AccountId) -> (r:
        Result<(), Error>)
        requires
            store_wf(old(self)@),
        ensures
            (r, final(self)@) == delegate_step(old(self)@, pid, caller, target),
            r is Ok <==> pid < old(self)@.len() && old(self)@[pid as int].owner == caller && old(
                self,
            )@[pid as int].state == State::Owned,
            r is Err ==> final(self)@ == old(self)@,
            store_wf(final(self)@),
    {
        if (pid as usize) >= self.products.len() {
            return Err(Error::PidNotExists);
        }
        let p = self.products[pid as usize];
        if p.get_owner() != caller {
            return Err(Error::InvalidOwner);
        }
        match p.get_state() {
            State::PendingDelegate => Err(Error::InvalidState),
            State::Owned => {
                let mut q = p;
                q.delegate_to(target);
                self.products.set(pid as usize, q);
                proof {
                    assert forall|i: int| 0 <= i < self.products@.len() implies (
                    #[trigger] self.products@[i]).wf() by {
                        if i != pid as int {
                            assert(self.products@[i] == old(self)@[i]);
                        }
                    }
                }
                Ok(())
            },
        }
    }

    /// Accepts a pending delegation on record `pid`. Succeeds if and only if
    /// the record exists, its named delegate is `caller`, and a delegation is
    /// pending; checks run in the order existence, delegate identity, state,
    /// and a refused call leaves the store unchanged. On success `caller`
    /// becomes the owner and the pending delegation is cleared.
    pub fn accept_product(&mut self, pid: u32, caller: AccountId) -> (r: Result<(), Error>)
        requires
            store_wf(old(self)@),
        ensures
            (r, final(self)@) == accept_step(old(self)@, pid, caller),
            r is Ok <==> pid < old(self)@.len() && old(self)@[pid as int].delegate_to == Some(
                caller,
            ) && old(self)@[pid as int].state == State::PendingDelegate,
            r is Err ==> final(self)@ == old(self)@,
            store_wf(final(self)@),
    {
        if (pid as usize) >= self.products.len() {
            return Err(Error::PidNotExists);
        }
        let p = self.products[pid as usize];
        let delegate_matches = match p.get_delegate() {
            Some(d) => d == caller,
            None => false,
        };
        if !delegate_matches {
            return Err(Error::InvalidDelegate);
        }
        match p.get_state() {
            State::Owned => Err(Error::InvalidState),
            State::PendingDelegate => {
                let mut q = p;
                q.accept(caller);
                self.products.set(pid as usize, q);
                proof {
                    assert forall|i: int| 0 <= i < self.products@.len() implies (
                    #[trigger] self.products@[i]).wf() by {
                        if i != pid as int {
                            assert(self.products@[i] == old(self)@[i]);
                        }
                    }
                }
                Ok(())
            },
        }
    }
}

/// Identifiers are assigned in creation order with no gaps or reuse: a new
/// record stands at the old length, and every identifier assigned earlier
/// still addresses the very record it addressed before.
pub proof fn lemma_create_assigns_next_id(s: Seq<Product>, code: u16, caller: AccountId)
    ensures
        create_step(s, code, caller).len() == s.len() + 1,
        create_step(s, code, caller)[s.len() as int] == (Product {
            state: State::Owned,
            code,
            owner: caller,
            delegate_to: None,
        }),
        forall|i: int| 0 <= i < s.len() ==> create_step(s, code, caller)[i] == s[i],
{
}

/// Only creation assigns identifiers: delegation and acceptance never change
/// how many records the store holds, whether they succeed or not.
pub proof fn lemma_transitions_preserve_ids(
    s: Seq<Product>,
    pid: u32,
    caller: AccountId,
    target: AccountId,
)
    ensures
        delegate_step(s, pid, caller, target).1.len() == s.len(),
        accept_step(s, pid, caller).1.len() == s.len(),
{
}

/// A refused delegation changes nothing, so repeating the very same call
/// against the store it left behind is refused with the same error.
pub proof fn lemma_delegate_rejection_idempotent(
    s: Seq<Product>,
    pid: u32,
    caller: AccountId,
    target: AccountId,
)
    requires
        delegate_step(s, pid, caller, target).0 is Err,
    ensures
        delegate_step(s, pid, caller, target).1 == s,
        delegate_step(delegate_step(s, pid, caller, target).1, pid, caller, target)
            == delegate_step(s, pid, caller, target),
{
}

/// A refused acceptance changes nothing, so repeating the very same call
/// against the store it left behind is refused with the same error.
pub proof fn lemma_accept_rejection_idempotent(s: Seq<Product>, pid: u32, caller: AccountId)
    requires
        accept_step(s, pid, caller).0 is Err,
    ensures
        accept_step(s, pid, caller).1 == s,
        accept_step(accept_step(s, pid, caller).1, pid, caller) == accept_step(s, pid, caller),
{
}

} // verus!
