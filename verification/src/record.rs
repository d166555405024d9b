//! A single trackable record and its ownership transitions.

use vstd::prelude::*;

verus! {

/// The identity of a calling party. The store treats an identity as opaque:
/// it only ever compares identities for equality.
#[derive(Copy, Clone, Debug, PartialEq, Eq, Structural)]
pub struct AccountId {
    pub id: u64,
}

/// The lifecycle state of a record: plainly owned, or awaiting a named
/// delegate's acceptance of an ownership transfer.
#[derive(Copy, Clone, Debug, PartialEq, Eq, Structural)]
pub enum State {
    Owned,
    PendingDelegate,
}

/// A single record: an immutable numeric payload, the current owner, and the
/// delegation state. Validation of transitions is the store's responsibility;
/// the record itself performs none.
#[derive(Copy, Clone, Debug, PartialEq, Eq)]
pub struct Product {
    pub state: State,
    pub code: u16,
    pub owner: AccountId,
    pub delegate_to: Option<AccountId>,
}

impl Product {
    /// A record is well formed when it is plainly owned exactly while no
    /// delegate is named.
    pub open spec fn wf(self) -> bool {
        self.state is Owned <==> self.delegate_to is None
    }

    /// A fresh record owned by `owner`, carrying payload `code`, with no
    /// delegation pending.
    pub fn new(code: u16, owner: AccountId) -> (p: Product)
        ensures
            p == (Product { state: State::Owned, code, owner, delegate_to: None }),
            p.wf(),
    {
        Product { state: State::Owned, code, owner, delegate_to: None }
    }

    /// The party currently entitled to delegate the record.
    pub fn get_owner(&self) -> (r: AccountId)
        ensures
            r == self.owner,
    {
        self.owner
    }

    /// The immutable payload set at creation.
    pub fn get_code(&self) -> (r: u16)
        ensures
            r == self.code,
    {
        self.code
    }

    /// A full snapshot copy of the record.
    pub fn get(&self) -> (r: Product)
        ensures
            r == *self,
    {
        Product {
            code: self.code,
            state: self.state,
            owner: self.owner,
            delegate_to: self.delegate_to,
        }
    }

    /// The delegate named by a pending transfer, if any.
    pub fn get_delegate(&self) -> (r: Option<AccountId>)
        ensures
            r == self.delegate_to,
    {
        self.delegate_to
    }

    /// The record's lifecycle state.
    pub fn get_state(&self) -> (r: State)
        ensures
            r == self.state,
    {
        self.state
    }

    /// Transition to `PendingDelegate`, naming `delegate`. Owner and payload
    /// are untouched.
    pub fn delegate_to(&mut self, delegate: AccountId)
        ensures
            *final(self) == (Product {
                state: State::PendingDelegate,
                delegate_to: Some(delegate),
                code: old(self).code,
                owner: old(self).owner,
            }),
            final(self).wf(),
    {
        self.state = State::PendingDelegate;
        self.delegate_to = Some(delegate);
    }

    /// Transition back to `Owned`, with `delegate` as the new owner and the
    /// pending delegation cleared.
    pub fn accept(&mut self, delegate: AccountId)
        ensures
            *final(self) == (Product {
                state: State::Owned,
                owner: delegate,
                delegate_to: None,
                code: old(self).code,
            }),
            final(self).wf(),
    {
        self.state = State::Owned;
        self.owner = delegate;
        self.delegate_to = None;
    }
}

} // verus!
