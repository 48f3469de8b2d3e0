//! The signaling store: a table of requests, a table of responses and a
//! directory of public keys, each addressed by identifier.

use crate::pair::{
    account_identifier, hash_account_id, pair_identifier, AccountHash, AccountId, AccountPair,
    AccountPairHash,
};
use crate::table::{lookup, Table};
use vstd::prelude::*;

verus! {

/// A public key that a participant publishes. The hub does not look inside.
pub type Key = String;

/// The offer of an initiator. The hub does not look inside.
pub type Request = String;

/// The answer of a responder. The hub does not look inside.
pub type Response = String;

/// What a hub holds: for each identifier the request, the response and the
/// public key stored under it, where there is one.
pub struct HubView {
    pub requests: Map<Seq<u8>, Seq<char>>,
    pub responses: Map<Seq<u8>, Seq<char>>,
    pub encryption_public_keys: Map<Seq<u8>, Seq<char>>,
}

impl HubView {
    /// The hub that holds nothing.
    pub open spec fn empty() -> HubView {
        HubView {
            requests: Map::empty(),
            responses: Map::empty(),
            encryption_public_keys: Map::empty(),
        }
    }

    /// The request stored under `id`.
    pub open spec fn request_at(self, id: Seq<u8>) -> Option<Seq<char>> {
        lookup(self.requests, id)
    }

    /// The response stored under `id`.
    pub open spec fn response_at(self, id: Seq<u8>) -> Option<Seq<char>> {
        lookup(self.responses, id)
    }

    /// The public key stored under `id`.
    pub open spec fn key_at(self, id: Seq<u8>) -> Option<Seq<char>> {
        lookup(self.encryption_public_keys, id)
    }

    /// The hub after a request is stored under `id`: the request replaces
    /// the one stored there, and the response stored there is gone.
    pub open spec fn with_request(self, id: Seq<u8>, request: Seq<char>) -> HubView {
        HubView {
            requests: self.requests.insert(id, request),
            responses: self.responses.remove(id),
            encryption_public_keys: self.encryption_public_keys,
        }
    }

    /// The hub after a response is stored under `id`.
    pub open spec fn with_response(self, id: Seq<u8>, response: Seq<char>) -> HubView {
        HubView {
            requests: self.requests,
            responses: self.responses.insert(id, response),
            encryption_public_keys: self.encryption_public_keys,
        }
    }

    /// The hub after a public key is stored under `id`.
    pub open spec fn with_key(self, id: Seq<u8>, key: Seq<char>) -> HubView {
        HubView {
            requests: self.requests,
            responses: self.responses,
            encryption_public_keys: self.encryption_public_keys.insert(id, key),
        }
    }

    /// The pending request from `from` to `to`.
    pub open spec fn request(self, from: Seq<char>, to: Seq<char>) -> Option<Seq<char>> {
        self.request_at(pair_identifier(from, to))
    }

    /// The response to the request from `from` to `to`.
    pub open spec fn response(self, from: Seq<char>, to: Seq<char>) -> Option<Seq<char>> {
        self.response_at(pair_identifier(from, to))
    }

    /// The public key that `account_id` has published.
    pub open spec fn key(self, account_id: Seq<char>) -> Option<Seq<char>> {
        self.key_at(account_identifier(account_id))
    }

    /// The hub after `caller` publishes `key`.
    pub open spec fn set_key(self, caller: Seq<char>, key: Seq<char>) -> HubView {
        self.with_key(account_identifier(caller), key)
    }

    /// The hub after `caller` requests an exchange with `to`.
    pub open spec fn make_request(
        self,
        caller: Seq<char>,
        to: Seq<char>,
        request: Seq<char>,
    ) -> HubView {
        self.with_request(pair_identifier(caller, to), request)
    }

    /// The hub after `caller` answers the request that `from` made to it.
    pub open spec fn respond(
        self,
        caller: Seq<char>,
        from: Seq<char>,
        response: Seq<char>,
    ) -> HubView {
        self.with_response(pair_identifier(from, caller), response)
    }
}

/// The signaling store. A hub comes from [`WebRTCHub::new`], which is its
/// initialization, or from tables that an earlier hub gave out; there is no
/// default hub.
pub struct WebRTCHub {
    requests: Table,
    responses: Table,
    encryption_public_keys: Table,
}

impl View for WebRTCHub {
    type V = HubView;

    closed spec fn view(&self) -> HubView {
        HubView {
            requests: self.requests@,
            responses: self.responses@,
            encryption_public_keys: self.encryption_public_keys@,
        }
    }
}

impl WebRTCHub {
    /// A hub that holds nothing.
    pub fn new() -> (hub: Self)
        ensures
            hub@ == HubView::empty(),
    {
        Self {
            requests: Table::new(),
            responses: Table::new(),
            encryption_public_keys: Table::new(),
        }
    }

    /// The request stored under `id`, if there is one.
    pub fn request_at(&self, id: &AccountPairHash) -> (found: Option<Request>)
        ensures
            found.deep_view() == self@.request_at(id@),
    {
        self.requests.get(id)
    }

    /// The response stored under `id`, if there is one.
    pub fn response_at(&self, id: &AccountPairHash) -> (found: Option<Response>)
        ensures
            found.deep_view() == self@.response_at(id@),
    {
        self.responses.get(id)
    }

    /// The public key stored under `id`, if there is one.
    pub fn key_at(&self, id: &AccountHash) -> (found: Option<Key>)
        ensures
            found.deep_view() == self@.key_at(id@),
    {
        self.encryption_public_keys.get(id)
    }

    /// Stores `request` under `id` and clears the response stored under
    /// `id`: a response there answered an earlier request.
    pub fn store_request(&mut self, id: AccountPairHash, request: Request)
        ensures
            final(self)@ == old(self)@.with_request(id@, request@),
    {
        self.requests.insert(id.clone(), request);
        self.responses.remove(&id);
    }

    /// Stores `response` under `id`, whether or not a request is stored
    /// there.
    pub fn store_response(&mut self, id: AccountPairHash, response: Response)
        ensures
            final(self)@ == old(self)@.with_response(id@, response@),
    {
        self.responses.insert(id, response);
    }

    /// Stores `key` under `id`.
    pub fn store_key(&mut self, id: AccountHash, key: Key)
        ensures
            final(self)@ == old(self)@.with_key(id@, key@),
    {
        self.encryption_public_keys.insert(id, key);
    }

    /// Publishes `key` as the public key of `caller`, in place of an earlier
    /// one.
    pub fn set_key(&mut self, caller: AccountId, key: Key)
        ensures
            final(self)@ == old(self)@.set_key(caller@, key@),
    {
        self.store_key(hash_account_id(&caller), key);
    }

    /// The public key that `account_id` has published, if any.
    pub fn get_key(&self, account_id: AccountId) -> (found: Option<Key>)
        ensures
            found.deep_view() == self@.key(account_id@),
    {
        self.key_at(&hash_account_id(&account_id))
    }

    /// Records `request` as the pending request from `caller` to
    /// `to_account_id`, in place of an earlier one, and clears the response
    /// stored for that pair.
    pub fn make_request(
        &mut self,
        caller: AccountId,
        to_account_id: AccountId,
        request: Request,
    )
        ensures
            final(self)@ == old(self)@.make_request(caller@, to_account_id@, request@),
    {
        let pair = AccountPair { from_account_id: caller, to_account_id };
        self.store_request(pair.hash(), request);
    }

    /// The pending request from `from_account_id` to `to_account_id`, if any.
    pub fn get_request(
        &self,
        from_account_id: AccountId,
        to_account_id: AccountId,
    ) -> (found: Option<Request>)
        ensures
            found.deep_view() == self@.request(from_account_id@, to_account_id@),
    {
        let pair = AccountPair { from_account_id, to_account_id };
        self.request_at(&pair.hash())
    }

    /// Records `response` as the answer of `caller` to the request that
    /// `from_account_id` made to it, whether or not there is such a request.
    pub fn respond(
        &mut self,
        caller: AccountId,
        from_account_id: AccountId,
        response: Response,
    )
        ensures
            final(self)@ == old(self)@.respond(caller@, from_account_id@, response@),
    {
        let pair = AccountPair { from_account_id, to_account_id: caller };
        self.store_response(pair.hash(), response);
    }

    /// The response to the request from `from_account_id` to
    /// `to_account_id`, if any.
    pub fn get_response(
        &self,
        from_account_id: AccountId,
        to_account_id: AccountId,
    ) -> (found: Option<Response>)
        ensures
            found.deep_view() == self@.response(from_account_id@, to_account_id@),
    {
        let pair = AccountPair { from_account_id, to_account_id };
        self.response_at(&pair.hash())
    }

    /// The hub that holds the given tables.
    pub fn from_tables(
        requests: Table,
        responses: Table,
        encryption_public_keys: Table,
    ) -> (hub: Self)
        ensures
            hub@ == (HubView {
                requests: requests@,
                responses: responses@,
                encryption_public_keys: encryption_public_keys@,
            }),
    {
        Self { requests, responses, encryption_public_keys }
    }

    /// The tables of the hub: the requests, the responses and the public
    /// keys.
    pub fn into_tables(self) -> (tables: (Table, Table, Table))
        ensures
            self@ == (HubView {
                requests: tables.0@,
                responses: tables.1@,
                encryption_public_keys: tables.2@,
            }),
    {
        (self.requests, self.responses, self.encryption_public_keys)
    }
}

} // verus!
