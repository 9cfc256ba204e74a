//! The gateway: a registry of pending requests, with admission control on
//! payment and on who may evict an entry.

use vstd::prelude::*;

verus! {

/// One hundredth of a NEAR, in yoctoNEAR: the deposit that the public
/// gateway asks for each request.
pub const ONE_NEAR_CENT: u128 = 10_000_000_000_000_000_000_000;

/// A pending data request.
#[derive(Debug, PartialEq)]
pub struct Request {
    /// The account that made the request, taken from the verified caller.
    pub contract_account_id: String,
    /// The requester's own correlation token.
    pub request_id: u128,
    /// The category of data to fetch.
    pub data_key: String,
    /// The instance within that category.
    pub data_item: String,
    /// The method of the requester that receives the data.
    pub callback: String,
}

/// Why a call on the gateway failed. Every failure leaves the state as it was.
#[derive(Debug, Clone, Copy, PartialEq, Eq, Structural)]
pub enum GatewayError {
    /// The attached deposit is below the configured minimum.
    InsufficientPayment,
    /// The caller is not the owner.
    Unauthorized,
    /// No pending request has the given account and request id.
    NotFound,
    /// The gateway's state already exists.
    InvalidAmbientState,
    /// The owner id breaks the account naming rules.
    InvalidOwnerId,
}

/// The gateway's state: its owner, the minimum deposit, and the pending
/// requests in order of arrival.
pub struct DiaApiGatewayContract {
    /// The only account that may remove requests.
    pub owner_id: String,
    /// The smallest deposit that a request must carry.
    pub deposit_for_request: u128,
    /// The pending requests, oldest first.
    pub requests: Vec<Request>,
}

/// A lower-case letter or a digit.
pub open spec fn is_account_char(c: char) -> bool {
    (97 <= (c as u32) && (c as u32) <= 122) || (48 <= (c as u32) && (c as u32) <= 57)
}

/// A character that separates the parts of an account id.
pub open spec fn is_account_separator(c: char) -> bool {
    c == '-' || c == '_' || c == '.'
}

/// The account naming rules: 2 to 64 characters, lower-case letters and
/// digits in parts joined by single separators, no separator at either end.
pub open spec fn valid_account_id(s: Seq<char>) -> bool {
    &&& 2 <= s.len() <= 64
    &&& forall|i: int| 0 <= i < s.len() ==> is_account_char(s[i]) || is_account_separator(s[i])
    &&& !is_account_separator(s[0])
    &&& !is_account_separator(s[s.len() - 1])
    &&& forall|i: int|
        0 <= i < s.len() - 1 ==> !(#[trigger] is_account_separator(s[i]) && is_account_separator(s[i + 1]))
}

/// Relies on near_sdk::env::is_valid_account_id, which checks the naming
/// rules above on the bytes of the id (a character outside ASCII fails them).
#[verifier::external_body]
fn is_valid_account_id(account_id: &String) -> (r: bool)
    ensures
        r == valid_account_id(account_id@),
{
    near_sdk::env::is_valid_account_id(account_id.as_bytes())
}

/// The request answers to the given account and request id.
pub open spec fn is_match(r: Request, contract_id: Seq<char>, request_id: u128) -> bool {
    r.request_id == request_id && r.contract_account_id@ == contract_id
}

/// Some request in `s` answers to the key.
pub open spec fn has_match(s: Seq<Request>, contract_id: Seq<char>, request_id: u128) -> bool {
    exists|i: int| 0 <= i < s.len() && is_match(s[i], contract_id, request_id)
}

/// `i` is the position of the oldest request in `s` that answers to the key.
pub open spec fn is_first_match(
    s: Seq<Request>,
    contract_id: Seq<char>,
    request_id: u128,
    i: int,
) -> bool {
    &&& 0 <= i < s.len()
    &&& is_match(s[i], contract_id, request_id)
    &&& forall|j: int| 0 <= j < i ==> !is_match(s[j], contract_id, request_id)
}

/// No two requests in `s` answer to the key.
pub open spec fn key_is_unique(s: Seq<Request>, contract_id: Seq<char>, request_id: u128) -> bool {
    forall|i: int, j: int|
        0 <= i < s.len() && 0 <= j < s.len() && is_match(s[i], contract_id, request_id) && is_match(
            s[j],
            contract_id,
            request_id,
        ) ==> i == j
}

fn copy_request(r: &Request) -> (c: Request)
    ensures
        c == *r,
{
    Request {
        contract_account_id: r.contract_account_id.clone(),
        request_id: r.request_id,
        data_key: r.data_key.clone(),
        data_item: r.data_item.clone(),
        callback: r.callback.clone(),
    }
}

impl DiaApiGatewayContract {
    /// Creates an empty gateway owned by `owner_id`. It fails if the state
    /// already exists, or if the owner id breaks the account naming rules.
    pub fn new(owner_id: String, deposit_for_request: u128, already_initialized: bool) -> (r: Result<
        DiaApiGatewayContract,
        GatewayError,
    >)
        ensures
            already_initialized ==> r == Err::<DiaApiGatewayContract, GatewayError>(
                GatewayError::InvalidAmbientState,
            ),
            !already_initialized && !valid_account_id(owner_id@) ==> r == Err::<
                DiaApiGatewayContract,
                GatewayError,
            >(GatewayError::InvalidOwnerId),
            !already_initialized && valid_account_id(owner_id@) ==> (r matches Ok(c) && c.owner_id
                == owner_id && c.deposit_for_request == deposit_for_request && c.requests@.len()
                == 0),
    {
        if already_initialized {
            return Err(GatewayError::InvalidAmbientState);
        }
        if !is_valid_account_id(&owner_id) {
            return Err(GatewayError::InvalidOwnerId);
        }
        Ok(DiaApiGatewayContract { owner_id, deposit_for_request, requests: Vec::new() })
    }

    /// Appends a request from `caller`, who attached `attached_deposit`.
    /// The originator recorded is always `caller`. It fails, changing
    /// nothing, if the deposit is below the minimum. A key already pending
    /// is accepted again: both entries stay, and removal takes the older.
    pub fn request(
        &mut self,
        caller: String,
        attached_deposit: u128,
        request_id: u128,
        data_key: String,
        data_item: String,
        callback: String,
    ) -> (r: Result<(), GatewayError>)
        ensures
            attached_deposit < old(self).deposit_for_request ==> r == Err::<(), GatewayError>(
                GatewayError::InsufficientPayment,
            ) && *final(self) == *old(self),
            attached_deposit >= old(self).deposit_for_request ==> r == Ok::<(), GatewayError>(())
                && final(self).owner_id == old(self).owner_id && final(self).deposit_for_request
                == old(self).deposit_for_request && final(self).requests@ == old(self).requests@.push(
                (Request { contract_account_id: caller, request_id, data_key, data_item, callback }),
            ),
    {
        if attached_deposit < self.deposit_for_request {
            return Err(GatewayError::InsufficientPayment);
        }
        let request = Request {
            contract_account_id: caller,
            request_id,
            data_key,
            data_item,
            callback,
        };
        self.requests.push(request);
        Ok(())
    }

    /// The number of pending requests.
    pub fn get_pending_requests_count(&self) -> (r: u64)
        ensures
            r == self.requests@.len(),
    {
        self.requests.len() as u64
    }

    /// A copy of the pending requests, oldest first.
    pub fn get_pending_requests(&self) -> (r: Vec<Request>)
        ensures
            r@ == self.requests@,
    {
        let mut r: Vec<Request> = Vec::new();
        let mut i: usize = 0;
        while i < self.requests.len()
            invariant
                i <= self.requests@.len(),
                r@ == self.requests@.subrange(0, i as int),
            decreases self.requests@.len() - i,
        {
            r.push(copy_request(&self.requests[i]));
            i = i + 1;
        }
        assert(r@ =~= self.requests@);
        r
    }

    /// Removes the oldest request of account `contract_id` with id
    /// `request_id`. Only the owner may call it; without a match it fails
    /// with `NotFound`. A failure changes nothing.
    pub fn remove(&mut self, caller: &String, contract_id: String, request_id: u128) -> (r: Result<
        (),
        GatewayError,
    >)
        ensures
            caller@ != old(self).owner_id@ ==> r == Err::<(), GatewayError>(
                GatewayError::Unauthorized,
            ) && *final(self) == *old(self),
            caller@ == old(self).owner_id@ && !has_match(old(self).requests@, contract_id@, request_id)
                ==> r == Err::<(), GatewayError>(GatewayError::NotFound) && *final(self) == *old(
                self,
            ),
            caller@ == old(self).owner_id@ && has_match(old(self).requests@, contract_id@, request_id)
                ==> r == Ok::<(), GatewayError>(()) && final(self).owner_id == old(self).owner_id
                && final(self).deposit_for_request == old(self).deposit_for_request
                && (exists|i: int|
                is_first_match(old(self).requests@, contract_id@, request_id, i)
                    && final(self).requests@ == old(self).requests@.remove(i)),
    {
        if *caller != self.owner_id {
            return Err(GatewayError::Unauthorized);
        }
        let mut i: usize = 0;
        while i < self.requests.len()
            invariant
                i <= self.requests@.len(),
                *self == *old(self),
                caller@ == self.owner_id@,
                forall|j: int| 0 <= j < i ==> !is_match(self.requests@[j], contract_id@, request_id),
            decreases self.requests@.len() - i,
        {
            if self.requests[i].request_id == request_id && self.requests[i].contract_account_id
                == contract_id {
                assert(is_first_match(self.requests@, contract_id@, request_id, i as int));
                self.requests.remove(i);
                return Ok(());
            }
            i = i + 1;
        }
        Err(GatewayError::NotFound)
    }
}

/// Removing the only request under a key shortens the registry by one,
/// leaves no request equal to the one removed, and leaves nothing under that
/// key for a second removal to find.
pub proof fn lemma_removal_is_not_repeatable(
    s: Seq<Request>,
    contract_id: Seq<char>,
    request_id: u128,
    i: int,
)
    requires
        is_first_match(s, contract_id, request_id, i),
        key_is_unique(s, contract_id, request_id),
    ensures
        s.remove(i).len() == s.len() - 1,
        !s.remove(i).contains(s[i]),
        !has_match(s.remove(i), contract_id, request_id),
{
    let t = s.remove(i);
    assert forall|k: int| 0 <= k < t.len() implies !is_match(t[k], contract_id, request_id) by {
        if k < i {
            assert(t[k] == s[k]);
        } else {
            assert(t[k] == s[k + 1]);
        }
    }
    if t.contains(s[i]) {
        let k = choose|k: int| 0 <= k < t.len() && t[k] == s[i];
        assert(is_match(t[k], contract_id, request_id));
    }
}

} // verus!
