//! A general requester: its id comes from a random seed, it asks the
//! gateway for any kind of data under that id, and keeps the latest
//! delivery.

use vstd::prelude::*;
use vstd::slice::slice_subrange;
use crate::delivery::{CallbackError, seed_hex};

verus! {

/// The gateway that requests go to.
pub const DIA_GATEWAY_ACCOUNT_ID: &'static str = "test.dia-sc.testnet";

/// The arguments of a request to the gateway.
#[derive(Debug, PartialEq)]
pub struct DiaGatewayRequestArgs {
    pub request_id: String,
    pub data_key: String,
    pub data_item: String,
    pub callback: String,
}

/// A quotation. Prices and volume are held as the bits of their `f64`
/// values: the contract stores them and never reads them.
#[derive(Debug, PartialEq)]
pub struct QuoteData {
    pub symbol: String,
    pub name: String,
    pub price: u64,
    pub price_yesterday: u64,
    pub volume_yesterday_usd: u64,
    pub source: String,
    pub time: String,
    pub itin: String,
    pub signer_account_id: String,
}

/// The payload of a delivery.
#[derive(Debug, PartialEq)]
pub enum ResponseData {
    Quote(QuoteData),
    NoData,
}

/// A delivery: an error text (empty on success) and the payload.
#[derive(Debug, PartialEq)]
pub struct Response {
    pub err: String,
    pub data: ResponseData,
}

/// The requester's state.
pub struct ClientTestContract {
    /// The id under which this requester makes its requests.
    pub contract_id: String,
    /// The latest delivery accepted.
    pub callback_response: Response,
    /// The only account whose deliveries are accepted.
    pub authorized_deliverer: String,
}

fn copy_quote(q: &QuoteData) -> (c: QuoteData)
    ensures
        c == *q,
{
    QuoteData {
        symbol: q.symbol.clone(),
        name: q.name.clone(),
        price: q.price,
        price_yesterday: q.price_yesterday,
        volume_yesterday_usd: q.volume_yesterday_usd,
        source: q.source.clone(),
        time: q.time.clone(),
        itin: q.itin.clone(),
        signer_account_id: q.signer_account_id.clone(),
    }
}

fn copy_response(r: &Response) -> (c: Response)
    ensures
        c == *r,
{
    let data = match &r.data {
        ResponseData::Quote(q) => ResponseData::Quote(copy_quote(q)),
        ResponseData::NoData => ResponseData::NoData,
    };
    Response { err: r.err.clone(), data }
}

impl ClientTestContract {
    /// A contract whose id is the hex form of the first seven bytes of
    /// `random_seed`, accepting deliveries from `authorized_deliverer` only.
    pub fn new(random_seed: &Vec<u8>, authorized_deliverer: String) -> (r: ClientTestContract)
        requires
            random_seed@.len() >= 7,
        ensures
            r.contract_id@ == seed_hex(random_seed@.subrange(0, 7)),
            r.callback_response.err@.len() == 0,
            r.callback_response.data == ResponseData::NoData,
            r.authorized_deliverer == authorized_deliverer,
    {
        let seed = slice_subrange(random_seed.as_slice(), 0, 7);
        ClientTestContract {
            contract_id: crate::delivery::hex_id(seed),
            callback_response: Response { err: String::new(), data: ResponseData::NoData },
            authorized_deliverer,
        }
    }

    /// Sets the id and returns a copy of it.
    pub fn set_id(&mut self, contract_id: String) -> (r: String)
        ensures
            final(self).contract_id == contract_id,
            r == contract_id,
            final(self).callback_response == old(self).callback_response,
            final(self).authorized_deliverer == old(self).authorized_deliverer,
    {
        self.contract_id = contract_id;
        self.contract_id.clone()
    }

    /// A copy of the id.
    pub fn get_id(&self) -> (r: String)
        ensures
            r == self.contract_id,
    {
        self.contract_id.clone()
    }

    /// The arguments of a request for `data_item` of kind `data_key`, made
    /// under this requester's id.
    pub fn make_request(&self, data_key: String, data_item: String) -> (r: DiaGatewayRequestArgs)
        ensures
            r.request_id == self.contract_id,
            r.data_key == data_key,
            r.data_item == data_item,
            r.callback@ == "callback"@,
    {
        DiaGatewayRequestArgs {
            request_id: self.contract_id.clone(),
            data_key,
            data_item,
            callback: "callback".to_owned(),
        }
    }

    /// A copy of the latest delivery.
    pub fn get_callback_response(&self) -> (r: Response)
        ensures
            r == self.callback_response,
    {
        copy_response(&self.callback_response)
    }

    /// Accepts a delivery from `caller`: from the configured deliverer it
    /// becomes the latest response, error text included; from anyone else it
    /// is refused and nothing changes.
    pub fn callback(&mut self, caller: &String, err: String, response: ResponseData) -> (r: Result<
        (),
        CallbackError,
    >)
        ensures
            caller@ != old(self).authorized_deliverer@ ==> r == Err::<(), CallbackError>(
                CallbackError::UnauthorizedCallback,
            ) && *final(self) == *old(self),
            caller@ == old(self).authorized_deliverer@ ==> r == Ok::<(), CallbackError>(())
                && final(self).callback_response == (Response { err, data: response })
                && final(self).contract_id == old(self).contract_id
                && final(self).authorized_deliverer == old(self).authorized_deliverer,
    {
        if *caller != self.authorized_deliverer {
            return Err(CallbackError::UnauthorizedCallback);
        }
        self.callback_response = Response { err, data: response };
        Ok(())
    }
}

} // verus!
