//! A requester of quotations: it asks the gateway for a quote and keeps the
//! latest one delivered to it.

use vstd::prelude::*;
use crate::delivery::CallbackError;

verus! {

/// The gateway that requests go to.
pub const DIA_GATEWAY_ACCOUNT_ID: &'static str = "contract.dia.oracles.testnet";

/// The deliverer that a new contract accepts.
pub const SIGNER_DIA_ORACLES_ACCOUNT_ID: &'static str = "dia.oracles.testnet";

/// The arguments of a request to the gateway.
#[derive(Debug, PartialEq)]
pub struct DiaGatewayRequestArgs {
    pub request_id: u128,
    pub data_key: String,
    pub data_item: String,
    pub callback: String,
}

/// A quotation. Prices and volume are held as the bits of their `f64`
/// values: the contract stores them and never reads them.
#[derive(Debug, PartialEq)]
pub struct QuoteData {
    pub symbol: String,
    pub name: String,
    pub price: u64,
    pub price_yesterday: u64,
    pub volume_yesterday_usd: u64,
    pub source: String,
    pub time: String,
    pub itin: String,
}

/// The payload of a delivery.
#[derive(Debug, PartialEq)]
pub enum ResponseData {
    Quote(QuoteData),
    NoData,
}

/// A delivery: the request it answers, an error text (empty on success),
/// and the payload.
#[derive(Debug, PartialEq)]
pub struct Response {
    pub request_id: u128,
    pub err: String,
    pub data: ResponseData,
}

/// The requester's state.
pub struct QuoteTestContract {
    /// The id of the latest request made.
    pub current_request_id: u128,
    /// The latest delivery accepted.
    pub last_callback_response: Response,
    /// The only account whose deliveries are accepted.
    pub authorized_deliverer: String,
}

fn copy_quote(q: &QuoteData) -> (c: QuoteData)
    ensures
        c == *q,
{
    QuoteData {
        symbol: q.symbol.clone(),
        name: q.name.clone(),
        price: q.price,
        price_yesterday: q.price_yesterday,
        volume_yesterday_usd: q.volume_yesterday_usd,
        source: q.source.clone(),
        time: q.time.clone(),
        itin: q.itin.clone(),
    }
}

fn copy_response(r: &Response) -> (c: Response)
    ensures
        c == *r,
{
    let data = match &r.data {
        ResponseData::Quote(q) => ResponseData::Quote(copy_quote(q)),
        ResponseData::NoData => ResponseData::NoData,
    };
    Response { request_id: r.request_id, err: r.err.clone(), data }
}

impl QuoteTestContract {
    /// A contract that accepts deliveries from `SIGNER_DIA_ORACLES_ACCOUNT_ID`.
    pub fn new() -> (r: QuoteTestContract)
        ensures
            r.current_request_id == 100,
            r.last_callback_response.request_id == 0,
            r.last_callback_response.err@.len() == 0,
            r.last_callback_response.data == ResponseData::NoData,
            r.authorized_deliverer@ == SIGNER_DIA_ORACLES_ACCOUNT_ID@,
    {
        QuoteTestContract::with_deliverer(SIGNER_DIA_ORACLES_ACCOUNT_ID.to_owned())
    }

    /// A contract that accepts deliveries from `authorized_deliverer` only.
    pub fn with_deliverer(authorized_deliverer: String) -> (r: QuoteTestContract)
        ensures
            r.current_request_id == 100,
            r.last_callback_response.request_id == 0,
            r.last_callback_response.err@.len() == 0,
            r.last_callback_response.data == ResponseData::NoData,
            r.authorized_deliverer == authorized_deliverer,
    {
        QuoteTestContract {
            current_request_id: 100,
            last_callback_response: Response {
                request_id: 0,
                err: String::new(),
                data: ResponseData::NoData,
            },
            authorized_deliverer,
        }
    }

    /// Sets the id of the latest request.
    pub fn set_id(&mut self, request_id: u128)
        ensures
            final(self).current_request_id == request_id,
            final(self).last_callback_response == old(self).last_callback_response,
            final(self).authorized_deliverer == old(self).authorized_deliverer,
    {
        self.current_request_id = request_id;
    }

    /// The id of the latest request.
    pub fn get_id(&self) -> (r: u128)
        ensures
            r == self.current_request_id,
    {
        self.current_request_id
    }

    /// Takes the next request id and returns the arguments of a quotation
    /// request for `data_item` under that id.
    pub fn make_request(&mut self, data_item: String) -> (r: DiaGatewayRequestArgs)
        requires
            old(self).current_request_id < u128::MAX,
        ensures
            final(self).current_request_id == old(self).current_request_id + 1,
            final(self).last_callback_response == old(self).last_callback_response,
            final(self).authorized_deliverer == old(self).authorized_deliverer,
            r.request_id == final(self).current_request_id,
            r.data_key@ == "quotation"@,
            r.data_item == data_item,
            r.callback@ == "callback"@,
    {
        self.current_request_id = self.current_request_id + 1;
        DiaGatewayRequestArgs {
            request_id: self.current_request_id,
            data_key: "quotation".to_owned(),
            data_item,
            callback: "callback".to_owned(),
        }
    }

    /// A copy of the latest delivery.
    pub fn get_callback_response(&self) -> (r: Response)
        ensures
            r == self.last_callback_response,
    {
        copy_response(&self.last_callback_response)
    }

    /// Empties the payload of the latest delivery, keeping its request id
    /// and error text.
    pub fn clear_callback_response(&mut self)
        ensures
            final(self).last_callback_response.data == ResponseData::NoData,
            final(self).last_callback_response.request_id == old(
                self,
            ).last_callback_response.request_id,
            final(self).last_callback_response.err == old(self).last_callback_response.err,
            final(self).current_request_id == old(self).current_request_id,
            final(self).authorized_deliverer == old(self).authorized_deliverer,
    {
        self.last_callback_response.data = ResponseData::NoData;
    }

    /// Accepts a delivery from `caller`: from the configured deliverer it
    /// becomes the latest response, error text included; from anyone else it
    /// is refused and nothing changes.
    pub fn callback(&mut self, caller: &String, request_id: u128, err: String, data: ResponseData) -> (r:
        Result<(), CallbackError>)
        ensures
            caller@ != old(self).authorized_deliverer@ ==> r == Err::<(), CallbackError>(
                CallbackError::UnauthorizedCallback,
            ) && *final(self) == *old(self),
            caller@ == old(self).authorized_deliverer@ ==> r == Ok::<(), CallbackError>(())
                && final(self).last_callback_response == (Response { request_id, err, data })
                && final(self).current_request_id == old(self).current_request_id
                && final(self).authorized_deliverer == old(self).authorized_deliverer,
    {
        if *caller != self.authorized_deliverer {
            return Err(CallbackError::UnauthorizedCallback);
        }
        self.last_callback_response = Response { request_id, err, data };
        Ok(())
    }
}

} // verus!
