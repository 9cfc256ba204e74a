//! A requester of trade volumes: it asks the gateway for the volume traded
//! in a symbol and keeps the latest one delivered to it.

use vstd::prelude::*;
use crate::delivery::CallbackError;

verus! {

/// The gateway that requests go to.
pub const DIA_GATEWAY_ACCOUNT_ID: &'static str = "contract.dia-oracles.testnet";

/// The deliverer that a new contract accepts.
pub const SIGNER_DIA_ORACLES_ACCOUNT_ID: &'static str = "dia-oracles.testnet";

/// The arguments of a request to the gateway.
#[derive(Debug, PartialEq)]
pub struct DiaGatewayRequestArgs {
    pub request_id: u128,
    pub data_key: String,
    pub data_item: String,
    pub callback: String,
}

/// A trade volume, held as the bits of its `f64` value: the contract
/// stores it and never reads it.
pub type TradeVolumeData = u64;

/// The payload of a delivery.
#[derive(Debug, PartialEq)]
pub enum ResponseData {
    TradeVolume(TradeVolumeData),
    NoData,
}

/// A delivery: an error text (empty on success) and the payload.
#[derive(Debug, PartialEq)]
pub struct Response {
    pub err: String,
    pub data: ResponseData,
}

/// The requester's state.
pub struct TradeVolumeTestContract {
    /// The id of the latest request made.
    pub request_id: u128,
    /// The latest delivery accepted.
    pub last_callback_response: Response,
    /// The only account whose deliveries are accepted.
    pub authorized_deliverer: String,
}

fn copy_response(r: &Response) -> (c: Response)
    ensures
        c == *r,
{
    let data = match &r.data {
        ResponseData::TradeVolume(v) => ResponseData::TradeVolume(*v),
        ResponseData::NoData => ResponseData::NoData,
    };
    Response { err: r.err.clone(), data }
}

impl TradeVolumeTestContract {
    /// A contract that accepts deliveries from `SIGNER_DIA_ORACLES_ACCOUNT_ID`.
    pub fn new() -> (r: TradeVolumeTestContract)
        ensures
            r.request_id == 100,
            r.last_callback_response.err@.len() == 0,
            r.last_callback_response.data == ResponseData::NoData,
            r.authorized_deliverer@ == SIGNER_DIA_ORACLES_ACCOUNT_ID@,
    {
        TradeVolumeTestContract::with_deliverer(SIGNER_DIA_ORACLES_ACCOUNT_ID.to_owned())
    }

    /// A contract that accepts deliveries from `authorized_deliverer` only.
    pub fn with_deliverer(authorized_deliverer: String) -> (r: TradeVolumeTestContract)
        ensures
            r.request_id == 100,
            r.last_callback_response.err@.len() == 0,
            r.last_callback_response.data == ResponseData::NoData,
            r.authorized_deliverer == authorized_deliverer,
    {
        TradeVolumeTestContract {
            request_id: 100,
            last_callback_response: Response {
                err: String::new(),
                data: ResponseData::NoData,
            },
            authorized_deliverer,
        }
    }

    /// Sets the id of the latest request.
    pub fn set_id(&mut self, request_id: u128)
        ensures
            final(self).request_id == request_id,
            final(self).last_callback_response == old(self).last_callback_response,
            final(self).authorized_deliverer == old(self).authorized_deliverer,
    {
        self.request_id = request_id;
    }

    /// The id of the latest request.
    pub fn get_id(&self) -> (r: u128)
        ensures
            r == self.request_id,
    {
        self.request_id
    }

    /// Takes the next request id and returns the arguments of a trade volume
    /// request for `data_item` under that id.
    pub fn make_request(&mut self, data_item: String) -> (r: DiaGatewayRequestArgs)
        requires
            old(self).request_id < u128::MAX,
        ensures
            final(self).request_id == old(self).request_id + 1,
            final(self).last_callback_response == old(self).last_callback_response,
            final(self).authorized_deliverer == old(self).authorized_deliverer,
            r.request_id == final(self).request_id,
            r.data_key@ == "volume"@,
            r.data_item == data_item,
            r.callback@ == "callback"@,
    {
        self.request_id = self.request_id + 1;
        DiaGatewayRequestArgs {
            request_id: self.request_id,
            data_key: "volume".to_owned(),
            data_item,
            callback: "callback".to_owned(),
        }
    }

    /// A copy of the latest delivery.
    pub fn get_callback_response(&self) -> (r: Response)
        ensures
            r == self.last_callback_response,
    {
        copy_response(&self.last_callback_response)
    }

    /// Empties the payload of the latest delivery, keeping its error text.
    pub fn clear_callback_response(&mut self)
        ensures
            final(self).last_callback_response.data == ResponseData::NoData,
            final(self).last_callback_response.err == old(self).last_callback_response.err,
            final(self).request_id == old(self).request_id,
            final(self).authorized_deliverer == old(self).authorized_deliverer,
    {
        self.last_callback_response.data = ResponseData::NoData;
    }

    /// Accepts a delivery from `caller`: from the configured deliverer it
    /// becomes the latest response, error text included; from anyone else it
    /// is refused and nothing changes.
    pub fn callback(&mut self, caller: &String, err: String, data: ResponseData) -> (r:
        Result<(), CallbackError>)
        ensures
            caller@ != old(self).authorized_deliverer@ ==> r == Err::<(), CallbackError>(
                CallbackError::UnauthorizedCallback,
            ) && *final(self) == *old(self),
            caller@ == old(self).authorized_deliverer@ ==> r == Ok::<(), CallbackError>(())
                && final(self).last_callback_response == (Response { err, data })
                && final(self).request_id == old(self).request_id
                && final(self).authorized_deliverer == old(self).authorized_deliverer,
    {
        if *caller != self.authorized_deliverer {
            return Err(CallbackError::UnauthorizedCallback);
        }
        self.last_callback_response = Response { err, data };
        Ok(())
    }
}

} // verus!
