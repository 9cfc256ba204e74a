//! A requester of symbol lists: it asks the gateway for the symbols of an
//! exchange and keeps the latest list delivered to it.

use vstd::prelude::*;
use crate::delivery::CallbackError;

verus! {

/// The gateway that requests go to.
pub const DIA_GATEWAY_ACCOUNT_ID: &'static str = "contract.dia.oracles.testnet";

/// The deliverer that a new contract accepts.
pub const SIGNER_DIA_ORACLES_ACCOUNT_ID: &'static str = "dia.oracles.testnet";

/// The arguments of a request to the gateway.
#[derive(Debug, PartialEq)]
pub struct DiaGatewayRequestArgs {
    pub request_id: u128,
    pub data_key: String,
    pub data_item: String,
    pub callback: String,
}

/// A list of symbols.
#[derive(Debug, PartialEq)]
pub struct SymbolsData {
    pub symbols: Vec<String>,
}

/// The payload of a delivery.
#[derive(Debug, PartialEq)]
pub enum ResponseData {
    Symbols(SymbolsData),
    NoData,
}

/// A delivery: the request it answers, an error text (empty on success),
/// and the payload.
#[derive(Debug, PartialEq)]
pub struct Response {
    pub request_id: u128,
    pub err: String,
    pub data: ResponseData,
}

/// The requester's state.
pub struct SymbolsTestContract {
    /// The id of the latest request made.
    pub request_id: u128,
    /// The latest delivery accepted.
    pub last_callback_response: Response,
    /// The only account whose deliveries are accepted.
    pub authorized_deliverer: String,
}

/// The symbols that a payload carries, if any.
pub open spec fn symbols_of(d: ResponseData) -> Option<Seq<String>> {
    match d {
        ResponseData::Symbols(s) => Some(s.symbols@),
        ResponseData::NoData => None,
    }
}

fn copy_symbols(d: &SymbolsData) -> (c: SymbolsData)
    ensures
        c.symbols@ == d.symbols@,
{
    let mut symbols: Vec<String> = Vec::new();
    let mut i: usize = 0;
    while i < d.symbols.len()
        invariant
            i <= d.symbols@.len(),
            symbols@ == d.symbols@.subrange(0, i as int),
        decreases d.symbols@.len() - i,
    {
        symbols.push(d.symbols[i].clone());
        i = i + 1;
    }
    assert(symbols@ =~= d.symbols@);
    SymbolsData { symbols }
}

fn copy_response(r: &Response) -> (c: Response)
    ensures
        c.request_id == r.request_id,
        c.err == r.err,
        symbols_of(c.data) == symbols_of(r.data),
{
    let data = match &r.data {
        ResponseData::Symbols(d) => ResponseData::Symbols(copy_symbols(d)),
        ResponseData::NoData => ResponseData::NoData,
    };
    Response { request_id: r.request_id, err: r.err.clone(), data }
}

impl SymbolsTestContract {
    /// A contract that accepts deliveries from `SIGNER_DIA_ORACLES_ACCOUNT_ID`.
    pub fn new() -> (r: SymbolsTestContract)
        ensures
            r.request_id == 100,
            r.last_callback_response.request_id == 0,
            r.last_callback_response.err@.len() == 0,
            r.last_callback_response.data == ResponseData::NoData,
            r.authorized_deliverer@ == SIGNER_DIA_ORACLES_ACCOUNT_ID@,
    {
        SymbolsTestContract::with_deliverer(SIGNER_DIA_ORACLES_ACCOUNT_ID.to_owned())
    }

    /// A contract that accepts deliveries from `authorized_deliverer` only.
    pub fn with_deliverer(authorized_deliverer: String) -> (r: SymbolsTestContract)
        ensures
            r.request_id == 100,
            r.last_callback_response.request_id == 0,
            r.last_callback_response.err@.len() == 0,
            r.last_callback_response.data == ResponseData::NoData,
            r.authorized_deliverer == authorized_deliverer,
    {
        SymbolsTestContract {
            request_id: 100,
            last_callback_response: Response {
                request_id: 0,
                err: String::new(),
                data: ResponseData::NoData,
            },
            authorized_deliverer,
        }
    }

    /// Sets the id of the latest request.
    pub fn set_id(&mut self, request_id: u128)
        ensures
            final(self).request_id == request_id,
            final(self).last_callback_response == old(self).last_callback_response,
            final(self).authorized_deliverer == old(self).authorized_deliverer,
    {
        self.request_id = request_id;
    }

    /// The id of the latest request.
    pub fn get_id(&self) -> (r: u128)
        ensures
            r == self.request_id,
    {
        self.request_id
    }

    /// Takes the next request id and returns the arguments of a symbols
    /// request for `data_item` under that id.
    pub fn make_request(&mut self, data_item: String) -> (r: DiaGatewayRequestArgs)
        requires
            old(self).request_id < u128::MAX,
        ensures
            final(self).request_id == old(self).request_id + 1,
            final(self).last_callback_response == old(self).last_callback_response,
            final(self).authorized_deliverer == old(self).authorized_deliverer,
            r.request_id == final(self).request_id,
            r.data_key@ == "symbols"@,
            r.data_item == data_item,
            r.callback@ == "callback"@,
    {
        self.request_id = self.request_id + 1;
        DiaGatewayRequestArgs {
            request_id: self.request_id,
            data_key: "symbols".to_owned(),
            data_item,
            callback: "callback".to_owned(),
        }
    }

    /// A copy of the latest delivery.
    pub fn get_callback_response(&self) -> (r: Response)
        ensures
            r.request_id == self.last_callback_response.request_id,
            r.err == self.last_callback_response.err,
            symbols_of(r.data) == symbols_of(self.last_callback_response.data),
    {
        copy_response(&self.last_callback_response)
    }

    /// Empties the payload of the latest delivery, keeping its request id
    /// and error text.
    pub fn clear_callback_response(&mut self)
        ensures
            final(self).last_callback_response.data == ResponseData::NoData,
            final(self).last_callback_response.request_id == old(
                self,
            ).last_callback_response.request_id,
            final(self).last_callback_response.err == old(self).last_callback_response.err,
            final(self).request_id == old(self).request_id,
            final(self).authorized_deliverer == old(self).authorized_deliverer,
    {
        self.last_callback_response.data = ResponseData::NoData;
    }

    /// Accepts a delivery from `caller`: from the configured deliverer it
    /// becomes the latest response, error text included; from anyone else it
    /// is refused and nothing changes.
    pub fn callback(&mut self, caller: &String, request_id: u128, err: String, data: ResponseData) -> (r:
        Result<(), CallbackError>)
        ensures
            caller@ != old(self).authorized_deliverer@ ==> r == Err::<(), CallbackError>(
                CallbackError::UnauthorizedCallback,
            ) && *final(self) == *old(self),
            caller@ == old(self).authorized_deliverer@ ==> r == Ok::<(), CallbackError>(())
                && final(self).last_callback_response == (Response { request_id, err, data })
                && final(self).request_id == old(self).request_id
                && final(self).authorized_deliverer == old(self).authorized_deliverer,
    {
        if *caller != self.authorized_deliverer {
            return Err(CallbackError::UnauthorizedCallback);
        }
        self.last_callback_response = Response { request_id, err, data };
        Ok(())
    }
}

} // verus!
