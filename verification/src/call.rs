//! Calls into other contracts, and the creation of contracts.

use vstd::prelude::*;
use crate::types::{Address, EtherValue};
use crate::width::{host_size, to_host_size};

verus! {

/// The four ways of calling into another contract.
#[derive(Debug, Clone, Copy, PartialEq, Eq)]
pub enum CallKind {
    /// A standard call.
    Call,
    /// Runs the code of another account in the context of the caller.
    CallCode,
    /// Like `CallCode`, keeping the sender and value of the executing call.
    CallDelegate,
    /// A call that cannot change state.
    CallStatic,
}

/// One call into another contract, as it is handed to the host beside its
/// data payload.
#[derive(Debug, Clone, Copy, PartialEq, Eq)]
pub struct CallRequest {
    /// The way of calling.
    pub kind: CallKind,
    /// The gas the call may use.
    pub gas_limit: u64,
    /// The account that is called.
    pub address: Address,
    /// The ether sent along, for the kinds of call that can send any.
    pub value: Option<EtherValue>,
    /// The length of the data payload as the host receives it.
    pub data_length: u32,
}

impl CallRequest {
    /// A value is sent along exactly with the kinds of call that can
    /// transfer one: the standard call and the code call.
    pub open spec fn well_formed(self) -> bool {
        self.value is Some <==> (self.kind is Call || self.kind is CallCode)
    }
}

/// The creation of a contract, as it is handed to the host beside the
/// initialisation code.
#[derive(Debug, Clone, Copy, PartialEq, Eq)]
pub struct CreateRequest {
    /// The ether sent to the new contract.
    pub value: EtherValue,
    /// The length of the initialisation code as the host receives it.
    pub data_length: u32,
}

/// Lays out a standard call to `address` with the given gas limit, ether
/// value and data.
pub fn call_mutable(gas_limit: u64, address: &Address, value: &EtherValue, data: &[u8]) -> (request:
    CallRequest)
    ensures
        request == (CallRequest {
            kind: CallKind::Call,
            gas_limit,
            address: *address,
            value: Some(*value),
            data_length: host_size(data.len()),
        }),
        request.well_formed(),
        request.data_length <= data.len(),
{
    CallRequest {
        kind: CallKind::Call,
        gas_limit,
        address: *address,
        value: Some(*value),
        data_length: to_host_size(data.len()),
    }
}

/// Lays out a call that runs the code at `address` in the context of the
/// caller.
pub fn call_code(gas_limit: u64, address: &Address, value: &EtherValue, data: &[u8]) -> (request:
    CallRequest)
    ensures
        request == (CallRequest {
            kind: CallKind::CallCode,
            gas_limit,
            address: *address,
            value: Some(*value),
            data_length: host_size(data.len()),
        }),
        request.well_formed(),
        request.data_length <= data.len(),
{
    CallRequest {
        kind: CallKind::CallCode,
        gas_limit,
        address: *address,
        value: Some(*value),
        data_length: to_host_size(data.len()),
    }
}

/// Lays out a call like `call_code` that keeps the sender and value of the
/// executing call.  It sends no value of its own.
pub fn call_delegate(gas_limit: u64, address: &Address, data: &[u8]) -> (request: CallRequest)
    ensures
        request == (CallRequest {
            kind: CallKind::CallDelegate,
            gas_limit,
            address: *address,
            value: None,
            data_length: host_size(data.len()),
        }),
        request.well_formed(),
        request.data_length <= data.len(),
{
    CallRequest {
        kind: CallKind::CallDelegate,
        gas_limit,
        address: *address,
        value: None,
        data_length: to_host_size(data.len()),
    }
}

/// Lays out a static call, which cannot change state.  It sends no value.
pub fn call_static(gas_limit: u64, address: &Address, data: &[u8]) -> (request: CallRequest)
    ensures
        request == (CallRequest {
            kind: CallKind::CallStatic,
            gas_limit,
            address: *address,
            value: None,
            data_length: host_size(data.len()),
        }),
        request.well_formed(),
        request.data_length <= data.len(),
{
    CallRequest {
        kind: CallKind::CallStatic,
        gas_limit,
        address: *address,
        value: None,
        data_length: to_host_size(data.len()),
    }
}

/// Lays out the creation of a contract from the given initialisation code,
/// sending `value` to its address.
pub fn create(value: &EtherValue, data: &[u8]) -> (request: CreateRequest)
    ensures
        request == (CreateRequest { value: *value, data_length: host_size(data.len()) }),
        request.data_length <= data.len(),
{
    CreateRequest { value: *value, data_length: to_host_size(data.len()) }
}

} // verus!
