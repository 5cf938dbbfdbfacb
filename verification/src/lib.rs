//! A minimal stateful contract: one text field, three entry points.
//!
//! The contract holds a single `description` string. `init` creates the
//! state from a length-prefixed text parameter, `set_greeting` replaces the
//! text when the caller is an externally-owned account, and `view` returns a
//! copy of the state. Parameters arrive as raw bytes in the wire format of
//! `codec`; malformed bytes are rejected before any state is touched.

use vstd::prelude::*;

pub mod codec;

verus! {

use crate::codec::{decode_text, decoded_text, ParseError};

/// An externally-owned account: a key-holder-controlled address.
#[derive(Clone, Copy, Debug, PartialEq, Eq)]
pub struct AccountAddress(pub [u8; 32]);

/// An on-chain contract instance address.
#[derive(Clone, Copy, Debug, PartialEq, Eq)]
pub struct ContractAddress {
    pub index: u64,
    pub subindex: u64,
}

/// The identity of the caller of an entry point, supplied by the execution
/// context per call: either an externally-owned account or another contract.
#[derive(Clone, Copy, Debug, PartialEq, Eq)]
pub enum Address {
    Account(AccountAddress),
    Contract(ContractAddress),
}

/// The closed set of failures an entry point can report.
#[derive(Clone, Copy, Debug, PartialEq, Eq, Structural)]
pub enum ContractError {
    /// The parameter bytes were malformed, truncated or carried trailing data.
    ParseParamsError,
    /// A contract instance, not an account, tried to mutate the state.
    ContractSetter,
}

impl From<ParseError> for ContractError {
    /// Every decode failure surfaces to the caller as `ParseParamsError`.
    fn from(_e: ParseError) -> (r: ContractError) {
        ContractError::ParseParamsError
    }
}

impl vstd::std_specs::convert::FromSpecImpl<ParseError> for ContractError {
    open spec fn obeys_from_spec() -> bool {
        true
    }

    open spec fn from_spec(e: ParseError) -> ContractError {
        ContractError::ParseParamsError
    }
}

/// The transient input of the initialize call: the initial description.
/// Its wire form is exactly the wire form of its one text field.
pub struct InitParameter {
    pub description: String,
}

/// Decode the init parameter from its wire form.
pub fn decode_init_parameter(param: &Vec<u8>) -> (r: Result<InitParameter, ParseError>)
    ensures
        match r {
            Ok(p) => decoded_text(param@) == Some(p.description@),
            Err(_) => decoded_text(param@) is None,
        },
{
    match decode_text(param) {
        Ok(description) => Ok(InitParameter { description }),
        Err(e) => Err(e),
    }
}

/// The contract state: exactly one mutable text field.
pub struct State {
    pub description: String,
}

impl State {
    /// Read the stored text: a value copy of the whole state, no side effect.
    pub fn read(&self) -> (r: State)
        ensures
            r == *self,
    {
        State { description: self.description.clone() }
    }

    /// Replace the stored text in place; this is the only mutation the
    /// contract ever performs.
    pub fn write(&mut self, new_description: String)
        ensures
            *final(self) == (State { description: new_description }),
    {
        self.description = new_description;
    }
}

/// The access rule of the mutating entry point: externally-owned accounts
/// may mutate, contract instances may not.
pub open spec fn sender_allowed(sender: Address) -> bool {
    sender is Account
}

/// Access control gate: decide whether the caller may mutate the state.
/// Pure; rejects exactly the contract-instance callers, with `ContractSetter`.
pub fn check_access(sender: &Address) -> (r: Result<(), ContractError>)
    ensures
        match r {
            Ok(_) => sender_allowed(*sender),
            Err(e) => !sender_allowed(*sender) && e == ContractError::ContractSetter,
        },
{
    match sender {
        Address::Account(_) => Ok(()),
        Address::Contract(_) => Err(ContractError::ContractSetter),
    }
}

/// Initialize entry point: decode the init parameter and create the state
/// from its `description`, with no access check. On malformed bytes no state
/// comes into existence and the call reports `ParseParamsError`.
pub fn init(param: &Vec<u8>) -> (r: Result<State, ContractError>)
    ensures
        match r {
            Ok(state) => decoded_text(param@) == Some(state.description@),
            Err(e) => decoded_text(param@) is None && e == ContractError::ParseParamsError,
        },
{
    match decode_init_parameter(param) {
        Ok(p) => Ok(State { description: p.description }),
        Err(e) => Err(ContractError::from(e)),
    }
}

/// Mutate entry point: replace the stored text with the decoded parameter.
/// Validation comes strictly before mutation, so a rejected call leaves the
/// state exactly as it was. Succeeds if and only if the caller is an account
/// and the parameter decodes.
pub fn set_greeting(sender: &Address, param: &Vec<u8>, state: &mut State) -> (r: Result<
    (),
    ContractError,
>)
    ensures
        match r {
            Ok(_) => {
                &&& sender_allowed(*sender)
                &&& decoded_text(param@) == Some(final(state).description@)
            },
            Err(e) => {
                &&& *final(state) == *old(state)
                &&& match e {
                    ContractError::ContractSetter => !sender_allowed(*sender),
                    ContractError::ParseParamsError => sender_allowed(*sender) && decoded_text(
                        param@,
                    ) is None,
                }
            },
        },
{
    match check_access(sender) {
        Ok(_) => {},
        Err(e) => {
            return Err(e);
        },
    }
    let greeting = match decode_text(param) {
        Ok(g) => g,
        Err(e) => {
            return Err(ContractError::from(e));
        },
    };
    state.write(greeting);
    Ok(())
}

/// View entry point: return a value copy of the current state. Any caller
/// may read; nothing changes, and two reads with no mutation in between
/// return the same value.
pub fn view(state: &State) -> (r: State)
    ensures
        r == *state,
{
    state.read()
}

} // verus!
