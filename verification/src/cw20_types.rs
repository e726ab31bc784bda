//! What a legacy token contract hands over when a holder sends tokens to a
//! redeeming contract.

use vstd::prelude::*;

verus! {

/// Delivered by the legacy token contract on a send: who sent, how much,
/// and an opaque payload.
#[derive(Debug)]
pub struct Cw20ReceiveMsg {
    pub sender: String,
    pub amount: u128,
    pub msg: Vec<u8>,
}

} // verus!
