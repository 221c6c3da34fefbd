//! Producer-side helpers that keep the two readings of a message
//! consistent.
//!
//! A producer owns one long-lived message and refreshes it in place before
//! each publish: filling from a decimal truncates the integral from it, and
//! filling from an integral mirrors it into the decimal exactly.

use crate::decimal::{
    bits_is_exact_int, decimal_to_integral, integral_to_decimal, lemma_integral_mirror,
    spec_decimal_to_integral, spec_integral_to_decimal,
};
use crate::types::PubMessage;
use vstd::prelude::*;

verus! {

/// Refresh a message with a decimal reading (given as its 32-bit IEEE-754
/// bit pattern): the integral reading becomes its truncation toward zero,
/// saturated at the 16-bit bounds.
pub fn fill_message_decimal(decimal: u32, msg: PubMessage) -> (r: PubMessage)
    ensures
        r.pub_type == msg.pub_type,
        r.decimal == decimal,
        r.integral == spec_decimal_to_integral(decimal),
{
    PubMessage { pub_type: msg.pub_type, integral: decimal_to_integral(decimal), decimal }
}

/// Refresh a message with an integral reading: the decimal reading becomes
/// the bit pattern denoting exactly that integer, so truncating it back
/// gives the integral reading unchanged.
pub fn fill_message_integral(integral: i16, msg: PubMessage) -> (r: PubMessage)
    ensures
        r.pub_type == msg.pub_type,
        r.integral == integral,
        r.decimal == spec_integral_to_decimal(integral),
        spec_decimal_to_integral(r.decimal) == integral,
        bits_is_exact_int(r.decimal),
{
    let decimal = integral_to_decimal(integral);
    proof {
        lemma_integral_mirror(integral);
    }
    PubMessage { pub_type: msg.pub_type, integral, decimal }
}

} // verus!
