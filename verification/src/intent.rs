use vstd::prelude::*;

verus! {

use crate::address::Address;
use crate::address::decoded_address_bytes;
use crate::address::hex_body;
use crate::address::parse_address;
use crate::address::valid_address_text;
use crate::amount::amount_wei_value;
use crate::amount::parse_amount;
use crate::amount::valid_amount_text;
use crate::errors::TransferError;

/// What the caller wants sent: a syntactically valid recipient and a positive
/// amount of wei.
#[derive(Clone, Debug)]
pub struct TransferIntent {
    pub recipient: Address,
    pub amount: u128,
}

impl TransferIntent {
    /// Well-formedness: the recipient is a full address and the amount is
    /// positive.
    pub open spec fn wf(self) -> bool {
        self.recipient.wf() && self.amount > 0
    }

    /// Builds an intent from already-decoded parts.  Rejects a short or long
    /// recipient and a zero amount as configuration errors.
    pub fn new(recipient: Address, amount: u128) -> (r: Result<TransferIntent, TransferError>)
        ensures
            r is Ok <==> recipient.wf() && amount > 0,
            r matches Ok(t) ==> t.wf() && t.recipient.bytes@ == recipient.bytes@ && t.amount
                == amount,
            r matches Err(e) ==> e == TransferError::ConfigError,
    {
        if recipient.bytes.len() != 20 || amount == 0 {
            Err(TransferError::ConfigError)
        } else {
            Ok(TransferIntent { recipient, amount })
        }
    }

    /// Builds an intent from configuration text: a hexadecimal recipient
    /// address and a whole-unit decimal amount.  Fails with a configuration
    /// error, before any network interaction, exactly when either text is
    /// malformed, the amount does not fit the balance type, or it is zero.
    pub fn from_config(recipient_text: &Vec<u8>, amount_text: &Vec<u8>) -> (r: Result<
        TransferIntent,
        TransferError,
    >)
        ensures
            r is Ok <==> valid_address_text(recipient_text@) && valid_amount_text(amount_text@)
                && amount_wei_value(amount_text@) <= u128::MAX && amount_wei_value(amount_text@)
                > 0,
            r matches Ok(t) ==> t.wf() && t.recipient.bytes@ == decoded_address_bytes(
                hex_body(recipient_text@),
            ) && t.amount == amount_wei_value(amount_text@),
            r matches Err(e) ==> e == TransferError::ConfigError,
    {
        let recipient = match parse_address(recipient_text) {
            Ok(a) => a,
            Err(e) => {
                return Err(e);
            },
        };
        let amount = match parse_amount(amount_text) {
            Ok(v) => v,
            Err(e) => {
                return Err(e);
            },
        };
        if amount == 0 {
            return Err(TransferError::ConfigError);
        }
        Ok(TransferIntent { recipient, amount })
    }
}

} // verus!
