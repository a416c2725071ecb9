//! Sending a transaction and reading a receipt. The network work (gas
//! estimate, signing through the node library, broadcast, receipt fetch) is
//! performed outside the library; here stands the decision logic: composing
//! the parameters, the step-by-step send state machine, and the
//! interpretation of what the node returned.

use vstd::prelude::*;
use vstd::string::{StrSliceExecFns, StringExecFns};
use crate::address::{addr_bytes_of_hex, addr_hex_wellformed, parse_address, Address};
use crate::hexcodec::{hex_decode, hex_encode, hex_decode_seq, hex_encode_seq, is_hex_digit};
use crate::keys::{
    hex_to_secret_key, is_valid_scalar, key_bytes_of_hex, key_hex_wellformed, strip_hex_prefix,
    PrivateKey,
};
use crate::WalletError;

verus! {

/// The gas cap used for the estimate request.
pub const DEFAULT_GAS_LIMIT: u64 = 21000;

/// The fixed gas price, in wei (one gwei).
pub const DEFAULT_GAS_PRICE_WEI: u64 = 1000000000;

/// A 32-byte transaction hash.
#[derive(Debug)]
pub struct TxHash {
    bytes: Vec<u8>,
}

impl View for TxHash {
    type V = Seq<u8>;

    closed spec fn view(&self) -> Seq<u8> {
        self.bytes@
    }
}

impl TxHash {
    pub open spec fn wf(&self) -> bool {
        self@.len() == 32
    }

    /// Wrap 32 raw hash bytes as returned by the node.
    pub fn from_bytes(bytes: Vec<u8>) -> (r: Result<TxHash, WalletError>)
        ensures
            r is Ok <==> bytes@.len() == 32,
            r matches Ok(h) ==> h@ == bytes@ && h.wf(),
            r matches Err(e) ==> e == WalletError::InvalidHashFormat,
    {
        if bytes.len() == 32 {
            Ok(TxHash { bytes })
        } else {
            Err(WalletError::InvalidHashFormat)
        }
    }

    pub fn as_bytes(&self) -> (r: &Vec<u8>)
        ensures
            r@ == self@,
    {
        &self.bytes
    }

    /// The hash as "0x" followed by 64 lowercase hex digits.
    pub fn to_hex_string(&self) -> (r: String)
        ensures
            r@ == seq!['0', 'x'] + hex_encode_seq(self@),
    {
        proof {
            reveal_strlit("0x");
        }
        let mut s = String::from_str("0x");
        let digits = hex_encode(self.bytes.as_slice());
        s.append(digits.as_str());
        proof {
            assert("0x"@ =~= seq!['0', 'x']);
        }
        s
    }
}

/// A well-formed transaction-hash string: after stripping an optional "0x",
/// exactly 64 hex digits.
pub open spec fn hash_hex_wellformed(s: Seq<char>) -> bool {
    let t = strip_hex_prefix(s);
    t.len() == 64 && (forall|i: int| 0 <= i < t.len() ==> is_hex_digit(t[i]))
}

/// The bytes a well-formed transaction-hash string denotes.
pub open spec fn hash_bytes_of_hex(s: Seq<char>) -> Seq<u8> {
    hex_decode_seq(strip_hex_prefix(s))
}

/// Parse a transaction hash: an optional "0x" prefix, then exactly 64 hex
/// digits. Anything else is InvalidHashFormat.
pub fn parse_transaction_hash(s: &str) -> (r: Result<TxHash, WalletError>)
    ensures
        r is Ok <==> hash_hex_wellformed(s@),
        r matches Ok(h) ==> h@ == hash_bytes_of_hex(s@) && h.wf(),
        r matches Err(e) ==> e == WalletError::InvalidHashFormat,
{
    let n = s.unicode_len();
    let has_prefix = n >= 2 && s.get_char(0) == '0' && s.get_char(1) == 'x';
    let stripped: &str = if has_prefix {
        s.substring_char(2, n)
    } else {
        s
    };
    assert(stripped@ == strip_hex_prefix(s@));
    match hex_decode(stripped) {
        Err(_) => Err(WalletError::InvalidHashFormat),
        Ok(bytes) => {
            if bytes.len() != 32 {
                return Err(WalletError::InvalidHashFormat);
            }
            Ok(TxHash { bytes })
        },
    }
}

/// A receipt lookup key: either an already-typed hash, passed through
/// unchanged, or a text form that must be validated and decoded.
#[derive(Debug)]
pub enum HashInput {
    Typed(TxHash),
    Text(String),
}

/// Resolve a lookup key to a typed hash: a typed value passes through
/// unchanged; a text value is parsed as a hash string.
pub fn into_transaction_hash(input: HashInput) -> (r: Result<TxHash, WalletError>)
    ensures
        input matches HashInput::Typed(h) ==> (r matches Ok(o) && o == h),
        input matches HashInput::Text(s) ==> {
            &&& r is Ok <==> hash_hex_wellformed(s@)
            &&& (r matches Ok(h) ==> h@ == hash_bytes_of_hex(s@) && h.wf())
            &&& (r matches Err(e) ==> e == WalletError::InvalidHashFormat)
        },
{
    match input {
        HashInput::Typed(h) => Ok(h),
        HashInput::Text(s) => parse_transaction_hash(s.as_str()),
    }
}

/// What a mined receipt's status flag says.
#[derive(Clone, Copy, Debug, PartialEq, Eq, Structural)]
pub enum ReceiptStatus {
    Success,
    Failed,
    Unknown,
}

impl ReceiptStatus {
    /// The label printed for this status.
    pub fn label(&self) -> (r: &'static str)
        ensures
            r@ == match *self {
                ReceiptStatus::Success => "Success"@,
                ReceiptStatus::Failed => "Failed"@,
                ReceiptStatus::Unknown => "Unknown"@,
            },
    {
        match *self {
            ReceiptStatus::Success => "Success",
            ReceiptStatus::Failed => "Failed",
            ReceiptStatus::Unknown => "Unknown",
        }
    }
}

/// The terminal outcome of a receipt lookup: a mined transaction with its
/// status, or no receipt yet, which is a normal state and not an error.
#[derive(Clone, Copy, Debug, PartialEq, Eq, Structural)]
pub enum ReceiptOutcome {
    Mined(ReceiptStatus),
    Pending,
}

/// A status flag of 1 is success, any other value is failure, and a missing
/// flag (an older node) is unknown.
pub open spec fn spec_receipt_status(status_flag: Option<u64>) -> ReceiptStatus {
    match status_flag {
        Some(f) => if f == 1 {
            ReceiptStatus::Success
        } else {
            ReceiptStatus::Failed
        },
        None => ReceiptStatus::Unknown,
    }
}

pub fn interpret_receipt_status(status_flag: Option<u64>) -> (r: ReceiptStatus)
    ensures
        r == spec_receipt_status(status_flag),
{
    match status_flag {
        Some(f) => if f == 1 {
            ReceiptStatus::Success
        } else {
            ReceiptStatus::Failed
        },
        None => ReceiptStatus::Unknown,
    }
}

/// What a receipt fetch means: a transport fault is an RpcError; a node
/// answer of "no receipt" is the Pending outcome, not an error; a receipt is
/// Mined with its interpreted status flag.
pub open spec fn spec_receipt_outcome(
    fetched: Result<Option<Option<u64>>, ()>,
) -> Result<ReceiptOutcome, WalletError> {
    match fetched {
        Err(_) => Err(WalletError::RpcError),
        Ok(None) => Ok(ReceiptOutcome::Pending),
        Ok(Some(flag)) => Ok(ReceiptOutcome::Mined(spec_receipt_status(flag))),
    }
}

/// Interpret a receipt fetch. The argument is what the node call produced:
/// Err for a transport or node fault, Ok(None) when no receipt exists yet,
/// and Ok(Some(flag)) for a receipt carrying its optional status flag.
pub fn receipt_outcome(fetched: Result<Option<Option<u64>>, ()>) -> (r: Result<
    ReceiptOutcome,
    WalletError,
>)
    ensures
        r == spec_receipt_outcome(fetched),
{
    match fetched {
        Err(_) => Err(WalletError::RpcError),
        Ok(None) => Ok(ReceiptOutcome::Pending),
        Ok(Some(flag)) => Ok(ReceiptOutcome::Mined(interpret_receipt_status(flag))),
    }
}

/// The parameters of the transaction being composed.
#[derive(Debug)]
pub struct TxParams {
    pub to: Address,
    pub value_wei: u64,
    pub gas: u64,
    pub gas_price_wei: u64,
}

impl TxParams {
    pub open spec fn wf(&self) -> bool {
        self.to.wf()
    }
}

/// Where a send stands. Each network step is performed outside the library,
/// which then reports its outcome as a SendEvent.
#[derive(Debug)]
pub enum SendState {
    /// The key and recipient are validated; the gas estimate is out.
    EstimatingGas { key: PrivateKey, params: TxParams },
    /// Gas is known and the estimated fee computed; sign with the key.
    Signing { key: PrivateKey, params: TxParams, fee_wei: u128 },
    /// The transaction is signed; broadcast the raw bytes.
    Broadcasting { params: TxParams },
    /// Broadcast succeeded; one receipt poll is out.
    AwaitingReceipt { tx_hash: TxHash },
    /// The send is complete, with the one-shot receipt outcome.
    Completed { tx_hash: TxHash, outcome: ReceiptOutcome },
    /// A step failed; nothing further happens.
    Failed { error: WalletError },
}

/// The outcome of the network step the current state asked for.
#[derive(Debug)]
pub enum SendEvent {
    /// The node's gas estimate, or a refusal or transport fault.
    GasEstimated(Result<u64, ()>),
    /// Whether signing produced raw transaction bytes.
    Signed(Result<(), ()>),
    /// The hash the node returned for the broadcast raw bytes.
    Broadcasted(Result<TxHash, ()>),
    /// The receipt poll: fault, no receipt yet, or a receipt's status flag.
    ReceiptFetched(Result<Option<Option<u64>>, ()>),
}

/// Begin a send: decode the sender's key, validate the recipient, and
/// compose the estimate request with the default gas cap and the fixed gas
/// price.
pub fn send_begin(from_private_key: &str, to_address: &str, value_wei: u64) -> (s: SendState)
    ensures
        s is EstimatingGas <==> (key_hex_wellformed(from_private_key@)
            && is_valid_scalar(key_bytes_of_hex(from_private_key@))
            && addr_hex_wellformed(to_address@)),
        s matches SendState::EstimatingGas { key, params } ==> {
            &&& key@ == key_bytes_of_hex(from_private_key@)
            &&& key.wf()
            &&& params.to@ == addr_bytes_of_hex(to_address@)
            &&& params.wf()
            &&& params.value_wei == value_wei
            &&& params.gas == DEFAULT_GAS_LIMIT
            &&& params.gas_price_wei == DEFAULT_GAS_PRICE_WEI
        },
        s matches SendState::Failed { error } ==> error == (
            if !key_hex_wellformed(from_private_key@) {
                WalletError::InvalidKeyFormat
            } else if !is_valid_scalar(key_bytes_of_hex(from_private_key@)) {
                WalletError::InvalidSecretKey
            } else {
                WalletError::InvalidAddressFormat
            }),
        s is EstimatingGas || s is Failed,
{
    let key = match hex_to_secret_key(from_private_key) {
        Ok(k) => k,
        Err(e) => {
            return SendState::Failed { error: e };
        },
    };
    let to = match parse_address(to_address) {
        Ok(a) => a,
        Err(e) => {
            return SendState::Failed { error: e };
        },
    };
    SendState::EstimatingGas {
        key,
        params: TxParams {
            to,
            value_wei,
            gas: DEFAULT_GAS_LIMIT,
            gas_price_wei: DEFAULT_GAS_PRICE_WEI,
        },
    }
}

/// The transition relation of the send machine. A gas estimate fixes the
/// transaction's gas and prices the fee; each later step either advances or
/// fails with the step's error; an event that does not belong to the current
/// state leaves it unchanged.
pub open spec fn spec_send_step(state: SendState, event: SendEvent) -> SendState {
    match (state, event) {
        (SendState::EstimatingGas { key, params }, SendEvent::GasEstimated(res)) => match res {
            Ok(gas) => SendState::Signing {
                key,
                params: TxParams { gas, ..params },
                fee_wei: ((gas as int) * (params.gas_price_wei as int)) as u128,
            },
            Err(_) => SendState::Failed { error: WalletError::RpcError },
        },
        (SendState::Signing { key: _, params, fee_wei: _ }, SendEvent::Signed(res)) => match res {
            Ok(_) => SendState::Broadcasting { params },
            Err(_) => SendState::Failed { error: WalletError::SigningError },
        },
        (SendState::Broadcasting { params: _ }, SendEvent::Broadcasted(res)) => match res {
            Ok(tx_hash) => SendState::AwaitingReceipt { tx_hash },
            Err(_) => SendState::Failed { error: WalletError::BroadcastError },
        },
        (SendState::AwaitingReceipt { tx_hash }, SendEvent::ReceiptFetched(res)) => match
            spec_receipt_outcome(res) {
            Ok(outcome) => SendState::Completed { tx_hash, outcome },
            Err(e) => SendState::Failed { error: e },
        },
        (s, _) => s,
    }
}

/// Advance the send machine by the outcome of the step it asked for.
pub fn send_step(state: SendState, event: SendEvent) -> (next: SendState)
    ensures
        next == spec_send_step(state, event),
{
    match (state, event) {
        (SendState::EstimatingGas { key, params }, SendEvent::GasEstimated(res)) => match res {
            Ok(gas) => {
                proof {
                    let g = gas as int;
                    let p = params.gas_price_wei as int;
                    assert(g * p <= 0xFFFFFFFFFFFFFFFFu128 as int * 0xFFFFFFFFFFFFFFFFu128 as int)
                        by (nonlinear_arith)
                        requires
                            0 <= g <= 0xFFFFFFFFFFFFFFFFu128 as int,
                            0 <= p <= 0xFFFFFFFFFFFFFFFFu128 as int,
                    ;
                }
                let fee_wei: u128 = (gas as u128) * (params.gas_price_wei as u128);
                SendState::Signing {
                    key,
                    params: TxParams {
                        to: params.to,
                        value_wei: params.value_wei,
                        gas,
                        gas_price_wei: params.gas_price_wei,
                    },
                    fee_wei,
                }
            },
            Err(_) => SendState::Failed { error: WalletError::RpcError },
        },
        (SendState::Signing { key: _, params, fee_wei: _ }, SendEvent::Signed(res)) => match res {
            Ok(_) => SendState::Broadcasting { params },
            Err(_) => SendState::Failed { error: WalletError::SigningError },
        },
        (SendState::Broadcasting { params: _ }, SendEvent::Broadcasted(res)) => match res {
            Ok(tx_hash) => SendState::AwaitingReceipt { tx_hash },
            Err(_) => SendState::Failed { error: WalletError::BroadcastError },
        },
        (SendState::AwaitingReceipt { tx_hash }, SendEvent::ReceiptFetched(res)) => {
            match receipt_outcome(res) {
                Ok(outcome) => SendState::Completed { tx_hash, outcome },
                Err(e) => SendState::Failed { error: e },
            }
        },
        (s, _) => s,
    }
}

} // verus!
