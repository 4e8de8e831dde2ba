//! The JSON-RPC method each typed helper issues, named once.
use vstd::prelude::*;

verus! {

pub const CHAIN_ID: &'static str = "eth_chainId";

pub const BLOCK_NUMBER: &'static str = "eth_blockNumber";

pub const GET_BALANCE: &'static str = "eth_getBalance";

pub const CALL: &'static str = "eth_call";

pub const GET_TRANSACTION_COUNT: &'static str = "eth_getTransactionCount";

pub const GAS_PRICE: &'static str = "eth_gasPrice";

pub const FEE_HISTORY: &'static str = "eth_feeHistory";

pub const ESTIMATE_GAS: &'static str = "eth_estimateGas";

pub const SEND_RAW_TRANSACTION: &'static str = "eth_sendRawTransaction";

pub const GET_TRANSACTION_RECEIPT: &'static str = "eth_getTransactionReceipt";

pub const GET_TRANSACTION_BY_HASH: &'static str = "eth_getTransactionByHash";

} // verus!
