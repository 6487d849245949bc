use vstd::prelude::*;

use crate::error::ContractError;
use crate::ledger::{has_pair, records_of, FileTransfer, State, Withdrawal};
use crate::zk::{proof_accepted, Proof};
use vstd::utf8::encode_utf8;

verus! {

/// What the deployer hands over when the ledger is created.
pub struct InstantiateMsg {
    pub fee_percentage: u128,
}

/// The state-changing requests.
pub enum ExecuteMsg {
    RecordTransfer { file_hash: String, recipient: String, zk_proof: Vec<u8> },
    WithdrawFees { amount: u128 },
    SetFeePercentage { percentage: u128 },
}

/// The read-only requests.
pub enum QueryMsg {
    GetFileTransfers {},
    VerifyTransfer { file_hash: String, recipient: String },
    GetContractBalance {},
    GetFeePercentage {},
}

/// An amount of one denomination of coin attached to a request.
pub struct Coin {
    pub denom: String,
    pub amount: u128,
}

/// What a successful request asks the host to record or carry out.
pub enum Response {
    /// A transfer was recorded, with its fee.
    TransferRecorded { file_hash: String, recipient: String, transfer_fee: u128 },
    /// Fees are to be paid out.
    FeesWithdrawn(Withdrawal),
    /// The fee rate was changed.
    FeePercentageSet { percentage: u128 },
}

/// The answer to a query.
pub enum QueryResponse {
    FileTransfers(Vec<FileTransfer>),
    TransferExists(bool),
    ContractBalance(u128),
    FeePercentage(u128),
}

/// The denomination in which fees are charged and paid out.
pub open spec fn native_denom_spec() -> Seq<char> {
    seq!['u', 's', 'e', 'i']
}

/// The denomination in which fees are charged and paid out.
pub fn native_denom() -> (r: String)
    ensures
        r@ == native_denom_spec(),
{
    proof {
        reveal_strlit("usei");
    }
    "usei".to_owned()
}

/// The amount of the first coin from index `i` on whose denomination is `denom`,
/// or zero where there is none.
pub open spec fn amount_from(coins: Seq<Coin>, denom: Seq<char>, i: int) -> u128
    decreases coins.len() - i,
{
    if i < 0 || i >= coins.len() {
        0
    } else if coins[i].denom@ == denom {
        coins[i].amount
    } else {
        amount_from(coins, denom, i + 1)
    }
}

/// The amount of the first attached coin of denomination `denom`, or zero.
pub fn attached_amount(funds: &Vec<Coin>, denom: &String) -> (r: u128)
    ensures
        r == amount_from(funds@, denom@, 0),
{
    let n = funds.len();
    let mut i: usize = 0;
    while i < n
        invariant
            n == funds@.len(),
            0 <= i <= n,
            amount_from(funds@, denom@, 0) == amount_from(funds@, denom@, i as int),
        decreases n - i,
    {
        if funds[i].denom.eq(denom) {
            return funds[i].amount;
        }
        i = i + 1;
    }
    0
}

/// Creates the ledger with `sender` as its admin.
pub fn instantiate(sender: String, msg: InstantiateMsg) -> (r: Result<State, ContractError>)
    ensures
        r is Ok <==> msg.fee_percentage <= 10000,
        msg.fee_percentage > 10000 ==> r == Err::<State, ContractError>(ContractError::InvalidRate),
        r matches Ok(s) ==> s@.wf() && s@.transfers.len() == 0 && s@.admin == sender@
            && s@.fee_rate == msg.fee_percentage,
{
    State::new(sender, msg.fee_percentage)
}

/// Carries out one request from `sender` on the ledger. `funds` is what came
/// attached, `timestamp` the time of the request in seconds, `balance` what the
/// contract holds of the native coin, and `vk` the encoded verifying key.
pub fn execute(
    state: &mut State,
    vk: &[u8],
    sender: String,
    funds: &Vec<Coin>,
    timestamp: u64,
    balance: u128,
    msg: ExecuteMsg,
) -> (r: Result<Response, ContractError>)
    requires
        old(state)@.wf(),
    ensures
        final(state)@.wf(),
        match msg {
            ExecuteMsg::RecordTransfer { file_hash, recipient, zk_proof } => {
                let amount = amount_from(funds@, native_denom_spec(), 0);
                let valid = proof_accepted(vk@, zk_proof@, encode_utf8(file_hash@), encode_utf8(recipient@));
                let (res, after) = old(state)@.record(file_hash@, recipient@, valid, sender@, amount, timestamp);
                &&& final(state)@ == after
                &&& res matches Err(e) ==> r == Err::<Response, ContractError>(e)
                &&& res matches Ok(fee) ==> (r matches Ok(Response::TransferRecorded { file_hash: f, recipient: t, transfer_fee })
                    && f@ == file_hash@ && t@ == recipient@ && transfer_fee == fee)
                &&& has_pair(old(state)@.transfers, file_hash@, recipient@) ==> r == Err::<Response, ContractError>(
                    ContractError::DuplicateTransfer)
            },
            ExecuteMsg::WithdrawFees { amount } => {
                &&& final(state)@ == old(state)@
                &&& old(state)@.withdraw(sender@, amount, balance) matches Err(e) ==> r == Err::<Response, ContractError>(e)
                &&& old(state)@.withdraw(sender@, amount, balance) is Ok ==> (r matches Ok(Response::FeesWithdrawn(w))
                    && w.to_address@ == sender@ && w.amount == amount)
            },
            ExecuteMsg::SetFeePercentage { percentage } => {
                let (res, after) = old(state)@.set_rate(sender@, percentage);
                &&& final(state)@ == after
                &&& res matches Err(e) ==> r == Err::<Response, ContractError>(e)
                &&& res is Ok ==> (r matches Ok(Response::FeePercentageSet { percentage: p }) && p == percentage)
            },
        },
{
    match msg {
        ExecuteMsg::RecordTransfer { file_hash, recipient, zk_proof } => {
            let denom = native_denom();
            let amount = attached_amount(funds, &denom);
            let echo_hash = file_hash.clone();
            let echo_recipient = recipient.clone();
            let proof_blob = Proof(zk_proof);
            match state.record_transfer(vk, file_hash, recipient, &proof_blob, sender, amount, timestamp) {
                Ok(fee) => Ok(Response::TransferRecorded {
                    file_hash: echo_hash,
                    recipient: echo_recipient,
                    transfer_fee: fee,
                }),
                Err(e) => Err(e),
            }
        },
        ExecuteMsg::WithdrawFees { amount } => match state.withdraw_fees(&sender, amount, balance) {
            Ok(w) => Ok(Response::FeesWithdrawn(w)),
            Err(e) => Err(e),
        },
        ExecuteMsg::SetFeePercentage { percentage } => match state.set_fee_percentage(&sender, percentage) {
            Ok(()) => Ok(Response::FeePercentageSet { percentage }),
            Err(e) => Err(e),
        },
    }
}

/// Answers a read-only request; `balance` is what the contract holds of the
/// native coin.
pub fn query(state: &State, msg: QueryMsg, balance: u128) -> (r: QueryResponse)
    ensures
        match msg {
            QueryMsg::GetFileTransfers {} => r matches QueryResponse::FileTransfers(ts) && records_of(ts@)
                == state@.transfers,
            QueryMsg::VerifyTransfer { file_hash, recipient } => r == QueryResponse::TransferExists(
                has_pair(state@.transfers, file_hash@, recipient@),
            ),
            QueryMsg::GetContractBalance {} => r == QueryResponse::ContractBalance(balance),
            QueryMsg::GetFeePercentage {} => r == QueryResponse::FeePercentage(state@.fee_rate),
        },
{
    match msg {
        QueryMsg::GetFileTransfers {} => QueryResponse::FileTransfers(state.file_transfers()),
        QueryMsg::VerifyTransfer { file_hash, recipient } => QueryResponse::TransferExists(
            state.verify_transfer(&file_hash, &recipient),
        ),
        QueryMsg::GetContractBalance {} => QueryResponse::ContractBalance(balance),
        QueryMsg::GetFeePercentage {} => QueryResponse::FeePercentage(state.fee_percentage()),
    }
}

} // verus!
