use vstd::prelude::*;

use crate::error::ContractError;
use crate::fee::fee_of;
use crate::zk::{field_encoding, proof_accepted};
use crate::ledger::{has_pair, records_of, FileTransfer, LedgerModel, State, TransferRecord};

verus! {

/// Once a transfer of `file_hash` to `recipient` has been recorded, recording
/// the same pair again fails with `DuplicateTransfer` and leaves the ledger as
/// it is, whatever proof, sender, amount and time come with the second request.
pub proof fn lemma_second_record_is_duplicate(
    l: LedgerModel,
    file_hash: Seq<char>,
    recipient: Seq<char>,
    valid: bool,
    sender: Seq<char>,
    amount: u128,
    timestamp: u64,
    valid2: bool,
    sender2: Seq<char>,
    amount2: u128,
    timestamp2: u64,
)
    requires
        l.wf(),
        l.record(file_hash, recipient, valid, sender, amount, timestamp).0 is Ok,
    ensures
        ({
            let after = l.record(file_hash, recipient, valid, sender, amount, timestamp).1;
            after.record(file_hash, recipient, valid2, sender2, amount2, timestamp2) == (
            Err::<u128, ContractError>(ContractError::DuplicateTransfer),
            after,
            )
        }),
{
    let after = l.record(file_hash, recipient, valid, sender, amount, timestamp).1;
    let last = after.transfers.len() - 1;
    assert(after.transfers[last].file_hash == file_hash && after.transfers[last].recipient == recipient);
}

/// The admin may set the rate to exactly 10000 basis points, and no higher:
/// 10001 is refused with `InvalidRate` and the ledger stays as it is.
pub proof fn lemma_rate_boundary(l: LedgerModel)
    ensures
        l.set_rate(l.admin, 10000).0 is Ok,
        l.set_rate(l.admin, 10000).1.fee_rate == 10000,
        l.set_rate(l.admin, 10001) == (Err::<(), ContractError>(ContractError::InvalidRate), l),
{
}

/// A caller other than the admin can neither change the fee rate nor withdraw:
/// both fail with `Unauthorized`, and the ledger stays as it is.
pub proof fn lemma_non_admin_refused(l: LedgerModel, caller: Seq<char>, new_rate: u128, amount: u128, balance: u128)
    requires
        caller != l.admin,
    ensures
        l.set_rate(caller, new_rate) == (Err::<(), ContractError>(ContractError::Unauthorized), l),
        l.withdraw(caller, amount, balance) == Err::<u128, ContractError>(ContractError::Unauthorized),
{
}

/// A refused proof never adds a transfer: a new pair fails with
/// `InvalidProof` and the ledger stays as it is. An accepted proof for a new
/// pair adds exactly one transfer, at the end, holding the request's values
/// and the fee at the current rate.
pub proof fn lemma_proof_gates_recording(
    l: LedgerModel,
    file_hash: Seq<char>,
    recipient: Seq<char>,
    sender: Seq<char>,
    amount: u128,
    timestamp: u64,
)
    requires
        l.wf(),
        !has_pair(l.transfers, file_hash, recipient),
    ensures
        l.record(file_hash, recipient, false, sender, amount, timestamp) == (
        Err::<u128, ContractError>(ContractError::InvalidProof),
        l,
        ),
        ({
            let (res, after) = l.record(file_hash, recipient, true, sender, amount, timestamp);
            &&& res == Ok::<u128, ContractError>(fee_of(amount, l.fee_rate) as u128)
            &&& after.transfers == l.transfers.push(
                TransferRecord { file_hash, sender, recipient, timestamp, fee: fee_of(amount, l.fee_rate) as u128 },
            )
            &&& after.admin == l.admin
            &&& after.fee_rate == l.fee_rate
        }),
{
}

/// No pair is recorded in an empty ledger; right after a successful recording
/// its pair is.
pub proof fn lemma_membership(
    l: LedgerModel,
    file_hash: Seq<char>,
    recipient: Seq<char>,
    valid: bool,
    sender: Seq<char>,
    amount: u128,
    timestamp: u64,
)
    ensures
        l.transfers.len() == 0 ==> !has_pair(l.transfers, file_hash, recipient),
        l.record(file_hash, recipient, valid, sender, amount, timestamp).0 is Ok ==> has_pair(
            l.record(file_hash, recipient, valid, sender, amount, timestamp).1.transfers,
            file_hash,
            recipient,
        ),
{
    let (res, after) = l.record(file_hash, recipient, valid, sender, amount, timestamp);
    if res is Ok {
        let last = after.transfers.len() - 1;
        assert(after.transfers[last].file_hash == file_hash && after.transfers[last].recipient == recipient);
    }
}

/// Two listings of the same ledger, as `State::file_transfers` returns them,
/// hold the same transfers in the same order.
pub proof fn lemma_listing_repeats(s: State, first: Vec<FileTransfer>, second: Vec<FileTransfer>)
    requires
        records_of(first@) == s@.transfers,
        records_of(second@) == s@.transfers,
    ensures
        records_of(first@) == records_of(second@),
        first@.len() == second@.len(),
        forall|i: int| 0 <= i < first@.len() ==> #[trigger] first@[i]@ == second@[i]@,
{
    assert(records_of(first@).len() == first@.len());
    assert(records_of(second@).len() == second@.len());
    assert forall|i: int| 0 <= i < first@.len() implies #[trigger] first@[i]@ == second@[i]@ by {
        assert(records_of(first@)[i] == first@[i]@);
        assert(records_of(second@)[i] == second@[i]@);
    }
}

/// Whether a proof is accepted depends on the file hash and the recipient only
/// through their field encodings: byte strings that encode to the same field
/// elements get the same answer, so in particular two checks of one proof for
/// the same values agree.
pub proof fn lemma_acceptance_through_encoding(
    vk: Seq<u8>,
    proof: Seq<u8>,
    file_hash: Seq<u8>,
    recipient: Seq<u8>,
    file_hash2: Seq<u8>,
    recipient2: Seq<u8>,
)
    requires
        field_encoding(file_hash) == field_encoding(file_hash2),
        field_encoding(recipient) == field_encoding(recipient2),
    ensures
        proof_accepted(vk, proof, file_hash, recipient) == proof_accepted(vk, proof, file_hash2, recipient2),
{
}

} // verus!
