use vstd::prelude::*;

use crate::error::ContractError;
use crate::fee::{authorize, check_fee_rate, compute_fee, fee_of, valid_rate};
use crate::zk::{proof_accepted, Proof};
use vstd::utf8::encode_utf8;

verus! {

/// One recorded transfer of a file, identified by its hash, to a recipient.
pub struct FileTransfer {
    pub file_hash: String,
    pub sender: String,
    pub recipient: String,
    pub timestamp: u64,
    pub transfer_fee: u128,
}

/// What a recorded transfer is, as plain values.
pub struct TransferRecord {
    pub file_hash: Seq<char>,
    pub sender: Seq<char>,
    pub recipient: Seq<char>,
    pub timestamp: u64,
    pub fee: u128,
}

impl View for FileTransfer {
    type V = TransferRecord;

    open spec fn view(&self) -> TransferRecord {
        TransferRecord {
            file_hash: self.file_hash@,
            sender: self.sender@,
            recipient: self.recipient@,
            timestamp: self.timestamp,
            fee: self.transfer_fee,
        }
    }
}

/// The records of a sequence of transfers, in the same order.
pub open spec fn records_of(ts: Seq<FileTransfer>) -> Seq<TransferRecord> {
    ts.map_values(|t: FileTransfer| t@)
}

/// The ledger as plain values: the audit trail, the admin and the fee rate.
pub struct LedgerModel {
    pub transfers: Seq<TransferRecord>,
    pub admin: Seq<char>,
    pub fee_rate: u128,
}

/// Some transfer in `ts` has this file hash and this recipient.
pub open spec fn has_pair(ts: Seq<TransferRecord>, file_hash: Seq<char>, recipient: Seq<char>) -> bool {
    exists|i: int| 0 <= i < ts.len() && #[trigger] ts[i].file_hash == file_hash && ts[i].recipient == recipient
}

/// No two transfers in `ts` share both file hash and recipient.
pub open spec fn pairs_unique(ts: Seq<TransferRecord>) -> bool {
    forall|i: int, j: int|
        0 <= i < ts.len() && 0 <= j < ts.len() && i != j ==> !(#[trigger] ts[i].file_hash == #[trigger] ts[j].file_hash
            && ts[i].recipient == ts[j].recipient)
}

/// Appending a transfer whose pair is not yet recorded keeps pairs unique.
pub proof fn lemma_push_keeps_unique(ts: Seq<TransferRecord>, t: TransferRecord)
    requires
        pairs_unique(ts),
        !has_pair(ts, t.file_hash, t.recipient),
    ensures
        pairs_unique(ts.push(t)),
{
    let all = ts.push(t);
    assert forall|i: int, j: int|
        0 <= i < all.len() && 0 <= j < all.len() && i != j implies !(#[trigger] all[i].file_hash
            == #[trigger] all[j].file_hash && all[i].recipient == all[j].recipient) by {
        if i == ts.len() {
            assert(ts[j] == all[j]);
        } else if j == ts.len() {
            assert(ts[i] == all[i]);
        } else {
            assert(ts[i] == all[i] && ts[j] == all[j]);
        }
    }
}

impl LedgerModel {
    /// The ledger's invariants: a rate in range and at most one transfer per pair.
    pub open spec fn wf(self) -> bool {
        valid_rate(self.fee_rate) && pairs_unique(self.transfers)
    }

    /// What `record_transfer` does: the result and the ledger after it.
    pub open spec fn record(
        self,
        file_hash: Seq<char>,
        recipient: Seq<char>,
        proof_valid: bool,
        sender: Seq<char>,
        amount: u128,
        timestamp: u64,
    ) -> (Result<u128, ContractError>, LedgerModel) {
        if has_pair(self.transfers, file_hash, recipient) {
            (Err(ContractError::DuplicateTransfer), self)
        } else if !proof_valid {
            (Err(ContractError::InvalidProof), self)
        } else {
            let fee = fee_of(amount, self.fee_rate) as u128;
            let rec = TransferRecord { file_hash, sender, recipient, timestamp, fee };
            (Ok(fee), LedgerModel { transfers: self.transfers.push(rec), ..self })
        }
    }

    /// What `set_fee_percentage` does: the result and the ledger after it.
    pub open spec fn set_rate(self, caller: Seq<char>, new_rate: u128) -> (Result<(), ContractError>, LedgerModel) {
        if caller != self.admin {
            (Err(ContractError::Unauthorized), self)
        } else if !valid_rate(new_rate) {
            (Err(ContractError::InvalidRate), self)
        } else {
            (Ok(()), LedgerModel { fee_rate: new_rate, ..self })
        }
    }

    /// What `withdraw_fees` answers: the amount to send to the caller, or the error.
    pub open spec fn withdraw(self, caller: Seq<char>, amount: u128, balance: u128) -> Result<u128, ContractError> {
        if caller != self.admin {
            Err(ContractError::Unauthorized)
        } else if balance < amount {
            Err(ContractError::InsufficientFunds)
        } else {
            Ok(amount)
        }
    }
}

/// An instruction to pay `amount` of the native coin out to `to_address`.
pub struct Withdrawal {
    pub to_address: String,
    pub amount: u128,
}

/// The ledger: every recorded transfer in recording order, the admin, and
/// the fee rate in basis points.
pub struct State {
    file_transfers: Vec<FileTransfer>,
    admin: String,
    fee_percentage: u128,
}

impl View for State {
    type V = LedgerModel;

    closed spec fn view(&self) -> LedgerModel {
        LedgerModel {
            transfers: records_of(self.file_transfers@),
            admin: self.admin@,
            fee_rate: self.fee_percentage,
        }
    }
}

/// A copy of `t` that holds the same values.
fn copy_transfer(t: &FileTransfer) -> (r: FileTransfer)
    ensures
        r@ == t@,
{
    FileTransfer {
        file_hash: t.file_hash.clone(),
        sender: t.sender.clone(),
        recipient: t.recipient.clone(),
        timestamp: t.timestamp,
        transfer_fee: t.transfer_fee,
    }
}

impl State {
    /// A new, empty ledger administered by `admin` that charges `fee_percentage`
    /// basis points; a rate above 10000 is refused with `InvalidRate`.
    pub fn new(admin: String, fee_percentage: u128) -> (r: Result<State, ContractError>)
        ensures
            r is Ok <==> valid_rate(fee_percentage),
            !valid_rate(fee_percentage) ==> r == Err::<State, ContractError>(ContractError::InvalidRate),
            r matches Ok(s) ==> s@.wf() && s@.transfers.len() == 0 && s@.admin == admin@
                && s@.fee_rate == fee_percentage,
    {
        match check_fee_rate(fee_percentage) {
            Ok(rate) => Ok(State { file_transfers: Vec::new(), admin, fee_percentage: rate }),
            Err(e) => Err(e),
        }
    }

    /// Rebuilds a ledger from stored parts, refusing a rate above 10000 basis
    /// points with `InvalidRate` and two transfers of one pair with
    /// `DuplicateTransfer`.
    pub fn restore(admin: String, fee_percentage: u128, transfers: &Vec<FileTransfer>) -> (r: Result<State, ContractError>)
        ensures
            r is Ok <==> valid_rate(fee_percentage) && pairs_unique(records_of(transfers@)),
            !valid_rate(fee_percentage) ==> r == Err::<State, ContractError>(ContractError::InvalidRate),
            valid_rate(fee_percentage) && !pairs_unique(records_of(transfers@)) ==> r == Err::<State, ContractError>(
                ContractError::DuplicateTransfer),
            r matches Ok(s) ==> s@ == (LedgerModel {
                transfers: records_of(transfers@),
                admin: admin@,
                fee_rate: fee_percentage,
            }),
    {
        let mut state = match State::new(admin, fee_percentage) {
            Ok(s) => s,
            Err(e) => return Err(e),
        };
        let n = transfers.len();
        let ghost all = records_of(transfers@);
        let mut i: usize = 0;
        while i < n
            invariant
                n == transfers@.len(),
                all == records_of(transfers@),
                all.len() == n,
                0 <= i <= n,
                state@.wf(),
                state@.transfers == all.take(i as int),
                state@.admin == admin@,
                state@.fee_rate == fee_percentage,
            decreases n - i,
        {
            let t = copy_transfer(&transfers[i]);
            assert(all[i as int] == t@);
            if state.verify_transfer(&t.file_hash, &t.recipient) {
                proof {
                    let k = choose|k: int| 0 <= k < state@.transfers.len() && #[trigger] state@.transfers[k].file_hash
                        == t@.file_hash && state@.transfers[k].recipient == t@.recipient;
                    assert(all[k] == state@.transfers[k]);
                    assert(!pairs_unique(all)) by {
                        assert(all[k].file_hash == all[i as int].file_hash);
                    }
                }
                return Err(ContractError::DuplicateTransfer);
            }
            let ghost before = state@;
            state.file_transfers.push(t);
            assert(state@.transfers =~= before.transfers.push(t@));
            assert(all.take(i as int + 1) =~= all.take(i as int).push(t@));
            proof {
                lemma_push_keeps_unique(before.transfers, t@);
            }
            i = i + 1;
        }
        assert(all.take(n as int) =~= all);
        Ok(state)
    }

    /// The admin's identity.
    pub fn admin(&self) -> (r: &String)
        ensures
            r@ == self@.admin,
    {
        &self.admin
    }

    /// The current fee rate, in basis points.
    pub fn fee_percentage(&self) -> (r: u128)
        ensures
            r == self@.fee_rate,
    {
        self.fee_percentage
    }

    /// Whether a transfer of `file_hash` to `recipient` is recorded.
    pub fn verify_transfer(&self, file_hash: &String, recipient: &String) -> (r: bool)
        ensures
            r == has_pair(self@.transfers, file_hash@, recipient@),
    {
        let n = self.file_transfers.len();
        let mut i: usize = 0;
        while i < n
            invariant
                n == self.file_transfers@.len(),
                0 <= i <= n,
                forall|j: int| 0 <= j < i ==> !(#[trigger] self@.transfers[j].file_hash == file_hash@
                    && self@.transfers[j].recipient == recipient@),
            decreases n - i,
        {
            let t = &self.file_transfers[i];
            if t.file_hash.eq(file_hash) && t.recipient.eq(recipient) {
                assert(self@.transfers[i as int] == t@);
                assert(self@.transfers[i as int].file_hash == file_hash@
                    && self@.transfers[i as int].recipient == recipient@);
                return true;
            }
            i = i + 1;
        }
        assert forall|j: int| 0 <= j < self@.transfers.len() implies !(#[trigger] self@.transfers[j].file_hash == file_hash@
            && self@.transfers[j].recipient == recipient@) by {}
        false
    }

    /// Every recorded transfer, in recording order.
    pub fn file_transfers(&self) -> (r: Vec<FileTransfer>)
        ensures
            records_of(r@) == self@.transfers,
    {
        let n = self.file_transfers.len();
        let mut out: Vec<FileTransfer> = Vec::new();
        let mut i: usize = 0;
        while i < n
            invariant
                n == self.file_transfers@.len(),
                0 <= i <= n,
                records_of(out@) == self@.transfers.take(i as int),
            decreases n - i,
        {
            let c = copy_transfer(&self.file_transfers[i]);
            let ghost prev = out@;
            out.push(c);
            assert(records_of(out@) =~= records_of(prev).push(c@));
            assert(self@.transfers[i as int] == c@);
            assert(self@.transfers.take(i as int + 1) =~= self@.transfers.take(i as int).push(c@));
            i = i + 1;
        }
        assert(self@.transfers.take(n as int) =~= self@.transfers);
        out
    }

    /// Appends a transfer once its proof has been checked, `proof_valid` being
    /// the verifier's answer: fails with `DuplicateTransfer` when the pair is
    /// already recorded, with `InvalidProof` when the proof was refused, and
    /// otherwise records the transfer with the fee on `amount` and returns the fee.
    pub fn record_checked_transfer(
        &mut self,
        file_hash: String,
        recipient: String,
        proof_valid: bool,
        sender: String,
        amount: u128,
        timestamp: u64,
    ) -> (r: Result<u128, ContractError>)
        requires
            old(self)@.wf(),
        ensures
            final(self)@.wf(),
            (r, final(self)@) == old(self)@.record(file_hash@, recipient@, proof_valid, sender@, amount, timestamp),
    {
        if self.verify_transfer(&file_hash, &recipient) {
            return Err(ContractError::DuplicateTransfer);
        }
        if !proof_valid {
            return Err(ContractError::InvalidProof);
        }
        let fee = compute_fee(amount, self.fee_percentage);
        let t = FileTransfer { file_hash, sender, recipient, timestamp, transfer_fee: fee };
        let ghost before = self@;
        self.file_transfers.push(t);
        assert(self@.transfers =~= before.transfers.push(t@));
        proof {
            lemma_push_keeps_unique(before.transfers, t@);
        }
        Ok(fee)
    }

    /// Records a transfer of `file_hash` from `sender` to `recipient`, gated by
    /// `zk_proof` under the encoded verifying key `vk`. A recorded pair fails
    /// with `DuplicateTransfer` before the proof is looked at; otherwise the
    /// verifier's answer decides between `InvalidProof` and recording the
    /// transfer, as `record_checked_transfer` says for that answer. The proof is
    /// checked against the UTF-8 bytes of the file hash and the recipient.
    pub fn record_transfer(
        &mut self,
        vk: &[u8],
        file_hash: String,
        recipient: String,
        zk_proof: &Proof,
        sender: String,
        amount: u128,
        timestamp: u64,
    ) -> (r: Result<u128, ContractError>)
        requires
            old(self)@.wf(),
        ensures
            final(self)@.wf(),
            has_pair(old(self)@.transfers, file_hash@, recipient@) ==> r == Err::<u128, ContractError>(
                ContractError::DuplicateTransfer) && final(self)@ == old(self)@,
            (r, final(self)@) == old(self)@.record(
                file_hash@,
                recipient@,
                proof_accepted(vk@, zk_proof.0@, encode_utf8(file_hash@), encode_utf8(recipient@)),
                sender@,
                amount,
                timestamp,
            ),
    {
        if self.verify_transfer(&file_hash, &recipient) {
            return Err(ContractError::DuplicateTransfer);
        }
        let valid = zk_proof.verify(vk, file_hash.as_str().as_bytes(), recipient.as_str().as_bytes());
        self.record_checked_transfer(file_hash, recipient, valid, sender, amount, timestamp)
    }

    /// Changes the fee rate on behalf of `caller`: only the admin may, and only
    /// to a rate of at most 10000 basis points.
    pub fn set_fee_percentage(&mut self, caller: &String, percentage: u128) -> (r: Result<(), ContractError>)
        requires
            old(self)@.wf(),
        ensures
            final(self)@.wf(),
            (r, final(self)@) == old(self)@.set_rate(caller@, percentage),
    {
        match authorize(caller, &self.admin) {
            Ok(()) => {},
            Err(e) => return Err(e),
        }
        match check_fee_rate(percentage) {
            Ok(rate) => {
                self.fee_percentage = rate;
                Ok(())
            },
            Err(e) => Err(e),
        }
    }

    /// Decides a withdrawal of `amount` asked for by `caller` while the contract
    /// holds `balance`: only the admin may, and no more than is held. The ledger
    /// itself does not change.
    pub fn withdraw_fees(&self, caller: &String, amount: u128, balance: u128) -> (r: Result<Withdrawal, ContractError>)
        ensures
            r is Ok <==> self@.withdraw(caller@, amount, balance) is Ok,
            r matches Ok(w) ==> w.to_address@ == caller@ && w.amount == amount,
            r matches Err(e) ==> self@.withdraw(caller@, amount, balance) == Err::<u128, ContractError>(e),
    {
        match authorize(caller, &self.admin) {
            Ok(()) => {},
            Err(e) => return Err(e),
        }
        if balance < amount {
            return Err(ContractError::InsufficientFunds);
        }
        Ok(Withdrawal { to_address: caller.clone(), amount })
    }
}

} // verus!
