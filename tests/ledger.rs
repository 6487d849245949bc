use bellman::groth16;
use bellman::{Circuit, ConstraintSystem, SynthesisError};
use bls12_381::{Bls12, Scalar};
use rand::rngs::OsRng;

use zk_file_transfer::error::ContractError;
use zk_file_transfer::fee::{authorize, check_fee_rate, compute_fee};
use zk_file_transfer::ledger::State;
use zk_file_transfer::msg::{
    attached_amount, execute, instantiate, native_denom, query, Coin, ExecuteMsg, InstantiateMsg,
    QueryMsg, QueryResponse, Response,
};
use zk_file_transfer::zk::{encode_field_element, field_input_bytes, widen_digest, FileTransferCircuit, Proof};

struct TestCircuit(FileTransferCircuit);

fn scalar_of(v: Option<[u8; 32]>) -> Result<Scalar, SynthesisError> {
    let bytes = v.ok_or(SynthesisError::AssignmentMissing)?;
    Option::from(Scalar::from_bytes(&bytes)).ok_or(SynthesisError::AssignmentMissing)
}

impl Circuit<Scalar> for TestCircuit {
    fn synthesize<CS: ConstraintSystem<Scalar>>(self, cs: &mut CS) -> Result<(), SynthesisError> {
        let c = self.0;
        let h = cs.alloc_input(|| "file hash", || scalar_of(c.file_hash))?;
        let r = cs.alloc_input(|| "recipient", || scalar_of(c.recipient))?;
        let s = cs.alloc(|| "secret", || scalar_of(c.secret))?;
        cs.enforce(|| "secret constraint", |lc| lc + s, |lc| lc + CS::one(), |lc| lc + h + r);
        Ok(())
    }
}

fn setup() -> (groth16::Parameters<Bls12>, Vec<u8>) {
    let params = groth16::generate_random_parameters::<Bls12, _, _>(
        TestCircuit(FileTransferCircuit::blank()),
        &mut OsRng,
    )
    .unwrap();
    let mut vk = Vec::new();
    params.vk.write(&mut vk).unwrap();
    (params, vk)
}

fn prove(params: &groth16::Parameters<Bls12>, file_hash: &str, recipient: &str) -> Proof {
    let h = encode_field_element(file_hash.as_bytes());
    let r = encode_field_element(recipient.as_bytes());
    let s = Scalar::from_bytes(&h).unwrap() + Scalar::from_bytes(&r).unwrap();
    let c = FileTransferCircuit::new(h, r, s.to_bytes());
    let proof = groth16::create_random_proof(TestCircuit(c), params, &mut OsRng).unwrap();
    let mut bytes = Vec::new();
    proof.write(&mut bytes).unwrap();
    Proof(bytes)
}

fn ledger(rate: u128) -> State {
    State::new("admin".to_string(), rate).unwrap()
}

#[test]
fn fee_examples() {
    assert_eq!(compute_fee(1_000_000, 250), 25_000);
    assert_eq!(compute_fee(1_000_000, 0), 0);
    assert_eq!(compute_fee(3, 10000), 3);
    assert_eq!(compute_fee(9_999, 1), 0);
    assert_eq!(compute_fee(u128::MAX, 10000), u128::MAX);
    assert_eq!(compute_fee(u128::MAX, 5000), u128::MAX / 2);
}

#[test]
fn rate_boundary() {
    let mut l = ledger(100);
    let admin = "admin".to_string();
    assert_eq!(l.set_fee_percentage(&admin, 10000), Ok(()));
    assert_eq!(l.fee_percentage(), 10000);
    assert_eq!(l.set_fee_percentage(&admin, 10001), Err(ContractError::InvalidRate));
    assert_eq!(l.fee_percentage(), 10000);
    assert_eq!(check_fee_rate(0), Ok(0));
    assert_eq!(check_fee_rate(10001), Err(ContractError::InvalidRate));
}

#[test]
fn instantiate_checks_rate() {
    let s = instantiate("deployer".to_string(), InstantiateMsg { fee_percentage: 250 }).unwrap();
    assert_eq!(s.admin(), "deployer");
    assert_eq!(s.fee_percentage(), 250);
    assert!(s.file_transfers().is_empty());
    assert!(matches!(
        instantiate("deployer".to_string(), InstantiateMsg { fee_percentage: 10001 }),
        Err(ContractError::InvalidRate)
    ));
}

#[test]
fn non_admin_is_refused() {
    let mut l = ledger(100);
    let mallory = "mallory".to_string();
    assert_eq!(l.set_fee_percentage(&mallory, 50), Err(ContractError::Unauthorized));
    assert_eq!(l.fee_percentage(), 100);
    assert!(matches!(l.withdraw_fees(&mallory, 1, 1000), Err(ContractError::Unauthorized)));
    assert_eq!(authorize(&mallory, &"admin".to_string()), Err(ContractError::Unauthorized));
    assert_eq!(authorize(&"admin".to_string(), &"admin".to_string()), Ok(()));
}

#[test]
fn withdrawal_needs_funds() {
    let l = ledger(100);
    let admin = "admin".to_string();
    assert!(matches!(l.withdraw_fees(&admin, 1001, 1000), Err(ContractError::InsufficientFunds)));
    let w = l.withdraw_fees(&admin, 1000, 1000).unwrap();
    assert_eq!(w.to_address, "admin");
    assert_eq!(w.amount, 1000);
}

#[test]
fn checked_recording_and_uniqueness() {
    let mut l = ledger(250);
    let fh = "QmHash".to_string();
    let to = "bob".to_string();
    assert!(!l.verify_transfer(&fh, &to));
    assert_eq!(
        l.record_checked_transfer(fh.clone(), to.clone(), false, "alice".to_string(), 1_000_000, 7),
        Err(ContractError::InvalidProof)
    );
    assert!(l.file_transfers().is_empty());
    assert_eq!(
        l.record_checked_transfer(fh.clone(), to.clone(), true, "alice".to_string(), 1_000_000, 7),
        Ok(25_000)
    );
    assert!(l.verify_transfer(&fh, &to));
    assert!(!l.verify_transfer(&fh, &"carol".to_string()));
    assert_eq!(
        l.record_checked_transfer(fh.clone(), to.clone(), true, "dave".to_string(), 5, 9),
        Err(ContractError::DuplicateTransfer)
    );
    assert_eq!(
        l.record_checked_transfer(fh.clone(), to.clone(), false, "dave".to_string(), 5, 9),
        Err(ContractError::DuplicateTransfer)
    );
    let ts = l.file_transfers();
    assert_eq!(ts.len(), 1);
    assert_eq!(ts[0].file_hash, "QmHash");
    assert_eq!(ts[0].sender, "alice");
    assert_eq!(ts[0].recipient, "bob");
    assert_eq!(ts[0].timestamp, 7);
    assert_eq!(ts[0].transfer_fee, 25_000);
}

#[test]
fn listing_twice_is_identical() {
    let mut l = ledger(100);
    for (i, name) in ["a", "b", "c"].iter().enumerate() {
        l.record_checked_transfer(name.to_string(), "bob".to_string(), true, "alice".to_string(), 100, i as u64)
            .unwrap();
    }
    let first = l.file_transfers();
    let second = l.file_transfers();
    assert_eq!(first.len(), 3);
    for (x, y) in first.iter().zip(second.iter()) {
        assert_eq!(x.file_hash, y.file_hash);
        assert_eq!(x.recipient, y.recipient);
        assert_eq!(x.timestamp, y.timestamp);
    }
    assert_eq!(first[0].file_hash, "a");
    assert_eq!(first[2].file_hash, "c");
}

#[test]
fn field_encoding_uses_sha256() {
    let wide = field_input_bytes(b"abc");
    let digest: [u8; 32] = [
        0xba, 0x78, 0x16, 0xbf, 0x8f, 0x01, 0xcf, 0xea, 0x41, 0x41, 0x40, 0xde, 0x5d, 0xae, 0x22, 0x23,
        0xb0, 0x03, 0x61, 0xa3, 0x96, 0x17, 0x7a, 0x9c, 0xb4, 0x10, 0xff, 0x61, 0xf2, 0x00, 0x15, 0xad,
    ];
    assert_eq!(&wide[..32], &digest[..]);
    assert!(wide[32..].iter().all(|b| *b == 0));
    assert_eq!(widen_digest(&digest), wide);
    assert_eq!(encode_field_element(b"abc"), Scalar::from_bytes_wide(&wide).to_bytes());
    assert_ne!(encode_field_element(b"abc"), encode_field_element(b"abd"));
}

#[test]
fn real_proof_gates_recording() {
    let (params, vk) = setup();
    let proof = prove(&params, "QmFile", "bob");
    assert!(proof.verify(&vk, b"QmFile", b"bob"));
    assert!(!proof.verify(&vk, b"QmFile", b"carol"));
    assert_eq!(proof.verify(&vk, b"QmFile", b"carol"), proof.verify(&vk, b"QmFile", b"carol"));
    assert!(proof.verify(&vk, b"QmFile", b"bob"));
    assert!(!Proof(vec![0u8; 10]).verify(&vk, b"QmFile", b"bob"));
    assert!(!Proof(vec![0u8; 192]).verify(&vk, b"QmFile", b"bob"));

    let mut l = ledger(250);
    assert_eq!(
        l.record_transfer(&vk, "QmFile".to_string(), "carol".to_string(), &proof, "alice".to_string(), 1000, 1),
        Err(ContractError::InvalidProof)
    );
    assert!(l.file_transfers().is_empty());
    assert_eq!(
        l.record_transfer(&vk, "QmFile".to_string(), "bob".to_string(), &proof, "alice".to_string(), 1000, 1),
        Ok(25)
    );
    assert_eq!(l.file_transfers().len(), 1);
    assert_eq!(
        l.record_transfer(&vk, "QmFile".to_string(), "bob".to_string(), &proof, "alice".to_string(), 1000, 2),
        Err(ContractError::DuplicateTransfer)
    );
    assert_eq!(l.file_transfers().len(), 1);
}

#[test]
fn attached_funds_pick_native_denom() {
    let funds = vec![
        Coin { denom: "uatom".to_string(), amount: 5 },
        Coin { denom: "usei".to_string(), amount: 40 },
        Coin { denom: "usei".to_string(), amount: 70 },
    ];
    assert_eq!(native_denom(), "usei");
    assert_eq!(attached_amount(&funds, &native_denom()), 40);
    let other = vec![Coin { denom: "uatom".to_string(), amount: 5 }];
    assert_eq!(attached_amount(&other, &native_denom()), 0);
    assert_eq!(attached_amount(&Vec::new(), &native_denom()), 0);
}

#[test]
fn execute_and_query_dispatch() {
    let mut l = ledger(500);
    let funds = vec![Coin { denom: "usei".to_string(), amount: 2000 }];
    let r = execute(
        &mut l,
        &[],
        "alice".to_string(),
        &funds,
        3,
        0,
        ExecuteMsg::RecordTransfer { file_hash: "f".to_string(), recipient: "bob".to_string(), zk_proof: vec![1, 2] },
    );
    assert!(matches!(r, Err(ContractError::InvalidProof)));
    let r = execute(&mut l, &[], "admin".to_string(), &funds, 3, 0, ExecuteMsg::SetFeePercentage { percentage: 42 });
    assert!(matches!(r, Ok(Response::FeePercentageSet { percentage: 42 })));
    let r = execute(&mut l, &[], "admin".to_string(), &funds, 3, 10, ExecuteMsg::WithdrawFees { amount: 11 });
    assert!(matches!(r, Err(ContractError::InsufficientFunds)));
    let r = execute(&mut l, &[], "admin".to_string(), &funds, 3, 10, ExecuteMsg::WithdrawFees { amount: 10 });
    match r {
        Ok(Response::FeesWithdrawn(w)) => {
            assert_eq!(w.to_address, "admin");
            assert_eq!(w.amount, 10);
        }
        _ => panic!("withdrawal refused"),
    }
    assert!(matches!(query(&l, QueryMsg::GetFeePercentage {}, 0), QueryResponse::FeePercentage(42)));
    assert!(matches!(query(&l, QueryMsg::GetContractBalance {}, 77), QueryResponse::ContractBalance(77)));
    assert!(matches!(
        query(&l, QueryMsg::VerifyTransfer { file_hash: "f".to_string(), recipient: "bob".to_string() }, 0),
        QueryResponse::TransferExists(false)
    ));
    match query(&l, QueryMsg::GetFileTransfers {}, 0) {
        QueryResponse::FileTransfers(ts) => assert!(ts.is_empty()),
        _ => panic!("wrong answer"),
    }
}

#[test]
fn execute_records_with_real_proof() {
    let (params, vk) = setup();
    let proof = prove(&params, "QmDoc", "bob");
    let mut l = ledger(250);
    let funds = vec![Coin { denom: "usei".to_string(), amount: 1_000_000 }];
    let msg = ExecuteMsg::RecordTransfer { file_hash: "QmDoc".to_string(), recipient: "bob".to_string(), zk_proof: proof.0 };
    match execute(&mut l, &vk, "alice".to_string(), &funds, 99, 0, msg) {
        Ok(Response::TransferRecorded { file_hash, recipient, transfer_fee }) => {
            assert_eq!(file_hash, "QmDoc");
            assert_eq!(recipient, "bob");
            assert_eq!(transfer_fee, 25_000);
        }
        _ => panic!("recording refused"),
    }
    assert!(matches!(
        query(&l, QueryMsg::VerifyTransfer { file_hash: "QmDoc".to_string(), recipient: "bob".to_string() }, 0),
        QueryResponse::TransferExists(true)
    ));
}
