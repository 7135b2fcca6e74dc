use bitcoin::blockdata::script::Script;
use bitcoin::blockdata::transaction::{OutPoint as TxOutPoint, Transaction, TxIn, TxOut};
use bitcoin::util::psbt::PartiallySignedTransaction;
use revault_gui::command::Command;
use revault_gui::model::{OutPoint, RevocationTransactions, Vault as VaultInfo, VaultStatus};
use revault_gui::psbt::Psbt;
use revault_gui::sign::{
    SignMessage, SignMethod, SignState, SignWarning, SignatureSharingStatus, TransactionKind,
};
use revault_gui::vault::{Vault, VaultMessage, VaultSection};

fn unsigned_tx(lock_time: u32) -> Transaction {
    Transaction {
        version: 2,
        lock_time,
        input: vec![TxIn {
            previous_output: TxOutPoint::default(),
            script_sig: Script::new(),
            sequence: 0xffff_ffff,
            witness: vec![],
        }],
        output: vec![TxOut { value: 10_000, script_pubkey: Script::new() }],
    }
}

fn unsigned_psbt(lock_time: u32) -> PartiallySignedTransaction {
    PartiallySignedTransaction::from_unsigned_tx(unsigned_tx(lock_time)).unwrap()
}

/// The PSBT of the transaction, with a final script added: same identity,
/// other bytes.
fn signed_psbt(lock_time: u32) -> PartiallySignedTransaction {
    let mut psbt = unsigned_psbt(lock_time);
    psbt.inputs[0].final_script_sig = Some(Script::from(vec![0x51]));
    psbt
}

fn to_lib(psbt: &PartiallySignedTransaction) -> Psbt {
    Psbt::from_bytes(bitcoin::consensus::encode::serialize(psbt)).unwrap()
}

fn to_text(psbt: &PartiallySignedTransaction) -> String {
    bitcoin::base64::encode(&bitcoin::consensus::encode::serialize(psbt))
}

fn indirect(lock_time: u32, kind: TransactionKind) -> SignState {
    let mut state = SignState::new(to_lib(&unsigned_psbt(lock_time)), kind);
    state.update(SignMessage::ChangeMethod);
    state
}

fn warning(state: &SignState) -> Option<SignWarning> {
    match &state.method {
        SignMethod::IndirectSignature { warning, .. } => *warning,
        SignMethod::DirectSignature => None,
    }
}

fn submit(state: &mut SignState, text: String) {
    state.update(SignMessage::PsbtEdited(text));
    state.update(SignMessage::Sign);
}

#[test]
fn matching_signature_is_stored_and_warning_cleared() {
    let mut state = indirect(7, TransactionKind::Unvault);
    submit(&mut state, "garbage".to_string());
    assert_eq!(warning(&state), Some(SignWarning::InvalidPsbt));
    let signed = signed_psbt(7);
    state.update(SignMessage::PsbtEdited(to_text(&signed)));
    state.update(SignMessage::Sign);
    let stored = state.signed_psbt.as_ref().expect("stored");
    assert_eq!(stored.bytes(), bitcoin::consensus::encode::serialize(&signed).as_slice());
    assert_eq!(warning(&state), None);
}

#[test]
fn signature_of_another_transaction_is_refused() {
    let mut state = indirect(7, TransactionKind::Unvault);
    submit(&mut state, to_text(&signed_psbt(8)));
    assert!(state.signed_psbt.is_none());
    assert_eq!(warning(&state), Some(SignWarning::NotTargetedTransaction));
    assert_eq!(
        SignWarning::NotTargetedTransaction.message(),
        "PSBT is not the targeted transaction to sign"
    );
}

#[test]
fn malformed_payloads_are_refused() {
    for text in ["%%%", "aGVsbG8=", "AAAA", "cHNidP8="] {
        let mut state = indirect(7, TransactionKind::Unvault);
        submit(&mut state, text.to_string());
        assert!(state.signed_psbt.is_none());
        assert_eq!(warning(&state), Some(SignWarning::InvalidPsbt));
    }
    assert_eq!(SignWarning::InvalidPsbt.message(), "Please enter valid PSBT");
}

#[test]
fn empty_input_is_an_invalid_psbt() {
    let mut state = indirect(7, TransactionKind::Unvault);
    state.update(SignMessage::Sign);
    assert!(state.signed_psbt.is_none());
    assert_eq!(warning(&state), Some(SignWarning::InvalidPsbt));
}

#[test]
fn failed_resubmission_keeps_signature() {
    let mut state = indirect(7, TransactionKind::Unvault);
    submit(&mut state, to_text(&signed_psbt(7)));
    let kept = bitcoin::consensus::encode::serialize(&signed_psbt(7));
    submit(&mut state, "garbage".to_string());
    assert_eq!(warning(&state), Some(SignWarning::InvalidPsbt));
    assert_eq!(state.signed_psbt.as_ref().unwrap().bytes(), kept.as_slice());
    submit(&mut state, to_text(&signed_psbt(8)));
    assert_eq!(warning(&state), Some(SignWarning::NotTargetedTransaction));
    assert_eq!(state.signed_psbt.as_ref().unwrap().bytes(), kept.as_slice());
    submit(&mut state, String::new());
    assert_eq!(warning(&state), Some(SignWarning::InvalidPsbt));
    assert_eq!(state.signed_psbt.as_ref().unwrap().bytes(), kept.as_slice());
}

#[test]
fn direct_signing_ignores_pasted_text() {
    let mut state = SignState::new(to_lib(&unsigned_psbt(7)), TransactionKind::Unvault);
    submit(&mut state, to_text(&signed_psbt(7)));
    assert!(state.signed_psbt.is_none());
    assert!(matches!(state.method, SignMethod::DirectSignature));
}

#[test]
fn changing_method_discards_input() {
    let mut state = indirect(7, TransactionKind::Unvault);
    state.update(SignMessage::PsbtEdited("abc".to_string()));
    state.update(SignMessage::ChangeMethod);
    assert!(matches!(state.method, SignMethod::DirectSignature));
    state.update(SignMessage::ChangeMethod);
    match &state.method {
        SignMethod::IndirectSignature { psbt_input, warning } => {
            assert!(psbt_input.is_empty());
            assert!(warning.is_none());
        }
        SignMethod::DirectSignature => panic!("expected indirect signing"),
    }
}

#[test]
fn success_marks_signature_shared() {
    let mut state = indirect(7, TransactionKind::Unvault);
    assert_eq!(state.sharing_status, SignatureSharingStatus::Unshared);
    state.update(SignMessage::Success);
    assert_eq!(state.sharing_status, SignatureSharingStatus::Success);
}

#[test]
fn indirect_signing_of_other_transaction_keeps_nothing() {
    let mut state = indirect(100, TransactionKind::Spend);
    submit(&mut state, to_text(&signed_psbt(101)));
    assert!(state.signed_psbt.is_none());
    assert_eq!(warning(&state), Some(SignWarning::NotTargetedTransaction));
}

fn funded_vault() -> VaultInfo {
    VaultInfo {
        amount: 1_000_000,
        status: VaultStatus::Funded,
        txid: "aa".repeat(32),
        vout: 1,
        address: "addr".to_string(),
        updated_at: 0,
    }
}

fn outpoint() -> OutPoint {
    OutPoint { txid: "aa".repeat(32), vout: 1 }
}

fn revocations() -> RevocationTransactions {
    RevocationTransactions {
        emergency_tx: to_lib(&unsigned_psbt(1)),
        emergency_unvault_tx: to_lib(&unsigned_psbt(2)),
        cancel_tx: to_lib(&unsigned_psbt(3)),
    }
}

fn sign_in_vault(vault: &mut Vault, lock_time: u32) -> Command {
    vault.update(VaultMessage::Sign(SignMessage::PsbtEdited(to_text(&signed_psbt(lock_time)))));
    vault.update(VaultMessage::Sign(SignMessage::Sign))
}

fn acknowledging_vault() -> Vault {
    let mut vault = Vault::new(funded_vault());
    let cmd = vault.update(VaultMessage::Acknowledge(outpoint()));
    assert!(matches!(cmd, Command::GetRevocationTransactions(ref o) if o.vout == 1));
    vault.update(VaultMessage::RevocationTransactions(outpoint(), Ok(revocations())));
    vault.update(VaultMessage::Sign(SignMessage::ChangeMethod));
    vault
}

fn active_kind(vault: &Vault) -> TransactionKind {
    match &vault.section {
        VaultSection::Acknowledge { chain } => chain.signer.transaction_kind,
        _ => panic!("expected the revocation chain"),
    }
}

#[test]
fn revocation_chain_signed_in_order_submits_once() {
    let mut vault = acknowledging_vault();
    assert_eq!(active_kind(&vault), TransactionKind::Emergency);
    assert!(matches!(sign_in_vault(&mut vault, 1), Command::Nothing));
    assert_eq!(active_kind(&vault), TransactionKind::EmergencyUnvault);
    vault.update(VaultMessage::Sign(SignMessage::ChangeMethod));
    assert!(matches!(sign_in_vault(&mut vault, 2), Command::Nothing));
    assert_eq!(active_kind(&vault), TransactionKind::Cancel);
    vault.update(VaultMessage::Sign(SignMessage::ChangeMethod));
    match sign_in_vault(&mut vault, 3) {
        Command::SetRevocationTransactions { outpoint: o, emergency, emergency_unvault, cancel } => {
            assert_eq!(o.vout, 1);
            let ser = |p: &PartiallySignedTransaction| bitcoin::consensus::encode::serialize(p);
            assert_eq!(emergency.bytes(), ser(&signed_psbt(1)).as_slice());
            assert_eq!(emergency_unvault.bytes(), ser(&signed_psbt(2)).as_slice());
            assert_eq!(cancel.bytes(), ser(&signed_psbt(3)).as_slice());
        }
        _ => panic!("expected one submission of the chain"),
    }
    assert!(matches!(vault.update(VaultMessage::Sign(SignMessage::Sign)), Command::Nothing));
}

#[test]
fn cancel_before_emergency_unvault_is_rejected() {
    let mut vault = acknowledging_vault();
    sign_in_vault(&mut vault, 1);
    vault.update(VaultMessage::Sign(SignMessage::ChangeMethod));
    assert!(matches!(sign_in_vault(&mut vault, 3), Command::Nothing));
    match &vault.section {
        VaultSection::Acknowledge { chain } => {
            assert!(chain.emergency_tx.1);
            assert!(!chain.emergency_unvault_tx.1);
            assert!(!chain.cancel_tx.1);
            assert_eq!(chain.signer.transaction_kind, TransactionKind::EmergencyUnvault);
            assert!(chain.signer.signed_psbt.is_none());
        }
        _ => panic!("expected the revocation chain"),
    }
}

fn fully_signed_vault() -> Vault {
    let mut vault = acknowledging_vault();
    for lock_time in 1..=3u32 {
        if lock_time > 1 {
            vault.update(VaultMessage::Sign(SignMessage::ChangeMethod));
        }
        sign_in_vault(&mut vault, lock_time);
    }
    vault
}

#[test]
fn second_cancel_while_in_flight_is_ignored() {
    let mut vault = fully_signed_vault();
    assert!(matches!(sign_in_vault(&mut vault, 3), Command::Nothing));
    assert!(matches!(vault.update(VaultMessage::Sign(SignMessage::Sign)), Command::Nothing));
}

#[test]
fn failed_chain_submission_keeps_signatures_for_retry() {
    let mut vault = fully_signed_vault();
    vault.update(VaultMessage::Signed(outpoint(), TransactionKind::Cancel, Err("down".to_string())));
    match &vault.section {
        VaultSection::Acknowledge { chain } => {
            assert!(chain.cancel_tx.1 && chain.emergency_unvault_tx.1 && chain.emergency_tx.1);
            assert!(!chain.submitting && !chain.done);
            assert!(chain.warning.is_some());
        }
        _ => panic!("expected the revocation chain"),
    }
    assert!(matches!(
        vault.update(VaultMessage::Sign(SignMessage::Sign)),
        Command::SetRevocationTransactions { .. }
    ));
    vault.update(VaultMessage::Signed(outpoint(), TransactionKind::Cancel, Ok(())));
    match &vault.section {
        VaultSection::Acknowledge { chain } => {
            assert!(chain.done);
            assert_eq!(chain.signer.sharing_status, SignatureSharingStatus::Success);
        }
        _ => panic!("expected the revocation chain"),
    }
}

#[test]
fn funded_vault_acknowledgement_end_to_end() {
    let mut vault = Vault::new(funded_vault());
    assert!(matches!(vault.load(), Command::GetOnchainTransactions(ref o) if o.vout == 1));
    let cmd = vault.update(VaultMessage::Acknowledge(outpoint()));
    assert!(matches!(cmd, Command::GetRevocationTransactions(_)));
    vault.update(VaultMessage::RevocationTransactions(outpoint(), Ok(revocations())));
    let mut submissions = 0;
    for lock_time in 1..=3u32 {
        vault.update(VaultMessage::Sign(SignMessage::ChangeMethod));
        if let Command::SetRevocationTransactions { .. } = sign_in_vault(&mut vault, lock_time) {
            submissions += 1;
        }
    }
    assert_eq!(submissions, 1);
}

#[test]
fn requests_for_another_vault_are_ignored() {
    let mut vault = Vault::new(funded_vault());
    let other = OutPoint { txid: "bb".repeat(32), vout: 1 };
    assert!(matches!(vault.update(VaultMessage::Delegate(other)), Command::Nothing));
    let other = OutPoint { txid: "aa".repeat(32), vout: 2 };
    vault.update(VaultMessage::RevocationTransactions(other, Ok(revocations())));
    assert!(matches!(vault.section, VaultSection::Unloaded));
}

#[test]
fn delegation_submits_signed_unvault() {
    let mut vault = Vault::new(funded_vault());
    let cmd = vault.update(VaultMessage::Delegate(outpoint()));
    assert!(matches!(cmd, Command::GetUnvaultTransaction(_)));
    vault.update(VaultMessage::UnvaultTransaction(outpoint(), Ok(to_lib(&unsigned_psbt(9)))));
    vault.update(VaultMessage::Sign(SignMessage::ChangeMethod));
    match sign_in_vault(&mut vault, 9) {
        Command::SetUnvaultTransaction(o, psbt) => {
            assert_eq!(o.vout, 1);
            assert_eq!(
                psbt.bytes(),
                bitcoin::consensus::encode::serialize(&signed_psbt(9)).as_slice()
            );
        }
        _ => panic!("expected the signed unvault transaction"),
    }
    vault.update(VaultMessage::Signed(outpoint(), TransactionKind::Unvault, Err("no".to_string())));
    match &vault.section {
        VaultSection::Delegate { warning, signer } => {
            assert!(warning.is_some());
            assert!(signer.signed_psbt.is_some());
        }
        _ => panic!("expected the delegation"),
    }
}

#[test]
fn daemon_error_sets_vault_warning() {
    let mut vault = Vault::new(funded_vault());
    vault.update(VaultMessage::OnChainTransactions(outpoint(), Err("boom".to_string())));
    assert_eq!(vault.warning, Some(revault_gui::error::Error::RevaultDError("boom".to_string())));
    assert!(matches!(vault.section, VaultSection::Unloaded));
}
