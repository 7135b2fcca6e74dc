use bitcoin::blockdata::script::Script;
use bitcoin::blockdata::transaction::{OutPoint as TxOutPoint, Transaction, TxIn, TxOut};
use bitcoin::util::psbt::PartiallySignedTransaction;
use revault_gui::command::Command;
use revault_gui::error::Error;
use revault_gui::model::{Vault as VaultInfo, VaultStatus};
use revault_gui::psbt::Psbt;
use revault_gui::sign::{SignMessage, TransactionKind};
use revault_gui::spend::{
    merge_outputs, output_amounts, output_map, InputMessage, ManagerCreateSendTransactionState, ManagerImportSendTransactionState,
    ManagerSendInput, ManagerSendOutput, ManagerSendState, ManagerSendStep, RecipientMessage,
    SendMessage,
};

const ADDRESS: &str = "1BvBMSEYstWetqTFn5Au4m4GFg7xJaNVN2";
const OTHER_ADDRESS: &str = "3J98t1WpEZ73CNmQviecrnyiWrnqRhWNLy";

fn psbt(lock_time: u32) -> Psbt {
    let tx = Transaction {
        version: 2,
        lock_time,
        input: vec![TxIn {
            previous_output: TxOutPoint::default(),
            script_sig: Script::new(),
            sequence: 0xffff_ffff,
            witness: vec![],
        }],
        output: vec![TxOut { value: 10_000, script_pubkey: Script::new() }],
    };
    let psbt = PartiallySignedTransaction::from_unsigned_tx(tx).unwrap();
    Psbt::from_bytes(bitcoin::consensus::encode::serialize(&psbt)).unwrap()
}

fn vault(byte: &str, amount: u64, status: VaultStatus) -> VaultInfo {
    VaultInfo {
        amount,
        status,
        txid: byte.repeat(32),
        vout: 0,
        address: String::new(),
        updated_at: 0,
    }
}

fn output(address: &str, amount: &str) -> ManagerSendOutput {
    let mut o = ManagerSendOutput::new();
    o.update(RecipientMessage::AddressEdited(address.to_string()));
    o.update(RecipientMessage::AmountEdited(amount.to_string()));
    o
}

fn builder_with_inputs() -> ManagerCreateSendTransactionState {
    let mut state = ManagerCreateSendTransactionState::new();
    state.update(SendMessage::Vaults(Ok(vec![
        vault("aa", 300_000, VaultStatus::Active),
        vault("bb", 200_000, VaultStatus::Active),
    ])));
    state.update(SendMessage::Input(0, InputMessage::Selected(true)));
    state.update(SendMessage::Input(1, InputMessage::Selected(true)));
    state.update(SendMessage::Recipient(0, RecipientMessage::AddressEdited(ADDRESS.to_string())));
    state.update(SendMessage::Recipient(0, RecipientMessage::AmountEdited("0.004".to_string())));
    state
}

#[test]
fn spend_proposal_end_to_end() {
    let mut state = builder_with_inputs();
    assert_eq!(state.input_amount(), 500_000);
    assert_eq!(state.output_amount(), 400_000);
    match state.update(SendMessage::Generate) {
        Command::GetSpendTransaction { inputs, outputs, feerate } => {
            assert_eq!(inputs.len(), 2);
            assert_eq!(inputs[0].txid, "aa".repeat(32));
            assert_eq!(inputs[1].txid, "bb".repeat(32));
            assert_eq!(outputs, vec![(ADDRESS.to_string(), 400_000)]);
            assert_eq!(feerate, 20);
        }
        _ => panic!("expected a proposal request"),
    }
    assert!(state.processing);
    state.update(SendMessage::FeerateEdited(30));
    assert_eq!(state.feerate, 20);
    state.update(SendMessage::SpendTransaction(Ok((psbt(5), 20))));
    assert!(!state.processing);
    assert!(state.psbt.is_some());
    state.update(SendMessage::FeerateEdited(25));
    assert_eq!(state.feerate, 25);
    assert!(state.psbt.is_none());
}

#[test]
fn editing_output_amount_clears_proposal() {
    let mut state = builder_with_inputs();
    state.update(SendMessage::Generate);
    state.update(SendMessage::SpendTransaction(Ok((psbt(5), 20))));
    assert!(state.psbt.is_some());
    state.update(SendMessage::Recipient(0, RecipientMessage::AmountEdited("0.001".to_string())));
    assert!(state.psbt.is_none());
}

#[test]
fn generate_without_inputs_reports_empty_selection() {
    let mut state = ManagerCreateSendTransactionState::new();
    state.update(SendMessage::Vaults(Ok(vec![vault("aa", 300_000, VaultStatus::Active)])));
    assert!(matches!(state.update(SendMessage::Generate), Command::Nothing));
    assert_eq!(state.warning, Some(Error::EmptySelection));
    assert!(!state.processing);
}

#[test]
fn generate_with_bad_amount_reports_validation_error() {
    let mut state = builder_with_inputs();
    state.update(SendMessage::Recipient(0, RecipientMessage::AmountEdited("abc".to_string())));
    assert!(state.outputs[0].warning_amount);
    assert!(matches!(state.update(SendMessage::Generate), Command::Nothing));
    assert_eq!(state.warning, Some(Error::ValidationError));
}

#[test]
fn repeated_address_keeps_last_amount() {
    let outputs = vec![
        output(ADDRESS, "0.001"),
        output(OTHER_ADDRESS, "0.002"),
        output(ADDRESS, "0.003"),
    ];
    let map = output_map(&outputs).unwrap();
    assert_eq!(map, vec![(ADDRESS.to_string(), 300_000), (OTHER_ADDRESS.to_string(), 200_000)]);
}

#[test]
fn output_fields_are_checked() {
    let o = output(ADDRESS, "1.5");
    assert!(!o.warning_address && !o.warning_amount);
    assert_eq!(o.amount(), Ok(150_000_000));
    assert!(o.valid());
    let bad = output("not an address", "-1");
    assert!(bad.warning_address && bad.warning_amount);
    assert!(!bad.valid());
    assert_eq!(ManagerSendOutput::new().amount(), Ok(0));
}

#[test]
fn late_proposal_after_edit_is_ignored() {
    let mut state = builder_with_inputs();
    state.update(SendMessage::Generate);
    state.update(SendMessage::Input(1, InputMessage::Selected(false)));
    state.update(SendMessage::SpendTransaction(Ok((psbt(5), 20))));
    assert!(state.psbt.is_none());
    assert_eq!(state.input_amount(), 300_000);
}

#[test]
fn final_signature_replaces_proposal() {
    let mut state = builder_with_inputs();
    state.update(SendMessage::Generate);
    state.update(SendMessage::SpendTransaction(Ok((psbt(5), 20))));
    for _ in 0..4 {
        state.update(SendMessage::Next);
    }
    match &state.step {
        ManagerSendStep::Sign { signer } => assert_eq!(signer.transaction_kind, TransactionKind::Spend),
        _ => panic!("expected the signing step"),
    }
    state.update(SendMessage::Sign(SignMessage::ChangeMethod));
    let text = bitcoin::base64::encode(psbt(5).bytes());
    state.update(SendMessage::Sign(SignMessage::PsbtEdited(text)));
    assert!(matches!(
        state.update(SendMessage::Sign(SignMessage::Sign)),
        Command::UpdateSpendTransaction(_)
    ));
    state.update(SendMessage::Signed(Ok(())));
    assert!(matches!(state.step, ManagerSendStep::Success));
    assert_eq!(state.psbt.as_ref().unwrap().1, 20);
}

#[test]
fn steps_move_back_and_forth() {
    let mut state = ManagerCreateSendTransactionState::new();
    state.update(SendMessage::Next);
    assert!(matches!(state.step, ManagerSendStep::SelectOutputs));
    state.update(SendMessage::Next);
    state.update(SendMessage::Next);
    assert!(matches!(state.step, ManagerSendStep::SelectFee));
    state.update(SendMessage::Next);
    assert!(matches!(state.step, ManagerSendStep::SelectFee));
    state.update(SendMessage::Previous);
    assert!(matches!(state.step, ManagerSendStep::SelectInputs));
    state.update(SendMessage::AddRecipient);
    assert_eq!(state.outputs.len(), 2);
    state.update(SendMessage::Recipient(1, RecipientMessage::Delete));
    assert_eq!(state.outputs.len(), 1);
}

#[test]
fn input_selection_toggles() {
    let mut input = ManagerSendInput::new(vault("aa", 1, VaultStatus::Active));
    assert!(!input.selected);
    input.update(InputMessage::Selected(true));
    assert!(input.selected);
}

#[test]
fn import_forwards_decoded_psbt() {
    let mut state = ManagerImportSendTransactionState::new();
    state.update(SendMessage::Import);
    assert_eq!(state.warning, Some(Error::InvalidPsbt));
    state.update(SendMessage::PsbtEdited("zzz".to_string()));
    assert!(state.warning.is_none());
    state.update(SendMessage::Import);
    assert_eq!(state.warning, Some(Error::InvalidPsbt));
    let text = bitcoin::base64::encode(psbt(3).bytes());
    state.update(SendMessage::PsbtEdited(text));
    assert!(matches!(state.update(SendMessage::Import), Command::UpdateSpendTransaction(_)));
    state.update(SendMessage::Updated(Ok(())));
    assert!(state.psbt_imported.is_some());
}

#[test]
fn send_screen_switches_to_import() {
    let mut state = ManagerSendState::new();
    match state.load() {
        Command::ListVaults(Some(statuses)) => assert_eq!(statuses, vec![VaultStatus::Active]),
        _ => panic!("expected a listing of active vaults"),
    }
    state.update(SendMessage::Import);
    assert!(matches!(state, ManagerSendState::ImportSendTransaction(_)));
    state.update(SendMessage::Select(psbt(1)));
    assert!(matches!(state, ManagerSendState::SendTransactionDetail(_)));
}

#[test]
fn merge_keeps_first_position_and_last_amount() {
    let mut a = ManagerSendOutput::new();
    a.address = "a".to_string();
    let mut b = ManagerSendOutput::new();
    b.address = "b".to_string();
    let outputs = vec![a, b, {
        let mut again = ManagerSendOutput::new();
        again.address = "a".to_string();
        again
    }];
    let merged = merge_outputs(&outputs, &vec![5, 6, 7]);
    assert_eq!(merged, vec![("a".to_string(), 7), ("b".to_string(), 6)]);
    assert!(merge_outputs(&vec![], &vec![]).is_empty());
}

#[test]
fn amounts_of_outputs() {
    let outputs = vec![output(ADDRESS, "0.5"), output(OTHER_ADDRESS, ""), output(ADDRESS, "21")];
    assert_eq!(output_amounts(&outputs), Ok(vec![50_000_000, 0, 2_100_000_000]));
    let outputs = vec![output(ADDRESS, "0.5"), output(ADDRESS, "0.000000001")];
    assert_eq!(output_amounts(&outputs), Err(Error::ValidationError));
}
