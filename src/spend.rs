//! Assembling a spend: inputs, outputs and feerate, a proposal built by the
//! daemon, and its final signature.

use vstd::prelude::*;
use crate::command::Command;
use crate::error::Error;
use crate::model::{self, OutPoint, VaultStatus, total_amount};
use crate::psbt::{Psbt, opt_view, psbt_of_text};
use crate::chain::fresh_signer;
use crate::sign::{SignMessage, SignState, TransactionKind};

verus! {

/// The number of satoshis that decimal text states in bitcoins, or `None`
/// where the text does not parse as a non-negative amount.
pub uninterp spec fn btc_amount_sats(text: Seq<char>) -> Option<u64>;

/// Whether text is a valid Bitcoin address.
pub uninterp spec fn is_valid_address(text: Seq<char>) -> bool;

/// Relies on `bitcoin::Amount::from_str_in` with `Denomination::Bitcoin` and
/// `Amount::as_sat`: it refuses empty text, and amounts above `i64::MAX`
/// satoshis.
#[verifier::external_body]
fn parse_btc_amount(text: &str) -> (r: Option<u64>)
    ensures
        r == btc_amount_sats(text@),
        text@.len() == 0 ==> r is None,
        r is Some ==> r.unwrap() <= i64::MAX,
{
    bitcoin::Amount::from_str_in(text, bitcoin::Denomination::Bitcoin).ok().map(|a| a.as_sat())
}

/// Relies on `<bitcoin::Address as FromStr>::from_str`: whether the text
/// parses as an address.
#[verifier::external_body]
fn parse_address(text: &str) -> (r: bool)
    ensures
        r == is_valid_address(text@),
{
    <bitcoin::Address as std::str::FromStr>::from_str(text).is_ok()
}

/// The amount of an output: nothing typed counts as zero.
pub open spec fn output_amount_of(text: Seq<char>) -> Option<u64> {
    if text.len() == 0 {
        Some(0)
    } else {
        btc_amount_sats(text)
    }
}

/// An edit of one recipient.
pub enum RecipientMessage {
    AddressEdited(String),
    AmountEdited(String),
    Delete,
}

/// An edit of one input.
pub enum InputMessage {
    Selected(bool),
}

/// A recipient of a spend, as typed: an address and an amount in bitcoins,
/// each with a flag raised when the text does not parse.
pub struct ManagerSendOutput {
    pub address: String,
    pub amount: String,
    pub warning_address: bool,
    pub warning_amount: bool,
}

/// `post` is the output `pre` after the edit: a flag is recomputed when its
/// field is edited to non-empty text.
pub open spec fn output_updated(pre: ManagerSendOutput, post: ManagerSendOutput, message: RecipientMessage) -> bool {
    match message {
        RecipientMessage::AddressEdited(a) => {
            &&& post.address@ == a@
            &&& post.amount@ == pre.amount@
            &&& post.warning_amount == pre.warning_amount
            &&& post.warning_address == if a@.len() > 0 {
                !is_valid_address(a@)
            } else {
                pre.warning_address
            }
        },
        RecipientMessage::AmountEdited(a) => {
            &&& post.amount@ == a@
            &&& post.address@ == pre.address@
            &&& post.warning_address == pre.warning_address
            &&& post.warning_amount == if a@.len() > 0 {
                btc_amount_sats(a@) is None
            } else {
                pre.warning_amount
            }
        },
        RecipientMessage::Delete => post == pre,
    }
}

impl ManagerSendOutput {
    pub fn new() -> (r: ManagerSendOutput)
        ensures
            r.address@.len() == 0,
            r.amount@.len() == 0,
            !r.warning_address,
            !r.warning_amount,
    {
        ManagerSendOutput {
            address: String::new(),
            amount: String::new(),
            warning_address: false,
            warning_amount: false,
        }
    }

    /// The amount in satoshis; zero when nothing is typed.
    pub fn amount(&self) -> (r: Result<u64, Error>)
        ensures
            match output_amount_of(self.amount@) {
                Some(a) => r == Ok::<u64, Error>(a),
                None => r == Err::<u64, Error>(Error::ValidationError),
            },
    {
        if self.amount.as_str().is_empty() {
            return Ok(0);
        }
        match parse_btc_amount(self.amount.as_str()) {
            Some(a) => Ok(a),
            None => Err(Error::ValidationError),
        }
    }

    /// Whether both fields are typed and parse.
    pub fn valid(&self) -> (r: bool)
        ensures
            r == (self.address@.len() > 0 && !self.warning_address && self.amount@.len() > 0
                && !self.warning_amount),
    {
        !self.address.as_str().is_empty() && !self.warning_address
            && !self.amount.as_str().is_empty() && !self.warning_amount
    }

    /// Applies an edit. A flag is recomputed when its field is edited to
    /// non-empty text.
    pub fn update(&mut self, message: RecipientMessage)
        ensures
            output_updated(*old(self), *final(self), message),
    {
        match message {
            RecipientMessage::AddressEdited(address) => {
                self.address = address;
                if !self.address.as_str().is_empty() {
                    self.warning_address = !parse_address(self.address.as_str());
                }
            },
            RecipientMessage::AmountEdited(amount) => {
                self.amount = amount;
                if !self.amount.as_str().is_empty() {
                    self.warning_amount = self.amount().is_err();
                }
            },
            RecipientMessage::Delete => {},
        }
    }
}

/// A vault that may be spent, and whether it is selected.
pub struct ManagerSendInput {
    pub vault: model::Vault,
    pub selected: bool,
}

impl ManagerSendInput {
    pub fn new(vault: model::Vault) -> (r: ManagerSendInput)
        ensures
            r.vault == vault,
            !r.selected,
    {
        ManagerSendInput { vault, selected: false }
    }

    pub fn update(&mut self, msg: InputMessage)
        ensures
            final(self).vault == old(self).vault,
            final(self).selected == msg->Selected_0,
    {
        match msg {
            InputMessage::Selected(selected) => self.selected = selected,
        }
    }
}

/// The vaults of the inputs.
pub open spec fn input_vaults(inputs: Seq<ManagerSendInput>) -> Seq<model::Vault> {
    inputs.map_values(|i: ManagerSendInput| i.vault)
}

/// The selected inputs' vaults, in order.
pub open spec fn selected_vaults(inputs: Seq<ManagerSendInput>) -> Seq<model::Vault>
    decreases inputs.len(),
{
    if inputs.len() == 0 {
        Seq::empty()
    } else if inputs.last().selected {
        selected_vaults(inputs.drop_last()).push(inputs.last().vault)
    } else {
        selected_vaults(inputs.drop_last())
    }
}

/// Whether every output amount parses.
pub open spec fn amounts_parse(outputs: Seq<ManagerSendOutput>) -> bool {
    forall|i: int| 0 <= i < outputs.len() ==> (#[trigger] output_amount_of(outputs[i].amount@))
        is Some
}

/// The amounts of the outputs, where all parse.
pub open spec fn parsed_amounts(outputs: Seq<ManagerSendOutput>) -> Seq<u64> {
    Seq::new(outputs.len(), |i: int| output_amount_of(outputs[i].amount@).unwrap())
}

/// The amount of the last output paying `address`, where the output at
/// position `k` pays `amounts[k]`: an address given twice is paid what its
/// last output says.
pub open spec fn last_amount_for(
    outputs: Seq<ManagerSendOutput>,
    amounts: Seq<u64>,
    address: Seq<char>,
) -> u64
    decreases outputs.len(),
{
    if outputs.len() == 0 {
        0
    } else if outputs.last().address@ == address {
        amounts[outputs.len() - 1]
    } else {
        last_amount_for(outputs.drop_last(), amounts, address)
    }
}

/// Whether some output pays `address`.
pub open spec fn pays(outputs: Seq<ManagerSendOutput>, address: Seq<char>) -> bool {
    exists|i: int| 0 <= i < outputs.len() && #[trigger] outputs[i].address@ == address
}

/// `pairs` maps each address that `outputs` pays, once, to the amount of
/// its last output, where the output at position `k` pays `amounts[k]`.
pub open spec fn is_merge(
    pairs: Seq<(String, u64)>,
    outputs: Seq<ManagerSendOutput>,
    amounts: Seq<u64>,
) -> bool {
    &&& forall|i: int, j: int|
        0 <= i < j < pairs.len() ==> (#[trigger] pairs[i]).0@ != (#[trigger] pairs[j]).0@
    &&& forall|i: int|
        0 <= i < pairs.len() ==> #[trigger] pays(outputs, pairs[i].0@) && pairs[i].1
            == last_amount_for(outputs, amounts, pairs[i].0@)
    &&& forall|a: Seq<char>|
        #[trigger] pays(outputs, a) ==> exists|i: int| 0 <= i < pairs.len() && pairs[i].0@ == a
}

/// `pairs` is the map from each address that `outputs` pays to the amount
/// its last output states, with each address once.
pub open spec fn is_output_map(pairs: Seq<(String, u64)>, outputs: Seq<ManagerSendOutput>) -> bool {
    is_merge(pairs, outputs, parsed_amounts(outputs))
}

/// The step of the assistant that builds a spend.
pub enum ManagerSendStep {
    WelcomeUser,
    SelectOutputs,
    SelectInputs,
    SelectFee,
    Sign { signer: SignState },
    Success,
}

/// An event for the spend assistant.
pub enum SendMessage {
    /// The daemon's answer to a proposal request: the PSBT and its feerate.
    SpendTransaction(Result<(Psbt, u32), String>),
    Generate,
    FeerateEdited(u32),
    Vaults(Result<Vec<model::Vault>, String>),
    /// The daemon's answer to the submission of the signed spend.
    Signed(Result<(), String>),
    Sign(SignMessage),
    Next,
    Previous,
    AddRecipient,
    Recipient(usize, RecipientMessage),
    Input(usize, InputMessage),
    /// Switch to importing a transaction assembled elsewhere.
    Import,
    PsbtEdited(String),
    /// The daemon's answer to the update of an imported spend.
    Updated(Result<(), String>),
    Select(Psbt),
}

/// The outpoints of the vaults.
pub open spec fn outpoints_of(vaults: Seq<model::Vault>) -> Seq<(Seq<char>, u32)> {
    vaults.map_values(|v: model::Vault| v.outpoint_view())
}

/// The views of outpoints.
pub open spec fn outpoint_views(outpoints: Seq<OutPoint>) -> Seq<(Seq<char>, u32)> {
    outpoints.map_values(|o: OutPoint| o@)
}

/// The sum of the output amounts that parse.
pub open spec fn outputs_total(outputs: Seq<ManagerSendOutput>) -> nat
    decreases outputs.len(),
{
    if outputs.len() == 0 {
        0
    } else {
        outputs_total(outputs.drop_last()) + match output_amount_of(outputs.last().amount@) {
            Some(a) => a as nat,
            None => 0,
        }
    }
}

/// The selected vaults hold no more than all the vaults.
pub proof fn lemma_selected_bounded(inputs: Seq<ManagerSendInput>)
    ensures
        total_amount(selected_vaults(inputs)) <= total_amount(input_vaults(inputs)),
    decreases inputs.len(),
{
    if inputs.len() > 0 {
        lemma_selected_bounded(inputs.drop_last());
        assert(input_vaults(inputs).drop_last() =~= input_vaults(inputs.drop_last()));
        let sel = selected_vaults(inputs.drop_last());
        if inputs.last().selected {
            assert(sel.push(inputs.last().vault).drop_last() =~= sel);
        }
    }
}

/// One more output extends what the sums and maps say of a prefix.
proof fn lemma_output_step(outputs: Seq<ManagerSendOutput>, i: int)
    requires
        0 <= i < outputs.len(),
    ensures
        outputs.subrange(0, i + 1).drop_last() == outputs.subrange(0, i),
        outputs.subrange(0, i + 1).last() == outputs[i],
        forall|a: Seq<char>|
            #[trigger] pays(outputs.subrange(0, i + 1), a) <==> pays(outputs.subrange(0, i), a)
                || outputs[i].address@ == a,
{
    let p = outputs.subrange(0, i);
    let q = outputs.subrange(0, i + 1);
    assert(q.drop_last() =~= p);
    assert forall|a: Seq<char>| #[trigger] pays(q, a) <==> pays(p, a) || outputs[i].address@
        == a by {
        if pays(q, a) {
            let k = choose|k: int| 0 <= k < q.len() && #[trigger] q[k].address@ == a;
            if k < i {
                assert(p[k] == q[k]);
            }
        }
        if pays(p, a) {
            let k = choose|k: int| 0 <= k < p.len() && #[trigger] p[k].address@ == a;
            assert(q[k] == p[k]);
        }
        if outputs[i].address@ == a {
            assert(q[i] == outputs[i]);
        }
    }
}

/// The map from each address paid to its amount, where the output at
/// position `k` pays `amounts[k]`: each address once, in the order of first
/// appearance, with the amount of its last output.
pub fn merge_outputs(outputs: &Vec<ManagerSendOutput>, amounts: &Vec<u64>) -> (r: Vec<(String, u64)>)
    requires
        amounts@.len() == outputs@.len(),
    ensures
        is_merge(r@, outputs@, amounts@),
{
    let mut pairs: Vec<(String, u64)> = Vec::new();
    let mut i: usize = 0;
    while i < outputs.len()
        invariant
            i <= outputs.len(),
            amounts@.len() == outputs@.len(),
            is_merge(pairs@, outputs@.subrange(0, i as int), amounts@),
        decreases outputs.len() - i,
    {
        let ghost p = outputs@.subrange(0, i as int);
        let ghost q = outputs@.subrange(0, i + 1);
        proof {
            lemma_output_step(outputs@, i as int);
        }
        let output = &outputs[i];
        let amount = amounts[i];
        let mut j: usize = 0;
        let mut found = false;
        while j < pairs.len() && !found
            invariant
                j <= pairs.len(),
                forall|m: int| 0 <= m < j ==> (#[trigger] pairs@[m]).0@ != output.address@,
                found ==> j < pairs.len() && pairs@[j as int].0@ == output.address@,
            decreases pairs.len() - j + if found { 0int } else { 1int },
        {
            if pairs[j].0 == output.address {
                found = true;
            } else {
                j = j + 1;
            }
        }
        let ghost old_pairs = pairs@;
        if found {
            let key = pairs[j].0.clone();
            pairs.set(j, (key, amount));
            assert forall|a: int, b: int| 0 <= a < b < pairs@.len() implies (
            #[trigger] pairs@[a]).0@ != (#[trigger] pairs@[b]).0@ by {
                assert(old_pairs[a].0@ != old_pairs[b].0@);
            }
            assert forall|m: int| 0 <= m < pairs@.len() implies #[trigger] pays(
                q,
                pairs@[m].0@,
            ) && pairs@[m].1 == last_amount_for(q, amounts@, pairs@[m].0@) by {
                assert(pays(p, old_pairs[m].0@));
            }
            assert forall|a: Seq<char>| #[trigger] pays(q, a) implies exists|m: int|
                0 <= m < pairs@.len() && pairs@[m].0@ == a by {
                if pays(p, a) {
                    let m = choose|m: int| 0 <= m < old_pairs.len() && old_pairs[m].0@ == a;
                    assert(pairs@[m].0@ == a);
                } else {
                    assert(pairs@[j as int].0@ == a);
                }
            }
        } else {
            pairs.push((output.address.clone(), amount));
            assert forall|a: int, b: int| 0 <= a < b < pairs@.len() implies (
            #[trigger] pairs@[a]).0@ != (#[trigger] pairs@[b]).0@ by {
                if b < old_pairs.len() {
                    assert(old_pairs[a].0@ != old_pairs[b].0@);
                } else {
                    assert(old_pairs[a].0@ != output.address@);
                }
            }
            assert forall|m: int| 0 <= m < pairs@.len() implies #[trigger] pays(
                q,
                pairs@[m].0@,
            ) && pairs@[m].1 == last_amount_for(q, amounts@, pairs@[m].0@) by {
                if m < old_pairs.len() {
                    assert(pays(p, old_pairs[m].0@));
                    assert(old_pairs[m].0@ != output.address@);
                }
            }
            assert forall|a: Seq<char>| #[trigger] pays(q, a) implies exists|m: int|
                0 <= m < pairs@.len() && pairs@[m].0@ == a by {
                if pays(p, a) {
                    let m = choose|m: int| 0 <= m < old_pairs.len() && old_pairs[m].0@ == a;
                    assert(pairs@[m].0@ == a);
                } else {
                    assert(pairs@[old_pairs.len() as int].0@ == a);
                }
            }
        }
        i = i + 1;
    }
    assert(outputs@.subrange(0, outputs@.len() as int) =~= outputs@);
    pairs
}

/// The amounts of the outputs in satoshis, or an error where one does not
/// parse.
pub fn output_amounts(outputs: &Vec<ManagerSendOutput>) -> (r: Result<Vec<u64>, Error>)
    ensures
        r is Ok <==> amounts_parse(outputs@),
        r is Err ==> r == Err::<Vec<u64>, Error>(Error::ValidationError),
        r is Ok ==> r.unwrap()@ == parsed_amounts(outputs@),
{
    let mut amounts: Vec<u64> = Vec::new();
    let mut i: usize = 0;
    while i < outputs.len()
        invariant
            i <= outputs.len(),
            amounts@ == parsed_amounts(outputs@).subrange(0, i as int),
            forall|k: int| 0 <= k < i ==> (#[trigger] output_amount_of(outputs@[k].amount@)) is Some,
        decreases outputs.len() - i,
    {
        match outputs[i].amount() {
            Ok(a) => amounts.push(a),
            Err(e) => {
                return Err(e);
            },
        }
        assert(amounts@ =~= parsed_amounts(outputs@).subrange(0, i + 1));
        i = i + 1;
    }
    assert(parsed_amounts(outputs@).subrange(0, outputs@.len() as int) =~= parsed_amounts(outputs@));
    Ok(amounts)
}

/// The map from each address paid to its amount, last write winning, or
/// an error where an amount does not parse.
pub fn output_map(outputs: &Vec<ManagerSendOutput>) -> (r: Result<Vec<(String, u64)>, Error>)
    ensures
        r is Ok <==> amounts_parse(outputs@),
        r is Err ==> r == Err::<Vec<(String, u64)>, Error>(Error::ValidationError),
        r is Ok ==> is_output_map(r.unwrap()@, outputs@),
{
    match output_amounts(outputs) {
        Ok(amounts) => Ok(merge_outputs(outputs, &amounts)),
        Err(e) => Err(e),
    }
}

/// `post` is the assistant `pre` after a request for a proposal, and `r`
/// the request that follows: nothing while one is in flight; otherwise an
/// empty selection or an unparsed amount is reported with nothing else
/// changed, or the proposal is asked for, with the request in flight.
pub open spec fn generated(
    pre: ManagerCreateSendTransactionState,
    post: ManagerCreateSendTransactionState,
    r: Command,
) -> bool {
    &&& post.vaults == pre.vaults
    &&& post.outputs == pre.outputs
    &&& post.feerate == pre.feerate
    &&& post.psbt == pre.psbt
    &&& post.step == pre.step
    &&& pre.processing ==> post == pre && r is Nothing
    &&& !pre.processing && (pre.selected().len() == 0 || pre.outputs@.len() == 0) ==> {
        &&& r is Nothing
        &&& post.warning == Some(Error::EmptySelection)
        &&& !post.processing
    }
    &&& !pre.processing && pre.selected().len() > 0 && pre.outputs@.len() > 0 && !amounts_parse(
        pre.outputs@,
    ) ==> {
        &&& r is Nothing
        &&& post.warning == Some(Error::ValidationError)
        &&& !post.processing
    }
    &&& !pre.processing && pre.selected().len() > 0 && pre.outputs@.len() > 0 && amounts_parse(
        pre.outputs@,
    ) ==> {
        &&& r is GetSpendTransaction
        &&& outpoint_views(r->GetSpendTransaction_inputs@) == outpoints_of(pre.selected())
        &&& is_output_map(r->GetSpendTransaction_outputs@, pre.outputs@)
        &&& r->GetSpendTransaction_feerate == pre.feerate
        &&& post.processing
        &&& post.warning is None
    }
}

/// The assistant that builds a spend: the inputs offered and selected, the
/// outputs, the feerate, and the proposal that the daemon built for them.
/// Any edit of inputs, outputs or feerate drops the proposal.
pub struct ManagerCreateSendTransactionState {
    pub warning: Option<Error>,
    pub vaults: Vec<ManagerSendInput>,
    pub outputs: Vec<ManagerSendOutput>,
    pub feerate: u32,
    /// The proposal and its feerate, as the daemon built them.
    pub psbt: Option<(Psbt, u32)>,
    /// A proposal request is in flight.
    pub processing: bool,
    pub step: ManagerSendStep,
}

impl ManagerCreateSendTransactionState {
    pub open spec fn wf(&self) -> bool {
        &&& total_amount(input_vaults(self.vaults@)) <= u64::MAX
        &&& self.step is Sign ==> self.step->Sign_signer.wf()
            && self.step->Sign_signer.transaction_kind == TransactionKind::Spend
    }

    /// The proposal, as a model.
    pub open spec fn proposal(&self) -> Option<(Seq<u8>, u32)> {
        match self.psbt {
            Some((p, f)) => Some((p@, f)),
            None => None,
        }
    }

    pub open spec fn selected(&self) -> Seq<model::Vault> {
        selected_vaults(self.vaults@)
    }

    pub fn new() -> (r: ManagerCreateSendTransactionState)
        ensures
            r.wf(),
            r.step is WelcomeUser,
            r.warning is None,
            r.vaults@.len() == 0,
            r.outputs@.len() == 1,
            r.outputs@[0].address@.len() == 0 && r.outputs@[0].amount@.len() == 0,
            r.feerate == 20,
            r.psbt is None,
            !r.processing,
    {
        let r = ManagerCreateSendTransactionState {
            warning: None,
            vaults: Vec::new(),
            outputs: vec![ManagerSendOutput::new()],
            feerate: 20,
            psbt: None,
            processing: false,
            step: ManagerSendStep::WelcomeUser,
        };
        assert(input_vaults(r.vaults@) =~= Seq::<model::Vault>::empty());
        r
    }

    /// Offers these vaults as inputs, none selected.
    pub fn update_vaults(&mut self, vaults: Vec<model::Vault>)
        requires
            old(self).wf(),
            total_amount(vaults@) <= u64::MAX,
        ensures
            final(self).wf(),
            input_vaults(final(self).vaults@) == vaults@,
            forall|i: int| 0 <= i < final(self).vaults@.len() ==> !(#[trigger] final(self).vaults@[i]).selected,
            final(self).outputs == old(self).outputs,
            final(self).feerate == old(self).feerate,
            final(self).psbt == old(self).psbt,
            final(self).processing == old(self).processing,
            final(self).step == old(self).step,
            final(self).warning == old(self).warning,
    {
        let mut inputs: Vec<ManagerSendInput> = Vec::new();
        let mut i: usize = 0;
        while i < vaults.len()
            invariant
                i <= vaults.len(),
                input_vaults(inputs@) == vaults@.subrange(0, i as int),
                forall|k: int| 0 <= k < inputs@.len() ==> !(#[trigger] inputs@[k]).selected,
            decreases vaults.len() - i,
        {
            let ghost prev = inputs@;
            assert(input_vaults(prev).len() == prev.len());
            inputs.push(ManagerSendInput::new(vaults[i].duplicate()));
            assert(input_vaults(inputs@).len() == inputs@.len());
            assert(inputs@[i as int].vault == vaults@[i as int]);
            assert forall|k: int| 0 <= k < i + 1 implies #[trigger] input_vaults(inputs@)[k]
                == vaults@.subrange(0, i + 1)[k] by {
                if k < i {
                    assert(input_vaults(prev)[k] == vaults@.subrange(0, i as int)[k]);
                }
            }
            assert(input_vaults(inputs@) =~= vaults@.subrange(0, i + 1));
            i = i + 1;
        }
        assert(vaults@.subrange(0, vaults@.len() as int) =~= vaults@);
        self.vaults = inputs;
    }

    /// The selected inputs' vaults, in order.
    pub fn selected_inputs(&self) -> (r: Vec<model::Vault>)
        ensures
            r@ == self.selected(),
    {
        let mut r: Vec<model::Vault> = Vec::new();
        let mut i: usize = 0;
        while i < self.vaults.len()
            invariant
                i <= self.vaults.len(),
                r@ == selected_vaults(self.vaults@.subrange(0, i as int)),
            decreases self.vaults.len() - i,
        {
            assert(self.vaults@.subrange(0, i + 1).drop_last() =~= self.vaults@.subrange(0, i as int));
            if self.vaults[i].selected {
                r.push(self.vaults[i].vault.duplicate());
            }
            i = i + 1;
        }
        assert(self.vaults@.subrange(0, self.vaults@.len() as int) =~= self.vaults@);
        r
    }

    /// The outpoints of the selected inputs, in order.
    pub fn selected_outpoints(&self) -> (r: Vec<OutPoint>)
        ensures
            outpoint_views(r@) == outpoints_of(self.selected()),
    {
        let mut r: Vec<OutPoint> = Vec::new();
        let mut i: usize = 0;
        while i < self.vaults.len()
            invariant
                i <= self.vaults.len(),
                outpoint_views(r@) == outpoints_of(selected_vaults(self.vaults@.subrange(0, i as int))),
            decreases self.vaults.len() - i,
        {
            let ghost before = selected_vaults(self.vaults@.subrange(0, i as int));
            assert(self.vaults@.subrange(0, i + 1).drop_last() =~= self.vaults@.subrange(0, i as int));
            if self.vaults[i].selected {
                let ghost prev = r@;
                assert(outpoint_views(prev).len() == prev.len());
                assert(outpoints_of(before).len() == before.len());
                r.push(self.vaults[i].vault.outpoint());
                let ghost after = before.push(self.vaults@[i as int].vault);
                assert(outpoint_views(r@).len() == r@.len());
                assert(outpoints_of(after).len() == after.len());
                assert forall|k: int| 0 <= k < r@.len() implies #[trigger] outpoint_views(r@)[k]
                    == outpoints_of(after)[k] by {
                    if k < prev.len() {
                        assert(outpoint_views(prev)[k] == outpoints_of(before)[k]);
                    }
                }
                assert(outpoint_views(r@) =~= outpoints_of(after));
            }
            i = i + 1;
        }
        assert(self.vaults@.subrange(0, self.vaults@.len() as int) =~= self.vaults@);
        r
    }

    /// The sum of the selected inputs' amounts.
    pub fn input_amount(&self) -> (r: u64)
        requires
            self.wf(),
        ensures
            r == total_amount(self.selected()),
    {
        let selected = self.selected_inputs();
        proof {
            lemma_selected_bounded(self.vaults@);
        }
        let mut sum: u64 = 0;
        let mut i: usize = 0;
        while i < selected.len()
            invariant
                i <= selected.len(),
                total_amount(selected@) <= u64::MAX,
                sum == total_amount(selected@.subrange(0, i as int)),
            decreases selected.len() - i,
        {
            proof {
                model::lemma_prefix_total_bounded(selected@, i + 1);
            }
            assert(selected@.subrange(0, i + 1).drop_last() =~= selected@.subrange(0, i as int));
            sum = sum + selected[i].amount;
            i = i + 1;
        }
        assert(selected@.subrange(0, selected@.len() as int) =~= selected@);
        sum
    }

    /// The sum of the output amounts that parse, saturating at `u64::MAX`.
    pub fn output_amount(&self) -> (r: u64)
        ensures
            r == if outputs_total(self.outputs@) <= u64::MAX {
                outputs_total(self.outputs@)
            } else {
                u64::MAX as nat
            },
    {
        let mut sum: u64 = 0;
        let mut saturated = false;
        let mut i: usize = 0;
        while i < self.outputs.len()
            invariant
                i <= self.outputs.len(),
                saturated <==> outputs_total(self.outputs@.subrange(0, i as int)) > u64::MAX,
                !saturated ==> sum == outputs_total(self.outputs@.subrange(0, i as int)),
                saturated ==> sum == u64::MAX,
            decreases self.outputs.len() - i,
        {
            assert(self.outputs@.subrange(0, i + 1).drop_last() =~= self.outputs@.subrange(0, i as int));
            if let Ok(a) = self.outputs[i].amount() {
                if !saturated {
                    match sum.checked_add(a) {
                        Some(s) => sum = s,
                        None => {
                            sum = u64::MAX;
                            saturated = true;
                        },
                    }
                }
            }
            i = i + 1;
        }
        assert(self.outputs@.subrange(0, self.outputs@.len() as int) =~= self.outputs@);
        sum
    }

    /// Asks the daemon for a proposal. Nothing is asked while a request is in
    /// flight, with no input selected or no output (the warning says so), or
    /// where an output amount does not parse (likewise).
    pub fn generate(&mut self) -> (r: Command)
        requires
            old(self).wf(),
        ensures
            final(self).wf(),
            generated(*old(self), *final(self), r),
    {
        if self.processing {
            return Command::Nothing;
        }
        let inputs = self.selected_outpoints();
        assert(outpoint_views(inputs@).len() == inputs@.len());
        assert(outpoints_of(self.selected()).len() == self.selected().len());
        if inputs.len() == 0 || self.outputs.len() == 0 {
            self.warning = Some(Error::EmptySelection);
            return Command::Nothing;
        }
        match output_map(&self.outputs) {
            Err(e) => {
                self.warning = Some(e);
                Command::Nothing
            },
            Ok(outputs) => {
                self.processing = true;
                self.warning = None;
                Command::GetSpendTransaction { inputs, outputs, feerate: self.feerate }
            },
        }
    }

    /// Applies one event to the assistant and says which request goes to the
    /// daemon next. Editing inputs or outputs drops the proposal and any
    /// proposal request in flight, whose late answer is then ignored; the
    /// feerate cannot be edited while a request is in flight.
    /// `post` is the assistant `pre` after the event, and `r` the request
    /// that follows.
    pub open spec fn updated(
        pre: ManagerCreateSendTransactionState,
        post: ManagerCreateSendTransactionState,
        message: SendMessage,
        r: Command,
    ) -> bool {
        match message {
            SendMessage::SpendTransaction(res) => {
                &&& r is Nothing
                &&& !post.processing
                &&& post.vaults == pre.vaults
                &&& post.outputs == pre.outputs
                &&& post.feerate == pre.feerate
                &&& !pre.processing ==> post == pre
                &&& pre.processing ==> match res {
                    Ok((p, f)) => post.proposal() == Some((p@, f)),
                    Err(e) => post.warning == Some(Error::RevaultDError(e))
                        && post.psbt == pre.psbt,
                }
            },
            SendMessage::Generate => generated(pre, post, r),
            SendMessage::FeerateEdited(f) => {
                &&& r is Nothing
                &&& if pre.processing {
                    post == pre
                } else {
                    post.feerate == f && post.psbt is None
                }
            },
            SendMessage::Vaults(res) => {
                &&& r is Nothing
                &&& match res {
                    Ok(v) => if total_amount(v@) <= u64::MAX {
                        &&& input_vaults(post.vaults@) == v@
                        &&& post.selected().len() == 0
                        &&& post.psbt is None
                        &&& !post.processing
                    } else {
                        post.warning == Some(Error::AmountOverflow)
                            && post.vaults == pre.vaults
                    },
                    Err(e) => post.warning == Some(Error::RevaultDError(e))
                        && post.vaults == pre.vaults,
                }
            },
            SendMessage::Signed(res) => {
                &&& r is Nothing
                &&& res is Err ==> post.warning == Some(Error::RevaultDError(res->Err_0))
                    && post.step == pre.step
                &&& res is Ok && pre.step is Sign && pre.psbt is Some
                    && pre.step->Sign_signer.signed_psbt is Some ==> {
                    &&& post.step is Success
                    &&& post.proposal() == Some(
                        (
                            pre.step->Sign_signer.signed_psbt.unwrap()@,
                            pre.psbt.unwrap().1,
                        ),
                    )
                }
            },
            SendMessage::Sign(msg) => if pre.step is Sign {
                &&& post.step is Sign
                &&& SignState::updated(pre.step->Sign_signer, post.step->Sign_signer, msg)
                &&& r is UpdateSpendTransaction <==> post.step->Sign_signer.signed_psbt is Some
                &&& r is UpdateSpendTransaction ==> r->UpdateSpendTransaction_0@
                    == post.step->Sign_signer.signed_psbt.unwrap()@
                &&& !(r is UpdateSpendTransaction) ==> r is Nothing
                &&& post.vaults == pre.vaults
                &&& post.outputs == pre.outputs
                &&& post.feerate == pre.feerate
                &&& post.psbt == pre.psbt
                &&& post.processing == pre.processing
                &&& post.warning == pre.warning
            } else {
                post == pre && r is Nothing
            },
            SendMessage::Next => {
                &&& r is Nothing
                &&& post.psbt == pre.psbt
                &&& pre.step is WelcomeUser ==> post.step is SelectOutputs
                &&& pre.step is SelectOutputs ==> post.step is SelectInputs
                &&& pre.step is SelectInputs ==> post.step is SelectFee
                &&& pre.step is SelectFee ==> if pre.psbt is Some {
                    &&& post.step is Sign
                    &&& post.step->Sign_signer.original_psbt@ == pre.psbt.unwrap().0@
                    &&& fresh_signer(
                        post.step->Sign_signer,
                        pre.psbt.unwrap().0@,
                        TransactionKind::Spend,
                    )
                } else {
                    post.step is SelectFee
                }
            },
            SendMessage::Previous => {
                &&& r is Nothing
                &&& post.psbt == pre.psbt
                &&& pre.step is SelectFee ==> post.step is SelectInputs
                &&& pre.step is Sign ==> post.step is SelectFee
                &&& !(pre.step is SelectFee || pre.step is Sign)
                    ==> post.step is SelectOutputs
            },
            SendMessage::AddRecipient => {
                &&& r is Nothing
                &&& post.outputs@.len() == pre.outputs@.len() + 1
                &&& post.outputs@.drop_last() == pre.outputs@
                &&& post.psbt is None
                &&& !post.processing
            },
            SendMessage::Recipient(i, RecipientMessage::Delete) => {
                &&& r is Nothing
                &&& post.psbt is None
                &&& !post.processing
                &&& i < pre.outputs@.len() ==> post.outputs@ == pre.outputs@.remove(i as int)
                &&& i >= pre.outputs@.len() ==> post.outputs == pre.outputs
            },
            SendMessage::Recipient(i, m) => {
                &&& r is Nothing
                &&& post.psbt is None
                &&& !post.processing
                &&& post.vaults == pre.vaults
                &&& post.feerate == pre.feerate
                &&& post.step == pre.step
                &&& i < pre.outputs@.len() ==> {
                    &&& post.outputs@ == pre.outputs@.update(i as int, post.outputs@[i as int])
                    &&& output_updated(pre.outputs@[i as int], post.outputs@[i as int], m)
                }
                &&& i >= pre.outputs@.len() ==> post.outputs == pre.outputs
            },
            SendMessage::Input(i, m) => {
                &&& r is Nothing
                &&& post.psbt is None
                &&& !post.processing
                &&& post.outputs == pre.outputs
                &&& post.feerate == pre.feerate
                &&& post.step == pre.step
                &&& i < pre.vaults@.len() ==> post.vaults@ == pre.vaults@.update(
                    i as int,
                    ManagerSendInput { vault: pre.vaults@[i as int].vault, selected: m->Selected_0 },
                )
                &&& i >= pre.vaults@.len() ==> post.vaults == pre.vaults
            },
            _ => post == pre && r is Nothing,
        }
    }

    pub fn update(&mut self, message: SendMessage) -> (r: Command)
        requires
            old(self).wf(),
        ensures
            final(self).wf(),
            ManagerCreateSendTransactionState::updated(*old(self), *final(self), message, r),
    {
        match message {
            SendMessage::SpendTransaction(res) => {
                if self.processing {
                    self.processing = false;
                    match res {
                        Ok((psbt, feerate)) => self.psbt = Some((psbt, feerate)),
                        Err(e) => self.warning = Some(Error::RevaultDError(e)),
                    }
                }
                Command::Nothing
            },
            SendMessage::Generate => self.generate(),
            SendMessage::FeerateEdited(feerate) => {
                if !self.processing {
                    self.feerate = feerate;
                    self.psbt = None;
                }
                Command::Nothing
            },
            SendMessage::Vaults(res) => {
                match res {
                    Ok(vaults) => {
                        if model::amounts_fit(vaults.as_slice()) {
                            self.update_vaults(vaults);
                            self.psbt = None;
                            self.processing = false;
                            proof {
                                lemma_none_selected(self.vaults@);
                            }
                        } else {
                            self.warning = Some(Error::AmountOverflow);
                        }
                    },
                    Err(e) => self.warning = Some(Error::RevaultDError(e)),
                }
                Command::Nothing
            },
            SendMessage::Signed(res) => {
                match res {
                    Ok(()) => {
                        let signed = match &self.step {
                            ManagerSendStep::Sign { signer } => match &signer.signed_psbt {
                                Some(p) => Some(p.duplicate()),
                                None => None,
                            },
                            _ => None,
                        };
                        if let Some(signed) = signed {
                            if let Some((_, feerate)) = &self.psbt {
                                let feerate = *feerate;
                                self.psbt = Some((signed, feerate));
                                self.step = ManagerSendStep::Success;
                            }
                        }
                    },
                    Err(e) => self.warning = Some(Error::RevaultDError(e)),
                }
                Command::Nothing
            },
            SendMessage::Sign(msg) => {
                match &mut self.step {
                    ManagerSendStep::Sign { signer } => {
                        signer.update(msg);
                        match &signer.signed_psbt {
                            Some(p) => Command::UpdateSpendTransaction(p.duplicate()),
                            None => Command::Nothing,
                        }
                    },
                    _ => Command::Nothing,
                }
            },
            SendMessage::Next => {
                match self.step {
                    ManagerSendStep::WelcomeUser => self.step = ManagerSendStep::SelectOutputs,
                    ManagerSendStep::SelectOutputs => self.step = ManagerSendStep::SelectInputs,
                    ManagerSendStep::SelectInputs => self.step = ManagerSendStep::SelectFee,
                    ManagerSendStep::SelectFee => {
                        if let Some((psbt, _)) = &self.psbt {
                            self.step = ManagerSendStep::Sign {
                                signer: SignState::new(psbt.duplicate(), TransactionKind::Spend),
                            };
                        }
                    },
                    _ => {},
                }
                Command::Nothing
            },
            SendMessage::Previous => {
                self.step = match self.step {
                    ManagerSendStep::SelectFee => ManagerSendStep::SelectInputs,
                    ManagerSendStep::Sign { .. } => ManagerSendStep::SelectFee,
                    _ => ManagerSendStep::SelectOutputs,
                };
                Command::Nothing
            },
            SendMessage::AddRecipient => {
                let ghost before = self.outputs@;
                self.outputs.push(ManagerSendOutput::new());
                assert(self.outputs@.drop_last() =~= before);
                self.psbt = None;
                self.processing = false;
                Command::Nothing
            },
            SendMessage::Recipient(i, msg) => {
                self.psbt = None;
                self.processing = false;
                if i < self.outputs.len() {
                    if let RecipientMessage::Delete = msg {
                        self.outputs.remove(i);
                    } else {
                        self.outputs[i].update(msg);
                    }
                }
                Command::Nothing
            },
            SendMessage::Input(i, msg) => {
                self.psbt = None;
                self.processing = false;
                if i < self.vaults.len() {
                    let ghost before = self.vaults@;
                    self.vaults[i].update(msg);
                    assert(input_vaults(self.vaults@) =~= input_vaults(before));
                }
                Command::Nothing
            },
            _ => Command::Nothing,
        }
    }
}

/// Inputs that are all unselected select nothing.
proof fn lemma_none_selected(inputs: Seq<ManagerSendInput>)
    requires
        forall|i: int| 0 <= i < inputs.len() ==> !(#[trigger] inputs[i]).selected,
    ensures
        selected_vaults(inputs).len() == 0,
    decreases inputs.len(),
{
    if inputs.len() > 0 {
        assert(inputs[inputs.len() - 1] == inputs.last());
        lemma_none_selected(inputs.drop_last());
    }
}

/// Importing a spend assembled elsewhere, pasted as base64: any PSBT that
/// decodes is handed to the daemon, and kept once the daemon accepts it.
pub struct ManagerImportSendTransactionState {
    pub psbt_imported: Option<Psbt>,
    pub psbt_input: String,
    pub warning: Option<Error>,
}

impl ManagerImportSendTransactionState {
    pub fn new() -> (r: ManagerImportSendTransactionState)
        ensures
            r.psbt_imported is None,
            r.psbt_input@.len() == 0,
            r.warning is None,
    {
        ManagerImportSendTransactionState {
            psbt_imported: None,
            psbt_input: String::new(),
            warning: None,
        }
    }

    /// The PSBT that the pasted text stands for, if any.
    pub fn parse_pbst(&self) -> (r: Option<Psbt>)
        ensures
            opt_view(r) == psbt_of_text(self.psbt_input@),
    {
        Psbt::from_base64(self.psbt_input.as_str())
    }

    /// `post` is the import screen `pre` after the event, and `r` the
    /// request that follows.
    pub open spec fn updated(
        pre: ManagerImportSendTransactionState,
        post: ManagerImportSendTransactionState,
        message: SendMessage,
        r: Command,
    ) -> bool {
        match message {
            SendMessage::Updated(res) => {
                &&& r is Nothing
                &&& post.psbt_input == pre.psbt_input
                &&& match res {
                    Ok(()) => opt_view(post.psbt_imported) == psbt_of_text(
                        pre.psbt_input@,
                    ) && post.warning == pre.warning,
                    Err(e) => post.warning == Some(Error::RevaultDError(e))
                        && post.psbt_imported == pre.psbt_imported,
                }
            },
            SendMessage::PsbtEdited(text) => {
                &&& r is Nothing
                &&& post.psbt_input == text
                &&& post.warning is None
                &&& post.psbt_imported == pre.psbt_imported
            },
            SendMessage::Import => {
                &&& post.psbt_input == pre.psbt_input
                &&& post.psbt_imported == pre.psbt_imported
                &&& match psbt_of_text(pre.psbt_input@) {
                    Some(p) => if pre.psbt_input@.len() > 0 {
                        r is UpdateSpendTransaction && r->UpdateSpendTransaction_0@ == p
                            && post.warning == pre.warning
                    } else {
                        r is Nothing && post.warning == Some(Error::InvalidPsbt)
                    },
                    None => r is Nothing && post.warning == Some(Error::InvalidPsbt),
                }
            },
            _ => post == pre && r is Nothing,
        }
    }

    pub fn update(&mut self, message: SendMessage) -> (r: Command)
        ensures
            ManagerImportSendTransactionState::updated(*old(self), *final(self), message, r),
    {
        match message {
            SendMessage::Updated(res) => {
                match res {
                    Ok(()) => self.psbt_imported = self.parse_pbst(),
                    Err(e) => self.warning = Some(Error::RevaultDError(e)),
                }
                Command::Nothing
            },
            SendMessage::PsbtEdited(text) => {
                self.warning = None;
                self.psbt_input = text;
                Command::Nothing
            },
            SendMessage::Import => {
                if !self.psbt_input.as_str().is_empty() {
                    if let Some(psbt) = self.parse_pbst() {
                        return Command::UpdateSpendTransaction(psbt);
                    }
                }
                self.warning = Some(Error::InvalidPsbt);
                Command::Nothing
            },
            _ => Command::Nothing,
        }
    }
}

/// The manager's spend screen: build a spend, import one, or look at one.
pub enum ManagerSendState {
    SendTransactionDetail(Psbt),
    ImportSendTransaction(ManagerImportSendTransactionState),
    CreateSendTransaction(ManagerCreateSendTransactionState),
}

impl ManagerSendState {
    pub open spec fn wf(&self) -> bool {
        self is CreateSendTransaction ==> self->CreateSendTransaction_0.wf()
    }

    pub fn new() -> (r: ManagerSendState)
        ensures
            r.wf(),
            r is CreateSendTransaction,
            r->CreateSendTransaction_0.step is WelcomeUser,
    {
        ManagerSendState::CreateSendTransaction(ManagerCreateSendTransactionState::new())
    }

    /// The first request of the current screen.
    pub fn load(&self) -> (r: Command)
        ensures
            self is CreateSendTransaction ==> r is ListVaults && r->ListVaults_0 is Some
                && r->ListVaults_0.unwrap()@ == seq![VaultStatus::Active],
            !(self is CreateSendTransaction) ==> r is Nothing,
    {
        match self {
            ManagerSendState::CreateSendTransaction(_) => {
                let statuses = vec![VaultStatus::Active];
                Command::ListVaults(Some(statuses))
            },
            _ => Command::Nothing,
        }
    }

    /// Switches to importing on `Import` while building, to the imported
    /// spend on `Select` while importing, and otherwise hands the event to
    /// the current screen.
    pub fn update(&mut self, message: SendMessage) -> (r: Command)
        requires
            old(self).wf(),
        ensures
            final(self).wf(),
            (*old(self)) is CreateSendTransaction && message is Import ==> {
                &&& (*final(self)) is ImportSendTransaction
                &&& (*final(self))->ImportSendTransaction_0.psbt_input@.len() == 0
                &&& r is Nothing
            },
            (*old(self)) is ImportSendTransaction && message is Select ==> {
                &&& (*final(self)) is SendTransactionDetail
                &&& (*final(self))->SendTransactionDetail_0@ == message->Select_0@
                &&& r is Nothing
            },
            (*old(self)) is SendTransactionDetail ==> *final(self) == *old(self) && r is Nothing,
            (*old(self)) is CreateSendTransaction && !(message is Import) ==> {
                &&& (*final(self)) is CreateSendTransaction
                &&& ManagerCreateSendTransactionState::updated(
                    (*old(self))->CreateSendTransaction_0,
                    (*final(self))->CreateSendTransaction_0,
                    message,
                    r,
                )
            },
            (*old(self)) is ImportSendTransaction && !(message is Select) ==> {
                &&& (*final(self)) is ImportSendTransaction
                &&& ManagerImportSendTransactionState::updated(
                    (*old(self))->ImportSendTransaction_0,
                    (*final(self))->ImportSendTransaction_0,
                    message,
                    r,
                )
            },
    {
        match self {
            ManagerSendState::CreateSendTransaction(state) => {
                if let SendMessage::Import = message {
                    *self = ManagerSendState::ImportSendTransaction(
                        ManagerImportSendTransactionState::new(),
                    );
                    Command::Nothing
                } else {
                    state.update(message)
                }
            },
            ManagerSendState::ImportSendTransaction(state) => {
                if let SendMessage::Select(psbt) = message {
                    *self = ManagerSendState::SendTransactionDetail(psbt);
                    Command::Nothing
                } else {
                    state.update(message)
                }
            },
            ManagerSendState::SendTransactionDetail(_) => Command::Nothing,
        }
    }
}
} // verus!
