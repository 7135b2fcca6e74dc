//! The installer steps in which a manager enters the participants' keys and
//! the cosigning servers.

use vstd::prelude::*;

verus! {

/// Whether text is a valid BIP32 extended public key.
pub uninterp spec fn is_valid_xpub(text: Seq<char>) -> bool;

/// Relies on `<bitcoin::util::bip32::ExtendedPubKey as FromStr>::from_str`:
/// whether the text parses as an extended public key.
#[verifier::external_body]
fn parse_xpub(text: &str) -> (r: bool)
    ensures
        r == is_valid_xpub(text@),
{
    <bitcoin::util::bip32::ExtendedPubKey as std::str::FromStr>::from_str(text).is_ok()
}

/// What the installer steps share.
pub struct Context {
    pub number_cosigners: usize,
}

/// An edit of a participant's key.
pub enum ParticipantXpubMessage {
    XpubEdited(String),
    Delete,
}

/// A participant's extended public key, as typed, with a flag raised when a
/// check found it invalid.
pub struct ParticipantXpub {
    pub xpub: String,
    pub warning: bool,
}

impl ParticipantXpub {
    pub fn new() -> (r: ParticipantXpub)
        ensures
            r.xpub@.len() == 0,
            !r.warning,
    {
        ParticipantXpub { xpub: String::new(), warning: false }
    }

    /// Editing the key clears its flag.
    pub fn update(&mut self, msg: ParticipantXpubMessage)
        ensures
            match msg {
                ParticipantXpubMessage::XpubEdited(x) => final(self).xpub == x && !final(self).warning,
                ParticipantXpubMessage::Delete => *final(self) == *old(self),
            },
    {
        if let ParticipantXpubMessage::XpubEdited(xpub) = msg {
            self.xpub = xpub;
            self.warning = false;
        }
    }
}

/// An edit of a cosigning server's key.
pub enum CosignerKeyMessage {
    KeyEdited(String),
    Delete,
}

/// The key of a cosigning server, as typed.
pub struct CosignerKey {
    pub key: String,
    pub warning: bool,
}

impl CosignerKey {
    pub fn new() -> (r: CosignerKey)
        ensures
            r.key@.len() == 0,
            !r.warning,
    {
        CosignerKey { key: String::new(), warning: false }
    }

    /// Editing the key clears its flag.
    pub fn update(&mut self, msg: CosignerKeyMessage)
        ensures
            match msg {
                CosignerKeyMessage::KeyEdited(k) => final(self).key == k && !final(self).warning,
                CosignerKeyMessage::Delete => *final(self) == *old(self),
            },
    {
        if let CosignerKeyMessage::KeyEdited(key) = msg {
            self.key = key;
            self.warning = false;
        }
    }
}

/// Whether no participant key is flagged.
pub open spec fn none_flagged(xpubs: Seq<ParticipantXpub>) -> bool {
    forall|i: int| 0 <= i < xpubs.len() ==> !(#[trigger] xpubs[i]).warning
}

/// Whether the list has no flagged key.
fn no_warning(xpubs: &Vec<ParticipantXpub>) -> (r: bool)
    ensures
        r == none_flagged(xpubs@),
{
    let mut i: usize = 0;
    while i < xpubs.len()
        invariant
            i <= xpubs.len(),
            none_flagged(xpubs@.subrange(0, i as int)),
        decreases xpubs.len() - i,
    {
        if xpubs[i].warning {
            return false;
        }
        assert(xpubs@.subrange(0, i + 1)[i as int] == xpubs@[i as int]);
        i = i + 1;
    }
    assert(xpubs@.subrange(0, xpubs@.len() as int) =~= xpubs@);
    true
}

/// Raises the flag of every key that does not parse; keeps raised flags.
fn check_xpubs(xpubs: &mut Vec<ParticipantXpub>)
    ensures
        final(xpubs)@.len() == old(xpubs)@.len(),
        forall|i: int|
            0 <= i < final(xpubs)@.len() ==> {
                &&& (#[trigger] final(xpubs)@[i]).xpub == old(xpubs)@[i].xpub
                &&& final(xpubs)@[i].warning == (old(xpubs)@[i].warning || !is_valid_xpub(
                    old(xpubs)@[i].xpub@,
                ))
            },
{
    let mut i: usize = 0;
    while i < xpubs.len()
        invariant
            i <= xpubs.len(),
            xpubs@.len() == old(xpubs)@.len(),
            forall|k: int|
                0 <= k < xpubs@.len() ==> (#[trigger] xpubs@[k]).xpub == old(xpubs)@[k].xpub,
            forall|k: int|
                0 <= k < i ==> (#[trigger] xpubs@[k]).warning == (old(xpubs)@[k].warning
                    || !is_valid_xpub(old(xpubs)@[k].xpub@)),
            forall|k: int| i <= k < xpubs@.len() ==> (#[trigger] xpubs@[k]).warning == old(xpubs)@[k].warning,
        decreases xpubs.len() - i,
    {
        if !parse_xpub(xpubs[i].xpub.as_str()) {
            xpubs[i].warning = true;
        }
        i = i + 1;
    }
}

/// An edit of the stakeholders' keys.
pub enum DefineStakeholderXpubsMessage {
    StakeholderXpub(usize, ParticipantXpubMessage),
    AddXpub,
}

/// The step in which a manager enters the stakeholders' keys.
pub struct DefineStakeholderXpubs {
    pub stakeholder_xpubs: Vec<ParticipantXpub>,
}

impl DefineStakeholderXpubs {
    pub fn new() -> (r: DefineStakeholderXpubs)
        ensures
            r.stakeholder_xpubs@.len() == 0,
    {
        DefineStakeholderXpubs { stakeholder_xpubs: Vec::new() }
    }

    pub fn is_correct(&self) -> (r: bool)
        ensures
            r == none_flagged(self.stakeholder_xpubs@),
    {
        no_warning(&self.stakeholder_xpubs)
    }

    pub fn check(&mut self)
        ensures
            final(self).stakeholder_xpubs@.len() == old(self).stakeholder_xpubs@.len(),
            forall|i: int|
                0 <= i < final(self).stakeholder_xpubs@.len() ==> (
                #[trigger] final(self).stakeholder_xpubs@[i]).warning == (
                old(self).stakeholder_xpubs@[i].warning || !is_valid_xpub(
                    old(self).stakeholder_xpubs@[i].xpub@,
                )),
    {
        check_xpubs(&mut self.stakeholder_xpubs);
    }

    pub fn update(&mut self, message: DefineStakeholderXpubsMessage)
        ensures
            match message {
                DefineStakeholderXpubsMessage::AddXpub => {
                    &&& final(self).stakeholder_xpubs@.len() == old(self).stakeholder_xpubs@.len() + 1
                    &&& final(self).stakeholder_xpubs@.drop_last() == old(self).stakeholder_xpubs@
                },
                DefineStakeholderXpubsMessage::StakeholderXpub(i, ParticipantXpubMessage::Delete) => {
                    &&& i < old(self).stakeholder_xpubs@.len() ==> final(self).stakeholder_xpubs@
                        == old(self).stakeholder_xpubs@.remove(i as int)
                    &&& i >= old(self).stakeholder_xpubs@.len() ==> *final(self) == *old(self)
                },
                DefineStakeholderXpubsMessage::StakeholderXpub(i, ParticipantXpubMessage::XpubEdited(x)) => {
                    &&& final(self).stakeholder_xpubs@.len() == old(self).stakeholder_xpubs@.len()
                    &&& i < old(self).stakeholder_xpubs@.len() ==> final(self).stakeholder_xpubs@
                        == old(self).stakeholder_xpubs@.update(
                        i as int,
                        ParticipantXpub { xpub: x, warning: false },
                    )
                    &&& i >= old(self).stakeholder_xpubs@.len() ==> *final(self) == *old(self)
                },
            },
    {
        match message {
            DefineStakeholderXpubsMessage::StakeholderXpub(i, msg) => {
                if i < self.stakeholder_xpubs.len() {
                    if let ParticipantXpubMessage::Delete = msg {
                        self.stakeholder_xpubs.remove(i);
                    } else {
                        let ghost before = self.stakeholder_xpubs@;
                        self.stakeholder_xpubs[i].update(msg);
                        assert(self.stakeholder_xpubs@ =~= before.update(
                            i as int,
                            self.stakeholder_xpubs@[i as int],
                        ));
                    }
                }
            },
            DefineStakeholderXpubsMessage::AddXpub => {
                self.stakeholder_xpubs.push(ParticipantXpub::new());
            },
        }
    }
}

/// Which way a counter moves.
pub enum Action {
    Increment,
    Decrement,
}

/// The counter after the action: it stays within `0..=u32::MAX`.
pub open spec fn counted(value: u32, action: Action) -> u32 {
    match action {
        Action::Increment => if value < u32::MAX {
            (value + 1) as u32
        } else {
            value
        },
        Action::Decrement => if value > 0 {
            (value - 1) as u32
        } else {
            value
        },
    }
}

fn count(value: u32, action: Action) -> (r: u32)
    ensures
        r == counted(value, action),
{
    match action {
        Action::Increment => if value < u32::MAX {
            value + 1
        } else {
            value
        },
        Action::Decrement => if value > 0 {
            value - 1
        } else {
            value
        },
    }
}

/// An edit of the managers' step.
pub enum DefineManagerXpubsMessage {
    OurXpubEdited(String),
    ManagerXpub(usize, ParticipantXpubMessage),
    AddXpub,
    CosignerKey(usize, CosignerKeyMessage),
    AddCosigner,
    ManagersTreshold(Action),
    SpendingDelay(Action),
}

/// The step in which a manager enters their own key, the other managers'
/// keys, the cosigning servers' keys, the threshold and the spending delay.
pub struct DefineManagerXpubs {
    pub cosigners: Vec<CosignerKey>,
    pub other_xpubs: Vec<ParticipantXpub>,
    pub our_xpub: String,
    pub our_xpub_warning: bool,
    pub managers_treshold: u32,
    pub spending_delay: u32,
}

impl DefineManagerXpubs {
    pub fn new() -> (r: DefineManagerXpubs)
        ensures
            r.cosigners@.len() == 0,
            r.other_xpubs@.len() == 0,
            r.our_xpub@.len() == 0,
            !r.our_xpub_warning,
            r.managers_treshold == 0,
            r.spending_delay == 0,
    {
        DefineManagerXpubs {
            cosigners: Vec::new(),
            other_xpubs: Vec::new(),
            our_xpub: String::new(),
            our_xpub_warning: false,
            managers_treshold: 0,
            spending_delay: 0,
        }
    }

    /// Tells the next steps how many cosigning servers there are.
    pub fn update_context(&self, ctx: &mut Context)
        ensures
            final(ctx).number_cosigners == self.cosigners@.len(),
    {
        ctx.number_cosigners = self.cosigners.len();
    }

    pub fn check(&mut self)
        ensures
            final(self).other_xpubs@.len() == old(self).other_xpubs@.len(),
            forall|i: int|
                0 <= i < final(self).other_xpubs@.len() ==> (
                #[trigger] final(self).other_xpubs@[i]).warning == (
                old(self).other_xpubs@[i].warning || !is_valid_xpub(
                    old(self).other_xpubs@[i].xpub@,
                )),
            final(self).our_xpub_warning == (old(self).our_xpub_warning || !is_valid_xpub(
                old(self).our_xpub@,
            )),
            final(self).our_xpub == old(self).our_xpub,
    {
        check_xpubs(&mut self.other_xpubs);
        if !parse_xpub(self.our_xpub.as_str()) {
            self.our_xpub_warning = true;
        }
    }

    pub fn is_correct(&self) -> (r: bool)
        ensures
            r == (!self.our_xpub_warning && none_flagged(self.other_xpubs@)),
    {
        !self.our_xpub_warning && no_warning(&self.other_xpubs)
    }

    pub fn update(&mut self, message: DefineManagerXpubsMessage)
        ensures
            match message {
                DefineManagerXpubsMessage::OurXpubEdited(x) => final(self).our_xpub == x
                    && !final(self).our_xpub_warning,
                DefineManagerXpubsMessage::AddXpub => final(self).other_xpubs@.len()
                    == old(self).other_xpubs@.len() + 1,
                DefineManagerXpubsMessage::AddCosigner => final(self).cosigners@.len()
                    == old(self).cosigners@.len() + 1,
                DefineManagerXpubsMessage::ManagerXpub(i, ParticipantXpubMessage::Delete) => i
                    < old(self).other_xpubs@.len() ==> final(self).other_xpubs@ == old(
                    self,
                ).other_xpubs@.remove(i as int),
                DefineManagerXpubsMessage::CosignerKey(i, CosignerKeyMessage::Delete) => i
                    < old(self).cosigners@.len() ==> final(self).cosigners@ == old(
                    self,
                ).cosigners@.remove(i as int),
                DefineManagerXpubsMessage::ManagersTreshold(a) => final(self).managers_treshold
                    == counted(old(self).managers_treshold, a) && final(self).spending_delay
                    == old(self).spending_delay && final(self).cosigners == old(self).cosigners
                    && final(self).other_xpubs == old(self).other_xpubs && final(self).our_xpub
                    == old(self).our_xpub && final(self).our_xpub_warning
                    == old(self).our_xpub_warning,
                DefineManagerXpubsMessage::SpendingDelay(a) => final(self).spending_delay
                    == counted(old(self).spending_delay, a) && final(self).managers_treshold
                    == old(self).managers_treshold && final(self).cosigners == old(self).cosigners
                    && final(self).other_xpubs == old(self).other_xpubs && final(self).our_xpub
                    == old(self).our_xpub && final(self).our_xpub_warning
                    == old(self).our_xpub_warning,
                DefineManagerXpubsMessage::ManagerXpub(i, ParticipantXpubMessage::XpubEdited(x)) => {
                    &&& final(self).other_xpubs@.len() == old(self).other_xpubs@.len()
                    &&& i < old(self).other_xpubs@.len() ==> final(self).other_xpubs@
                        == old(self).other_xpubs@.update(
                        i as int,
                        ParticipantXpub { xpub: x, warning: false },
                    )
                    &&& i >= old(self).other_xpubs@.len() ==> final(self).other_xpubs
                        == old(self).other_xpubs
                },
                DefineManagerXpubsMessage::CosignerKey(i, CosignerKeyMessage::KeyEdited(k)) => {
                    &&& final(self).cosigners@.len() == old(self).cosigners@.len()
                    &&& i < old(self).cosigners@.len() ==> final(self).cosigners@
                        == old(self).cosigners@.update(i as int, CosignerKey { key: k, warning: false })
                    &&& i >= old(self).cosigners@.len() ==> final(self).cosigners == old(self).cosigners
                },
            },
    {
        match message {
            DefineManagerXpubsMessage::OurXpubEdited(xpub) => {
                self.our_xpub = xpub;
                self.our_xpub_warning = false;
            },
            DefineManagerXpubsMessage::ManagerXpub(i, msg) => {
                if i < self.other_xpubs.len() {
                    if let ParticipantXpubMessage::Delete = msg {
                        self.other_xpubs.remove(i);
                    } else {
                        let ghost before = self.other_xpubs@;
                        self.other_xpubs[i].update(msg);
                        assert(self.other_xpubs@ =~= before.update(i as int, self.other_xpubs@[i as int]));
                    }
                }
            },
            DefineManagerXpubsMessage::AddXpub => self.other_xpubs.push(ParticipantXpub::new()),
            DefineManagerXpubsMessage::CosignerKey(i, msg) => {
                if i < self.cosigners.len() {
                    if let CosignerKeyMessage::Delete = msg {
                        self.cosigners.remove(i);
                    } else {
                        let ghost before = self.cosigners@;
                        self.cosigners[i].update(msg);
                        assert(self.cosigners@ =~= before.update(i as int, self.cosigners@[i as int]));
                    }
                }
            },
            DefineManagerXpubsMessage::AddCosigner => self.cosigners.push(CosignerKey::new()),
            DefineManagerXpubsMessage::ManagersTreshold(action) => {
                self.managers_treshold = count(self.managers_treshold, action);
            },
            DefineManagerXpubsMessage::SpendingDelay(action) => {
                self.spending_delay = count(self.spending_delay, action);
            },
        }
    }
}

/// An edit of a cosigning server.
pub enum DefineCosigner {
    HostEdited(String),
    NoiseKeyEdited(String),
}

/// A cosigning server: its address and its noise key, as typed.
pub struct Cosigner {
    pub host: String,
    pub noise_key: String,
    pub warning_host: bool,
    pub warning_noise_key: bool,
}

impl Cosigner {
    pub fn new() -> (r: Cosigner)
        ensures
            r.host@.len() == 0,
            r.noise_key@.len() == 0,
            !r.warning_host,
            !r.warning_noise_key,
    {
        Cosigner {
            host: String::new(),
            noise_key: String::new(),
            warning_host: false,
            warning_noise_key: false,
        }
    }

    /// Editing a field clears its flag and leaves the other field alone.
    pub fn update(&mut self, msg: DefineCosigner)
        ensures
            match msg {
                DefineCosigner::HostEdited(h) => {
                    &&& final(self).host == h
                    &&& !final(self).warning_host
                    &&& final(self).noise_key == old(self).noise_key
                    &&& final(self).warning_noise_key == old(self).warning_noise_key
                },
                DefineCosigner::NoiseKeyEdited(k) => {
                    &&& final(self).noise_key == k
                    &&& !final(self).warning_noise_key
                    &&& final(self).host == old(self).host
                    &&& final(self).warning_host == old(self).warning_host
                },
            },
    {
        match msg {
            DefineCosigner::HostEdited(host) => {
                self.host = host;
                self.warning_host = false;
            },
            DefineCosigner::NoiseKeyEdited(key) => {
                self.noise_key = key;
                self.warning_noise_key = false;
            },
        }
    }
}

/// The step in which a manager enters the cosigning servers.
pub struct DefineCosigners {
    pub cosigners: Vec<Cosigner>,
}

impl DefineCosigners {
    pub fn new() -> (r: DefineCosigners)
        ensures
            r.cosigners@.len() == 0,
    {
        DefineCosigners { cosigners: Vec::new() }
    }

    /// Keeps as many cosigning servers as the context says: the last ones
    /// go, or fresh ones are added.
    pub fn load_context(&mut self, ctx: &Context)
        ensures
            final(self).cosigners@.len() == ctx.number_cosigners,
            final(self).cosigners@.len() <= old(self).cosigners@.len() ==> final(self).cosigners@
                == old(self).cosigners@.subrange(0, ctx.number_cosigners as int),
            final(self).cosigners@.len() > old(self).cosigners@.len() ==> {
                &&& final(self).cosigners@.subrange(0, old(self).cosigners@.len() as int)
                    == old(self).cosigners@
                &&& forall|k: int|
                    old(self).cosigners@.len() <= k < final(self).cosigners@.len() ==> {
                        &&& (#[trigger] final(self).cosigners@[k]).host@.len() == 0
                        &&& final(self).cosigners@[k].noise_key@.len() == 0
                        &&& !final(self).cosigners@[k].warning_host
                        &&& !final(self).cosigners@[k].warning_noise_key
                    }
            },
    {
        while self.cosigners.len() > ctx.number_cosigners
            invariant
                self.cosigners@.len() >= ctx.number_cosigners || self.cosigners@.len()
                    == old(self).cosigners@.len(),
                self.cosigners@.len() <= old(self).cosigners@.len(),
                self.cosigners@ == old(self).cosigners@.subrange(0, self.cosigners@.len() as int),
            decreases self.cosigners.len(),
        {
            self.cosigners.pop();
        }
        while self.cosigners.len() < ctx.number_cosigners
            invariant
                self.cosigners@.len() <= ctx.number_cosigners || self.cosigners@.len()
                    == ctx.number_cosigners,
                old(self).cosigners@.len() >= ctx.number_cosigners ==> self.cosigners@ == old(
                    self,
                ).cosigners@.subrange(0, ctx.number_cosigners as int),
                self.cosigners@.len() >= ctx.number_cosigners ==> self.cosigners@.len()
                    == ctx.number_cosigners,
                old(self).cosigners@.len() < ctx.number_cosigners ==> {
                    &&& self.cosigners@.len() >= old(self).cosigners@.len()
                    &&& self.cosigners@.subrange(0, old(self).cosigners@.len() as int)
                        == old(self).cosigners@
                    &&& forall|k: int|
                        old(self).cosigners@.len() <= k < self.cosigners@.len() ==> {
                            &&& (#[trigger] self.cosigners@[k]).host@.len() == 0
                            &&& self.cosigners@[k].noise_key@.len() == 0
                            &&& !self.cosigners@[k].warning_host
                            &&& !self.cosigners@[k].warning_noise_key
                        }
                },
            decreases ctx.number_cosigners - self.cosigners.len(),
        {
            let ghost before = self.cosigners@;
            self.cosigners.push(Cosigner::new());
            assert(self.cosigners@.subrange(0, old(self).cosigners@.len() as int)
                =~= before.subrange(0, old(self).cosigners@.len() as int));
        }
    }

    pub fn is_correct(&self) -> (r: bool)
        ensures
            r == forall|i: int|
                0 <= i < self.cosigners@.len() ==> !(#[trigger] self.cosigners@[i]).warning_host
                    && !self.cosigners@[i].warning_noise_key,
    {
        let mut i: usize = 0;
        while i < self.cosigners.len()
            invariant
                i <= self.cosigners.len(),
                forall|k: int|
                    0 <= k < i ==> !(#[trigger] self.cosigners@[k]).warning_host
                        && !self.cosigners@[k].warning_noise_key,
            decreases self.cosigners.len() - i,
        {
            if self.cosigners[i].warning_host || self.cosigners[i].warning_noise_key {
                return false;
            }
            i = i + 1;
        }
        true
    }

    /// Edits the cosigning server at this index, if there is one.
    pub fn update(&mut self, i: usize, msg: DefineCosigner)
        ensures
            final(self).cosigners@.len() == old(self).cosigners@.len(),
            i >= old(self).cosigners@.len() ==> *final(self) == *old(self),
            i < old(self).cosigners@.len() ==> {
                &&& forall|k: int|
                    0 <= k < final(self).cosigners@.len() && k != i ==> #[trigger] final(self).cosigners@[k] == old(self).cosigners@[k]
                &&& match msg {
                    DefineCosigner::HostEdited(h) => {
                        &&& final(self).cosigners@[i as int].host == h
                        &&& !final(self).cosigners@[i as int].warning_host
                        &&& final(self).cosigners@[i as int].noise_key == old(self).cosigners@[i as int].noise_key
                    },
                    DefineCosigner::NoiseKeyEdited(k) => {
                        &&& final(self).cosigners@[i as int].noise_key == k
                        &&& !final(self).cosigners@[i as int].warning_noise_key
                        &&& final(self).cosigners@[i as int].host == old(self).cosigners@[i as int].host
                    },
                }
            },
    {
        if i < self.cosigners.len() {
            self.cosigners[i].update(msg);
        }
    }
}

} // verus!
