use revault_gui::installer::{
    Action, Context, Cosigner, CosignerKeyMessage, DefineCosigner, DefineCosigners,
    DefineManagerXpubs, DefineManagerXpubsMessage, DefineStakeholderXpubs,
    DefineStakeholderXpubsMessage, ParticipantXpubMessage,
};

const XPUB: &str = "xpub661MyMwAqRbcFtXgS5sYJABqqG9YLmC4Q1Rdap9gSE8NqtwybGhePY2gZ29ESFjqJoCu1Rupje8YtGqsefD265TMg7usUDFdp6W1EGMcet8";

#[test]
fn stakeholder_xpubs_are_checked() {
    let mut step = DefineStakeholderXpubs::new();
    step.update(DefineStakeholderXpubsMessage::AddXpub);
    step.update(DefineStakeholderXpubsMessage::AddXpub);
    step.update(DefineStakeholderXpubsMessage::StakeholderXpub(
        0,
        ParticipantXpubMessage::XpubEdited(XPUB.to_string()),
    ));
    step.update(DefineStakeholderXpubsMessage::StakeholderXpub(
        1,
        ParticipantXpubMessage::XpubEdited("xpub-nope".to_string()),
    ));
    assert!(step.is_correct());
    step.check();
    assert!(!step.stakeholder_xpubs[0].warning);
    assert!(step.stakeholder_xpubs[1].warning);
    assert!(!step.is_correct());
    step.update(DefineStakeholderXpubsMessage::StakeholderXpub(1, ParticipantXpubMessage::Delete));
    assert_eq!(step.stakeholder_xpubs.len(), 1);
    assert!(step.is_correct());
}

#[test]
fn manager_step_counters_and_keys() {
    let mut step = DefineManagerXpubs::new();
    step.update(DefineManagerXpubsMessage::ManagersTreshold(Action::Decrement));
    assert_eq!(step.managers_treshold, 0);
    step.update(DefineManagerXpubsMessage::ManagersTreshold(Action::Increment));
    step.update(DefineManagerXpubsMessage::SpendingDelay(Action::Increment));
    step.update(DefineManagerXpubsMessage::SpendingDelay(Action::Increment));
    assert_eq!((step.managers_treshold, step.spending_delay), (1, 2));
    step.update(DefineManagerXpubsMessage::OurXpubEdited("bad".to_string()));
    step.check();
    assert!(step.our_xpub_warning);
    assert!(!step.is_correct());
    step.update(DefineManagerXpubsMessage::OurXpubEdited(XPUB.to_string()));
    step.check();
    assert!(step.is_correct());
    step.update(DefineManagerXpubsMessage::AddCosigner);
    step.update(DefineManagerXpubsMessage::AddCosigner);
    step.update(DefineManagerXpubsMessage::CosignerKey(0, CosignerKeyMessage::Delete));
    let mut ctx = Context { number_cosigners: 0 };
    step.update_context(&mut ctx);
    assert_eq!(ctx.number_cosigners, 1);
}

#[test]
fn cosigners_follow_context() {
    let mut step = DefineCosigners::new();
    step.load_context(&Context { number_cosigners: 3 });
    assert_eq!(step.cosigners.len(), 3);
    step.update(1, DefineCosigner::HostEdited("127.0.0.1:8080".to_string()));
    step.load_context(&Context { number_cosigners: 2 });
    assert_eq!(step.cosigners.len(), 2);
    assert_eq!(step.cosigners[1].host, "127.0.0.1:8080");
    assert!(step.is_correct());
    step.cosigners[0].warning_noise_key = true;
    assert!(!step.is_correct());
}

#[test]
fn cosigner_edits_clear_flags() {
    let mut cosigner = Cosigner::new();
    cosigner.warning_host = true;
    cosigner.update(DefineCosigner::HostEdited("host".to_string()));
    assert!(!cosigner.warning_host);
    cosigner.update(DefineCosigner::NoiseKeyEdited("key".to_string()));
    assert_eq!((cosigner.host.as_str(), cosigner.noise_key.as_str()), ("host", "key"));
}
