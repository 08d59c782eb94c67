use penumbra::command::{
    Command, DefinitionCmd, KeysCmd, ProposalCmd, ProposalKind, QueryCmd, TxCmd, ValidatorCmd,
    ViewCmd,
};

#[test]
fn validator_upload_alone_needs_sync() {
    assert!(!ValidatorCmd::Identity.needs_sync());
    let upload = DefinitionCmd::Upload { file: "v.json".to_string(), fee: 0, source: None };
    assert!(ValidatorCmd::Definition(upload).needs_sync());
    assert!(!ValidatorCmd::Definition(DefinitionCmd::Template { file: None }).needs_sync());
    assert!(!ValidatorCmd::Definition(DefinitionCmd::Fetch { file: Some("f".into()) })
        .needs_sync());
}

#[test]
fn proposal_template_alone_skips_sync() {
    assert!(!ProposalCmd::Template { file: None, kind: ProposalKind::Signaling }.needs_sync());
    assert!(ProposalCmd::Submit { file: "p.json".into(), fee: 0, source: None }.needs_sync());
    assert!(ProposalCmd::Withdraw { fee: 0, proposal_id: 1, reason: "r".into(), source: Some(2) }
        .needs_sync());
    assert!(ProposalCmd::Vote { fee: 0, proposal_id: 1, vote: "yes".into(), source: None }
        .needs_sync());
}

#[test]
fn command_sync_follows_subcommand() {
    assert!(!Command::Query(QueryCmd).needs_sync());
    assert!(Command::View(ViewCmd { sync: true }).needs_sync());
    assert!(!Command::View(ViewCmd { sync: false }).needs_sync());
    assert!(Command::Transaction(TxCmd { sync: true }).needs_sync());
    assert!(!Command::Keys(KeysCmd { sync: false }).needs_sync());
    assert!(!Command::Validator(ValidatorCmd::Identity).needs_sync());
    let upload = DefinitionCmd::Upload { file: "v.json".into(), fee: 5, source: Some(1) };
    assert!(Command::Validator(ValidatorCmd::Definition(upload)).needs_sync());
}
