//! The command-line commands, and which of them need the wallet to be synchronized
//! with the chain before they run.

use vstd::prelude::*;

verus! {

/// Query the public chain state, like the validator set. Queries read public state only.
#[derive(Clone, Copy, Debug, PartialEq, Eq, Structural)]
pub struct QueryCmd;

/// View your private chain state, like account balances. What is read of it here is
/// whether the chosen view needs a sync, which each view subcommand decides.
#[derive(Clone, Copy, Debug, PartialEq, Eq, Structural)]
pub struct ViewCmd {
    pub sync: bool,
}

/// Create and broadcast a transaction. What is read of it here is whether the chosen
/// transaction subcommand needs a sync, which each of them decides.
#[derive(Clone, Copy, Debug, PartialEq, Eq, Structural)]
pub struct TxCmd {
    pub sync: bool,
}

/// Manage your wallet's keys. What is read of it here is whether the chosen key
/// subcommand needs a sync, which each of them decides.
#[derive(Clone, Copy, Debug, PartialEq, Eq, Structural)]
pub struct KeysCmd {
    pub sync: bool,
}

impl ViewCmd {
    /// Determine if this command requires a network sync before it executes.
    pub fn needs_sync(&self) -> (sync: bool)
        ensures
            sync == self.sync,
    {
        self.sync
    }
}

impl TxCmd {
    /// Determine if this command requires a network sync before it executes.
    pub fn needs_sync(&self) -> (sync: bool)
        ensures
            sync == self.sync,
    {
        self.sync
    }
}

impl KeysCmd {
    /// Determine if this command requires a network sync before it executes.
    pub fn needs_sync(&self) -> (sync: bool)
        ensures
            sync == self.sync,
    {
        self.sync
    }
}

/// A top-level command.
#[derive(Debug)]
pub enum Command {
    /// Query the  public chain state, like the validator set.
    Query(QueryCmd),
    /// View your private chain state, like account balances.
    View(ViewCmd),
    /// Create and broadcast a transaction.
    Transaction(TxCmd),
    /// Manage your wallet's keys.
    Keys(KeysCmd),
    /// Manage a validator.
    Validator(ValidatorCmd),
}

/// Manage a validator.
#[derive(Debug)]
pub enum ValidatorCmd {
    /// Display the validator identity key derived from this wallet's spend seed.
    Identity,
    /// Manage your validator's definition.
    Definition(DefinitionCmd),
}

/// Manage a validator's definition.
#[derive(Debug)]
pub enum DefinitionCmd {
    /// Create a ValidatorDefinition transaction to create or update a validator.
    Upload {
        /// The JSON file containing the ValidatorDefinition to upload.
        file: String,
        /// The transaction fee (paid in upenumbra).
        fee: u64,
        /// Optional. Only spend funds originally received by the given address index.
        source: Option<u64>,
    },
    /// Generates a template validator definition for editing.
    ///
    /// The validator identity field will be prepopulated with the validator
    /// identity key derived from this wallet's seed phrase.
    Template {
        /// The JSON file to write the template to [default: stdout].
        file: Option<String>,
    },
    /// Fetches the definition for your validator.
    Fetch {
        /// The JSON file to write the definition to [default: stdout].
        file: Option<String>,
    },
}

/// The kinds of governance proposal.
#[derive(Clone, Copy, Debug, PartialEq, Eq, Structural)]
pub enum ProposalKind {
    Signaling,
    Emergency,
    ParameterChange,
    DaoSpend,
}

/// Governance proposal subcommands.
#[derive(Debug)]
pub enum ProposalCmd {
    /// Make a template file for a new proposal.
    Template {
        /// The file to output the template to.
        file: Option<String>,
        /// The kind of the proposal to template.
        kind: ProposalKind,
    },
    /// Submit a new governance proposal.
    Submit {
        /// The proposal to vote on, in JSON format.
        file: String,
        /// The transaction fee (paid in upenumbra).
        fee: u64,
        /// Optional. Only spend funds originally received by the given address index.
        source: Option<u64>,
    },
    /// Withdraw a governance proposal that you previously submitted.
    Withdraw {
        /// The transaction fee (paid in upenumbra).
        fee: u64,
        /// The proposal id to withdraw.
        proposal_id: u64,
        /// A short description of the reason for the proposal being withdrawn, meant to be
        /// displayed to users.
        reason: String,
        /// Optional. Only spend funds originally received by the given address index.
        source: Option<u64>,
    },
    /// Vote on a governance proposal (in your role as a delegator).
    Vote {
        /// The transaction fee (paid in upenumbra).
        fee: u64,
        /// The proposal id to vote on.
        proposal_id: u64,
        /// The vote to cast, as written on the command line.
        vote: String,
        /// Optional. Only spend funds originally received by the given address index.
        source: Option<u64>,
    },
}

impl ValidatorCmd {
    /// Only uploading a definition needs a sync: it builds a transaction.
    pub fn needs_sync(&self) -> (sync: bool)
        ensures
            sync == (*self matches ValidatorCmd::Definition(DefinitionCmd::Upload { .. })),
    {
        match self {
            ValidatorCmd::Identity => false,
            ValidatorCmd::Definition(DefinitionCmd::Upload { .. }) => true,
            ValidatorCmd::Definition(DefinitionCmd::Template { .. }) => false,
            ValidatorCmd::Definition(DefinitionCmd::Fetch { .. }) => false,
        }
    }
}

impl ProposalCmd {
    /// Every proposal subcommand but writing a template builds a transaction, and so
    /// needs a sync.
    pub fn needs_sync(&self) -> (sync: bool)
        ensures
            sync == !(*self matches ProposalCmd::Template { .. }),
    {
        match self {
            ProposalCmd::Template { .. } => false,
            ProposalCmd::Submit { .. } => true,
            ProposalCmd::Withdraw { .. } => true,
            ProposalCmd::Vote { .. } => true,
        }
    }
}

impl Command {
    /// Determine if this command requires a network sync before it executes.
    pub fn needs_sync(&self) -> (sync: bool)
        ensures
            sync == match *self {
                Command::Transaction(cmd) => cmd.sync,
                Command::View(cmd) => cmd.sync,
                Command::Keys(cmd) => cmd.sync,
                Command::Validator(cmd) => cmd matches ValidatorCmd::Definition(
                    DefinitionCmd::Upload { .. },
                ),
                Command::Query(_) => false,
            },
    {
        match self {
            Command::Transaction(cmd) => cmd.needs_sync(),
            Command::View(cmd) => cmd.needs_sync(),
            Command::Keys(cmd) => cmd.needs_sync(),
            Command::Validator(cmd) => cmd.needs_sync(),
            Command::Query(_) => false,
        }
    }
}

} // verus!
