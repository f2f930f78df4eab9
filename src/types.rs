use vstd::prelude::*;

verus! {

/// A step of the signing lifecycle that talks to the ledger node.
#[derive(Debug, Clone, Copy, PartialEq, Eq, Structural)]
pub enum Stage {
    ListUnspent,
    Create,
    Join,
    Sign,
    Combine,
    Finalize,
    Broadcast,
}

/// A configuration value the transport cannot work without.
#[derive(Debug, Clone, Copy, PartialEq, Eq, Structural)]
pub enum ConfigItem {
    Host,
    User,
    Password,
}

/// Why a stage, or the whole run, stopped.
#[derive(Debug, Clone, PartialEq, Eq)]
pub enum PipelineError {
    /// A required configuration value is missing.
    Configuration(ConfigItem),
    /// The ledger node could not be reached or answered with no usable reply.
    Transport(String),
    /// The node reported an error for a stage that has no domain meaning for it.
    Protocol { stage: Stage, code: i64, message: String },
    /// The reply's `result` was missing or not of the shape the stage expects.
    Decode(Stage),
    /// The node refused to fund the transaction (spent input, no balance, ...).
    FundingRejected { code: i64, message: String },
    /// The node refused to join the two PSBTs (incompatible templates).
    JoinRejected { code: i64, message: String },
    /// Finalization reported that signatures are still missing.
    NotFullySigned,
}

/// An unspent output as the wallet lists it. `amount` is the node's decimal
/// text in whole coins.
#[derive(Debug, Clone, PartialEq, Eq)]
pub struct UnspentOutput {
    pub txid: String,
    pub vout: u32,
    pub address: String,
    pub label: String,
    pub script_pub_key: String,
    pub amount: String,
    pub confirmations: u32,
    pub spendable: bool,
    pub solvable: bool,
    pub desc: String,
    pub parent_descs: Vec<String>,
    pub safe: bool,
}

/// The one unspent output a run spends.
#[derive(Debug, Clone, PartialEq, Eq)]
pub struct SpendInput {
    pub txid: String,
    pub vout: u32,
}

/// A payment: an address and the amount sent to it, as decimal text in
/// whole coins (`"0.0001"`).
#[derive(Debug, Clone, PartialEq, Eq)]
pub struct Destination {
    pub address: String,
    pub amount: String,
}

/// What funding a new PSBT yields.
#[derive(Debug, Clone, PartialEq, Eq)]
pub struct FundedPsbt {
    pub psbt: String,
    /// The fee as the node's decimal text.
    pub fee: String,
    /// Index of the change output; -1 where there is none.
    pub change_position: i32,
}

/// What one party's wallet made of a PSBT.
#[derive(Debug, Clone, PartialEq, Eq)]
pub struct SigningResult {
    pub psbt: String,
    pub complete: bool,
}

/// What finalization made of a PSBT: the raw transaction, once it is complete.
#[derive(Debug, Clone, PartialEq, Eq)]
pub struct FinalizationResult {
    pub hex: Option<String>,
    pub complete: bool,
}

} // verus!
