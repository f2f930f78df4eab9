use vstd::prelude::*;

use crate::decode::{
    decode_finalization, decode_funded, decode_signing, decode_token, finalization_of, funded_of,
    shaped, signing_of, token_shape,
};
use crate::json::Json;
use crate::rpc::{create_params, create_params_of, str_array, str_is, strs_are, Procedure, Request};
use crate::types::{Destination, FundedPsbt, PipelineError, SpendInput, Stage};

verus! {

/// Where a run stands. Each phase holds what the next call needs.
#[derive(Debug)]
pub enum Phase {
    /// The input is chosen; the PSBT is yet to be funded.
    Selected,
    /// Funded; to be joined with the counterparty's PSBT.
    Funded { funded: FundedPsbt },
    /// Joined into `psbt`; `signed` holds the variants that the first
    /// `signed.len()` parties have signed so far.
    Signing { psbt: String, signed: Vec<String> },
    /// One PSBT carrying every signature that was gathered.
    ReadyToFinalize { psbt: String },
    /// Finalized and complete: `hex` is the raw transaction.
    Finalized { hex: String },
    /// Broadcast under `txid`.
    Done { txid: String },
    /// Stopped by `error`.
    Failed { error: PipelineError },
}

/// One run of the signing lifecycle: fund a PSBT spending `input` and paying
/// `outputs`, join it with the counterparty's PSBT, have each wallet in
/// `wallets` sign it (the first one also funds), combine the signed variants,
/// finalize, broadcast.
#[derive(Debug)]
pub struct Pipeline {
    pub input: SpendInput,
    pub outputs: Vec<Destination>,
    /// The PSBT handed over by the other party, to be joined with ours.
    pub counterparty: String,
    pub wallets: Vec<String>,
    pub phase: Phase,
}

impl Pipeline {
    pub open spec fn parties(self) -> int {
        self.wallets@.len() as int
    }

    pub open spec fn wf(self) -> bool {
        &&& self.parties() >= 1
        &&& self.phase matches Phase::Signing { signed, .. } ==> (signed@.len() < self.parties()
            || (signed@.len() == self.parties() && self.parties() > 1))
    }

    /// The procedure the run calls next; `None` once it is over.
    pub open spec fn pending(self) -> Option<Procedure> {
        match self.phase {
            Phase::Selected => Some(Procedure::CreateFundedPsbt),
            Phase::Funded { .. } => Some(Procedure::JoinPsbts),
            Phase::Signing { signed, .. } => if signed@.len() < self.parties() {
                Some(Procedure::ProcessPsbt)
            } else {
                Some(Procedure::CombinePsbt)
            },
            Phase::ReadyToFinalize { .. } => Some(Procedure::FinalizePsbt),
            Phase::Finalized { .. } => Some(Procedure::SendRawTransaction),
            Phase::Done { .. } => None,
            Phase::Failed { .. } => None,
        }
    }

    /// `q` is the call the run makes next: its procedure, its parameters and
    /// the wallet it runs in.
    pub open spec fn request_fits(self, q: Request) -> bool {
        &&& Some(q.procedure) == self.pending()
        &&& match self.phase {
            Phase::Selected => q.wallet == Some(self.wallets@[0]) && create_params(
                q.params@,
                self.input,
                self.outputs@,
            ),
            Phase::Funded { funded } => q.wallet is None && q.params@.len() == 1 && strs_are(
                q.params@[0],
                seq![funded.psbt, self.counterparty],
            ),
            Phase::Signing { psbt, signed } => if signed@.len() < self.parties() {
                q.wallet == Some(self.wallets@[signed@.len() as int]) && q.params@.len() == 1
                    && str_is(q.params@[0], psbt@)
            } else {
                q.wallet is None && q.params@.len() == 1 && strs_are(q.params@[0], signed@)
            },
            Phase::ReadyToFinalize { psbt } => q.wallet is None && q.params@.len() == 1 && str_is(
                q.params@[0],
                psbt@,
            ),
            Phase::Finalized { hex } => q.wallet is None && q.params@.len() == 1 && str_is(
                q.params@[0],
                hex@,
            ),
            _ => false,
        }
    }

    /// The phase a reply moves the run to: `reply` is the decoded body of the
    /// node's answer to the pending call, or the transport's failure.
    pub open spec fn step(self, reply: Result<Json, String>, next: Phase) -> bool {
        match reply {
            Err(m) => if self.pending() is Some {
                next == Phase::Failed { error: PipelineError::Transport(m) }
            } else {
                next == self.phase
            },
            Ok(resp) => match self.phase {
                Phase::Selected => match shaped(Stage::Create, resp, |v: Json| funded_of(v)) {
                    Ok(f) => next == Phase::Funded { funded: f },
                    Err(e) => next == Phase::Failed { error: e },
                },
                Phase::Funded { .. } => match shaped(Stage::Join, resp, |v: Json| token_shape(v)) {
                    Ok(p) => next matches Phase::Signing { psbt, signed } && psbt == p
                        && signed@.len() == 0,
                    Err(e) => next == Phase::Failed { error: e },
                },
                Phase::Signing { psbt, signed } => if signed@.len() < self.parties() {
                    match shaped(Stage::Sign, resp, |v: Json| signing_of(v)) {
                        Ok(s) => if self.parties() == 1 {
                            next == Phase::ReadyToFinalize { psbt: s.psbt }
                        } else {
                            next matches Phase::Signing { psbt: p2, signed: s2 } && p2 == psbt
                                && s2@ == signed@.push(s.psbt)
                        },
                        Err(e) => next == Phase::Failed { error: e },
                    }
                } else {
                    match shaped(Stage::Combine, resp, |v: Json| token_shape(v)) {
                        Ok(p) => next == Phase::ReadyToFinalize { psbt: p },
                        Err(e) => next == Phase::Failed { error: e },
                    }
                },
                Phase::ReadyToFinalize { .. } => match shaped(
                    Stage::Finalize,
                    resp,
                    |v: Json| finalization_of(v),
                ) {
                    Ok(f) => if f.complete {
                        next == Phase::Finalized { hex: f.hex.unwrap() }
                    } else {
                        next == Phase::Failed { error: PipelineError::NotFullySigned }
                    },
                    Err(e) => next == Phase::Failed { error: e },
                },
                Phase::Finalized { .. } => match shaped(
                    Stage::Broadcast,
                    resp,
                    |v: Json| token_shape(v),
                ) {
                    Ok(t) => next == Phase::Done { txid: t },
                    Err(e) => next == Phase::Failed { error: e },
                },
                _ => next == self.phase,
            },
        }
    }

    /// A run that has not started yet.
    pub fn new(
        input: SpendInput,
        outputs: Vec<Destination>,
        counterparty: String,
        wallets: Vec<String>,
    ) -> (r: Pipeline)
        requires
            wallets@.len() >= 1,
        ensures
            r.wf(),
            r == (Pipeline { input, outputs, counterparty, wallets, phase: Phase::Selected }),
    {
        Pipeline { input, outputs, counterparty, wallets, phase: Phase::Selected }
    }

    /// The call to make next, or `None` once the run is over.
    pub fn next_request(&self) -> (r: Option<Request>)
        requires
            self.wf(),
        ensures
            r is None <==> self.pending() is None,
            r matches Some(q) ==> self.request_fits(q),
    {
        match &self.phase {
            Phase::Selected => Some(
                Request {
                    procedure: Procedure::CreateFundedPsbt,
                    params: create_params_of(&self.input, &self.outputs),
                    wallet: Some(self.wallets[0].clone()),
                },
            ),
            Phase::Funded { funded } => {
                let mut pair: Vec<String> = Vec::new();
                pair.push(funded.psbt.clone());
                pair.push(self.counterparty.clone());
                assert(pair@ =~= seq![funded.psbt, self.counterparty]);
                let mut params: Vec<Json> = Vec::new();
                params.push(str_array(&pair));
                Some(Request { procedure: Procedure::JoinPsbts, params, wallet: None })
            },
            Phase::Signing { psbt, signed } => {
                let mut params: Vec<Json> = Vec::new();
                if signed.len() < self.wallets.len() {
                    params.push(Json::Str(psbt.clone()));
                    Some(
                        Request {
                            procedure: Procedure::ProcessPsbt,
                            params,
                            wallet: Some(self.wallets[signed.len()].clone()),
                        },
                    )
                } else {
                    params.push(str_array(signed));
                    Some(Request { procedure: Procedure::CombinePsbt, params, wallet: None })
                }
            },
            Phase::ReadyToFinalize { psbt } => {
                let mut params: Vec<Json> = Vec::new();
                params.push(Json::Str(psbt.clone()));
                Some(Request { procedure: Procedure::FinalizePsbt, params, wallet: None })
            },
            Phase::Finalized { hex } => {
                let mut params: Vec<Json> = Vec::new();
                params.push(Json::Str(hex.clone()));
                Some(Request { procedure: Procedure::SendRawTransaction, params, wallet: None })
            },
            Phase::Done { .. } => None,
            Phase::Failed { .. } => None,
        }
    }

    /// Moves the run on by the reply to its pending call. A finished run stays
    /// as it is.
    pub fn advance(self, reply: Result<Json, String>) -> (r: Pipeline)
        requires
            self.wf(),
        ensures
            r.wf(),
            r.input == self.input,
            r.outputs == self.outputs,
            r.counterparty == self.counterparty,
            r.wallets == self.wallets,
            self.step(reply, r.phase),
    {
        let ghost old_self = self;
        let Pipeline { input, outputs, counterparty, wallets, phase } = self;
        let n = wallets.len();
        let next = match reply {
            Err(m) => match phase {
                Phase::Done { txid } => Phase::Done { txid },
                Phase::Failed { error } => Phase::Failed { error },
                _ => Phase::Failed { error: PipelineError::Transport(m) },
            },
            Ok(resp) => match phase {
                Phase::Selected => match decode_funded(&resp) {
                    Ok(f) => Phase::Funded { funded: f },
                    Err(e) => Phase::Failed { error: e },
                },
                Phase::Funded { .. } => match decode_token(Stage::Join, &resp) {
                    Ok(p) => Phase::Signing { psbt: p, signed: Vec::new() },
                    Err(e) => Phase::Failed { error: e },
                },
                Phase::Signing { psbt, mut signed } => {
                    if signed.len() < n {
                        match decode_signing(&resp) {
                            Ok(s) => if n == 1 {
                                Phase::ReadyToFinalize { psbt: s.psbt }
                            } else {
                                signed.push(s.psbt);
                                Phase::Signing { psbt, signed }
                            },
                            Err(e) => Phase::Failed { error: e },
                        }
                    } else {
                        match decode_token(Stage::Combine, &resp) {
                            Ok(p) => Phase::ReadyToFinalize { psbt: p },
                            Err(e) => Phase::Failed { error: e },
                        }
                    }
                },
                Phase::ReadyToFinalize { .. } => match decode_finalization(&resp) {
                    Ok(f) => {
                        if f.complete {
                            match f.hex {
                                Some(hex) => Phase::Finalized { hex },
                                None => Phase::Failed { error: PipelineError::Decode(Stage::Finalize) },
                            }
                        } else {
                            Phase::Failed { error: PipelineError::NotFullySigned }
                        }
                    },
                    Err(e) => Phase::Failed { error: e },
                },
                Phase::Finalized { .. } => match decode_token(Stage::Broadcast, &resp) {
                    Ok(t) => Phase::Done { txid: t },
                    Err(e) => Phase::Failed { error: e },
                },
                Phase::Done { txid } => Phase::Done { txid },
                Phase::Failed { error } => Phase::Failed { error },
            },
        };
        Pipeline { input, outputs, counterparty, wallets, phase: next }
    }

    /// How the run ended: the broadcast transaction's id, or the error that
    /// stopped it; `None` while it is still under way.
    pub fn outcome(self) -> (r: Option<Result<String, PipelineError>>)
        ensures
            match self.phase {
                Phase::Done { txid } => r == Some(Ok::<String, PipelineError>(txid)),
                Phase::Failed { error } => r == Some(Err::<String, PipelineError>(error)),
                _ => r is None,
            },
    {
        match self.phase {
            Phase::Done { txid } => Some(Ok(txid)),
            Phase::Failed { error } => Some(Err(error)),
            _ => None,
        }
    }
}

/// How far along the lifecycle a phase lies.
pub open spec fn rank(p: Pipeline) -> int {
    match p.phase {
        Phase::Selected => 0,
        Phase::Funded { .. } => 1,
        Phase::Signing { signed, .. } => 2 + signed@.len() as int,
        Phase::ReadyToFinalize { .. } => p.parties() + 3,
        Phase::Finalized { .. } => p.parties() + 4,
        Phase::Done { .. } => p.parties() + 5,
        Phase::Failed { .. } => p.parties() + 5,
    }
}

/// Every reply to a pending call moves the run strictly forward, so no stage
/// is ever re-entered: in particular, an input is funded at most once per run.
pub proof fn lemma_step_moves_forward(p: Pipeline, reply: Result<Json, String>, next: Phase)
    requires
        p.wf(),
        p.pending() is Some,
        p.step(reply, next),
    ensures
        rank(Pipeline { phase: next, ..p }) > rank(p),
{
}

/// The reply is a well-formed signing result.
pub open spec fn reports_signature(reply: Result<Json, String>) -> bool {
    reply matches Ok(resp) && shaped(Stage::Sign, resp, |v: Json| signing_of(v)) is Ok
}

/// A run moves on to finalization only from signing, and only once every
/// party's signing step has succeeded: either all of them already have and
/// their variants were combined, or the reply is the last party's signature.
pub proof fn lemma_finalize_only_after_every_party_signed(
    p: Pipeline,
    reply: Result<Json, String>,
    next: Phase,
)
    requires
        p.wf(),
        p.step(reply, next),
        !(p.phase is ReadyToFinalize),
        next is ReadyToFinalize,
    ensures
        p.phase matches Phase::Signing { signed, .. } && (signed@.len() == p.parties() || (
        signed@.len() + 1 == p.parties() && reports_signature(reply))),
{
}

/// The reply is a finalization that reports the transaction complete.
pub open spec fn reports_complete(reply: Result<Json, String>) -> bool {
    reply matches Ok(resp) && (shaped(Stage::Finalize, resp, |v: Json| finalization_of(v)) matches Ok(
        f,
    ) && f.complete)
}

/// A run asks for a broadcast only after the node's finalization of its PSBT
/// reported the transaction complete: no step enters the broadcasting phase
/// from anywhere else.
pub proof fn lemma_broadcast_only_after_complete(p: Pipeline, reply: Result<Json, String>, next: Phase)
    requires
        p.wf(),
        p.step(reply, next),
        (Pipeline { phase: next, ..p }).pending() == Some(Procedure::SendRawTransaction),
    ensures
        p.pending() == Some(Procedure::FinalizePsbt),
        reports_complete(reply),
{
}

/// A finalization that reports the transaction incomplete ends the run with
/// `NotFullySigned`; nothing is called after it.
pub proof fn lemma_incomplete_finalization_stops(p: Pipeline, resp: Json, next: Phase)
    requires
        p.wf(),
        p.pending() == Some(Procedure::FinalizePsbt),
        shaped(Stage::Finalize, resp, |v: Json| finalization_of(v)) matches Ok(f) && !f.complete,
        p.step(Ok(resp), next),
    ensures
        next == (Phase::Failed { error: PipelineError::NotFullySigned }),
        (Pipeline { phase: next, ..p }).pending() is None,
{
}

} // verus!
