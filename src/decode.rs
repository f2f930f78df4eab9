use vstd::prelude::*;
use vstd::string::StringExecFns;

use crate::json::{field, field_of, present, Json};
use crate::rpc::{str_is, strs_are};
use crate::types::{
    FinalizationResult, FundedPsbt, PipelineError, SigningResult, SpendInput, Stage, UnspentOutput,
};

verus! {

/// The error a stage reports when the node answers with `code` and `message`:
/// funding and joining refusals are domain errors, the rest protocol errors.
pub open spec fn node_error(stage: Stage, code: i64, message: String) -> PipelineError {
    match stage {
        Stage::Create => PipelineError::FundingRejected { code, message },
        Stage::Join => PipelineError::JoinRejected { code, message },
        _ => PipelineError::Protocol { stage, code, message },
    }
}

/// The error an envelope's non-null `error` member stands for.
pub open spec fn error_of(stage: Stage, e: Json) -> PipelineError {
    match (field_of(e, "code"@), field_of(e, "message"@)) {
        (Some(Json::Int(code)), Some(Json::Str(message))) => node_error(stage, code, message),
        _ => PipelineError::Decode(stage),
    }
}

/// The payload of a reply envelope: its `error` when that is not null, else its
/// `result` when that is not null, else a decode error of the stage.
pub open spec fn envelope_result(stage: Stage, resp: Json) -> Result<Json, PipelineError> {
    if present(field_of(resp, "error"@)) {
        Err(error_of(stage, field_of(resp, "error"@).unwrap()))
    } else if present(field_of(resp, "result"@)) {
        Ok(field_of(resp, "result"@).unwrap())
    } else {
        Err(PipelineError::Decode(stage))
    }
}

/// A non-empty string, the only shape a PSBT, a raw transaction or a txid has.
pub open spec fn token_of(v: Option<Json>) -> Option<String> {
    match v {
        Some(Json::Str(s)) => if s@.len() > 0 { Some(s) } else { None },
        _ => None,
    }
}

/// A funding result: a non-empty `psbt`, a decimal `fee` and a `changepos`
/// that is an output index fitting 32 bits, or -1 for no change output.
pub open spec fn funded_of(v: Json) -> Option<FundedPsbt> {
    match (token_of(field_of(v, "psbt"@)), field_of(v, "fee"@), field_of(v, "changepos"@)) {
        (Some(psbt), Some(Json::Decimal(fee)), Some(Json::Int(pos))) =>
            if -1 <= pos <= i32::MAX {
                Some(FundedPsbt { psbt, fee, change_position: pos as i32 })
            } else {
                None
            },
        _ => None,
    }
}

/// A signing result: a non-empty `psbt` and the `complete` flag.
pub open spec fn signing_of(v: Json) -> Option<SigningResult> {
    match (token_of(field_of(v, "psbt"@)), field_of(v, "complete"@)) {
        (Some(psbt), Some(Json::Bool(complete))) => Some(SigningResult { psbt, complete }),
        _ => None,
    }
}

/// A finalization result: `complete` is required, and a complete one carries
/// its non-empty `hex`.
pub open spec fn finalization_of(v: Json) -> Option<FinalizationResult> {
    match field_of(v, "complete"@) {
        Some(Json::Bool(complete)) => {
            let hex = token_of(field_of(v, "hex"@));
            if complete && hex is None {
                None
            } else {
                Some(FinalizationResult { hex, complete })
            }
        },
        _ => None,
    }
}

/// Applies a shape to the payload of `resp`; a shape mismatch is a decode
/// error of the stage.
pub open spec fn shaped<T>(stage: Stage, resp: Json, shape: spec_fn(Json) -> Option<T>) -> Result<
    T,
    PipelineError,
> {
    match envelope_result(stage, resp) {
        Err(e) => Err(e),
        Ok(v) => match shape(v) {
            Some(t) => Ok(t),
            None => Err(PipelineError::Decode(stage)),
        },
    }
}

pub open spec fn token_shape(v: Json) -> Option<String> {
    token_of(Some(v))
}

fn key(s: &str) -> (r: String)
    ensures
        r@ == s@,
{
    String::from_str(s)
}

/// Reads the code and message of an envelope's `error` member.
fn error_from(stage: Stage, e: &Json) -> (r: PipelineError)
    ensures
        r == error_of(stage, *e),
{
    let code = field(e, &key("code"));
    let message = field(e, &key("message"));
    match (code, message) {
        (Some(Json::Int(c)), Some(Json::Str(m))) => match stage {
            Stage::Create => PipelineError::FundingRejected { code: *c, message: m.clone() },
            Stage::Join => PipelineError::JoinRejected { code: *c, message: m.clone() },
            _ => PipelineError::Protocol { stage, code: *c, message: m.clone() },
        },
        _ => PipelineError::Decode(stage),
    }
}

/// Opens a reply envelope: a node-reported error, or the non-null `result`.
pub fn open_envelope(stage: Stage, resp: &Json) -> (r: Result<&Json, PipelineError>)
    ensures
        r is Ok == envelope_result(stage, *resp) is Ok,
        r matches Ok(v) ==> envelope_result(stage, *resp) == Ok::<Json, PipelineError>(*v),
        r matches Err(e) ==> envelope_result(stage, *resp) == Err::<Json, PipelineError>(e),
{
    match field(resp, &key("error")) {
        Some(e) => {
            match e {
                Json::Null => {},
                _ => return Err(error_from(stage, e)),
            }
        },
        None => {},
    }
    match field(resp, &key("result")) {
        Some(v) => match v {
            Json::Null => Err(PipelineError::Decode(stage)),
            _ => Ok(v),
        },
        None => Err(PipelineError::Decode(stage)),
    }
}

/// Reads a non-empty string value.
fn token(v: Option<&Json>) -> (r: Option<String>)
    ensures
        r == token_of(
            match v {
                Some(x) => Some(*x),
                None => None,
            },
        ),
{
    match v {
        Some(Json::Str(s)) => if !s.as_str().is_empty() {
            Some(s.clone())
        } else {
            None
        },
        _ => None,
    }
}

/// Decodes a reply whose result is a single PSBT, raw transaction or txid.
pub fn decode_token(stage: Stage, resp: &Json) -> (r: Result<String, PipelineError>)
    ensures
        r == shaped(stage, *resp, |v: Json| token_shape(v)),
{
    let v = open_envelope(stage, resp)?;
    match token(Some(v)) {
        Some(t) => Ok(t),
        None => Err(PipelineError::Decode(stage)),
    }
}

/// Decodes the reply to funding a new PSBT.
pub fn decode_funded(resp: &Json) -> (r: Result<FundedPsbt, PipelineError>)
    ensures
        r == shaped(Stage::Create, *resp, |v: Json| funded_of(v)),
{
    let v = open_envelope(Stage::Create, resp)?;
    let psbt = token(field(v, &key("psbt")));
    let fee = field(v, &key("fee"));
    let pos = field(v, &key("changepos"));
    match (psbt, fee, pos) {
        (Some(psbt), Some(Json::Decimal(fee)), Some(Json::Int(pos))) => {
            if -1 <= *pos && *pos <= i32::MAX as i64 {
                Ok(FundedPsbt { psbt, fee: fee.clone(), change_position: *pos as i32 })
            } else {
                Err(PipelineError::Decode(Stage::Create))
            }
        },
        _ => Err(PipelineError::Decode(Stage::Create)),
    }
}

/// Decodes one party's signing reply.
pub fn decode_signing(resp: &Json) -> (r: Result<SigningResult, PipelineError>)
    ensures
        r == shaped(Stage::Sign, *resp, |v: Json| signing_of(v)),
{
    let v = open_envelope(Stage::Sign, resp)?;
    let psbt = token(field(v, &key("psbt")));
    match (psbt, field(v, &key("complete"))) {
        (Some(psbt), Some(Json::Bool(complete))) => Ok(SigningResult { psbt, complete: *complete }),
        _ => Err(PipelineError::Decode(Stage::Sign)),
    }
}

/// Decodes the finalization reply.
pub fn decode_finalization(resp: &Json) -> (r: Result<FinalizationResult, PipelineError>)
    ensures
        r == shaped(Stage::Finalize, *resp, |v: Json| finalization_of(v)),
{
    let v = open_envelope(Stage::Finalize, resp)?;
    match field(v, &key("complete")) {
        Some(Json::Bool(complete)) => {
            let hex = token(field(v, &key("hex")));
            if *complete && hex.is_none() {
                Err(PipelineError::Decode(Stage::Finalize))
            } else {
                Ok(FinalizationResult { hex, complete: *complete })
            }
        },
        _ => Err(PipelineError::Decode(Stage::Finalize)),
    }
}

/// `j` is a field holding a `u32`.
pub open spec fn u32_is(j: Option<Json>, n: u32) -> bool {
    j == Some(Json::Int(n as i64))
}

pub open spec fn is_u32(j: Option<Json>) -> bool {
    j matches Some(Json::Int(n)) && 0 <= n <= u32::MAX
}

pub open spec fn is_str(j: Option<Json>) -> bool {
    j matches Some(Json::Str(_))
}

pub open spec fn is_bool(j: Option<Json>) -> bool {
    j matches Some(Json::Bool(_))
}

/// `j` is an array of strings.
pub open spec fn is_str_list(j: Option<Json>) -> bool {
    match j {
        Some(Json::Array(a)) => forall|i: int| 0 <= i < a@.len() ==> (#[trigger] a@[i] is Str),
        _ => false,
    }
}

/// `v` has every member of a listed unspent output, each of its type.
pub open spec fn unspent_shape(v: Json) -> bool {
    &&& is_str(field_of(v, "txid"@))
    &&& is_u32(field_of(v, "vout"@))
    &&& is_str(field_of(v, "address"@))
    &&& is_str(field_of(v, "label"@))
    &&& is_str(field_of(v, "scriptPubKey"@))
    &&& field_of(v, "amount"@) matches Some(Json::Decimal(_))
    &&& is_u32(field_of(v, "confirmations"@))
    &&& is_bool(field_of(v, "spendable"@))
    &&& is_bool(field_of(v, "solvable"@))
    &&& is_str(field_of(v, "desc"@))
    &&& is_str_list(field_of(v, "parent_descs"@))
    &&& is_bool(field_of(v, "safe"@))
}

/// `u` holds exactly the members of `v`.
pub open spec fn unspent_fits(v: Json, u: UnspentOutput) -> bool {
    &&& str_is(field_of(v, "txid"@).unwrap(), u.txid@)
    &&& u32_is(field_of(v, "vout"@), u.vout)
    &&& str_is(field_of(v, "address"@).unwrap(), u.address@)
    &&& str_is(field_of(v, "label"@).unwrap(), u.label@)
    &&& str_is(field_of(v, "scriptPubKey"@).unwrap(), u.script_pub_key@)
    &&& field_of(v, "amount"@) matches Some(Json::Decimal(a)) && a@ == u.amount@
    &&& u32_is(field_of(v, "confirmations"@), u.confirmations)
    &&& field_of(v, "spendable"@) == Some(Json::Bool(u.spendable))
    &&& field_of(v, "solvable"@) == Some(Json::Bool(u.solvable))
    &&& str_is(field_of(v, "desc"@).unwrap(), u.desc@)
    &&& strs_are(field_of(v, "parent_descs"@).unwrap(), u.parent_descs@)
    &&& field_of(v, "safe"@) == Some(Json::Bool(u.safe))
}

/// The wallet's listing: an array whose items are all unspent outputs.
pub open spec fn listing_shape(v: Json) -> bool {
    match v {
        Json::Array(a) => forall|i: int| 0 <= i < a@.len() ==> #[trigger] unspent_shape(a@[i]),
        _ => false,
    }
}

fn text_of(v: Option<&Json>) -> (r: Option<String>)
    ensures
        r is Some == is_str(
            match v {
                Some(x) => Some(*x),
                None => None,
            },
        ),
        r matches Some(t) ==> str_is(*v.unwrap(), t@),
{
    match v {
        Some(Json::Str(t)) => Some(t.clone()),
        _ => None,
    }
}

fn u32_of(v: Option<&Json>) -> (r: Option<u32>)
    ensures
        r is Some == is_u32(
            match v {
                Some(x) => Some(*x),
                None => None,
            },
        ),
        r matches Some(n) ==> *v.unwrap() == Json::Int(n as i64),
{
    match v {
        Some(Json::Int(n)) => if 0 <= *n && *n <= u32::MAX as i64 {
            Some(*n as u32)
        } else {
            None
        },
        _ => None,
    }
}

fn bool_of(v: Option<&Json>) -> (r: Option<bool>)
    ensures
        r is Some == is_bool(
            match v {
                Some(x) => Some(*x),
                None => None,
            },
        ),
        r matches Some(b) ==> *v.unwrap() == Json::Bool(b),
{
    match v {
        Some(Json::Bool(b)) => Some(*b),
        _ => None,
    }
}

fn text_list_of(v: Option<&Json>) -> (r: Option<Vec<String>>)
    ensures
        r is Some == is_str_list(
            match v {
                Some(x) => Some(*x),
                None => None,
            },
        ),
        r matches Some(l) ==> strs_are(*v.unwrap(), l@),
{
    match v {
        Some(Json::Array(a)) => {
            let mut out: Vec<String> = Vec::new();
            let mut i: usize = 0;
            while i < a.len()
                invariant
                    i <= a@.len(),
                    out@.len() == i,
                    forall|k: int| 0 <= k < i ==> #[trigger] str_is(a@[k], out@[k]@),
                    forall|k: int| 0 <= k < i ==> (#[trigger] a@[k] is Str),
                    v matches Some(x) && *x == Json::Array(*a),
                decreases a.len() - i,
            {
                match &a[i] {
                    Json::Str(t) => out.push(t.clone()),
                    _ => {
                        assert(!(a@[i as int] is Str));
                        return None;
                    },
                }
                i = i + 1;
            }
            Some(out)
        },
        _ => None,
    }
}

/// Reads one listed unspent output.
pub fn unspent_from(v: &Json) -> (r: Option<UnspentOutput>)
    ensures
        r is Some == unspent_shape(*v),
        r matches Some(u) ==> unspent_fits(*v, u),
{
    let txid = text_of(field(v, &key("txid")));
    let vout = u32_of(field(v, &key("vout")));
    let address = text_of(field(v, &key("address")));
    let label = text_of(field(v, &key("label")));
    let script_pub_key = text_of(field(v, &key("scriptPubKey")));
    let amount = match field(v, &key("amount")) {
        Some(Json::Decimal(a)) => Some(a.clone()),
        _ => None,
    };
    let confirmations = u32_of(field(v, &key("confirmations")));
    let spendable = bool_of(field(v, &key("spendable")));
    let solvable = bool_of(field(v, &key("solvable")));
    let desc = text_of(field(v, &key("desc")));
    let parent_descs = text_list_of(field(v, &key("parent_descs")));
    let safe = bool_of(field(v, &key("safe")));
    match (txid, vout, address, label, script_pub_key, amount) {
        (Some(txid), Some(vout), Some(address), Some(label), Some(script_pub_key), Some(amount)) => {
            match (confirmations, spendable, solvable, desc, parent_descs, safe) {
                (
                    Some(confirmations),
                    Some(spendable),
                    Some(solvable),
                    Some(desc),
                    Some(parent_descs),
                    Some(safe),
                ) => Some(
                    UnspentOutput {
                        txid,
                        vout,
                        address,
                        label,
                        script_pub_key,
                        amount,
                        confirmations,
                        spendable,
                        solvable,
                        desc,
                        parent_descs,
                        safe,
                    },
                ),
                _ => None,
            }
        },
        _ => None,
    }
}

/// Decodes the wallet's list of unspent outputs, in the order listed.
pub fn decode_unspent(resp: &Json) -> (r: Result<Vec<UnspentOutput>, PipelineError>)
    ensures
        r is Ok == (envelope_result(Stage::ListUnspent, *resp) matches Ok(v) && listing_shape(v)),
        r matches Ok(list) ==> (envelope_result(Stage::ListUnspent, *resp) matches Ok(
            Json::Array(a),
        ) && a@.len() == list@.len() && forall|i: int|
            0 <= i < a@.len() ==> #[trigger] unspent_fits(a@[i], list@[i])),
        r matches Err(e) ==> e == match envelope_result(Stage::ListUnspent, *resp) {
            Err(e2) => e2,
            Ok(_) => PipelineError::Decode(Stage::ListUnspent),
        },
{
    let v = open_envelope(Stage::ListUnspent, resp)?;
    match v {
        Json::Array(a) => {
            let mut out: Vec<UnspentOutput> = Vec::new();
            let mut i: usize = 0;
            while i < a.len()
                invariant
                    i <= a@.len(),
                    out@.len() == i,
                    forall|k: int| 0 <= k < i ==> #[trigger] unspent_fits(a@[k], out@[k]),
                    forall|k: int| 0 <= k < i ==> #[trigger] unspent_shape(a@[k]),
                    *v == Json::Array(*a),
                    envelope_result(Stage::ListUnspent, *resp) == Ok::<Json, PipelineError>(*v),
                decreases a.len() - i,
            {
                match unspent_from(&a[i]) {
                    Some(u) => out.push(u),
                    None => {
                        assert(!unspent_shape(a@[i as int]));
                        return Err(PipelineError::Decode(Stage::ListUnspent));
                    },
                }
                i = i + 1;
            }
            Ok(out)
        },
        _ => Err(PipelineError::Decode(Stage::ListUnspent)),
    }
}

/// The reference a new PSBT spends an unspent output by.
pub fn spend_input_of(u: &UnspentOutput) -> (r: SpendInput)
    ensures
        r.txid == u.txid,
        r.vout == u.vout,
{
    SpendInput { txid: u.txid.clone(), vout: u.vout }
}

/// A reply that carries no error and either no usable `result` or one of the
/// wrong shape decodes to a decode error of its stage, never to a value.
pub proof fn lemma_malformed_reply_is_decode_error<T>(
    stage: Stage,
    resp: Json,
    shape: spec_fn(Json) -> Option<T>,
)
    requires
        !present(field_of(resp, "error"@)),
        !present(field_of(resp, "result"@)) || shape(field_of(resp, "result"@).unwrap()) is None,
    ensures
        shaped(stage, resp, shape) == Err::<T, PipelineError>(PipelineError::Decode(stage)),
{
}

/// The reply's payload has none of the shapes the stages expect.
pub open spec fn fits_no_stage(resp: Json) -> bool {
    let r = field_of(resp, "result"@);
    !present(r) || (funded_of(r.unwrap()) is None && signing_of(r.unwrap()) is None
        && finalization_of(r.unwrap()) is None && token_shape(r.unwrap()) is None)
}

/// Every decoder turns a reply without an error whose `result` is missing,
/// null or of the wrong shape into a decode error naming its stage.
pub proof fn lemma_every_decoder_rejects_malformed(resp: Json)
    requires
        !present(field_of(resp, "error"@)),
        fits_no_stage(resp),
    ensures
        shaped(Stage::Create, resp, |v: Json| funded_of(v)) == Err::<FundedPsbt, PipelineError>(
            PipelineError::Decode(Stage::Create),
        ),
        shaped(Stage::Sign, resp, |v: Json| signing_of(v)) == Err::<SigningResult, PipelineError>(
            PipelineError::Decode(Stage::Sign),
        ),
        shaped(Stage::Finalize, resp, |v: Json| finalization_of(v)) == Err::<
            FinalizationResult,
            PipelineError,
        >(PipelineError::Decode(Stage::Finalize)),
        forall|stage: Stage|
            shaped(stage, resp, |v: Json| token_shape(v)) == Err::<String, PipelineError>(
                PipelineError::Decode(stage),
            ),
{
}

/// The outcome of a join is the node's acceptance decision and nothing else:
/// two replies that agree on accepting (each with a non-empty PSBT) or on
/// refusing decode to two successes or to two failures, whichever order the
/// request listed the PSBTs in.
pub proof fn lemma_join_outcome_follows_acceptance(r1: Json, r2: Json)
    requires
        present(field_of(r1, "error"@)) == present(field_of(r2, "error"@)),
        !present(field_of(r1, "error"@)) ==> token_of(field_of(r1, "result"@)) is Some && token_of(
            field_of(r2, "result"@),
        ) is Some,
    ensures
        shaped(Stage::Join, r1, |v: Json| token_shape(v)) is Ok == shaped(
            Stage::Join,
            r2,
            |v: Json| token_shape(v),
        ) is Ok,
{
}

/// Signing reports the node's `complete` flag and PSBT as they are: two
/// replies with the same payload decode alike, so a repeated signing that adds
/// nothing reports `complete` unchanged.
pub proof fn lemma_signing_reports_node_verdict(resp: Json)
    ensures
        shaped(Stage::Sign, resp, |v: Json| signing_of(v)) matches Ok(s) ==> {
            let r = field_of(resp, "result"@).unwrap();
            &&& field_of(r, "complete"@) == Some(Json::Bool(s.complete))
            &&& str_is(field_of(r, "psbt"@).unwrap(), s.psbt@)
        },
{
}

/// A funding result's change position is an output index or -1 for none.
pub proof fn lemma_funded_change_position_in_range(resp: Json)
    ensures
        shaped(Stage::Create, resp, |v: Json| funded_of(v)) matches Ok(f) ==> f.change_position
            >= -1,
{
}

/// Funding never succeeds with an empty PSBT.
pub proof fn lemma_funded_psbt_is_not_empty(resp: Json)
    ensures
        shaped(Stage::Create, resp, |v: Json| funded_of(v)) matches Ok(f) ==> f.psbt@.len() > 0,
{
}

} // verus!
