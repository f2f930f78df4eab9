use psbt_flow::decode::{decode_finalization, decode_funded, decode_signing, decode_token};
use psbt_flow::json::Json;
use psbt_flow::pipeline::{Phase, Pipeline};
use psbt_flow::rpc::{Procedure, Request};
use psbt_flow::types::{Destination, PipelineError, SpendInput, Stage};

fn s(t: &str) -> Json {
    Json::Str(t.to_string())
}

fn obj(entries: Vec<(&str, Json)>) -> Json {
    Json::Object(entries.into_iter().map(|(k, v)| (k.to_string(), v)).collect())
}

fn ok_reply(result: Json) -> Json {
    obj(vec![("result", result), ("error", Json::Null), ("id", s("psbt-flow"))])
}

fn err_reply(code: i64, message: &str) -> Json {
    obj(vec![
        ("result", Json::Null),
        ("error", obj(vec![("code", Json::Int(code)), ("message", s(message))])),
        ("id", s("psbt-flow")),
    ])
}

fn str_param(j: &Json) -> String {
    match j {
        Json::Str(t) => t.clone(),
        other => panic!("expected a string parameter, got {:?}", other),
    }
}

fn str_list(j: &Json) -> Vec<String> {
    match j {
        Json::Array(a) => a.iter().map(str_param).collect(),
        other => panic!("expected an array parameter, got {:?}", other),
    }
}

/// A PSBT of the fake node: a template name and the parties that signed it,
/// written `template|sig:a|sig:b`.
fn sigs_of(psbt: &str) -> (String, Vec<String>) {
    let mut parts = psbt.split('|');
    let template = parts.next().unwrap_or("").to_string();
    let sigs = parts.filter_map(|p| p.strip_prefix("sig:")).map(|p| p.to_string()).collect();
    (template, sigs)
}

fn with_sigs(template: &str, sigs: &[String]) -> String {
    let mut out = template.to_string();
    for sig in sigs {
        out.push_str("|sig:");
        out.push_str(sig);
    }
    out
}

/// A fake ledger node. Wallets listed in `keyless` hold no key for the
/// transaction; every other wallet adds its signature when it processes one.
/// Finalization is complete only once all `required` parties have signed.
struct FakeNode {
    required: Vec<String>,
    keyless: Vec<String>,
    calls: Vec<Procedure>,
}

impl FakeNode {
    fn new(required: &[&str], keyless: &[&str]) -> FakeNode {
        FakeNode {
            required: required.iter().map(|w| w.to_string()).collect(),
            keyless: keyless.iter().map(|w| w.to_string()).collect(),
            calls: Vec::new(),
        }
    }

    fn sign(&self, wallet: &str, psbt: &str) -> Json {
        let (template, mut sigs) = sigs_of(psbt);
        if !self.keyless.iter().any(|k| k == wallet) && !sigs.iter().any(|g| g == wallet) {
            sigs.push(wallet.to_string());
        }
        let complete = self.required.iter().all(|r| sigs.contains(r));
        ok_reply(obj(vec![("psbt", s(&with_sigs(&template, &sigs))), ("complete", Json::Bool(complete))]))
    }

    fn join(&self, psbts: &[String]) -> Json {
        let templates: Vec<String> = psbts.iter().map(|p| sigs_of(p).0).collect();
        let base: Vec<&str> = templates.iter().map(|t| t.split('+').next().unwrap_or("")).collect();
        if base.iter().any(|b| *b != base[0]) {
            return err_reply(-8, "PSBTs are not compatible");
        }
        ok_reply(s(&format!("{}+joined", base[0])))
    }

    fn answer(&mut self, req: &Request) -> Json {
        self.calls.push(req.procedure);
        match req.procedure {
            Procedure::CreateFundedPsbt => ok_reply(obj(vec![
                ("psbt", s("tmpl")),
                ("fee", Json::Decimal("0.0000141".to_string())),
                ("changepos", Json::Int(1)),
            ])),
            Procedure::JoinPsbts => self.join(&str_list(&req.params[0])),
            Procedure::ProcessPsbt => {
                let wallet = req.wallet.clone().expect("signing runs in a wallet");
                self.sign(&wallet, &str_param(&req.params[0]))
            }
            Procedure::CombinePsbt => {
                let psbts = str_list(&req.params[0]);
                let template = sigs_of(&psbts[0]).0;
                let mut sigs: Vec<String> = Vec::new();
                for p in &psbts {
                    for g in sigs_of(p).1 {
                        if !sigs.contains(&g) {
                            sigs.push(g);
                        }
                    }
                }
                ok_reply(s(&with_sigs(&template, &sigs)))
            }
            Procedure::FinalizePsbt => {
                let (_, sigs) = sigs_of(&str_param(&req.params[0]));
                if self.required.iter().all(|r| sigs.contains(r)) {
                    ok_reply(obj(vec![("hex", s("0200000001abcdef")), ("complete", Json::Bool(true))]))
                } else {
                    ok_reply(obj(vec![("psbt", s("partial")), ("complete", Json::Bool(false))]))
                }
            }
            Procedure::SendRawTransaction => ok_reply(s("canned-txid-0123")),
            Procedure::ListUnspent => ok_reply(Json::Array(Vec::new())),
        }
    }
}

fn spend_input() -> SpendInput {
    SpendInput {
        txid: "aaaaaaaaaaaaaaaaaaaaaaaaaaaaaaaaaaaaaaaaaaaaaaaaaaaaaaaaaaaaaaaa".to_string(),
        vout: 1,
    }
}

fn destinations() -> Vec<Destination> {
    vec![Destination {
        address: "bcrt1qpfk7t93jfl240a4qv78kplqvqntxafg03rx68p".to_string(),
        amount: "0.0001".to_string(),
    }]
}

fn run(node: &mut FakeNode, wallets: &[&str], counterparty: &str) -> Option<Result<String, PipelineError>> {
    let mut p = Pipeline::new(
        spend_input(),
        destinations(),
        counterparty.to_string(),
        wallets.iter().map(|w| w.to_string()).collect(),
    );
    let mut guard = 0;
    while let Some(req) = p.next_request() {
        let reply = node.answer(&req);
        p = p.advance(Ok(reply));
        guard += 1;
        assert!(guard < 20, "the run does not end");
    }
    p.outcome()
}

#[test]
fn end_to_end_calls_each_stage_in_order() {
    let mut node = FakeNode::new(&["alice", "bob"], &[]);
    let outcome = run(&mut node, &["alice", "bob"], "tmpl|sig:carol");
    assert_eq!(outcome, Some(Ok("canned-txid-0123".to_string())));
    let names: Vec<String> = node.calls.iter().map(|c| c.name()).collect();
    assert_eq!(
        names,
        vec![
            "walletcreatefundedpsbt",
            "joinpsbts",
            "walletprocesspsbt",
            "walletprocesspsbt",
            "combinepsbt",
            "finalizepsbt",
            "sendrawtransaction"
        ]
    );
}

#[test]
fn first_request_funds_the_selected_input() {
    let p = Pipeline::new(spend_input(), destinations(), "other".to_string(), vec!["alice".to_string()]);
    let req = p.next_request().unwrap();
    assert_eq!(req.procedure, Procedure::CreateFundedPsbt);
    assert_eq!(req.wallet, Some("alice".to_string()));
    assert_eq!(req.params.len(), 2);
    let expected_input = obj(vec![("txid", s(&spend_input().txid)), ("vout", Json::Int(1))]);
    assert_eq!(req.params[0], Json::Array(vec![expected_input]));
    let expected_output = obj(vec![(
        "bcrt1qpfk7t93jfl240a4qv78kplqvqntxafg03rx68p",
        Json::Decimal("0.0001".to_string()),
    )]);
    assert_eq!(req.params[1], Json::Array(vec![expected_output]));
}

#[test]
fn join_lists_our_psbt_then_the_counterparty() {
    let p = Pipeline::new(spend_input(), destinations(), "theirs".to_string(), vec!["alice".to_string()]);
    let p = p.advance(Ok(ok_reply(obj(vec![
        ("psbt", s("ours")),
        ("fee", Json::Decimal("0.0001".to_string())),
        ("changepos", Json::Int(-1)),
    ]))));
    match &p.phase {
        Phase::Funded { funded } => {
            assert_eq!(funded.psbt, "ours");
            assert_eq!(funded.fee, "0.0001");
            assert_eq!(funded.change_position, -1);
        }
        other => panic!("not funded: {:?}", other),
    }
    let req = p.next_request().unwrap();
    assert_eq!(req.procedure, Procedure::JoinPsbts);
    assert_eq!(req.wallet, None);
    assert_eq!(str_list(&req.params[0]), vec!["ours".to_string(), "theirs".to_string()]);
}

#[test]
fn single_party_skips_combine() {
    let mut node = FakeNode::new(&["alice"], &[]);
    let outcome = run(&mut node, &["alice"], "tmpl");
    assert_eq!(outcome, Some(Ok("canned-txid-0123".to_string())));
    assert_eq!(
        node.calls,
        vec![
            Procedure::CreateFundedPsbt,
            Procedure::JoinPsbts,
            Procedure::ProcessPsbt,
            Procedure::FinalizePsbt,
            Procedure::SendRawTransaction
        ]
    );
}

#[test]
fn finalize_is_complete_only_when_every_party_signed() {
    let mut all = FakeNode::new(&["alice", "bob", "carol"], &[]);
    assert_eq!(run(&mut all, &["alice", "bob", "carol"], "tmpl"), Some(Ok("canned-txid-0123".to_string())));

    let mut short = FakeNode::new(&["alice", "bob", "carol"], &["carol"]);
    assert_eq!(run(&mut short, &["alice", "bob", "carol"], "tmpl"), Some(Err(PipelineError::NotFullySigned)));
}

#[test]
fn incomplete_finalization_never_broadcasts() {
    let mut node = FakeNode::new(&["alice", "bob"], &["bob"]);
    let outcome = run(&mut node, &["alice", "bob"], "tmpl");
    assert_eq!(outcome, Some(Err(PipelineError::NotFullySigned)));
    assert!(!node.calls.contains(&Procedure::SendRawTransaction));
    assert_eq!(node.calls.last(), Some(&Procedure::FinalizePsbt));
}

#[test]
fn signing_twice_without_keys_keeps_complete() {
    let node = FakeNode::new(&["alice", "bob"], &["bob"]);
    let once = decode_signing(&node.sign("alice", "tmpl")).unwrap();
    assert!(!once.complete);
    let again = decode_signing(&node.sign("bob", &once.psbt)).unwrap();
    let third = decode_signing(&node.sign("bob", &again.psbt)).unwrap();
    assert_eq!(again.complete, once.complete);
    assert_eq!(third.complete, again.complete);
    assert_eq!(third.psbt, again.psbt);
}

#[test]
fn join_acceptance_does_not_depend_on_order() {
    let node = FakeNode::new(&["alice"], &[]);
    let a = "tmpl|sig:alice".to_string();
    let b = "tmpl|sig:bob".to_string();
    let ab = decode_token(Stage::Join, &node.join(&[a.clone(), b.clone()]));
    let ba = decode_token(Stage::Join, &node.join(&[b.clone(), a.clone()]));
    assert!(ab.is_ok() && ba.is_ok());

    let c = "other|sig:carol".to_string();
    let ac = decode_token(Stage::Join, &node.join(&[a.clone(), c.clone()]));
    let ca = decode_token(Stage::Join, &node.join(&[c, a]));
    assert_eq!(ac, Err(PipelineError::JoinRejected { code: -8, message: "PSBTs are not compatible".to_string() }));
    assert_eq!(ac, ca);
}

#[test]
fn rejected_join_stops_the_run() {
    let mut node = FakeNode::new(&["alice"], &[]);
    let outcome = run(&mut node, &["alice"], "different|sig:bob");
    assert_eq!(
        outcome,
        Some(Err(PipelineError::JoinRejected { code: -8, message: "PSBTs are not compatible".to_string() }))
    );
    assert_eq!(node.calls, vec![Procedure::CreateFundedPsbt, Procedure::JoinPsbts]);
}

#[test]
fn transport_failure_stops_the_run() {
    let p = Pipeline::new(spend_input(), destinations(), "x".to_string(), vec!["alice".to_string()]);
    let p = p.advance(Err("connection refused".to_string()));
    assert!(p.next_request().is_none());
    assert_eq!(p.outcome(), Some(Err(PipelineError::Transport("connection refused".to_string()))));
}

#[test]
fn finished_run_ignores_further_replies() {
    let p = Pipeline::new(spend_input(), destinations(), "x".to_string(), vec!["alice".to_string()]);
    let p = p.advance(Err("down".to_string()));
    let p = p.advance(Ok(ok_reply(s("late"))));
    assert_eq!(p.outcome(), Some(Err(PipelineError::Transport("down".to_string()))));
}

#[test]
fn missing_result_is_a_decode_error() {
    let reply = obj(vec![("error", Json::Null), ("id", s("1"))]);
    assert_eq!(decode_funded(&reply), Err(PipelineError::Decode(Stage::Create)));
    assert_eq!(decode_token(Stage::Join, &reply), Err(PipelineError::Decode(Stage::Join)));
    assert_eq!(decode_signing(&reply), Err(PipelineError::Decode(Stage::Sign)));
    assert_eq!(decode_finalization(&reply), Err(PipelineError::Decode(Stage::Finalize)));
    assert_eq!(decode_token(Stage::Broadcast, &ok_reply(Json::Null)), Err(PipelineError::Decode(Stage::Broadcast)));
}

#[test]
fn mismatched_shape_is_a_decode_error() {
    assert_eq!(decode_funded(&ok_reply(s("tmpl"))), Err(PipelineError::Decode(Stage::Create)));
    let no_fee = obj(vec![("psbt", s("p")), ("changepos", Json::Int(0))]);
    assert_eq!(decode_funded(&ok_reply(no_fee)), Err(PipelineError::Decode(Stage::Create)));
    let wide = obj(vec![
        ("psbt", s("p")),
        ("fee", Json::Decimal("0.1".to_string())),
        ("changepos", Json::Int(1 << 40)),
    ]);
    assert_eq!(decode_funded(&ok_reply(wide)), Err(PipelineError::Decode(Stage::Create)));
    assert_eq!(decode_token(Stage::Combine, &ok_reply(Json::Int(3))), Err(PipelineError::Decode(Stage::Combine)));
    let flag_as_text = obj(vec![("psbt", s("p")), ("complete", s("true"))]);
    assert_eq!(decode_signing(&ok_reply(flag_as_text)), Err(PipelineError::Decode(Stage::Sign)));
    let complete_without_hex = obj(vec![("complete", Json::Bool(true))]);
    assert_eq!(decode_finalization(&ok_reply(complete_without_hex)), Err(PipelineError::Decode(Stage::Finalize)));
    assert_eq!(decode_token(Stage::Broadcast, &s("not an envelope")), Err(PipelineError::Decode(Stage::Broadcast)));
}

#[test]
fn change_position_below_minus_one_is_a_decode_error() {
    let funded = |pos: i64| {
        ok_reply(obj(vec![
            ("psbt", s("p")),
            ("fee", Json::Decimal("0.0001".to_string())),
            ("changepos", Json::Int(pos)),
        ]))
    };
    assert_eq!(decode_funded(&funded(-2)), Err(PipelineError::Decode(Stage::Create)));
    assert_eq!(decode_funded(&funded(-1)).unwrap().change_position, -1);
    assert_eq!(decode_funded(&funded(0)).unwrap().change_position, 0);
}

#[test]
fn listing_passes_node_errors_through() {
    assert_eq!(
        psbt_flow::decode::decode_unspent(&err_reply(-18, "Requested wallet does not exist or is not loaded")),
        Err(PipelineError::Protocol {
            stage: Stage::ListUnspent,
            code: -18,
            message: "Requested wallet does not exist or is not loaded".to_string()
        })
    );
}

#[test]
fn funding_never_yields_an_empty_psbt() {
    let empty = obj(vec![
        ("psbt", s("")),
        ("fee", Json::Decimal("0.0001".to_string())),
        ("changepos", Json::Int(0)),
    ]);
    assert_eq!(decode_funded(&ok_reply(empty)), Err(PipelineError::Decode(Stage::Create)));
    assert_eq!(decode_token(Stage::Join, &ok_reply(s(""))), Err(PipelineError::Decode(Stage::Join)));
}

#[test]
fn node_errors_carry_code_and_message() {
    assert_eq!(
        decode_funded(&err_reply(-4, "Insufficient funds")),
        Err(PipelineError::FundingRejected { code: -4, message: "Insufficient funds".to_string() })
    );
    assert_eq!(
        decode_finalization(&err_reply(-22, "TX decode failed")),
        Err(PipelineError::Protocol { stage: Stage::Finalize, code: -22, message: "TX decode failed".to_string() })
    );
    let bad_error = obj(vec![("error", s("boom"))]);
    assert_eq!(decode_token(Stage::Broadcast, &bad_error), Err(PipelineError::Decode(Stage::Broadcast)));
}

#[test]
fn incomplete_finalization_decodes_without_hex() {
    let r = decode_finalization(&ok_reply(obj(vec![("psbt", s("p")), ("complete", Json::Bool(false))]))).unwrap();
    assert!(!r.complete);
    assert_eq!(r.hex, None);
    let r = decode_finalization(&ok_reply(obj(vec![("hex", s("00ff")), ("complete", Json::Bool(true))]))).unwrap();
    assert!(r.complete);
    assert_eq!(r.hex, Some("00ff".to_string()));
}
