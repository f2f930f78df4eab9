use vstd::prelude::*;
use vstd::string::StringExecFns;

use crate::json::Json;
use crate::types::{ConfigItem, Destination, PipelineError, SpendInput};

verus! {

/// Standard padded base64 of the UTF-8 bytes of a text.
pub uninterp spec fn base64_of_text(s: Seq<char>) -> Seq<char>;

/// Relies on base64::encode (the standard alphabet, padded): the encoding of
/// the text's UTF-8 bytes, which depends on the text alone.
#[verifier::external_body]
fn base64_encode(s: &str) -> (r: String)
    requires
        s@.len() <= 0x1000_0000,
    ensures
        r@ == base64_of_text(s@),
{
    #[allow(deprecated)]
    base64::encode(s)
}

/// A remote procedure of the ledger node used by the signing lifecycle.
#[derive(Debug, Clone, Copy, PartialEq, Eq, Structural)]
pub enum Procedure {
    ListUnspent,
    CreateFundedPsbt,
    JoinPsbts,
    ProcessPsbt,
    CombinePsbt,
    FinalizePsbt,
    SendRawTransaction,
}

pub open spec fn procedure_name(p: Procedure) -> Seq<char> {
    match p {
        Procedure::ListUnspent => "listunspent"@,
        Procedure::CreateFundedPsbt => "walletcreatefundedpsbt"@,
        Procedure::JoinPsbts => "joinpsbts"@,
        Procedure::ProcessPsbt => "walletprocesspsbt"@,
        Procedure::CombinePsbt => "combinepsbt"@,
        Procedure::FinalizePsbt => "finalizepsbt"@,
        Procedure::SendRawTransaction => "sendrawtransaction"@,
    }
}

impl Procedure {
    /// The method name the node knows the procedure by.
    pub fn name(&self) -> (r: String)
        ensures
            r@ == procedure_name(*self),
    {
        match self {
            Procedure::ListUnspent => String::from_str("listunspent"),
            Procedure::CreateFundedPsbt => String::from_str("walletcreatefundedpsbt"),
            Procedure::JoinPsbts => String::from_str("joinpsbts"),
            Procedure::ProcessPsbt => String::from_str("walletprocesspsbt"),
            Procedure::CombinePsbt => String::from_str("combinepsbt"),
            Procedure::FinalizePsbt => String::from_str("finalizepsbt"),
            Procedure::SendRawTransaction => String::from_str("sendrawtransaction"),
        }
    }
}

/// One call to make: the procedure, its positional parameters, and the wallet
/// whose context it runs in (`None` for the node's global context).
#[derive(Debug)]
pub struct Request {
    pub procedure: Procedure,
    pub params: Vec<Json>,
    pub wallet: Option<String>,
}

/// The call that lists a wallet's unspent outputs.
pub fn list_unspent_request(wallet: String) -> (r: Request)
    ensures
        r.procedure == Procedure::ListUnspent,
        r.params@.len() == 0,
        r.wallet == Some(wallet),
{
    Request { procedure: Procedure::ListUnspent, params: Vec::new(), wallet: Some(wallet) }
}

/// Where the node is and who we are to it; fixed once built.
#[derive(Debug, Clone)]
pub struct Config {
    pub host: String,
    pub user: String,
    pub password: String,
}

pub open spec fn config_outcome(
    host: Option<String>,
    user: Option<String>,
    password: Option<String>,
) -> Result<Config, PipelineError> {
    match (host, user, password) {
        (None, _, _) => Err(PipelineError::Configuration(ConfigItem::Host)),
        (Some(_), None, _) => Err(PipelineError::Configuration(ConfigItem::User)),
        (Some(_), Some(_), None) => Err(PipelineError::Configuration(ConfigItem::Password)),
        (Some(host), Some(user), Some(password)) => Ok(Config { host, user, password }),
    }
}

/// The URL of a call: the host for the global context, the host followed by
/// `/wallet/<name>` for a wallet's.
pub open spec fn endpoint_of(host: Seq<char>, wallet: Option<String>) -> Seq<char> {
    match wallet {
        None => host,
        Some(w) => host + "/wallet/"@ + w@,
    }
}

pub open spec fn credentials_of(user: Seq<char>, password: Seq<char>) -> Seq<char> {
    user + ":"@ + password
}

impl Config {
    /// Builds the configuration from the values found at start-up; the first
    /// missing one, in the order host, user, password, is the error.
    pub fn new(host: Option<String>, user: Option<String>, password: Option<String>) -> (r: Result<
        Config,
        PipelineError,
    >)
        ensures
            r == config_outcome(host, user, password),
    {
        match (host, user, password) {
            (None, _, _) => Err(PipelineError::Configuration(ConfigItem::Host)),
            (Some(_), None, _) => Err(PipelineError::Configuration(ConfigItem::User)),
            (Some(_), Some(_), None) => Err(PipelineError::Configuration(ConfigItem::Password)),
            (Some(host), Some(user), Some(password)) => Ok(Config { host, user, password }),
        }
    }

    /// The URL a request is posted to.
    pub fn endpoint(&self, wallet: &Option<String>) -> (r: String)
        ensures
            r@ == endpoint_of(self.host@, *wallet),
    {
        match wallet {
            None => self.host.clone(),
            Some(w) => self.host.clone().concat("/wallet/").concat(w.as_str()),
        }
    }

    /// The value of the `Authorization` header: HTTP Basic over `user:password`.
    pub fn authorization(&self) -> (r: String)
        requires
            self.user@.len() + self.password@.len() < 0x0100_0000,
        ensures
            r@ == "Basic "@ + base64_of_text(credentials_of(self.user@, self.password@)),
    {
        let credentials = self.user.clone().concat(":").concat(self.password.as_str());
        proof {
            reveal_strlit(":");
        }
        let encoded = base64_encode(credentials.as_str());
        String::from_str("Basic ").concat(encoded.as_str())
    }
}

/// `j` is the string `s`.
pub open spec fn str_is(j: Json, s: Seq<char>) -> bool {
    j matches Json::Str(t) && t@ == s
}

/// `j` is an array of exactly the strings `ss`, in order.
pub open spec fn strs_are(j: Json, ss: Seq<String>) -> bool {
    &&& j matches Json::Array(a)
    &&& a@.len() == ss.len()
    &&& forall|i: int| 0 <= i < ss.len() ==> #[trigger] str_is(a@[i], ss[i]@)
}

/// `j` is `{"txid": <txid>, "vout": <vout>}`.
pub open spec fn input_is(j: Json, input: SpendInput) -> bool {
    &&& j matches Json::Object(e)
    &&& e@.len() == 2
    &&& e@[0].0@ == "txid"@ && str_is(e@[0].1, input.txid@)
    &&& e@[1].0@ == "vout"@ && e@[1].1 == Json::Int(input.vout as i64)
}

/// `j` is `{<address>: <amount>}`.
pub open spec fn output_is(j: Json, d: Destination) -> bool {
    &&& j matches Json::Object(e)
    &&& e@.len() == 1
    &&& e@[0].0@ == d.address@
    &&& e@[0].1 matches Json::Decimal(a) && a@ == d.amount@
}

/// The parameters of funding: a one-element input list and the payments.
pub open spec fn create_params(p: Seq<Json>, input: SpendInput, outputs: Seq<Destination>) -> bool {
    &&& p.len() == 2
    &&& p[0] matches Json::Array(a) && a@.len() == 1 && input_is(a@[0], input)
    &&& p[1] matches Json::Array(o) && o@.len() == outputs.len() && (forall|i: int|
        0 <= i < outputs.len() ==> #[trigger] output_is(o@[i], outputs[i]))
}

/// `{"jsonrpc": "1.0", "id": <id>, "method": <name>, "params": [...]}`.
pub open spec fn envelope_is(j: Json, id: Seq<char>, procedure: Procedure, params: Seq<Json>) -> bool {
    &&& j matches Json::Object(e)
    &&& e@.len() == 4
    &&& e@[0].0@ == "jsonrpc"@ && str_is(e@[0].1, "1.0"@)
    &&& e@[1].0@ == "id"@ && str_is(e@[1].1, id)
    &&& e@[2].0@ == "method"@ && str_is(e@[2].1, procedure_name(procedure))
    &&& e@[3].0@ == "params"@
    &&& e@[3].1 matches Json::Array(a) && a@ == params
}

fn text(s: &str) -> (r: Json)
    ensures
        str_is(r, s@),
{
    Json::Str(String::from_str(s))
}

/// An array of copies of the given strings.
pub fn str_array(ss: &Vec<String>) -> (r: Json)
    ensures
        strs_are(r, ss@),
{
    let mut a: Vec<Json> = Vec::new();
    let mut i: usize = 0;
    while i < ss.len()
        invariant
            i <= ss@.len(),
            a@.len() == i,
            forall|k: int| 0 <= k < i ==> #[trigger] str_is(a@[k], ss@[k]@),
        decreases ss.len() - i,
    {
        a.push(Json::Str(ss[i].clone()));
        i = i + 1;
    }
    Json::Array(a)
}

/// The parameters of funding a PSBT that spends `input` and pays `outputs`.
pub fn create_params_of(input: &SpendInput, outputs: &Vec<Destination>) -> (r: Vec<Json>)
    ensures
        create_params(r@, *input, outputs@),
{
    let mut entries: Vec<(String, Json)> = Vec::new();
    entries.push((String::from_str("txid"), Json::Str(input.txid.clone())));
    entries.push((String::from_str("vout"), Json::Int(input.vout as i64)));
    let mut inputs: Vec<Json> = Vec::new();
    inputs.push(Json::Object(entries));
    let mut outs: Vec<Json> = Vec::new();
    let mut i: usize = 0;
    while i < outputs.len()
        invariant
            i <= outputs@.len(),
            outs@.len() == i,
            forall|k: int| 0 <= k < i ==> #[trigger] output_is(outs@[k], outputs@[k]),
        decreases outputs.len() - i,
    {
        let mut pay: Vec<(String, Json)> = Vec::new();
        pay.push((outputs[i].address.clone(), Json::Decimal(outputs[i].amount.clone())));
        outs.push(Json::Object(pay));
        i = i + 1;
    }
    let mut params: Vec<Json> = Vec::new();
    params.push(Json::Array(inputs));
    params.push(Json::Array(outs));
    params
}

/// The body posted for a request, tagged with `id`.
pub fn envelope(id: &String, procedure: Procedure, params: Vec<Json>) -> (r: Json)
    ensures
        envelope_is(r, id@, procedure, params@),
{
    let mut e: Vec<(String, Json)> = Vec::new();
    e.push((String::from_str("jsonrpc"), text("1.0")));
    e.push((String::from_str("id"), Json::Str(id.clone())));
    e.push((String::from_str("method"), Json::Str(procedure.name())));
    e.push((String::from_str("params"), Json::Array(params)));
    Json::Object(e)
}

} // verus!
