//! The submission channels: for each kind, how a built transaction becomes an
//! HTTP request, and how the channel's answer becomes an outcome.
use vstd::prelude::*;
use std::str::FromStr;
use crate::decoder::AccountsForBuy;
use crate::transaction::{
    build_transaction_with_config, built_from, BuildError, BuiltTransaction, RpcType,
    TransactionConfig,
};

verus! {

pub open spec fn base64_digit(i: nat) -> char {
    "ABCDEFGHIJKLMNOPQRSTUVWXYZabcdefghijklmnopqrstuvwxyz0123456789+/"@[i as int]
}

/// Standard padded base-64: each three bytes become four digits of six bits;
/// a final one or two bytes become two or three digits and `=` padding.
pub open spec fn base64_of(b: Seq<u8>) -> Seq<char>
    decreases b.len(),
{
    if b.len() == 0 {
        Seq::empty()
    } else if b.len() == 1 {
        seq![base64_digit(b[0] as nat / 4), base64_digit((b[0] as nat % 4) * 16), '=', '=']
    } else if b.len() == 2 {
        seq![
            base64_digit(b[0] as nat / 4),
            base64_digit((b[0] as nat % 4) * 16 + b[1] as nat / 16),
            base64_digit((b[1] as nat % 16) * 4),
            '=',
        ]
    } else {
        seq![
            base64_digit(b[0] as nat / 4),
            base64_digit((b[0] as nat % 4) * 16 + b[1] as nat / 16),
            base64_digit((b[1] as nat % 16) * 4 + b[2] as nat / 64),
            base64_digit(b[2] as nat % 64),
        ] + base64_of(b.subrange(3, b.len() as int))
    }
}

pub open spec fn base58_digit(i: nat) -> char {
    "123456789ABCDEFGHJKLMNPQRSTUVWXYZabcdefghijkmnopqrstuvwxyz"@[i as int]
}

/// The number that the bytes encode, most significant first.
pub open spec fn be_value(b: Seq<u8>) -> nat
    decreases b.len(),
{
    if b.len() == 0 {
        0
    } else {
        be_value(b.drop_last()) * 256 + b.last() as nat
    }
}

/// The base-58 digits of `n`, most significant first, none for zero.
pub open spec fn base58_digits(n: nat) -> Seq<char>
    decreases n,
{
    if n == 0 {
        Seq::empty()
    } else {
        base58_digits(n / 58).push(base58_digit(n % 58))
    }
}

/// The number of zero bytes that lead the sequence.
pub open spec fn leading_zeros(b: Seq<u8>) -> nat
    decreases b.len(),
{
    if b.len() == 0 || b[0] != 0 {
        0
    } else {
        1 + leading_zeros(b.drop_first())
    }
}

/// Base-58 in the bitcoin alphabet: a `1` for each leading zero byte, then
/// the digits of the number that the bytes encode.
pub open spec fn base58_of(b: Seq<u8>) -> Seq<char> {
    Seq::new(leading_zeros(b), |i: int| '1') + base58_digits(be_value(b))
}

/// The 64 signature bytes that a base-58 text denotes, if it denotes one.
pub uninterp spec fn signature_from_base58(s: Seq<char>) -> Option<Seq<u8>>;

/// Relies on base64's `STANDARD` engine: padded base-64 of the bytes.
#[verifier::external_body]
fn encode_base64(b: &Vec<u8>) -> (r: String)
    ensures
        r@ == base64_of(b@),
{
    base64::Engine::encode(&base64::engine::general_purpose::STANDARD, b)
}

/// Relies on `bs58::encode(..).into_string()`: base-58 of the bytes in the
/// bitcoin alphabet, the crate's default.
#[verifier::external_body]
fn encode_base58(b: &[u8]) -> (r: String)
    ensures
        r@ == base58_of(b@),
{
    solana_sdk::bs58::encode(b).into_string()
}

/// Relies on `Signature::from_str`: the base-58 text of a 64-byte signature.
#[verifier::external_body]
fn parse_signature(s: &str) -> (r: Option<[u8; 64]>)
    ensures
        r is Some <==> signature_from_base58(s@) is Some,
        r matches Some(b) ==> signature_from_base58(s@) == Some(b@),
{
    solana_sdk::signature::Signature::from_str(s).ok().map(<[u8; 64]>::from)
}

/// What a channel reports for an accepted transaction.
#[derive(Clone, Debug)]
pub enum TxResult {
    Signature([u8; 64]),
    BundleID(String),
}

impl TxResult {
    /// The outcome as text: a signature in base-58, a bundle identifier as is.
    pub fn into_string(self) -> (r: String)
        ensures
            r@ == match self {
                TxResult::Signature(s) => base58_of(s@),
                TxResult::BundleID(id) => id@,
            },
    {
        match self {
            TxResult::Signature(s) => encode_base58(s.as_slice()),
            TxResult::BundleID(id) => id,
        }
    }
}

/// Why one endpoint's attempt failed.
#[derive(Clone, Debug)]
pub enum SendError {
    /// The transaction could not be built.
    Build(BuildError),
    /// The endpoint could not be reached.
    Transport(String),
    /// The endpoint answered with a status outside 200..=299.
    Status(u16, String),
    /// The endpoint's answer could not be read as the channel's reply.
    Protocol(String),
}

/// An HTTP POST that carries a transaction to one endpoint.
#[derive(Clone, Debug)]
pub struct HttpRequest {
    pub url: String,
    /// An explicit `Content-Type: application/json` header is sent.
    pub json_content_type: bool,
    /// The value of the `Authorization` header, if one is sent.
    pub authorization: Option<String>,
    pub body: String,
    /// The signature of the transaction carried.
    pub signature: [u8; 64],
}

/// The field of a channel's JSON reply that holds its answer.
#[derive(Clone, Copy, Debug, PartialEq, Eq, Structural)]
pub enum ReplyField {
    /// `signature`: a transaction signature in base-58.
    Signature,
    /// `result`: a signature (plain node) or a bundle identifier (bundle relay).
    Result,
}

pub open spec fn rpc_body(content: Seq<char>) -> Seq<char> {
    "{\"jsonrpc\":\"2.0\",\"id\":1,\"method\":\"sendTransaction\",\"params\":[\""@ + content
        + "\",{\"encoding\":\"base64\",\"skipPreflight\":true}]}"@
}

pub open spec fn bundle_body(content: Seq<char>) -> Seq<char> {
    "{\"jsonrpc\":\"2.0\",\"id\":1,\"method\":\"sendTransaction\",\"params\":[\""@ + content + "\"]}"@
}

pub open spec fn relay_body(content: Seq<char>) -> Seq<char> {
    "{\"transaction\":{\"content\":\""@ + content
        + "\"},\"skipPreFlight\":true,\"frontRunningProtection\":true}"@
}

fn same_signature(a: &[u8; 64], b: &[u8; 64]) -> (r: bool)
    ensures
        r == (a@ == b@),
{
    let mut i: usize = 0;
    while i < 64
        invariant
            i <= 64,
            a@.len() == 64,
            b@.len() == 64,
            forall|j: int| 0 <= j < i ==> a@[j] == b@[j],
        decreases 64 - i,
    {
        if a[i] != b[i] {
            return false;
        }
        i = i + 1;
    }
    assert(a@ =~= b@);
    true
}

fn wrap(head: &str, content: String, tail: &str) -> (r: String)
    ensures
        r@ == head@ + content@ + tail@,
{
    let mut s = head.to_owned();
    s.append(content.as_str());
    s.append(tail);
    s
}

/// A plain node, reached through its JSON-RPC `sendTransaction` call with
/// preflight checks off.
#[derive(Clone, Debug)]
pub struct GenericRpc {
    pub name: String,
    pub url: String,
}

/// A bundle relay: base-58 payload in a JSON-RPC envelope; its reply's
/// `result` is a bundle identifier.
#[derive(Clone, Debug)]
pub struct JitoTxSender {
    pub name: String,
    pub url: String,
}

/// A relay with front-running protection: base-64 payload, explicit JSON
/// content type, pre-shared authorization.
#[derive(Clone, Debug)]
pub struct BloxrouteTxSender {
    pub name: String,
    pub url: String,
    pub auth: String,
}

/// A relay with the same envelope as [`BloxrouteTxSender`], base-58 payload,
/// no explicit content type, pre-shared authorization.
#[derive(Clone, Debug)]
pub struct NextblockTxSender {
    pub name: String,
    pub url: String,
    pub auth: String,
}

impl GenericRpc {
    pub fn new(name: String, url: String) -> (r: GenericRpc)
        ensures
            r.name == name,
            r.url == url,
    {
        GenericRpc { name, url }
    }
}

impl JitoTxSender {
    pub fn new(name: String, url: String) -> (r: JitoTxSender)
        ensures
            r.name == name,
            r.url == url,
    {
        JitoTxSender { name, url }
    }

    /// Builds the buy transaction with this relay's tip recipient.
    pub fn build_transaction_with_config(
        &self,
        tx_config: &TransactionConfig,
        _index: u32,
        recent_blockhash: [u8; 32],
        accounts_for_buy: AccountsForBuy,
    ) -> (r: Result<BuiltTransaction, BuildError>)
        ensures
            r matches Ok(t) ==> built_from(t, *tx_config, RpcType::Jito, recent_blockhash@, accounts_for_buy),
            r is Ok,
    {
        build_transaction_with_config(tx_config, RpcType::Jito, recent_blockhash, accounts_for_buy)
    }
}

impl BloxrouteTxSender {
    pub fn new(name: String, url: String, auth: String) -> (r: BloxrouteTxSender)
        ensures
            r.name == name,
            r.url == url,
            r.auth == auth,
    {
        BloxrouteTxSender { name, url, auth }
    }

    /// Builds the buy transaction with this relay's tip recipient.
    pub fn build_transaction_with_config(
        &self,
        tx_config: &TransactionConfig,
        _index: u32,
        recent_blockhash: [u8; 32],
        accounts_for_buy: AccountsForBuy,
    ) -> (r: Result<BuiltTransaction, BuildError>)
        ensures
            r matches Ok(t) ==> built_from(t, *tx_config, RpcType::Bloxroute, recent_blockhash@, accounts_for_buy),
            r is Ok,
    {
        build_transaction_with_config(tx_config, RpcType::Bloxroute, recent_blockhash, accounts_for_buy)
    }
}

impl NextblockTxSender {
    pub fn new(name: String, url: String, auth: String) -> (r: NextblockTxSender)
        ensures
            r.name == name,
            r.url == url,
            r.auth == auth,
    {
        NextblockTxSender { name, url, auth }
    }

    /// Builds the buy transaction with this relay's tip recipient.
    pub fn build_transaction_with_config(
        &self,
        tx_config: &TransactionConfig,
        _index: u32,
        recent_blockhash: [u8; 32],
        accounts_for_buy: AccountsForBuy,
    ) -> (r: Result<BuiltTransaction, BuildError>)
        ensures
            r matches Ok(t) ==> built_from(t, *tx_config, RpcType::Nextblock, recent_blockhash@, accounts_for_buy),
            r is Ok,
    {
        build_transaction_with_config(tx_config, RpcType::Nextblock, recent_blockhash, accounts_for_buy)
    }
}

/// One configured endpoint, of one of the four channel kinds.
#[derive(Clone, Debug)]
pub enum TxSender {
    SolanaRpc(GenericRpc),
    Jito(JitoTxSender),
    Bloxroute(BloxrouteTxSender),
    Nextblock(NextblockTxSender),
}

/// The HTTP request that carries a transaction's wire bytes to `s`.
pub open spec fn request_for(s: TxSender, wire: Seq<u8>, signature: Seq<u8>, r: HttpRequest) -> bool {
    &&& r.signature@ == signature
    &&& match s {
        TxSender::SolanaRpc(e) => r.url == e.url && r.json_content_type && r.authorization is None
            && r.body@ == rpc_body(base64_of(wire)),
        TxSender::Jito(e) => r.url == e.url && r.json_content_type && r.authorization is None
            && r.body@ == bundle_body(base58_of(wire)),
        TxSender::Bloxroute(e) => r.url == e.url && r.json_content_type && r.authorization == Some(e.auth)
            && r.body@ == relay_body(base64_of(wire)),
        TxSender::Nextblock(e) => r.url == e.url && !r.json_content_type && r.authorization == Some(e.auth)
            && r.body@ == relay_body(base58_of(wire)),
    }
}

/// `r` is what an endpoint's reply means: the HTTP status, the raw body, the
/// text of the channel's reply field if the body held one, and the signature
/// of the transaction sent, which a plain node must echo.
pub open spec fn reply_outcome(
    s: TxSender,
    status: u16,
    body: String,
    answer: Option<String>,
    sent: [u8; 64],
    r: Result<TxResult, SendError>,
) -> bool {
    if status < 200 || status > 299 {
        r == Err::<TxResult, SendError>(SendError::Status(status, body))
    } else if answer is None {
        r == Err::<TxResult, SendError>(SendError::Protocol(body))
    } else if s is Jito {
        r == Ok::<TxResult, SendError>(TxResult::BundleID(answer->Some_0))
    } else {
        match signature_from_base58(answer->Some_0@) {
            None => r == Err::<TxResult, SendError>(SendError::Protocol(body)),
            Some(sig) => if s is SolanaRpc && sig != sent@ {
                r == Err::<TxResult, SendError>(SendError::Protocol(body))
            } else {
                r matches Ok(TxResult::Signature(a)) && a@ == sig
            },
        }
    }
}

impl TxSender {
    pub open spec fn spec_kind(&self) -> RpcType {
        match self {
            TxSender::SolanaRpc(_) => RpcType::SolanaRpc,
            TxSender::Jito(_) => RpcType::Jito,
            TxSender::Bloxroute(_) => RpcType::Bloxroute,
            TxSender::Nextblock(_) => RpcType::Nextblock,
        }
    }

    pub open spec fn spec_name(&self) -> Seq<char> {
        match self {
            TxSender::SolanaRpc(e) => e.name@,
            TxSender::Jito(e) => e.name@,
            TxSender::Bloxroute(e) => e.name@,
            TxSender::Nextblock(e) => e.name@,
        }
    }

    pub fn kind(&self) -> (r: RpcType)
        ensures
            r == self.spec_kind(),
    {
        match self {
            TxSender::SolanaRpc(_) => RpcType::SolanaRpc,
            TxSender::Jito(_) => RpcType::Jito,
            TxSender::Bloxroute(_) => RpcType::Bloxroute,
            TxSender::Nextblock(_) => RpcType::Nextblock,
        }
    }

    pub fn name(&self) -> (r: String)
        ensures
            r@ == self.spec_name(),
    {
        match self {
            TxSender::SolanaRpc(e) => e.name.clone(),
            TxSender::Jito(e) => e.name.clone(),
            TxSender::Bloxroute(e) => e.name.clone(),
            TxSender::Nextblock(e) => e.name.clone(),
        }
    }

    /// The field of this channel's JSON reply that holds its answer.
    pub fn reply_field(&self) -> (r: ReplyField)
        ensures
            r == (if self.spec_kind() == RpcType::Bloxroute || self.spec_kind() == RpcType::Nextblock {
                ReplyField::Signature
            } else {
                ReplyField::Result
            }),
    {
        match self {
            TxSender::SolanaRpc(_) => ReplyField::Result,
            TxSender::Jito(_) => ReplyField::Result,
            TxSender::Bloxroute(_) => ReplyField::Signature,
            TxSender::Nextblock(_) => ReplyField::Signature,
        }
    }

    /// The HTTP request that carries the transaction to this endpoint.
    pub fn request(&self, tx: &BuiltTransaction) -> (r: HttpRequest)
        ensures
            request_for(*self, tx.wire@, tx.signature@, r),
    {
        match self {
            TxSender::SolanaRpc(e) => {
                let content = encode_base64(&tx.wire);
                let body = wrap(
                    "{\"jsonrpc\":\"2.0\",\"id\":1,\"method\":\"sendTransaction\",\"params\":[\"",
                    content,
                    "\",{\"encoding\":\"base64\",\"skipPreflight\":true}]}",
                );
                HttpRequest { url: e.url.clone(), json_content_type: true, authorization: None, body, signature: tx.signature }
            },
            TxSender::Jito(e) => {
                let content = encode_base58(tx.wire.as_slice());
                let body = wrap(
                    "{\"jsonrpc\":\"2.0\",\"id\":1,\"method\":\"sendTransaction\",\"params\":[\"",
                    content,
                    "\"]}",
                );
                HttpRequest { url: e.url.clone(), json_content_type: true, authorization: None, body, signature: tx.signature }
            },
            TxSender::Bloxroute(e) => {
                let content = encode_base64(&tx.wire);
                let body = wrap(
                    "{\"transaction\":{\"content\":\"",
                    content,
                    "\"},\"skipPreFlight\":true,\"frontRunningProtection\":true}",
                );
                HttpRequest { url: e.url.clone(), json_content_type: true, authorization: Some(e.auth.clone()), body, signature: tx.signature }
            },
            TxSender::Nextblock(e) => {
                let content = encode_base58(tx.wire.as_slice());
                let body = wrap(
                    "{\"transaction\":{\"content\":\"",
                    content,
                    "\"},\"skipPreFlight\":true,\"frontRunningProtection\":true}",
                );
                HttpRequest { url: e.url.clone(), json_content_type: false, authorization: Some(e.auth.clone()), body, signature: tx.signature }
            },
        }
    }

    /// Builds the transaction for this endpoint's channel kind and the request
    /// that carries it.
    pub fn prepare(
        &self,
        tx_config: &TransactionConfig,
        index: u32,
        recent_blockhash: [u8; 32],
        accounts_for_buy: AccountsForBuy,
    ) -> (r: Result<HttpRequest, SendError>)
        ensures
            r is Ok,
            r matches Ok(req) ==> exists|t: BuiltTransaction|
                built_from(t, *tx_config, self.spec_kind(), recent_blockhash@, accounts_for_buy)
                && request_for(*self, t.wire@, t.signature@, req),
    {
        let kind = self.kind();
        match build_transaction_with_config(tx_config, kind, recent_blockhash, accounts_for_buy) {
            Ok(t) => Ok(self.request(&t)),
            Err(e) => Err(SendError::Build(e)),
        }
    }

    /// Reads the endpoint's reply to the transaction signed `sent`: a status
    /// outside 200..=299 fails with the body; a missing reply field, a
    /// signature that is not one, or a plain node's signature other than
    /// `sent`, fails as a protocol error; otherwise the signature, or for the
    /// bundle relay the bundle identifier.
    pub fn interpret_response(
        &self,
        status: u16,
        body: String,
        answer: Option<String>,
        sent: &[u8; 64],
    ) -> (r: Result<TxResult, SendError>)
        ensures
            reply_outcome(*self, status, body, answer, *sent, r),
    {
        if status < 200 || status > 299 {
            return Err(SendError::Status(status, body));
        }
        match answer {
            None => Err(SendError::Protocol(body)),
            Some(text) => {
                if let TxSender::Jito(_) = self {
                    Ok(TxResult::BundleID(text))
                } else {
                    match parse_signature(text.as_str()) {
                        None => Err(SendError::Protocol(body)),
                        Some(sig) => {
                            if let TxSender::SolanaRpc(_) = self {
                                if !same_signature(&sig, sent) {
                                    return Err(SendError::Protocol(body));
                                }
                            }
                            Ok(TxResult::Signature(sig))
                        },
                    }
                }
            },
        }
    }
}

/// The reply of the relays that answer with a transaction signature.
#[derive(Clone, Debug)]
pub struct BloxrouteResponse {
    pub signature: String,
}

/// The reply of a JSON-RPC endpoint: the bundle relay's bundle identifier,
/// or the plain node's transaction signature.
#[derive(Clone, Debug)]
pub struct JitoResponse {
    pub result: String,
}

/// Landing metrics of one sent transaction.
#[derive(Clone, Debug)]
pub struct TxMetrics {
    pub rpc_name: String,
    pub signature: String,
    pub index: u32,
    pub success: bool,
    pub slot_sent: u64,
    pub slot_landed: Option<u64>,
    pub slot_latency: Option<u64>,
    /// In milliseconds.
    pub elapsed: Option<u64>,
}

} // verus!
