//! The race dispatcher: the configured endpoints, and the records of one race
//! across all of them.
use vstd::prelude::*;
use crate::senders::{
    BloxrouteTxSender, GenericRpc, JitoTxSender, NextblockTxSender, SendError, TxResult, TxSender,
};
use crate::transaction::{RpcType, TransactionConfig};

verus! {

/// How one endpoint is reached.
#[derive(Clone, Debug)]
pub struct RpcConfig {
    pub rpc_type: RpcType,
    pub url: String,
    /// The pre-shared credential; the two authorising relays need one.
    pub auth: Option<String>,
}

/// Why the endpoint configuration was refused.
#[derive(Clone, Debug)]
pub enum ConfigError {
    /// A relay that authorises its callers has no credential.
    MissingAuth(String),
    /// Two endpoints carry the same name.
    DuplicateName(String),
}

/// The channel kind needs an authorization credential.
pub open spec fn needs_auth(kind: RpcType) -> bool {
    kind == RpcType::Bloxroute || kind == RpcType::Nextblock
}

/// `s` is the endpoint that `name` and `c` describe.
pub open spec fn sender_for(s: TxSender, name: Seq<char>, c: RpcConfig) -> bool {
    &&& s.spec_name() == name
    &&& s.spec_kind() == c.rpc_type
    &&& match s {
        TxSender::SolanaRpc(e) => e.url == c.url,
        TxSender::Jito(e) => e.url == c.url,
        TxSender::Bloxroute(e) => e.url == c.url && c.auth == Some(e.auth),
        TxSender::Nextblock(e) => e.url == c.url && c.auth == Some(e.auth),
    }
}

/// Makes the endpoint adapter that the configuration describes; a relay that
/// authorises its callers needs a credential.
pub fn create_tx_sender(name: String, rpc_config: RpcConfig) -> (r: Result<TxSender, ConfigError>)
    ensures
        r is Err <==> needs_auth(rpc_config.rpc_type) && rpc_config.auth is None,
        r matches Ok(s) ==> sender_for(s, name@, rpc_config),
        r matches Err(e) ==> e == ConfigError::MissingAuth(name),
{
    let RpcConfig { rpc_type, url, auth } = rpc_config;
    match rpc_type {
        RpcType::SolanaRpc => Ok(TxSender::SolanaRpc(GenericRpc::new(name, url))),
        RpcType::Jito => Ok(TxSender::Jito(JitoTxSender::new(name, url))),
        RpcType::Bloxroute => match auth {
            Some(a) => Ok(TxSender::Bloxroute(BloxrouteTxSender::new(name, url, a))),
            None => Err(ConfigError::MissingAuth(name)),
        },
        RpcType::Nextblock => match auth {
            Some(a) => Ok(TxSender::Nextblock(NextblockTxSender::new(name, url, a))),
            None => Err(ConfigError::MissingAuth(name)),
        },
    }
}

/// No two endpoints share a name.
pub open spec fn distinct_names(rpcs: Seq<TxSender>) -> bool {
    forall|i: int, j: int| 0 <= i < j < rpcs.len() ==> rpcs[i].spec_name() != rpcs[j].spec_name()
}

/// No two configured entries share a name.
pub open spec fn distinct_config_names(rpcs: Seq<(String, RpcConfig)>) -> bool {
    forall|i: int, j: int| 0 <= i < j < rpcs.len() ==> rpcs[i].0@ != rpcs[j].0@
}

/// Every relay that authorises its callers has a credential.
pub open spec fn credentials_present(rpcs: Seq<(String, RpcConfig)>) -> bool {
    forall|i: int| 0 <= i < rpcs.len() ==> !(needs_auth(#[trigger] rpcs[i].1.rpc_type) && rpcs[i].1.auth is None)
}

/// The configured endpoints and the trading configuration they all share.
pub struct Bench {
    pub tx_config: TransactionConfig,
    pub rpcs: Vec<TxSender>,
}

/// What one endpoint's attempt came to, for the log.
#[derive(Debug)]
pub struct DispatchRecord {
    pub name: String,
    pub elapsed_ms: u64,
    pub outcome: Result<TxResult, SendError>,
}

impl TxSender {
    /// The record of this endpoint's attempt.
    pub fn record(&self, elapsed_ms: u64, outcome: Result<TxResult, SendError>) -> (r: DispatchRecord)
        ensures
            r.name@ == self.spec_name(),
            r.elapsed_ms == elapsed_ms,
            r.outcome == outcome,
    {
        DispatchRecord { name: self.name(), elapsed_ms, outcome }
    }
}

impl Bench {
    /// Sets up one adapter per configured endpoint, in the given order.
    /// Refused when a relay lacks its credential or two names coincide.
    pub fn new(tx_config: TransactionConfig, rpcs: Vec<(String, RpcConfig)>) -> (r: Result<Bench, ConfigError>)
        ensures
            r is Ok <==> distinct_config_names(rpcs@) && credentials_present(rpcs@),
            r matches Ok(b) ==> {
                &&& b.tx_config == tx_config
                &&& b.rpcs@.len() == rpcs@.len()
                &&& forall|i: int| 0 <= i < rpcs@.len() ==> sender_for(#[trigger] b.rpcs@[i], rpcs@[i].0@, rpcs@[i].1)
                &&& distinct_names(b.rpcs@)
            },
    {
        let ghost input = rpcs@;
        let n = rpcs.len();
        let mut rest = rpcs;
        let mut senders: Vec<TxSender> = Vec::new();
        let mut k: usize = 0;
        while rest.len() > 0
            invariant
                k <= input.len(),
                rest@ == input.subrange(k as int, input.len() as int),
                senders@.len() == k,
                forall|i: int| 0 <= i < k ==> sender_for(#[trigger] senders@[i], input[i].0@, input[i].1),
                distinct_config_names(input.subrange(0, k as int)),
                credentials_present(input.subrange(0, k as int)),
                n == input.len(),
                input == rpcs@,
            decreases rest.len(),
        {
            assert(rest@.len() == input.len() - k);
            let (name, config) = rest.remove(0);
            assert(input[k as int] == (name, config));
            let mut j: usize = 0;
            while j < senders.len()
                invariant
                    j <= senders@.len(),
                    senders@.len() == k,
                    k < input.len(),
                    input[k as int].0 == name,
                    forall|i: int| 0 <= i < k ==> sender_for(#[trigger] senders@[i], input[i].0@, input[i].1),
                    forall|i: int| 0 <= i < j ==> input[i].0@ != name@,
                    input == rpcs@,
                decreases senders@.len() - j,
            {
                let other = senders[j].name();
                if other == name {
                    assert(!distinct_config_names(input)) by {
                        assert(input[j as int].0@ == input[k as int].0@);
                    }
                    return Err(ConfigError::DuplicateName(name));
                }
                j = j + 1;
            }
            let created = create_tx_sender(name, config);
            match created {
                Ok(s) => {
                    senders.push(s);
                },
                Err(e) => {
                    assert(!credentials_present(input)) by {
                        assert(needs_auth(input[k as int].1.rpc_type) && input[k as int].1.auth is None);
                    }
                    return Err(e);
                },
            }
            k = k + 1;
            assert(distinct_config_names(input.subrange(0, k as int))) by {
                let s = input.subrange(0, k as int);
                assert forall|a: int, b: int| 0 <= a < b < s.len() implies s[a].0@ != s[b].0@ by {
                    if b < k - 1 {
                        assert(input.subrange(0, k - 1)[a] == s[a]);
                        assert(input.subrange(0, k - 1)[b] == s[b]);
                    }
                }
            }
            assert(credentials_present(input.subrange(0, k as int))) by {
                let s = input.subrange(0, k as int);
                assert forall|a: int| 0 <= a < s.len() implies !(needs_auth(#[trigger] s[a].1.rpc_type) && s[a].1.auth is None) by {
                    if a < k - 1 {
                        assert(input.subrange(0, k - 1)[a] == s[a]);
                    }
                }
            }
        }
        assert(input.subrange(0, k as int) =~= input);
        let b = Bench { tx_config, rpcs: senders };
        proof {
            assert forall|i: int, j: int| 0 <= i < j < b.rpcs@.len() implies b.rpcs@[i].spec_name() != b.rpcs@[j].spec_name() by {
                assert(sender_for(b.rpcs@[i], input[i].0@, input[i].1));
                assert(sender_for(b.rpcs@[j], input[j].0@, input[j].1));
            }
        }
        Ok(b)
    }

    /// The records of a finished race: one per endpoint, in configuration
    /// order, each under its endpoint's name with its elapsed time and outcome.
    pub fn race_report(&self, finished: Vec<(u64, Result<TxResult, SendError>)>) -> (r: Vec<DispatchRecord>)
        requires
            finished@.len() == self.rpcs@.len(),
        ensures
            race_records(r@, self.rpcs@, finished@),
    {
        let ghost input = finished@;
        let n = finished.len();
        let mut rest = finished;
        let mut records: Vec<DispatchRecord> = Vec::new();
        let mut k: usize = 0;
        while rest.len() > 0
            invariant
                k <= input.len(),
                input.len() == self.rpcs@.len(),
                rest@ == input.subrange(k as int, input.len() as int),
                records@.len() == k,
                n == input.len(),
                forall|i: int| 0 <= i < k ==> #[trigger] records@[i].name@ == self.rpcs@[i].spec_name()
                    && records@[i].elapsed_ms == input[i].0 && records@[i].outcome == input[i].1,
            decreases rest.len(),
        {
            assert(rest@.len() == input.len() - k);
            let (elapsed, outcome) = rest.remove(0);
            assert(input[k as int] == (elapsed, outcome));
            let rec = self.rpcs[k].record(elapsed, outcome);
            records.push(rec);
            k = k + 1;
        }
        records
    }
}

/// `records` holds one record per endpoint, in order, with the finished
/// attempts' times and outcomes.
pub open spec fn race_records(
    records: Seq<DispatchRecord>,
    rpcs: Seq<TxSender>,
    finished: Seq<(u64, Result<TxResult, SendError>)>,
) -> bool {
    &&& records.len() == rpcs.len()
    &&& forall|i: int| 0 <= i < records.len() ==> #[trigger] records[i].name@ == rpcs[i].spec_name()
        && records[i].elapsed_ms == finished[i].0 && records[i].outcome == finished[i].1
}

/// A race over N endpoints yields exactly N records, under N distinct
/// endpoint names, however many of the attempts failed.
pub proof fn lemma_race_complete(
    bench: Bench,
    finished: Seq<(u64, Result<TxResult, SendError>)>,
    records: Seq<DispatchRecord>,
)
    requires
        distinct_names(bench.rpcs@),
        finished.len() == bench.rpcs@.len(),
        race_records(records, bench.rpcs@, finished),
    ensures
        records.len() == bench.rpcs@.len(),
        forall|i: int, j: int| 0 <= i < j < records.len() ==> records[i].name@ != records[j].name@,
        forall|i: int| 0 <= i < records.len() ==> (#[trigger] records[i].outcome is Err <==> finished[i].1 is Err),
{
    assert forall|i: int| 0 <= i < records.len() implies (#[trigger] records[i].outcome is Err <==> finished[i].1 is Err) by {
        assert(records[i].name@ == bench.rpcs@[i].spec_name());
    }
    assert forall|i: int, j: int| 0 <= i < j < records.len() implies records[i].name@ != records[j].name@ by {
        assert(records[i].name@ == bench.rpcs@[i].spec_name());
        assert(records[j].name@ == bench.rpcs@[j].spec_name());
    }
}

} // verus!
