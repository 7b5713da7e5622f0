//! The chain checker registry: which validator and which probe body each
//! chain type uses.
//!
//! The registry is built once at startup and read-only afterwards.  A chain
//! type with no entry gets no validator: any successful probe response then
//! counts as healthy and no tip is recorded.

use vstd::prelude::*;
use vstd::string::*;
use crate::validators::ValidatorKind;
use crate::strutil::string_eq_str;

verus! {

/// One registered checker: the validator flavour and the literal probe body
/// sent to the upstream.
#[derive(Debug, Clone)]
pub struct ChainChecker {
    pub validator: ValidatorKind,
    pub request_body: Vec<u8>,
}

/// Validator flavour under the first entry named `t`.
pub open spec fn checker_kind_of(entries: Seq<(String, ChainChecker)>, t: Seq<char>) -> Option<
    ValidatorKind,
>
    decreases entries.len(),
{
    if entries.len() == 0 {
        None
    } else if entries[0].0@ == t {
        Some(entries[0].1.validator)
    } else {
        checker_kind_of(entries.drop_first(), t)
    }
}

/// Probe body under the first entry named `t`.
pub open spec fn checker_body_of(entries: Seq<(String, ChainChecker)>, t: Seq<char>) -> Option<
    Seq<u8>,
>
    decreases entries.len(),
{
    if entries.len() == 0 {
        None
    } else if entries[0].0@ == t {
        Some(entries[0].1.request_body@)
    } else {
        checker_body_of(entries.drop_first(), t)
    }
}

/// The registry: a list of `(chain type, checker)` entries where a later
/// registration shadows an earlier one under the same name.
#[derive(Debug)]
pub struct ChainCheckerRegistry {
    entries: Vec<(String, ChainChecker)>,
}

impl ChainCheckerRegistry {
    pub closed spec fn view(&self) -> Seq<(String, ChainChecker)> {
        self.entries@
    }

    /// An empty registry: no chain type has a checker.
    pub fn new() -> (r: Self)
        ensures
            r@.len() == 0,
    {
        ChainCheckerRegistry { entries: Vec::new() }
    }

    /// Register a checker for a chain type, shadowing any earlier entry
    /// under the same name.
    pub fn register_chain_checker(&mut self, chain_type: &str, checker: ChainChecker)
        ensures
            checker_kind_of(final(self)@, chain_type@) == Some(checker.validator),
            checker_body_of(final(self)@, chain_type@) == Some(checker.request_body@),
            forall|t: Seq<char>|
                #![trigger checker_kind_of(final(self)@, t)]
                #![trigger checker_kind_of(old(self)@, t)]
                t != chain_type@ ==> checker_kind_of(final(self)@, t) == checker_kind_of(
                    old(self)@,
                    t,
                ) && checker_body_of(final(self)@, t) == checker_body_of(old(self)@, t),
    {
        let ghost old_entries = self.entries@;
        self.entries.insert(0, (chain_type.to_owned(), checker));
        proof {
            assert(self.entries@.drop_first() =~= old_entries);
        }
    }

    /// The checker registered for a chain type, or `None`.
    #[verifier::loop_isolation(false)]
    pub fn get_chain_checker<'a>(&'a self, chain_type: &str) -> (r: Option<&'a ChainChecker>)
        ensures
            match r {
                Some(c) => checker_kind_of(self@, chain_type@) == Some(c.validator)
                    && checker_body_of(self@, chain_type@) == Some(c.request_body@),
                None => checker_kind_of(self@, chain_type@) is None && checker_body_of(
                    self@,
                    chain_type@,
                ) is None,
            },
    {
        let n = self.entries.len();
        let mut i: usize = 0;
        proof {
            assert(self.entries@.skip(0) =~= self.entries@);
        }
        while i < n
            invariant
                i <= n,
                checker_kind_of(self@, chain_type@) == checker_kind_of(
                    self@.skip(i as int),
                    chain_type@,
                ),
                checker_body_of(self@, chain_type@) == checker_body_of(
                    self@.skip(i as int),
                    chain_type@,
                ),
            decreases n - i,
        {
            proof {
                assert(self@.skip(i as int).drop_first() =~= self@.skip(i as int + 1));
                assert(self@.skip(i as int)[0] == self@[i as int]);
            }
            if string_eq_str(&self.entries[i].0, chain_type) {
                return Some(&self.entries[i].1);
            }
            i = i + 1;
        }
        proof {
            assert(self@.skip(n as int) =~= Seq::<(String, ChainChecker)>::empty());
        }
        None
    }
}

/// The probe body for Ethereum-style chains: `eth_blockNumber`.
pub open spec fn ethereum_probe_body() -> Seq<u8> {
    r#"
                {
                    "jsonrpc":"2.0",
                    "method":"eth_blockNumber",
                    "id":1
               }
               "#.spec_bytes()
}

/// The probe body for Ripple: `ledger_closed`.
pub open spec fn ripple_probe_body() -> Seq<u8> {
    r#"
                {
                    "jsonrpc":"2.0",
                    "method":"ledger_closed",
                    "params":[{}],
                    "id":1
               }
               "#.spec_bytes()
}

/// The probe body for Cardano through Rosetta: a network identifier.
pub open spec fn cardano_probe_body() -> Seq<u8> {
    r#"
            {
                "network_identifier": {
                    "blockchain": "cardano",
                    "network": "mainnet"
                }
            }
        "#.spec_bytes()
}

/// The probe body for the Internet Computer through Rosetta: a network
/// identifier.
pub open spec fn icp_probe_body() -> Seq<u8> {
    r#"
            {
                "network_identifier": {
                    "blockchain": "Internet Computer",
                    "network": "00000000000000020101"
                }
            }
        "#.spec_bytes()
}

/// The probe body for Solana: `getEpochInfo`.
pub open spec fn solana_probe_body() -> Seq<u8> {
    r#"
                {
                    "jsonrpc":"2.0",
                    "method":"getEpochInfo",
                    "id":1
               }
               "#.spec_bytes()
}

/// The probe body for Bitcoin: `getblockcount`.
pub open spec fn bitcoin_probe_body() -> Seq<u8> {
    r#"
                {
                    "jsonrpc":"1.0",
                    "method":"getblockcount",
                    "id":"1.0",
                    "params":[]
               }
               "#.spec_bytes()
}

/// The probe body for Polkadot: `system_syncState`.
pub open spec fn polkadot_probe_body() -> Seq<u8> {
    r#"
                {
                    "jsonrpc": "2.0",
                    "method": "system_syncState",
                    "id": 1
                }
                "#.spec_bytes()
}

/// Build the process-wide checker registry: every supported chain type with
/// its validator flavour and probe body, and nothing else.  Chains probed
/// with a GET and no body (Cosmos, Tron, Stellar, Algorand, TON) register
/// an empty body.
#[verifier::rlimit(60)]
pub fn init_chain_checker() -> (r: ChainCheckerRegistry)
    ensures
        forall|t: Seq<char>|
            #![trigger checker_kind_of(r@, t)]
            (t != "ethereum"@ && t != "ripple"@ && t != "cosmos"@ && t != "cardano"@ && t != "icp"@
                && t != "solana"@ && t != "bitcoin"@ && t != "tron"@ && t != "tron_grpc"@ && t
                != "stellar"@ && t != "algorand"@ && t != "ton"@ && t != "polkadot"@)
                ==> checker_kind_of(r@, t) is None && checker_body_of(r@, t) is None,
        checker_kind_of(r@, "ethereum"@) == Some(ValidatorKind::Ethereum),
        checker_body_of(r@, "ethereum"@) == Some(ethereum_probe_body()),
        checker_kind_of(r@, "ripple"@) == Some(ValidatorKind::Ripple),
        checker_body_of(r@, "ripple"@) == Some(ripple_probe_body()),
        checker_kind_of(r@, "cosmos"@) == Some(ValidatorKind::Cosmos),
        checker_body_of(r@, "cosmos"@) == Some(Seq::<u8>::empty()),
        checker_kind_of(r@, "cardano"@) == Some(ValidatorKind::Rosetta),
        checker_body_of(r@, "cardano"@) == Some(cardano_probe_body()),
        checker_kind_of(r@, "icp"@) == Some(ValidatorKind::Rosetta),
        checker_body_of(r@, "icp"@) == Some(icp_probe_body()),
        checker_kind_of(r@, "solana"@) == Some(ValidatorKind::Solana),
        checker_body_of(r@, "solana"@) == Some(solana_probe_body()),
        checker_kind_of(r@, "bitcoin"@) == Some(ValidatorKind::Bitcoin),
        checker_body_of(r@, "bitcoin"@) == Some(bitcoin_probe_body()),
        checker_kind_of(r@, "tron"@) == Some(ValidatorKind::Tron),
        checker_body_of(r@, "tron"@) == Some(Seq::<u8>::empty()),
        checker_kind_of(r@, "tron_grpc"@) == Some(ValidatorKind::TronGrpc),
        checker_body_of(r@, "tron_grpc"@) == Some(Seq::<u8>::empty()),
        checker_kind_of(r@, "stellar"@) == Some(ValidatorKind::Stellar),
        checker_body_of(r@, "stellar"@) == Some(Seq::<u8>::empty()),
        checker_kind_of(r@, "algorand"@) == Some(ValidatorKind::Algorand),
        checker_body_of(r@, "algorand"@) == Some(Seq::<u8>::empty()),
        checker_kind_of(r@, "ton"@) == Some(ValidatorKind::Ton),
        checker_body_of(r@, "ton"@) == Some(Seq::<u8>::empty()),
        checker_kind_of(r@, "polkadot"@) == Some(ValidatorKind::Polkadot),
        checker_body_of(r@, "polkadot"@) == Some(polkadot_probe_body()),
{
    proof {
        reveal_strlit("");
        assert(""@.len() == 0);
        assert("".spec_bytes() =~= Seq::<u8>::empty());
        reveal_strlit("ethereum");
        reveal_strlit("ripple");
        reveal_strlit("cosmos");
        reveal_strlit("cardano");
        reveal_strlit("icp");
        reveal_strlit("solana");
        reveal_strlit("bitcoin");
        reveal_strlit("tron");
        reveal_strlit("tron_grpc");
        reveal_strlit("stellar");
        reveal_strlit("algorand");
        reveal_strlit("ton");
        reveal_strlit("polkadot");
        assert("ethereum"@.len() == 8);
        assert("ripple"@.len() == 6);
        assert("cosmos"@.len() == 6);
        assert("cardano"@.len() == 7);
        assert("icp"@.len() == 3);
        assert("solana"@.len() == 6);
        assert("bitcoin"@.len() == 7);
        assert("tron"@.len() == 4);
        assert("tron_grpc"@.len() == 9);
        assert("stellar"@.len() == 7);
        assert("algorand"@.len() == 8);
        assert("ton"@.len() == 3);
        assert("polkadot"@.len() == 8);
        assert("ripple"@[0] != "cosmos"@[0]);
        assert("ripple"@ != "cosmos"@);
        assert("ripple"@[0] != "solana"@[0]);
        assert("ripple"@ != "solana"@);
        assert("cosmos"@[0] != "solana"@[0]);
        assert("cosmos"@ != "solana"@);
        assert("cardano"@[0] != "bitcoin"@[0]);
        assert("cardano"@ != "bitcoin"@);
        assert("cardano"@[0] != "stellar"@[0]);
        assert("cardano"@ != "stellar"@);
        assert("bitcoin"@[0] != "stellar"@[0]);
        assert("bitcoin"@ != "stellar"@);
        assert("ethereum"@[0] != "algorand"@[0]);
        assert("ethereum"@ != "algorand"@);
        assert("ethereum"@[0] != "polkadot"@[0]);
        assert("ethereum"@ != "polkadot"@);
        assert("algorand"@[0] != "polkadot"@[0]);
        assert("algorand"@ != "polkadot"@);
        assert("icp"@[0] != "ton"@[0]);
        assert("icp"@ != "ton"@);
    }
    let mut reg = ChainCheckerRegistry::new();
    reg.register_chain_checker(
        "ethereum",
        ChainChecker {
            validator: ValidatorKind::Ethereum,
            request_body: r#"
                {
                    "jsonrpc":"2.0",
                    "method":"eth_blockNumber",
                    "id":1
               }
               "#.as_bytes_vec(),
        },
    );
    reg.register_chain_checker(
        "ripple",
        ChainChecker {
            validator: ValidatorKind::Ripple,
            request_body: r#"
                {
                    "jsonrpc":"2.0",
                    "method":"ledger_closed",
                    "params":[{}],
                    "id":1
               }
               "#.as_bytes_vec(),
        },
    );
    reg.register_chain_checker(
        "cosmos",
        ChainChecker { validator: ValidatorKind::Cosmos, request_body: "".as_bytes_vec() },
    );
    reg.register_chain_checker(
        "cardano",
        ChainChecker {
            validator: ValidatorKind::Rosetta,
            request_body: r#"
            {
                "network_identifier": {
                    "blockchain": "cardano",
                    "network": "mainnet"
                }
            }
        "#.as_bytes_vec(),
        },
    );
    reg.register_chain_checker(
        "icp",
        ChainChecker {
            validator: ValidatorKind::Rosetta,
            request_body: r#"
            {
                "network_identifier": {
                    "blockchain": "Internet Computer",
                    "network": "00000000000000020101"
                }
            }
        "#.as_bytes_vec(),
        },
    );
    reg.register_chain_checker(
        "solana",
        ChainChecker {
            validator: ValidatorKind::Solana,
            request_body: r#"
                {
                    "jsonrpc":"2.0",
                    "method":"getEpochInfo",
                    "id":1
               }
               "#.as_bytes_vec(),
        },
    );
    reg.register_chain_checker(
        "bitcoin",
        ChainChecker {
            validator: ValidatorKind::Bitcoin,
            request_body: r#"
                {
                    "jsonrpc":"1.0",
                    "method":"getblockcount",
                    "id":"1.0",
                    "params":[]
               }
               "#.as_bytes_vec(),
        },
    );
    reg.register_chain_checker(
        "tron",
        ChainChecker { validator: ValidatorKind::Tron, request_body: "".as_bytes_vec() },
    );
    reg.register_chain_checker(
        "tron_grpc",
        ChainChecker { validator: ValidatorKind::TronGrpc, request_body: "".as_bytes_vec() },
    );
    reg.register_chain_checker(
        "stellar",
        ChainChecker { validator: ValidatorKind::Stellar, request_body: "".as_bytes_vec() },
    );
    reg.register_chain_checker(
        "algorand",
        ChainChecker { validator: ValidatorKind::Algorand, request_body: "".as_bytes_vec() },
    );
    reg.register_chain_checker(
        "ton",
        ChainChecker { validator: ValidatorKind::Ton, request_body: "".as_bytes_vec() },
    );
    reg.register_chain_checker(
        "polkadot",
        ChainChecker {
            validator: ValidatorKind::Polkadot,
            request_body: r#"
                {
                    "jsonrpc": "2.0",
                    "method": "system_syncState",
                    "id": 1
                }
                "#.as_bytes_vec(),
        },
    );
    reg
}

} // verus!
