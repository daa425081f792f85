use vstd::prelude::*;

verus! {

/// gRPC endpoint of a node running on this machine.
pub const LOCAL_NODE_GPRC: &'static str = "http://localhost:9090";

pub const OSMOSIS_GRPC_MAINNET: &'static str = "https://osmosis-grpc.polkachu.com:12590";

pub const OSMOSIS_GRPC_TESTNET: &'static str = "https://osmosis-testnet-grpc.polkachu.com:12590";

pub const INJECTIVE_GRPC_MAINNET: &'static str = "https://injective-grpc.polkachu.com:14390";

pub const INJECTIVE_GRPC_TESTNET: &'static str = "https://injective-testnet-grpc.polkachu.com:14390";

/// Commitment semantics requested from the node when a transaction is submitted.
#[derive(Clone, Copy, Debug, PartialEq, Eq, Structural)]
pub enum BroadcastMode {
    Block,
    Sync,
    Async,
}

impl BroadcastMode {
    /// The wire code of the mode.
    pub open spec fn code(self) -> i32 {
        match self {
            BroadcastMode::Block => 1,
            BroadcastMode::Sync => 2,
            BroadcastMode::Async => 3,
        }
    }

    pub fn repr(&self) -> (r: i32)
        ensures
            r == self.code(),
    {
        match self {
            BroadcastMode::Block => 1,
            BroadcastMode::Sync => 2,
            BroadcastMode::Async => 3,
        }
    }

    pub fn from_repr(code: i32) -> (r: Option<BroadcastMode>)
        ensures
            r matches Some(m) ==> m.code() == code,
            r is None <==> (code < 1 || code > 3),
    {
        if code == 1 {
            Some(BroadcastMode::Block)
        } else if code == 2 {
            Some(BroadcastMode::Sync)
        } else if code == 3 {
            Some(BroadcastMode::Async)
        } else {
            None
        }
    }
}

/// The signature and address scheme of a chain.
#[derive(Clone, Copy, Debug, PartialEq, Eq, Structural)]
pub enum ChainFamily {
    /// secp256k1, SHA-256 signing digest, address = RIPEMD-160(SHA-256(compressed key)).
    Standard,
    /// secp256k1, Keccak-256 signing digest, address = last 20 bytes of
    /// Keccak-256(uncompressed key), always under the `inj` prefix.
    EthCompatible,
}

/// The BIP-44 coin type of a supported chain; it selects the chain family.
#[derive(Clone, Copy, Debug, PartialEq, Eq, Structural)]
pub enum CoinType {
    Injective,
    Cosmos,
    Terra,
}

impl CoinType {
    /// The registered BIP-44 code of the coin type.
    pub open spec fn code(self) -> u64 {
        match self {
            CoinType::Injective => 60,
            CoinType::Cosmos => 118,
            CoinType::Terra => 330,
        }
    }

    /// The coin type registered under `code`, if any.
    pub open spec fn of_code(code: u64) -> Option<CoinType> {
        if code == 60 {
            Some(CoinType::Injective)
        } else if code == 118 {
            Some(CoinType::Cosmos)
        } else if code == 330 {
            Some(CoinType::Terra)
        } else {
            None
        }
    }

    pub open spec fn family_of(self) -> ChainFamily {
        match self {
            CoinType::Injective => ChainFamily::EthCompatible,
            _ => ChainFamily::Standard,
        }
    }

    pub fn repr(&self) -> (r: u64)
        ensures
            r == self.code(),
    {
        match self {
            CoinType::Injective => 60,
            CoinType::Cosmos => 118,
            CoinType::Terra => 330,
        }
    }

    pub fn from_repr(code: u64) -> (r: Option<CoinType>)
        ensures
            r == CoinType::of_code(code),
    {
        if code == 60 {
            Some(CoinType::Injective)
        } else if code == 118 {
            Some(CoinType::Cosmos)
        } else if code == 330 {
            Some(CoinType::Terra)
        } else {
            None
        }
    }

    /// The chain family that this coin type fixes for a wallet's lifetime.
    pub fn family(&self) -> (r: ChainFamily)
        ensures
            r == self.family_of(),
    {
        match self {
            CoinType::Injective => ChainFamily::EthCompatible,
            _ => ChainFamily::Standard,
        }
    }
}

impl From<CoinType> for u64 {
    fn from(val: CoinType) -> (r: u64)
        ensures
            r == val.code(),
    {
        val.repr()
    }
}

impl vstd::std_specs::convert::FromSpecImpl<CoinType> for u64 {
    open spec fn obeys_from_spec() -> bool {
        true
    }

    open spec fn from_spec(v: CoinType) -> u64 {
        v.code()
    }
}

} // verus!
