//! The configuration that every translation shares.

use crate::call::Oversized;
use crate::errors::EthApiError;
use crate::felt::Felt;
use vstd::prelude::*;

verus! {

/// The reason for which the `url` crate refuses a text.
#[verifier::external_type_specification]
#[verifier::external_body]
pub struct ExParseError(url::ParseError);

/// The URL that the `url` crate reads from a text, written out again, where it reads one.
pub uninterp spec fn parsed_url(text: Seq<char>) -> Option<Seq<char>>;

/// `url::Url::parse`: the URL that the crate reads from the text, written out again, or its
/// reason for refusing the text. Which texts it accepts and how it writes them is left to the
/// crate.
#[verifier::external_body]
fn parse_url(text: &str) -> (r: Result<String, url::ParseError>)
    ensures
        r is Ok <==> parsed_url(text@) is Some,
        r matches Ok(written) ==> parsed_url(text@) == Some(written@),
{
    match url::Url::parse(text) {
        Ok(url) => Ok(String::from(url)),
        Err(e) => Err(e),
    }
}

/// What a client is made from.
pub struct StarknetConfig {
    /// The endpoint of the ledger's client.
    pub starknet_rpc: String,
    /// The interpreter contract.
    pub kakarot_address: Felt,
    /// The class of the contracts that stand for Ethereum accounts.
    pub proxy_account_class_hash: Felt,
}

/// The configuration of the translation layer. It never changes once made.
pub struct KakarotClient {
    starknet_rpc: String,
    kakarot_address: Felt,
    proxy_account_class_hash: Felt,
    oversized: Oversized,
}

impl KakarotClient {
    /// What becomes of an element that is no byte where the bytes that a call returned are
    /// read.
    pub closed spec fn spec_oversized(&self) -> Oversized {
        self.oversized
    }

    /// The endpoint of the ledger's client, as a URL.
    pub closed spec fn spec_starknet_rpc(&self) -> Seq<char> {
        self.starknet_rpc@
    }

    /// The interpreter contract.
    pub closed spec fn spec_kakarot_address(&self) -> Felt {
        self.kakarot_address
    }

    /// The class of the contracts that stand for Ethereum accounts.
    pub closed spec fn spec_proxy_account_class_hash(&self) -> Felt {
        self.proxy_account_class_hash
    }

    /// A client for the given configuration, where its endpoint is a URL.
    pub fn new(starknet_config: StarknetConfig) -> (r: Result<KakarotClient, EthApiError>)
        ensures
            r is Ok <==> parsed_url(starknet_config.starknet_rpc@) is Some,
            r matches Ok(client) ==> {
                &&& Some(client.spec_starknet_rpc()) == parsed_url(starknet_config.starknet_rpc@)
                &&& client.kakarot_address() == starknet_config.kakarot_address
                &&& client.proxy_account_class_hash() == starknet_config.proxy_account_class_hash
                &&& client.oversized() is Dropped
            },
            r matches Err(e) ==> e == EthApiError::InvalidEndpoint,
    {
        let parsed = parse_url(starknet_config.starknet_rpc.as_str());
        KakarotClient::with_endpoint(
            parsed,
            starknet_config.kakarot_address,
            starknet_config.proxy_account_class_hash,
        )
    }

    /// A client for an endpoint that was read already, or the failure to read it.
    pub fn with_endpoint(
        endpoint: Result<String, url::ParseError>,
        kakarot_address: Felt,
        proxy_account_class_hash: Felt,
    ) -> (r: Result<KakarotClient, EthApiError>)
        ensures
            r is Ok <==> endpoint is Ok,
            r matches Ok(client) ==> {
                &&& endpoint matches Ok(url) && client.spec_starknet_rpc() == url@
                &&& client.kakarot_address() == kakarot_address
                &&& client.proxy_account_class_hash() == proxy_account_class_hash
                &&& client.oversized() is Dropped
            },
            r matches Err(e) ==> e == EthApiError::InvalidEndpoint,
    {
        match endpoint {
            Ok(starknet_rpc) => Ok(
                KakarotClient {
                    starknet_rpc,
                    kakarot_address,
                    proxy_account_class_hash,
                    oversized: Oversized::Dropped,
                },
            ),
            Err(_) => Err(EthApiError::InvalidEndpoint),
        }
    }

    /// The same client, but for what becomes of an element that is no byte where the bytes
    /// that a call returned are read. A new client drops such elements.
    pub fn with_oversized(self, oversized: Oversized) -> (r: KakarotClient)
        ensures
            r.oversized() == oversized,
            r.spec_starknet_rpc() == self.spec_starknet_rpc(),
            r.kakarot_address() == self.kakarot_address(),
            r.proxy_account_class_hash() == self.proxy_account_class_hash(),
    {
        KakarotClient {
            starknet_rpc: self.starknet_rpc,
            kakarot_address: self.kakarot_address,
            proxy_account_class_hash: self.proxy_account_class_hash,
            oversized,
        }
    }

    /// What becomes of an element that is no byte where the bytes that a call returned are
    /// read.
    #[verifier::when_used_as_spec(spec_oversized)]
    pub fn oversized(&self) -> (r: Oversized)
        ensures
            r == self.spec_oversized(),
    {
        self.oversized
    }

    /// The endpoint of the ledger's client, as a URL.
    pub fn starknet_rpc(&self) -> (r: &str)
        ensures
            r@ == self.spec_starknet_rpc(),
    {
        self.starknet_rpc.as_str()
    }

    /// The interpreter contract.
    #[verifier::when_used_as_spec(spec_kakarot_address)]
    pub fn kakarot_address(&self) -> (r: Felt)
        ensures
            r == self.spec_kakarot_address(),
    {
        self.kakarot_address
    }

    /// The class of the contracts that stand for Ethereum accounts.
    #[verifier::when_used_as_spec(spec_proxy_account_class_hash)]
    pub fn proxy_account_class_hash(&self) -> (r: Felt)
        ensures
            r == self.spec_proxy_account_class_hash(),
    {
        self.proxy_account_class_hash
    }
}

} // verus!
