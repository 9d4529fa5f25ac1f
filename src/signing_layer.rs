//! Which signing clients a node builds for the settlement layers, and with what settings.

use crate::types::{Address, H256};
use vstd::prelude::*;

verus! {

/// The kind of signer behind the clients.
#[derive(Debug, Clone, Copy, PartialEq, Eq, Structural)]
#[non_exhaustive]
pub enum SigningEthClientType {
    /// Signs with private keys from the wallet configuration.
    PKSigningEthClient,
    /// Signs with keys held by the cloud key-management service, named by the environment.
    GKMSSigningEthClient,
}

/// The key a client signs with.
#[derive(Debug)]
pub enum SignerKey {
    PrivateKey(H256),
    /// The name of a key in the key-management service.
    KmsKeyName(String),
}

pub enum SignerKeyView {
    PrivateKey(H256),
    KmsKeyName(Seq<char>),
}

impl View for SignerKey {
    type V = SignerKeyView;

    open spec fn view(&self) -> SignerKeyView {
        match self {
            SignerKey::PrivateKey(k) => SignerKeyView::PrivateKey(*k),
            SignerKey::KmsKeyName(n) => SignerKeyView::KmsKeyName(n@),
        }
    }
}

/// The settings of one signing client.
#[derive(Debug)]
pub struct SigningClient {
    pub key: SignerKey,
    pub diamond_proxy_addr: Address,
    pub default_priority_fee_per_gas: u64,
    pub chain_id: u64,
}

pub struct SigningClientView {
    pub key: SignerKeyView,
    pub diamond_proxy_addr: Address,
    pub default_priority_fee_per_gas: u64,
    pub chain_id: u64,
}

impl View for SigningClient {
    type V = SigningClientView;

    open spec fn view(&self) -> SigningClientView {
        SigningClientView {
            key: self.key@,
            diamond_proxy_addr: self.diamond_proxy_addr,
            default_priority_fee_per_gas: self.default_priority_fee_per_gas,
            chain_id: self.chain_id,
        }
    }
}

/// The view of an optional client.
pub open spec fn client_view_opt(c: Option<SigningClient>) -> Option<SigningClientView> {
    match c {
        Some(c) => Some(c@),
        None => None,
    }
}

/// The settlement chain of the gateway, if the node settles there.
#[derive(Debug, Clone, Copy)]
pub struct GatewayChainConfig {
    pub gateway_chain_id: u64,
    pub diamond_proxy_addr: Address,
}

/// The operator keys of the node.
#[derive(Debug, Clone, Copy)]
pub struct EthSenderWallets {
    pub operator: H256,
    /// The key that posts blobs, if a separate one is configured.
    pub blob_operator: Option<H256>,
}

/// What the layer takes from the running node.
#[derive(Debug)]
pub struct Input {
    /// The chain id that the L1 client reported.
    pub l1_chain_id: u64,
    /// Whether the node has a client for the gateway chain.
    pub has_gateway_client: bool,
    /// The key-service key of the operator, if the environment names one.
    pub kms_op_key_name: Option<String>,
    /// The key-service key for blobs, if the environment names one.
    pub kms_op_blob_key_name: Option<String>,
}

/// The signing clients the layer provides.
#[derive(Debug)]
pub struct Output {
    pub signing_client: SigningClient,
    /// Only provided if a blob operator key is available.
    pub signing_client_for_blobs: Option<SigningClient>,
    /// Only provided if the node settles on a gateway chain.
    pub signing_client_for_gateway: Option<SigningClient>,
}

/// Why the layer could not provide its clients.
#[derive(Debug, Clone, Copy, PartialEq, Eq, Structural)]
pub enum WiringError {
    /// The sender configuration has no gas adjuster settings.
    MissingGasAdjusterConfig,
    /// Signing goes through the key service, but the environment names no operator key.
    MissingKmsOpKeyName,
}

/// Provides the signing clients of the settlement layers.
#[derive(Debug)]
pub struct PKSigningEthClientLayer {
    pub default_priority_fee_per_gas: Option<u64>,
    pub diamond_proxy_addr: Address,
    pub gateway_chain_config: Option<GatewayChainConfig>,
    pub wallets: EthSenderWallets,
    pub client_type: SigningEthClientType,
}

/// The key of an optional key-service name.
pub open spec fn kms_key(name: Option<String>) -> Option<SignerKeyView> {
    match name {
        Some(n) => Some(SignerKeyView::KmsKeyName(n@)),
        None => None,
    }
}

impl PKSigningEthClientLayer {
    /// `default_priority_fee_per_gas` is that of the sender's gas adjuster settings, if it has any.
    pub fn new(
        default_priority_fee_per_gas: Option<u64>,
        diamond_proxy_addr: Address,
        gateway_chain_config: Option<GatewayChainConfig>,
        wallets: EthSenderWallets,
        client_type: SigningEthClientType,
    ) -> (r: PKSigningEthClientLayer)
        ensures
            r.default_priority_fee_per_gas == default_priority_fee_per_gas,
            r.diamond_proxy_addr == diamond_proxy_addr,
            r.gateway_chain_config == gateway_chain_config,
            r.wallets == wallets,
            r.client_type == client_type,
    {
        PKSigningEthClientLayer {
            default_priority_fee_per_gas,
            diamond_proxy_addr,
            gateway_chain_config,
            wallets,
            client_type,
        }
    }

    pub fn layer_name(&self) -> (r: &'static str)
        ensures
            r@ == "pk_signing_eth_client_layer"@,
    {
        "pk_signing_eth_client_layer"
    }

    /// The key of the operator's client.
    pub open spec fn operator_key(&self, input: Input) -> Option<SignerKeyView> {
        match self.client_type {
            SigningEthClientType::PKSigningEthClient => Some(SignerKeyView::PrivateKey(self.wallets.operator)),
            SigningEthClientType::GKMSSigningEthClient => kms_key(input.kms_op_key_name),
        }
    }

    /// The key of the blob client, if there is one.
    pub open spec fn blob_key(&self, input: Input) -> Option<SignerKeyView> {
        match self.client_type {
            SigningEthClientType::PKSigningEthClient => match self.wallets.blob_operator {
                Some(k) => Some(SignerKeyView::PrivateKey(k)),
                None => None,
            },
            SigningEthClientType::GKMSSigningEthClient => kms_key(input.kms_op_blob_key_name),
        }
    }

    /// Whether the node settles on a gateway chain that it has a client for.
    pub open spec fn settles_on_gateway(&self, input: Input) -> bool {
        input.has_gateway_client && (self.gateway_chain_config matches Some(g) && g.gateway_chain_id != 0)
    }

    /// Builds the settings of the clients: one for the operator on L1; one for blobs if a blob key
    /// is available; one for the gateway chain, with the operator's key, if the node settles there.
    /// Signing through the key service with no operator key named is a configuration error,
    /// returned as `MissingKmsOpKeyName` rather than a panic, so that the node can report it.
    pub fn wire(self, input: Input) -> (r: Result<Output, WiringError>)
        ensures
            self.default_priority_fee_per_gas is None ==> r == Err::<Output, WiringError>(WiringError::MissingGasAdjusterConfig),
            self.default_priority_fee_per_gas is Some && self.operator_key(input) is None ==> r == Err::<Output, WiringError>(WiringError::MissingKmsOpKeyName),
            r matches Ok(o) ==> {
                let fee = self.default_priority_fee_per_gas.unwrap();
                let key = self.operator_key(input).unwrap();
                &&& self.default_priority_fee_per_gas is Some
                &&& self.operator_key(input) is Some
                &&& o.signing_client@ == SigningClientView {
                    key,
                    diamond_proxy_addr: self.diamond_proxy_addr,
                    default_priority_fee_per_gas: fee,
                    chain_id: input.l1_chain_id,
                }
                &&& client_view_opt(o.signing_client_for_blobs) == match self.blob_key(input) {
                    Some(k) => Some(SigningClientView {
                        key: k,
                        diamond_proxy_addr: self.diamond_proxy_addr,
                        default_priority_fee_per_gas: fee,
                        chain_id: input.l1_chain_id,
                    }),
                    None => None,
                }
                &&& client_view_opt(o.signing_client_for_gateway) == if self.settles_on_gateway(input) {
                    Some(SigningClientView {
                        key,
                        diamond_proxy_addr: self.gateway_chain_config.unwrap().diamond_proxy_addr,
                        default_priority_fee_per_gas: fee,
                        chain_id: self.gateway_chain_config.unwrap().gateway_chain_id,
                    })
                } else {
                    None
                }
            },
            (self.default_priority_fee_per_gas is Some && self.operator_key(input) is Some) ==> r is Ok,
    {
        let fee = match self.default_priority_fee_per_gas {
            Some(f) => f,
            None => return Err(WiringError::MissingGasAdjusterConfig),
        };
        let Input { l1_chain_id, has_gateway_client, kms_op_key_name, kms_op_blob_key_name } = input;
        let (signing_client, signing_client_for_blobs, gateway_key) = match self.client_type {
            SigningEthClientType::PKSigningEthClient => {
                let sc = SigningClient {
                    key: SignerKey::PrivateKey(self.wallets.operator),
                    diamond_proxy_addr: self.diamond_proxy_addr,
                    default_priority_fee_per_gas: fee,
                    chain_id: l1_chain_id,
                };
                let blobs = match self.wallets.blob_operator {
                    Some(k) => Some(SigningClient {
                        key: SignerKey::PrivateKey(k),
                        diamond_proxy_addr: self.diamond_proxy_addr,
                        default_priority_fee_per_gas: fee,
                        chain_id: l1_chain_id,
                    }),
                    None => None,
                };
                (sc, blobs, SignerKey::PrivateKey(self.wallets.operator))
            },
            SigningEthClientType::GKMSSigningEthClient => {
                let name = match kms_op_key_name {
                    Some(n) => n,
                    None => return Err(WiringError::MissingKmsOpKeyName),
                };
                let sc = SigningClient {
                    key: SignerKey::KmsKeyName(name.clone()),
                    diamond_proxy_addr: self.diamond_proxy_addr,
                    default_priority_fee_per_gas: fee,
                    chain_id: l1_chain_id,
                };
                let blobs = match kms_op_blob_key_name {
                    Some(n) => Some(SigningClient {
                        key: SignerKey::KmsKeyName(n),
                        diamond_proxy_addr: self.diamond_proxy_addr,
                        default_priority_fee_per_gas: fee,
                        chain_id: l1_chain_id,
                    }),
                    None => None,
                };
                (sc, blobs, SignerKey::KmsKeyName(name))
            },
        };
        let signing_client_for_gateway = match self.gateway_chain_config {
            Some(g) => if has_gateway_client && g.gateway_chain_id != 0 {
                Some(SigningClient {
                    key: gateway_key,
                    diamond_proxy_addr: g.diamond_proxy_addr,
                    default_priority_fee_per_gas: fee,
                    chain_id: g.gateway_chain_id,
                })
            } else {
                None
            },
            None => None,
        };
        Ok(Output { signing_client, signing_client_for_blobs, signing_client_for_gateway })
    }
}

} // verus!
