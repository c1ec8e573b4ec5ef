//! Binding the transaction-signing client. The pipeline resolves the signing
//! credential, builds an HTTP provider from the endpoint URL, parses the
//! resolved key into a wallet stamped with the chain id, and pairs the two.
//! The provider, wallet, and client types belong to the ethers crate and are
//! opaque here; each call into them stands behind a trusted item whose
//! contract states no more than the crate's source shows.

use crate::credential::Credential;
use crate::credential::key_view;
use crate::errors::PipelineError;
use ethers::middleware::SignerMiddleware;
use ethers::providers::Http;
use ethers::providers::Provider;
use ethers::signers::LocalWallet;
use ethers::signers::Signer;
use ethers::types::Address;
use vstd::prelude::*;

verus! {

#[verifier::external_type_specification]
#[verifier::external_body]
pub struct ExHttp(Http);

#[verifier::external_type_specification]
#[verifier::external_body]
#[verifier::reject_recursive_types(P)]
pub struct ExProvider<P>(Provider<P>);

#[verifier::external_type_specification]
#[verifier::external_body]
pub struct ExAddress(ethers::types::H160);

/// A parsed signing wallet. The wallet type names the curve's signing key,
/// which Verus cannot see into, so the wallet is held opaquely; the field
/// stays readable by the unverified edge that dispatches the call.
#[verifier::external_body]
pub struct WalletHandle {
    pub inner: LocalWallet,
}

/// The transaction-signing client one request runs under: an HTTP provider
/// paired with a local wallet, held opaquely for the same reason as the
/// wallet.
#[verifier::external_body]
pub struct SigningClient {
    pub inner: SignerMiddleware<Provider<Http>, LocalWallet>,
}

/// Whether the URL parser accepts this text as an endpoint URL.
pub uninterp spec fn is_rpc_url(s: Seq<char>) -> bool;

/// Whether the wallet's key parser accepts this text as a signing key.
pub uninterp spec fn is_wallet_key(s: Seq<char>) -> bool;

/// Whether the address parser accepts this text as a contract address.
pub uninterp spec fn is_contract_addr(s: Seq<char>) -> bool;

/// Relies on TryFrom<&str> for Provider<Http>: builds an HTTP provider from
/// an endpoint URL, succeeding exactly when Url::parse accepts the text — a
/// function of the characters alone. The error is carried as its display
/// text.
#[verifier::external_body]
fn try_provider(url: &str) -> (r: Result<Provider<Http>, String>)
    ensures
        r is Ok <==> is_rpc_url(url@),
{
    Provider::<Http>::try_from(url).map_err(|e| e.to_string())
}

/// Relies on FromStr for LocalWallet: parses a hexadecimal private key,
/// succeeding exactly on texts that decode to a usable signing key — a
/// function of the characters alone. The error is carried as its display
/// text.
#[verifier::external_body]
fn parse_wallet(key: &str) -> (r: Result<WalletHandle, String>)
    ensures
        r is Ok <==> is_wallet_key(key@),
{
    match key.parse::<LocalWallet>() {
        Ok(w) => Ok(WalletHandle { inner: w }),
        Err(e) => Err(e.to_string()),
    }
}

/// Relies on Signer::with_chain_id: stamps the wallet with the chain it
/// signs for, for replay protection; it always returns the restamped wallet.
#[verifier::external_body]
fn wallet_with_chain_id(wallet: WalletHandle, chain_id: u64) -> WalletHandle {
    WalletHandle { inner: wallet.inner.with_chain_id(chain_id) }
}

/// Relies on SignerMiddleware::new: pairs the provider with the signing
/// wallet into the client the dispatch step uses.
#[verifier::external_body]
fn new_signer_client(provider: Provider<Http>, wallet: WalletHandle) -> SigningClient {
    SigningClient { inner: SignerMiddleware::new(provider, wallet.inner) }
}

/// Relies on FromStr for the address type: parses a hexadecimal contract
/// address, succeeding exactly on well-formed address texts — a function of
/// the characters alone. The error is carried as its display text.
#[verifier::external_body]
fn parse_address(s: &str) -> (r: Result<Address, String>)
    ensures
        r is Ok <==> is_contract_addr(s@),
{
    s.parse::<Address>().map_err(|e| e.to_string())
}

/// The immutable chain endpoint, read once at process start: the RPC URL,
/// the chain identifier, and the target contract's address.
pub struct ChainEndpoint {
    pub rpc_url: String,
    pub chain_id: u64,
    pub contract_address: Address,
}

/// The process-wide configuration the pipeline consumes: the endpoint, and
/// the default signing key if one is configured.
pub struct ServiceConfig {
    pub endpoint: ChainEndpoint,
    pub default_key: Option<String>,
}

/// Parses the configured contract address; a rejected text is a
/// configuration error, not a fault.
pub fn get_stake_contract_addr(s: &str) -> (r: Result<Address, PipelineError>)
    ensures
        r is Ok <==> is_contract_addr(s@),
        !is_contract_addr(s@) ==> (r matches Err(e) && e is ConfigError),
{
    match parse_address(s) {
        Ok(a) => Ok(a),
        Err(m) => Err(PipelineError::ConfigError(m)),
    }
}

/// Whether the client can be bound: a key is available, and the URL and the
/// resolved key are both accepted by their parsers.
pub open spec fn bind_ok(resolved: Option<Seq<char>>, url: Seq<char>) -> bool {
    match resolved {
        Some(k) => is_rpc_url(url) && is_wallet_key(k),
        None => false,
    }
}

/// Resolves the signing credential and binds the transaction-signing client:
/// the provider from the endpoint URL, the wallet from the resolved key
/// stamped with the chain id, and the two paired. Fails with a configuration
/// error when no key is available, and with a connection error when the URL
/// or the resolved key is rejected.
pub fn initialize_client(
    rpc_url: &str,
    chain_id: u64,
    cred: &Credential,
    configured_key: &Option<String>,
) -> (r: Result<SigningClient, PipelineError>)
    ensures
        r is Ok <==> bind_ok(cred.spec_resolved(key_view(*configured_key)), rpc_url@),
        cred.spec_resolved(key_view(*configured_key)) is None ==> (r matches Err(e) && e
            is ConfigError),
        cred.spec_resolved(key_view(*configured_key)) matches Some(k) ==> ((!is_rpc_url(rpc_url@)
            || !is_wallet_key(k)) ==> (r matches Err(e) && e is ConnectionError)),
{
    let key = match crate::credential::resolve_key(cred, configured_key) {
        Ok(k) => k,
        Err(e) => {
            return Err(e);
        },
    };
    let provider = match try_provider(rpc_url) {
        Ok(p) => p,
        Err(m) => {
            return Err(PipelineError::ConnectionError(m));
        },
    };
    let wallet = match parse_wallet(key.as_str()) {
        Ok(w) => w,
        Err(m) => {
            return Err(PipelineError::ConnectionError(m));
        },
    };
    let wallet = wallet_with_chain_id(wallet, chain_id);
    Ok(new_signer_client(provider, wallet))
}

} // verus!
