//! A verified core for a small staking service: a transaction pipeline that
//! resolves signing credentials, plans one contract call (deposit, withdraw,
//! or a read-only balance check), and normalizes the outcome into a fixed
//! JSON envelope.

mod amount;
mod client;
mod credential;
mod errors;
mod models;
mod pipeline;
mod response;

pub use amount::Amount;
pub use amount::amount_bound;
pub use amount::dec_string_of;
pub use amount::dec_value;
pub use amount::digit_char;
pub use amount::digit_val;
pub use amount::is_dec_digit;
pub use amount::is_dec_string;
pub use amount::lemma_dec_string_of_value;
pub use amount::lemma_parse_format_round_trip;
pub use amount::parse_amount;
pub use client::ChainEndpoint;
pub use client::ServiceConfig;
pub use client::SigningClient;
pub use client::WalletHandle;
pub use client::bind_ok;
pub use client::get_stake_contract_addr;
pub use client::initialize_client;
pub use client::is_contract_addr;
pub use client::is_rpc_url;
pub use client::is_wallet_key;
pub use credential::Credential;
pub use credential::credential_of_field;
pub use credential::key_view;
pub use credential::lemma_caller_key_wins;
pub use credential::resolve_key;
pub use credential::selected_key;
pub use errors::PipelineError;
pub use models::DepositRequest;
pub use models::JsonResponse;
pub use models::WithdrawRequest;
pub use pipeline::DispatchPlan;
pub use pipeline::Operation;
pub use pipeline::OperationRequest;
pub use pipeline::PipelineStep;
pub use pipeline::PreparedCall;
pub use pipeline::check_contract_balance;
pub use pipeline::dispatchable;
pub use pipeline::plan_of;
pub use pipeline::deposit_to_contract;
pub use pipeline::check_balance;
pub use pipeline::deposit;
pub use pipeline::withdraw;
pub use pipeline::outcome_of_dispatch;
pub use pipeline::plan_dispatch;
pub use pipeline::prepare_request;
pub use pipeline::withdraw_from_contract;
pub use response::HttpReply;
pub use response::OperationOutcome;
pub use response::create_response;
pub use response::lemma_normalizer_statuses;
pub use response::reply_for_error;
pub use response::response_code_of;
pub use response::response_message_of;
pub use response::response_status_of;
