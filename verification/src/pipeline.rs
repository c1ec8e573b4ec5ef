//! The transaction pipeline's decisions: which contract call one request
//! dispatches, and how what came back becomes an outcome. The pipeline
//! produces exactly one outcome per request; dispatching itself (the network
//! call) happens outside, against the plan this module fixes.

use crate::amount::Amount;
use crate::amount::amount_bound;
use crate::amount::dec_value;
use crate::amount::is_dec_string;
use crate::amount::parse_amount;
use crate::client::ServiceConfig;
use crate::client::SigningClient;
use crate::client::bind_ok;
use crate::client::initialize_client;
use crate::client::is_rpc_url;
use crate::client::is_wallet_key;
use crate::credential::Credential;
use crate::credential::credential_of_field;
use crate::credential::key_view;
use crate::credential::selected_key;
use crate::errors::PipelineError;
use crate::models::DepositRequest;
use crate::models::WithdrawRequest;
use crate::response::HttpReply;
use crate::response::OperationOutcome;
use crate::response::reply_for_error;
use ethers::types::Address;
use vstd::prelude::*;

verus! {

/// One contract operation.
pub enum Operation {
    /// Deposit this amount into the contract.
    Deposit { amount: Amount },
    /// Withdraw this amount from the contract.
    Withdraw { amount: Amount },
    /// Read the caller's balance.
    CheckBalance,
}

/// One request to the pipeline: an operation, and the credential it runs
/// under (the configured key unless the caller supplied one).
pub struct OperationRequest {
    pub operation: Operation,
    pub credential: Credential,
}

/// What the dispatch step must do for one operation: exactly one contract
/// call.
pub enum DispatchPlan {
    /// Submit a signed transaction calling the contract's deposit method,
    /// with the amount attached as the transferred value (no argument).
    SignedDeposit { attached_value: Amount },
    /// Submit a signed transaction calling the contract's withdraw method,
    /// with the amount as the sole argument (no attached value).
    SignedWithdraw { argument: Amount },
    /// Issue a read-only balance query: no transaction is submitted, so no
    /// signature, nonce, or gas is requested from the signer.
    ReadBalance,
}

impl DispatchPlan {
    /// Whether this plan submits a signed transaction.
    pub open spec fn submits_transaction(self) -> bool {
        !(self is ReadBalance)
    }
}

/// The plan one operation dispatches as.
pub open spec fn plan_of(op: Operation) -> DispatchPlan {
    match op {
        Operation::Deposit { amount } => DispatchPlan::SignedDeposit { attached_value: amount },
        Operation::Withdraw { amount } => DispatchPlan::SignedWithdraw { argument: amount },
        Operation::CheckBalance => DispatchPlan::ReadBalance,
    }
}

/// Plans the dispatch of one operation: deposits and withdrawals become
/// signed transactions carrying their amount; the balance check becomes a
/// read-only query and never submits a signed transaction.
pub fn plan_dispatch(op: &Operation) -> (p: DispatchPlan)
    ensures
        p == plan_of(*op),
        *op is CheckBalance <==> !p.submits_transaction(),
{
    match op {
        Operation::Deposit { amount } => DispatchPlan::SignedDeposit { attached_value: *amount },
        Operation::Withdraw { amount } => DispatchPlan::SignedWithdraw { argument: *amount },
        Operation::CheckBalance => DispatchPlan::ReadBalance,
    }
}

/// Folds what the dispatched call handed back into the pipeline's outcome:
/// a payload is confirmed, an empty answer is an empty result, and an error
/// text is a failure carrying that text.
pub fn outcome_of_dispatch(result: Result<Option<String>, String>) -> (o: OperationOutcome)
    ensures
        result matches Ok(Some(p)) ==> (o matches OperationOutcome::Confirmed(q) && q@ == p@),
        result matches Ok(None) ==> o is EmptyResult,
        result matches Err(m) ==> (o matches OperationOutcome::Failure(t) && t@ == m@),
{
    match result {
        Ok(Some(p)) => OperationOutcome::Confirmed(p),
        Ok(None) => OperationOutcome::EmptyResult,
        Err(m) => OperationOutcome::Failure(m),
    }
}

/// One contract call, bound and planned, ready to dispatch.
pub struct PreparedCall {
    pub client: SigningClient,
    pub contract_address: Address,
    pub plan: DispatchPlan,
}

/// Prepares one pipeline request: binds the signing client under the
/// request's credential and plans its operation's contract call. Fails with
/// a configuration error when no key is available, and with a connection
/// error when the endpoint URL or the resolved key is rejected.
pub fn prepare_request(cfg: &ServiceConfig, req: &OperationRequest) -> (r: Result<
    PreparedCall,
    PipelineError,
>)
    ensures
        r is Ok <==> bind_ok(
            req.credential.spec_resolved(key_view(cfg.default_key)),
            cfg.endpoint.rpc_url@,
        ),
        r matches Ok(p) ==> p.plan == plan_of(req.operation) && p.contract_address
            == cfg.endpoint.contract_address,
        r matches Ok(p) ==> (req.operation is CheckBalance <==> !p.plan.submits_transaction()),
        req.credential.spec_resolved(key_view(cfg.default_key)) is None ==> (r matches Err(e)
            && e is ConfigError),
        req.credential.spec_resolved(key_view(cfg.default_key)) matches Some(k) ==> ((!is_rpc_url(
            cfg.endpoint.rpc_url@,
        ) || !is_wallet_key(k)) ==> (r matches Err(e) && e is ConnectionError)),
{
    match &req.operation {
        Operation::Deposit { amount } => deposit_to_contract(cfg, &req.credential, *amount),
        Operation::Withdraw { amount } => withdraw_from_contract(cfg, &req.credential, *amount),
        Operation::CheckBalance => check_contract_balance(cfg, &req.credential),
    }
}

/// Prepares the deposit call: binds the client under the credential and
/// plans a signed deposit transaction with the amount attached as value.
pub fn deposit_to_contract(cfg: &ServiceConfig, cred: &Credential, amount: Amount) -> (r: Result<
    PreparedCall,
    PipelineError,
>)
    ensures
        r is Ok <==> bind_ok(cred.spec_resolved(key_view(cfg.default_key)), cfg.endpoint.rpc_url@),
        r matches Ok(p) ==> p.plan == (DispatchPlan::SignedDeposit { attached_value: amount })
            && p.contract_address == cfg.endpoint.contract_address,
        cred.spec_resolved(key_view(cfg.default_key)) is None ==> (r matches Err(e) && e
            is ConfigError),
        cred.spec_resolved(key_view(cfg.default_key)) matches Some(k) ==> ((!is_rpc_url(
            cfg.endpoint.rpc_url@,
        ) || !is_wallet_key(k)) ==> (r matches Err(e) && e is ConnectionError)),
{
    let client = match initialize_client(
        cfg.endpoint.rpc_url.as_str(),
        cfg.endpoint.chain_id,
        cred,
        &cfg.default_key,
    ) {
        Ok(c) => c,
        Err(e) => {
            return Err(e);
        },
    };
    let plan = plan_dispatch(&Operation::Deposit { amount });
    Ok(PreparedCall { client, contract_address: cfg.endpoint.contract_address, plan })
}

/// Prepares the withdraw call: binds the client under the credential and
/// plans a signed withdraw transaction with the amount as the sole argument.
pub fn withdraw_from_contract(cfg: &ServiceConfig, cred: &Credential, amount: Amount) -> (r:
    Result<PreparedCall, PipelineError>)
    ensures
        r is Ok <==> bind_ok(cred.spec_resolved(key_view(cfg.default_key)), cfg.endpoint.rpc_url@),
        r matches Ok(p) ==> p.plan == (DispatchPlan::SignedWithdraw { argument: amount })
            && p.contract_address == cfg.endpoint.contract_address,
        cred.spec_resolved(key_view(cfg.default_key)) is None ==> (r matches Err(e) && e
            is ConfigError),
        cred.spec_resolved(key_view(cfg.default_key)) matches Some(k) ==> ((!is_rpc_url(
            cfg.endpoint.rpc_url@,
        ) || !is_wallet_key(k)) ==> (r matches Err(e) && e is ConnectionError)),
{
    let client = match initialize_client(
        cfg.endpoint.rpc_url.as_str(),
        cfg.endpoint.chain_id,
        cred,
        &cfg.default_key,
    ) {
        Ok(c) => c,
        Err(e) => {
            return Err(e);
        },
    };
    let plan = plan_dispatch(&Operation::Withdraw { amount });
    Ok(PreparedCall { client, contract_address: cfg.endpoint.contract_address, plan })
}

/// Prepares the balance check: binds the client under the credential and
/// plans the read-only query. The plan never submits a signed transaction,
/// so no signature, nonce, or gas is requested from the signer on this path.
pub fn check_contract_balance(cfg: &ServiceConfig, cred: &Credential) -> (r: Result<
    PreparedCall,
    PipelineError,
>)
    ensures
        r is Ok <==> bind_ok(cred.spec_resolved(key_view(cfg.default_key)), cfg.endpoint.rpc_url@),
        r matches Ok(p) ==> p.plan == DispatchPlan::ReadBalance && !p.plan.submits_transaction()
            && p.contract_address == cfg.endpoint.contract_address,
        cred.spec_resolved(key_view(cfg.default_key)) is None ==> (r matches Err(e) && e
            is ConfigError),
        cred.spec_resolved(key_view(cfg.default_key)) matches Some(k) ==> ((!is_rpc_url(
            cfg.endpoint.rpc_url@,
        ) || !is_wallet_key(k)) ==> (r matches Err(e) && e is ConnectionError)),
{
    let client = match initialize_client(
        cfg.endpoint.rpc_url.as_str(),
        cfg.endpoint.chain_id,
        cred,
        &cfg.default_key,
    ) {
        Ok(c) => c,
        Err(e) => {
            return Err(e);
        },
    };
    let plan = plan_dispatch(&Operation::CheckBalance);
    Ok(PreparedCall { client, contract_address: cfg.endpoint.contract_address, plan })
}

/// What the serving edge must do next for one request: reply at once, or
/// dispatch the prepared call and normalize what comes back through
/// `outcome_of_dispatch` and `create_response`.
pub enum PipelineStep {
    /// Reply at once: the request never reaches the chain.
    Reply(HttpReply),
    /// Dispatch this prepared call.
    Dispatch(PreparedCall),
}

/// Whether a request with this key field can be dispatched under this
/// configuration: a key is selected and the URL and key parsers accept
/// their texts.
pub open spec fn dispatchable(field: Option<Seq<char>>, cfg: ServiceConfig) -> bool {
    bind_ok(selected_key(field, key_view(cfg.default_key)), cfg.endpoint.rpc_url@)
}

/// Serves one deposit request up to dispatch: parses the amount, selects the
/// credential from the optional key field, and binds the client. A malformed
/// amount is answered 400 at once; a pipeline failure 500 at once; otherwise
/// the prepared signed deposit of the parsed amount is handed out.
pub fn deposit(cfg: &ServiceConfig, req: &DepositRequest, key_field: &Option<String>) -> (r:
    PipelineStep)
    ensures
        r is Dispatch <==> is_dec_string(req.amount@) && dec_value(req.amount@) < amount_bound()
            && dispatchable(key_view(*key_field), *cfg),
        r matches PipelineStep::Dispatch(p) ==> (p.plan matches DispatchPlan::SignedDeposit {
            attached_value,
        } && attached_value.value() == dec_value(req.amount@) && p.contract_address
            == cfg.endpoint.contract_address),
        !(is_dec_string(req.amount@) && dec_value(req.amount@) < amount_bound()) ==> (r
            matches PipelineStep::Reply(rep) && rep.code == 400 && rep.body.status@ == "error"@
            && rep.body.message is Some),
        is_dec_string(req.amount@) && dec_value(req.amount@) < amount_bound() && !dispatchable(
            key_view(*key_field),
            *cfg,
        ) ==> (r matches PipelineStep::Reply(rep) && rep.code == 500 && rep.body.status@
            == "exception"@ && rep.body.message is Some),
{
    let amount = match parse_amount(req.amount.as_str()) {
        Ok(a) => a,
        Err(e) => {
            return PipelineStep::Reply(reply_for_error(&e));
        },
    };
    let cred = credential_of_field(key_field);
    match deposit_to_contract(cfg, &cred, amount) {
        Ok(p) => PipelineStep::Dispatch(p),
        Err(e) => PipelineStep::Reply(reply_for_error(&e)),
    }
}

/// Serves one withdraw request up to dispatch, exactly as `deposit`
/// does, but planning a signed withdraw with the amount as argument.
pub fn withdraw(cfg: &ServiceConfig, req: &WithdrawRequest, key_field: &Option<String>) -> (
    r: PipelineStep)
    ensures
        r is Dispatch <==> is_dec_string(req.amount@) && dec_value(req.amount@) < amount_bound()
            && dispatchable(key_view(*key_field), *cfg),
        r matches PipelineStep::Dispatch(p) ==> (p.plan matches DispatchPlan::SignedWithdraw {
            argument,
        } && argument.value() == dec_value(req.amount@) && p.contract_address
            == cfg.endpoint.contract_address),
        !(is_dec_string(req.amount@) && dec_value(req.amount@) < amount_bound()) ==> (r
            matches PipelineStep::Reply(rep) && rep.code == 400 && rep.body.status@ == "error"@
            && rep.body.message is Some),
        is_dec_string(req.amount@) && dec_value(req.amount@) < amount_bound() && !dispatchable(
            key_view(*key_field),
            *cfg,
        ) ==> (r matches PipelineStep::Reply(rep) && rep.code == 500 && rep.body.status@
            == "exception"@ && rep.body.message is Some),
{
    let amount = match parse_amount(req.amount.as_str()) {
        Ok(a) => a,
        Err(e) => {
            return PipelineStep::Reply(reply_for_error(&e));
        },
    };
    let cred = credential_of_field(key_field);
    match withdraw_from_contract(cfg, &cred, amount) {
        Ok(p) => PipelineStep::Dispatch(p),
        Err(e) => PipelineStep::Reply(reply_for_error(&e)),
    }
}

/// Serves one balance-check request up to dispatch: selects the credential
/// and binds the client. The dispatched plan is always the read-only query;
/// a pipeline failure is answered 500 at once.
pub fn check_balance(cfg: &ServiceConfig, key_field: &Option<String>) -> (r: PipelineStep)
    ensures
        r is Dispatch <==> dispatchable(key_view(*key_field), *cfg),
        r matches PipelineStep::Dispatch(p) ==> p.plan == DispatchPlan::ReadBalance
            && !p.plan.submits_transaction() && p.contract_address
            == cfg.endpoint.contract_address,
        !dispatchable(key_view(*key_field), *cfg) ==> (r matches PipelineStep::Reply(rep)
            && rep.code == 500 && rep.body.status@ == "exception"@ && rep.body.message is Some),
{
    let cred = credential_of_field(key_field);
    match check_contract_balance(cfg, &cred) {
        Ok(p) => PipelineStep::Dispatch(p),
        Err(e) => PipelineStep::Reply(reply_for_error(&e)),
    }
}

} // verus!
