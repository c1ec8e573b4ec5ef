use stake_service::ChainEndpoint;
use stake_service::Credential;
use stake_service::DepositRequest;
use stake_service::DispatchPlan;
use stake_service::Operation;
use stake_service::OperationRequest;
use stake_service::PipelineError;
use stake_service::PipelineStep;
use stake_service::ServiceConfig;
use stake_service::WithdrawRequest;
use stake_service::check_balance;
use stake_service::deposit;
use stake_service::get_stake_contract_addr;
use stake_service::initialize_client;
use stake_service::parse_amount;
use stake_service::prepare_request;
use stake_service::withdraw;

const RPC_URL: &str = "http://localhost:8545";
const HOLESKY: u64 = 17000;
// A syntactically valid 32-byte secp256k1 key (the scalar one).
const VALID_KEY: &str = "0000000000000000000000000000000000000000000000000000000000000001";
const CONTRACT: &str = "0x5FbDB2315678afecb367f032d93F642f64180aa3";

fn test_config(default_key: Option<String>) -> ServiceConfig {
    ServiceConfig {
        endpoint: ChainEndpoint {
            rpc_url: RPC_URL.to_string(),
            chain_id: HOLESKY,
            contract_address: get_stake_contract_addr(CONTRACT).unwrap(),
        },
        default_key,
    }
}

#[test]
fn a_valid_key_and_url_bind_a_client() {
    let r = initialize_client(RPC_URL, HOLESKY, &Credential::Explicit(VALID_KEY.to_string()), &None);
    assert!(r.is_ok());
}

#[test]
fn a_malformed_key_is_a_connection_error() {
    let r = initialize_client(RPC_URL, HOLESKY, &Credential::Explicit("not-a-key".to_string()), &None);
    assert!(matches!(r, Err(PipelineError::ConnectionError(_))));
}

#[test]
fn a_malformed_url_is_a_connection_error() {
    let r = initialize_client(
        "not a url",
        HOLESKY,
        &Credential::Explicit(VALID_KEY.to_string()),
        &None,
    );
    assert!(matches!(r, Err(PipelineError::ConnectionError(_))));
}

#[test]
fn no_key_at_all_is_a_config_error() {
    let r = initialize_client(RPC_URL, HOLESKY, &Credential::Configured, &None);
    assert!(matches!(r, Err(PipelineError::ConfigError(_))));
}

#[test]
fn the_callers_key_is_the_one_the_signer_parses() {
    // With an unusable configured key, binding succeeds only if the caller's
    // key is the one handed to the wallet parser.
    let r = initialize_client(
        RPC_URL,
        HOLESKY,
        &Credential::Explicit(VALID_KEY.to_string()),
        &Some("garbage".to_string()),
    );
    assert!(r.is_ok());
    // And the other way round: an unusable caller key fails even though a
    // usable configured key exists, because an explicit key never falls back.
    let r = initialize_client(
        RPC_URL,
        HOLESKY,
        &Credential::Explicit("garbage".to_string()),
        &Some(VALID_KEY.to_string()),
    );
    assert!(matches!(r, Err(PipelineError::ConnectionError(_))));
}

#[test]
fn contract_addresses_parse_exactly() {
    assert!(get_stake_contract_addr(CONTRACT).is_ok());
    assert!(matches!(
        get_stake_contract_addr("not-an-address"),
        Err(PipelineError::ConfigError(_))
    ));
}

#[test]
fn a_well_formed_deposit_is_prepared_for_dispatch() {
    let cfg = test_config(Some(VALID_KEY.to_string()));
    let req = DepositRequest { amount: "1000000000000000000".to_string() };
    match deposit(&cfg, &req, &None) {
        PipelineStep::Dispatch(p) => {
            match p.plan {
                DispatchPlan::SignedDeposit { attached_value } => {
                    assert_eq!(attached_value.to_dec_string(), "1000000000000000000");
                }
                _ => panic!("a deposit must plan a signed deposit"),
            }
        }
        PipelineStep::Reply(_) => panic!("a well-formed deposit must be dispatched"),
    }
}

#[test]
fn a_malformed_amount_is_answered_400_at_once() {
    let cfg = test_config(Some(VALID_KEY.to_string()));
    let req = DepositRequest { amount: "one ether".to_string() };
    match deposit(&cfg, &req, &None) {
        PipelineStep::Reply(rep) => {
            assert_eq!(rep.code, 400);
            assert_eq!(rep.body.status, "error");
            assert!(!rep.body.message.unwrap().is_empty());
        }
        PipelineStep::Dispatch(_) => panic!("a malformed amount must not be dispatched"),
    }
}

#[test]
fn a_missing_key_stops_a_deposit_with_500() {
    let cfg = test_config(None);
    let req = DepositRequest { amount: "5".to_string() };
    match deposit(&cfg, &req, &None) {
        PipelineStep::Reply(rep) => {
            assert_eq!(rep.code, 500);
            assert_eq!(rep.body.status, "exception");
            assert!(!rep.body.message.unwrap().is_empty());
        }
        PipelineStep::Dispatch(_) => panic!("a deposit without a key must not be dispatched"),
    }
}

#[test]
fn balance_checks_dispatch_read_only_plans() {
    let cfg = test_config(None);
    match check_balance(&cfg, &Some(VALID_KEY.to_string())) {
        PipelineStep::Dispatch(p) => {
            assert!(matches!(p.plan, DispatchPlan::ReadBalance));
        }
        PipelineStep::Reply(_) => panic!("a keyed balance check must be dispatched"),
    }
}

#[test]
fn a_well_formed_withdraw_is_prepared_for_dispatch() {
    let cfg = test_config(Some(VALID_KEY.to_string()));
    let req = WithdrawRequest { amount: "250".to_string() };
    match withdraw(&cfg, &req, &None) {
        PipelineStep::Dispatch(p) => match p.plan {
            DispatchPlan::SignedWithdraw { argument } => {
                assert_eq!(argument.to_dec_string(), "250");
            }
            _ => panic!("a withdraw must plan a signed withdraw"),
        },
        PipelineStep::Reply(_) => panic!("a well-formed withdraw must be dispatched"),
    }
}

#[test]
fn prepare_request_plans_each_operation() {
    let cfg = test_config(Some(VALID_KEY.to_string()));
    let amount = parse_amount("7").unwrap();
    let withdraw_req = OperationRequest {
        operation: Operation::Withdraw { amount },
        credential: Credential::Configured,
    };
    let p = prepare_request(&cfg, &withdraw_req).unwrap();
    assert!(matches!(p.plan, DispatchPlan::SignedWithdraw { argument } if argument == amount));
    let balance_req = OperationRequest {
        operation: Operation::CheckBalance,
        credential: Credential::Configured,
    };
    let p = prepare_request(&cfg, &balance_req).unwrap();
    assert!(matches!(p.plan, DispatchPlan::ReadBalance));
}

#[test]
fn a_bad_wallet_key_stops_a_balance_check_with_500() {
    let cfg = test_config(None);
    match check_balance(&cfg, &Some("not-a-key".to_string())) {
        PipelineStep::Reply(rep) => {
            assert_eq!(rep.code, 500);
            assert_eq!(rep.body.status, "exception");
            assert!(!rep.body.message.unwrap().is_empty());
        }
        PipelineStep::Dispatch(_) => panic!("a bad key must not be dispatched"),
    }
}
