use gas_estimator::Address;
use gas_estimator::ApiError;
use gas_estimator::CallRequest;
use gas_estimator::EstimationPath;
use gas_estimator::FixedRpcEstimator;
use gas_estimator::GasEstimator;
use gas_estimator::Uint256;
use gas_estimator::classify;
use gas_estimator::static_response;
use gas_estimator::wrap_rpc_outcome;
use gas_estimator::BLOB_TX_TYPE;
use gas_estimator::GAS_TX_BASE;
use gas_estimator::GAS_TX_CREATE;
use gas_estimator::GAS_TX_DATA_NON_ZERO;
use gas_estimator::GAS_TX_DATA_ZERO;

/// A stand-in collaborator that answers every call with a fixed 21000 gas.
fn mock_backend() -> FixedRpcEstimator {
    FixedRpcEstimator { outcome: Ok(Uint256::from_u64(21000)) }
}

fn address_from() -> Address {
    // 0xc0ffee254729296a45a3885639AC7E10F9d54979
    Address {
        bytes: [
            0xc0, 0xff, 0xee, 0x25, 0x47, 0x29, 0x29, 0x6a, 0x45, 0xa3, 0x88, 0x56, 0x39, 0xac,
            0x7e, 0x10, 0xf9, 0xd5, 0x49, 0x79,
        ],
    }
}

fn address_to() -> Address {
    address_from()
}

fn simple_transfer_request() -> CallRequest {
    CallRequest {
        from: Some(address_from()),
        to: Some(address_to()),
        value: Some(Uint256::from_u64(1)),
        ..Default::default()
    }
}

#[test]
fn test_calculate_static_gas_simple_transfer() {
    let estimator = GasEstimator::new(mock_backend());
    let tx = simple_transfer_request();

    let gas = estimator.calculate_static_gas(&tx);
    assert_eq!(gas, GAS_TX_BASE);
}

#[test]
fn test_calculate_static_gas_contract_creation() {
    let estimator = GasEstimator::new(mock_backend());
    let tx = CallRequest {
        to: None, // Contract creation
        ..Default::default()
    };

    let gas = estimator.calculate_static_gas(&tx);
    assert_eq!(gas, GAS_TX_BASE + GAS_TX_CREATE);
}

#[test]
fn test_calculate_static_gas_with_data() {
    let estimator = GasEstimator::new(mock_backend());
    let tx = CallRequest {
        to: Some(address_to()),
        data: Some(vec![0x01, 0x00, 0x02]), // 2 non-zero, 1 zero byte
        ..Default::default()
    };

    let gas = estimator.calculate_static_gas(&tx);
    assert_eq!(gas, GAS_TX_BASE + (GAS_TX_DATA_NON_ZERO * 2) + GAS_TX_DATA_ZERO);
}

#[test]
fn test_needs_simulation_with_data() {
    let estimator = GasEstimator::new(mock_backend());
    let tx = CallRequest { data: Some(vec![0x01]), ..Default::default() };

    assert!(estimator.needs_simulation(&tx));
}

#[test]
fn test_needs_simulation_with_value() {
    let estimator = GasEstimator::new(mock_backend());
    let tx = CallRequest {
        data: Some(Vec::new()),
        value: Some(Uint256::from_u64(1)),
        ..Default::default()
    };

    assert!(estimator.needs_simulation(&tx));
}

#[test]
fn test_estimate_gas_static() {
    let estimator = GasEstimator::new(mock_backend());
    let tx = simple_transfer_request();

    let result = estimator.estimate_gas(tx).unwrap();
    assert_eq!(result.gas_limit, Uint256::from_u64(GAS_TX_BASE));
    assert_eq!(result.method.as_str(), "static");
}

#[test]
fn test_estimate_gas_rpc() {
    let estimator = GasEstimator::new(mock_backend());
    let tx = CallRequest {
        data: Some(vec![0x01]), // Forces RPC path
        ..Default::default()
    };

    let result = estimator.estimate_gas(tx).unwrap();
    assert_eq!(result.gas_limit, Uint256::from_u64(21000)); // From mock response
    assert_eq!(result.method.as_str(), "rpc");
}

#[test]
fn test_estimate_gas_blob_transaction() {
    let estimator = GasEstimator::new(mock_backend());
    let tx = CallRequest { transaction_type: Some(BLOB_TX_TYPE), ..Default::default() };

    let result = estimator.estimate_gas(tx).unwrap();
    assert_eq!(result.method.as_str(), "rpc");
}

#[test]
fn test_estimate_gas_contract_creation_static() {
    let estimator = GasEstimator::new(mock_backend());
    let tx = CallRequest { to: None, ..Default::default() };

    let result = estimator.estimate_gas(tx).unwrap();
    assert_eq!(result.gas_limit, Uint256::from_u64(GAS_TX_BASE + GAS_TX_CREATE));
    assert_eq!(result.method.as_str(), "static");
}

#[test]
fn test_calculate_static_gas_creation_with_data() {
    let estimator = GasEstimator::new(mock_backend());
    let tx = CallRequest {
        to: None,
        data: Some(vec![0x01, 0x00, 0x02]),
        ..Default::default()
    };

    // Base, creation, byte costs, and the code-deposit cost of three bytes.
    let gas = estimator.calculate_static_gas(&tx);
    assert_eq!(gas, 21000 + 32000 + 16 + 4 + 16 + 3 * 200);
}

#[test]
fn test_classify_nonempty_data_with_zero_value() {
    // Non-empty data routes to simulation whatever the value holds.
    let tx = CallRequest {
        to: Some(address_to()),
        value: Some(Uint256::zero()),
        data: Some(vec![0xab]),
        ..Default::default()
    };
    assert_eq!(classify(&tx), EstimationPath::Simulate);
}

#[test]
fn test_classify_absent_data_nonzero_value() {
    // A pure value transfer stays on the static path even with a large value.
    let tx = CallRequest {
        to: Some(address_to()),
        value: Some(Uint256 { hi: u128::MAX, lo: u128::MAX }),
        ..Default::default()
    };
    assert_eq!(classify(&tx), EstimationPath::Static);
}

#[test]
fn test_classify_blob_overrides_other_fields() {
    // The blob envelope tag routes to simulation even for a plain transfer.
    let tx = CallRequest {
        to: Some(address_to()),
        value: Some(Uint256::from_u64(1)),
        transaction_type: Some(BLOB_TX_TYPE),
        ..Default::default()
    };
    assert_eq!(classify(&tx), EstimationPath::Simulate);
}

#[test]
fn test_classify_non_blob_type_tag_static() {
    // Another envelope type tag does not by itself force simulation.
    let tx = CallRequest { to: Some(address_to()), transaction_type: Some(2), ..Default::default() };
    assert_eq!(classify(&tx), EstimationPath::Static);
}

#[test]
fn test_estimate_gas_rpc_failure_is_upstream_error() {
    let estimator = GasEstimator::new(FixedRpcEstimator {
        outcome: Err(String::from("connection refused")),
    });
    let tx = CallRequest { data: Some(vec![0x01]), ..Default::default() };

    let err = estimator.estimate_gas(tx).unwrap_err();
    match err {
        ApiError::InternalServerError(message) => {
            assert_eq!(message, "connection refused");
        }
        ApiError::BadRequest(_) => panic!("an RPC failure must surface as an upstream error"),
    }
}

#[test]
fn test_error_status_codes_and_bodies() {
    let bad = ApiError::BadRequest(String::from("no such field"));
    assert_eq!(bad.status_code(), 400);
    assert_eq!(bad.to_error_response().error, "no such field");

    let upstream = ApiError::InternalServerError(String::from("timed out"));
    assert_eq!(upstream.status_code(), 500);
    assert_eq!(upstream.to_error_response().error, "timed out");
}

#[test]
fn test_wrap_rpc_outcome_passes_amount_through() {
    let amount = Uint256 { hi: 7, lo: 9 };
    let result = wrap_rpc_outcome(Ok(amount)).unwrap();
    assert_eq!(result.gas_limit, amount);
    assert_eq!(result.method.as_str(), "rpc");

    let err = wrap_rpc_outcome(Err(String::from("revert"))).unwrap_err();
    match err {
        ApiError::InternalServerError(message) => assert_eq!(message, "revert"),
        ApiError::BadRequest(_) => panic!("a collaborator failure is an upstream error"),
    }
}

#[test]
fn test_static_response_builds_tagged_amount() {
    let tx = simple_transfer_request();
    let response = static_response(&tx);
    assert_eq!(response.gas_limit, Uint256::from_u64(GAS_TX_BASE));
    assert_eq!(response.method.as_str(), "static");
}

#[test]
fn test_estimation_idempotent() {
    // The same descriptor against the same stubbed response, twice.
    let estimator = GasEstimator::new(mock_backend());
    let tx = CallRequest { data: Some(vec![0x01]), ..Default::default() };
    let first = estimator.estimate_gas(tx.clone()).unwrap();
    let second = estimator.estimate_gas(tx).unwrap();
    assert_eq!(first, second);

    let static_tx = simple_transfer_request();
    let first_static = estimator.estimate_gas(static_tx.clone()).unwrap();
    let second_static = estimator.estimate_gas(static_tx).unwrap();
    assert_eq!(first_static, second_static);
}

#[test]
fn test_uint256_values() {
    assert!(Uint256::zero().is_zero());
    assert!(!Uint256::from_u64(1).is_zero());
    assert!(!Uint256 { hi: 1, lo: 0 }.is_zero());
    assert_eq!(Uint256::from_u64(21000), Uint256 { hi: 0, lo: 21000 });
}
