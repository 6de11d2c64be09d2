use algorithmia::algorithm::{Algorithm, AlgorithmOutput, Version};
use algorithmia::json_helpers::{decode, decode_response};

#[test]
fn algorithm_test_to_url() {
    let base = "https://api.algorithmia.com";
    let algorithm = Algorithm {
        user: String::from("kenny"),
        repo: String::from("Factor"),
        version: Version::Latest,
    };
    assert_eq!(algorithm.to_url(base), format!("{}/api/kenny/Factor", base));
}

#[test]
fn algorithm_versioned_url() {
    let base = "https://api.algorithmia.com";
    let algorithm = Algorithm {
        user: String::from("kenny"),
        repo: String::from("Factor"),
        version: Version::Minor(0, 1),
    };
    assert_eq!(algorithm.to_url(base), format!("{}/api/kenny/Factor/0.1", base));
}

#[test]
fn test_json_decoding() {
    let json_output = "{\"duration\":0.46739511,\"result\":[5,41]}";
    let expected_duration = 0.46739511f32;
    let expected_result: Vec<i32> = vec![5, 41];
    let decoded: AlgorithmOutput<Vec<i32>> = decode(json_output).unwrap();
    assert_eq!(expected_duration, decoded.duration.parse::<f32>().unwrap());
    assert_eq!(expected_result, decoded.result);
}

#[test]
fn algorithm_output_decodes_under_success_status() {
    let body = "{\"duration\":0.46,\"result\":[5,41]}";
    let decoded: AlgorithmOutput<Vec<i64>> = decode_response(true, body).unwrap();
    assert_eq!(decoded.result, vec![5i64, 41i64]);
    assert_eq!(decoded.duration.parse::<f64>().unwrap(), 0.46f64);
}

#[test]
fn algorithm_output_with_negative_ints() {
    let body = "{\"duration\":1,\"result\":[-5,0]}";
    let decoded: AlgorithmOutput<Vec<i64>> = decode_response(true, body).unwrap();
    assert_eq!(decoded.result, vec![-5i64, 0i64]);
}

#[test]
fn algorithm_output_needs_result_field() {
    let body = "{\"duration\":0.46}";
    let decoded: Result<AlgorithmOutput<Vec<i64>>, _> = decode(body);
    assert!(decoded.is_err());
}
