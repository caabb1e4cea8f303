use spending_limits::limits::mypeach::{
    check_status, map_reqwest_error, parse_response, signing_input, MypeachLimitsProvider,
    EVALUATE_PATH, HAS_LIMITS_PATH, HEADER_NONCE, HEADER_SIGNATURE, HEADER_TIMESTAMP, SETTLE_PATH,
};
use spending_limits::limits::types::LimitsProviderError;
use spending_limits::secret::Secret;

fn provider(base_url: &str, secret: &str) -> MypeachLimitsProvider<()> {
    MypeachLimitsProvider::new(base_url.to_string(), Secret::new(secret.to_string()), Ok(()))
        .ok()
        .unwrap()
}

#[test]
fn signing_input_is_canonical_and_deterministic() {
    let a = signing_input("{\"x\":1}", 1_700_000_000, "nonce-1");
    let b = signing_input("{\"x\":1}", 1_700_000_000, "nonce-1");
    assert_eq!(a, b);
    assert_eq!(a, "{\"x\":1}.1700000000.nonce-1");
}

#[test]
fn signature_is_stable_for_fixed_inputs() {
    // HMAC-SHA256 over a fixed (secret, message) must be reproducible; this
    // pins the signing contract so the provider can verify independently.
    let provider = provider("https://mypeach.example", "top-secret");
    let sig1 = provider.sign_with("body", 42, "abc".to_string()).unwrap();
    let sig2 = provider.sign_with("body", 42, "abc".to_string()).unwrap();
    assert_eq!(sig1.signature, sig2.signature);
    assert_eq!(hex::decode(&sig1.signature).unwrap().len(), 32, "HMAC-SHA256 is 32 bytes");
    assert_eq!(
        sig1.signature,
        "71834f0fa3c443de78507fb3861bb3c438f1eca96edd3173f775afc72dd1dd0d"
    );
    assert_eq!(sig1.timestamp, "42");
    assert_eq!(sig1.nonce, "abc");
}

#[test]
fn url_joins_without_double_slash() {
    let provider = provider("https://mypeach.example/", "s");
    assert_eq!(
        provider.url("/limits/v1/evaluate"),
        "https://mypeach.example/limits/v1/evaluate"
    );
}

#[test]
fn url_drops_all_trailing_slashes_and_no_others() {
    assert_eq!(provider("http://h/a//", "s").url(SETTLE_PATH), "http://h/a/limits/v1/settle");
    assert_eq!(provider("http://h", "s").url(HAS_LIMITS_PATH), "http://h/limits/v1/has-limits");
    assert_eq!(provider("///", "s").url(EVALUATE_PATH), "/limits/v1/evaluate");
    assert_eq!(provider("", "s").url(EVALUATE_PATH), "/limits/v1/evaluate");
}

#[test]
fn signing_input_keeps_a_negative_timestamp() {
    assert_eq!(signing_input("", -1, "n"), ".-1.n");
    assert_eq!(signing_input("", i64::MIN, ""), ".-9223372036854775808.");
    assert_eq!(signing_input("a.b", 0, "c"), "a.b.0.c");
}

#[test]
fn signature_depends_on_every_part() {
    let signature = |secret: &str, body: &str, timestamp: i64, nonce: &str| {
        provider("http://h", secret)
            .sign_with(body, timestamp, nonce.to_string())
            .unwrap()
            .signature
    };
    let base = signature("k", "b", 1, "n");
    assert_ne!(base, signature("l", "b", 1, "n"));
    assert_ne!(base, signature("k", "c", 1, "n"));
    assert_ne!(base, signature("k", "b", 2, "n"));
    assert_ne!(base, signature("k", "b", 1, "m"));
    assert_eq!(base.len(), 64);
    assert!(base.chars().all(|c| c.is_ascii_digit() || ('a'..='f').contains(&c)));
}

#[test]
fn sign_carries_a_fresh_nonce_and_the_time() {
    let provider = provider("http://h", "top-secret");
    let first = provider.sign("{}").unwrap();
    let second = provider.sign("{}").unwrap();
    assert_ne!(first.nonce, second.nonce);
    assert_ne!(first.signature, second.signature);
    assert_eq!(first.nonce.len(), 36);
    assert_eq!(first.nonce.as_bytes()[14], b'4');
    assert!(!first.nonce.contains('.'));
    let timestamp: i64 = first.timestamp.parse().unwrap();
    // Later than the year 2020.
    assert!(timestamp > 1_577_836_800);
    // The headers are those of the request that they name.
    let again = provider.sign_with("{}", timestamp, first.nonce.clone()).unwrap();
    assert_eq!(again.signature, first.signature);
}

#[test]
fn a_client_that_cannot_be_built_is_unavailable() {
    let provider: Result<MypeachLimitsProvider<u8>, LimitsProviderError> =
        MypeachLimitsProvider::new(
            "http://h".to_string(),
            Secret::new("s".to_string()),
            Err("no tls".to_string()),
        );
    assert_eq!(provider.err(), Some(LimitsProviderError::Unavailable("no tls".to_string())));
    let built = MypeachLimitsProvider::new(
        "http://h".to_string(),
        Secret::new("s".to_string()),
        Ok::<u8, String>(7),
    );
    assert_eq!(*built.ok().unwrap().client(), 7);
}

#[test]
fn failed_requests_are_told_apart() {
    assert_eq!(map_reqwest_error(true, "slow".to_string()), LimitsProviderError::Timeout);
    assert_eq!(
        map_reqwest_error(false, "refused".to_string()),
        LimitsProviderError::Unavailable("refused".to_string())
    );
}

#[test]
fn only_a_status_of_success_is_parsed() {
    for status in [200, 204, 299] {
        assert_eq!(check_status(status), Ok(()));
        assert_eq!(parse_response(status, Ok::<u8, String>(1)), Ok(1));
        assert_eq!(
            parse_response(status, Err::<u8, String>("eof".to_string())),
            Err(LimitsProviderError::Decode("eof".to_string()))
        );
    }
    for status in [100, 199, 300, 404, 500] {
        assert_eq!(check_status(status), Err(LimitsProviderError::Http { status }));
        assert_eq!(
            parse_response(status, Ok::<u8, String>(1)),
            Err(LimitsProviderError::Http { status })
        );
        assert_eq!(
            parse_response(status, Err::<u8, String>("eof".to_string())),
            Err(LimitsProviderError::Http { status })
        );
    }
}

#[test]
fn headers_have_their_names() {
    assert_eq!(HEADER_SIGNATURE, "X-Limits-Signature");
    assert_eq!(HEADER_TIMESTAMP, "X-Limits-Timestamp");
    assert_eq!(HEADER_NONCE, "X-Limits-Nonce");
}

#[test]
fn request_is_signed_for_the_body_it_carries() {
    let provider = provider("https://mypeach.example/", "top-secret");
    let request = provider
        .signed_request_with(EVALUATE_PATH, "body".to_string(), 42, "abc".to_string())
        .unwrap();
    assert_eq!(request.url, "https://mypeach.example/limits/v1/evaluate");
    assert_eq!(request.body, "body");
    assert_eq!(
        request.headers.into_pairs(),
        vec![
            (
                "X-Limits-Signature",
                "71834f0fa3c443de78507fb3861bb3c438f1eca96edd3173f775afc72dd1dd0d".to_string()
            ),
            ("X-Limits-Timestamp", "42".to_string()),
            ("X-Limits-Nonce", "abc".to_string()),
        ]
    );
}

#[test]
fn question_for_limits_is_signed_over_an_empty_body() {
    let provider = provider("http://h", "top-secret");
    let request = provider.has_limits_request().unwrap();
    assert_eq!(request.url, "http://h/limits/v1/has-limits");
    assert_eq!(request.body, "");
    let headers = request.headers;
    let timestamp: i64 = headers.timestamp.parse().unwrap();
    let again = provider.sign_with("", timestamp, headers.nonce.clone()).unwrap();
    assert_eq!(again.signature, headers.signature);
    let other = provider.signed_request(SETTLE_PATH, "{}".to_string()).unwrap();
    assert_eq!(other.body, "{}");
    assert_ne!(other.headers.nonce, headers.nonce);
}
