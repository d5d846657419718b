use kv_couchbase::config::{
    decode_config_b64, find_value, load_config, Config, CONFIG_B64_KEY, INVALID_BASE64_MESSAGE,
};
use kv_couchbase::error::ProviderError;

fn pairs(items: &[(&str, &str)]) -> Vec<(String, String)> {
    items.iter().map(|(k, v)| (k.to_string(), v.to_string())).collect()
}

fn config_with_bucket(bucket: &str) -> Config {
    Config {
        url: "couchbase://blob".to_string(),
        bucket: bucket.to_string(),
        collection: "c".to_string(),
        username: "u".to_string(),
        password: "p".to_string(),
    }
}

#[test]
fn defaults_when_nothing_supplied() {
    let c = load_config(&pairs(&[]), None, None).unwrap();
    assert_eq!(c.url, "couchbase://0.0.0.0");
    assert_eq!(c.bucket, "default");
    assert_eq!(c.collection, "_default");
    assert_eq!(c.username, "Administrator");
    assert_eq!(c.password, "password");
    assert_eq!(c, Config::new());
}

#[test]
fn explicit_bucket_beats_both_blobs() {
    let values = pairs(&[("config_b64", "x"), ("config_json", "y"), ("bucket", "C")]);
    let c = load_config(
        &values,
        Some(Ok(config_with_bucket("A"))),
        Some(Ok(config_with_bucket("B"))),
    )
    .unwrap();
    assert_eq!(c.bucket, "C");
    assert_eq!(c.url, "couchbase://blob");
}

#[test]
fn json_blob_beats_b64_blob() {
    let values = pairs(&[("config_b64", "x"), ("config_json", "y")]);
    let c = load_config(
        &values,
        Some(Ok(config_with_bucket("A"))),
        Some(Ok(config_with_bucket("B"))),
    )
    .unwrap();
    assert_eq!(c.bucket, "B");
}

#[test]
fn b64_blob_alone_sets_bucket() {
    let values = pairs(&[("config_b64", "x")]);
    let c = load_config(&values, Some(Ok(config_with_bucket("A"))), None).unwrap();
    assert_eq!(c.bucket, "A");
}

#[test]
fn explicit_keys_patch_each_field() {
    let values = pairs(&[
        ("URL", "couchbase://db"),
        ("collection", "docs"),
        ("username", "alice"),
        ("password", "SECRET-REDACTED"),
        ("unrelated", "ignored"),
    ]);
    let c = load_config(&values, None, None).unwrap();
    assert_eq!(c.url, "couchbase://db");
    assert_eq!(c.bucket, "default");
    assert_eq!(c.collection, "docs");
    assert_eq!(c.username, "alice");
    assert_eq!(c.password, "SECRET-REDACTED");
}

#[test]
fn b64_error_is_reported_first() {
    let e1 = ProviderError::InvalidConfiguration("bad b64".to_string());
    let e2 = ProviderError::InvalidConfiguration("bad json".to_string());
    let r = load_config(&pairs(&[("bucket", "C")]), Some(Err(e1.clone())), Some(Err(e2.clone())));
    assert_eq!(r, Err(e1));
    let r = load_config(&pairs(&[]), Some(Ok(config_with_bucket("A"))), Some(Err(e2.clone())));
    assert_eq!(r, Err(e2));
}

#[test]
fn find_value_last_pair_counts() {
    let values = pairs(&[("bucket", "one"), ("URL", "u"), ("bucket", "two")]);
    assert_eq!(find_value(&values, "bucket"), Some("two".to_string()));
    assert_eq!(find_value(&values, "URL"), Some("u".to_string()));
    assert_eq!(find_value(&values, "password"), None);
}

#[test]
fn decode_b64_blob_bytes() {
    let values = pairs(&[(CONFIG_B64_KEY, "eyJidWNrZXQiOiJBIn0=")]);
    let bytes = decode_config_b64(&values).unwrap().unwrap();
    assert_eq!(bytes, b"{\"bucket\":\"A\"}".to_vec());
}

#[test]
fn decode_b64_absent_and_malformed() {
    assert!(decode_config_b64(&pairs(&[("config_json", "{}")])).is_none());
    let r = decode_config_b64(&pairs(&[(CONFIG_B64_KEY, "not base64!")])).unwrap();
    assert_eq!(
        r,
        Err(ProviderError::InvalidConfiguration(INVALID_BASE64_MESSAGE.to_string()))
    );
}
