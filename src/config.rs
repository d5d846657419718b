use vstd::prelude::*;
use crate::error::ProviderError;

verus! {

/// Link-record key holding a base64-encoded JSON configuration.
pub const CONFIG_B64_KEY: &'static str = "config_b64";
/// Link-record key holding a plain JSON configuration.
pub const CONFIG_JSON_KEY: &'static str = "config_json";
pub const COUCHBASE_URL_KEY: &'static str = "URL";
pub const COUCHBASE_BUCKET_KEY: &'static str = "bucket";
pub const COUCHBASE_COLLECTION_KEY: &'static str = "collection";
pub const COUCHBASE_USERNAME_KEY: &'static str = "username";
pub const COUCHBASE_PASSWORD_KEY: &'static str = "password";

pub const DEFAULT_CONNECT_URL: &'static str = "couchbase://0.0.0.0";
pub const DEFAULT_BUCKET: &'static str = "default";
pub const DEFAULT_COLLECTION: &'static str = "_default";
pub const DEFAULT_USERNAME: &'static str = "Administrator";
pub const DEFAULT_PASSWORD: &'static str = "password";

/// Text of the error raised for a `config_b64` value that is not base64.
pub const INVALID_BASE64_MESSAGE: &'static str = "invalid config_base64 encoding";

/// Settings used to open a collection handle in the backing store.
#[derive(Debug, Clone, PartialEq, Eq)]
pub struct Config {
    pub url: String,
    pub bucket: String,
    pub collection: String,
    pub username: String,
    pub password: String,
}

/// The five settings of a `Config` as sequences of characters.
pub struct ConfigModel {
    pub url: Seq<char>,
    pub bucket: Seq<char>,
    pub collection: Seq<char>,
    pub username: Seq<char>,
    pub password: Seq<char>,
}

impl View for Config {
    type V = ConfigModel;

    open spec fn view(&self) -> ConfigModel {
        ConfigModel {
            url: self.url@,
            bucket: self.bucket@,
            collection: self.collection@,
            username: self.username@,
            password: self.password@,
        }
    }
}

/// The settings used when the link record supplies none.
pub open spec fn default_model() -> ConfigModel {
    ConfigModel {
        url: DEFAULT_CONNECT_URL@,
        bucket: DEFAULT_BUCKET@,
        collection: DEFAULT_COLLECTION@,
        username: DEFAULT_USERNAME@,
        password: DEFAULT_PASSWORD@,
    }
}

/// The value that the link record's key/value pairs give to `key`; where a
/// key occurs more than once, the last pair counts.
pub open spec fn value_of(values: Seq<(String, String)>, key: Seq<char>) -> Option<Seq<char>>
    decreases values.len(),
{
    if values.len() == 0 {
        None
    } else if values.last().0@ == key {
        Some(values.last().1@)
    } else {
        value_of(values.drop_last(), key)
    }
}

/// `base` unless an override is given.
pub open spec fn overridden(base: Seq<char>, o: Option<Seq<char>>) -> Seq<char> {
    match o {
        Some(v) => v,
        None => base,
    }
}

/// The whole-struct source of the settings: the plain JSON blob if parsed,
/// else the base64 blob if parsed, else the defaults.
pub open spec fn blob_model(
    from_b64: Option<Result<Config, ProviderError>>,
    from_json: Option<Result<Config, ProviderError>>,
) -> ConfigModel {
    match from_json {
        Some(Ok(c)) => c@,
        _ => match from_b64 {
            Some(Ok(c)) => c@,
            _ => default_model(),
        },
    }
}

/// `m` with each field replaced by the explicit key of the link record, if present.
pub open spec fn with_overrides(m: ConfigModel, values: Seq<(String, String)>) -> ConfigModel {
    ConfigModel {
        url: overridden(m.url, value_of(values, COUCHBASE_URL_KEY@)),
        bucket: overridden(m.bucket, value_of(values, COUCHBASE_BUCKET_KEY@)),
        collection: overridden(m.collection, value_of(values, COUCHBASE_COLLECTION_KEY@)),
        username: overridden(m.username, value_of(values, COUCHBASE_USERNAME_KEY@)),
        password: overridden(m.password, value_of(values, COUCHBASE_PASSWORD_KEY@)),
    }
}

/// The first error among the parsed blobs, the base64 one first.
pub open spec fn blob_error(
    from_b64: Option<Result<Config, ProviderError>>,
    from_json: Option<Result<Config, ProviderError>>,
) -> Option<ProviderError> {
    match from_b64 {
        Some(Err(e)) => Some(e),
        _ => match from_json {
            Some(Err(e)) => Some(e),
            _ => None,
        },
    }
}

/// What `base64::decode` gives for a text: the bytes, or `None` when the text
/// is not valid standard base64.
pub uninterp spec fn b64_decoded(text: Seq<char>) -> Option<Seq<u8>>;

/// Relies on base64::decode (standard alphabet, padding): the decoded bytes,
/// or an error for malformed input; the result depends on the text alone.
#[verifier::external_body]
fn decode_base64(text: &String) -> (r: Option<Vec<u8>>)
    ensures
        match r {
            Some(b) => b64_decoded(text@) == Some(b@),
            None => b64_decoded(text@) is None,
        },
{
    base64::decode(text.as_str()).ok()
}

impl Config {
    /// The default settings.
    pub fn new() -> (r: Self)
        ensures
            r@ == default_model(),
    {
        Config {
            url: DEFAULT_CONNECT_URL.to_owned(),
            bucket: DEFAULT_BUCKET.to_owned(),
            collection: DEFAULT_COLLECTION.to_owned(),
            username: DEFAULT_USERNAME.to_owned(),
            password: DEFAULT_PASSWORD.to_owned(),
        }
    }
}

/// The value of `key` in the link record's key/value pairs.
pub fn find_value(values: &Vec<(String, String)>, key: &str) -> (r: Option<String>)
    ensures
        match r {
            Some(v) => value_of(values@, key@) == Some(v@),
            None => value_of(values@, key@) is None,
        },
{
    let k = key.to_owned();
    let mut found: Option<String> = None;
    let mut i: usize = 0;
    while i < values.len()
        invariant
            i <= values@.len(),
            k@ == key@,
            match found {
                Some(v) => value_of(values@.take(i as int), key@) == Some(v@),
                None => value_of(values@.take(i as int), key@) is None,
            },
        decreases values@.len() - i,
    {
        proof {
            assert(values@.take(i as int + 1).drop_last() =~= values@.take(i as int));
        }
        if values[i].0 == k {
            found = Some(values[i].1.clone());
        }
        i = i + 1;
    }
    proof {
        assert(values@.take(i as int) =~= values@);
    }
    found
}

/// The bytes of the base64 configuration blob: `None` when the link record
/// has no `config_b64` key, an `InvalidConfiguration` error when its value is
/// not base64.
pub fn decode_config_b64(values: &Vec<(String, String)>) -> (r: Option<Result<Vec<u8>, ProviderError>>)
    ensures
        match value_of(values@, CONFIG_B64_KEY@) {
            None => r is None,
            Some(t) => match b64_decoded(t) {
                Some(b) => (r matches Some(Ok(v)) && v@ == b),
                None => (r matches Some(Err(ProviderError::InvalidConfiguration(m)))
                    && m@ == INVALID_BASE64_MESSAGE@),
            },
        },
{
    match find_value(values, CONFIG_B64_KEY) {
        None => None,
        Some(text) => match decode_base64(&text) {
            Some(bytes) => Some(Ok(bytes)),
            None => Some(Err(ProviderError::InvalidConfiguration(INVALID_BASE64_MESSAGE.to_owned()))),
        },
    }
}

fn overriding(values: &Vec<(String, String)>, key: &str, base: String) -> (r: String)
    ensures
        r@ == overridden(base@, value_of(values@, key@)),
{
    match find_value(values, key) {
        Some(v) => v,
        None => base,
    }
}

/// Builds the link's configuration. `from_b64` is the configuration parsed
/// from the decoded `config_b64` blob and `from_json` the one parsed from the
/// `config_json` blob, each `None` when the link record lacks that key. The
/// plain JSON blob overrides the base64 one as a whole, and the explicit keys
/// of the link record override either field by field. A blob that failed to
/// decode or parse fails the whole load, the base64 one reported first.
pub fn load_config(
    values: &Vec<(String, String)>,
    from_b64: Option<Result<Config, ProviderError>>,
    from_json: Option<Result<Config, ProviderError>>,
) -> (r: Result<Config, ProviderError>)
    ensures
        match blob_error(from_b64, from_json) {
            Some(e) => r == Err::<Config, ProviderError>(e),
            None => (r matches Ok(c) && c@ == with_overrides(blob_model(from_b64, from_json), values@)),
        },
{
    let mut config = Config::new();
    if let Some(parsed) = from_b64 {
        match parsed {
            Ok(c) => config = c,
            Err(e) => return Err(e),
        }
    }
    if let Some(parsed) = from_json {
        match parsed {
            Ok(c) => config = c,
            Err(e) => return Err(e),
        }
    }
    let Config { url, bucket, collection, username, password } = config;
    Ok(Config {
        url: overriding(values, COUCHBASE_URL_KEY, url),
        bucket: overriding(values, COUCHBASE_BUCKET_KEY, bucket),
        collection: overriding(values, COUCHBASE_COLLECTION_KEY, collection),
        username: overriding(values, COUCHBASE_USERNAME_KEY, username),
        password: overriding(values, COUCHBASE_PASSWORD_KEY, password),
    })
}

/// An explicit key of the link record wins over both blobs: whatever the
/// blobs hold, a `bucket` key of value `b` gives the bucket `b`.
pub proof fn explicit_key_wins(
    values: Seq<(String, String)>,
    from_b64: Option<Result<Config, ProviderError>>,
    from_json: Option<Result<Config, ProviderError>>,
    b: Seq<char>,
)
    requires
        value_of(values, COUCHBASE_BUCKET_KEY@) == Some(b),
    ensures
        with_overrides(blob_model(from_b64, from_json), values).bucket == b,
{
}

/// The plain JSON blob wins over the base64 one: with both parsed and no
/// explicit `bucket` key, the bucket is the JSON blob's.
pub proof fn json_blob_wins(values: Seq<(String, String)>, a: Config, j: Config)
    requires
        value_of(values, COUCHBASE_BUCKET_KEY@) is None,
    ensures
        with_overrides(blob_model(Some(Ok(a)), Some(Ok(j))), values).bucket == j.bucket@,
{
}

/// With only the base64 blob parsed and no explicit `bucket` key, the bucket
/// is the base64 blob's.
pub proof fn b64_blob_alone(values: Seq<(String, String)>, a: Config)
    requires
        value_of(values, COUCHBASE_BUCKET_KEY@) is None,
    ensures
        with_overrides(blob_model(Some(Ok(a)), None), values).bucket == a.bucket@,
{
}

} // verus!
