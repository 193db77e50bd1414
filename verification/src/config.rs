//! Service configuration read from environment variables, with defaults and validation.
use vstd::prelude::*;

use crate::request::{all_whitespace, is_unicode_whitespace};
use crate::text::{chars_of, concat2, owned, str_equal};

verus! {

// ---------------------------------------------------------------------------
// Environment.
// ---------------------------------------------------------------------------

/// The process environment, as name/value pairs.
#[derive(Debug)]
pub struct Environment {
    pub vars: Vec<(String, String)>,
}

/// The value of the first variable named `name` at or after position `i`.
pub open spec fn lookup_from(vars: Seq<(String, String)>, name: Seq<char>, i: int) -> Option<
    Seq<char>,
>
    decreases vars.len() - i,
{
    if i < 0 || i >= vars.len() {
        None
    } else if vars[i].0@ == name {
        Some(vars[i].1@)
    } else {
        lookup_from(vars, name, i + 1)
    }
}

pub open spec fn env_lookup(env: Environment, name: Seq<char>) -> Option<Seq<char>> {
    lookup_from(env.vars@, name, 0)
}

/// The variable's value, or `default` when it is not set.
pub open spec fn spec_value(env: Environment, name: Seq<char>, default: Seq<char>) -> Seq<char> {
    match env_lookup(env, name) {
        Some(v) => v,
        None => default,
    }
}

/// The variable's value when it is set to something other than white space.
pub open spec fn spec_optional(env: Environment, name: Seq<char>) -> Option<Seq<char>> {
    match env_lookup(env, name) {
        Some(v) => if all_whitespace(v) {
            None
        } else {
            Some(v)
        },
        None => None,
    }
}

impl Environment {
    /// The value of the variable `name`, if it is set.
    pub fn get(&self, name: &str) -> (r: Option<&str>)
        ensures
            match r {
                Some(v) => env_lookup(*self, name@) == Some(v@),
                None => env_lookup(*self, name@) is None,
            },
    {
        let mut i: usize = 0;
        while i < self.vars.len()
            invariant
                i <= self.vars@.len(),
                env_lookup(*self, name@) == lookup_from(self.vars@, name@, i as int),
            decreases self.vars@.len() - i,
        {
            if str_equal(self.vars[i].0.as_str(), name) {
                return Some(self.vars[i].1.as_str());
            }
            i = i + 1;
        }
        None
    }

    /// The variable's value, or `default`.
    pub fn value(&self, name: &str, default: &str) -> (r: String)
        ensures
            r@ == spec_value(*self, name@, default@),
    {
        match self.get(name) {
            Some(v) => owned(v),
            None => owned(default),
        }
    }

    /// The variable's value when it holds more than white space.
    pub fn optional(&self, name: &str) -> (r: Option<String>)
        ensures
            match r {
                Some(v) => spec_optional(*self, name@) == Some(v@),
                None => spec_optional(*self, name@) is None,
            },
    {
        match self.get(name) {
            Some(v) => if is_blank(v) {
                None
            } else {
                Some(owned(v))
            },
            None => None,
        }
    }
}

/// Whether `s` holds nothing but white space.
pub fn is_blank(s: &str) -> (b: bool)
    ensures
        b == all_whitespace(s@),
{
    let v = chars_of(s);
    let mut i: usize = 0;
    while i < v.len()
        invariant
            i <= v@.len(),
            v@ == s@,
            forall|j: int| 0 <= j < i ==> is_unicode_whitespace(#[trigger] v@[j]),
        decreases v@.len() - i,
    {
        let c = v[i] as u32;
        let ws = (9 <= c && c <= 13) || c == 32 || c == 0x85 || c == 0xa0 || c == 0x1680 || (
        0x2000 <= c && c <= 0x200a) || c == 0x2028 || c == 0x2029 || c == 0x202f || c == 0x205f
            || c == 0x3000;
        if !ws {
            assert(!is_unicode_whitespace(s@[i as int]));
            return false;
        }
        i = i + 1;
    }
    true
}

// ---------------------------------------------------------------------------
// Numbers and booleans, as std's `FromStr` reads them.
// ---------------------------------------------------------------------------

pub open spec fn is_digit(c: char) -> bool {
    '0' <= c && c <= '9'
}

pub open spec fn all_digits(s: Seq<char>) -> bool {
    forall|i: int| 0 <= i < s.len() ==> is_digit(#[trigger] s[i])
}

/// The number that the decimal digits `s` denote.
pub open spec fn digits_value(s: Seq<char>) -> nat
    decreases s.len(),
{
    if s.len() == 0 {
        0
    } else {
        digits_value(s.drop_last()) * 10 + ((s.last() as nat) - ('0' as nat)) as nat
    }
}

/// `s` read as an unsigned number no larger than `max`: an optional `+` and at least one
/// decimal digit.
pub open spec fn spec_parse_unsigned(s: Seq<char>, max: nat) -> Option<nat> {
    let d = if s.len() > 0 && s[0] == '+' {
        s.drop_first()
    } else {
        s
    };
    if d.len() == 0 || !all_digits(d) || digits_value(d) > max {
        None
    } else {
        Some(digits_value(d))
    }
}

/// `s` read as a signed 64-bit number: an optional sign and at least one decimal digit.
pub open spec fn spec_parse_i64(s: Seq<char>) -> Option<int> {
    if s.len() > 0 && s[0] == '-' {
        let d = s.drop_first();
        if d.len() == 0 || !all_digits(d) || digits_value(d) > 9223372036854775808 {
            None
        } else {
            Some(-(digits_value(d) as int))
        }
    } else {
        match spec_parse_unsigned(s, 9223372036854775807) {
            Some(v) => Some(v as int),
            None => None,
        }
    }
}

/// `s` read as a boolean: exactly `true` or `false`.
pub open spec fn spec_parse_bool(s: Seq<char>) -> Option<bool> {
    if s == "true"@ {
        Some(true)
    } else if s == "false"@ {
        Some(false)
    } else {
        None
    }
}

proof fn lemma_digits_value_grows(s: Seq<char>, i: int)
    requires
        0 <= i <= s.len(),
        all_digits(s),
    ensures
        digits_value(s.take(i)) <= digits_value(s),
    decreases s.len() - i,
{
    if i < s.len() {
        lemma_digits_value_grows(s, i + 1);
        assert(s.take(i + 1).drop_last() =~= s.take(i));
    } else {
        assert(s.take(i) =~= s);
    }
}

/// The digits `d` as a number no larger than `max`.
fn digits_to_u64(d: &Vec<char>, max: u64) -> (r: Option<u64>)
    requires
        all_digits(d@),
    ensures
        match r {
            Some(v) => v == digits_value(d@) && v <= max,
            None => digits_value(d@) > max,
        },
{
    let mut v: u64 = 0;
    let mut i: usize = 0;
    while i < d.len()
        invariant
            i <= d@.len(),
            all_digits(d@),
            v == digits_value(d@.take(i as int)),
            v <= max,
        decreases d@.len() - i,
    {
        assert(d@.take(i + 1).drop_last() =~= d@.take(i as int));
        assert(is_digit(d@[i as int]));
        let digit = (d[i] as u32 - '0' as u32) as u64;
        if digit > max || v > (max - digit) / 10 {
            proof {
                lemma_digits_value_grows(d@, i + 1);
                if digit <= max {
                    assert(v * 10 + digit > max) by (nonlinear_arith)
                        requires
                            v > (max - digit) / 10,
                            digit <= 9,
                            digit <= max,
                    ;
                }
            }
            return None;
        }
        assert(v * 10 + digit <= max) by (nonlinear_arith)
            requires
                v <= (max - digit) / 10,
                digit <= max,
        ;
        v = v * 10 + digit;
        i = i + 1;
    }
    assert(d@.take(d@.len() as int) =~= d@);
    Some(v)
}

fn check_digits(d: &Vec<char>) -> (b: bool)
    ensures
        b == all_digits(d@),
{
    let mut i: usize = 0;
    while i < d.len()
        invariant
            i <= d@.len(),
            forall|j: int| 0 <= j < i ==> is_digit(#[trigger] d@[j]),
        decreases d@.len() - i,
    {
        if !('0' <= d[i] && d[i] <= '9') {
            return false;
        }
        i = i + 1;
    }
    true
}

fn drop_first_char(v: &Vec<char>) -> (r: Vec<char>)
    requires
        v@.len() > 0,
    ensures
        r@ == v@.drop_first(),
{
    let mut r: Vec<char> = Vec::new();
    let mut i: usize = 1;
    while i < v.len()
        invariant
            1 <= i <= v@.len(),
            r@ == v@.subrange(1, i as int),
        decreases v@.len() - i,
    {
        r.push(v[i]);
        assert(v@.subrange(1, i + 1) =~= v@.subrange(1, i as int).push(v@[i as int]));
        i = i + 1;
    }
    assert(v@.subrange(1, v@.len() as int) =~= v@.drop_first());
    r
}

/// Reads an unsigned number no larger than `max`.
pub fn parse_unsigned(s: &str, max: u64) -> (r: Option<u64>)
    ensures
        match r {
            Some(v) => spec_parse_unsigned(s@, max as nat) == Some(v as nat),
            None => spec_parse_unsigned(s@, max as nat) is None,
        },
{
    let v = chars_of(s);
    let d = if v.len() > 0 && v[0] == '+' {
        drop_first_char(&v)
    } else {
        v
    };
    if d.len() == 0 || !check_digits(&d) {
        return None;
    }
    digits_to_u64(&d, max)
}

/// Reads a signed 64-bit number.
pub fn parse_i64(s: &str) -> (r: Option<i64>)
    ensures
        match r {
            Some(v) => spec_parse_i64(s@) == Some(v as int),
            None => spec_parse_i64(s@) is None,
        },
{
    let v = chars_of(s);
    if v.len() > 0 && v[0] == '-' {
        let d = drop_first_char(&v);
        if d.len() == 0 || !check_digits(&d) {
            return None;
        }
        match digits_to_u64(&d, 9223372036854775808u64) {
            None => None,
            Some(m) => if m == 9223372036854775808u64 {
                Some(i64::MIN)
            } else {
                Some(-(m as i64))
            },
        }
    } else {
        match parse_unsigned(s, 9223372036854775807u64) {
            None => None,
            Some(m) => Some(m as i64),
        }
    }
}

/// Reads `true` or `false`.
pub fn parse_bool(s: &str) -> (r: Option<bool>)
    ensures
        r == spec_parse_bool(s@),
{
    if str_equal(s, "true") {
        Some(true)
    } else if str_equal(s, "false") {
        Some(false)
    } else {
        None
    }
}

// ---------------------------------------------------------------------------
// Configuration.
// ---------------------------------------------------------------------------

/// Why the configuration was refused.
#[derive(Debug)]
pub enum ConfigError {
    /// A required variable is not set.
    Missing(String),
    /// A variable that must hold a number does not.
    NotANumber(String),
    /// A variable that must hold `true` or `false` does not.
    NotABoolean(String),
    /// The values read do not fit together.
    Invalid(String),
}

impl ConfigError {
    /// The message of the error.
    pub fn message(&self) -> (m: String)
        ensures
            m@ == config_error_message(*self),
    {
        match self {
            ConfigError::Missing(name) => concat2(
                "missing required environment variable ",
                name.as_str(),
            ),
            ConfigError::NotANumber(name) => concat2(name.as_str(), " must be a number"),
            ConfigError::NotABoolean(name) => concat2(name.as_str(), " must be true or false"),
            ConfigError::Invalid(m) => m.clone(),
        }
    }
}

pub open spec fn config_error_message(e: ConfigError) -> Seq<char> {
    match e {
        ConfigError::Missing(name) => "missing required environment variable "@ + name@,
        ConfigError::NotANumber(name) => name@ + " must be a number"@,
        ConfigError::NotABoolean(name) => name@ + " must be true or false"@,
        ConfigError::Invalid(m) => m@,
    }
}

/// A variable read as an unsigned number no larger than `max`, or `default` when unset.
pub open spec fn spec_unsigned_var(env: Environment, name: Seq<char>, default: u64, max: nat) -> Option<
    nat,
> {
    match env_lookup(env, name) {
        Some(v) => spec_parse_unsigned(v, max),
        None => Some(default as nat),
    }
}

/// A variable read as a signed number, or `default` when unset.
pub open spec fn spec_signed_var(env: Environment, name: Seq<char>, default: i64) -> Option<int> {
    match env_lookup(env, name) {
        Some(v) => spec_parse_i64(v),
        None => Some(default as int),
    }
}

/// A variable read as a boolean, or `default` when unset.
pub open spec fn spec_bool_var(env: Environment, name: Seq<char>, default: bool) -> Option<bool> {
    match env_lookup(env, name) {
        Some(v) => spec_parse_bool(v),
        None => Some(default),
    }
}

impl Environment {
    /// The variable as an unsigned number no larger than `max`, or `default` when unset.
    pub fn number(&self, name: &str, default: u64, max: u64) -> (r: Result<u64, ConfigError>)
        ensures
            match r {
                Ok(v) => spec_unsigned_var(*self, name@, default, max as nat) == Some(v as nat),
                Err(e) => spec_unsigned_var(*self, name@, default, max as nat) is None && (e
                    matches ConfigError::NotANumber(n) && n@ == name@),
            },
    {
        match self.get(name) {
            None => Ok(default),
            Some(v) => match parse_unsigned(v, max) {
                Some(x) => Ok(x),
                None => Err(ConfigError::NotANumber(owned(name))),
            },
        }
    }

    /// The variable as a signed number, or `default` when unset.
    pub fn signed_number(&self, name: &str, default: i64) -> (r: Result<i64, ConfigError>)
        ensures
            match r {
                Ok(v) => spec_signed_var(*self, name@, default) == Some(v as int),
                Err(e) => spec_signed_var(*self, name@, default) is None && (e matches ConfigError::NotANumber(
                    n,
                ) && n@ == name@),
            },
    {
        match self.get(name) {
            None => Ok(default),
            Some(v) => match parse_i64(v) {
                Some(x) => Ok(x),
                None => Err(ConfigError::NotANumber(owned(name))),
            },
        }
    }

    /// The variable as a number of seconds, or `default`.
    pub fn seconds(&self, name: &str, default: u64) -> (r: Result<u64, ConfigError>)
        ensures
            match r {
                Ok(v) => spec_unsigned_var(*self, name@, default, u64::MAX as nat) == Some(v as nat),
                Err(e) => spec_unsigned_var(*self, name@, default, u64::MAX as nat) is None && (e
                    matches ConfigError::NotANumber(n) && n@ == name@),
            },
    {
        self.number(name, default, u64::MAX)
    }

    /// The variable as a number of milliseconds, or `default`.
    pub fn millis(&self, name: &str, default: u64) -> (r: Result<u64, ConfigError>)
        ensures
            match r {
                Ok(v) => spec_unsigned_var(*self, name@, default, u64::MAX as nat) == Some(v as nat),
                Err(e) => spec_unsigned_var(*self, name@, default, u64::MAX as nat) is None && (e
                    matches ConfigError::NotANumber(n) && n@ == name@),
            },
    {
        self.number(name, default, u64::MAX)
    }

    /// The variable as `true` or `false`, or `default`.
    pub fn boolean(&self, name: &str, default: bool) -> (r: Result<bool, ConfigError>)
        ensures
            match r {
                Ok(v) => spec_bool_var(*self, name@, default) == Some(v),
                Err(e) => spec_bool_var(*self, name@, default) is None && (e matches ConfigError::NotABoolean(
                    n,
                ) && n@ == name@),
            },
    {
        match self.get(name) {
            None => Ok(default),
            Some(v) => match parse_bool(v) {
                Some(x) => Ok(x),
                None => Err(ConfigError::NotABoolean(owned(name))),
            },
        }
    }

    /// The required variable `name`.
    pub fn required(&self, name: &str) -> (r: Result<String, ConfigError>)
        ensures
            match r {
                Ok(v) => env_lookup(*self, name@) == Some(v@),
                Err(e) => env_lookup(*self, name@) is None && (e matches ConfigError::Missing(n)
                    && n@ == name@),
            },
    {
        match self.get(name) {
            Some(v) => Ok(owned(v)),
            None => Err(ConfigError::Missing(owned(name))),
        }
    }
}


/// Whether the text is accepted as an HTTP header value: no control character other than tab.
/// Characters beyond ASCII are accepted, as their UTF-8 bytes all lie above 0x7f.
pub open spec fn valid_header_value(s: Seq<char>) -> bool {
    forall|i: int|
        0 <= i < s.len() ==> ((#[trigger] s[i]) as u32 >= 32 && s[i] as u32 != 127) || s[i] == '\t'
}

/// Whether `s` is accepted as an HTTP header value.
pub fn is_valid_header_value(s: &str) -> (b: bool)
    ensures
        b == valid_header_value(s@),
{
    let v = chars_of(s);
    let mut i: usize = 0;
    while i < v.len()
        invariant
            i <= v@.len(),
            v@ == s@,
            forall|j: int|
                0 <= j < i ==> ((#[trigger] v@[j]) as u32 >= 32 && v@[j] as u32 != 127) || v@[j]
                    == '\t',
        decreases v@.len() - i,
    {
        let c = v[i];
        if !(((c as u32) >= 32 && (c as u32) != 127) || c == '\t') {
            assert(!(((s@[i as int]) as u32 >= 32 && s@[i as int] as u32 != 127) || s@[i as int]
                == '\t'));
            return false;
        }
        i = i + 1;
    }
    true
}

/// The service configuration. Durations are whole seconds or milliseconds, as their names say;
/// addresses and paths are kept as text.
#[derive(Debug)]
pub struct Config {
    pub bind_address: String,
    pub worker_metrics_address: Option<String>,
    pub database_url: String,
    pub object_store_url: String,
    pub object_store_path: String,
    pub s3_endpoint: Option<String>,
    pub s3_region: String,
    pub s3_access_key_id: Option<String>,
    pub s3_secret_access_key: Option<String>,
    pub cors_origin: String,
    pub trust_proxy_headers: bool,
    pub rate_limit_salt: String,
    pub worker_id: String,
    pub lease_seconds: u64,
    pub heartbeat_seconds: u64,
    pub processing_timeout_seconds: u64,
    pub poll_interval_millis: u64,
    pub demo_processing_delay_millis: u64,
    pub artifact_retention_seconds: u64,
    pub metadata_retention_seconds: u64,
    pub max_upload_bytes: usize,
    pub max_image_pixels: u64,
    pub max_pdf_pages: usize,
    pub pdf_preview_pages: usize,
    pub session_hourly_limit: i64,
    pub ip_daily_limit: i64,
    pub global_daily_limit: i64,
    pub pdfium_library_path: Option<String>,
}

/// The first rule, in order, that a configuration breaks, as the message of the refusal.
pub open spec fn spec_config_violation(c: Config) -> Option<Seq<char>> {
    if !valid_header_value(c.cors_origin@) {
        Some("CORS_ORIGIN must be a valid HTTP header value"@)
    } else if all_whitespace(c.worker_id@) {
        Some("WORKER_ID cannot be empty"@)
    } else if c.lease_seconds == 0 {
        Some("LEASE_SECONDS must be greater than zero"@)
    } else if c.heartbeat_seconds == 0 || c.heartbeat_seconds >= c.lease_seconds {
        Some("HEARTBEAT_SECONDS must be greater than zero and shorter than LEASE_SECONDS"@)
    } else if c.processing_timeout_seconds == 0 || c.poll_interval_millis == 0 {
        Some("processing timeout and worker poll interval must be greater than zero"@)
    } else if c.demo_processing_delay_millis >= c.processing_timeout_seconds * 1000 {
        Some("DEMO_PROCESSING_DELAY_MILLISECONDS must be shorter than the processing timeout"@)
    } else if c.max_upload_bytes == 0 || c.max_image_pixels == 0 || c.max_pdf_pages == 0 {
        Some("upload and document limits must be greater than zero"@)
    } else if c.pdf_preview_pages == 0 || c.pdf_preview_pages > c.max_pdf_pages {
        Some("PDF_PREVIEW_PAGES must be between one and MAX_PDF_PAGES"@)
    } else if c.session_hourly_limit <= 0 || c.ip_daily_limit <= 0 || c.global_daily_limit <= 0 {
        Some("rate limits must be greater than zero"@)
    } else {
        None
    }
}

/// The kind of a read failure (0: missing, 1: not a number, 2: not a boolean) and the name of
/// the variable.
pub open spec fn read_failure(e: ConfigError) -> Option<(int, Seq<char>)> {
    match e {
        ConfigError::Missing(n) => Some((0, n@)),
        ConfigError::NotANumber(n) => Some((1, n@)),
        ConfigError::NotABoolean(n) => Some((2, n@)),
        ConfigError::Invalid(_) => None,
    }
}

/// The first variable, in the order they are read, that cannot be read.
pub open spec fn spec_first_read_failure(env: Environment) -> Option<(int, Seq<char>)> {
    let u = u64::MAX as nat;
    if env_lookup(env, "DATABASE_URL"@) is None {
        Some((0, "DATABASE_URL"@))
    } else if spec_bool_var(env, "TRUST_PROXY_HEADERS"@, false) is None {
        Some((2, "TRUST_PROXY_HEADERS"@))
    } else if spec_unsigned_var(env, "LEASE_SECONDS"@, 60, u) is None {
        Some((1, "LEASE_SECONDS"@))
    } else if spec_unsigned_var(env, "HEARTBEAT_SECONDS"@, 15, u) is None {
        Some((1, "HEARTBEAT_SECONDS"@))
    } else if spec_unsigned_var(env, "PROCESSING_TIMEOUT_SECONDS"@, 90, u) is None {
        Some((1, "PROCESSING_TIMEOUT_SECONDS"@))
    } else if spec_unsigned_var(env, "WORKER_POLL_MILLISECONDS"@, 750, u) is None {
        Some((1, "WORKER_POLL_MILLISECONDS"@))
    } else if spec_unsigned_var(env, "DEMO_PROCESSING_DELAY_MILLISECONDS"@, 0, u) is None {
        Some((1, "DEMO_PROCESSING_DELAY_MILLISECONDS"@))
    } else if spec_unsigned_var(env, "ARTIFACT_RETENTION_SECONDS"@, 3600, u) is None {
        Some((1, "ARTIFACT_RETENTION_SECONDS"@))
    } else if spec_unsigned_var(env, "METADATA_RETENTION_SECONDS"@, 86400, u) is None {
        Some((1, "METADATA_RETENTION_SECONDS"@))
    } else if spec_unsigned_var(env, "MAX_UPLOAD_BYTES"@, 10485760, usize::MAX as nat) is None {
        Some((1, "MAX_UPLOAD_BYTES"@))
    } else if spec_unsigned_var(env, "MAX_IMAGE_PIXELS"@, 25000000, u) is None {
        Some((1, "MAX_IMAGE_PIXELS"@))
    } else if spec_unsigned_var(env, "MAX_PDF_PAGES"@, 20, usize::MAX as nat) is None {
        Some((1, "MAX_PDF_PAGES"@))
    } else if spec_unsigned_var(env, "PDF_PREVIEW_PAGES"@, 3, usize::MAX as nat) is None {
        Some((1, "PDF_PREVIEW_PAGES"@))
    } else if spec_signed_var(env, "SESSION_HOURLY_LIMIT"@, 5) is None {
        Some((1, "SESSION_HOURLY_LIMIT"@))
    } else if spec_signed_var(env, "IP_DAILY_LIMIT"@, 20) is None {
        Some((1, "IP_DAILY_LIMIT"@))
    } else if spec_signed_var(env, "GLOBAL_DAILY_LIMIT"@, 50) is None {
        Some((1, "GLOBAL_DAILY_LIMIT"@))
    } else {
        None
    }
}

/// The configuration that the environment holds when every variable can be read.
pub open spec fn spec_config_read(env: Environment, default_worker_id: Seq<char>, c: Config) -> bool {
    let u = u64::MAX as nat;
    &&& c.bind_address@ == spec_value(env, "BIND_ADDRESS"@, "0.0.0.0:8080"@)
    &&& opt_str(c.worker_metrics_address) == spec_optional(env, "WORKER_METRICS_ADDRESS"@)
    &&& env_lookup(env, "DATABASE_URL"@) == Some(c.database_url@)
    &&& c.object_store_url@ == spec_value(env, "OBJECT_STORE_URL"@, "file:///"@)
    &&& c.object_store_path@ == spec_value(env, "OBJECT_STORE_PATH"@, "./data"@)
    &&& opt_str(c.s3_endpoint) == spec_optional(env, "S3_ENDPOINT"@)
    &&& c.s3_region@ == spec_value(env, "S3_REGION"@, "us-east-1"@)
    &&& opt_str(c.s3_access_key_id) == (match spec_optional(env, "S3_ACCESS_KEY_ID"@) {
        Some(v) => Some(v),
        None => spec_optional(env, "AWS_ACCESS_KEY_ID"@),
    })
    &&& opt_str(c.s3_secret_access_key) == (match spec_optional(env, "S3_SECRET_ACCESS_KEY"@) {
        Some(v) => Some(v),
        None => spec_optional(env, "AWS_SECRET_ACCESS_KEY"@),
    })
    &&& c.cors_origin@ == spec_value(env, "CORS_ORIGIN"@, "http://localhost:5173"@)
    &&& spec_bool_var(env, "TRUST_PROXY_HEADERS"@, false) == Some(c.trust_proxy_headers)
    &&& c.rate_limit_salt@ == spec_value(env, "RATE_LIMIT_SALT"@, "forgequeue-local-only-change-me"@)
    &&& c.worker_id@ == spec_value(env, "WORKER_ID"@, default_worker_id)
    &&& spec_unsigned_var(env, "LEASE_SECONDS"@, 60, u) == Some(c.lease_seconds as nat)
    &&& spec_unsigned_var(env, "HEARTBEAT_SECONDS"@, 15, u) == Some(c.heartbeat_seconds as nat)
    &&& spec_unsigned_var(env, "PROCESSING_TIMEOUT_SECONDS"@, 90, u) == Some(
        c.processing_timeout_seconds as nat,
    )
    &&& spec_unsigned_var(env, "WORKER_POLL_MILLISECONDS"@, 750, u) == Some(
        c.poll_interval_millis as nat,
    )
    &&& spec_unsigned_var(env, "DEMO_PROCESSING_DELAY_MILLISECONDS"@, 0, u) == Some(
        c.demo_processing_delay_millis as nat,
    )
    &&& spec_unsigned_var(env, "ARTIFACT_RETENTION_SECONDS"@, 3600, u) == Some(
        c.artifact_retention_seconds as nat,
    )
    &&& spec_unsigned_var(env, "METADATA_RETENTION_SECONDS"@, 86400, u) == Some(
        c.metadata_retention_seconds as nat,
    )
    &&& spec_unsigned_var(env, "MAX_UPLOAD_BYTES"@, 10485760, usize::MAX as nat) == Some(
        c.max_upload_bytes as nat,
    )
    &&& spec_unsigned_var(env, "MAX_IMAGE_PIXELS"@, 25000000, u) == Some(c.max_image_pixels as nat)
    &&& spec_unsigned_var(env, "MAX_PDF_PAGES"@, 20, usize::MAX as nat) == Some(
        c.max_pdf_pages as nat,
    )
    &&& spec_unsigned_var(env, "PDF_PREVIEW_PAGES"@, 3, usize::MAX as nat) == Some(
        c.pdf_preview_pages as nat,
    )
    &&& spec_signed_var(env, "SESSION_HOURLY_LIMIT"@, 5) == Some(c.session_hourly_limit as int)
    &&& spec_signed_var(env, "IP_DAILY_LIMIT"@, 20) == Some(c.ip_daily_limit as int)
    &&& spec_signed_var(env, "GLOBAL_DAILY_LIMIT"@, 50) == Some(c.global_daily_limit as int)
    &&& opt_str(c.pdfium_library_path) == spec_optional(env, "PDFIUM_LIBRARY_PATH"@)
}

pub open spec fn opt_str(s: Option<String>) -> Option<Seq<char>> {
    match s {
        Some(v) => Some(v@),
        None => None,
    }
}

fn either(first: Option<String>, second: Option<String>) -> (r: Option<String>)
    ensures
        r == (match first {
            Some(v) => Some(v),
            None => second,
        }),
{
    match first {
        Some(v) => Some(v),
        None => second,
    }
}

impl Config {
    /// Checks that the values fit together; the first rule broken is reported.
    pub fn validate(&self) -> (r: Result<(), ConfigError>)
        ensures
            match spec_config_violation(*self) {
                None => r is Ok,
                Some(m) => r matches Err(ConfigError::Invalid(x)) && x@ == m,
            },
    {
        let fail = |m: &str| -> (e: ConfigError)
            ensures
                e matches ConfigError::Invalid(x) && x@ == m@,
            { ConfigError::Invalid(owned(m)) };
        if !is_valid_header_value(self.cors_origin.as_str()) {
            return Err(fail("CORS_ORIGIN must be a valid HTTP header value"));
        }
        if is_blank(self.worker_id.as_str()) {
            return Err(fail("WORKER_ID cannot be empty"));
        }
        if self.lease_seconds == 0 {
            return Err(fail("LEASE_SECONDS must be greater than zero"));
        }
        if self.heartbeat_seconds == 0 || self.heartbeat_seconds >= self.lease_seconds {
            return Err(
                fail("HEARTBEAT_SECONDS must be greater than zero and shorter than LEASE_SECONDS"),
            );
        }
        if self.processing_timeout_seconds == 0 || self.poll_interval_millis == 0 {
            return Err(
                fail("processing timeout and worker poll interval must be greater than zero"),
            );
        }
        if self.demo_processing_delay_millis as u128 >= self.processing_timeout_seconds as u128
            * 1000 {
            return Err(
                fail(
                    "DEMO_PROCESSING_DELAY_MILLISECONDS must be shorter than the processing timeout",
                ),
            );
        }
        if self.max_upload_bytes == 0 || self.max_image_pixels == 0 || self.max_pdf_pages == 0 {
            return Err(fail("upload and document limits must be greater than zero"));
        }
        if self.pdf_preview_pages == 0 || self.pdf_preview_pages > self.max_pdf_pages {
            return Err(fail("PDF_PREVIEW_PAGES must be between one and MAX_PDF_PAGES"));
        }
        if self.session_hourly_limit <= 0 || self.ip_daily_limit <= 0 || self.global_daily_limit
            <= 0 {
            return Err(fail("rate limits must be greater than zero"));
        }
        Ok(())
    }

    /// Reads the configuration from the environment and validates it. `default_worker_id`
    /// names the worker when `WORKER_ID` is not set. A variable that cannot be read is reported
    /// first, in the order the variables are read; then the first rule the values break.
    pub fn from_env(env: &Environment, default_worker_id: &str) -> (r: Result<Config, ConfigError>)
        ensures
            match spec_first_read_failure(*env) {
                Some(f) => r matches Err(e) && read_failure(e) == Some(f),
                None => match r {
                    Ok(c) => spec_config_read(*env, default_worker_id@, c)
                        && spec_config_violation(c) is None,
                    Err(e) => e matches ConfigError::Invalid(m) && exists|c: Config|
                        spec_config_read(*env, default_worker_id@, c)
                            && spec_config_violation(c) == Some(m@),
                },
            },
    {
        let database_url = match env.required("DATABASE_URL") {
            Ok(v) => v,
            Err(e) => {
                return Err(e);
            },
        };
        let trust_proxy_headers = match env.boolean("TRUST_PROXY_HEADERS", false) {
            Ok(v) => v,
            Err(e) => {
                return Err(e);
            },
        };
        let lease_seconds = match env.seconds("LEASE_SECONDS", 60) {
            Ok(v) => v,
            Err(e) => {
                return Err(e);
            },
        };
        let heartbeat_seconds = match env.seconds("HEARTBEAT_SECONDS", 15) {
            Ok(v) => v,
            Err(e) => {
                return Err(e);
            },
        };
        let processing_timeout_seconds = match env.seconds("PROCESSING_TIMEOUT_SECONDS", 90) {
            Ok(v) => v,
            Err(e) => {
                return Err(e);
            },
        };
        let poll_interval_millis = match env.millis("WORKER_POLL_MILLISECONDS", 750) {
            Ok(v) => v,
            Err(e) => {
                return Err(e);
            },
        };
        let demo_processing_delay_millis = match env.millis(
            "DEMO_PROCESSING_DELAY_MILLISECONDS",
            0,
        ) {
            Ok(v) => v,
            Err(e) => {
                return Err(e);
            },
        };
        let artifact_retention_seconds = match env.seconds("ARTIFACT_RETENTION_SECONDS", 3600) {
            Ok(v) => v,
            Err(e) => {
                return Err(e);
            },
        };
        let metadata_retention_seconds = match env.seconds("METADATA_RETENTION_SECONDS", 86400) {
            Ok(v) => v,
            Err(e) => {
                return Err(e);
            },
        };
        let max_upload_bytes = match env.number("MAX_UPLOAD_BYTES", 10485760, usize::MAX as u64) {
            Ok(v) => v as usize,
            Err(e) => {
                return Err(e);
            },
        };
        let max_image_pixels = match env.number("MAX_IMAGE_PIXELS", 25000000, u64::MAX) {
            Ok(v) => v,
            Err(e) => {
                return Err(e);
            },
        };
        let max_pdf_pages = match env.number("MAX_PDF_PAGES", 20, usize::MAX as u64) {
            Ok(v) => v as usize,
            Err(e) => {
                return Err(e);
            },
        };
        let pdf_preview_pages = match env.number("PDF_PREVIEW_PAGES", 3, usize::MAX as u64) {
            Ok(v) => v as usize,
            Err(e) => {
                return Err(e);
            },
        };
        let session_hourly_limit = match env.signed_number("SESSION_HOURLY_LIMIT", 5) {
            Ok(v) => v,
            Err(e) => {
                return Err(e);
            },
        };
        let ip_daily_limit = match env.signed_number("IP_DAILY_LIMIT", 20) {
            Ok(v) => v,
            Err(e) => {
                return Err(e);
            },
        };
        let global_daily_limit = match env.signed_number("GLOBAL_DAILY_LIMIT", 50) {
            Ok(v) => v,
            Err(e) => {
                return Err(e);
            },
        };
        let config = Config {
            bind_address: env.value("BIND_ADDRESS", "0.0.0.0:8080"),
            worker_metrics_address: env.optional("WORKER_METRICS_ADDRESS"),
            database_url,
            object_store_url: env.value("OBJECT_STORE_URL", "file:///"),
            object_store_path: env.value("OBJECT_STORE_PATH", "./data"),
            s3_endpoint: env.optional("S3_ENDPOINT"),
            s3_region: env.value("S3_REGION", "us-east-1"),
            s3_access_key_id: either(
                env.optional("S3_ACCESS_KEY_ID"),
                env.optional("AWS_ACCESS_KEY_ID"),
            ),
            s3_secret_access_key: either(
                env.optional("S3_SECRET_ACCESS_KEY"),
                env.optional("AWS_SECRET_ACCESS_KEY"),
            ),
            cors_origin: env.value("CORS_ORIGIN", "http://localhost:5173"),
            trust_proxy_headers,
            rate_limit_salt: env.value("RATE_LIMIT_SALT", "forgequeue-local-only-change-me"),
            worker_id: env.value("WORKER_ID", default_worker_id),
            lease_seconds,
            heartbeat_seconds,
            processing_timeout_seconds,
            poll_interval_millis,
            demo_processing_delay_millis,
            artifact_retention_seconds,
            metadata_retention_seconds,
            max_upload_bytes,
            max_image_pixels,
            max_pdf_pages,
            pdf_preview_pages,
            session_hourly_limit,
            ip_daily_limit,
            global_daily_limit,
            pdfium_library_path: env.optional("PDFIUM_LIBRARY_PATH"),
        };
        match config.validate() {
            Ok(()) => Ok(config),
            Err(e) => Err(e),
        }
    }
}

} // verus!
