//! Choosing the object store from the configuration: in memory, a local directory or an S3
//! bucket, with the settings each needs.
use vstd::prelude::*;

use crate::config::{opt_str, Config};
use crate::text::{chars_of, concat2, owned, str_equal, string_from_chars};

verus! {

/// The scheme, host and path of `s`, as the `url` crate parses it, if it is a valid URL.
pub uninterp spec fn url_parts(s: Seq<char>) -> Option<(Seq<char>, Option<Seq<char>>, Seq<char>)>;

pub open spec fn parts_view(p: Option<(String, Option<String>, String)>) -> Option<
    (Seq<char>, Option<Seq<char>>, Seq<char>),
> {
    match p {
        Some((scheme, host, path)) => Some((scheme@, opt_str(host), path@)),
        None => None,
    }
}

/// `url::Url::parse`, then `scheme`, `host_str` and `path` of the URL.
#[verifier::external_body]
fn parse_url(s: &str) -> (r: Option<(String, Option<String>, String)>)
    ensures
        parts_view(r) == url_parts(s@),
{
    match url::Url::parse(s) {
        Ok(url) => Some(
            (url.scheme().to_owned(), url.host_str().map(|h| h.to_owned()), url.path().to_owned()),
        ),
        Err(_) => None,
    }
}

/// Where objects are kept.
#[derive(Debug)]
pub enum StoragePlan {
    /// In memory, for tests and demos.
    Memory,
    /// Under a local directory, created if missing.
    File { path: String },
    /// In an S3 bucket.
    S3 {
        bucket: String,
        region: String,
        access_key_id: String,
        secret_access_key: String,
        endpoint: Option<String>,
        /// Whether plain HTTP is allowed: only for an `http://` endpoint.
        allow_http: bool,
    },
}

/// Whether `p` starts `s`.
pub open spec fn starts_with(s: Seq<char>, p: Seq<char>) -> bool {
    p.len() <= s.len() && s.take(p.len() as int) == p
}

/// `s` without the slashes it starts with.
pub open spec fn without_leading_slashes(s: Seq<char>) -> Seq<char>
    decreases s.len(),
{
    if s.len() > 0 && s[0] == '/' {
        without_leading_slashes(s.drop_first())
    } else {
        s
    }
}

/// The directory of a `file:` store whose URL path is `path`: `default_path` when the URL has no
/// path; on Windows a path that names a drive (`/C:/data`) without its leading slash; otherwise
/// the path as it is.
pub open spec fn file_store_path(default_path: Seq<char>, path: Seq<char>, windows: bool) -> Seq<
    char,
> {
    let raw = without_leading_slashes(path);
    if path.len() == 0 || path == "/"@ {
        default_path
    } else if windows && raw.len() > 2 && raw[1] == ':' {
        raw
    } else {
        path
    }
}

/// The plan for the configuration `c`, when its object store URL parses into `parts`, on
/// Windows when `windows` holds; on a refusal, the message.
pub open spec fn spec_storage_plan(
    c: Config,
    parts: Option<(Seq<char>, Option<Seq<char>>, Seq<char>)>,
    windows: bool,
    r: Result<StoragePlan, String>,
) -> bool {
    match parts {
        None => r matches Err(m) && m@ == "OBJECT_STORE_URL must be a valid URL"@,
        Some((scheme, host, path)) => if scheme == "memory"@ {
            r matches Ok(StoragePlan::Memory)
        } else if scheme == "file"@ {
            r matches Ok(StoragePlan::File { path: p }) && p@ == file_store_path(
                c.object_store_path@,
                path,
                windows,
            )
        } else if scheme == "s3"@ {
            if !(host matches Some(h) && h.len() > 0) {
                r matches Err(m) && m@ == "s3 OBJECT_STORE_URL must contain a bucket"@
            } else if c.s3_access_key_id is None {
                r matches Err(m) && m@ == "S3_ACCESS_KEY_ID is required for S3 storage"@
            } else if c.s3_secret_access_key is None {
                r matches Err(m) && m@ == "S3_SECRET_ACCESS_KEY is required for S3 storage"@
            } else {
                r matches Ok(
                    StoragePlan::S3 {
                        bucket,
                        region,
                        access_key_id,
                        secret_access_key,
                        endpoint,
                        allow_http,
                    },
                ) && Some(bucket@) == host && region@ == c.s3_region@ && opt_str(
                    Some(access_key_id),
                ) == opt_str(c.s3_access_key_id) && opt_str(Some(secret_access_key)) == opt_str(
                    c.s3_secret_access_key,
                ) && opt_str(endpoint) == opt_str(c.s3_endpoint) && allow_http == (match c.s3_endpoint {
                    Some(e) => starts_with(e@, "http://"@),
                    None => false,
                })
            }
        } else {
            r matches Err(m) && m@ == "unsupported object store scheme: "@ + scheme
        },
    }
}

fn has_prefix(s: &str, p: &str) -> (b: bool)
    ensures
        b == starts_with(s@, p@),
{
    let sv = chars_of(s);
    let pv = chars_of(p);
    if pv.len() > sv.len() {
        return false;
    }
    let mut i: usize = 0;
    while i < pv.len()
        invariant
            i <= pv@.len() <= sv@.len(),
            sv@ == s@,
            pv@ == p@,
            forall|j: int| 0 <= j < i ==> sv@[j] == pv@[j],
        decreases pv@.len() - i,
    {
        if sv[i] != pv[i] {
            assert(s@.take(p@.len() as int)[i as int] != p@[i as int]);
            return false;
        }
        i = i + 1;
    }
    assert(s@.take(p@.len() as int) =~= p@);
    true
}

fn copy_opt(s: &Option<String>) -> (r: Option<String>)
    ensures
        opt_str(r) == opt_str(*s),
{
    match s {
        Some(v) => Some(owned(v.as_str())),
        None => None,
    }
}

/// The directory of a `file:` store; see [`file_store_path`].
fn file_path(default_path: &str, path: String, windows: bool) -> (p: String)
    ensures
        p@ == file_store_path(default_path@, path@, windows),
{
    if path.as_str().unicode_len() == 0 || str_equal(path.as_str(), "/") {
        return owned(default_path);
    }
    let v = chars_of(path.as_str());
    let mut k: usize = 0;
    assert(v@.subrange(0, v@.len() as int) =~= v@);
    while k < v.len() && v[k] == '/'
        invariant
            v@ == path@,
            k <= v@.len(),
            without_leading_slashes(v@) == without_leading_slashes(v@.subrange(k as int, v@.len() as int)),
        decreases v@.len() - k,
    {
        assert(v@.subrange(k as int, v@.len() as int).drop_first() =~= v@.subrange(
            k + 1,
            v@.len() as int,
        ));
        k = k + 1;
    }
    let ghost rest = v@.subrange(k as int, v@.len() as int);
    assert(without_leading_slashes(rest) == rest);
    if windows && v.len() - k > 2 && v[k + 1] == ':' {
        let mut raw: Vec<char> = Vec::new();
        let mut j: usize = k;
        while j < v.len()
            invariant
                k <= j <= v@.len(),
                raw@ == v@.subrange(k as int, j as int),
            decreases v@.len() - j,
        {
            raw.push(v[j]);
            j = j + 1;
        }
        string_from_chars(&raw)
    } else {
        path
    }
}

/// The object store that the configuration names: `memory:`, a `file:` URL (its path, or
/// `OBJECT_STORE_PATH` when the URL has none) or an `s3://bucket` URL with both S3 keys.
pub fn storage_plan(config: &Config, windows: bool) -> (r: Result<StoragePlan, String>)
    ensures
        spec_storage_plan(*config, url_parts(config.object_store_url@), windows, r),
{
    let parts = parse_url(config.object_store_url.as_str());
    plan_for_url(config, parts, windows)
}

/// The object store for the configuration `config` whose URL parsed into `parts` (its scheme,
/// host and path; `None` when it is not a valid URL); see [`storage_plan`].
pub fn plan_for_url(
    config: &Config,
    parts: Option<(String, Option<String>, String)>,
    windows: bool,
) -> (r: Result<StoragePlan, String>)
    ensures
        spec_storage_plan(*config, parts_view(parts), windows, r),
{
    let (scheme, host, path) = match parts {
        Some(parts) => parts,
        None => {
            return Err(owned("OBJECT_STORE_URL must be a valid URL"));
        },
    };
    if str_equal(scheme.as_str(), "memory") {
        return Ok(StoragePlan::Memory);
    }
    if str_equal(scheme.as_str(), "file") {
        return Ok(StoragePlan::File { path: file_path(config.object_store_path.as_str(), path, windows) });
    }
    if !str_equal(scheme.as_str(), "s3") {
        return Err(concat2("unsupported object store scheme: ", scheme.as_str()));
    }
    let bucket = match host {
        Some(h) => if h.as_str().unicode_len() > 0 {
            h
        } else {
            return Err(owned("s3 OBJECT_STORE_URL must contain a bucket"));
        },
        None => {
            return Err(owned("s3 OBJECT_STORE_URL must contain a bucket"));
        },
    };
    let access_key_id = match &config.s3_access_key_id {
        Some(k) => owned(k.as_str()),
        None => {
            return Err(owned("S3_ACCESS_KEY_ID is required for S3 storage"));
        },
    };
    let secret_access_key = match &config.s3_secret_access_key {
        Some(k) => owned(k.as_str()),
        None => {
            return Err(owned("S3_SECRET_ACCESS_KEY is required for S3 storage"));
        },
    };
    let allow_http = match &config.s3_endpoint {
        Some(e) => has_prefix(e.as_str(), "http://"),
        None => false,
    };
    Ok(
        StoragePlan::S3 {
            bucket,
            region: owned(config.s3_region.as_str()),
            access_key_id,
            secret_access_key,
            endpoint: copy_opt(&config.s3_endpoint),
            allow_http,
        },
    )
}

} // verus!
