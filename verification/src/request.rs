//! Reading what a client sends: file names, header values, bearer tokens and forwarded
//! addresses.
use vstd::prelude::*;

use crate::errors::AppError;
use crate::text::{chars_of, owned, push_char, string_from_chars};

verus! {

// ---------------------------------------------------------------------------
// File names.
// ---------------------------------------------------------------------------

pub open spec fn is_path_separator(c: char) -> bool {
    c == '/' || c == '\\'
}

/// The index of the last path separator of `s`, or -1.
pub open spec fn last_separator(s: Seq<char>) -> int
    decreases s.len(),
{
    if s.len() == 0 {
        -1
    } else if is_path_separator(s.last()) {
        s.len() - 1
    } else {
        last_separator(s.drop_last())
    }
}

/// What follows the last `/` or `\` of a path.
pub open spec fn base_name(s: Seq<char>) -> Seq<char> {
    s.subrange(last_separator(s) + 1, s.len() as int)
}

/// Unicode general category Cc.
pub open spec fn is_control_char(c: char) -> bool {
    (c as u32) < 0x20 || (0x7f <= (c as u32) && (c as u32) < 0xa0)
}

/// The Unicode `White_Space` property.
pub open spec fn is_unicode_whitespace(c: char) -> bool {
    let v = c as u32;
    (9 <= v && v <= 13) || v == 32 || v == 0x85 || v == 0xa0 || v == 0x1680 || (0x2000 <= v
        && v <= 0x200a) || v == 0x2028 || v == 0x2029 || v == 0x202f || v == 0x205f || v
        == 0x3000
}

/// `s` without its control characters.
pub open spec fn without_controls(s: Seq<char>) -> Seq<char>
    decreases s.len(),
{
    if s.len() == 0 {
        Seq::empty()
    } else {
        let p = without_controls(s.drop_last());
        if is_control_char(s.last()) {
            p
        } else {
            p.push(s.last())
        }
    }
}

pub open spec fn at_most(s: Seq<char>, n: nat) -> Seq<char> {
    if s.len() > n {
        s.take(n as int)
    } else {
        s
    }
}

pub open spec fn all_whitespace(s: Seq<char>) -> bool {
    forall|i: int| 0 <= i < s.len() ==> is_unicode_whitespace(#[trigger] s[i])
}

/// The stored name of an uploaded file: its base name without control characters, cut to
/// 120 characters, or `archivo` when nothing but white space is left.
pub open spec fn sanitized_filename(s: Seq<char>) -> Seq<char> {
    let f = at_most(without_controls(base_name(s)), 120);
    if all_whitespace(f) {
        "archivo"@
    } else {
        f
    }
}

proof fn lemma_last_separator_bounds(s: Seq<char>)
    ensures
        -1 <= last_separator(s) < s.len(),
    decreases s.len(),
{
    if s.len() > 0 {
        lemma_last_separator_bounds(s.drop_last());
    }
}

/// The name under which an uploaded file is kept: directories are dropped, control characters
/// removed and the name cut to 120 characters; a blank name becomes `archivo`.
pub fn sanitize_filename(value: &str) -> (r: String)
    ensures
        r@ == sanitized_filename(value@),
{
    let v = chars_of(value);
    let mut start: usize = 0;
    let mut i: usize = 0;
    while i < v.len()
        invariant
            i <= v@.len(),
            start == last_separator(v@.take(i as int)) + 1,
        decreases v@.len() - i,
    {
        proof {
            assert(v@.take(i + 1).drop_last() =~= v@.take(i as int));
            assert(v@.take(i + 1).last() == v@[i as int]);
        }
        if v[i] == '/' || v[i] == '\\' {
            start = i + 1;
        }
        i = i + 1;
    }
    proof {
        assert(v@.take(v@.len() as int) =~= v@);
        lemma_last_separator_bounds(v@);
    }
    let ghost seg = base_name(v@);
    let mut kept: Vec<char> = Vec::new();
    let mut j: usize = start;
    while j < v.len()
        invariant
            start <= j <= v@.len(),
            seg == v@.subrange(start as int, v@.len() as int),
            kept@ == at_most(without_controls(seg.take(j - start)), 120),
        decreases v@.len() - j,
    {
        let c = v[j];
        proof {
            let k = (j - start) as int;
            assert(seg.take(k + 1).drop_last() =~= seg.take(k));
            assert(seg.take(k + 1).last() == c);
        }
        let control = (c as u32) < 0x20 || (0x7f <= (c as u32) && (c as u32) < 0xa0);
        if !control && kept.len() < 120 {
            kept.push(c);
        }
        proof {
            let k = (j - start) as int;
            let w0 = without_controls(seg.take(k));
            let w1 = without_controls(seg.take(k + 1));
            if !control {
                assert(w1 == w0.push(c));
                if w0.len() >= 120 {
                    assert(w1.take(120) =~= w0.take(120));
                }
            }
        }
        j = j + 1;
    }
    proof {
        assert(seg.take(seg.len() as int) =~= seg);
    }
    let mut blank = true;
    let mut k: usize = 0;
    while k < kept.len()
        invariant
            k <= kept@.len(),
            blank == (forall|m: int| 0 <= m < k ==> is_unicode_whitespace(#[trigger] kept@[m])),
        decreases kept@.len() - k,
    {
        let v = kept[k] as u32;
        let ws = (9 <= v && v <= 13) || v == 32 || v == 0x85 || v == 0xa0 || v == 0x1680 || (
        0x2000 <= v && v <= 0x200a) || v == 0x2028 || v == 0x2029 || v == 0x202f || v == 0x205f
            || v == 0x3000;
        if !ws {
            blank = false;
        }
        k = k + 1;
    }
    if blank {
        owned("archivo")
    } else {
        string_from_chars(&kept)
    }
}

proof fn lemma_after_last_separator(s: Seq<char>)
    ensures
        forall|j: int| last_separator(s) < j < s.len() ==> !is_path_separator(#[trigger] s[j]),
        (forall|j: int| 0 <= j < s.len() ==> !is_path_separator(#[trigger] s[j]))
            ==> last_separator(s) == -1,
    decreases s.len(),
{
    if s.len() > 0 {
        lemma_after_last_separator(s.drop_last());
        assert forall|j: int| last_separator(s) < j < s.len() implies !is_path_separator(
            #[trigger] s[j],
        ) by {
            if j < s.len() - 1 {
                assert(s[j] == s.drop_last()[j]);
            }
        }
        if forall|j: int| 0 <= j < s.len() ==> !is_path_separator(#[trigger] s[j]) {
            assert forall|j: int| 0 <= j < s.drop_last().len() implies !is_path_separator(
                #[trigger] s.drop_last()[j],
            ) by {
                assert(s.drop_last()[j] == s[j]);
            }
            assert(!is_path_separator(s[s.len() - 1]));
        }
    }
}

proof fn lemma_without_controls(s: Seq<char>)
    ensures
        without_controls(s).len() <= s.len(),
        forall|i: int|
            0 <= i < without_controls(s).len() ==> !is_control_char(
                #[trigger] without_controls(s)[i],
            ),
        (forall|j: int| 0 <= j < s.len() ==> !is_path_separator(#[trigger] s[j])) ==> forall|
            i: int,
        |
            0 <= i < without_controls(s).len() ==> !is_path_separator(
                #[trigger] without_controls(s)[i],
            ),
        (forall|j: int| 0 <= j < s.len() ==> !is_control_char(#[trigger] s[j]))
            ==> without_controls(s) == s,
    decreases s.len(),
{
    if s.len() > 0 {
        let p = s.drop_last();
        lemma_without_controls(p);
        if forall|j: int| 0 <= j < s.len() ==> !is_path_separator(#[trigger] s[j]) {
            assert forall|j: int| 0 <= j < p.len() implies !is_path_separator(#[trigger] p[j]) by {
                assert(p[j] == s[j]);
            }
            assert(!is_path_separator(s[s.len() - 1]));
        }
        if forall|j: int| 0 <= j < s.len() ==> !is_control_char(#[trigger] s[j]) {
            assert forall|j: int| 0 <= j < p.len() implies !is_control_char(#[trigger] p[j]) by {
                assert(p[j] == s[j]);
            }
            assert(!is_control_char(s[s.len() - 1]));
            assert(p.push(s.last()) =~= s);
        }
    }
}

/// What the file-name sanitizer keeps: the name holds no `/`, `\` or control character, is at
/// most 120 characters long and is not blank; and sanitizing it again leaves it as it is.
pub proof fn lemma_sanitized_filename_laws(s: Seq<char>)
    ensures
        forall|i: int|
            0 <= i < sanitized_filename(s).len() ==> {
                &&& !is_path_separator(#[trigger] sanitized_filename(s)[i])
                &&& !is_control_char(sanitized_filename(s)[i])
            },
        sanitized_filename(s).len() <= 120,
        !all_whitespace(sanitized_filename(s)),
        sanitized_filename(sanitized_filename(s)) == sanitized_filename(s),
{
    let b = base_name(s);
    lemma_last_separator_bounds(s);
    lemma_after_last_separator(s);
    assert forall|j: int| 0 <= j < b.len() implies !is_path_separator(#[trigger] b[j]) by {
        assert(b[j] == s[last_separator(s) + 1 + j]);
    }
    let w = without_controls(b);
    lemma_without_controls(b);
    let f = at_most(w, 120);
    assert forall|i: int| 0 <= i < f.len() implies {
        &&& !is_path_separator(#[trigger] f[i])
        &&& !is_control_char(f[i])
    } by {
        assert(f[i] == w[i]);
    }
    let r = sanitized_filename(s);
    reveal_strlit("archivo");
    if all_whitespace(f) {
        assert(r == "archivo"@);
        assert(!is_unicode_whitespace(r[0]));
    }
    // Sanitizing `r` again changes nothing.
    lemma_after_last_separator(r);
    assert(base_name(r) =~= r);
    lemma_without_controls(r);
    assert(at_most(r, 120) == r);
}

// ---------------------------------------------------------------------------
// Header values.
// ---------------------------------------------------------------------------

/// A byte that a header value may show as text.
pub open spec fn is_visible_ascii(b: u8) -> bool {
    (32 <= b && b < 127) || b == 9
}

pub open spec fn all_visible(s: Seq<u8>) -> bool {
    forall|i: int| 0 <= i < s.len() ==> is_visible_ascii(#[trigger] s[i])
}

/// An ASCII byte with the Unicode `White_Space` property.
pub open spec fn is_ascii_space(b: u8) -> bool {
    (9 <= b && b <= 13) || b == 32
}

/// `s[a..b]` is `s` with its leading and trailing white space removed.
pub open spec fn is_trimmed_range(s: Seq<u8>, a: int, b: int) -> bool {
    &&& 0 <= a <= b <= s.len()
    &&& forall|i: int| 0 <= i < a ==> is_ascii_space(#[trigger] s[i])
    &&& forall|i: int| b <= i < s.len() ==> is_ascii_space(#[trigger] s[i])
    &&& a < b ==> !is_ascii_space(s[a]) && !is_ascii_space(s[b - 1])
}

/// The characters of an ASCII byte string.
pub open spec fn ascii_text(s: Seq<u8>) -> Seq<char> {
    s.map_values(|b: u8| b as char)
}

fn visible(s: &[u8]) -> (b: bool)
    ensures
        b == all_visible(s@),
{
    let mut i: usize = 0;
    while i < s.len()
        invariant
            i <= s@.len(),
            forall|j: int| 0 <= j < i ==> is_visible_ascii(#[trigger] s@[j]),
        decreases s@.len() - i,
    {
        let b = s[i];
        if !((32 <= b && b < 127) || b == 9) {
            return false;
        }
        i = i + 1;
    }
    true
}

/// The bounds of `s` without its surrounding white space.
pub fn trim_bounds(s: &[u8]) -> (r: (usize, usize))
    ensures
        is_trimmed_range(s@, r.0 as int, r.1 as int),
{
    let mut a: usize = 0;
    while a < s.len() && ((9 <= s[a] && s[a] <= 13) || s[a] == 32)
        invariant
            a <= s@.len(),
            forall|i: int| 0 <= i < a ==> is_ascii_space(#[trigger] s@[i]),
        decreases s@.len() - a,
    {
        a = a + 1;
    }
    let mut b: usize = s.len();
    while b > a && ((9 <= s[b - 1] && s[b - 1] <= 13) || s[b - 1] == 32)
        invariant
            a <= b <= s@.len(),
            forall|i: int| b <= i < s@.len() ==> is_ascii_space(#[trigger] s@[i]),
        decreases b,
    {
        b = b - 1;
    }
    (a, b)
}

/// The text of the ASCII bytes `s[a..b]`.
fn ascii_string(s: &[u8], a: usize, b: usize) -> (r: String)
    requires
        a <= b <= s@.len(),
    ensures
        r@ == ascii_text(s@.subrange(a as int, b as int)),
{
    let mut r = String::new();
    let mut i: usize = a;
    while i < b
        invariant
            a <= i <= b <= s@.len(),
            r@ == ascii_text(s@.subrange(a as int, i as int)),
        decreases b - i,
    {
        push_char(&mut r, s[i] as char);
        assert(ascii_text(s@.subrange(a as int, i + 1)) =~= ascii_text(
            s@.subrange(a as int, i as int),
        ).push(s@[i as int] as char));
        i = i + 1;
    }
    r
}

/// The `Idempotency-Key` of an upload: absent, or 1 to 128 visible characters once trimmed.
pub fn idempotency_key(header: Option<&[u8]>) -> (r: Result<Option<String>, AppError>)
    ensures
        match header {
            None => r matches Ok(None),
            Some(h) => if !all_visible(h@) {
                r matches Err(AppError::Validation(m)) && m@ == "Idempotency-Key inválida."@
            } else {
                exists|a: int, b: int|
                    #![trigger is_trimmed_range(h@, a, b)]
                    is_trimmed_range(h@, a, b) && if b - a == 0 || b - a > 128 {
                        r matches Err(AppError::Validation(m)) && m@
                            == "Idempotency-Key debe tener entre 1 y 128 caracteres."@
                    } else {
                        r matches Ok(Some(k)) && k@ == ascii_text(h@.subrange(a, b))
                    }
            },
        },
{
    match header {
        None => Ok(None),
        Some(h) => {
            if !visible(h) {
                return Err(AppError::Validation(owned("Idempotency-Key inválida.")));
            }
            let (a, b) = trim_bounds(h);
            if b - a == 0 || b - a > 128 {
                let r = Err(
                    AppError::Validation(
                        owned("Idempotency-Key debe tener entre 1 y 128 caracteres."),
                    ),
                );
                assert(is_trimmed_range(h@, a as int, b as int));
                return r;
            }
            let k = ascii_string(h, a, b);
            assert(is_trimmed_range(h@, a as int, b as int));
            Ok(Some(k))
        },
    }
}

pub open spec fn bearer_prefix() -> Seq<u8> {
    seq![66u8, 101u8, 97u8, 114u8, 101u8, 114u8, 32u8]
}

pub open spec fn token_prefix() -> Seq<u8> {
    seq![102u8, 113u8, 95u8]
}

/// The session token of an `Authorization: Bearer fq_...` header.
pub open spec fn spec_bearer_token(h: Seq<u8>) -> Option<Seq<char>> {
    if all_visible(h) && h.len() >= 7 && h.take(7) == bearer_prefix() && h.len() >= 10 && h.subrange(
        7,
        10,
    ) == token_prefix() {
        Some(ascii_text(h.subrange(7, h.len() as int)))
    } else {
        None
    }
}

fn starts_with_at(h: &[u8], at: usize, p: &[u8]) -> (b: bool)
    requires
        at <= h@.len(),
    ensures
        b == (h@.len() >= at + p@.len() && h@.subrange(at as int, at + p@.len()) == p@),
{
    if h.len() - at < p.len() {
        return false;
    }
    let mut i: usize = 0;
    while i < p.len()
        invariant
            i <= p@.len(),
            at + p@.len() <= h.len(),
            forall|j: int| 0 <= j < i ==> h@[at + j] == p@[j],
        decreases p@.len() - i,
    {
        if h[at + i] != p[i] {
            assert(h@.subrange(at as int, at + p@.len())[i as int] != p@[i as int]);
            return false;
        }
        i = i + 1;
    }
    assert(h@.subrange(at as int, at + p@.len()) =~= p@);
    true
}

/// The session token presented in an `Authorization` header: it must read
/// `Bearer fq_...` in visible ASCII.
pub fn bearer_token(header: Option<&[u8]>) -> (r: Option<String>)
    ensures
        match header {
            None => r is None,
            Some(h) => opt_string_view(r) == spec_bearer_token(h@),
        },
{
    match header {
        None => None,
        Some(h) => {
            if !visible(h) {
                return None;
            }
            let bearer: [u8; 7] = [66, 101, 97, 114, 101, 114, 32];
            let fq: [u8; 3] = [102, 113, 95];
            assert(bearer@ =~= bearer_prefix());
            assert(fq@ =~= token_prefix());
            if h.len() < 7 || !starts_with_at(h, 0, &bearer) {
                return None;
            }
            assert(h@.subrange(0, 7) =~= h@.take(7));
            if !starts_with_at(h, 7, &fq) {
                return None;
            }
            Some(ascii_string(h, 7, h.len()))
        },
    }
}

/// The session token an `Authorization` header presents, or the refusal when it presents none.
pub fn session_token(header: Option<&[u8]>) -> (r: Result<String, AppError>)
    ensures
        match header {
            Some(h) if spec_bearer_token(h@) is Some => r matches Ok(t) && Some(t@) == spec_bearer_token(
                h@,
            ),
            _ => r matches Err(AppError::Unauthorized(m)) && m@ == "Falta la sesión anónima."@,
        },
{
    match bearer_token(header) {
        Some(t) => Ok(t),
        None => Err(AppError::Unauthorized(owned("Falta la sesión anónima."))),
    }
}

/// The session that a token resolved to (`None` when no live session has its hash), or the
/// refusal.
pub fn resolve_session(found: Option<u128>) -> (r: Result<u128, AppError>)
    ensures
        match found {
            Some(id) => r == Ok::<u128, AppError>(id),
            None => r matches Err(AppError::Unauthorized(m)) && m@
                == "La sesión expiró o no es válida."@,
        },
{
    match found {
        Some(id) => Ok(id),
        None => Err(AppError::Unauthorized(owned("La sesión expiró o no es válida."))),
    }
}

pub open spec fn opt_string_view(s: Option<String>) -> Option<Seq<char>> {
    match s {
        Some(v) => Some(v@),
        None => None,
    }
}

/// The position of the first comma of `s`, or its length.
pub open spec fn is_first_comma(s: Seq<u8>, i: int) -> bool {
    &&& 0 <= i <= s.len()
    &&& forall|j: int| 0 <= j < i ==> #[trigger] s[j] != 44u8
    &&& i < s.len() ==> s[i] == 44u8
}

/// The client address used for rate limiting: when proxy headers are trusted, the first entry
/// of `X-Forwarded-For`, trimmed and not empty; otherwise the peer address.
pub fn client_ip(trust_proxy_headers: bool, forwarded: Option<&[u8]>, peer_ip: &str) -> (r: String)
    ensures
        (!trust_proxy_headers || forwarded is None) ==> r@ == peer_ip@,
        match forwarded {
            None => true,
            Some(h) => trust_proxy_headers ==> if !all_visible(h@) {
                r@ == peer_ip@
            } else {
                exists|c: int, a: int, b: int|
                    #![trigger is_first_comma(h@, c), is_trimmed_range(h@.take(c), a, b)]
                    is_first_comma(h@, c) && is_trimmed_range(h@.take(c), a, b) && if a == b {
                        r@ == peer_ip@
                    } else {
                        r@ == ascii_text(h@.subrange(a, b))
                    }
            },
        },
{
    if !trust_proxy_headers {
        return owned(peer_ip);
    }
    match forwarded {
        None => owned(peer_ip),
        Some(h) => {
            if !visible(h) {
                return owned(peer_ip);
            }
            let mut c: usize = 0;
            while c < h.len() && h[c] != 44
                invariant
                    c <= h@.len(),
                    forall|j: int| 0 <= j < c ==> #[trigger] h@[j] != 44u8,
                decreases h@.len() - c,
            {
                c = c + 1;
            }
            let first = &h[0..c];
            assert(first@ =~= h@.take(c as int));
            let (a, b) = trim_bounds(first);
            assert(is_first_comma(h@, c as int));
            assert(is_trimmed_range(h@.take(c as int), a as int, b as int));
            if a == b {
                owned(peer_ip)
            } else {
                let r = ascii_string(h, a, b);
                assert(h@.take(c as int).subrange(a as int, b as int) =~= h@.subrange(
                    a as int,
                    b as int,
                ));
                r
            }
        },
    }
}

} // verus!
