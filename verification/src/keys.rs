//! Where a job's objects live in the object store. Every object of a job sits under the
//! job's own prefix, which depends only on its session and its id.
use vstd::prelude::*;

use crate::format::{lemma_uuid_text_injective, uuid_string, uuid_text};
use crate::text::push_char;

verus! {

pub open spec fn sessions_segment() -> Seq<char> {
    seq!['s', 'e', 's', 's', 'i', 'o', 'n', 's', '/']
}

pub open spec fn jobs_segment() -> Seq<char> {
    seq!['/', 'j', 'o', 'b', 's', '/']
}

pub open spec fn input_segment() -> Seq<char> {
    seq!['/', 'i', 'n', 'p', 'u', 't']
}

pub open spec fn outputs_segment() -> Seq<char> {
    seq!['/', 'o', 'u', 't', 'p', 'u', 't', 's', '/']
}

/// `sessions/<session>/jobs/<job>`.
pub open spec fn job_prefix_text(session_id: u128, job_id: u128) -> Seq<char> {
    sessions_segment() + uuid_text(session_id) + jobs_segment() + uuid_text(job_id)
}

/// `sessions/<session>/jobs/<job>/input`.
pub open spec fn input_key_text(session_id: u128, job_id: u128) -> Seq<char> {
    job_prefix_text(session_id, job_id) + input_segment()
}

/// `sessions/<session>/jobs/<job>/outputs/<name>`.
pub open spec fn output_key_text(session_id: u128, job_id: u128, name: Seq<char>) -> Seq<char> {
    job_prefix_text(session_id, job_id) + outputs_segment() + name
}

fn push_all(out: &mut String, cs: &[char])
    ensures
        final(out)@ == old(out)@ + cs@,
{
    let mut i: usize = 0;
    while i < cs.len()
        invariant
            i <= cs@.len(),
            out@ == old(out)@ + cs@.take(i as int),
        decreases cs@.len() - i,
    {
        push_char(out, cs[i]);
        assert(cs@.take(i + 1) =~= cs@.take(i as int).push(cs@[i as int]));
        i = i + 1;
    }
    assert(cs@.take(cs@.len() as int) =~= cs@);
}

/// The prefix under which all objects of a job are stored.
pub fn job_object_prefix(session_id: u128, job_id: u128) -> (k: String)
    ensures
        k@ == job_prefix_text(session_id, job_id),
{
    let mut k = String::new();
    let sessions = ['s', 'e', 's', 's', 'i', 'o', 'n', 's', '/'];
    let jobs = ['/', 'j', 'o', 'b', 's', '/'];
    push_all(&mut k, &sessions);
    let s = uuid_string(session_id);
    k.append(s.as_str());
    push_all(&mut k, &jobs);
    let j = uuid_string(job_id);
    k.append(j.as_str());
    assert(k@ =~= job_prefix_text(session_id, job_id));
    k
}

/// The key of a job's uploaded input.
pub fn input_object_key(session_id: u128, job_id: u128) -> (k: String)
    ensures
        k@ == input_key_text(session_id, job_id),
{
    let mut k = job_object_prefix(session_id, job_id);
    let input = ['/', 'i', 'n', 'p', 'u', 't'];
    push_all(&mut k, &input);
    k
}

/// The key of the job's output artifact `name`.
pub fn output_object_key(session_id: u128, job_id: u128, name: &str) -> (k: String)
    ensures
        k@ == output_key_text(session_id, job_id, name@),
{
    let mut k = job_object_prefix(session_id, job_id);
    let outputs = ['/', 'o', 'u', 't', 'p', 'u', 't', 's', '/'];
    push_all(&mut k, &outputs);
    k.append(name);
    k
}

/// Whether `p` is a prefix of `s`.
pub open spec fn is_prefix(p: Seq<char>, s: Seq<char>) -> bool {
    p.len() <= s.len() && s.take(p.len() as int) == p
}

proof fn lemma_uuid_text_len(x: u128)
    ensures
        uuid_text(x).len() == 36,
{
    crate::format::lemma_hex_text_len(x as nat, 32);
}

/// A job's input and outputs all lie under the job's prefix followed by `/`.
pub proof fn lemma_job_objects_under_prefix(session_id: u128, job_id: u128, name: Seq<char>)
    ensures
        is_prefix(job_prefix_text(session_id, job_id) + seq!['/'], input_key_text(session_id, job_id)),
        is_prefix(
            job_prefix_text(session_id, job_id) + seq!['/'],
            output_key_text(session_id, job_id, name),
        ),
{
    let p = job_prefix_text(session_id, job_id);
    assert((p + input_segment()).take(p.len() as int + 1) =~= p + seq!['/']);
    assert((p + outputs_segment() + name).take(p.len() as int + 1) =~= p + seq!['/']);
}

/// Deleting everything under one job's prefix never touches another job's objects: the prefix
/// of one job is not a prefix of any key of a different job or session.
pub proof fn lemma_job_prefixes_disjoint(
    s1: u128,
    j1: u128,
    s2: u128,
    j2: u128,
    name: Seq<char>,
)
    requires
        s1 != s2 || j1 != j2,
    ensures
        !is_prefix(job_prefix_text(s1, j1) + seq!['/'], input_key_text(s2, j2)),
        !is_prefix(job_prefix_text(s1, j1) + seq!['/'], output_key_text(s2, j2, name)),
{
    lemma_uuid_text_len(s1);
    lemma_uuid_text_len(s2);
    lemma_uuid_text_len(j1);
    lemma_uuid_text_len(j2);
    let p1 = job_prefix_text(s1, j1);
    let p2 = job_prefix_text(s2, j2);
    assert(p1.len() == 87);
    assert(p2.len() == 87);
    if p1 == p2 {
        assert(p1.subrange(9, 45) =~= uuid_text(s1));
        assert(p2.subrange(9, 45) =~= uuid_text(s2));
        assert(p1.subrange(51, 87) =~= uuid_text(j1));
        assert(p2.subrange(51, 87) =~= uuid_text(j2));
        lemma_uuid_text_injective(s1, s2);
        lemma_uuid_text_injective(j1, j2);
    }
    let k1 = input_key_text(s2, j2);
    let k2 = output_key_text(s2, j2, name);
    if is_prefix(p1 + seq!['/'], k1) {
        assert(k1.take(87) =~= p2);
        assert((p1 + seq!['/']).take(87) =~= p1);
        assert(k1.take(88).take(87) =~= k1.take(87));
    }
    if is_prefix(p1 + seq!['/'], k2) {
        assert(k2.take(87) =~= p2);
        assert((p1 + seq!['/']).take(87) =~= p1);
        assert(k2.take(88).take(87) =~= k2.take(87));
    }
}

} // verus!
