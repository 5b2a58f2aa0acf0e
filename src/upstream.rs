//! What the cache needs to know of the authoritative upstream service.
use vstd::prelude::*;

verus! {

/// Where the upstream service lives and how long one call may take.
#[derive(Debug, Clone)]
pub struct UpstreamConfig {
    pub base_url: String,
    pub timeout_secs: u64,
}

/// How an upstream reply is read.
#[derive(Debug, Clone, Copy, PartialEq, Eq, Structural)]
pub enum UpstreamStatus {
    /// 404: the upstream has no record.
    Miss,
    /// 2xx: the body holds a record.
    Found,
    /// Anything else: an internal failure.
    Failed,
}

pub open spec fn status_class(status: u16) -> UpstreamStatus {
    if status == 404 {
        UpstreamStatus::Miss
    } else if 200 <= status && status < 300 {
        UpstreamStatus::Found
    } else {
        UpstreamStatus::Failed
    }
}

/// `s` without its trailing `/` characters.
pub open spec fn trim_slashes(s: Seq<char>) -> Seq<char>
    decreases s.len(),
{
    if s.len() > 0 && s.last() == '/' {
        trim_slashes(s.drop_last())
    } else {
        s
    }
}

pub fn classify_status(status: u16) -> (r: UpstreamStatus)
    ensures
        r == status_class(status),
{
    if status == 404 {
        UpstreamStatus::Miss
    } else if 200 <= status && status < 300 {
        UpstreamStatus::Found
    } else {
        UpstreamStatus::Failed
    }
}

/// The lookup endpoint under `base_url`: `<base_url without trailing slashes>/lookup`.
pub fn lookup_url(base_url: &str) -> (r: String)
    ensures
        r@ == trim_slashes(base_url@) + "/lookup"@,
{
    let mut end = base_url.unicode_len();
    assert(base_url@.subrange(0, end as int) =~= base_url@);
    while end > 0 && base_url.get_char(end - 1) == '/'
        invariant
            end <= base_url@.len(),
            trim_slashes(base_url@.subrange(0, end as int)) == trim_slashes(base_url@),
        decreases end,
    {
        proof {
            assert(base_url@.subrange(0, end as int).drop_last() =~= base_url@.subrange(0, end - 1));
        }
        end = end - 1;
    }
    assert(trim_slashes(base_url@.subrange(0, end as int)) == base_url@.subrange(0, end as int));
    let mut r = base_url.substring_char(0, end).to_string();
    r.append("/lookup");
    r
}

} // verus!
