//! The decisions taken when a release is triggered from continuous integration.
use vstd::prelude::*;
use vstd::string::{StringExecFns, StrSliceExecFns};

verus! {

/// The ref name of the branch `branch`.
pub fn branch_ref(branch: &str) -> (r: String)
    ensures
        r@ == "refs/heads/"@ + branch@,
{
    String::from_str("refs/heads/").concat(branch)
}

/// A build on the branch `branch` cuts a release only when that is the
/// repository's default branch.
pub fn is_default_branch(branch: &str, default_branch: &str) -> (r: bool)
    ensures
        r == (branch@ == default_branch@),
{
    branch.to_owned().eq(&default_branch.to_owned())
}

/// A build of the ref `refname` cuts a release only when it is the ref of
/// the repository's default branch.
pub fn is_default_ref(refname: &str, default_branch: &str) -> (r: bool)
    ensures
        r == (refname@ == "refs/heads/"@ + default_branch@),
{
    refname.to_owned().eq(&branch_ref(default_branch))
}

/// The position of the first `/` in `s` at or after `from`, or the length
/// of `s` when there is none.
pub open spec fn slash_index(s: Seq<char>, from: int) -> int
    decreases s.len() - from,
{
    if from < 0 || from >= s.len() {
        s.len() as int
    } else if s[from] == '/' {
        from
    } else {
        slash_index(s, from + 1)
    }
}

fn next_slash(s: &str, from: usize, len: usize) -> (k: usize)
    requires
        len == s@.len(),
        from <= len,
    ensures
        k == slash_index(s@, from as int),
        from <= k <= len,
{
    let mut k = from;
    while k < len && s.get_char(k) != '/'
        invariant
            from <= k <= len,
            len == s@.len(),
            slash_index(s@, k as int) == slash_index(s@, from as int),
        decreases len - k,
    {
        k = k + 1;
    }
    k
}

/// Splits a repository's full name, `owner/name`, at its first `/`: the
/// owner, then what follows up to the next `/` or the end. `None` when there
/// is no `/`.
pub fn split_repo(full: &str) -> (r: Option<(String, String)>)
    ensures
        r is None <==> slash_index(full@, 0) == full@.len(),
        r matches Some((owner, name)) ==> {
            let i = slash_index(full@, 0);
            &&& owner@ == full@.subrange(0, i)
            &&& name@ == full@.subrange(i + 1, slash_index(full@, i + 1))
        },
{
    let len = full.unicode_len();
    let i = next_slash(full, 0, len);
    if i == len {
        return None;
    }
    let k = next_slash(full, i + 1, len);
    let owner = full.substring_char(0, i).to_owned();
    let name = full.substring_char(i + 1, k).to_owned();
    Some((owner, name))
}

} // verus!
