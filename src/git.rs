//! The decisions taken around tagging a release in git.
use vstd::prelude::*;
use vstd::string::StringExecFns;
use crate::github::version_tag;

verus! {

/// `names` holds a tag that reads `tag`.
pub open spec fn lists_tag(names: Seq<Option<String>>, tag: Seq<char>) -> bool {
    exists|i: int| 0 <= i < names.len() && (#[trigger] names[i] matches Some(n) && n@ == tag)
}

/// Whether the tag names of a repository, as git lists them (a name that is
/// not valid UTF-8 comes as `None`), hold `tag`.
pub fn has_tag(names: &Vec<Option<String>>, tag: &str) -> (r: bool)
    ensures
        r == lists_tag(names@, tag@),
{
    let wanted = tag.to_owned();
    let mut i: usize = 0;
    while i < names.len()
        invariant
            i <= names@.len(),
            wanted@ == tag@,
            forall|j: int| 0 <= j < i ==> !(#[trigger] names@[j] matches Some(n) && n@ == tag@),
        decreases names@.len() - i,
    {
        if let Some(name) = &names[i] {
            if name.eq(&wanted) {
                assert(names@[i as int] matches Some(n) && n@ == tag@);
                return true;
            }
        }
        i = i + 1;
    }
    false
}

/// Whether `version` has been released already: the tags hold it, either
/// as `v<version>` or bare.
pub fn already_tagged(names: &Vec<Option<String>>, version: &str) -> (r: bool)
    ensures
        r == (lists_tag(names@, seq!['v'] + version@) || lists_tag(names@, version@)),
{
    let vtag = version_tag(version);
    has_tag(names, vtag.as_str()) || has_tag(names, version)
}

/// The refspec that pushes the tag `tag` to the same name upstream.
pub fn tag_refspec(tag: &str) -> (r: String)
    ensures
        r@ == "refs/tags/"@ + tag@ + ":refs/tags/"@ + tag@,
{
    String::from_str("refs/tags/").concat(tag).concat(":refs/tags/").concat(tag)
}

/// How to authenticate a push.
#[derive(Debug, Clone, PartialEq, Eq)]
pub enum Credential {
    /// A key held by the SSH agent, for the given user.
    SshAgent { user: String },
    /// The API token, as the user name of a plain-text login.
    Token,
}

/// The credential to offer: the SSH agent's key as `git` where the remote
/// accepts SSH keys, the token otherwise.
pub fn credential_for(ssh_key_allowed: bool) -> (r: Credential)
    ensures
        ssh_key_allowed ==> (r matches Credential::SshAgent { user } && user@ == "git"@),
        !ssh_key_allowed ==> r is Token,
{
    if ssh_key_allowed {
        Credential::SshAgent { user: String::from_str("git") }
    } else {
        Credential::Token
    }
}

} // verus!
