//! The release-hosting API's records, and the requests and addresses built
//! for it.
use vstd::prelude::*;
use vstd::string::StringExecFns;

verus! {

/// The inputs to creating a release.
#[derive(Default, Debug, Clone, PartialEq)]
pub struct CreateRelease {
    pub tag_name: String,
    pub target_commitish: String,
    pub name: String,
    pub body: String,
    pub draft: bool,
    pub prerelease: bool,
}

/// One release of a repository.
#[derive(Default, Debug, Clone, PartialEq)]
pub struct Release {
    pub url: String,
    pub html_url: String,
    pub assets_url: String,
    pub upload_url: String,
    pub tarball_url: String,
    pub zipball_url: String,
    pub id: i64,
    pub node_id: String,
    pub tag_name: String,
    pub target_commitish: String,
    pub name: String,
    pub body: String,
    pub draft: bool,
    pub prerelease: bool,
    pub created_at: String,
    pub published_at: String,
    pub author: Author,
    pub assets: Vec<Asset>,
}

/// A file attached to a release.
#[derive(Default, Debug, Clone, PartialEq)]
pub struct Asset {
    pub url: String,
    pub browser_download_url: String,
    pub id: i64,
    pub node_id: String,
    pub name: String,
    pub label: String,
    pub state: String,
    pub content_type: String,
    pub size: i64,
    pub download_count: i64,
    pub created_at: String,
    pub updated_at: String,
    pub author: Author,
}

/// The account that created a release, an asset or a repository.
#[derive(Default, Debug, Clone, PartialEq)]
pub struct Author {
    pub login: String,
    pub id: i64,
    pub node_id: String,
    pub avatar_url: String,
    pub gravatar_id: String,
    pub url: String,
    pub html_url: String,
    pub followers_url: String,
    pub following_url: String,
    pub gists_url: String,
    pub starred_url: String,
    pub subscriptions_url: String,
    pub organizations_url: String,
    pub repos_url: String,
    pub events_url: String,
    pub received_events_url: String,
    pub site_admin: bool,
}

/// The inputs to creating a repository.
#[derive(Default, Debug, Clone, PartialEq)]
pub struct RepoCreate {
    pub name: String,
    pub description: String,
    pub homepage: String,
    pub private: bool,
    pub has_issues: bool,
    pub has_projects: bool,
    pub has_wiki: bool,
}

/// What the API tells of a repository.
#[derive(Default, Debug, Clone, PartialEq)]
pub struct Repo {
    pub name: String,
    pub full_name: String,
    pub owner: Author,
    pub description: String,
    pub homepage: String,
    pub private: bool,
    pub has_issues: bool,
    pub has_projects: bool,
    pub has_wiki: bool,
    pub html_url: String,
    pub default_branch: String,
}

/// The git tag under which a version is released: the version after a `v`.
pub fn version_tag(version: &str) -> (r: String)
    ensures
        r@ == seq!['v'] + version@,
{
    let tag = String::from_str("v").concat(version);
    proof {
        reveal_strlit("v");
    }
    assert(tag@ =~= seq!['v'] + version@);
    tag
}

/// The request that publishes `version` with `body` as its notes: tagged
/// `v<version>` on `master`, titled `Version <version>`, neither a draft
/// nor a prerelease.
pub fn release_request(version: &str, body: String) -> (r: CreateRelease)
    ensures
        r.tag_name@ == seq!['v'] + version@,
        r.target_commitish@ == "master"@,
        r.name@ == "Version "@ + version@,
        r.body == body,
        !r.draft,
        !r.prerelease,
{
    CreateRelease {
        tag_name: version_tag(version),
        target_commitish: String::from_str("master"),
        name: String::from_str("Version ").concat(version),
        body: body,
        draft: false,
        prerelease: false,
    }
}

/// Where the API is served unless told otherwise.
pub fn default_base_url() -> (r: String)
    ensures
        r@ == "https://api.github.com/"@,
{
    String::from_str("https://api.github.com/")
}

/// The value of the `Authorization` header for an API token.
pub fn authorization(token: &str) -> (r: String)
    ensures
        r@ == "token "@ + token@,
{
    String::from_str("token ").concat(token)
}

/// Where repositories of the authenticated user are created.
pub fn create_repo_url(base: &str) -> (r: String)
    ensures
        r@ == base@ + "user/repos"@,
{
    String::from_str(base).concat("user/repos")
}

/// The address of the repository `owner/repo`.
pub fn repo_url(base: &str, owner: &str, repo: &str) -> (r: String)
    ensures
        r@ == base@ + "repos/"@ + owner@ + "/"@ + repo@,
{
    String::from_str(base).concat("repos/").concat(owner).concat("/").concat(repo)
}

/// The address of the releases of `owner/repo`.
pub fn releases_url(base: &str, owner: &str, repo: &str) -> (r: String)
    ensures
        r@ == base@ + "repos/"@ + owner@ + "/"@ + repo@ + "/releases"@,
{
    repo_url(base, owner, repo).concat("/releases")
}

/// The address of the newest release of `owner/repo`.
pub fn latest_release_url(base: &str, owner: &str, repo: &str) -> (r: String)
    ensures
        r@ == base@ + "repos/"@ + owner@ + "/"@ + repo@ + "/releases"@ + "/latest"@,
{
    releases_url(base, owner, repo).concat("/latest")
}

} // verus!
