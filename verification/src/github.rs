use vstd::prelude::*;
use crate::config::GitHubConfig;
use crate::text::{chars_of, decimal, equal_chars, extend_str, string_of};

verus! {

/// A repository the loop may push to or open pull requests on.
#[derive(Debug)]
pub struct GitHubRepo {
    pub owner: String,
    pub repo: String,
    pub branch: String,
    pub base_branch: String,
    pub local_path: Option<String>,
}

impl Clone for GitHubRepo {
    fn clone(&self) -> (r: Self)
        ensures
            r == *self,
    {
        GitHubRepo {
            owner: self.owner.clone(),
            repo: self.repo.clone(),
            branch: self.branch.clone(),
            base_branch: self.base_branch.clone(),
            local_path: match &self.local_path {
                Some(p) => Some(p.clone()),
                None => None,
            },
        }
    }
}

/// One run of a GitHub Actions workflow.
#[derive(Debug)]
pub struct WorkflowRun {
    pub id: u64,
    pub name: String,
    pub status: String,
    pub conclusion: Option<String>,
    pub html_url: String,
}

impl Clone for WorkflowRun {
    fn clone(&self) -> (r: Self)
        ensures
            r == *self,
    {
        WorkflowRun {
            id: self.id,
            name: self.name.clone(),
            status: self.status.clone(),
            conclusion: match &self.conclusion {
                Some(c) => Some(c.clone()),
                None => None,
            },
            html_url: self.html_url.clone(),
        }
    }
}

/// A pull request as GitHub describes it.
#[derive(Debug)]
pub struct PullRequest {
    pub number: u64,
    pub title: String,
    pub body: String,
    pub head: String,
    pub base: String,
    pub html_url: String,
    pub state: String,
}

impl Clone for PullRequest {
    fn clone(&self) -> (r: Self)
        ensures
            r == *self,
    {
        PullRequest {
            number: self.number,
            title: self.title.clone(),
            body: self.body.clone(),
            head: self.head.clone(),
            base: self.base.clone(),
            html_url: self.html_url.clone(),
            state: self.state.clone(),
        }
    }
}

pub open spec fn repo_key(r: GitHubRepo) -> (Seq<char>, Seq<char>) {
    (r.owner@, r.repo@)
}

/// Whether a repository with this owner and name is in the list.
pub open spec fn has_repo(repos: Seq<GitHubRepo>, owner: Seq<char>, repo: Seq<char>) -> bool {
    exists|i: int| 0 <= i < repos.len() && #[trigger] repo_key(repos[i]) == (owner, repo)
}

/// Whether the default repository is added to the configured ones: an owner and a
/// name are both set, and no configured repository has them.
pub open spec fn adds_default(configured: Seq<GitHubRepo>, gh: GitHubConfig) -> bool {
    gh.default_owner@.len() > 0 && gh.default_repo@.len() > 0 && !has_repo(configured, gh.default_owner@,
        gh.default_repo@)
}

/// The repositories a client works on: those configured, then the default one on
/// branch "main", based on "main", when `adds_default` holds.
pub fn repos(configured: &Vec<GitHubRepo>, gh: &GitHubConfig) -> (r: Vec<GitHubRepo>)
    ensures
        r@.len() == configured@.len() + if adds_default(configured@, *gh) { 1int } else { 0int },
        forall|i: int| 0 <= i < configured@.len() ==> #[trigger] r@[i] == configured@[i],
        adds_default(configured@, *gh) ==> {
            let d = r@[configured@.len() as int];
            &&& d.owner == gh.default_owner
            &&& d.repo == gh.default_repo
            &&& d.branch@ == "main"@
            &&& d.base_branch@ == "main"@
            &&& d.local_path is None
        },
{
    let mut out: Vec<GitHubRepo> = Vec::new();
    let mut i: usize = 0;
    while i < configured.len()
        invariant
            i <= configured.len(),
            out@.len() == i,
            forall|j: int| 0 <= j < i ==> #[trigger] out@[j] == configured@[j],
        decreases configured.len() - i,
    {
        out.push(configured[i].clone());
        i = i + 1;
    }
    if !gh.default_owner.as_str().is_empty() && !gh.default_repo.as_str().is_empty() {
        let owner = chars_of(gh.default_owner.as_str());
        let name = chars_of(gh.default_repo.as_str());
        let mut found = false;
        let mut k: usize = 0;
        while k < configured.len()
            invariant
                k <= configured.len(),
                owner@ == gh.default_owner@,
                name@ == gh.default_repo@,
                found == exists|j: int| 0 <= j < k && #[trigger] repo_key(configured@[j]) == (
                    gh.default_owner@,
                    gh.default_repo@,
                ),
            decreases configured.len() - k,
        {
            let o = chars_of(configured[k].owner.as_str());
            let n = chars_of(configured[k].repo.as_str());
            if equal_chars(&o, &owner) && equal_chars(&n, &name) {
                assert(repo_key(configured@[k as int]) == (gh.default_owner@, gh.default_repo@));
                found = true;
            } else {
                assert(repo_key(configured@[k as int]) != (gh.default_owner@, gh.default_repo@));
            }
            k = k + 1;
        }
        if !found {
            out.push(
                GitHubRepo {
                    owner: gh.default_owner.clone(),
                    repo: gh.default_repo.clone(),
                    branch: String::from_str("main"),
                    base_branch: String::from_str("main"),
                    local_path: None,
                },
            );
        }
    }
    out
}

/// The token a client authenticates with: the configured one, else `GITHUB_TOKEN`,
/// else `GH_TOKEN` (as read from the environment); no client without a token or
/// when GitHub is switched off.
pub fn client_token(gh: &GitHubConfig, github_token_env: Option<String>, gh_token_env: Option<String>) -> (r: Option<String>)
    ensures
        r == (if !gh.enabled {
            None
        } else {
            match gh.token {
                Some(t) => Some(t),
                None => match github_token_env {
                    Some(t) => Some(t),
                    None => gh_token_env,
                },
            }
        }),
{
    let token = match &gh.token {
        Some(t) => Some(t.clone()),
        None => match github_token_env {
            Some(t) => Some(t),
            None => gh_token_env,
        },
    };
    if token.is_none() {
        return None;
    }
    if !gh.enabled {
        return None;
    }
    token
}

/// The title of a pull request the loop opens: the configured prefix, then the title.
pub fn pr_title(gh: &GitHubConfig, title: &str) -> (r: String)
    ensures
        r@ == gh.pr_title_prefix@ + title@,
{
    let mut v = chars_of(gh.pr_title_prefix.as_str());
    extend_str(&mut v, title);
    string_of(&v)
}

/// The API address of the pull requests of a repository.
pub fn pulls_url(owner: &str, repo: &str) -> (r: String)
    ensures
        r@ == "https://api.github.com/repos/"@ + owner@ + "/"@ + repo@ + "/pulls"@,
{
    let mut v = chars_of("https://api.github.com/repos/");
    extend_str(&mut v, owner);
    extend_str(&mut v, "/");
    extend_str(&mut v, repo);
    extend_str(&mut v, "/pulls");
    string_of(&v)
}

/// The API address of the workflow runs of a repository, on one branch if given.
pub fn workflow_runs_url(owner: &str, repo: &str, branch: Option<&str>) -> (r: String)
    ensures
        r@ == "https://api.github.com/repos/"@ + owner@ + "/"@ + repo@ + "/actions/runs"@ + match branch {
            Some(b) => "?branch="@ + b@,
            None => Seq::<char>::empty(),
        },
{
    let mut v = chars_of("https://api.github.com/repos/");
    extend_str(&mut v, owner);
    extend_str(&mut v, "/");
    extend_str(&mut v, repo);
    extend_str(&mut v, "/actions/runs");
    if let Some(b) = branch {
        extend_str(&mut v, "?branch=");
        extend_str(&mut v, b);
    }
    string_of(&v)
}

/// The API address of one workflow run.
pub fn workflow_run_url(owner: &str, repo: &str, run_id: u64) -> (r: String)
    ensures
        r@ == "https://api.github.com/repos/"@ + owner@ + "/"@ + repo@ + "/actions/runs/"@ + decimal(run_id as nat),
{
    let mut v = chars_of("https://api.github.com/repos/");
    extend_str(&mut v, owner);
    extend_str(&mut v, "/");
    extend_str(&mut v, repo);
    extend_str(&mut v, "/actions/runs/");
    crate::text::extend_decimal(&mut v, run_id);
    string_of(&v)
}

/// The API address of a workflow's dispatches.
pub fn dispatch_url(owner: &str, repo: &str, workflow: &str) -> (r: String)
    ensures
        r@ == "https://api.github.com/repos/"@ + owner@ + "/"@ + repo@ + "/actions/workflows/"@ + workflow@
            + "/dispatches"@,
{
    let mut v = chars_of("https://api.github.com/repos/");
    extend_str(&mut v, owner);
    extend_str(&mut v, "/");
    extend_str(&mut v, repo);
    extend_str(&mut v, "/actions/workflows/");
    extend_str(&mut v, workflow);
    extend_str(&mut v, "/dispatches");
    string_of(&v)
}

/// What waiting on a workflow does after one poll.
#[derive(Debug)]
pub enum PollStep {
    /// The run completed, with this conclusion.
    Done(Option<String>),
    /// Poll again.
    Again,
    /// The polls are used up without completion.
    GiveUp,
}

/// The decision after poll number `poll` (from 0) of `max_polls`: `status` and
/// `conclusion` are what the poll read, none when the request was refused.
pub fn poll_step(status: Option<&str>, conclusion: Option<String>, poll: u32, max_polls: u32) -> (r: PollStep)
    requires
        poll < max_polls,
    ensures
        (status matches Some(s) && s@ == "completed"@) ==> r == PollStep::Done(conclusion),
        !(status matches Some(s) && s@ == "completed"@) ==> r == (if poll + 1 < max_polls {
            PollStep::Again
        } else {
            PollStep::GiveUp
        }),
{
    if let Some(s) = status {
        let c = chars_of(s);
        let done = chars_of("completed");
        if equal_chars(&c, &done) {
            return PollStep::Done(conclusion);
        }
    }
    if poll + 1 < max_polls {
        PollStep::Again
    } else {
        PollStep::GiveUp
    }
}

/// The memory service the loop reports to.
pub struct SynapsisBridge {
    endpoint: String,
    enabled: bool,
}

impl SynapsisBridge {
    pub closed spec fn spec_endpoint(&self) -> Seq<char> {
        self.endpoint@
    }

    pub closed spec fn spec_enabled(&self) -> bool {
        self.enabled
    }

    /// A bridge to the endpoint in `SYNAPSIS_ENDPOINT` (as read), or to
    /// "http://localhost:7438".
    pub fn new(enabled: bool, endpoint_env: Option<String>) -> (r: Self)
        ensures
            r.spec_enabled() == enabled,
            r.spec_endpoint() == match endpoint_env {
                Some(e) => e@,
                None => "http://localhost:7438"@,
            },
    {
        let endpoint = match endpoint_env {
            Some(e) => e,
            None => String::from_str("http://localhost:7438"),
        };
        SynapsisBridge { endpoint, enabled }
    }

    pub fn enabled(&self) -> (r: bool)
        ensures
            r == self.spec_enabled(),
    {
        self.enabled
    }

    pub fn endpoint(&self) -> (r: &String)
        ensures
            r@ == self.spec_endpoint(),
    {
        &self.endpoint
    }

    /// Where memories are saved; none while the bridge is off (nothing is sent).
    pub fn memory_url(&self) -> (r: Option<String>)
        ensures
            self.spec_enabled() ==> (r matches Some(u) && u@ == self.spec_endpoint() + "/memory/save"@),
            !self.spec_enabled() ==> r is None,
    {
        if !self.enabled {
            return None;
        }
        let mut v = chars_of(self.endpoint.as_str());
        extend_str(&mut v, "/memory/save");
        Some(string_of(&v))
    }
}

} // verus!
