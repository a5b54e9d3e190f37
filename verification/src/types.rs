//! The records that the GitHub API sends and receives.

use vstd::prelude::*;

verus! {

/// A numeric identifier assigned by GitHub.
pub type ID = u64;

/// The hexadecimal name of a commit or tree.
pub type CommitSha = String;

/// An address of a resource.
pub type URI = String;

/// A point in time, as GitHub writes it.
pub type DateTime = String;

/// A global node identifier, as used by the GraphQL API.
pub type GRID = String;

/// A repository named as `owner/name`.
pub type NameWithOwner = String;

/// An e-mail address.
pub type Email = String;

/// Who commits on behalf of an author; the same record as the author's.
pub type Committer = CommitAuthor;

/// The kind of account that owns something.
#[derive(Debug, Clone, Copy, PartialEq, Eq, Structural)]
pub enum OwnerType {
    User,
    Bot,
    Organization,
}

/// The events that concern an app as a whole.
#[derive(Debug, Clone, Copy, PartialEq, Eq, Structural)]
pub enum GithubEvent {
    Integration,
    Installation,
}

/// What happened to the subject of an event.
#[derive(Debug, Clone, Copy, PartialEq, Eq, Structural)]
pub enum GithubEventAction {
    Created,
    Removed,
    Deleted,
}

/// The body of a response that reports a failure.
#[derive(Debug)]
pub struct ApiError {
    pub message: String,
}

/// An account.
#[derive(Debug)]
pub struct User {
    pub id: ID,
    pub login: String,
    pub node_id: GRID,
    pub user_type: OwnerType,
    pub site_admin: bool,
}

/// A comment on an issue.
#[derive(Debug)]
pub struct IssueComment {
    pub id: ID,
    pub body: String,
    pub user: User,
}

/// An issue.
#[derive(Debug)]
pub struct Issue {
    pub id: ID,
    pub number: ID,
}

/// A repository.
#[derive(Debug)]
pub struct Repository {
    pub full_name: String,
}

/// The delivery for a comment on an issue.
#[derive(Debug)]
pub struct CommentPayload {
    pub action: GithubEventAction,
    pub issue: Issue,
    pub repository: Repository,
    pub comment: IssueComment,
}

/// The author of a commit.
#[derive(Debug)]
pub struct CommitAuthor {
    pub name: String,
    pub email: Email,
}

/// A commit in a push.
#[derive(Debug)]
pub struct Commit {
    pub id: CommitSha,
    pub tree_id: CommitSha,
    pub distinct: bool,
    pub message: String,
    pub author: CommitAuthor,
    pub committer: Committer,
    pub url: URI,
}

/// Who pushed.
#[derive(Debug)]
pub struct Pusher {
    pub name: String,
    pub email: Email,
}

/// The installation through which a push was delivered.
#[derive(Debug)]
pub struct PushInstallation {
    pub id: ID,
    pub node_id: GRID,
}

/// The delivery for a push.
#[derive(Debug)]
pub struct PushPayload {
    pub git_ref: String,
    pub before: CommitSha,
    pub after: CommitSha,
    pub created: bool,
    pub deleted: bool,
    pub forced: bool,
    pub base_ref: Option<String>,
    pub compare: URI,
    pub commits: Vec<Commit>,
    pub head_commit: Option<Commit>,
    pub repository: Repository,
    pub pusher: Pusher,
    pub sender: User,
    pub installation: Option<PushInstallation>,
}

/// The delivery for an issue.
#[derive(Debug)]
pub struct IssuePayload {
    pub issue: Issue,
}

/// How much an installation may do with one kind of resource.
#[derive(Debug, Clone, Copy, PartialEq, Eq, Structural)]
pub enum PermissionGrant {
    /// Read-only access.
    Read,
    /// Read and write access.
    Write,
}

/// The grants of an installation, one for each kind of resource; `None`
/// where the installation has no access.
#[derive(Debug)]
pub struct InstallationPermissions {
    pub administration: Option<PermissionGrant>,
    pub packages: Option<PermissionGrant>,
    pub statuses: Option<PermissionGrant>,
    pub issues: Option<PermissionGrant>,
    pub deployments: Option<PermissionGrant>,
    pub contents: Option<PermissionGrant>,
    pub checks: Option<PermissionGrant>,
    pub vulnerability_alerts: Option<PermissionGrant>,
    pub pull_requests: Option<PermissionGrant>,
    pub pages: Option<PermissionGrant>,
    pub metadata: Option<PermissionGrant>,
    pub app_config: Option<PermissionGrant>,
}

/// A pull request.
#[derive(Debug)]
pub struct PullRequest {
    pub id: ID,
    pub url: URI,
    pub number: u64,
    pub state: String,
    pub locked: bool,
    pub title: String,
    pub body: String,
    pub user: User,
    pub node_id: GRID,
    pub html_url: URI,
    pub diff_url: URI,
    pub patch_url: URI,
    pub issue_url: URI,
    pub commits_url: URI,
    pub review_comments_url: URI,
    pub review_comment_url: URI,
    pub comments_url: URI,
    pub statuses_url: URI,
}

/// A GitHub App.
#[derive(Debug)]
pub struct GithubApp {
    pub id: ID,
    pub slug: String,
    pub node_id: GRID,
    pub owner: User,
    pub name: String,
    pub description: String,
    pub external_url: URI,
    pub html_url: URI,
    pub created_at: DateTime,
    pub updated_at: DateTime,
    pub permissions: InstallationPermissions,
    pub evens: Vec<String>,
    /// Present only in authenticated calls.
    pub installations_count: Option<u64>,
}

/// A check suite.
#[derive(Debug)]
pub struct CheckSuite {
    pub id: ID,
    pub node_id: GRID,
    pub head_branch: String,
    pub head_sha: CommitSha,
    pub status: String,
    pub conclusion: String,
    pub url: URI,
    pub before: CommitSha,
    pub after: CommitSha,
    pub pull_requests: Vec<PullRequest>,
    pub app: GithubApp,
    pub repository: Repository,
}

/// A repository as listed for an installation.
#[derive(Debug)]
pub struct InstallationRepository {
    pub id: ID,
    pub node_id: ID,
    pub name: String,
    pub full_name: String,
    pub private: bool,
}

/// An installation of an app on an account.
#[derive(Debug)]
pub struct Installation {
    pub id: ID,
    pub repository_selection: String,
    pub access_tokens_url: URI,
    pub repositories_url: URI,
    pub html_url: URI,
    pub app_id: ID,
    pub target_id: ID,
    pub target_type: OwnerType,
    pub permissions: InstallationPermissions,
    pub events: Vec<String>,
    pub single_file_name: Option<String>,
}

/// The delivery for a change to an installation.
#[derive(Debug)]
pub struct InstallationPayload {
    pub action: GithubEventAction,
    pub installation: Installation,
    /// Absent when the installation was deleted.
    pub repositories: Option<Vec<InstallationRepository>>,
    pub sender: User,
}

/// A review of a pull request.
#[derive(Debug)]
pub struct Review {}

/// A comment made in a review.
#[derive(Debug)]
pub struct ReviewComment {
    pub id: ID,
    pub body: String,
    pub user: User,
}

/// An access token for an installation.
#[derive(Debug)]
pub struct InstallationToken {
    pub token: String,
    pub expires_at: DateTime,
    pub permissions: InstallationPermissions,
    /// Absent unless the request named repositories.
    pub repositories: Option<Vec<Repository>>,
}

/// A check run.
#[derive(Debug)]
pub struct CheckRun {
    pub id: ID,
    pub head_sha: CommitSha,
    pub node_id: GRID,
    pub external_id: String,
    pub url: URI,
    pub html_url: URI,
    pub details_url: URI,
    pub status: String,
    pub conclusion: Option<String>,
    pub started_at: DateTime,
    pub completed_at: Option<DateTime>,
}

} // verus!
