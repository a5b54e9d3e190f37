//! A client library for GitHub Apps: webhook signature verification, request
//! plans for the REST API, and the records that the API exchanges.

pub mod decimal;
pub mod error;
pub mod hexcode;
pub mod hmac;
pub mod jwt;
pub mod listing;
pub mod requests;
pub mod types;
pub mod webhooks;

pub use error::{ErrorKind, OctokitError};
pub use jwt::Claims;
pub use listing::{get_all_issues, get_installation, get_issue_batch, get_pull_requests};
pub use requests::{
    ApiPreviews, AuthTokenType, CreateCheckRun, CreateCheckSuite, CreateComment,
    CreateInstallationToken,
};
pub use types::{
    ApiError, CheckRun, CheckSuite, CommentPayload, Commit, CommitAuthor, GithubApp, GithubEvent,
    GithubEventAction, Installation, InstallationPayload, InstallationPermissions,
    InstallationRepository, InstallationToken, Issue, IssueComment, IssuePayload, OwnerType,
    PermissionGrant, PullRequest, PushInstallation, PushPayload, Pusher, Repository, Review,
    ReviewComment, User,
};
