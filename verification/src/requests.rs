//! Plans for the calls that the library makes to the GitHub REST API.
//!
//! A plan says what to send: the method, the address and the headers, and
//! for some calls the record that goes in the body. Sending it is the
//! caller's part, and so is reading the answer; which part of the answer to
//! read is decided here, from the status that came back.

use crate::decimal::{append_decimal, decimal};
use crate::types::{CommitSha, PermissionGrant, ID};
use vstd::prelude::*;
use vstd::string::StringExecFns;

verus! {

/// How a request proves who sends it.
#[derive(Debug, Clone, Copy, PartialEq, Eq, Structural)]
pub enum AuthTokenType {
    /// An installation access token.
    Token,
    /// A JSON Web Token signed by the app.
    JWT,
}

impl AuthTokenType {
    /// The word that announces this kind of credential, for contracts.
    pub open spec fn spec_scheme(self) -> Seq<char> {
        match self {
            AuthTokenType::Token => "token"@,
            AuthTokenType::JWT => "Bearer"@,
        }
    }

    /// The word that announces this kind of credential in an
    /// `Authorization` header.
    pub fn scheme(&self) -> (s: &'static str)
        ensures
            s@ == self.spec_scheme(),
    {
        match self {
            AuthTokenType::Token => "token",
            AuthTokenType::JWT => "Bearer",
        }
    }

    /// The scheme word as an owned string.
    pub fn to_string(&self) -> (s: String)
        ensures
            s@ == self.spec_scheme(),
    {
        String::from_str(self.scheme())
    }
}

/// The preview versions of the API that the library asks for.
#[derive(Debug, Clone, Copy, PartialEq, Eq, Structural)]
pub enum ApiPreviews {
    /// Checks.
    Antiope,
    /// GitHub Apps.
    MachineMan,
}

impl ApiPreviews {
    /// The media type that asks for this preview, for contracts.
    pub open spec fn spec_media_type(self) -> Seq<char> {
        match self {
            ApiPreviews::Antiope => "application/vnd.github.antiope-preview+json"@,
            ApiPreviews::MachineMan => "application/vnd.github.machine-man-preview+json"@,
        }
    }

    /// The media type that asks for this preview.
    pub fn to_media_type(&self) -> (s: String)
        ensures
            s@ == self.spec_media_type(),
    {
        match self {
            ApiPreviews::Antiope => String::from_str("application/vnd.github.antiope-preview+json"),
            ApiPreviews::MachineMan => String::from_str(
                "application/vnd.github.machine-man-preview+json",
            ),
        }
    }
}

/// The HTTP methods that the library uses.
#[derive(Debug, Clone, Copy, PartialEq, Eq, Structural)]
pub enum Method {
    Get,
    Post,
    Delete,
}

/// The request headers that the library sets.
#[derive(Debug, Clone, Copy, PartialEq, Eq, Structural)]
pub enum HeaderName {
    UserAgent,
    Accept,
    ContentType,
    Authorization,
}

/// One header of a request.
#[derive(Debug)]
pub struct Header {
    pub name: HeaderName,
    pub value: String,
}

/// A request to send.
#[derive(Debug)]
pub struct Request {
    pub method: Method,
    pub url: String,
    pub headers: Vec<Header>,
}

impl Request {
    /// The headers of this request in the order in which they are set, each
    /// as its name and its text.
    pub open spec fn header_list(&self) -> Seq<(HeaderName, Seq<char>)> {
        self.headers@.map_values(|h: Header| (h.name, h.value@))
    }
}

/// The text by which the library names itself to the server.
pub open spec fn user_agent() -> Seq<char> {
    "Octokit/Rust v0.1.0"@
}

/// The value of an `Authorization` header: the scheme word, a space, and
/// the credential.
pub open spec fn authorization_value(token_type: AuthTokenType, token: Seq<char>) -> Seq<char> {
    token_type.spec_scheme() + " "@ + token
}

/// The headers of a request that states its media type under `media_name`.
pub open spec fn plan_headers(
    media_name: HeaderName,
    media_type: Seq<char>,
    token_type: AuthTokenType,
    token: Seq<char>,
) -> Seq<(HeaderName, Seq<char>)> {
    seq![
        (HeaderName::UserAgent, user_agent()),
        (media_name, media_type),
        (HeaderName::Authorization, authorization_value(token_type, token)),
    ]
}

/// Whether `r` is the request with the given method, address and headers.
pub open spec fn is_plan(
    r: Request,
    method: Method,
    url: Seq<char>,
    headers: Seq<(HeaderName, Seq<char>)>,
) -> bool {
    &&& r.method == method
    &&& r.url@ == url
    &&& r.header_list() == headers
}

/// The value of the `Authorization` header for a credential.
pub fn authorization(token_type: AuthTokenType, token: &String) -> (s: String)
    ensures
        s@ == authorization_value(token_type, token@),
{
    let mut s = String::from_str(token_type.scheme());
    s.append(" ");
    s.append(token.as_str());
    s
}

/// Assembles a request from its parts.
fn plan(
    method: Method,
    url: String,
    media_name: HeaderName,
    media_type: String,
    token_type: AuthTokenType,
    token: &String,
) -> (r: Request)
    ensures
        is_plan(r, method, url@, plan_headers(media_name, media_type@, token_type, token@)),
{
    let mut headers: Vec<Header> = Vec::new();
    headers.push(
        Header { name: HeaderName::UserAgent, value: String::from_str("Octokit/Rust v0.1.0") },
    );
    headers.push(Header { name: media_name, value: media_type });
    headers.push(
        Header { name: HeaderName::Authorization, value: authorization(token_type, token) },
    );
    let r = Request { method, url, headers };
    assert(r.header_list() =~= plan_headers(media_name, media_type@, token_type, token@));
    r
}

/// The plan of a `GET`: it accepts the checks preview and carries the
/// credential under the scheme of `token_type`.
pub fn get_request(token: &String, url: String, token_type: AuthTokenType) -> (r: Request)
    ensures
        is_plan(
            r,
            Method::Get,
            url@,
            plan_headers(
                HeaderName::Accept,
                ApiPreviews::Antiope.spec_media_type(),
                token_type,
                token@,
            ),
        ),
{
    plan(
        Method::Get,
        url,
        HeaderName::Accept,
        ApiPreviews::Antiope.to_media_type(),
        token_type,
        token,
    )
}

/// The plan of a `DELETE`: it states the checks preview as its content type
/// and carries the credential as an installation token.
pub fn delete_request(token: &String, url: String) -> (r: Request)
    ensures
        is_plan(
            r,
            Method::Delete,
            url@,
            plan_headers(
                HeaderName::ContentType,
                ApiPreviews::Antiope.spec_media_type(),
                AuthTokenType::Token,
                token@,
            ),
        ),
{
    plan(
        Method::Delete,
        url,
        HeaderName::ContentType,
        ApiPreviews::Antiope.to_media_type(),
        AuthTokenType::Token,
        token,
    )
}

/// The plan of a `POST`: it accepts `media_type` and carries the credential
/// under the scheme of `token_type`. The body is the caller's.
pub fn post_request(
    token: &String,
    url: String,
    token_type: AuthTokenType,
    media_type: String,
) -> (r: Request)
    ensures
        is_plan(
            r,
            Method::Post,
            url@,
            plan_headers(HeaderName::Accept, media_type@, token_type, token@),
        ),
{
    plan(Method::Post, url, HeaderName::Accept, media_type, token_type, token)
}

/// The body of the call that comments on an issue.
#[derive(Debug)]
pub struct CreateComment {
    pub body: String,
}

/// The body of the call that creates a check suite.
#[derive(Debug)]
pub struct CreateCheckSuite {
    pub head_sha: CommitSha,
}

/// The body of the call that creates a check run.
#[derive(Debug)]
pub struct CreateCheckRun {
    pub name: String,
    pub head_sha: CommitSha,
}

/// One grant asked for an installation token: the kind of resource, by its
/// name in the API, and how much to allow.
#[derive(Debug)]
pub struct PermissionEntry {
    pub name: String,
    pub grant: PermissionGrant,
}

/// The body of the call that creates an installation token.
#[derive(Debug)]
pub struct CreateInstallationToken {
    /// The repositories to confine the token to; `None` for all of them.
    pub repository_ids: Option<Vec<ID>>,
    /// The grants asked for, at most one for each kind of resource.
    pub permissions: Vec<PermissionEntry>,
}

impl CreateInstallationToken {
    /// The grants asked for, each as the name of its kind and its extent.
    pub open spec fn grants(&self) -> Seq<(Seq<char>, PermissionGrant)> {
        self.permissions@.map_values(|e: PermissionEntry| (e.name@, e.grant))
    }

    /// No kind of resource is named twice.
    pub open spec fn wf(&self) -> bool {
        forall|i: int, j: int|
            0 <= i < j < self.grants().len() ==> (#[trigger] self.grants()[i]).0 != (
            #[trigger] self.grants()[j]).0
    }
}

/// The address under which everything about the repository `nwo` lives.
pub open spec fn repos_url(nwo: Seq<char>) -> Seq<char> {
    "https://api.github.com/repos/"@ + nwo
}

/// The address of one comment on an issue.
pub open spec fn issue_comment_url(nwo: Seq<char>, comment_number: nat) -> Seq<char> {
    repos_url(nwo) + "/issues/comments/"@ + decimal(comment_number)
}

/// The address of the comments on one issue.
pub open spec fn issue_comments_url(nwo: Seq<char>, issue_number: nat) -> Seq<char> {
    repos_url(nwo) + "/issues/"@ + decimal(issue_number) + "/comments"@
}

/// The address of the review comments on one pull request.
pub open spec fn review_comments_url(nwo: Seq<char>, pull_number: nat) -> Seq<char> {
    repos_url(nwo) + "/pulls/"@ + decimal(pull_number) + "/comments"@
}

/// The address of all review comments of a repository.
pub open spec fn all_review_comments_url(nwo: Seq<char>) -> Seq<char> {
    repos_url(nwo) + "/comments"@
}

/// The address of the app that the credential belongs to.
pub open spec fn app_url() -> Seq<char> {
    "https://api.github.com/app"@
}

/// The address of the check suites of a repository.
pub open spec fn check_suites_url(nwo: Seq<char>) -> Seq<char> {
    repos_url(nwo) + "/check-suites"@
}

/// The address of the check runs of a repository.
pub open spec fn check_runs_url(nwo: Seq<char>) -> Seq<char> {
    repos_url(nwo) + "/check-runs"@
}

/// The address that issues access tokens for one installation.
pub open spec fn access_tokens_url(installation_id: nat) -> Seq<char> {
    "https://api.github.com/app/installations/"@ + decimal(installation_id) + "/access_tokens"@
}

/// The name of the check run that the library creates.
pub open spec fn check_run_name() -> Seq<char> {
    "Example Check-Run"@
}

/// Starts an address under the repository `nwo`.
fn start_repos_url(nwo: &String) -> (url: String)
    ensures
        url@ == repos_url(nwo@),
{
    let mut url = String::from_str("https://api.github.com/repos/");
    url.append(nwo.as_str());
    url
}

/// The plan that deletes one comment on an issue.
pub fn delete_issue_comment_request(token: &String, nwo: &String, comment_number: ID) -> (r:
    Request)
    ensures
        is_plan(
            r,
            Method::Delete,
            issue_comment_url(nwo@, comment_number as nat),
            plan_headers(
                HeaderName::ContentType,
                ApiPreviews::Antiope.spec_media_type(),
                AuthTokenType::Token,
                token@,
            ),
        ),
{
    let mut url = start_repos_url(nwo);
    url.append("/issues/comments/");
    append_decimal(&mut url, comment_number);
    delete_request(token, url)
}

/// The plan that comments on an issue, and the comment to send.
pub fn create_issue_comment_request(
    token: &String,
    issue_number: ID,
    repo_name: &String,
    message: String,
) -> (r: (Request, CreateComment))
    ensures
        is_plan(
            r.0,
            Method::Post,
            issue_comments_url(repo_name@, issue_number as nat),
            plan_headers(
                HeaderName::Accept,
                ApiPreviews::Antiope.spec_media_type(),
                AuthTokenType::Token,
                token@,
            ),
        ),
        r.1.body == message,
{
    let mut url = start_repos_url(repo_name);
    url.append("/issues/");
    append_decimal(&mut url, issue_number);
    url.append("/comments");
    let request = post_request(
        token,
        url,
        AuthTokenType::Token,
        ApiPreviews::Antiope.to_media_type(),
    );
    (request, CreateComment { body: message })
}

/// The plan that lists the review comments on one pull request.
pub fn get_review_comments_request(token: &String, nwo: &String, pull_number: ID) -> (r: Request)
    ensures
        is_plan(
            r,
            Method::Get,
            review_comments_url(nwo@, pull_number as nat),
            plan_headers(
                HeaderName::Accept,
                ApiPreviews::Antiope.spec_media_type(),
                AuthTokenType::Token,
                token@,
            ),
        ),
{
    let mut url = start_repos_url(nwo);
    url.append("/pulls/");
    append_decimal(&mut url, pull_number);
    url.append("/comments");
    get_request(token, url, AuthTokenType::Token)
}

/// The plan that lists all review comments of a repository.
pub fn get_all_review_comments_request(token: &String, nwo: &String) -> (r: Request)
    ensures
        is_plan(
            r,
            Method::Get,
            all_review_comments_url(nwo@),
            plan_headers(
                HeaderName::Accept,
                ApiPreviews::Antiope.spec_media_type(),
                AuthTokenType::Token,
                token@,
            ),
        ),
{
    let mut url = start_repos_url(nwo);
    url.append("/comments");
    get_request(token, url, AuthTokenType::Token)
}

/// The plan that asks for the app that the JSON Web Token `token` belongs
/// to.
pub fn get_app_request(token: &String) -> (r: Request)
    ensures
        is_plan(
            r,
            Method::Get,
            app_url(),
            plan_headers(
                HeaderName::Accept,
                ApiPreviews::Antiope.spec_media_type(),
                AuthTokenType::JWT,
                token@,
            ),
        ),
{
    get_request(token, String::from_str("https://api.github.com/app"), AuthTokenType::JWT)
}

/// The plan that creates a check suite for the commit `sha`, and the record
/// to send.
pub fn create_check_suite_request(token: &String, nwo: &String, sha: CommitSha) -> (r: (
    Request,
    CreateCheckSuite,
))
    ensures
        is_plan(
            r.0,
            Method::Post,
            check_suites_url(nwo@),
            plan_headers(
                HeaderName::Accept,
                ApiPreviews::Antiope.spec_media_type(),
                AuthTokenType::Token,
                token@,
            ),
        ),
        r.1.head_sha == sha,
{
    let mut url = start_repos_url(nwo);
    url.append("/check-suites");
    let request = post_request(
        token,
        url,
        AuthTokenType::Token,
        ApiPreviews::Antiope.to_media_type(),
    );
    (request, CreateCheckSuite { head_sha: sha })
}

/// The plan that creates a check run for the commit `sha`, and the record
/// to send.
pub fn create_check_run_request(token: &String, nwo: &String, sha: CommitSha) -> (r: (
    Request,
    CreateCheckRun,
))
    ensures
        is_plan(
            r.0,
            Method::Post,
            check_runs_url(nwo@),
            plan_headers(
                HeaderName::Accept,
                ApiPreviews::Antiope.spec_media_type(),
                AuthTokenType::Token,
                token@,
            ),
        ),
        r.1.name@ == check_run_name(),
        r.1.head_sha == sha,
{
    let mut url = start_repos_url(nwo);
    url.append("/check-runs");
    let request = post_request(
        token,
        url,
        AuthTokenType::Token,
        ApiPreviews::Antiope.to_media_type(),
    );
    (request, CreateCheckRun { name: String::from_str("Example Check-Run"), head_sha: sha })
}

/// The plan that exchanges the JSON Web Token `jwt` for an access token of
/// one installation, and the record to send: write access to checks, on all
/// repositories of the installation.
pub fn create_installation_token_request(jwt: &String, installation_id: ID) -> (r: (
    Request,
    CreateInstallationToken,
))
    ensures
        is_plan(
            r.0,
            Method::Post,
            access_tokens_url(installation_id as nat),
            plan_headers(
                HeaderName::Accept,
                ApiPreviews::MachineMan.spec_media_type(),
                AuthTokenType::JWT,
                jwt@,
            ),
        ),
        r.1.repository_ids is None,
        r.1.grants() == seq![("checks"@, PermissionGrant::Write)],
        r.1.wf(),
{
    let mut permissions: Vec<PermissionEntry> = Vec::new();
    permissions.push(
        PermissionEntry { name: String::from_str("checks"), grant: PermissionGrant::Write },
    );
    let body = CreateInstallationToken { repository_ids: None, permissions };
    assert(body.grants() =~= seq![("checks"@, PermissionGrant::Write)]);
    let mut url = String::from_str("https://api.github.com/app/installations/");
    append_decimal(&mut url, installation_id);
    url.append("/access_tokens");
    let request = post_request(
        jwt,
        url,
        AuthTokenType::JWT,
        ApiPreviews::MachineMan.to_media_type(),
    );
    (request, body)
}

/// The status of a response that carries what was asked for.
pub const STATUS_OK: u16 = 200;

/// The status of a response that carries what was created.
pub const STATUS_CREATED: u16 = 201;

/// The status of a response that refuses the credential.
pub const STATUS_UNAUTHORIZED: u16 = 401;

/// What to do with a response.
#[derive(Debug, Clone, Copy, PartialEq, Eq, Structural)]
pub enum ResponseAction {
    /// Read the body as the record that was asked for.
    ReadPayload,
    /// Read the body as an `ApiError`, report it, and return nothing.
    ReadApiError,
    /// Report the `status` header of the response, and return nothing.
    ReportStatus,
}

/// What to do with a response of status `status` to a call that succeeds
/// with `success`: a success carries the record, a refused credential
/// carries an error record, and anything else is only reported.
pub open spec fn action_for(status: u16, success: u16) -> ResponseAction {
    if status == success {
        ResponseAction::ReadPayload
    } else if status == STATUS_UNAUTHORIZED {
        ResponseAction::ReadApiError
    } else {
        ResponseAction::ReportStatus
    }
}

/// Decides what to do with a response from its status.
pub fn classify_status(status: u16, success: u16) -> (a: ResponseAction)
    ensures
        a == action_for(status, success),
{
    if status == success {
        ResponseAction::ReadPayload
    } else if status == STATUS_UNAUTHORIZED {
        ResponseAction::ReadApiError
    } else {
        ResponseAction::ReportStatus
    }
}

/// What to do with the response to `get_app_request`, which succeeds with
/// `STATUS_OK`.
pub fn get_app_response(status: u16) -> (a: ResponseAction)
    ensures
        a == action_for(status, STATUS_OK),
{
    classify_status(status, STATUS_OK)
}

/// What to do with the response to `create_check_suite_request`, which
/// succeeds with `STATUS_OK`.
pub fn create_check_suite_response(status: u16) -> (a: ResponseAction)
    ensures
        a == action_for(status, STATUS_OK),
{
    classify_status(status, STATUS_OK)
}

/// What to do with the response to `create_check_run_request`, which
/// succeeds with `STATUS_CREATED`.
pub fn create_check_run_response(status: u16) -> (a: ResponseAction)
    ensures
        a == action_for(status, STATUS_CREATED),
{
    classify_status(status, STATUS_CREATED)
}

/// What to do with the response to `create_installation_token_request`,
/// which succeeds with `STATUS_CREATED`.
pub fn create_installation_token_response(status: u16) -> (a: ResponseAction)
    ensures
        a == action_for(status, STATUS_CREATED),
{
    classify_status(status, STATUS_CREATED)
}

} // verus!
