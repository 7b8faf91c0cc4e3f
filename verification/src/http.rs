//! Response classification: an HTTP status code and a (possibly JSON) body
//! become exactly one typed outcome — the created resource, or one of the
//! classified error kinds.

use vstd::prelude::*;
use vstd::string::StringExecFns;

use crate::gitlab::CreatedBranchResponse;
use crate::gitlab::CreatedBranchView;
use crate::gitlab::CreatedMergeRequestResponse;
use crate::gitlab::CreatedMergeRequestView;

verus! {

/// The message reported when the token was rejected outright.
pub const INVALID_TOKEN_MESSAGE: &'static str = "An invalid token has been provided";

/// The message reported when the token lacks the needed permissions.
pub const FORBIDDEN_MESSAGE: &'static str =
    "You are not allowed to perform this operation, please check your API permissions";

/// The message reported when the addressed project or branch does not exist.
pub const NOT_FOUND_MESSAGE: &'static str = "Make sure the provided values exist";

/// The start of the message reported for any unmapped status; the resource's
/// name completes it.
pub const UNEXPECTED_MESSAGE_PREFIX: &'static str = "An error has ocurred while creating your new ";

/// The message reported when a success body could not be decoded.
pub const DECODE_FAILURE_MESSAGE: &'static str = "The response body could not be decoded";

/// Which of the two resources a call was creating.
#[derive(Debug, Clone, Copy, PartialEq, Eq, Structural)]
pub enum Resource {
    Branch,
    MergeRequest,
}

impl Resource {
    /// The resource's name as it reads in messages.
    pub open spec fn spec_label(self) -> Seq<char> {
        match self {
            Resource::Branch => "branch"@,
            Resource::MergeRequest => "merge request"@,
        }
    }

    /// The resource's name as it reads in messages.
    pub fn label(&self) -> (r: String)
        ensures
            r@ == self.spec_label(),
    {
        match self {
            Resource::Branch => String::from_str("branch"),
            Resource::MergeRequest => String::from_str("merge request"),
        }
    }
}

/// The classified failure: which kind of error the response meant, each
/// carrying the human message that goes with it, if one does.
#[derive(Debug, PartialEq, Eq)]
pub enum ApiErrorKind {
    Authentication(Option<String>),
    NotFound(Option<String>),
    Validation(Option<String>),
    ServerError(Option<String>),
    Unexpected(Option<String>),
}

/// The mathematical value of a classified failure.
pub enum ApiErrorKindView {
    Authentication(Option<Seq<char>>),
    NotFound(Option<Seq<char>>),
    Validation(Option<Seq<char>>),
    ServerError(Option<Seq<char>>),
    Unexpected(Option<Seq<char>>),
}

/// The mathematical value of an optional message.
pub open spec fn opt_string_view(m: Option<String>) -> Option<Seq<char>> {
    match m {
        Some(s) => Some(s@),
        None => None,
    }
}

impl View for ApiErrorKind {
    type V = ApiErrorKindView;

    open spec fn view(&self) -> ApiErrorKindView {
        match self {
            ApiErrorKind::Authentication(m) => ApiErrorKindView::Authentication(
                opt_string_view(*m),
            ),
            ApiErrorKind::NotFound(m) => ApiErrorKindView::NotFound(opt_string_view(*m)),
            ApiErrorKind::Validation(m) => ApiErrorKindView::Validation(opt_string_view(*m)),
            ApiErrorKind::ServerError(m) => ApiErrorKindView::ServerError(opt_string_view(*m)),
            ApiErrorKind::Unexpected(m) => ApiErrorKindView::Unexpected(opt_string_view(*m)),
        }
    }
}

/// How handling a response can fail: the remote reported an error, or a
/// success body did not decode.
#[derive(Debug, PartialEq, Eq)]
pub enum ResponseHandlerError {
    NotOk(ApiErrorKind),
    JSONDeserialization,
}

/// The mathematical value of a handling failure.
pub enum ResponseHandlerErrorView {
    NotOk(ApiErrorKindView),
    JSONDeserialization,
}

impl View for ResponseHandlerError {
    type V = ResponseHandlerErrorView;

    open spec fn view(&self) -> ResponseHandlerErrorView {
        match self {
            ResponseHandlerError::NotOk(k) => ResponseHandlerErrorView::NotOk(k@),
            ResponseHandlerError::JSONDeserialization => {
                ResponseHandlerErrorView::JSONDeserialization
            },
        }
    }
}

/// The success payload of one call: which resource was created, with its
/// fields.
#[derive(Debug, PartialEq, Eq)]
pub enum CreatedResource {
    Branch(CreatedBranchResponse),
    MergeRequest(CreatedMergeRequestResponse),
}

/// The mathematical value of a success payload.
pub enum CreatedResourceView {
    Branch(CreatedBranchView),
    MergeRequest(CreatedMergeRequestView),
}

impl View for CreatedResource {
    type V = CreatedResourceView;

    open spec fn view(&self) -> CreatedResourceView {
        match self {
            CreatedResource::Branch(b) => CreatedResourceView::Branch(b@),
            CreatedResource::MergeRequest(m) => CreatedResourceView::MergeRequest(m@),
        }
    }
}

/// The string at a top-level key of a JSON document, as the JSON library reads
/// it: nothing when the document does not parse, is no object, lacks the key,
/// or holds something other than a string there.
pub uninterp spec fn json_string_field(body: Seq<char>, key: Seq<char>) -> Option<Seq<char>>;

/// Relies on serde_json::from_str, Value::get and Value::as_str: the string at
/// a top-level key of a JSON document, a function of document and key alone.
#[verifier::external_body]
fn get_json_string_field(body: &str, key: &str) -> (r: Option<String>)
    ensures
        opt_string_view(r) == json_string_field(body@, key@),
{
    match serde_json::from_str::<serde_json::Value>(body) {
        Ok(value) => value.get(key).and_then(|v| v.as_str()).map(|s| s.to_string()),
        Err(_) => None,
    }
}

/// The message reported for a status outside the mapped set.
pub open spec fn spec_unexpected_message(resource: Resource) -> Seq<char> {
    UNEXPECTED_MESSAGE_PREFIX@ + resource.spec_label()
}

/// Writes out the message for a status outside the mapped set.
pub fn unexpected_message(resource: &Resource) -> (r: String)
    ensures
        r@ == spec_unexpected_message(*resource),
{
    let mut s = String::from_str(UNEXPECTED_MESSAGE_PREFIX);
    let label = resource.label();
    s.append(label.as_str());
    s
}

/// How a response is classified. The status code alone picks the outcome
/// kind; the body supplies the success payload, or the validation message.
/// Total: every status yields exactly one outcome, never a payload and an
/// error at once.
pub open spec fn classify_response(status: u16, body: Seq<char>, resource: Resource) -> Result<
    CreatedResourceView,
    ResponseHandlerErrorView,
> {
    if status == 200 || status == 201 {
        match resource {
            Resource::Branch => match json_string_field(body, "name"@) {
                Some(name) => match json_string_field(body, "web_url"@) {
                    Some(web_url) => Ok(
                        CreatedResourceView::Branch(CreatedBranchView { name, web_url }),
                    ),
                    None => Err(ResponseHandlerErrorView::JSONDeserialization),
                },
                None => Err(ResponseHandlerErrorView::JSONDeserialization),
            },
            Resource::MergeRequest => match json_string_field(body, "source_branch"@) {
                Some(source_branch) => match json_string_field(body, "target_branch"@) {
                    Some(target_branch) => match json_string_field(body, "web_url"@) {
                        Some(web_url) => Ok(
                            CreatedResourceView::MergeRequest(
                                CreatedMergeRequestView { source_branch, target_branch, web_url },
                            ),
                        ),
                        None => Err(ResponseHandlerErrorView::JSONDeserialization),
                    },
                    None => Err(ResponseHandlerErrorView::JSONDeserialization),
                },
                None => Err(ResponseHandlerErrorView::JSONDeserialization),
            },
        }
    } else if status == 400 {
        Err(
            ResponseHandlerErrorView::NotOk(
                ApiErrorKindView::Validation(json_string_field(body, "message"@)),
            ),
        )
    } else if status == 401 {
        Err(
            ResponseHandlerErrorView::NotOk(
                ApiErrorKindView::Authentication(Some(INVALID_TOKEN_MESSAGE@)),
            ),
        )
    } else if status == 403 {
        Err(
            ResponseHandlerErrorView::NotOk(
                ApiErrorKindView::Authentication(Some(FORBIDDEN_MESSAGE@)),
            ),
        )
    } else if status == 404 {
        Err(ResponseHandlerErrorView::NotOk(ApiErrorKindView::NotFound(Some(NOT_FOUND_MESSAGE@))))
    } else if status == 500 {
        Err(ResponseHandlerErrorView::NotOk(ApiErrorKindView::ServerError(None)))
    } else {
        Err(
            ResponseHandlerErrorView::NotOk(
                ApiErrorKindView::Unexpected(Some(spec_unexpected_message(resource))),
            ),
        )
    }
}

/// The mathematical value of a handled response.
pub open spec fn response_result_view(r: Result<CreatedResource, ResponseHandlerError>) -> Result<
    CreatedResourceView,
    ResponseHandlerErrorView,
> {
    match r {
        Ok(c) => Ok(c@),
        Err(e) => Err(e@),
    }
}

/// Classifies one HTTP response. The status code and body become either the
/// created resource or the classified error, exactly as `classify_response`
/// says.
pub fn handle_response(status: u16, body: &str, resource: Resource) -> (r: Result<
    CreatedResource,
    ResponseHandlerError,
>)
    ensures
        response_result_view(r) == classify_response(status, body@, resource),
{
    if status == 200 || status == 201 {
        match resource {
            Resource::Branch => {
                let name = get_json_string_field(body, "name");
                let web_url = get_json_string_field(body, "web_url");
                match (name, web_url) {
                    (Some(name), Some(web_url)) => Ok(
                        CreatedResource::Branch(CreatedBranchResponse { name, web_url }),
                    ),
                    _ => Err(ResponseHandlerError::JSONDeserialization),
                }
            },
            Resource::MergeRequest => {
                let source_branch = get_json_string_field(body, "source_branch");
                let target_branch = get_json_string_field(body, "target_branch");
                let web_url = get_json_string_field(body, "web_url");
                match (source_branch, target_branch, web_url) {
                    (Some(source_branch), Some(target_branch), Some(web_url)) => Ok(
                        CreatedResource::MergeRequest(
                            CreatedMergeRequestResponse { source_branch, target_branch, web_url },
                        ),
                    ),
                    _ => Err(ResponseHandlerError::JSONDeserialization),
                }
            },
        }
    } else if status == 400 {
        let message = get_json_string_field(body, "message");
        Err(ResponseHandlerError::NotOk(ApiErrorKind::Validation(message)))
    } else if status == 401 {
        Err(
            ResponseHandlerError::NotOk(
                ApiErrorKind::Authentication(Some(String::from_str(INVALID_TOKEN_MESSAGE))),
            ),
        )
    } else if status == 403 {
        Err(
            ResponseHandlerError::NotOk(
                ApiErrorKind::Authentication(Some(String::from_str(FORBIDDEN_MESSAGE))),
            ),
        )
    } else if status == 404 {
        Err(
            ResponseHandlerError::NotOk(
                ApiErrorKind::NotFound(Some(String::from_str(NOT_FOUND_MESSAGE))),
            ),
        )
    } else if status == 500 {
        Err(ResponseHandlerError::NotOk(ApiErrorKind::ServerError(None)))
    } else {
        Err(ResponseHandlerError::NotOk(ApiErrorKind::Unexpected(Some(unexpected_message(&resource)))))
    }
}

/// For the statuses 401, 403, 404 and 500 the classified outcome is one fixed
/// error kind per status; the body plays no part in it.
pub proof fn lemma_error_kind_fixed(
    status: u16,
    body_a: Seq<char>,
    body_b: Seq<char>,
    resource: Resource,
)
    requires
        status == 401 || status == 403 || status == 404 || status == 500,
    ensures
        classify_response(status, body_a, resource) == classify_response(status, body_b, resource),
        status == 401 ==> classify_response(status, body_a, resource) == Err::<
            CreatedResourceView,
            _,
        >(
            ResponseHandlerErrorView::NotOk(
                ApiErrorKindView::Authentication(Some(INVALID_TOKEN_MESSAGE@)),
            ),
        ),
        status == 403 ==> classify_response(status, body_a, resource) == Err::<
            CreatedResourceView,
            _,
        >(
            ResponseHandlerErrorView::NotOk(
                ApiErrorKindView::Authentication(Some(FORBIDDEN_MESSAGE@)),
            ),
        ),
        status == 404 ==> classify_response(status, body_a, resource) == Err::<
            CreatedResourceView,
            _,
        >(ResponseHandlerErrorView::NotOk(ApiErrorKindView::NotFound(Some(NOT_FOUND_MESSAGE@)))),
        status == 500 ==> classify_response(status, body_a, resource) == Err::<
            CreatedResourceView,
            _,
        >(ResponseHandlerErrorView::NotOk(ApiErrorKindView::ServerError(None))),
{
}

/// A validation failure surfaces whatever message the body carries, verbatim;
/// a body without one leaves the error without a message.
pub proof fn lemma_validation_message_verbatim(body: Seq<char>, resource: Resource)
    ensures
        classify_response(400, body, resource) == Err::<CreatedResourceView, _>(
            ResponseHandlerErrorView::NotOk(
                ApiErrorKindView::Validation(json_string_field(body, "message"@)),
            ),
        ),
{
}

/// On a success status the payload's fields are the input document's fields,
/// unchanged: what the remote sent is what comes back.
pub proof fn lemma_success_round_trip(status: u16, body: Seq<char>)
    requires
        status == 200 || status == 201,
    ensures
        json_string_field(body, "name"@) is Some && json_string_field(body, "web_url"@) is Some
            ==> classify_response(status, body, Resource::Branch) == Ok::<
            _,
            ResponseHandlerErrorView,
        >(
            CreatedResourceView::Branch(
                (CreatedBranchView {
                    name: json_string_field(body, "name"@)->0,
                    web_url: json_string_field(body, "web_url"@)->0,
                }),
            ),
        ),
        json_string_field(body, "source_branch"@) is Some && json_string_field(
            body,
            "target_branch"@,
        ) is Some && json_string_field(body, "web_url"@) is Some ==> classify_response(
            status,
            body,
            Resource::MergeRequest,
        ) == Ok::<_, ResponseHandlerErrorView>(
            CreatedResourceView::MergeRequest(
                (CreatedMergeRequestView {
                    source_branch: json_string_field(body, "source_branch"@)->0,
                    target_branch: json_string_field(body, "target_branch"@)->0,
                    web_url: json_string_field(body, "web_url"@)->0,
                }),
            ),
        ),
{
}

/// Success is owed exactly on the two success statuses whose body carries the
/// expected fields; every other response classifies as an error.
pub proof fn lemma_success_iff(status: u16, body: Seq<char>, resource: Resource)
    ensures
        classify_response(status, body, resource) is Ok <==> (status == 200 || status == 201)
            && match resource {
            Resource::Branch => json_string_field(body, "name"@) is Some && json_string_field(
                body,
                "web_url"@,
            ) is Some,
            Resource::MergeRequest => json_string_field(body, "source_branch"@) is Some
                && json_string_field(body, "target_branch"@) is Some && json_string_field(
                body,
                "web_url"@,
            ) is Some,
        },
{
}

impl From<ApiErrorKind> for ResponseHandlerError {
    /// Wraps a classified kind as the handler's error.
    fn from(kind: ApiErrorKind) -> (r: Self) {
        ResponseHandlerError::NotOk(kind)
    }
}

impl vstd::std_specs::convert::FromSpecImpl<ApiErrorKind> for ResponseHandlerError {
    open spec fn obeys_from_spec() -> bool {
        true
    }

    open spec fn from_spec(kind: ApiErrorKind) -> Self {
        ResponseHandlerError::NotOk(kind)
    }
}

impl ApiErrorKind {
    /// The message the kind carries, if any.
    pub open spec fn spec_message(self) -> Option<Seq<char>> {
        match self {
            ApiErrorKind::Authentication(m) => opt_string_view(m),
            ApiErrorKind::NotFound(m) => opt_string_view(m),
            ApiErrorKind::Validation(m) => opt_string_view(m),
            ApiErrorKind::ServerError(m) => opt_string_view(m),
            ApiErrorKind::Unexpected(m) => opt_string_view(m),
        }
    }

    /// Hands out a copy of the carried message.
    pub fn message(&self) -> (r: Option<String>)
        ensures
            opt_string_view(r) == self.spec_message(),
    {
        match self {
            ApiErrorKind::Authentication(m) => clone_message(m),
            ApiErrorKind::NotFound(m) => clone_message(m),
            ApiErrorKind::Validation(m) => clone_message(m),
            ApiErrorKind::ServerError(m) => clone_message(m),
            ApiErrorKind::Unexpected(m) => clone_message(m),
        }
    }
}

fn clone_message(m: &Option<String>) -> (r: Option<String>)
    ensures
        opt_string_view(r) == opt_string_view(*m),
{
    match m {
        Some(s) => Some(s.clone()),
        None => None,
    }
}

impl ResponseHandlerError {
    /// The line a report of the failure shows.
    pub open spec fn spec_message(self) -> Seq<char> {
        match self {
            ResponseHandlerError::NotOk(k) => match k.spec_message() {
                Some(m) => m,
                None => Seq::empty(),
            },
            ResponseHandlerError::JSONDeserialization => DECODE_FAILURE_MESSAGE@,
        }
    }

    /// Writes out the line a report of the failure shows.
    pub fn message(&self) -> (r: String)
        ensures
            r@ == self.spec_message(),
    {
        match self {
            ResponseHandlerError::NotOk(k) => match k.message() {
                Some(m) => m,
                None => String::new(),
            },
            ResponseHandlerError::JSONDeserialization => String::from_str(DECODE_FAILURE_MESSAGE),
        }
    }
}

} // verus!
