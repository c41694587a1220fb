//! The HTTP faces of RPC and of the case database: their requests, their
//! answers and the status each answer is sent with.
use crate::rpc::{kind_name, kind_of, RPCMethod, RPCSuccess};
use crate::text::{contains_str, owned, str_eq, str_views};
use vstd::prelude::*;

verus! {

/// An RPC identity: who it belongs to, how often it was used, how often it
/// may be, and the names of the methods it allows.
#[derive(Debug, Clone)]
pub struct KeychainData {
    pub user_id: String,
    pub used: u64,
    pub max_uses: u64,
    pub allowed_methods: Vec<String>,
}

/// A request to the RPC server.
#[derive(Debug, Clone)]
pub struct RPCRequest {
    pub user_id: String,
    pub method: RPCMethod,
    pub api_token: String,
    pub rpc_identity: String,
    pub protocol: u8,
}

/// A failed RPC request (`Failed` carries the error's text).
#[derive(Debug, Clone)]
pub enum RPCResponse {
    Failed(String),
    InvalidProtocol,
    InvalidIdentity,
    UsageQuoteExceeded,
    MethodNotAllowed,
    UserNotFound,
    StaffOnly,
}

/// The HTTP status a failed RPC request is answered with.
pub open spec fn rpc_response_status(r: RPCResponse) -> u16 {
    match r {
        RPCResponse::Failed(_) => 400,
        RPCResponse::InvalidProtocol => 412,
        RPCResponse::InvalidIdentity => 401,
        RPCResponse::UsageQuoteExceeded => 429,
        RPCResponse::MethodNotAllowed => 405,
        RPCResponse::UserNotFound => 404,
        RPCResponse::StaffOnly => 403,
    }
}

/// The text a failed RPC request is answered with.
pub open spec fn rpc_response_text(r: RPCResponse) -> Seq<char> {
    match r {
        RPCResponse::Failed(e) => e@,
        RPCResponse::InvalidProtocol => "Out of date client. Please use the bot until this is fixed"@,
        RPCResponse::InvalidIdentity => "Invalid RPC identity. Generate a new one?"@,
        RPCResponse::UsageQuoteExceeded => "Usage quotas exceeded for this RPC identity, generate another one?"@,
        RPCResponse::MethodNotAllowed => "Method not allowed for this RPC identity"@,
        RPCResponse::UserNotFound => "This user could not be found. Try logging out and logging in again?"@,
        RPCResponse::StaffOnly => "Staff-only endpoint"@,
    }
}

impl RPCResponse {
    /// The HTTP status the failure is answered with.
    pub fn status(&self) -> (r: u16)
        ensures
            r == rpc_response_status(*self),
    {
        match self {
            RPCResponse::Failed(_) => 400,
            RPCResponse::InvalidProtocol => 412,
            RPCResponse::InvalidIdentity => 401,
            RPCResponse::UsageQuoteExceeded => 429,
            RPCResponse::MethodNotAllowed => 405,
            RPCResponse::UserNotFound => 404,
            RPCResponse::StaffOnly => 403,
        }
    }

    /// The text the failure is answered with.
    pub fn message(&self) -> (r: String)
        ensures
            r@ == rpc_response_text(*self),
    {
        match self {
            RPCResponse::Failed(e) => owned(e.as_str()),
            RPCResponse::InvalidProtocol => owned("Out of date client. Please use the bot until this is fixed"),
            RPCResponse::InvalidIdentity => owned("Invalid RPC identity. Generate a new one?"),
            RPCResponse::UsageQuoteExceeded => owned("Usage quotas exceeded for this RPC identity, generate another one?"),
            RPCResponse::MethodNotAllowed => owned("Method not allowed for this RPC identity"),
            RPCResponse::UserNotFound => owned("This user could not be found. Try logging out and logging in again?"),
            RPCResponse::StaffOnly => owned("Staff-only endpoint"),
        }
    }
}

/// A successful RPC request: a text, or nothing.
#[derive(Debug, Clone)]
pub enum Success {
    Content(String),
    NoContent,
}

impl Success {
    /// The HTTP status the success is answered with: 200 with a text, 204
    /// without.
    pub fn status(&self) -> (r: u16)
        ensures
            *self is Content ==> r == 200,
            *self is NoContent ==> r == 204,
    {
        match self {
            Success::Content(_) => 200,
            Success::NoContent => 204,
        }
    }
}

/// How far the RPC server has come with a request.
#[derive(Debug, Clone, Copy, PartialEq, Eq, Structural)]
pub enum WebRpcStage {
    /// Nothing done yet.
    Start,
    /// Waiting for the keychain entry of the request's RPC identity.
    AwaitingKeychain,
    /// Waiting for the user's record.
    AwaitingUser,
    /// Waiting for the method's outcome.
    AwaitingMethod,
    /// The request is answered.
    Done,
}

/// What the last outside step answered.
#[derive(Debug)]
pub enum WebRpcEvent {
    /// The request arrives.
    Begin,
    /// The keychain entry of the RPC identity, if there is one.
    Keychain(Option<KeychainData>),
    /// Whether a user has the request's id and API token, and whether that
    /// user is staff.
    User { found: bool, staff: bool },
    /// The outcome of the method: its success, or the text of its error.
    MethodDone(Result<RPCSuccess, String>),
}

/// What to do next.
#[derive(Debug)]
pub enum WebRpcAction {
    /// Look up the keychain entry of the RPC identity.
    LookUpIdentity { identity: String },
    /// Store `used` as the identity's new count of uses, then look up the
    /// user with this id and API token.
    StoreUsesAndCheckUser { identity: String, used: u64, user_id: String, api_token: String },
    /// Run the request's method for the request's user.
    RunMethod { user_id: String },
    /// Answer the request.
    Answer(Result<Success, RPCResponse>),
}

/// The event that each waiting stage expects.
pub open spec fn web_event_fits(stage: WebRpcStage, event: WebRpcEvent) -> bool {
    match stage {
        WebRpcStage::Start => event is Begin,
        WebRpcStage::AwaitingKeychain => event is Keychain,
        WebRpcStage::AwaitingUser => event is User,
        WebRpcStage::AwaitingMethod => event is MethodDone,
        WebRpcStage::Done => false,
    }
}

/// The identity may be used for the request: it belongs to the request's
/// user, its uses are within its quota, and it allows the method.
pub open spec fn keychain_admits(req: RPCRequest, k: KeychainData) -> bool {
    &&& k.user_id@ == req.user_id@
    &&& k.used <= k.max_uses
    &&& str_views(k.allowed_methods@).contains(kind_name(kind_of(req.method)))
}

/// The answer to a method's outcome: its text with 200, nothing with 204,
/// or its error's text with 400.
pub fn method_answer(outcome: Result<RPCSuccess, String>) -> (r: Result<Success, RPCResponse>)
    ensures
        outcome matches Ok(RPCSuccess::Content(c)) ==> (r matches Ok(Success::Content(d))
            && d@ == c@),
        outcome matches Ok(RPCSuccess::NoContent) ==> (r matches Ok(Success::NoContent)),
        outcome matches Err(e) ==> (r matches Err(RPCResponse::Failed(f)) && f@ == e@),
{
    match outcome {
        Ok(RPCSuccess::Content(c)) => Ok(Success::Content(c)),
        Ok(RPCSuccess::NoContent) => Ok(Success::NoContent),
        Err(e) => Err(RPCResponse::Failed(e)),
    }
}

/// One step of the RPC server on the request `req`: the RPC identity is
/// checked (it must exist, belong to the user, be within its quota and allow
/// the method), its count of uses goes up by one, the user must exist with
/// this API token and be staff, and only then does the method run; its
/// outcome is the answer.
pub fn web_rpc(req: &RPCRequest, stage: WebRpcStage, event: WebRpcEvent) -> (r: (
    WebRpcStage,
    WebRpcAction,
))
    requires
        web_event_fits(stage, event),
        event matches WebRpcEvent::Keychain(Some(k)) ==> k.used < u64::MAX,
    ensures
        event is Begin ==> r.0 == WebRpcStage::AwaitingKeychain && (r.1 matches WebRpcAction::LookUpIdentity {
            identity,
        } && identity@ == req.rpc_identity@),
        event matches WebRpcEvent::Keychain(None) ==> r.0 == WebRpcStage::Done && (r.1 matches WebRpcAction::Answer(
            Err(RPCResponse::InvalidIdentity),
        )),
        event matches WebRpcEvent::Keychain(Some(k)) ==> {
            &&& k.user_id@ != req.user_id@ ==> r.0 == WebRpcStage::Done && (r.1 matches WebRpcAction::Answer(
                Err(RPCResponse::InvalidIdentity),
            ))
            &&& k.user_id@ == req.user_id@ && k.used > k.max_uses ==> r.0 == WebRpcStage::Done && (r.1 matches WebRpcAction::Answer(
                Err(RPCResponse::UsageQuoteExceeded),
            ))
            &&& k.user_id@ == req.user_id@ && k.used <= k.max_uses && !str_views(
                k.allowed_methods@,
            ).contains(kind_name(kind_of(req.method))) ==> r.0 == WebRpcStage::Done && (r.1 matches WebRpcAction::Answer(
                Err(RPCResponse::MethodNotAllowed),
            ))
            &&& keychain_admits(*req, k) ==> r.0 == WebRpcStage::AwaitingUser && (r.1 matches WebRpcAction::StoreUsesAndCheckUser {
                identity,
                used,
                user_id,
                api_token,
            } && identity@ == req.rpc_identity@ && used == k.used + 1 && user_id@ == req.user_id@
                && api_token@ == req.api_token@)
        },
        event matches WebRpcEvent::User { found, staff } ==> {
            &&& !found ==> r.0 == WebRpcStage::Done && (r.1 matches WebRpcAction::Answer(
                Err(RPCResponse::UserNotFound),
            ))
            &&& found && !staff ==> r.0 == WebRpcStage::Done && (r.1 matches WebRpcAction::Answer(
                Err(RPCResponse::StaffOnly),
            ))
            &&& found && staff ==> r.0 == WebRpcStage::AwaitingMethod && (r.1 matches WebRpcAction::RunMethod {
                user_id,
            } && user_id@ == req.user_id@)
        },
        event matches WebRpcEvent::MethodDone(outcome) ==> r.0 == WebRpcStage::Done && {
            &&& outcome matches Ok(RPCSuccess::Content(c)) ==> (r.1 matches WebRpcAction::Answer(
                Ok(Success::Content(d)),
            ) && d@ == c@)
            &&& outcome matches Ok(RPCSuccess::NoContent) ==> (r.1 matches WebRpcAction::Answer(
                Ok(Success::NoContent),
            ))
            &&& outcome matches Err(e) ==> (r.1 matches WebRpcAction::Answer(
                Err(RPCResponse::Failed(f)),
            ) && f@ == e@)
        },
{
    match event {
        WebRpcEvent::Begin => (
            WebRpcStage::AwaitingKeychain,
            WebRpcAction::LookUpIdentity { identity: owned(req.rpc_identity.as_str()) },
        ),
        WebRpcEvent::Keychain(None) => (
            WebRpcStage::Done,
            WebRpcAction::Answer(Err(RPCResponse::InvalidIdentity)),
        ),
        WebRpcEvent::Keychain(Some(k)) => {
            if !str_eq(k.user_id.as_str(), req.user_id.as_str()) {
                return (WebRpcStage::Done, WebRpcAction::Answer(Err(RPCResponse::InvalidIdentity)));
            }
            if k.used > k.max_uses {
                return (
                    WebRpcStage::Done,
                    WebRpcAction::Answer(Err(RPCResponse::UsageQuoteExceeded)),
                );
            }
            let name = req.method.name();
            if !contains_str(&k.allowed_methods, name.as_str()) {
                return (WebRpcStage::Done, WebRpcAction::Answer(Err(RPCResponse::MethodNotAllowed)));
            }
            (
                WebRpcStage::AwaitingUser,
                WebRpcAction::StoreUsesAndCheckUser {
                    identity: owned(req.rpc_identity.as_str()),
                    used: k.used + 1,
                    user_id: owned(req.user_id.as_str()),
                    api_token: owned(req.api_token.as_str()),
                },
            )
        },
        WebRpcEvent::User { found, staff } => {
            if !found {
                (WebRpcStage::Done, WebRpcAction::Answer(Err(RPCResponse::UserNotFound)))
            } else if !staff {
                (WebRpcStage::Done, WebRpcAction::Answer(Err(RPCResponse::StaffOnly)))
            } else {
                (WebRpcStage::AwaitingMethod, WebRpcAction::RunMethod { user_id: owned(req.user_id.as_str()) })
            }
        },
        WebRpcEvent::MethodDone(outcome) => (WebRpcStage::Done, WebRpcAction::Answer(method_answer(outcome))),
    }
}

/// The credentials of a request to the case database.
#[derive(Debug, Clone)]
pub struct AuthPayload {
    pub user_id: String,
    pub token: String,
}

impl AuthPayload {
    /// The outcome of checking the credentials: `found` is whether a user has
    /// this id and API token, and `staff` whether that user is staff.
    pub fn authorize(&self, found: bool, staff: bool) -> (r: Result<(), String>)
        ensures
            r is Ok <==> (found && staff),
            !found ==> r is Err && r->Err_0@ == "User not found"@,
            found && !staff ==> r is Err && r->Err_0@ == "User is not staff"@,
    {
        if !found {
            return Err(owned("User not found"));
        }
        if !staff {
            return Err(owned("User is not staff"));
        }
        Ok(())
    }
}

/// What the case database can be asked.
#[derive(Debug, Clone)]
pub enum QueryInner {
    /// Answers with the text it was given
    Test { echo: String },
    /// The cases of a user
    InternalCasesFilterByUserId { user_id: String },
}

/// A request to the case database.
#[derive(Debug, Clone)]
pub struct AshfurQuery {
    pub auth: AuthPayload,
    pub query: QueryInner,
}

/// An answer of the case database.
#[derive(Debug, Clone)]
pub enum AshfurResponse {
    Content(String),
    NoContent,
}

impl AshfurResponse {
    /// The HTTP status the answer is sent with: 200 with a text, 204 without.
    pub fn status(&self) -> (r: u16)
        ensures
            *self is Content ==> r == 200,
            *self is NoContent ==> r == 204,
    {
        match self {
            AshfurResponse::Content(_) => 200,
            AshfurResponse::NoContent => 204,
        }
    }
}

/// The answer to the test query: the text it was given.
pub fn echo(text: &str) -> (r: AshfurResponse)
    ensures
        r matches AshfurResponse::Content(c) && c@ == text@,
{
    AshfurResponse::Content(owned(text))
}

} // verus!
