//! Panel sessions: logging in through Discord, the session's `pending` and
//! `active` states, multi-factor checks, login tokens, and the greeting the
//! panel gets once it is logged in.
use crate::config::{Config, PanelConfig};
use crate::panel::{refused_with, Refusal, BAD_REQUEST, FORBIDDEN};
use crate::text::{concat, contains_str, decimal, decimal_spec, owned, str_eq, str_views};
use vstd::prelude::*;

verus! {

/// HTTP status of a failure the panel reports as an internal error.
pub const INTERNAL_ERROR: u16 = 500;

/// The version of the login protocol the panel must speak.
pub const AUTH_VERSION: u16 = 5;

/// The version of the greeting protocol the panel must speak.
pub const HELLO_VERSION: u16 = 5;

/// What the panel needs to begin a login.
#[derive(Debug, Clone)]
pub struct StartAuth {
    /// The URL to redirect to
    pub login_url: String,
    /// The request scope
    pub scope: String,
    /// Response Scope is just a key to allow for the frontend to verify the backend as compatible
    pub response_scope: String,
}

/// A session as the panel sees it.
#[derive(Debug, Clone)]
pub struct AuthData {
    pub user_id: String,
    pub created_at: i64,
    pub state: String,
}

/// The secret a member scans to set up multi-factor login.
#[derive(Debug, Clone)]
pub struct MfaLoginSecret {
    pub secret: String,
    pub otp_url: String,
    pub qr_code: String,
}

/// Multi-factor login data: the secret to set up, when one is needed.
#[derive(Debug, Clone)]
pub struct MfaLogin {
    pub info: Option<MfaLoginSecret>,
}

/// Checks the version of the login protocol.
pub fn check_auth_version(version: u16) -> (r: Result<(), Refusal>)
    ensures
        r is Ok <==> version == AUTH_VERSION,
        version != AUTH_VERSION ==> refused_with(r, BAD_REQUEST, "Invalid version"@),
{
    if version != AUTH_VERSION {
        return Err(Refusal::bad_request("Invalid version"));
    }
    Ok(())
}

/// Checks the version of the greeting protocol.
pub fn check_hello_version(version: u16) -> (r: Result<(), Refusal>)
    ensures
        r is Ok <==> version == HELLO_VERSION,
        version != HELLO_VERSION ==> refused_with(r, BAD_REQUEST, "Invalid version"@),
{
    if version != HELLO_VERSION {
        return Err(Refusal::bad_request("Invalid version"));
    }
    Ok(())
}

/// The Discord login URL for a panel application and a redirect URL.
pub open spec fn login_url_spec(client_id: Seq<char>, redirect_url: Seq<char>) -> Seq<char> {
    "https://discord.com/api/oauth2/authorize?client_id="@ + client_id + "&redirect_uri="@
        + redirect_url + "&response_type=code&scope=identify"@
}

/// Begins a login: the scope must be the panel's, and the answer holds the
/// Discord login URL and the two scopes.
pub fn begin_login(panel: &PanelConfig, scope: &str, redirect_url: &str) -> (r: Result<
    StartAuth,
    Refusal,
>)
    ensures
        r is Ok <==> scope@ == panel.panel_scope@,
        scope@ != panel.panel_scope@ ==> refused_with(r, BAD_REQUEST, "Invalid scope"@),
        r matches Ok(s) ==> s.login_url@ == login_url_spec(panel.client_id@, redirect_url@)
            && s.scope@ == panel.panel_scope@ && s.response_scope@ == panel.panel_response_scope@,
{
    if !str_eq(scope, panel.panel_scope.as_str()) {
        return Err(Refusal::bad_request("Invalid scope"));
    }
    let a = concat("https://discord.com/api/oauth2/authorize?client_id=", panel.client_id.as_str());
    let b = concat(a.as_str(), "&redirect_uri=");
    let c = concat(b.as_str(), redirect_url);
    let login_url = concat(c.as_str(), "&response_type=code&scope=identify");
    Ok(
        StartAuth {
            login_url,
            scope: owned(panel.panel_scope.as_str()),
            response_scope: owned(panel.panel_response_scope.as_str()),
        },
    )
}

/// Checks that a redirect URL is one the panel allows.
pub fn check_redirect_url(panel: &PanelConfig, redirect_url: &str) -> (r: Result<(), Refusal>)
    ensures
        r is Ok <==> str_views(panel.redirect_url@).contains(redirect_url@),
        !str_views(panel.redirect_url@).contains(redirect_url@) ==> refused_with(
            r,
            BAD_REQUEST,
            "Invalid redirect url"@,
        ),
{
    if !contains_str(&panel.redirect_url, redirect_url) {
        return Err(Refusal::bad_request("Invalid redirect url"));
    }
    Ok(())
}

/// Checks that a user logging in is staff: `positions` is the number of
/// positions of their staff record, `None` when they have none.
pub fn check_staff_login(positions: Option<usize>) -> (r: Result<(), Refusal>)
    ensures
        r is Ok <==> (positions matches Some(n) && n > 0),
        positions is None ==> refused_with(r, FORBIDDEN, "You are not a staff member [not in db]"@),
        positions == Some(0usize) ==> refused_with(
            r,
            FORBIDDEN,
            "You are not a staff member [no positions]"@,
        ),
{
    match positions {
        None => Err(Refusal::forbidden("You are not a staff member [not in db]")),
        Some(n) => {
            if n == 0 {
                Err(Refusal::forbidden("You are not a staff member [no positions]"))
            } else {
                Ok(())
            }
        },
    }
}

/// Checks a login token without asking for an active session: `sessions` is
/// the number of live sessions with the token, and `positions` the number of
/// positions of the session's user (`None` without a staff record).
pub fn check_identity(sessions: i64, positions: Option<usize>) -> (r: Result<(), Refusal>)
    ensures
        r is Ok <==> (sessions != 0 && (positions matches Some(n) && n > 0)),
        !(r is Ok) ==> refused_with(r, INTERNAL_ERROR, "identityExpired"@),
{
    if sessions == 0 {
        return Err(Refusal::new(INTERNAL_ERROR, owned("identityExpired")));
    }
    match positions {
        Some(n) => {
            if n == 0 {
                Err(Refusal::new(INTERNAL_ERROR, owned("identityExpired")))
            } else {
                Ok(())
            }
        },
        None => Err(Refusal::new(INTERNAL_ERROR, owned("identityExpired"))),
    }
}

/// Checks that a session is active, as every panel action but the login
/// steps requires.
pub fn check_active(state: &str) -> (r: Result<(), Refusal>)
    ensures
        r is Ok <==> state@ == "active"@,
        state@ != "active"@ ==> refused_with(r, INTERNAL_ERROR, "sessionNotActive"@),
{
    if !str_eq(state, "active") {
        return Err(Refusal::new(INTERNAL_ERROR, owned("sessionNotActive")));
    }
    Ok(())
}

/// Checks that a session may ask for its multi-factor state: it is pending
/// or active.
pub fn check_mfa_state_session(state: &str) -> (r: Result<(), Refusal>)
    ensures
        r is Ok <==> (state@ == "pending"@ || state@ == "active"@),
        !(state@ == "pending"@ || state@ == "active"@) ==> refused_with(
            r,
            BAD_REQUEST,
            "This endpoint can only be used by pending and active sessions"@,
        ),
{
    if !str_eq(state, "pending") && !str_eq(state, "active") {
        return Err(Refusal::bad_request(
            "This endpoint can only be used by pending and active sessions",
        ));
    }
    Ok(())
}

/// Checks that the session's user has a staff record, for the multi-factor
/// state.
pub fn check_mfa_member(has_record: bool) -> (r: Result<(), Refusal>)
    ensures
        r is Ok <==> has_record,
        !has_record ==> refused_with(r, BAD_REQUEST, "You are not a staff member"@),
{
    if !has_record {
        return Err(Refusal::bad_request("You are not a staff member"));
    }
    Ok(())
}

/// Whether a member must (again) set up multi-factor login: they have no
/// secret, or never confirmed the one they have.
pub fn mfa_setup_needed(has_secret: bool, verified: bool) -> (r: bool)
    ensures
        r == (!has_secret || !verified),
{
    !has_secret || !verified
}

/// Checks that a session to be activated is still pending.
pub fn check_pending(state: &str) -> (r: Result<(), Refusal>)
    ensures
        r is Ok <==> state@ == "pending"@,
        state@ != "pending"@ ==> refused_with(r, BAD_REQUEST, "sessionAlreadyActive"@),
{
    if !str_eq(state, "pending") {
        return Err(Refusal::bad_request("sessionAlreadyActive"));
    }
    Ok(())
}

/// Checks that the member has a multi-factor secret.
pub fn check_mfa_secret(has_secret: bool) -> (r: Result<(), Refusal>)
    ensures
        r is Ok <==> has_secret,
        !has_secret ==> refused_with(r, BAD_REQUEST, "mfaNotSetup"@),
{
    if !has_secret {
        return Err(Refusal::bad_request("mfaNotSetup"));
    }
    Ok(())
}

/// Checks the one-time password given to reset multi-factor login.
pub fn check_reset_otp(valid: bool) -> (r: Result<(), Refusal>)
    ensures
        r is Ok <==> valid,
        !valid ==> refused_with(r, BAD_REQUEST, "Invalid OTP Entered"@),
{
    if !valid {
        return Err(Refusal::bad_request("Invalid OTP Entered"));
    }
    Ok(())
}

/// Checks the one-time password given to activate a session.
pub fn check_activation_otp(valid: bool) -> (r: Result<(), Refusal>)
    ensures
        r is Ok <==> valid,
        !valid ==> refused_with(r, BAD_REQUEST, "Invalid OTP entered"@),
{
    if !valid {
        return Err(Refusal::bad_request("Invalid OTP entered"));
    }
    Ok(())
}

/// No session is both usable for panel actions and open to activation: a
/// session is activated at most once, and only before it is used.
pub proof fn law_activation_needs_an_inactive_session(state: Seq<char>)
    ensures
        !(state == "active"@ && state == "pending"@),
{
    reveal_strlit("active");
    reveal_strlit("pending");
    assert("active"@[0] != "pending"@[0]);
}

/// Whether a character is an ASCII letter or digit.
pub open spec fn is_alphanumeric(c: char) -> bool {
    ('A' <= c && c <= 'Z') || ('a' <= c && c <= 'z') || ('0' <= c && c <= '9')
}

/// `rand`'s `Alphanumeric` distribution, sampled once from the thread's
/// generator: an ASCII letter or digit, at random.
#[verifier::external_body]
fn random_alphanumeric() -> (c: char)
    ensures
        is_alphanumeric(c),
{
    char::from(rand::Rng::sample(&mut rand::thread_rng(), rand::distributions::Alphanumeric))
}

/// `rand`'s `Rng::gen_range` on `low..high`, from the thread's generator: a
/// number at random in that range.
#[verifier::external_body]
fn random_in_range(low: usize, high: usize) -> (r: usize)
    requires
        low < high,
    ensures
        low <= r < high,
{
    rand::Rng::gen_range(&mut rand::thread_rng(), low..high)
}

/// A random string of `length` ASCII letters and digits.
pub fn gen_random(length: usize) -> (r: String)
    ensures
        r@.len() == length,
        forall|i: int| 0 <= i < r@.len() ==> is_alphanumeric(#[trigger] r@[i]),
{
    let mut s = String::new();
    let mut i: usize = 0;
    while i < length
        invariant
            i <= length,
            s@.len() == i,
            forall|j: int| 0 <= j < s@.len() ==> is_alphanumeric(#[trigger] s@[j]),
        decreases length - i,
    {
        let c = random_alphanumeric();
        crate::text::push_char(&mut s, c);
        i = i + 1;
    }
    s
}

/// The shortest login token handed out.
pub const TOKEN_MIN_LENGTH: usize = 4196;

/// One more than the longest login token handed out.
pub const TOKEN_MAX_LENGTH: usize = 6000;

/// A new login token: of random length from 4196 up to (not including) 6000,
/// made of ASCII letters and digits.
pub fn new_login_token() -> (r: String)
    ensures
        TOKEN_MIN_LENGTH <= r@.len() < TOKEN_MAX_LENGTH,
        forall|i: int| 0 <= i < r@.len() ==> is_alphanumeric(#[trigger] r@[i]),
{
    let length = random_in_range(TOKEN_MIN_LENGTH, TOKEN_MAX_LENGTH);
    gen_random(length)
}

/// Settings of this panel instance.
#[derive(Debug, Clone)]
pub struct InstanceConfig {
    /// Description of the instance
    pub description: String,
    /// Any warnings for the instance
    pub warnings: Vec<String>,
}

/// The servers, with their ids as text.
#[derive(Debug, Clone)]
pub struct PanelServers {
    pub main: String,
    pub staff: String,
    pub testing: String,
}

/// The addresses and servers the panel works with.
#[derive(Debug, Clone)]
pub struct CoreConstants {
    /// URL to the main site (reed is used here currently)
    pub frontend_url: String,
    /// Infernoplex URL
    pub infernoplex_url: String,
    /// CDN URL
    pub cdn_url: String,
    /// Popplio URL
    pub popplio_url: String,
    /// HTMLSanitize URL
    pub htmlsanitize_url: String,
    /// Servers
    pub servers: PanelServers,
}

/// The description of the panel instance for an environment.
pub open spec fn instance_description_spec(env: Seq<char>) -> Seq<char> {
    if env == "staging"@ {
        "Arcadia Staging Panel Instance"@
    } else {
        "Arcadia Production Panel Instance"@
    }
}

/// The settings of the panel instance running in the environment `env`.
pub fn instance_config(env: &str) -> (r: InstanceConfig)
    ensures
        r.description@ == instance_description_spec(env@),
        r.warnings@.len() == 2,
        r.warnings@[0]@ == "Oh, hello there. This panel is currently being rewritten, and may have some issues. If you find any issues, please contact a Lead Developer in the `Staff Center` Discord Server!"@,
        r.warnings@[1]@ == "[Warning]: `panel.infinitybots.gg` will soon be unaccessible as we move our panel into the main site."@,
{
    let description = if str_eq(env, "staging") {
        owned("Arcadia Staging Panel Instance")
    } else {
        owned("Arcadia Production Panel Instance")
    };
    let mut warnings: Vec<String> = Vec::new();
    warnings.push(owned("Oh, hello there. This panel is currently being rewritten, and may have some issues. If you find any issues, please contact a Lead Developer in the `Staff Center` Discord Server!"));
    warnings.push(owned("[Warning]: `panel.infinitybots.gg` will soon be unaccessible as we move our panel into the main site."));
    InstanceConfig { description, warnings }
}

/// The addresses and servers of the configuration, for the environment `env`.
pub fn core_constants(config: &Config, env: &str) -> (r: CoreConstants)
    ensures
        env@ == "staging"@ ==> r.frontend_url@ == config.frontend_url.staging@,
        env@ != "staging"@ ==> r.frontend_url@ == config.frontend_url.prod@,
        r.infernoplex_url@ == config.infernoplex_url@,
        r.popplio_url@ == config.popplio_url@,
        r.htmlsanitize_url@ == config.htmlsanitize_url@,
        r.cdn_url@ == config.cdn_url@,
        r.servers.main@ == decimal_spec(config.servers.main as nat),
        r.servers.staff@ == decimal_spec(config.servers.staff as nat),
        r.servers.testing@ == decimal_spec(config.servers.testing as nat),
{
    let frontend_url = if str_eq(env, "staging") {
        owned(config.frontend_url.staging.as_str())
    } else {
        owned(config.frontend_url.prod.as_str())
    };
    CoreConstants {
        frontend_url,
        infernoplex_url: owned(config.infernoplex_url.as_str()),
        popplio_url: owned(config.popplio_url.as_str()),
        htmlsanitize_url: owned(config.htmlsanitize_url.as_str()),
        cdn_url: owned(config.cdn_url.as_str()),
        servers: PanelServers {
            main: decimal(config.servers.main),
            staff: decimal(config.servers.staff),
            testing: decimal(config.servers.testing),
        },
    }
}

} // verus!
