//! The panel's session table: which sessions are still alive, the checks of a
//! login token against the table, and what a new login and an activation
//! write into it.
use crate::config::PanelConfig;
use crate::panel::{refusal_is, refused_with, Refusal, BAD_REQUEST, FORBIDDEN};
use crate::panel_types::AuthorizeAction;
use crate::session::{
    begin_login, check_auth_version, check_redirect_url, login_url_spec, StartAuth, AUTH_VERSION,
    check_activation_otp, check_active, check_identity, check_mfa_secret, check_pending,
    check_staff_login, gen_random, is_alphanumeric, new_login_token, AuthData, INTERNAL_ERROR,
    TOKEN_MAX_LENGTH, TOKEN_MIN_LENGTH,
};
use crate::text::{owned, str_eq, str_views};
use vstd::prelude::*;

verus! {

/// A row of the session table.
#[derive(Debug, Clone)]
pub struct Session {
    pub user_id: String,
    pub token: String,
    /// Creation time, in seconds since the Unix epoch.
    pub created_at: i64,
    /// `pending` until the second factor is checked, then `active`.
    pub state: String,
}

/// What a session check reads of a staff member: the number of positions.
#[derive(Debug, Clone)]
pub struct StaffLogin {
    pub user_id: String,
    pub positions: usize,
}

/// Sessions older than an hour expire, and pending ones after five minutes.
pub open spec fn session_live(s: Session, now: i64) -> bool {
    &&& !(s.created_at < now - 3600)
    &&& !(s.state@ == "pending"@ && s.created_at < now - 300)
}

/// Whether a session is still alive at time `now` (in seconds).
pub fn is_live(s: &Session, now: i64) -> (r: bool)
    ensures
        r == session_live(*s, now),
{
    let created: i128 = s.created_at as i128;
    let t: i128 = now as i128;
    if created < t - 3600 {
        return false;
    }
    !(str_eq(s.state.as_str(), "pending") && created < t - 300)
}

/// For each session, whether it is still alive; the others are deleted
/// before a token is checked.
pub fn live_flags(sessions: &Vec<Session>, now: i64) -> (r: Vec<bool>)
    ensures
        r@.len() == sessions@.len(),
        forall|i: int| 0 <= i < r@.len() ==> r@[i] == session_live(#[trigger] sessions@[i], now),
{
    let mut r: Vec<bool> = Vec::new();
    let mut i: usize = 0;
    while i < sessions.len()
        invariant
            i <= sessions@.len(),
            r@.len() == i,
            forall|j: int| 0 <= j < i ==> r@[j] == session_live(#[trigger] sessions@[j], now),
        decreases sessions.len() - i,
    {
        let live = is_live(&sessions[i], now);
        r.push(live);
        i = i + 1;
    }
    r
}

/// A live session holding `token`.
pub open spec fn holds_token(s: Session, now: i64, token: Seq<char>) -> bool {
    session_live(s, now) && s.token@ == token
}

/// `i` is the first live session holding `token`.
pub open spec fn first_session(ss: Seq<Session>, now: i64, token: Seq<char>, i: int) -> bool {
    &&& 0 <= i < ss.len()
    &&& holds_token(ss[i], now, token)
    &&& forall|j: int| 0 <= j < i ==> !holds_token(#[trigger] ss[j], now, token)
}

/// Some live session holds `token`.
pub open spec fn session_found(ss: Seq<Session>, now: i64, token: Seq<char>) -> bool {
    exists|i: int| first_session(ss, now, token, i)
}

/// The first live session holding `token`.
pub open spec fn found_session(ss: Seq<Session>, now: i64, token: Seq<char>) -> Session {
    ss[choose|i: int| first_session(ss, now, token, i)]
}

/// `j` is the first staff record of `user`.
pub open spec fn first_staff(staff: Seq<StaffLogin>, user: Seq<char>, j: int) -> bool {
    &&& 0 <= j < staff.len()
    &&& staff[j].user_id@ == user
    &&& forall|k: int| 0 <= k < j ==> (#[trigger] staff[k]).user_id@ != user
}

/// The number of positions of `user`, `None` without a staff record.
pub open spec fn staff_positions(staff: Seq<StaffLogin>, user: Seq<char>) -> Option<usize> {
    if exists|j: int| first_staff(staff, user, j) {
        Some(staff[choose|j: int| first_staff(staff, user, j)].positions)
    } else {
        None
    }
}

/// A token identifies a staff member: a live session holds it, and its user
/// has at least one position.
pub open spec fn identity_ok(ss: Seq<Session>, now: i64, token: Seq<char>, staff: Seq<StaffLogin>) -> bool {
    &&& session_found(ss, now, token)
    &&& staff_positions(staff, found_session(ss, now, token).user_id@) matches Some(n)
    &&& n > 0
}

/// The first live session is the only one.
pub proof fn lemma_first_session_unique(ss: Seq<Session>, now: i64, token: Seq<char>, i: int, k: int)
    requires
        first_session(ss, now, token, i),
        first_session(ss, now, token, k),
    ensures
        i == k,
{
    if i < k {
        assert(!holds_token(ss[i], now, token));
    } else if k < i {
        assert(!holds_token(ss[k], now, token));
    }
}

proof fn lemma_first_staff_unique(staff: Seq<StaffLogin>, user: Seq<char>, i: int, k: int)
    requires
        first_staff(staff, user, i),
        first_staff(staff, user, k),
    ensures
        i == k,
{
    if i < k {
        assert(staff[i].user_id@ != user);
    } else if k < i {
        assert(staff[k].user_id@ != user);
    }
}

/// The first live session holding `token`.
fn find_session(sessions: &Vec<Session>, now: i64, token: &str) -> (r: Option<usize>)
    ensures
        r matches Some(i) ==> first_session(sessions@, now, token@, i as int),
        r is None ==> !session_found(sessions@, now, token@),
{
    let mut i: usize = 0;
    while i < sessions.len()
        invariant
            i <= sessions@.len(),
            forall|j: int| 0 <= j < i ==> !holds_token(#[trigger] sessions@[j], now, token@),
        decreases sessions.len() - i,
    {
        if is_live(&sessions[i], now) && str_eq(sessions[i].token.as_str(), token) {
            return Some(i);
        }
        i = i + 1;
    }
    proof {
        if session_found(sessions@, now, token@) {
            let k = choose|k: int| first_session(sessions@, now, token@, k);
            assert(!holds_token(sessions@[k], now, token@));
        }
    }
    None
}

/// The number of positions of `user`, `None` without a staff record.
fn find_positions(staff: &Vec<StaffLogin>, user: &str) -> (r: Option<usize>)
    ensures
        r == staff_positions(staff@, user@),
{
    let mut j: usize = 0;
    while j < staff.len()
        invariant
            j <= staff@.len(),
            forall|k: int| 0 <= k < j ==> (#[trigger] staff@[k]).user_id@ != user@,
        decreases staff.len() - j,
    {
        if str_eq(staff[j].user_id.as_str(), user) {
            proof {
                assert(first_staff(staff@, user@, j as int));
                let c = choose|c: int| first_staff(staff@, user@, c);
                lemma_first_staff_unique(staff@, user@, j as int, c);
            }
            return Some(staff[j].positions);
        }
        j = j + 1;
    }
    proof {
        if exists|c: int| first_staff(staff@, user@, c) {
            let c = choose|c: int| first_staff(staff@, user@, c);
            assert(staff@[c].user_id@ != user@);
        }
    }
    None
}

/// Checks a login token without asking for an active session. Expired
/// sessions do not count; the answer is the session's user, creation time
/// and state.
pub fn check_auth_insecure(
    sessions: &Vec<Session>,
    now: i64,
    token: &str,
    staff: &Vec<StaffLogin>,
) -> (r: Result<AuthData, Refusal>)
    ensures
        r is Ok <==> identity_ok(sessions@, now, token@, staff@),
        !identity_ok(sessions@, now, token@, staff@) ==> refused_with(
            r,
            INTERNAL_ERROR,
            "identityExpired"@,
        ),
        r matches Ok(a) ==> a.user_id@ == found_session(sessions@, now, token@).user_id@
            && a.created_at == found_session(sessions@, now, token@).created_at && a.state@
            == found_session(sessions@, now, token@).state@,
{
    let found = find_session(sessions, now, token);
    match found {
        None => {
            match check_identity(0, None) {
                Err(e) => Err(e),
                Ok(()) => Err(Refusal::new(INTERNAL_ERROR, owned("identityExpired"))),
            }
        },
        Some(i) => {
            proof {
                let c = choose|c: int| first_session(sessions@, now, token@, c);
                lemma_first_session_unique(sessions@, now, token@, i as int, c);
            }
            let s = &sessions[i];
            let positions = find_positions(staff, s.user_id.as_str());
            match check_identity(1, positions) {
                Err(e) => Err(e),
                Ok(()) => Ok(
                    AuthData {
                        user_id: owned(s.user_id.as_str()),
                        created_at: s.created_at,
                        state: owned(s.state.as_str()),
                    },
                ),
            }
        },
    }
}

/// Checks a login token and that its session is active: the token check
/// comes first, and only a token that passes it is asked for an active
/// session.
pub fn check_auth(sessions: &Vec<Session>, now: i64, token: &str, staff: &Vec<StaffLogin>) -> (r:
    Result<AuthData, Refusal>)
    ensures
        r is Ok <==> identity_ok(sessions@, now, token@, staff@) && found_session(
            sessions@,
            now,
            token@,
        ).state@ == "active"@,
        !identity_ok(sessions@, now, token@, staff@) ==> refused_with(
            r,
            INTERNAL_ERROR,
            "identityExpired"@,
        ),
        identity_ok(sessions@, now, token@, staff@) && found_session(sessions@, now, token@).state@
            != "active"@ ==> refused_with(r, INTERNAL_ERROR, "sessionNotActive"@),
        r matches Ok(a) ==> a.user_id@ == found_session(sessions@, now, token@).user_id@
            && a.created_at == found_session(sessions@, now, token@).created_at && a.state@
            == "active"@,
{
    let a = check_auth_insecure(sessions, now, token, staff)?;
    match check_active(a.state.as_str()) {
        Err(e) => Err(e),
        Ok(()) => Ok(a),
    }
}

/// A new session, as a login writes it.
#[derive(Debug, Clone)]
pub struct NewSession {
    pub user_id: String,
    pub token: String,
    /// The token the session uses towards the site's API.
    pub popplio_token: String,
    pub state: String,
}

/// Logs in `user_id`, whose staff record has `positions` positions (`None`
/// without one): the user's sessions are all replaced by one new pending
/// session with a fresh random token.
pub fn plan_create_session(user_id: &str, positions: Option<usize>) -> (r: Result<
    NewSession,
    Refusal,
>)
    ensures
        r is Ok <==> (positions matches Some(n) && n > 0),
        positions is None ==> refused_with(r, FORBIDDEN, "You are not a staff member [not in db]"@),
        positions == Some(0usize) ==> refused_with(
            r,
            FORBIDDEN,
            "You are not a staff member [no positions]"@,
        ),
        r matches Ok(s) ==> s.user_id@ == user_id@ && s.state@ == "pending"@
            && TOKEN_MIN_LENGTH <= s.token@.len() < TOKEN_MAX_LENGTH && (forall|i: int|
            0 <= i < s.token@.len() ==> is_alphanumeric(#[trigger] s.token@[i]))
            && s.popplio_token@.len() == 2048,
{
    match check_staff_login(positions) {
        Err(e) => Err(e),
        Ok(()) => Ok(
            NewSession {
                user_id: owned(user_id),
                token: new_login_token(),
                popplio_token: gen_random(2048),
                state: owned("pending"),
            },
        ),
    }
}

/// The session table after the login `s` at time `now`: the user's old
/// sessions are deleted and the new one is added.
pub open spec fn sessions_after_login(ss: Seq<Session>, s: NewSession, now: i64) -> Seq<Session> {
    ss.filter(|x: Session| x.user_id@ != s.user_id@).push(
        Session { user_id: s.user_id, token: s.token, created_at: now, state: s.state },
    )
}

/// After a login, the new session is the only session of its user, and every
/// session of another user is kept.
pub proof fn law_login_leaves_one_session(ss: Seq<Session>, s: NewSession, now: i64)
    ensures
        ({
            let after = sessions_after_login(ss, s, now);
            &&& after.last().token@ == s.token@
            &&& after.last().state@ == s.state@
            &&& after.last().created_at == now
            &&& forall|i: int|
                0 <= i < after.len() - 1 ==> (#[trigger] after[i]).user_id@ != s.user_id@
            &&& forall|i: int|
                0 <= i < ss.len() && (#[trigger] ss[i]).user_id@ != s.user_id@ ==> after.contains(
                    ss[i],
                )
        }),
{
    let pred = |x: Session| x.user_id@ != s.user_id@;
    let kept = ss.filter(pred);
    let after = sessions_after_login(ss, s, now);
    assert forall|i: int| 0 <= i < after.len() - 1 implies (#[trigger] after[i]).user_id@
        != s.user_id@ by {
        assert(after[i] == kept[i]);
        ss.lemma_filter_pred(pred, i);
    }
    assert forall|i: int| 0 <= i < ss.len() && (#[trigger] ss[i]).user_id@ != s.user_id@ implies after.contains(
        ss[i],
    ) by {
        ss.lemma_filter_contains(pred, i);
        let j = choose|j: int| 0 <= j < kept.len() && kept[j] == ss[i];
        assert(after[j] == ss[i]);
    }
}

/// What activating a session writes: the session's new state, and that the
/// member's second factor is confirmed.
#[derive(Debug, Clone)]
pub struct Activation {
    /// The token of the session to update.
    pub token: String,
    /// The member whose second factor is now confirmed.
    pub user_id: String,
    /// The session's new state.
    pub state: String,
    pub mfa_verified: bool,
}

/// Activates the session `auth` found for `token`: it must be pending, its
/// member must have a secret (`has_secret`) and the one-time password must
/// be valid for it (`otp_valid`), checked in that order. The session then
/// becomes active and the member's second factor confirmed.
pub fn plan_activate_session(auth: &AuthData, token: &str, has_secret: bool, otp_valid: bool) -> (r:
    Result<Activation, Refusal>)
    ensures
        r is Ok <==> auth.state@ == "pending"@ && has_secret && otp_valid,
        auth.state@ != "pending"@ ==> refused_with(r, BAD_REQUEST, "sessionAlreadyActive"@),
        auth.state@ == "pending"@ && !has_secret ==> refused_with(r, BAD_REQUEST, "mfaNotSetup"@),
        auth.state@ == "pending"@ && has_secret && !otp_valid ==> refused_with(
            r,
            BAD_REQUEST,
            "Invalid OTP entered"@,
        ),
        r matches Ok(a) ==> a.token@ == token@ && a.user_id@ == auth.user_id@ && a.state@
            == "active"@ && a.mfa_verified,
{
    check_pending(auth.state.as_str())?;
    check_mfa_secret(has_secret)?;
    check_activation_otp(otp_valid)?;
    Ok(
        Activation {
            token: owned(token),
            user_id: owned(auth.user_id.as_str()),
            state: owned("active"),
            mfa_verified: true,
        },
    )
}

/// The first step of a login action, taken before any database access or
/// request to Discord.
#[derive(Debug)]
pub enum AuthorizeStart {
    /// Answer with the refusal.
    Refuse(Refusal),
    /// Answer with the start of a login.
    Started(StartAuth),
    /// Exchange the Discord `code` for the user, then look up their staff
    /// record and create their session.
    ExchangeCode { code: String, redirect_url: String },
    /// Check `login_token` (with an active session when `active`), then go on
    /// with the action.
    CheckToken { login_token: String, active: bool },
    /// Delete the session of `login_token` and answer with how many were
    /// deleted.
    DeleteSession { login_token: String },
}

/// The first step of the login action `action` in the login protocol's
/// `version`: the version is checked first, then (to begin) the scope or (to
/// create a session) the redirect URL; only then are the database or Discord
/// asked anything.
pub fn authorize_start(panel: &PanelConfig, version: u16, action: AuthorizeAction) -> (r: AuthorizeStart)
    ensures
        version != AUTH_VERSION ==> (r matches AuthorizeStart::Refuse(e) && refusal_is(
            e,
            BAD_REQUEST,
            "Invalid version"@,
        )),
        version == AUTH_VERSION ==> match action {
            AuthorizeAction::Begin { scope, redirect_url } => if scope@ != panel.panel_scope@ {
                r matches AuthorizeStart::Refuse(e) && refusal_is(e, BAD_REQUEST, "Invalid scope"@)
            } else {
                r matches AuthorizeStart::Started(s) && s.login_url@ == login_url_spec(
                    panel.client_id@,
                    redirect_url@,
                ) && s.scope@ == panel.panel_scope@ && s.response_scope@
                    == panel.panel_response_scope@
            },
            AuthorizeAction::CreateSession { code, redirect_url } => if !str_views(
                panel.redirect_url@,
            ).contains(redirect_url@) {
                r matches AuthorizeStart::Refuse(e) && refusal_is(
                    e,
                    BAD_REQUEST,
                    "Invalid redirect url"@,
                )
            } else {
                r matches AuthorizeStart::ExchangeCode { code: c, redirect_url: u } && c@ == code@
                    && u@ == redirect_url@
            },
            AuthorizeAction::CheckMfaState { login_token } => r matches AuthorizeStart::CheckToken {
                login_token: t,
                active,
            } && t@ == login_token@ && !active,
            AuthorizeAction::ResetMfaTotp { login_token, .. } => r matches AuthorizeStart::CheckToken {
                login_token: t,
                active,
            } && t@ == login_token@ && active,
            AuthorizeAction::ActivateSession { login_token, .. } => r matches AuthorizeStart::CheckToken {
                login_token: t,
                active,
            } && t@ == login_token@ && !active,
            AuthorizeAction::Logout { login_token } => r matches AuthorizeStart::DeleteSession {
                login_token: t,
            } && t@ == login_token@,
        },
{
    if let Err(e) = check_auth_version(version) {
        return AuthorizeStart::Refuse(e);
    }
    match action {
        AuthorizeAction::Begin { scope, redirect_url } => match begin_login(
            panel,
            scope.as_str(),
            redirect_url.as_str(),
        ) {
            Ok(s) => AuthorizeStart::Started(s),
            Err(e) => AuthorizeStart::Refuse(e),
        },
        AuthorizeAction::CreateSession { code, redirect_url } => match check_redirect_url(
            panel,
            redirect_url.as_str(),
        ) {
            Err(e) => AuthorizeStart::Refuse(e),
            Ok(()) => AuthorizeStart::ExchangeCode { code, redirect_url },
        },
        AuthorizeAction::CheckMfaState { login_token } => AuthorizeStart::CheckToken {
            login_token,
            active: false,
        },
        AuthorizeAction::ResetMfaTotp { login_token, .. } => AuthorizeStart::CheckToken {
            login_token,
            active: true,
        },
        AuthorizeAction::ActivateSession { login_token, .. } => AuthorizeStart::CheckToken {
            login_token,
            active: false,
        },
        AuthorizeAction::Logout { login_token } => AuthorizeStart::DeleteSession { login_token },
    }
}

} // verus!
