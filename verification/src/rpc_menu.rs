//! The lists of RPC methods shown to staff: the command's completions and the
//! panel's method list.
use crate::rpc::{
    all_kinds, description_spec, field_view, fields_spec, kind_name, label_spec, supported_spec,
    MethodKind, RPCField, RPCSuccess,
};
use crate::target_types::TargetType;
use crate::panel::Refusal;
use crate::perms::{build, has_perm, has_perm_spec, views};
use crate::rpc_handle::rpc_perm_spec;
use crate::session::AuthData;
use crate::text::{contains_text, contains_text_spec, str_views};
use vstd::prelude::*;

verus! {

/// The names of the given kinds that contain `partial`, in order.
pub open spec fn completions_of(kinds: Seq<MethodKind>, partial: Seq<char>) -> Seq<Seq<char>>
    decreases kinds.len(),
{
    if kinds.len() == 0 {
        Seq::empty()
    } else {
        let rest = completions_of(kinds.drop_last(), partial);
        if partial.len() == 0 || contains_text_spec(kind_name(kinds.last()), partial) {
            rest.push(kind_name(kinds.last()))
        } else {
            rest
        }
    }
}

/// The method names offered while `partial` is typed: every name when nothing
/// is typed yet, else the names that contain it, in the methods' order.
pub fn autocomplete(partial: &str) -> (r: Vec<String>)
    ensures
        str_views(r@) == completions_of(all_kinds(), partial@),
{
    let kinds = MethodKind::all();
    let mut names: Vec<String> = Vec::new();
    let mut i: usize = 0;
    while i < kinds.len()
        invariant
            i <= kinds.len(),
            kinds@ == all_kinds(),
            str_views(names@) == completions_of(kinds@.take(i as int), partial@),
        decreases kinds.len() - i,
    {
        assert(kinds@.take(i + 1).drop_last() =~= kinds@.take(i as int));
        let name = kinds[i].name();
        if partial.unicode_len() == 0 || contains_text(name.as_str(), partial) {
            names.push(name);
            assert(str_views(names@) =~= completions_of(kinds@.take(i + 1), partial@));
        }
        i = i + 1;
    }
    assert(kinds@.take(kinds.len() as int) =~= kinds@);
    names
}

/// A method as the panel lists it.
#[derive(Debug, Clone)]
pub struct RPCWebAction {
    pub id: String,
    pub label: String,
    pub description: String,
    pub supported_target_types: Vec<TargetType>,
    pub fields: Vec<RPCField>,
}

/// Whether the listed method describes the method kind `k`.
pub open spec fn describes(a: RPCWebAction, k: MethodKind) -> bool {
    &&& a.id@ == kind_name(k)
    &&& a.label@ == label_spec(k)
    &&& a.description@ == description_spec(k)
    &&& a.supported_target_types@ == supported_spec(k)
    &&& a.fields@.map_values(|f: RPCField| field_view(f)) == fields_spec(k)
}

/// The kinds listed: all of them, or when `filtered`, those the staff member
/// may use (`allowed`, one answer per kind in the kinds' order).
pub open spec fn listed_kinds(kinds: Seq<MethodKind>, filtered: bool, allowed: Seq<bool>) -> Seq<
    MethodKind,
>
    decreases kinds.len(),
{
    if kinds.len() == 0 {
        Seq::empty()
    } else {
        let n = (kinds.len() - 1) as int;
        let rest = listed_kinds(kinds.drop_last(), filtered, allowed.take(n));
        if !filtered || allowed[n] {
            rest.push(kinds.last())
        } else {
            rest
        }
    }
}

fn web_action(k: MethodKind) -> (r: RPCWebAction)
    ensures
        describes(r, k),
{
    RPCWebAction {
        id: k.name(),
        label: k.label(),
        description: k.description(),
        supported_target_types: k.supported_target_types(),
        fields: k.method_fields(),
    }
}

/// The panel's list of methods: every method, or when `filtered`, those the
/// staff member may use; `allowed` holds, for each method in order, whether
/// they hold its permission `rpc.<name>`.
pub fn rpc_web_actions(filtered: bool, allowed: &Vec<bool>) -> (r: Vec<RPCWebAction>)
    requires
        allowed@.len() == all_kinds().len(),
    ensures
        r@.len() == listed_kinds(all_kinds(), filtered, allowed@).len(),
        forall|i: int|
            0 <= i < r@.len() ==> describes(
                #[trigger] r@[i],
                listed_kinds(all_kinds(), filtered, allowed@)[i],
            ),
{
    let kinds = MethodKind::all();
    let mut actions: Vec<RPCWebAction> = Vec::new();
    let mut i: usize = 0;
    while i < kinds.len()
        invariant
            i <= kinds.len(),
            kinds@ == all_kinds(),
            allowed@.len() == kinds@.len(),
            actions@.len() == listed_kinds(kinds@.take(i as int), filtered, allowed@.take(i as int)).len(),
            forall|j: int|
                0 <= j < actions@.len() ==> describes(
                    #[trigger] actions@[j],
                    listed_kinds(kinds@.take(i as int), filtered, allowed@.take(i as int))[j],
                ),
        decreases kinds.len() - i,
    {
        assert(kinds@.take(i + 1).drop_last() =~= kinds@.take(i as int));
        assert(allowed@.take(i + 1).take(i as int) =~= allowed@.take(i as int));
        assert(allowed@.take(i + 1)[i as int] == allowed@[i as int]);
        if !filtered || allowed[i] {
            actions.push(web_action(kinds[i]));
        }
        i = i + 1;
    }
    assert(kinds@.take(kinds.len() as int) =~= kinds@);
    assert(allowed@.take(kinds.len() as int) =~= allowed@);
    actions
}

/// The panel's answer to an executed method: 204 without content, 200 with
/// the method's text, 400 with the error's text.
pub fn execute_rpc_answer(result: Result<RPCSuccess, String>) -> (r: (u16, String))
    ensures
        result matches Ok(RPCSuccess::NoContent) ==> r.0 == 204 && r.1@.len() == 0,
        result matches Ok(RPCSuccess::Content(c)) ==> r.0 == 200 && r.1@ == c@,
        result matches Err(e) ==> r.0 == 400 && r.1@ == e@,
{
    match result {
        Ok(RPCSuccess::NoContent) => (204, String::new()),
        Ok(RPCSuccess::Content(c)) => (200, c),
        Err(e) => (400, e),
    }
}

/// For each method in order, whether the permissions `perms` hold its
/// permission `rpc.<name>`.
pub open spec fn allowed_kinds(perms: Seq<String>) -> Seq<bool> {
    all_kinds().map_values(|k: MethodKind| has_perm_spec(views(perms), rpc_perm_spec(k)))
}

/// The panel's list of methods for a staff member with the resolved
/// permissions `perms`: every method, or when `filtered`, those whose
/// permission `rpc.<name>` they hold, in the methods' order.
pub fn rpc_method_list(perms: &Vec<String>, filtered: bool) -> (r: Vec<RPCWebAction>)
    ensures
        r@.len() == listed_kinds(all_kinds(), filtered, allowed_kinds(perms@)).len(),
        forall|i: int|
            0 <= i < r@.len() ==> describes(
                #[trigger] r@[i],
                listed_kinds(all_kinds(), filtered, allowed_kinds(perms@))[i],
            ),
{
    let kinds = MethodKind::all();
    let mut allowed: Vec<bool> = Vec::new();
    let mut i: usize = 0;
    while i < kinds.len()
        invariant
            i <= kinds.len(),
            kinds@ == all_kinds(),
            allowed@ == allowed_kinds(perms@).take(i as int),
        decreases kinds.len() - i,
    {
        let name = kinds[i].name();
        let perm = build("rpc", name.as_str());
        proof {
            reveal_strlit("rpc");
        }
        let ok = has_perm(perms, perm.as_str());
        allowed.push(ok);
        assert(allowed@ =~= allowed_kinds(perms@).take(i + 1));
        i = i + 1;
    }
    assert(allowed@ =~= allowed_kinds(perms@));
    rpc_web_actions(filtered, &allowed)
}

/// How far the panel has come with executing a method.
#[derive(Debug, Clone, Copy, PartialEq, Eq, Structural)]
pub enum ExecuteRpcStage {
    /// Waiting for the check of the login token.
    AwaitingAuth,
    /// Waiting for the method's outcome.
    AwaitingMethod,
    /// The request is answered.
    Done,
}

/// What the last outside step answered.
#[derive(Debug)]
pub enum ExecuteRpcEvent {
    /// The outcome of checking the login token (with an active session).
    AuthChecked(Result<AuthData, Refusal>),
    /// The outcome of the method.
    MethodDone(Result<RPCSuccess, String>),
}

/// What to do next.
#[derive(Debug)]
pub enum ExecuteRpcAction {
    /// Run the method for this staff member.
    Run { user_id: String },
    /// Answer with a status and a text.
    Reply(u16, String),
    /// Answer with the refusal.
    Refuse(Refusal),
}

/// One step of executing a method from the panel: the login token is checked
/// first, and a refused check is the answer, without running the method;
/// otherwise the method runs for the session's user, and its outcome is
/// answered with 204, 200 and its text, or 400 and its error's text.
pub fn execute_rpc_step(stage: ExecuteRpcStage, event: ExecuteRpcEvent) -> (r: (
    ExecuteRpcStage,
    ExecuteRpcAction,
))
    requires
        stage == ExecuteRpcStage::AwaitingAuth ==> event is AuthChecked,
        stage == ExecuteRpcStage::AwaitingMethod ==> event is MethodDone,
        stage != ExecuteRpcStage::Done,
    ensures
        event matches ExecuteRpcEvent::AuthChecked(Err(e)) ==> r.0 == ExecuteRpcStage::Done && (r.1 matches ExecuteRpcAction::Refuse(
            f,
        ) && f.status == e.status && f.message@ == e.message@),
        event matches ExecuteRpcEvent::AuthChecked(Ok(a)) ==> r.0 == ExecuteRpcStage::AwaitingMethod && (r.1 matches ExecuteRpcAction::Run {
            user_id,
        } && user_id@ == a.user_id@),
        event matches ExecuteRpcEvent::MethodDone(res) ==> r.0 == ExecuteRpcStage::Done && {
            &&& res matches Ok(RPCSuccess::NoContent) ==> (r.1 matches ExecuteRpcAction::Reply(
                s,
                t,
            ) && s == 204 && t@.len() == 0)
            &&& res matches Ok(RPCSuccess::Content(c)) ==> (r.1 matches ExecuteRpcAction::Reply(
                s,
                t,
            ) && s == 200 && t@ == c@)
            &&& res matches Err(e) ==> (r.1 matches ExecuteRpcAction::Reply(s, t) && s == 400 && t@
                == e@)
        },
{
    match event {
        ExecuteRpcEvent::AuthChecked(Err(e)) => (ExecuteRpcStage::Done, ExecuteRpcAction::Refuse(e)),
        ExecuteRpcEvent::AuthChecked(Ok(a)) => (
            ExecuteRpcStage::AwaitingMethod,
            ExecuteRpcAction::Run { user_id: a.user_id },
        ),
        ExecuteRpcEvent::MethodDone(res) => {
            let (status, text) = execute_rpc_answer(res);
            (ExecuteRpcStage::Done, ExecuteRpcAction::Reply(status, text))
        },
    }
}

} // verus!
