//! The staff hierarchy: staff positions are ranked by an index, lower meaning
//! higher up, and a member may only act on positions and members strictly
//! below their own highest position.
use crate::config::Servers;
use crate::ids::{parse_uuid, uuid_parse_spec};
use crate::panel::{denial_spec, refused_with, PanelPerm, Refusal, BAD_REQUEST, FORBIDDEN};
use crate::session::INTERNAL_ERROR;
use crate::text::{concat, contains_str, decimal, decimal_spec, owned, str_eq, str_views};
use vstd::prelude::*;

verus! {

/// The index of a member's highest position: the least index among them, or
/// `i32::MAX` for a member who holds none.
pub open spec fn lowest_index_spec(s: Seq<i32>) -> i32
    decreases s.len(),
{
    if s.len() == 0 {
        i32::MAX
    } else {
        let rest = lowest_index_spec(s.drop_last());
        if s.last() < rest {
            s.last()
        } else {
            rest
        }
    }
}

/// Whether a member holding positions with these indexes ranks above the
/// index `index`, and so may act on it.
pub open spec fn outranks(member: Seq<i32>, index: i32) -> bool {
    index > lowest_index_spec(member)
}

/// Whether a member may edit another staff member: the target's highest
/// position is not above the member's.
pub open spec fn may_edit_member(member: Seq<i32>, target: Seq<i32>) -> bool {
    !(lowest_index_spec(target) < lowest_index_spec(member))
}

/// The lowest index is at most each index, is one of them when there is one,
/// and is `i32::MAX` when there is none.
pub proof fn lemma_lowest_index(s: Seq<i32>)
    ensures
        forall|k: int| 0 <= k < s.len() ==> lowest_index_spec(s) <= #[trigger] s[k],
        s.len() > 0 ==> exists|k: int| 0 <= k < s.len() && s[k] == lowest_index_spec(s),
        s.len() == 0 ==> lowest_index_spec(s) == i32::MAX,
    decreases s.len(),
{
    if s.len() > 0 {
        let rest = s.drop_last();
        lemma_lowest_index(rest);
        assert forall|k: int| 0 <= k < s.len() implies lowest_index_spec(s) <= #[trigger] s[k] by {
            if k < s.len() - 1 {
                assert(s[k] == rest[k]);
            }
        }
        if s.last() < lowest_index_spec(rest) {
            assert(s[s.len() - 1] == lowest_index_spec(s));
        } else if rest.len() > 0 {
            let k = choose|k: int| 0 <= k < rest.len() && rest[k] == lowest_index_spec(rest);
            assert(s[k] == lowest_index_spec(s));
        } else {
            assert(s[s.len() - 1] == lowest_index_spec(s));
        }
    }
}

/// The index of a member's highest position, from the indexes of the
/// positions they hold (`i32::MAX` when they hold none).
pub fn lowest_index(indices: &Vec<i32>) -> (r: i32)
    ensures
        r == lowest_index_spec(indices@),
{
    let mut lowest: i32 = i32::MAX;
    let mut i: usize = 0;
    while i < indices.len()
        invariant
            i <= indices.len(),
            lowest == lowest_index_spec(indices@.subrange(0, i as int)),
        decreases indices.len() - i,
    {
        assert(indices@.subrange(0, i + 1).drop_last() =~= indices@.subrange(0, i as int));
        if indices[i] < lowest {
            lowest = indices[i];
        }
        i = i + 1;
    }
    assert(indices@.subrange(0, indices.len() as int) =~= indices@);
    lowest
}

/// Whether a member may swap the indexes of two positions: they differ and
/// the member outranks both.
pub open spec fn swap_allowed(member: Seq<i32>, index_a: i32, index_b: i32) -> bool {
    index_a != index_b && outranks(member, index_a) && outranks(member, index_b)
}

/// Checks a swap of the indexes of two positions, given the member's position
/// indexes and the two positions' current indexes.
pub fn check_swap(member: &Vec<i32>, index_a: i32, index_b: i32) -> (r: Result<(), Refusal>)
    ensures
        r is Ok <==> swap_allowed(member@, index_a, index_b),
        index_a == index_b ==> refused_with(r, BAD_REQUEST, "Positions have the same index"@),
        index_a != index_b && !(outranks(member@, index_a) && outranks(member@, index_b))
            ==> refused_with(r, FORBIDDEN, "Either 'a' or 'b' is lower than the lowest index of the member"@),
{
    let lowest = lowest_index(member);
    if index_a == index_b {
        return Err(Refusal::bad_request("Positions have the same index"));
    }
    if index_a <= lowest || index_b <= lowest {
        return Err(Refusal::forbidden("Either 'a' or 'b' is lower than the lowest index of the member"));
    }
    Ok(())
}

/// A position's new index, to be written.
#[derive(Debug, Clone)]
pub struct IndexUpdate {
    pub id: String,
    pub index: i32,
}

/// The positions' indexes once the updates are written in order.
pub open spec fn apply_updates(table: Map<Seq<char>, i32>, updates: Seq<IndexUpdate>) -> Map<
    Seq<char>,
    i32,
>
    decreases updates.len(),
{
    if updates.len() == 0 {
        table
    } else {
        let before = apply_updates(table, updates.drop_last());
        before.insert(updates.last().id@, updates.last().index)
    }
}

/// Plans a swap of the positions `a` and `b`, whose indexes are `index_a` and
/// `index_b`: once the check passes, `a` takes `b`'s index and `b` takes
/// `a`'s.
pub fn swap_plan(member: &Vec<i32>, a: &str, b: &str, index_a: i32, index_b: i32) -> (r: Result<
    Vec<IndexUpdate>,
    Refusal,
>)
    ensures
        r is Ok <==> swap_allowed(member@, index_a, index_b),
        index_a == index_b ==> refused_with(r, BAD_REQUEST, "Positions have the same index"@),
        index_a != index_b && !(outranks(member@, index_a) && outranks(member@, index_b))
            ==> refused_with(r, FORBIDDEN, "Either 'a' or 'b' is lower than the lowest index of the member"@),
        r matches Ok(u) ==> u@.len() == 2 && u@[0].id@ == a@ && u@[0].index == index_b
            && u@[1].id@ == b@ && u@[1].index == index_a,
{
    check_swap(member, index_a, index_b)?;
    let mut updates: Vec<IndexUpdate> = Vec::new();
    updates.push(IndexUpdate { id: owned(a), index: index_b });
    updates.push(IndexUpdate { id: owned(b), index: index_a });
    Ok(updates)
}

/// A swap exchanges the two indexes, `(Ia, Ib)` becoming `(Ib, Ia)`, and
/// leaves every other position where it was.
pub proof fn law_swap_exchanges_indexes(
    table: Map<Seq<char>, i32>,
    a: Seq<char>,
    b: Seq<char>,
    updates: Seq<IndexUpdate>,
)
    requires
        table.contains_key(a),
        table.contains_key(b),
        a != b,
        updates.len() == 2,
        updates[0].id@ == a && updates[0].index == table[b],
        updates[1].id@ == b && updates[1].index == table[a],
    ensures
        apply_updates(table, updates)[a] == table[b],
        apply_updates(table, updates)[b] == table[a],
        forall|k: Seq<char>| k != a && k != b ==> apply_updates(table, updates).contains_key(k)
            == table.contains_key(k) && (table.contains_key(k) ==> #[trigger] apply_updates(table, updates)[k] == table[k]),
{
    let first = updates.drop_last();
    assert(first.drop_last().len() == 0);
    assert(first.last() == updates[0]);
    assert(updates.last() == updates[1]);
    assert(apply_updates(table, first.drop_last()) == table);
    let mid = table.insert(a, table[b]);
    assert(apply_updates(table, first) == mid);
    assert(apply_updates(table, updates) == mid.insert(b, table[a]));
}

/// Checks the index a position is to be moved to.
pub fn check_set_index(member: &Vec<i32>, index: i32) -> (r: Result<(), Refusal>)
    ensures
        r is Ok <==> (index >= 0 && outranks(member@, index)),
        index < 0 ==> refused_with(r, BAD_REQUEST, "Index cannot be lower than 0"@),
        index >= 0 && !outranks(member@, index) ==> refused_with(
            r,
            FORBIDDEN,
            "Index to set is lower than or equal to the lowest index of the staff member"@,
        ),
{
    if index < 0 {
        return Err(Refusal::bad_request("Index cannot be lower than 0"));
    }
    let lowest = lowest_index(member);
    if index <= lowest {
        return Err(Refusal::forbidden(
            "Index to set is lower than or equal to the lowest index of the staff member",
        ));
    }
    Ok(())
}

/// Checks the current index of a position that is to be moved.
pub fn check_current_index(member: &Vec<i32>, current: i32) -> (r: Result<(), Refusal>)
    ensures
        r is Ok <==> outranks(member@, current),
        !outranks(member@, current) ==> refused_with(
            r,
            FORBIDDEN,
            "Current index of position is lower than or equal to the lowest index of the staff member"@,
        ),
{
    let lowest = lowest_index(member);
    if current <= lowest {
        return Err(Refusal::forbidden(
            "Current index of position is lower than or equal to the lowest index of the staff member",
        ));
    }
    Ok(())
}

/// Checks the index of a position that is to be created.
pub fn check_create_index(member: &Vec<i32>, index: i32) -> (r: Result<(), Refusal>)
    ensures
        r is Ok <==> (index >= 0 && outranks(member@, index)),
        index < 0 ==> refused_with(r, BAD_REQUEST, "Index cannot be lower than 0"@),
        index >= 0 && !outranks(member@, index) ==> refused_with(
            r,
            FORBIDDEN,
            "Index is lower than or equal to the lowest index of the staff member"@,
        ),
{
    if index < 0 {
        return Err(Refusal::bad_request("Index cannot be lower than 0"));
    }
    let lowest = lowest_index(member);
    if index <= lowest {
        return Err(Refusal::forbidden(
            "Index is lower than or equal to the lowest index of the staff member",
        ));
    }
    Ok(())
}

/// Checks that a position to be edited or deleted ranks below the member.
pub fn check_position_rank(member: &Vec<i32>, index: i32) -> (r: Result<(), Refusal>)
    ensures
        r is Ok <==> outranks(member@, index),
        !outranks(member@, index) ==> refused_with(
            r,
            FORBIDDEN,
            "Index is lower than the lowest index of the member"@,
        ),
{
    let lowest = lowest_index(member);
    if index <= lowest {
        return Err(Refusal::forbidden("Index is lower than the lowest index of the member"));
    }
    Ok(())
}

/// Checks that a staff member may edit another: the target's highest position
/// is not above the member's.
pub fn check_member_edit(member: &Vec<i32>, target: &Vec<i32>) -> (r: Result<(), Refusal>)
    ensures
        r is Ok <==> may_edit_member(member@, target@),
        !may_edit_member(member@, target@) ==> refused_with(
            r,
            FORBIDDEN,
            "Target has a lower index than the member"@,
        ),
{
    let lowest = lowest_index(member);
    let target_lowest = lowest_index(target);
    if target_lowest < lowest {
        return Err(Refusal::forbidden("Target has a lower index than the member"));
    }
    Ok(())
}

/// Turns the outcome of checking a change of permissions (the refused
/// permissions as text, on failure) into the panel's answer.
pub fn check_perm_changes(outcome: Result<(), String>) -> (r: Result<(), Refusal>)
    ensures
        r is Ok <==> outcome is Ok,
        outcome is Err ==> refused_with(
            r,
            FORBIDDEN,
            "You do not have permission to edit the following perms: "@ + outcome->Err_0@,
        ),
{
    match outcome {
        Ok(()) => Ok(()),
        Err(e) => Err(Refusal::new(
            FORBIDDEN,
            concat("You do not have permission to edit the following perms: ", e.as_str()),
        )),
    }
}

/// Turns the outcome of checking the removal of a position's permissions
/// (which deleting the position amounts to) into the panel's answer.
pub fn check_delete_perm_changes(outcome: Result<(), String>) -> (r: Result<(), Refusal>)
    ensures
        r is Ok <==> outcome is Ok,
        outcome is Err ==> refused_with(
            r,
            FORBIDDEN,
            "You do not have permission to edit the following perms [neeed to delete position]: "@
                + outcome->Err_0@,
        ),
{
    match outcome {
        Ok(()) => Ok(()),
        Err(e) => Err(Refusal::new(
            FORBIDDEN,
            concat(
                "You do not have permission to edit the following perms [neeed to delete position]: ",
                e.as_str(),
            ),
        )),
    }
}

/// Checks that a position's role exists on the staff server.
pub fn check_staff_role(exists: bool) -> (r: Result<(), Refusal>)
    ensures
        r is Ok <==> exists,
        !exists ==> refused_with(r, BAD_REQUEST, "Role does not exist on the staff server"@),
{
    if !exists {
        return Err(Refusal::bad_request("Role does not exist on the staff server"));
    }
    Ok(())
}

/// The servers on which a position may have a corresponding role.
#[derive(Debug, Clone, Copy, PartialEq, Eq, Structural)]
pub enum CorrespondingServer {
    Main,
    Testing,
    Staff,
}

/// The server a corresponding role's name refers to.
pub open spec fn corresponding_server_spec(name: Seq<char>) -> Option<CorrespondingServer> {
    if name == "main"@ {
        Some(CorrespondingServer::Main)
    } else if name == "testing"@ {
        Some(CorrespondingServer::Testing)
    } else if name == "staff"@ {
        Some(CorrespondingServer::Staff)
    } else {
        None
    }
}

/// The list of supported servers as the refusal shows it.
pub open spec fn supported_servers_spec() -> Seq<char> {
    "[\n    \"Main\",\n    \"Testing\",\n    \"Staff\",\n]"@
}

/// The message for a corresponding role on an unknown server.
pub open spec fn unsupported_server_message(name: Seq<char>) -> Seq<char> {
    "Server "@ + name + " is not a supported corresponding role. Supported: "@
        + supported_servers_spec()
}

/// The message for a corresponding role missing from its server.
pub open spec fn missing_role_message(role: u64, server: u64) -> Seq<char> {
    "Role "@ + decimal_spec(role as nat) + " does not exist on the server "@ + decimal_spec(
        server as nat,
    )
}

impl CorrespondingServer {
    /// The server named `main`, `testing` or `staff`.
    pub fn from_name(name: &str) -> (r: Option<CorrespondingServer>)
        ensures
            r == corresponding_server_spec(name@),
    {
        if str_eq(name, "main") {
            Some(CorrespondingServer::Main)
        } else if str_eq(name, "testing") {
            Some(CorrespondingServer::Testing)
        } else if str_eq(name, "staff") {
            Some(CorrespondingServer::Staff)
        } else {
            None
        }
    }

    /// The server a corresponding role names, or the refusal for a name that
    /// is none of them.
    pub fn for_role(name: &str) -> (r: Result<CorrespondingServer, Refusal>)
        ensures
            corresponding_server_spec(name@) is Some ==> r == Ok::<CorrespondingServer, Refusal>(
                corresponding_server_spec(name@)->Some_0,
            ),
            corresponding_server_spec(name@) is None ==> refused_with(
                r,
                BAD_REQUEST,
                unsupported_server_message(name@),
            ),
    {
        match CorrespondingServer::from_name(name) {
            Some(s) => Ok(s),
            None => {
                let head = concat("Server ", name);
                let mid = concat(head.as_str(), " is not a supported corresponding role. Supported: ");
                let msg = concat(mid.as_str(), "[\n    \"Main\",\n    \"Testing\",\n    \"Staff\",\n]");
                Err(Refusal::new(BAD_REQUEST, msg))
            },
        }
    }

    /// The Discord id of the server.
    pub fn get_id(&self, servers: &Servers) -> (r: u64)
        ensures
            *self == CorrespondingServer::Main ==> r == servers.main,
            *self == CorrespondingServer::Testing ==> r == servers.testing,
            *self == CorrespondingServer::Staff ==> r == servers.staff,
    {
        match self {
            CorrespondingServer::Main => servers.main,
            CorrespondingServer::Testing => servers.testing,
            CorrespondingServer::Staff => servers.staff,
        }
    }
}

/// Checks that a corresponding role exists on its server.
pub fn check_corresponding_role(role: u64, server: u64, exists: bool) -> (r: Result<(), Refusal>)
    ensures
        r is Ok <==> exists,
        !exists ==> refused_with(r, BAD_REQUEST, missing_role_message(role, server)),
{
    if !exists {
        let a = concat("Role ", decimal(role).as_str());
        let b = concat(a.as_str(), " does not exist on the server ");
        let msg = concat(b.as_str(), decimal(server).as_str());
        return Err(Refusal::new(BAD_REQUEST, msg));
    }
    Ok(())
}

/// A member who holds a position can never act on their own highest one:
/// one of their positions is always out of their reach.
pub proof fn law_own_highest_position_is_out_of_reach(member: Seq<i32>)
    requires
        member.len() > 0,
    ensures
        exists|k: int| 0 <= k < member.len() && !outranks(member, #[trigger] member[k]),
{
    lemma_lowest_index(member);
}

/// A swap is allowed or refused whichever way round the two positions are
/// given, and an allowed swap leaves both positions below the member.
pub proof fn law_swap_is_symmetric(member: Seq<i32>, index_a: i32, index_b: i32)
    ensures
        swap_allowed(member, index_a, index_b) == swap_allowed(member, index_b, index_a),
        swap_allowed(member, index_a, index_b) ==> outranks(member, index_b) && outranks(member, index_a),
{
}

/// A member who holds no position outranks no index at all, so every
/// change of a position is refused to them.
pub proof fn law_no_position_no_reach(member: Seq<i32>, index: i32)
    requires
        member.len() == 0,
    ensures
        !outranks(member, index),
{
}

/// Gaining a position never narrows what a member may act on.
pub proof fn law_more_positions_more_reach(member: Seq<i32>, extra: i32, index: i32)
    requires
        outranks(member, index),
    ensures
        outranks(member.push(extra), index),
{
    assert(member.push(extra).drop_last() =~= member);
}

/// A member may always edit themself.
pub proof fn law_member_may_edit_self(member: Seq<i32>)
    ensures
        may_edit_member(member, member),
{
}

/// Editing rights pass down the hierarchy: whom a member may edit, and whom
/// they in turn may edit, the first may edit too.
pub proof fn law_member_edit_is_transitive(a: Seq<i32>, b: Seq<i32>, c: Seq<i32>)
    requires
        may_edit_member(a, b),
        may_edit_member(b, c),
    ensures
        may_edit_member(a, c),
{
}

/// A position as the permission resolver sees it: its id, its index and
/// its permissions.
#[derive(Debug, Clone)]
pub struct PartialPosition {
    pub id: String,
    pub index: i32,
    pub perms: Vec<String>,
}

/// An active disciplinary of a member: its id, the permissions it limits the
/// member to, and whether it adds to the member's positions (`additory`)
/// rather than replacing them.
#[derive(Debug, Clone)]
pub struct ActiveDisciplinary {
    pub id: String,
    pub perm_limits: Vec<String>,
    pub additory: bool,
}

/// The plain view of a position: id, index and permissions.
pub open spec fn position_view(p: PartialPosition) -> (Seq<char>, i32, Seq<Seq<char>>) {
    (p.id@, p.index, str_views(p.perms@))
}

/// The views of the positions.
pub open spec fn positions_view(ps: Seq<PartialPosition>) -> Seq<(Seq<char>, i32, Seq<Seq<char>>)> {
    ps.map_values(|p: PartialPosition| position_view(p))
}

/// The ids of the disciplinaries.
pub open spec fn disciplinary_ids(ds: Seq<ActiveDisciplinary>) -> Seq<Seq<char>> {
    ds.map_values(|d: ActiveDisciplinary| d.id@)
}

/// The positions whose id is one of `ids`, in order.
pub open spec fn keep_ids(ps: Seq<(Seq<char>, i32, Seq<Seq<char>>)>, ids: Seq<Seq<char>>) -> Seq<
    (Seq<char>, i32, Seq<Seq<char>>),
>
    decreases ps.len(),
{
    if ps.len() == 0 {
        Seq::empty()
    } else {
        let rest = keep_ids(ps.drop_last(), ids);
        if ids.contains(ps.last().0) {
            rest.push(ps.last())
        } else {
            rest
        }
    }
}

/// The positions a member's permissions are resolved from, once their
/// active disciplinaries are applied in order: each adds a position of index
/// 0 with its permission limits, and one that is not additory then drops
/// every position that is not a disciplinary's.
pub open spec fn with_disciplinaries(
    ps: Seq<(Seq<char>, i32, Seq<Seq<char>>)>,
    ds: Seq<ActiveDisciplinary>,
) -> Seq<(Seq<char>, i32, Seq<Seq<char>>)>
    decreases ds.len(),
{
    if ds.len() == 0 {
        ps
    } else {
        let d = ds.last();
        let pushed = with_disciplinaries(ps, ds.drop_last()).push(
            (d.id@, 0i32, str_views(d.perm_limits@)),
        );
        if d.additory {
            pushed
        } else {
            keep_ids(pushed, disciplinary_ids(ds))
        }
    }
}

fn copy_strings(v: &Vec<String>) -> (r: Vec<String>)
    ensures
        str_views(r@) == str_views(v@),
{
    let mut r: Vec<String> = Vec::new();
    let mut i: usize = 0;
    while i < v.len()
        invariant
            i <= v.len(),
            str_views(r@) == str_views(v@.take(i as int)),
        decreases v.len() - i,
    {
        r.push(owned(v[i].as_str()));
        assert(str_views(v@.take(i + 1)) =~= str_views(v@.take(i as int)).push(v@[i as int]@));
        assert(str_views(r@) =~= str_views(v@.take(i + 1)));
        i = i + 1;
    }
    assert(v@.take(v.len() as int) =~= v@);
    r
}

fn copy_position(p: &PartialPosition) -> (r: PartialPosition)
    ensures
        position_view(r) == position_view(*p),
{
    PartialPosition { id: owned(p.id.as_str()), index: p.index, perms: copy_strings(&p.perms) }
}

fn keep_ids_exec(ps: &Vec<PartialPosition>, ids: &Vec<String>) -> (r: Vec<PartialPosition>)
    ensures
        positions_view(r@) == keep_ids(positions_view(ps@), str_views(ids@)),
{
    let mut r: Vec<PartialPosition> = Vec::new();
    let mut i: usize = 0;
    while i < ps.len()
        invariant
            i <= ps.len(),
            positions_view(r@) == keep_ids(positions_view(ps@.take(i as int)), str_views(ids@)),
        decreases ps.len() - i,
    {
        assert(positions_view(ps@.take(i + 1)).drop_last() =~= positions_view(ps@.take(i as int)));
        if contains_str(ids, ps[i].id.as_str()) {
            r.push(copy_position(&ps[i]));
            assert(positions_view(r@) =~= keep_ids(positions_view(ps@.take(i + 1)), str_views(ids@)));
        }
        i = i + 1;
    }
    assert(ps@.take(ps.len() as int) =~= ps@);
    r
}

/// The positions a member's permissions are resolved from, once their active
/// disciplinaries are applied in order: each adds a position of index 0 with
/// its permission limits, and one that is not additory then keeps only the
/// positions of the disciplinaries applied so far.
pub fn apply_disciplinaries(positions: Vec<PartialPosition>, disciplinaries: &Vec<ActiveDisciplinary>) -> (r: Vec<
    PartialPosition,
>)
    ensures
        positions_view(r@) == with_disciplinaries(positions_view(positions@), disciplinaries@),
{
    let mut ps = positions;
    let mut added: Vec<String> = Vec::new();
    let ghost start = positions_view(ps@);
    let mut i: usize = 0;
    while i < disciplinaries.len()
        invariant
            i <= disciplinaries.len(),
            positions_view(ps@) == with_disciplinaries(start, disciplinaries@.take(i as int)),
            str_views(added@) == disciplinary_ids(disciplinaries@.take(i as int)),
        decreases disciplinaries.len() - i,
    {
        let d = &disciplinaries[i];
        let ghost ds = disciplinaries@.take(i + 1);
        assert(ds.drop_last() =~= disciplinaries@.take(i as int));
        assert(ds.last() == *d);
        ps.push(PartialPosition { id: owned(d.id.as_str()), index: 0, perms: copy_strings(&d.perm_limits) });
        added.push(owned(d.id.as_str()));
        assert(disciplinary_ids(ds) =~= disciplinary_ids(disciplinaries@.take(i as int)).push(d.id@));
        assert(str_views(added@) =~= disciplinary_ids(ds));
        assert(positions_view(ps@) =~= with_disciplinaries(start, ds.drop_last()).push(
            (d.id@, 0i32, str_views(d.perm_limits@)),
        ));
        if !d.additory {
            ps = keep_ids_exec(&ps, &added);
        }
        i = i + 1;
    }
    assert(disciplinaries@.take(disciplinaries.len() as int) =~= disciplinaries@);
    ps
}

/// Every position kept by id has one of those ids.
pub proof fn lemma_keep_ids(ps: Seq<(Seq<char>, i32, Seq<Seq<char>>)>, ids: Seq<Seq<char>>)
    ensures
        forall|k: int| 0 <= k < keep_ids(ps, ids).len() ==> ids.contains(#[trigger] keep_ids(ps, ids)[k].0),
        ps.len() > 0 && ids.contains(ps.last().0) ==> keep_ids(ps, ids).len() > 0 && keep_ids(ps, ids).last() == ps.last(),
    decreases ps.len(),
{
    if ps.len() > 0 {
        lemma_keep_ids(ps.drop_last(), ids);
        let rest = keep_ids(ps.drop_last(), ids);
        assert forall|k: int| 0 <= k < keep_ids(ps, ids).len() implies ids.contains(#[trigger] keep_ids(ps, ids)[k].0) by {
            if k < rest.len() {
                assert(keep_ids(ps, ids)[k] == rest[k]);
            }
        }
    }
}

/// A disciplinary that is not additory replaces the member's positions: after
/// it, every position their permissions come from is a disciplinary's.
pub proof fn law_restrictive_disciplinary_replaces_positions(
    ps: Seq<(Seq<char>, i32, Seq<Seq<char>>)>,
    ds: Seq<ActiveDisciplinary>,
    k: int,
)
    requires
        ds.len() > 0,
        !ds.last().additory,
        0 <= k < with_disciplinaries(ps, ds).len(),
    ensures
        disciplinary_ids(ds).contains(with_disciplinaries(ps, ds)[k].0),
{
    let d = ds.last();
    let pushed = with_disciplinaries(ps, ds.drop_last()).push((d.id@, 0i32, str_views(d.perm_limits@)));
    lemma_keep_ids(pushed, disciplinary_ids(ds));
}

/// The last disciplinary applied always contributes its own position: index 0
/// with its permission limits, at the end of the list.
pub proof fn law_latest_disciplinary_is_in_force(
    ps: Seq<(Seq<char>, i32, Seq<Seq<char>>)>,
    ds: Seq<ActiveDisciplinary>,
)
    requires
        ds.len() > 0,
    ensures
        with_disciplinaries(ps, ds).len() > 0,
        with_disciplinaries(ps, ds).last() == (ds.last().id@, 0i32, str_views(ds.last().perm_limits@)),
{
    let d = ds.last();
    let pushed = with_disciplinaries(ps, ds.drop_last()).push((d.id@, 0i32, str_views(d.perm_limits@)));
    assert(disciplinary_ids(ds)[ds.len() - 1] == d.id@);
    lemma_keep_ids(pushed, disciplinary_ids(ds));
}

/// Without an active disciplinary, a member's permissions come from their
/// positions alone.
pub proof fn law_no_disciplinary_no_change(ps: Seq<(Seq<char>, i32, Seq<Seq<char>>)>)
    ensures
        with_disciplinaries(ps, Seq::<ActiveDisciplinary>::empty()) == ps,
{
}

/// Reads the position id of a move to another index, then checks the
/// permission (`allowed`: the member holds `staff_positions.set_index`) and
/// the new index, in that order. The answer is the position's UUID.
pub fn plan_set_index(member: &Vec<i32>, allowed: bool, position_id: &str, index: i32) -> (r: Result<
    u128,
    Refusal,
>)
    ensures
        r is Ok <==> (uuid_parse_spec(position_id@) is Ok && allowed && index >= 0 && outranks(
            member@,
            index,
        )),
        r is Ok ==> uuid_parse_spec(position_id@) == Ok::<u128, Seq<char>>(r->Ok_0),
        uuid_parse_spec(position_id@) is Err ==> refused_with(
            r,
            INTERNAL_ERROR,
            uuid_parse_spec(position_id@)->Err_0,
        ),
        uuid_parse_spec(position_id@) is Ok && !allowed ==> refused_with(
            r,
            FORBIDDEN,
            denial_spec(PanelPerm::StaffPositionsSetIndex),
        ),
        uuid_parse_spec(position_id@) is Ok && allowed && index < 0 ==> refused_with(
            r,
            BAD_REQUEST,
            "Index cannot be lower than 0"@,
        ),
        uuid_parse_spec(position_id@) is Ok && allowed && index >= 0 && !outranks(member@, index)
            ==> refused_with(
            r,
            FORBIDDEN,
            "Index to set is lower than or equal to the lowest index of the staff member"@,
        ),
{
    let id = match parse_uuid(position_id) {
        Ok(u) => u,
        Err(e) => {
            return Err(Refusal::new(INTERNAL_ERROR, e));
        },
    };
    PanelPerm::StaffPositionsSetIndex.check(allowed)?;
    check_set_index(member, index)?;
    Ok(id)
}

/// A staff position's id and index.
#[derive(Debug, Clone)]
pub struct PositionRow {
    pub id: String,
    pub index: i32,
}

/// A position's index after the position `id` moves to `index`: the moved
/// position takes `index`, and every other position at or below it moves one
/// further down.
pub open spec fn set_index_rule(row_id: Seq<char>, row_index: i32, id: Seq<char>, index: i32) -> int {
    if row_id == id {
        index as int
    } else if row_index >= index {
        row_index + 1
    } else {
        row_index as int
    }
}

/// A position's index after a new position is created at `index`: every
/// position at or below it moves one further down.
pub open spec fn create_rule(row_index: i32, index: i32) -> int {
    if row_index >= index {
        row_index + 1
    } else {
        row_index as int
    }
}

/// A remaining position's index after the position at `removed` is deleted:
/// every position below it moves one up.
pub open spec fn delete_rule(row_index: i32, removed: i32) -> int {
    if row_index > removed {
        row_index - 1
    } else {
        row_index as int
    }
}

/// The positions' indexes after the position `id` moves to `index`.
pub fn set_index_rows(rows: &Vec<PositionRow>, id: &str, index: i32) -> (r: Vec<PositionRow>)
    requires
        forall|i: int| 0 <= i < rows@.len() ==> (#[trigger] rows@[i]).index < i32::MAX,
    ensures
        r@.len() == rows@.len(),
        forall|i: int|
            0 <= i < r@.len() ==> (#[trigger] r@[i]).id@ == rows@[i].id@ && r@[i].index
                == set_index_rule(rows@[i].id@, rows@[i].index, id@, index),
{
    let mut r: Vec<PositionRow> = Vec::new();
    let mut i: usize = 0;
    while i < rows.len()
        invariant
            i <= rows@.len(),
            r@.len() == i,
            forall|j: int| 0 <= j < rows@.len() ==> (#[trigger] rows@[j]).index < i32::MAX,
            forall|j: int|
                0 <= j < i ==> (#[trigger] r@[j]).id@ == rows@[j].id@ && r@[j].index
                    == set_index_rule(rows@[j].id@, rows@[j].index, id@, index),
        decreases rows.len() - i,
    {
        let row = &rows[i];
        let new_index = if str_eq(row.id.as_str(), id) {
            index
        } else if row.index >= index {
            row.index + 1
        } else {
            row.index
        };
        r.push(PositionRow { id: owned(row.id.as_str()), index: new_index });
        i = i + 1;
    }
    r
}

/// The existing positions' indexes after a new position is created at
/// `index`.
pub fn create_position_rows(rows: &Vec<PositionRow>, index: i32) -> (r: Vec<PositionRow>)
    requires
        forall|i: int| 0 <= i < rows@.len() ==> (#[trigger] rows@[i]).index < i32::MAX,
    ensures
        r@.len() == rows@.len(),
        forall|i: int|
            0 <= i < r@.len() ==> (#[trigger] r@[i]).id@ == rows@[i].id@ && r@[i].index
                == create_rule(rows@[i].index, index),
{
    let mut r: Vec<PositionRow> = Vec::new();
    let mut i: usize = 0;
    while i < rows.len()
        invariant
            i <= rows@.len(),
            r@.len() == i,
            forall|j: int| 0 <= j < rows@.len() ==> (#[trigger] rows@[j]).index < i32::MAX,
            forall|j: int|
                0 <= j < i ==> (#[trigger] r@[j]).id@ == rows@[j].id@ && r@[j].index
                    == create_rule(rows@[j].index, index),
        decreases rows.len() - i,
    {
        let row = &rows[i];
        let new_index = if row.index >= index {
            row.index + 1
        } else {
            row.index
        };
        r.push(PositionRow { id: owned(row.id.as_str()), index: new_index });
        i = i + 1;
    }
    r
}

/// The remaining positions' indexes after the position `id`, at index
/// `removed`, is deleted.
pub open spec fn kept_after_delete(rows: Seq<PositionRow>, id: Seq<char>) -> Seq<PositionRow>
    decreases rows.len(),
{
    if rows.len() == 0 {
        Seq::empty()
    } else {
        let rest = kept_after_delete(rows.drop_last(), id);
        if rows.last().id@ == id {
            rest
        } else {
            rest.push(rows.last())
        }
    }
}

/// The remaining positions, with their indexes, after the position `id` at
/// index `removed` is deleted.
pub fn delete_position_rows(rows: &Vec<PositionRow>, id: &str, removed: i32) -> (r: Vec<PositionRow>)
    requires
        forall|i: int| 0 <= i < rows@.len() ==> (#[trigger] rows@[i]).index > i32::MIN,
    ensures
        r@.len() == kept_after_delete(rows@, id@).len(),
        forall|i: int|
            0 <= i < r@.len() ==> (#[trigger] r@[i]).id@ == kept_after_delete(rows@, id@)[i].id@
                && r@[i].index == delete_rule(kept_after_delete(rows@, id@)[i].index, removed),
{
    let mut r: Vec<PositionRow> = Vec::new();
    let mut i: usize = 0;
    while i < rows.len()
        invariant
            i <= rows@.len(),
            forall|j: int| 0 <= j < rows@.len() ==> (#[trigger] rows@[j]).index > i32::MIN,
            r@.len() == kept_after_delete(rows@.take(i as int), id@).len(),
            forall|j: int|
                0 <= j < r@.len() ==> (#[trigger] r@[j]).id@ == kept_after_delete(
                    rows@.take(i as int),
                    id@,
                )[j].id@ && r@[j].index == delete_rule(
                    kept_after_delete(rows@.take(i as int), id@)[j].index,
                    removed,
                ),
        decreases rows.len() - i,
    {
        assert(rows@.take(i + 1).drop_last() =~= rows@.take(i as int));
        let row = &rows[i];
        if !str_eq(row.id.as_str(), id) {
            let new_index = if row.index > removed {
                row.index - 1
            } else {
                row.index
            };
            r.push(PositionRow { id: owned(row.id.as_str()), index: new_index });
        }
        i = i + 1;
    }
    assert(rows@.take(rows@.len() as int) =~= rows@);
    r
}

/// No position action reaches at or above the acting member's highest
/// position: once its checks pass, a move (of a position at `current` to
/// `index`), a creation (at `index`) or a deletion (of a position at
/// `current`) leaves the index of every such position as it was, a swap (of
/// positions at `index` and `current`) writes neither of them, and every
/// position it moves, creates or swaps ends below the member's. (An edit
/// changes no index and is refused unless the position is below the member.)
pub proof fn law_position_actions_spare_higher_ranks(
    member: Seq<i32>,
    row_id: Seq<char>,
    row_index: i32,
    id: Seq<char>,
    index: i32,
    current: i32,
)
    requires
        row_index <= lowest_index_spec(member),
        row_id == id ==> row_index == current,
    ensures
        index >= 0 && outranks(member, index) && outranks(member, current) ==> set_index_rule(
            row_id,
            row_index,
            id,
            index,
        ) == row_index && index > lowest_index_spec(member),
        index >= 0 && outranks(member, index) ==> index > lowest_index_spec(member),
        swap_allowed(member, index, current) ==> index > lowest_index_spec(member) && current
            > lowest_index_spec(member),
        index >= 0 && outranks(member, index) ==> create_rule(row_index, index) == row_index,
        outranks(member, current) ==> row_id != id && delete_rule(row_index, current) == row_index,
        swap_allowed(member, index, current) ==> row_index != index && row_index != current,
{
}

/// What editing a staff member writes: only their permission overrides and
/// their two flags.
#[derive(Debug, Clone)]
pub struct MemberEdit {
    pub user_id: String,
    pub perm_overrides: Vec<String>,
    pub no_autosync: bool,
    pub unaccounted: bool,
}

/// Edits the staff member `user_id` (holding positions of the indexes
/// `target`) for a member holding positions of the indexes `member`:
/// `allowed` is whether they hold `staff_members.edit`, and `patch` the
/// outcome of comparing their permissions with the target's before and after
/// the new overrides. The checks come in that order; the edit then writes the
/// overrides and the flags, and nothing else.
pub fn plan_edit_member(
    member: &Vec<i32>,
    target: &Vec<i32>,
    allowed: bool,
    patch: Result<(), String>,
    user_id: &str,
    perm_overrides: Vec<String>,
    no_autosync: bool,
    unaccounted: bool,
) -> (r: Result<MemberEdit, Refusal>)
    ensures
        r is Ok <==> allowed && may_edit_member(member@, target@) && patch is Ok,
        !allowed ==> refused_with(r, FORBIDDEN, denial_spec(PanelPerm::StaffMembersEdit)),
        allowed && !may_edit_member(member@, target@) ==> refused_with(
            r,
            FORBIDDEN,
            "Target has a lower index than the member"@,
        ),
        allowed && may_edit_member(member@, target@) && patch is Err ==> refused_with(
            r,
            FORBIDDEN,
            "You do not have permission to edit the following perms: "@ + patch->Err_0@,
        ),
        r matches Ok(e) ==> e.user_id@ == user_id@ && e.perm_overrides == perm_overrides
            && e.no_autosync == no_autosync && e.unaccounted == unaccounted,
{
    PanelPerm::StaffMembersEdit.check(allowed)?;
    check_member_edit(member, target)?;
    check_perm_changes(patch)?;
    Ok(MemberEdit { user_id: owned(user_id), perm_overrides, no_autosync, unaccounted })
}

/// The checks before a panel entry is created, edited or deleted, in order:
/// the member's permission for `perm` (`allowed`); when the entry carries
/// permissions, the outcome `patch` of comparing them with the member's; and
/// when the entry must exist already, `count`, how many entries have its id.
pub fn write_gate(perm: PanelPerm, allowed: bool, patch: Option<Result<(), String>>, count: Option<
    i64,
>) -> (r: Result<(), Refusal>)
    ensures
        r is Ok <==> allowed && !(patch matches Some(Err(_))) && count != Some(0i64),
        !allowed ==> refused_with(r, FORBIDDEN, denial_spec(perm)),
        allowed ==> (patch matches Some(Err(e)) ==> refused_with(
            r,
            FORBIDDEN,
            "You do not have permission to edit the following perms: "@ + e@,
        )),
        allowed && !(patch matches Some(Err(_))) && count == Some(0i64) ==> refused_with(
            r,
            BAD_REQUEST,
            "Entry with same id does not already exist"@,
        ),
{
    perm.check(allowed)?;
    if let Some(outcome) = patch {
        check_perm_changes(outcome)?;
    }
    if let Some(n) = count {
        crate::shop::check_entry_exists(n)?;
    }
    Ok(())
}

} // verus!
