//! Partners: the checks a partner must pass before it is saved, and where its
//! image lives on the CDN.
use crate::panel::{denial_spec, refused_with, Link, PanelPerm, Refusal, BAD_REQUEST, FORBIDDEN};
use crate::text::{concat, starts_with};
use vstd::prelude::*;

verus! {

/// A partner as the panel creates or updates it.
#[derive(Debug, Clone, Default)]
pub struct CreatePartner {
    pub id: String,
    pub name: String,
    pub short: String,
    pub links: Vec<Link>,
    pub partner_type: String,
    pub user_id: String,
}

/// What the panel can do with partners.
#[derive(Debug, Clone)]
pub enum PartnerAction {
    /// List partners
    List,
    /// Create a new partner
    Create { partner: CreatePartner },
    /// Update a partner
    Update { partner: CreatePartner },
    /// Delete a partner
    Delete { id: String },
}

impl Default for PartnerAction {
    fn default() -> (r: Self)
        ensures
            r is List,
    {
        PartnerAction::List
    }
}

/// Checks that a partner to be created does not exist yet.
pub fn check_new_partner(exists: bool) -> (r: Result<(), Refusal>)
    ensures
        r is Ok <==> !exists,
        exists ==> refused_with(r, BAD_REQUEST, "Partner already exists"@),
{
    if exists {
        return Err(Refusal::bad_request("Partner already exists"));
    }
    Ok(())
}

/// Checks that a partner to be updated exists.
pub fn check_updated_partner(exists: bool) -> (r: Result<(), Refusal>)
    ensures
        r is Ok <==> exists,
        !exists ==> refused_with(r, BAD_REQUEST, "Partner does not already exist"@),
{
    if !exists {
        return Err(Refusal::bad_request("Partner does not already exist"));
    }
    Ok(())
}

/// Checks that a partner to be deleted exists.
pub fn check_deleted_partner(exists: bool) -> (r: Result<(), Refusal>)
    ensures
        r is Ok <==> exists,
        !exists ==> refused_with(r, BAD_REQUEST, "Partner does not exist"@),
{
    if !exists {
        return Err(Refusal::bad_request("Partner does not exist"));
    }
    Ok(())
}

/// Checks that the partner's type exists.
pub fn check_partner_type(exists: bool) -> (r: Result<(), Refusal>)
    ensures
        r is Ok <==> exists,
        !exists ==> refused_with(r, BAD_REQUEST, "Partner type does not exist"@),
{
    if !exists {
        return Err(Refusal::bad_request("Partner type does not exist"));
    }
    Ok(())
}

/// Checks that the panel's main CDN scope is configured; gives its path.
pub fn check_main_scope(path: Option<&str>) -> (r: Result<&str, Refusal>)
    ensures
        path is Some ==> r == Ok::<&str, Refusal>(path->Some_0),
        path is None ==> refused_with(r, BAD_REQUEST, "Main scope not found"@),
{
    match path {
        Some(p) => Ok(p),
        None => Err(Refusal::bad_request("Main scope not found")),
    }
}

/// Checks that the partner's user exists.
pub fn check_partner_user(exists: bool) -> (r: Result<(), Refusal>)
    ensures
        r is Ok <==> exists,
        !exists ==> refused_with(r, BAD_REQUEST, "User does not exist"@),
{
    if !exists {
        return Err(Refusal::bad_request("User does not exist"));
    }
    Ok(())
}

/// Where a partner's avatar is uploaded under a CDN scope's path.
pub open spec fn partner_avatar_path_spec(cdn_path: Seq<char>, id: Seq<char>) -> Seq<char> {
    cdn_path + "/avatars/partners/"@ + id + ".webp"@
}

/// Where a partner's avatar is uploaded under a CDN scope's path.
pub fn partner_avatar_path(cdn_path: &str, id: &str) -> (r: String)
    ensures
        r@ == partner_avatar_path_spec(cdn_path@, id@),
{
    let a = concat(cdn_path, "/avatars/partners/");
    let b = concat(a.as_str(), id);
    concat(b.as_str(), ".webp")
}

/// The asset removed with a deleted partner, under a CDN scope's path.
pub open spec fn partner_asset_path_spec(cdn_path: Seq<char>, id: Seq<char>) -> Seq<char> {
    cdn_path + "/partners/"@ + id + ".webp"@
}

/// The asset removed with a deleted partner, under a CDN scope's path.
pub fn partner_asset_path(cdn_path: &str, id: &str) -> (r: String)
    ensures
        r@ == partner_asset_path_spec(cdn_path@, id@),
{
    let a = concat(cdn_path, "/partners/");
    let b = concat(a.as_str(), id);
    concat(b.as_str(), ".webp")
}

/// The largest avatar accepted, in bytes.
pub const MAX_IMAGE_BYTES: u64 = 100_000_000;

/// What the file system says of a partner's avatar: whether it is a regular
/// file and its length, or why it could not be read.
#[derive(Debug, Clone)]
pub enum ImageMetadata {
    Found { is_file: bool, len: u64 },
    Unreadable { error: String },
}

/// The problem with a partner's avatar, if any.
pub open spec fn image_problem(m: ImageMetadata) -> Option<Seq<char>> {
    match m {
        ImageMetadata::Found { is_file, len } => {
            if !is_file {
                Some("Image does not exist"@)
            } else if len > MAX_IMAGE_BYTES {
                Some("Image is too large"@)
            } else if len == 0 {
                Some("Image is empty"@)
            } else {
                None
            }
        },
        ImageMetadata::Unreadable { error } => Some(
            "Fetching image metadata failed: "@ + error@,
        ),
    }
}

/// Checks a partner's avatar: a regular file of 1 to 100 000 000 bytes.
pub fn check_image(m: &ImageMetadata) -> (r: Result<(), Refusal>)
    ensures
        r is Ok <==> image_problem(*m) is None,
        image_problem(*m) is Some ==> refused_with(r, BAD_REQUEST, image_problem(*m)->Some_0),
{
    match m {
        ImageMetadata::Found { is_file, len } => {
            if !*is_file {
                return Err(Refusal::bad_request("Image does not exist"));
            }
            if *len > MAX_IMAGE_BYTES {
                return Err(Refusal::bad_request("Image is too large"));
            }
            if *len == 0 {
                return Err(Refusal::bad_request("Image is empty"));
            }
            Ok(())
        },
        ImageMetadata::Unreadable { error } => Err(Refusal::new(
            BAD_REQUEST,
            concat("Fetching image metadata failed: ", error.as_str()),
        )),
    }
}

/// The problem with one link of a partner, if any.
pub open spec fn link_problem(l: Link) -> Option<Seq<char>> {
    if l.name@.len() == 0 {
        Some("Link name cannot be empty"@)
    } else if l.value@.len() == 0 {
        Some("Link URL cannot be empty"@)
    } else if !("https://"@.len() <= l.value@.len() && l.value@.take("https://"@.len() as int)
        == "https://"@) {
        Some("Link URL must start with https://"@)
    } else {
        None
    }
}

/// The problem with the first faulty link, if any.
pub open spec fn first_link_problem(links: Seq<Link>) -> Option<Seq<char>>
    decreases links.len(),
{
    if links.len() == 0 {
        None
    } else if link_problem(links[0]) is Some {
        link_problem(links[0])
    } else {
        first_link_problem(links.drop_first())
    }
}

/// The problem with a partner's links, if any: there must be one, and each
/// needs a name and an `https://` URL.
pub open spec fn links_problem(links: Seq<Link>) -> Option<Seq<char>> {
    if links.len() == 0 {
        Some("Links cannot be empty"@)
    } else {
        first_link_problem(links)
    }
}

/// The links are free of problems exactly when each one is.
pub proof fn lemma_first_link_problem(links: Seq<Link>)
    ensures
        first_link_problem(links) is None <==> forall|i: int|
            0 <= i < links.len() ==> (#[trigger] link_problem(links[i])) is None,
    decreases links.len(),
{
    if links.len() > 0 {
        lemma_first_link_problem(links.drop_first());
        assert forall|i: int| 1 <= i < links.len() implies links[i] == links.drop_first()[i - 1] by {}
        if first_link_problem(links) is None {
            assert forall|i: int| 0 <= i < links.len() implies (#[trigger] link_problem(
                links[i],
            )) is None by {
                if i > 0 {
                    assert(links[i] == links.drop_first()[i - 1]);
                }
            }
        }
        if forall|i: int| 0 <= i < links.len() ==> (#[trigger] link_problem(links[i])) is None {
            assert(link_problem(links[0]) is None);
            assert forall|i: int| 0 <= i < links.drop_first().len() implies (
            #[trigger] link_problem(links.drop_first()[i])) is None by {
                assert(links.drop_first()[i] == links[i + 1]);
            }
        }
    }
}

fn check_link(l: &Link) -> (r: Result<(), Refusal>)
    ensures
        r is Ok <==> link_problem(*l) is None,
        link_problem(*l) is Some ==> refused_with(r, BAD_REQUEST, link_problem(*l)->Some_0),
{
    if l.name.as_str().unicode_len() == 0 {
        return Err(Refusal::bad_request("Link name cannot be empty"));
    }
    if l.value.as_str().unicode_len() == 0 {
        return Err(Refusal::bad_request("Link URL cannot be empty"));
    }
    if !starts_with(l.value.as_str(), "https://") {
        return Err(Refusal::bad_request("Link URL must start with https://"));
    }
    Ok(())
}

/// Checks a partner's links: there is at least one, each has a name and a URL
/// that starts with `https://`; the first faulty link gives the refusal.
pub fn check_links(links: &Vec<Link>) -> (r: Result<(), Refusal>)
    ensures
        r is Ok <==> links_problem(links@) is None,
        links_problem(links@) is Some ==> refused_with(
            r,
            BAD_REQUEST,
            links_problem(links@)->Some_0,
        ),
{
    if links.len() == 0 {
        return Err(Refusal::bad_request("Links cannot be empty"));
    }
    let mut i: usize = 0;
    assert(links@.subrange(0, links.len() as int) =~= links@);
    while i < links.len()
        invariant
            i <= links.len(),
            links.len() > 0,
            first_link_problem(links@) == first_link_problem(links@.subrange(i as int, links.len() as int)),
        decreases links.len() - i,
    {
        let ghost rest = links@.subrange(i as int, links.len() as int);
        assert(rest[0] == links@[i as int]);
        assert(rest.drop_first() =~= links@.subrange(i + 1, links.len() as int));
        match check_link(&links[i]) {
            Ok(()) => {},
            Err(e) => {
                return Err(e);
            },
        }
        i = i + 1;
    }
    assert(links@.subrange(links.len() as int, links.len() as int).len() == 0);
    Ok(())
}

/// Every partner that passes the link check has at least one link, and each
/// of its links has a name and an `https://` URL.
pub proof fn law_accepted_links_are_https(links: Seq<Link>, i: int)
    requires
        links_problem(links) is None,
        0 <= i < links.len(),
    ensures
        links.len() > 0,
        links[i].name@.len() > 0,
        links[i].value@.take(8) == "https://"@,
{
    lemma_first_link_problem(links);
    assert(link_problem(links[i]) is None);
    reveal_strlit("https://");
}

/// What to do with a deleted partner's asset, from what the file system says
/// of it.
#[derive(Debug, Clone, PartialEq, Eq)]
pub enum AssetState {
    /// A file or a link to one
    File,
    /// A directory
    Directory,
    /// Something else
    Other,
    /// Nothing is there
    Missing,
    /// The file system could not tell
    Unreadable { error: String },
}

/// The removal a deleted partner's asset needs.
#[derive(Debug, Clone, Copy, PartialEq, Eq, Structural)]
pub enum AssetRemoval {
    RemoveFile,
    RemoveDirectory,
    Keep,
}

/// Decides the removal of a deleted partner's asset; an unreadable asset
/// refuses the deletion.
pub fn asset_removal(state: &AssetState) -> (r: Result<AssetRemoval, Refusal>)
    ensures
        *state == AssetState::File ==> r == Ok::<AssetRemoval, Refusal>(AssetRemoval::RemoveFile),
        *state == AssetState::Directory ==> r == Ok::<AssetRemoval, Refusal>(
            AssetRemoval::RemoveDirectory,
        ),
        (*state == AssetState::Other || *state == AssetState::Missing) ==> r == Ok::<
            AssetRemoval,
            Refusal,
        >(AssetRemoval::Keep),
        state matches AssetState::Unreadable { error } ==> refused_with(
            r,
            BAD_REQUEST,
            "Fetching asset metadata failed due to unknown error: "@ + error@,
        ),
{
    match state {
        AssetState::File => Ok(AssetRemoval::RemoveFile),
        AssetState::Directory => Ok(AssetRemoval::RemoveDirectory),
        AssetState::Other => Ok(AssetRemoval::Keep),
        AssetState::Missing => Ok(AssetRemoval::Keep),
        AssetState::Unreadable { error } => Err(Refusal::new(
            BAD_REQUEST,
            concat("Fetching asset metadata failed due to unknown error: ", error.as_str()),
        )),
    }
}

/// Checks a partner to be created (or, when `updating`, updated): the member
/// must hold the action's permission (`allowed`), and the partner must not
/// exist yet (must exist, for an update). Gives nothing else: the partner's
/// own checks follow.
pub fn check_partner_write(updating: bool, allowed: bool, exists: bool) -> (r: Result<(), Refusal>)
    ensures
        r is Ok <==> allowed && (if updating {
            exists
        } else {
            !exists
        }),
        !allowed ==> refused_with(
            r,
            FORBIDDEN,
            denial_spec(
                if updating {
                    PanelPerm::PartnersUpdate
                } else {
                    PanelPerm::PartnersCreate
                },
            ),
        ),
        allowed && !updating && exists ==> refused_with(r, BAD_REQUEST, "Partner already exists"@),
        allowed && updating && !exists ==> refused_with(
            r,
            BAD_REQUEST,
            "Partner does not already exist"@,
        ),
{
    if updating {
        PanelPerm::PartnersUpdate.check(allowed)?;
        check_updated_partner(exists)
    } else {
        PanelPerm::PartnersCreate.check(allowed)?;
        check_new_partner(exists)
    }
}

/// The first of a partner's own checks: its type must exist, and the main
/// CDN scope (`main_scope`, its path) must be configured. Gives where the
/// partner's avatar must have been uploaded.
pub fn partner_avatar_location(type_exists: bool, main_scope: Option<&str>, id: &str) -> (r: Result<
    String,
    Refusal,
>)
    ensures
        r is Ok <==> type_exists && main_scope is Some,
        !type_exists ==> refused_with(r, BAD_REQUEST, "Partner type does not exist"@),
        type_exists && main_scope is None ==> refused_with(r, BAD_REQUEST, "Main scope not found"@),
        r matches Ok(p) ==> p@ == partner_avatar_path_spec(main_scope->Some_0@, id@),
{
    check_partner_type(type_exists)?;
    let scope = check_main_scope(main_scope)?;
    Ok(partner_avatar_path(scope, id))
}

/// The rest of a partner's own checks, in order: its avatar (`image`, what
/// the file system says of it), its links, and its user (`user_exists`).
pub fn check_partner_details(image: &ImageMetadata, links: &Vec<Link>, user_exists: bool) -> (r:
    Result<(), Refusal>)
    ensures
        r is Ok <==> image_problem(*image) is None && links_problem(links@) is None && user_exists,
        image_problem(*image) is Some ==> refused_with(r, BAD_REQUEST, image_problem(*image)->Some_0),
        image_problem(*image) is None && links_problem(links@) is Some ==> refused_with(
            r,
            BAD_REQUEST,
            links_problem(links@)->Some_0,
        ),
        image_problem(*image) is None && links_problem(links@) is None && !user_exists
            ==> refused_with(r, BAD_REQUEST, "User does not exist"@),
{
    check_image(image)?;
    check_links(links)?;
    check_partner_user(user_exists)
}

/// Checks a partner's deletion: the member must hold `partners.delete`
/// (`allowed`), the partner must exist, and the main CDN scope must be
/// configured. Gives where the partner's asset lies.
pub fn partner_deletion(allowed: bool, exists: bool, main_scope: Option<&str>, id: &str) -> (r:
    Result<String, Refusal>)
    ensures
        r is Ok <==> allowed && exists && main_scope is Some,
        !allowed ==> refused_with(r, FORBIDDEN, denial_spec(PanelPerm::PartnersDelete)),
        allowed && !exists ==> refused_with(r, BAD_REQUEST, "Partner does not exist"@),
        allowed && exists && main_scope is None ==> refused_with(
            r,
            BAD_REQUEST,
            "Main scope not found"@,
        ),
        r matches Ok(p) ==> p@ == partner_asset_path_spec(main_scope->Some_0@, id@),
{
    PanelPerm::PartnersDelete.check(allowed)?;
    check_deleted_partner(exists)?;
    let scope = check_main_scope(main_scope)?;
    Ok(partner_asset_path(scope, id))
}

} // verus!
