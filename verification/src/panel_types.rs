//! The requests and records the staff panel exchanges, and the users it shows.
use crate::panel::Link;
use crate::text::{owned, str_eq};
use std::collections::HashMap;
use vstd::prelude::*;

verus! {

/// The staff flags of a user.
#[derive(Debug, Clone, Copy, PartialEq, Eq, Structural)]
pub struct PanelPerms {
    pub staff: bool,
    pub admin: bool,
    pub hadmin: bool,
    pub ibldev: bool,
    pub iblhdev: bool,
    pub owner: bool,
}

/// What a panel user may be given access to.
#[derive(Debug, Clone, Copy, PartialEq, Eq, Structural)]
pub enum Capability {
    /// RPC capability
    Rpc,
    /// View bot queue capability
    ViewBotQueue,
    /// Server management capability
    ServerManagement,
    /// Bot management capability
    BotManagement,
    /// Ability to manage partners
    PartnerManagement,
    /// Ability to add assets to the CDN
    CdnManagement,
}

/// What the panel can do on the CDN.
#[derive(Debug, Clone)]
pub enum CdnAssetAction {
    /// List the entries of a path
    ListPath,
    /// Read a file
    ReadFile,
    /// Create a folder
    CreateFolder,
    /// Add a file, from its uploaded chunks
    AddFile { overwrite: bool, chunks: Vec<String>, sha512: String },
    /// Copy a file
    CopyFile { overwrite: bool, delete_original: bool, copy_to: String },
    /// Delete a file or folder
    Delete,
    /// Commit the CDN's changes to git
    PersistGit { message: String, current_dir: bool },
}

impl Default for CdnAssetAction {
    fn default() -> (r: Self)
        ensures
            r is ListPath,
    {
        CdnAssetAction::ListPath
    }
}

/// An entry of the CDN.
#[derive(Debug, Clone)]
pub struct CdnAssetItem {
    pub name: String,
    pub path: String,
    pub size: u64,
    pub last_modified: u64,
    pub is_dir: bool,
    pub permissions: u32,
}

/// A user as Discord shows them.
#[derive(Debug, Clone)]
pub struct PlatformUser {
    pub id: String,
    pub username: String,
    pub avatar: String,
    pub display_name: String,
    pub bot: bool,
    pub status: String,
}

impl PartialEq for PlatformUser {
    /// Two users are equal when they have the same id.
    fn eq(&self, other: &Self) -> (r: bool) {
        str_eq(self.id.as_str(), other.id.as_str())
    }
}

impl vstd::std_specs::cmp::PartialEqSpecImpl for PlatformUser {
    open spec fn obeys_eq_spec() -> bool {
        true
    }

    open spec fn eq_spec(&self, other: &Self) -> bool {
        self.id@ == other.id@
    }
}

/// The name a user is shown under: their global display name when they
/// have one, else their user name.
pub fn display_name(global_name: Option<&str>, name: &str) -> (r: String)
    ensures
        global_name matches Some(g) ==> r@ == g@,
        global_name is None ==> r@ == name@,
{
    match global_name {
        Some(g) => owned(g),
        None => owned(name),
    }
}

/// The presence of a user on Discord.
#[derive(Debug, Clone, Copy, PartialEq, Eq, Structural)]
pub enum Presence {
    Online,
    Idle,
    DoNotDisturb,
    Invisible,
    Offline,
}

/// The status text of a presence, `offline` when none is known.
pub open spec fn status_text_spec(p: Option<Presence>) -> Seq<char> {
    match p {
        Some(Presence::Online) => "online"@,
        Some(Presence::Idle) => "idle"@,
        Some(Presence::DoNotDisturb) => "dnd"@,
        Some(Presence::Invisible) => "invisible"@,
        Some(Presence::Offline) => "offline"@,
        None => "offline"@,
    }
}

/// The status text of a presence, `offline` when none is known.
pub fn status_text(p: Option<Presence>) -> (r: &'static str)
    ensures
        r@ == status_text_spec(p),
{
    match p {
        Some(Presence::Online) => "online",
        Some(Presence::Idle) => "idle",
        Some(Presence::DoNotDisturb) => "dnd",
        Some(Presence::Invisible) => "invisible",
        Some(Presence::Offline) => "offline",
        None => "offline",
    }
}

/// How long, in seconds, a user fetched from Discord is kept: 8 hours.
pub fn discord_user_expiry_time() -> (r: i64)
    ensures
        r == 8 * 60 * 60,
{
    8 * 60 * 60
}

/// A bot in the review queue.
#[derive(Debug, Clone)]
pub struct QueueBot {
    pub bot_id: String,
    pub client_id: String,
    pub user: PlatformUser,
    pub claimed_by: Option<String>,
    pub approval_note: String,
    pub short: String,
    pub mentionable: Vec<String>,
    pub invite: String,
}

/// A bot found by a search.
#[derive(Debug, Clone)]
pub struct SearchBot {
    pub bot_id: String,
    pub client_id: String,
    pub user: PlatformUser,
    pub claimed_by: Option<String>,
    pub bot_type: String,
    pub approval_note: String,
    pub short: String,
    pub mentionable: Vec<String>,
    pub invite: String,
}

/// The counts shown on the panel's front page.
#[derive(Debug, Clone)]
pub struct BaseAnalytics {
    pub bot_counts: HashMap<String, i64>,
    pub server_counts: HashMap<String, i64>,
    pub ticket_counts: HashMap<String, i64>,
    pub total_users: i64,
    pub changelogs_count: i64,
}

/// What the panel can do with the blog.
#[derive(Debug, Clone)]
pub enum BlogAction {
    /// List all blog entries
    ListEntries,
    /// Create a new blog entry
    CreateEntry {
        slug: String,
        title: String,
        description: String,
        content: String,
        tags: Vec<String>,
    },
    /// Update a blog entry
    UpdateEntry {
        itag: String,
        slug: String,
        title: String,
        description: String,
        content: String,
        tags: Vec<String>,
        draft: bool,
    },
    /// Delete a blog entry
    DeleteEntry { itag: String },
}

impl Default for BlogAction {
    fn default() -> (r: Self)
        ensures
            r is ListEntries,
    {
        BlogAction::ListEntries
    }
}

/// What the panel can do with the bot whitelist.
#[derive(Debug, Clone)]
pub enum BotWhitelistAction {
    /// List all currently whitelisted bots
    List,
    /// Create a new bot whitelist entry
    Add { bot_id: String, reason: String },
    /// Edit a bot whitelist entry
    Edit { bot_id: String, reason: String },
    /// Delete a bot whitelist entry
    Delete { bot_id: String },
}

impl Default for BotWhitelistAction {
    fn default() -> (r: Self)
        ensures
            r is List,
    {
        BotWhitelistAction::List
    }
}

/// What the panel can do with the changelog.
#[derive(Debug, Clone)]
pub enum ChangelogAction {
    /// List all changelog entries
    ListEntries,
    /// Create a new changelog entry
    CreateEntry {
        version: String,
        extra_description: String,
        prerelease: bool,
        added: Vec<String>,
        updated: Vec<String>,
        removed: Vec<String>,
    },
    /// Update a changelog entry
    UpdateEntry {
        version: String,
        extra_description: String,
        github_html: Option<String>,
        prerelease: bool,
        added: Vec<String>,
        updated: Vec<String>,
        removed: Vec<String>,
        published: bool,
    },
    /// Delete a changelog entry
    DeleteEntry { version: String },
}

impl Default for ChangelogAction {
    fn default() -> (r: Self)
        ensures
            r is ListEntries,
    {
        ChangelogAction::ListEntries
    }
}

/// What the panel can do with shop item benefits.
#[derive(Debug, Clone)]
pub enum ShopItemBenefitAction {
    /// List all shop item benefits
    List,
    /// Create a new shop item benefit
    Create { id: String, name: String, description: String, target_types: Vec<String> },
    /// Edit a shop item benefit
    Edit { id: String, name: String, description: String, target_types: Vec<String> },
    /// Delete a shop item benefit
    Delete { id: String },
}

impl Default for ShopItemBenefitAction {
    fn default() -> (r: Self)
        ensures
            r is List,
    {
        ShopItemBenefitAction::List
    }
}

/// What the panel can do with staff members.
#[derive(Debug, Clone)]
pub enum StaffMemberAction {
    /// List all current members
    ListMembers,
    /// Edit a staff member
    EditMember {
        /// The user id of the member
        user_id: String,
        /// The permission overrides of the staff member
        perm_overrides: Vec<String>,
        /// Whether or not to autosync the member
        no_autosync: bool,
        /// Whether or not the member is 'known' to be 'unaccounted' for
        unaccounted: bool,
    },
}

impl Default for StaffMemberAction {
    fn default() -> (r: Self)
        ensures
            r is ListMembers,
    {
        StaffMemberAction::ListMembers
    }
}

/// What the panel can do with staff positions.
#[derive(Debug, Clone)]
pub enum StaffPositionAction {
    /// List all current positions
    ListPositions,
    /// Swap the index of two staff positions (A and B) such that the indexes
    /// change from (Ia, Ib) -> (Ib, Ia)
    SwapIndex { a: String, b: String },
    /// Sets the new index of a staff position
    SetIndex { id: String, index: i32 },
    /// Create a new staff position
    CreatePosition {
        name: String,
        role_id: String,
        corresponding_roles: Vec<Link>,
        perms: Vec<String>,
        icon: String,
        index: i32,
    },
    /// Edit staff position
    EditPosition {
        id: String,
        name: String,
        role_id: String,
        corresponding_roles: Vec<Link>,
        perms: Vec<String>,
        icon: String,
    },
    /// Delete a staff position
    DeletePosition { id: String },
}

impl Default for StaffPositionAction {
    fn default() -> (r: Self)
        ensures
            r is ListPositions,
    {
        StaffPositionAction::ListPositions
    }
}

/// What the panel's login can do.
#[derive(Debug, Clone)]
pub enum AuthorizeAction {
    /// Begin begins an authorization request
    Begin { scope: String, redirect_url: String },
    /// CreateSession creates a new 'pending' session for the staff member
    /// returning a login token
    CreateSession { code: String, redirect_url: String },
    /// CheckMFA checks and returns any needed/useful MFA-related information
    CheckMfaState { login_token: String },
    /// Resets MFA for a user identified by login token
    ResetMfaTotp { login_token: String, otp: String },
    /// ActivateSession activates a session for a given login token
    ActivateSession { login_token: String, otp: String },
    /// Logout logs out a session
    Logout { login_token: String },
}

} // verus!
