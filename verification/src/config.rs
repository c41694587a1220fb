//! Configuration: the values that differ between the staging and the
//! production environment, the Discord servers, roles and channels, and the
//! panel settings. Discord ids are held as their 64-bit values.
use crate::text::{owned, str_eq};
use std::collections::HashMap;
use vstd::prelude::*;

verus! {

/// A value that has one setting for staging and one for production.
pub struct Differs<T: Default + Clone> {
    pub staging: T,
    pub prod: T,
}

impl<T: Default + Clone> Differs<T> {
    /// Get the value for a given environment: the staging value for
    /// `staging`, the production value for every other environment.
    pub fn get_for_env(&self, env: &str) -> (r: T)
        ensures
            env@ == "staging"@ ==> vstd::pervasive::cloned(self.staging, r),
            env@ != "staging"@ ==> vstd::pervasive::cloned(self.prod, r),
    {
        if str_eq(env, "staging") {
            self.staging.clone()
        } else {
            self.prod.clone()
        }
    }
}

/// The Discord servers the bot works with.
#[derive(Debug, Clone, Copy, PartialEq, Eq, Structural)]
pub struct Servers {
    pub main: u64,
    pub staff: u64,
    pub testing: u64,
}

impl Default for Servers {
    fn default() -> (r: Self)
        ensures
            r == (Servers { main: 758641373074423808, staff: 870950609291972618, testing: 870952645811134475 }),
    {
        Servers { main: 758641373074423808, staff: 870950609291972618, testing: 870952645811134475 }
    }
}

/// The Discord roles the bot hands out or checks.
#[derive(Debug, Clone, Copy, PartialEq, Eq, Structural)]
pub struct Roles {
    pub awaiting_staff: u64,
    pub bot_developer: u64,
    pub certified_developer: u64,
    pub bot_role: u64,
    pub bug_hunters: u64,
    pub top_reviewers: u64,
}

impl Default for Roles {
    fn default() -> (r: Self)
        ensures
            r == (Roles {
                awaiting_staff: 1029058929361174678,
                bot_developer: 758756147313246209,
                certified_developer: 759468303344992266,
                bot_role: 758652296459976715,
                bug_hunters: 1042546603795427398,
                top_reviewers: 1239696066350420038,
            }),
    {
        Roles {
            awaiting_staff: 1029058929361174678,
            bot_developer: 758756147313246209,
            certified_developer: 759468303344992266,
            bot_role: 758652296459976715,
            bug_hunters: 1042546603795427398,
            top_reviewers: 1239696066350420038,
        }
    }
}

/// The Discord channels the bot writes to.
#[derive(Debug, Clone, Copy, PartialEq, Eq, Structural)]
pub struct Channels {
    /// The testing lounge channel where autounclaims are sent
    pub testing_lounge: u64,
    pub mod_logs: u64,
    /// System channel
    pub system: u64,
    pub uptime: u64,
    pub staff_logs: u64,
}

impl Default for Channels {
    fn default() -> (r: Self)
        ensures
            r == (Channels {
                testing_lounge: 891611731699335209,
                mod_logs: 911907978926493716,
                system: 762958420277067786,
                uptime: 1083108330442076292,
                staff_logs: 1186195848497999912,
            }),
    {
        Channels {
            testing_lounge: 891611731699335209,
            mod_logs: 911907978926493716,
            system: 762958420277067786,
            uptime: 1083108330442076292,
            staff_logs: 1186195848497999912,
        }
    }
}

/// Where a CDN scope lives.
#[derive(Debug, Clone)]
pub struct CdnScopeData {
    /// Path in local fs (or remote if support is added)
    pub path: String,
    /// Exposed URL for the CDN
    pub exposed_url: String,
}

impl Default for CdnScopeData {
    fn default() -> (r: Self)
        ensures
            r.path@ == Seq::<char>::empty(),
            r.exposed_url@ == Seq::<char>::empty(),
    {
        CdnScopeData { path: String::new(), exposed_url: String::new() }
    }
}

/// Settings of the staff panel.
pub struct PanelConfig {
    /// Discord client ID for panel login app
    pub client_id: String,
    /// Discord client secret for panel login app
    pub client_secret: String,
    /// Redirect URLs allowed for panel login app
    pub redirect_url: Vec<String>,
    /// CDN scopes for the panel API (locations for the CDN)
    pub cdn_scopes: Differs<HashMap<String, CdnScopeData>>,
    /// Main scope
    pub main_scope: String,
    /// Panel scope, used by frontend for validation. Should be static
    pub panel_scope: String,
    /// Panel response scope, used by frontend for validation. Should be static
    pub panel_response_scope: String,
}

impl Default for PanelConfig {
    fn default() -> (r: Self)
        ensures
            r.client_id@ == Seq::<char>::empty(),
            r.client_secret@ == Seq::<char>::empty(),
            r.redirect_url@ == Seq::<String>::empty(),
            r.cdn_scopes.staging@ == Map::<String, CdnScopeData>::empty(),
            r.cdn_scopes.prod@ == Map::<String, CdnScopeData>::empty(),
            r.main_scope@ == Seq::<char>::empty(),
            r.panel_scope@ == Seq::<char>::empty(),
            r.panel_response_scope@ == Seq::<char>::empty(),
    {
        PanelConfig {
            client_id: String::new(),
            client_secret: String::new(),
            redirect_url: Vec::new(),
            cdn_scopes: Differs { staging: HashMap::new(), prod: HashMap::new() },
            main_scope: String::new(),
            panel_scope: String::new(),
            panel_response_scope: String::new(),
        }
    }
}

/// The whole configuration.
pub struct Config {
    pub server_port: Differs<u16>,
    pub prefix: Differs<String>,
    pub database_url: String,
    pub token: Differs<String>,
    pub servers: Servers,
    pub roles: Roles,
    pub channels: Channels,
    pub frontend_url: Differs<String>,
    pub infernoplex_url: String,
    pub htmlsanitize_url: String,
    pub borealis_url: String,
    pub popplio_url: String,
    pub cdn_url: String,
    pub proxy_url: String,
    pub owners: Vec<u64>,
    pub protected_bots: Vec<u64>,
    pub panel: PanelConfig,
    pub japi_key: String,
}

impl Default for Config {
    /// The defaults written to `config.yaml.sample`.
    fn default() -> (r: Self)
        ensures
            r.server_port.staging == 3011u16,
            r.server_port.prod == 3010u16,
            r.prefix.staging@ == "ibb!"@,
            r.prefix.prod@ == "ibs!"@,
            r.database_url@ == ""@,
            r.token.staging@ == ""@,
            r.token.prod@ == ""@,
            r.servers == (Servers {
                main: 758641373074423808,
                staff: 870950609291972618,
                testing: 870952645811134475,
            }),
            r.roles.bot_developer == 758756147313246209u64,
            r.channels.mod_logs == 911907978926493716u64,
            r.frontend_url.staging@ == "https://reedwhisker.infinitybots.gg"@,
            r.frontend_url.prod@ == "https://infinitybots.gg"@,
            r.infernoplex_url@ == "https://infernoplex.infinitybots.gg"@,
            r.borealis_url@ == "http://localhost:2837"@,
            r.popplio_url@ == "https://spider-staging.infinitybots.gg"@,
            r.htmlsanitize_url@ == "https://hs.infinitybots.gg/"@,
            r.cdn_url@ == "https://cdn.infinitybots.gg"@,
            r.proxy_url@ == "http://127.0.0.1:3219"@,
            r.owners@ == seq![510065483693817867u64],
            r.protected_bots@ == seq![1019662370278228028u64],
            r.panel.redirect_url@ == Seq::<String>::empty(),
            r.japi_key@ == ""@,
    {
        let mut owners: Vec<u64> = Vec::new();
        owners.push(510065483693817867);
        let mut protected_bots: Vec<u64> = Vec::new();
        protected_bots.push(1019662370278228028);  // Reedwhisker (PTB) - Main Bot
        Config {
            server_port: Differs { staging: 3011, prod: 3010 },
            prefix: Differs { staging: owned("ibb!"), prod: owned("ibs!") },
            database_url: owned(""),
            token: Differs { staging: owned(""), prod: owned("") },
            servers: Servers::default(),
            roles: Roles::default(),
            channels: Channels::default(),
            frontend_url: Differs {
                staging: owned("https://reedwhisker.infinitybots.gg"),
                prod: owned("https://infinitybots.gg"),
            },
            infernoplex_url: owned("https://infernoplex.infinitybots.gg"),
            borealis_url: owned("http://localhost:2837"),
            popplio_url: owned("https://spider-staging.infinitybots.gg"),
            htmlsanitize_url: owned("https://hs.infinitybots.gg/"),
            cdn_url: owned("https://cdn.infinitybots.gg"),
            proxy_url: owned("http://127.0.0.1:3219"),
            owners,
            protected_bots,
            panel: PanelConfig::default(),
            japi_key: owned(""),
        }
    }
}

} // verus!
