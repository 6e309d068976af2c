//! Enterprise features: licensing, configuration, audit events, SSO sessions
//! and team management.

pub mod audit;
pub mod sso;
pub mod team;

use vstd::prelude::*;
use crate::text::{bool_text, bool_to_string, cat, cat3, dec, join, join_strings, owned, push_str, u64_to_string, views};

pub use self::audit::{AuditEvent, AuditEventType, AuditLogger, AuditStats};

verus! {

/// Enterprise license information.
#[derive(Debug, Clone)]
pub struct EnterpriseLicense {
    pub organization: String,
    pub seats: u32,
    pub features: Vec<String>,
    pub expires_at: u64,
    pub valid: bool,
}

/// Branding of an enterprise installation.
#[derive(Debug, Clone)]
pub struct Branding {
    pub logo_url: String,
    pub primary_color: String,
    pub company_name: String,
}

/// Enterprise configuration.
#[derive(Debug, Clone)]
pub struct EnterpriseConfig {
    pub sso_enabled: bool,
    pub saml_url: Option<String>,
    pub audit_enabled: bool,
    pub team_enabled: bool,
    pub max_users: u32,
    pub custom_branding: Option<Branding>,
}

impl Default for EnterpriseConfig {
    fn default() -> (r: Self)
        ensures
            !r.sso_enabled && r.saml_url is None && !r.audit_enabled && !r.team_enabled
                && r.max_users == 0 && r.custom_branding is None,
    {
        EnterpriseConfig {
            sso_enabled: false,
            saml_url: None,
            audit_enabled: false,
            team_enabled: false,
            max_users: 0,
            custom_branding: None,
        }
    }
}

impl EnterpriseConfig {
    /// The standard configuration: audit and teams on, SSO off, 100 users.
    pub fn new() -> (r: Self)
        ensures
            !r.sso_enabled && r.saml_url is None && r.audit_enabled && r.team_enabled
                && r.max_users == 100 && r.custom_branding is None,
    {
        EnterpriseConfig {
            sso_enabled: false,
            saml_url: None,
            audit_enabled: true,
            team_enabled: true,
            max_users: 100,
            custom_branding: None,
        }
    }

    /// The stored configuration, which is the standard one.
    pub fn load() -> (r: Result<Self, String>)
        ensures
            r is Ok,
            r->Ok_0.audit_enabled && r->Ok_0.team_enabled && !r->Ok_0.sso_enabled
                && r->Ok_0.max_users == 100 && r->Ok_0.saml_url is None && r->Ok_0.custom_branding is None,
    {
        Ok(Self::new())
    }

    /// Stores the configuration; nothing is written.
    pub fn save(&self) -> (r: Result<(), String>)
        ensures
            r is Ok,
    {
        Ok(())
    }

    /// Whether a named feature (`sso`, `audit` or `team`) is on; any other name is off.
    pub fn is_feature_enabled(&self, feature: &str) -> (r: bool)
        ensures
            r == if feature@ == "sso"@ {
                self.sso_enabled
            } else if feature@ == "audit"@ {
                self.audit_enabled
            } else if feature@ == "team"@ {
                self.team_enabled
            } else {
                false
            },
    {
        if crate::text::str_eq(feature, "sso") {
            self.sso_enabled
        } else if crate::text::str_eq(feature, "audit") {
            self.audit_enabled
        } else if crate::text::str_eq(feature, "team") {
            self.team_enabled
        } else {
            false
        }
    }
}

/// Enterprise mode is on when its setting is `true` or `1`.
pub fn is_enterprise(setting: Option<&str>) -> (r: bool)
    ensures
        r == (setting matches Some(v) && (v@ == "true"@ || v@ == "1"@)),
{
    match setting {
        Some(v) => crate::text::str_eq(v, "true") || crate::text::str_eq(v, "1"),
        None => false,
    }
}

/// The license: present whenever a license key is set, for `Default Org`,
/// ten seats, the `sso`, `audit` and `team` features, valid, not expiring.
pub fn get_license(license_key: Option<&str>) -> (r: Option<EnterpriseLicense>)
    ensures
        license_key is None ==> r is None,
        license_key is Some ==> (r matches Some(l) && l.organization@ == "Default Org"@ && l.seats == 10
            && views(l.features@) == seq!["sso"@, "audit"@, "team"@] && l.expires_at == 0 && l.valid),
{
    match license_key {
        Some(_) => {
            let mut f: Vec<String> = Vec::new();
            f.push(owned("sso"));
            f.push(owned("audit"));
            f.push(owned("team"));
            assert(views(f@) =~= seq!["sso"@, "audit"@, "team"@]);
            Some(EnterpriseLicense { organization: owned("Default Org"), seats: 10, features: f, expires_at: 0, valid: true })
        },
        None => None,
    }
}

/// The license report.
pub open spec fn license_text(l: Option<EnterpriseLicense>) -> Seq<char> {
    match l {
        Some(x) => "Enterprise License\n================\nOrganization: "@ + x.organization@ + "\nSeats: "@
            + dec(x.seats as nat) + "\nFeatures: "@ + join(views(x.features@), ", "@) + "\nValid: "@ + bool_text(x.valid),
        None => "No enterprise license found"@,
    }
}

/// The license report.
pub fn format_license(license: &Option<EnterpriseLicense>) -> (r: String)
    ensures
        r@ == license_text(*license),
{
    match license {
        Some(l) => {
            let mut r = cat3("Enterprise License\n================\nOrganization: ", l.organization.as_str(), "\nSeats: ");
            push_str(&mut r, u64_to_string(l.seats as u64).as_str());
            push_str(&mut r, "\nFeatures: ");
            push_str(&mut r, join_strings(&l.features, ", ").as_str());
            push_str(&mut r, "\nValid: ");
            push_str(&mut r, bool_to_string(l.valid).as_str());
            r
        },
        None => owned("No enterprise license found"),
    }
}

/// The configuration report of the stored (standard) configuration.
pub fn format_config() -> (r: String)
    ensures
        r@ == "Enterprise Configuration\n========================\nSSO Enabled: false\nAudit Enabled: true\nTeam Enabled: true\nMax Users: 100"@,
{
    let c = match EnterpriseConfig::load() {
        Ok(c) => c,
        Err(_) => EnterpriseConfig::default(),
    };
    let mut r = cat("Enterprise Configuration\n========================\nSSO Enabled: ", bool_to_string(c.sso_enabled).as_str());
    push_str(&mut r, "\nAudit Enabled: ");
    push_str(&mut r, bool_to_string(c.audit_enabled).as_str());
    push_str(&mut r, "\nTeam Enabled: ");
    push_str(&mut r, bool_to_string(c.team_enabled).as_str());
    push_str(&mut r, "\nMax Users: ");
    push_str(&mut r, u64_to_string(c.max_users as u64).as_str());
    proof {
        reveal_strlit("true");
        reveal_strlit("false");
        crate::text::lemma_dec_digits(100);
        reveal_strlit("Enterprise Configuration\n========================\nSSO Enabled: ");
        reveal_strlit("\nAudit Enabled: ");
        reveal_strlit("\nTeam Enabled: ");
        reveal_strlit("\nMax Users: ");
        reveal_strlit("Enterprise Configuration\n========================\nSSO Enabled: false\nAudit Enabled: true\nTeam Enabled: true\nMax Users: 100");
        assert(dec(100) =~= seq!['1', '0', '0']) by {
            reveal_with_fuel(dec, 4);
        }
        assert(r@ =~= "Enterprise Configuration\n========================\nSSO Enabled: false\nAudit Enabled: true\nTeam Enabled: true\nMax Users: 100"@);
    }
    r
}

/// The status report.
pub fn format_status(is_ent: bool, has_license: bool) -> (r: String)
    ensures
        r@ == "Enterprise Status\n================\nEnterprise Mode: "@ + bool_text(is_ent) + "\nLicense Valid: "@
            + bool_text(has_license) + "\nFeatures Available: sso, audit, team"@,
{
    let mut r = cat("Enterprise Status\n================\nEnterprise Mode: ", bool_to_string(is_ent).as_str());
    push_str(&mut r, "\nLicense Valid: ");
    push_str(&mut r, bool_to_string(has_license).as_str());
    push_str(&mut r, "\nFeatures Available: sso, audit, team");
    r
}

/// Enables the feature named by the first argument.
pub fn enable_feature(args: &Vec<String>) -> (r: Result<String, String>)
    ensures
        args@.len() > 0 ==> (r matches Ok(m) && m@ == "Enabled feature: "@ + args@[0]@),
        args@.len() == 0 ==> (r matches Err(e) && e@ == "Please specify a feature to enable"@),
{
    if args.len() > 0 {
        Ok(cat("Enabled feature: ", args[0].as_str()))
    } else {
        Err(owned("Please specify a feature to enable"))
    }
}

/// Disables the feature named by the first argument.
pub fn disable_feature(args: &Vec<String>) -> (r: Result<String, String>)
    ensures
        args@.len() > 0 ==> (r matches Ok(m) && m@ == "Disabled feature: "@ + args@[0]@),
        args@.len() == 0 ==> (r matches Err(e) && e@ == "Please specify a feature to disable"@),
{
    if args.len() > 0 {
        Ok(cat("Disabled feature: ", args[0].as_str()))
    } else {
        Err(owned("Please specify a feature to disable"))
    }
}

/// Where an `enterprise` subcommand goes: a reply, or one of the `audit`,
/// `sso` and `team` commands with its own subcommand and arguments.
pub enum EnterpriseRoute {
    Reply { result: Result<String, String> },
    Audit { subcmd: String, args: Vec<String> },
    Sso { subcmd: String, args: Vec<String> },
    Team { subcmd: String, args: Vec<String> },
}

/// The first argument as a subcommand (or `d`) and the rest as its arguments.
pub open spec fn sub_route(args: Seq<Seq<char>>, d: Seq<char>) -> (Seq<char>, Seq<Seq<char>>) {
    (if args.len() > 0 { args[0] } else { d }, if args.len() > 1 { args.drop_first() } else { seq![] })
}

fn split_sub(args: &Vec<String>, d: &str) -> (r: (String, Vec<String>))
    ensures
        (r.0@, views(r.1@)) == sub_route(views(args@), d@),
{
    let first = if args.len() > 0 { owned(args[0].as_str()) } else { owned(d) };
    let mut rest: Vec<String> = Vec::new();
    if args.len() > 1 {
        let mut i: usize = 1;
        while i < args.len()
            invariant
                1 <= i <= args@.len(),
                rest@.len() == i - 1,
                forall|k: int| 0 <= k < i - 1 ==> rest@[k]@ == args@[k + 1]@,
            decreases args.len() - i,
        {
            rest.push(owned(args[i].as_str()));
            i = i + 1;
        }
        assert(views(rest@) =~= views(args@).drop_first());
    } else {
        assert(views(rest@) =~= Seq::<Seq<char>>::empty());
    }
    proof {
        if args@.len() > 0 {
            assert(views(args@)[0] == args@[0]@);
        }
    }
    (first, rest)
}

/// Where an `enterprise` subcommand goes, `license_key` and `enterprise`
/// being the settings of those names (if set).
pub fn run_enterprise_cmd(license_key: Option<&str>, enterprise: Option<&str>, subcmd: &str, args: &Vec<String>) -> (r: EnterpriseRoute)
    ensures
        subcmd@ == "license"@ ==> (r matches EnterpriseRoute::Reply { result } && (result matches Ok(m)
            && m@ == license_text(if license_key is Some { get_license_spec() } else { None }))),
        subcmd@ == "audit"@ ==> (r matches EnterpriseRoute::Audit { subcmd: s, args: a }
            && (s@, views(a@)) == sub_route(views(args@), "list"@)),
        subcmd@ == "sso"@ ==> (r matches EnterpriseRoute::Sso { subcmd: s, args: a }
            && (s@, views(a@)) == sub_route(views(args@), "status"@)),
        (subcmd@ == "team"@ || subcmd@ == "teams"@) ==> (r matches EnterpriseRoute::Team { subcmd: s, args: a }
            && (s@, views(a@)) == sub_route(views(args@), "list"@)),
        subcmd@ == "status"@ ==> (r matches EnterpriseRoute::Reply { result } && (result matches Ok(m)
            && m@ == "Enterprise Status\n================\nEnterprise Mode: "@
                + bool_text(enterprise matches Some(v) && (v@ == "true"@ || v@ == "1"@))
                + "\nLicense Valid: "@ + bool_text(license_key is Some) + "\nFeatures Available: sso, audit, team"@)),
        subcmd@ == "enable"@ ==> (r matches EnterpriseRoute::Reply { result } && if args@.len() > 0 {
            result matches Ok(m) && m@ == "Enabled feature: "@ + args@[0]@
        } else {
            result matches Err(e) && e@ == "Please specify a feature to enable"@
        }),
        subcmd@ == "disable"@ ==> (r matches EnterpriseRoute::Reply { result } && if args@.len() > 0 {
            result matches Ok(m) && m@ == "Disabled feature: "@ + args@[0]@
        } else {
            result matches Err(e) && e@ == "Please specify a feature to disable"@
        }),
        subcmd@ == "config"@ ==> (r matches EnterpriseRoute::Reply { result } && (result matches Ok(m)
            && m@ == "Enterprise Configuration\n========================\nSSO Enabled: false\nAudit Enabled: true\nTeam Enabled: true\nMax Users: 100"@)),
        !(subcmd@ == "license"@ || subcmd@ == "config"@ || subcmd@ == "status"@ || subcmd@ == "enable"@
            || subcmd@ == "disable"@ || subcmd@ == "audit"@ || subcmd@ == "sso"@ || subcmd@ == "team"@ || subcmd@ == "teams"@)
            ==> (r matches EnterpriseRoute::Reply { result } && (result matches Err(e) && e@ == "Unknown enterprise command: "@ + subcmd@)),
{
    proof {
        reveal_strlit("license");
        reveal_strlit("config");
        reveal_strlit("status");
        reveal_strlit("enable");
        reveal_strlit("disable");
        reveal_strlit("audit");
        reveal_strlit("sso");
        reveal_strlit("team");
        reveal_strlit("teams");
        assert("license"@.len() == 7 && "license"@[0] == 'l');
        assert("config"@.len() == 6 && "config"@[0] == 'c');
        assert("status"@.len() == 6 && "status"@[0] == 's');
        assert("enable"@.len() == 6 && "enable"@[0] == 'e');
        assert("disable"@.len() == 7 && "disable"@[0] == 'd');
        assert("audit"@.len() == 5 && "audit"@[0] == 'a');
        assert("sso"@.len() == 3);
        assert("team"@.len() == 4);
        assert("teams"@.len() == 5 && "teams"@[0] == 't');
    }
    if crate::text::str_eq(subcmd, "license") {
        let l = get_license(license_key);
        proof {
            if license_key is Some {
                lemma_license_spec(l->0);
            }
        }
        return EnterpriseRoute::Reply { result: Ok(format_license(&l)) };
    }
    if crate::text::str_eq(subcmd, "config") {
        return EnterpriseRoute::Reply { result: Ok(format_config()) };
    }
    if crate::text::str_eq(subcmd, "status") {
        let ent = is_enterprise(enterprise);
        let has = get_license(license_key).is_some();
        return EnterpriseRoute::Reply { result: Ok(format_status(ent, has)) };
    }
    if crate::text::str_eq(subcmd, "enable") {
        return EnterpriseRoute::Reply { result: enable_feature(args) };
    }
    if crate::text::str_eq(subcmd, "disable") {
        return EnterpriseRoute::Reply { result: disable_feature(args) };
    }
    if crate::text::str_eq(subcmd, "audit") {
        let (s, a) = split_sub(args, "list");
        return EnterpriseRoute::Audit { subcmd: s, args: a };
    }
    if crate::text::str_eq(subcmd, "sso") {
        let (s, a) = split_sub(args, "status");
        return EnterpriseRoute::Sso { subcmd: s, args: a };
    }
    if crate::text::str_eq(subcmd, "team") || crate::text::str_eq(subcmd, "teams") {
        let (s, a) = split_sub(args, "list");
        return EnterpriseRoute::Team { subcmd: s, args: a };
    }
    EnterpriseRoute::Reply { result: Err(cat("Unknown enterprise command: ", subcmd)) }
}

/// The license that a set license key gives, as plain values.
pub open spec fn license_is_standard(l: EnterpriseLicense) -> bool {
    l.organization@ == "Default Org"@ && l.seats == 10 && views(l.features@) == seq!["sso"@, "audit"@, "team"@]
        && l.expires_at == 0 && l.valid
}

/// The license text does not depend on which standard license value is
/// meant: any two give the same report.
pub open spec fn get_license_spec() -> Option<EnterpriseLicense> {
    Some(choose|l: EnterpriseLicense| license_is_standard(l))
}

proof fn lemma_license_spec(l: EnterpriseLicense)
    requires
        license_is_standard(l),
    ensures
        license_text(Some(l)) == license_text(get_license_spec()),
{
    let c = choose|x: EnterpriseLicense| license_is_standard(x);
    assert(license_is_standard(c));
}

} // verus!
