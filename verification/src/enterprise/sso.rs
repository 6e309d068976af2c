//! SSO sessions: the SAML configuration, the sign-in URL and the sessions
//! opened through the identity provider.

use vstd::prelude::*;
use crate::all_utils::{base64_decode, base64_decoded, lossy_text, utf8_lossy};
use crate::text::{cat, contains, owned, str_contains, str_eq, trim, trim_str};

verus! {

/// SAML Configuration.
#[derive(Debug, Clone)]
pub struct SamlConfig {
    pub idp_url: String,
    pub idp_entity_id: String,
    pub sp_entity_id: String,
    pub certificate: String,
    pub private_key: String,
}

/// SSO Session.
#[derive(Debug, Clone)]
pub struct SsoSession {
    pub user_id: String,
    pub email: String,
    pub organization: String,
    pub roles: Vec<String>,
    pub expires_at: u64,
    pub session_id: String,
}

/// SSO Provider: its SAML configuration and its sessions, at most one per id.
pub struct SsoProvider {
    config: Option<SamlConfig>,
    sessions: Vec<SsoSession>,
}

/// The index of the first session with the id, if any.
pub open spec fn first_session(v: Seq<SsoSession>, id: Seq<char>) -> Option<int>
    decreases v.len(),
{
    if v.len() == 0 {
        None
    } else if v[0].session_id@ == id {
        Some(0)
    } else {
        match first_session(v.drop_first(), id) {
            Some(k) => Some(k + 1),
            None => None,
        }
    }
}

proof fn lemma_first_session(v: Seq<SsoSession>, id: Seq<char>, i: int)
    requires
        0 <= i <= v.len(),
        forall|k: int| 0 <= k < i ==> v[k].session_id@ != id,
    ensures
        i < v.len() && v[i].session_id@ == id ==> first_session(v, id) == Some(i),
        i == v.len() ==> first_session(v, id) is None,
    decreases i,
{
    if i > 0 {
        lemma_first_session(v.drop_first(), id, i - 1);
    } else if v.len() > 0 && v[0].session_id@ != id {
    }
    if i == v.len() && i > 0 {
        lemma_first_session(v.drop_first(), id, i - 1);
    }
}

proof fn lemma_first_session_range(v: Seq<SsoSession>, id: Seq<char>)
    ensures
        first_session(v, id) matches Some(k) ==> 0 <= k < v.len() && v[k].session_id@ == id,
    decreases v.len(),
{
    if v.len() > 0 {
        lemma_first_session_range(v.drop_first(), id);
    }
}

/// No two sessions share an id.
pub open spec fn session_ids_unique(v: Seq<SsoSession>) -> bool {
    forall|i: int, j: int| 0 <= i < v.len() && 0 <= j < v.len() && i != j ==> v[i].session_id@ != v[j].session_id@
}

proof fn lemma_first_session_none(v: Seq<SsoSession>, id: Seq<char>)
    requires
        first_session(v, id) is None,
    ensures
        forall|k: int| 0 <= k < v.len() ==> (#[trigger] v[k]).session_id@ != id,
    decreases v.len(),
{
    if v.len() > 0 {
        lemma_first_session_none(v.drop_first(), id);
        assert forall|k: int| 0 <= k < v.len() implies (#[trigger] v[k]).session_id@ != id by {
            if k > 0 {
                assert(v[k] == v.drop_first()[k - 1]);
            }
        }
    }
}

/// Why a SAML response is refused, if it is: it is empty (once trimmed),
/// is not standard base64, its decoded text lacks the SAML 2.0 protocol
/// namespace or a `Response`, or a configuration is present and the text does
/// not name its identity provider.
pub open spec fn saml_problem(config: Option<SamlConfig>, response: Seq<char>) -> Option<Seq<char>> {
    let t = trim(response);
    if t.len() == 0 {
        Some("Empty SAML response"@)
    } else {
        match base64_decoded(t) {
            None => Some("Invalid SAML response: not base64"@),
            Some(b) => {
                let xml = utf8_lossy(b);
                if !(contains(xml, "urn:oasis:names:tc:SAML:2.0:protocol"@) && contains(xml, "Response"@)) {
                    Some("Invalid SAML response: not a SAML 2.0 Response"@)
                } else {
                    match config {
                        Some(c) => if contains(xml, c.idp_entity_id@) {
                            None
                        } else {
                            Some("SAML response not issued by the configured identity provider"@)
                        },
                        None => None,
                    }
                }
            },
        }
    }
}

/// The session that the provider gives for every response it validates.
pub open spec fn validated_session(s: SsoSession) -> bool {
    &&& s.user_id@ == "user123"@
    &&& s.email@ == "user@example.com"@
    &&& s.organization@ == "Example Corp"@
    &&& s.roles@.len() == 1 && s.roles@[0]@ == "developer"@
    &&& s.expires_at == 0
    &&& s.session_id@ == "sess_abc123"@
}

fn validated() -> (s: SsoSession)
    ensures
        validated_session(s),
{
    let mut roles: Vec<String> = Vec::new();
    roles.push(owned("developer"));
    SsoSession {
        user_id: owned("user123"),
        email: owned("user@example.com"),
        organization: owned("Example Corp"),
        roles,
        expires_at: 0,
        session_id: owned("sess_abc123"),
    }
}

impl SsoProvider {
    #[verifier::type_invariant]
    spec fn wf(&self) -> bool {
        session_ids_unique(self.sessions@)
    }

    /// The SAML configuration, if any.
    pub closed spec fn saml_config(&self) -> Option<SamlConfig> {
        self.config
    }

    /// The sessions, in the order they were first recorded.
    pub closed spec fn sessions(&self) -> Seq<SsoSession> {
        self.sessions@
    }

    /// A provider for the SAML configuration found (if any), with no session.
    pub fn new(config: Option<SamlConfig>) -> (r: Self)
        ensures
            r.saml_config() == config,
            r.sessions().len() == 0,
            session_ids_unique(r.sessions()),
    {
        SsoProvider { config, sessions: Vec::new() }
    }

    fn find(&self, session_id: &str) -> (r: Option<usize>)
        ensures
            match r {
                Some(k) => k < self.sessions().len() && first_session(self.sessions(), session_id@) == Some(k as int),
                None => first_session(self.sessions(), session_id@) is None,
            },
    {
        proof { lemma_first_session_range(self.sessions(), session_id@); }
        let mut i: usize = 0;
        while i < self.sessions.len()
            invariant
                i <= self.sessions().len(),
                forall|k: int| 0 <= k < i ==> self.sessions()[k].session_id@ != session_id@,
            decreases self.sessions.len() - i,
        {
            if str_eq(self.sessions[i].session_id.as_str(), session_id) {
                proof { lemma_first_session(self.sessions(), session_id@, i as int); }
                return Some(i);
            }
            i = i + 1;
        }
        proof { lemma_first_session(self.sessions(), session_id@, i as int); }
        None
    }

    fn take_sessions(&mut self) -> (r: Vec<SsoSession>)
        ensures
            r@ == old(self).sessions(),
            session_ids_unique(r@),
            final(self).saml_config() == old(self).saml_config(),
    {
        proof { use_type_invariant(&*self); }
        let mut v: Vec<SsoSession> = Vec::new();
        std::mem::swap(&mut v, &mut self.sessions);
        v
    }

    /// The URL to start signing in: refused with `SSO not configured` when no
    /// SAML configuration is present; otherwise the enterprise server's
    /// (the one given, else `https://enterprise.devutils.ai`) `/sso/init`.
    pub fn init(&mut self, enterprise_url: Option<&str>) -> (r: Result<String, String>)
        ensures
            final(self).saml_config() == old(self).saml_config(),
            final(self).sessions() == old(self).sessions(),
            old(self).saml_config() is None ==> r is Err && r->Err_0@ == "SSO not configured"@,
            old(self).saml_config() is Some ==> r is Ok && r->Ok_0@ == (match enterprise_url {
                Some(u) => u@,
                None => "https://enterprise.devutils.ai"@,
            }) + "/sso/init"@,
    {
        if self.config.is_none() {
            return Err(owned("SSO not configured"));
        }
        match enterprise_url {
            Some(u) => Ok(cat(u, "/sso/init")),
            None => Ok(cat("https://enterprise.devutils.ai", "/sso/init")),
        }
    }

    /// Validates a SAML response, given as base64 text as the HTTP-POST
    /// binding carries it: refused when it is empty, is not base64, does not
    /// decode to a SAML 2.0 protocol `Response`, or (with a configuration)
    /// does not name the configured identity provider; otherwise the session
    /// it opens. The XML signature is not checked and the session's
    /// attributes are not read from the response: every accepted response
    /// opens the same session.
    pub fn validate_response(&self, response: &str) -> (r: Result<SsoSession, String>)
        ensures
            match saml_problem(self.saml_config(), response@) {
                Some(e) => r is Err && r->Err_0@ == e,
                None => r is Ok && validated_session(r->Ok_0),
            },
    {
        let t = trim_str(response);
        if t.as_str().is_empty() {
            return Err(owned("Empty SAML response"));
        }
        let bytes = match base64_decode(t.as_str()) {
            Some(b) => b,
            None => return Err(owned("Invalid SAML response: not base64")),
        };
        let xml = lossy_text(bytes.as_slice());
        if !(str_contains(xml.as_str(), "urn:oasis:names:tc:SAML:2.0:protocol") && str_contains(xml.as_str(), "Response")) {
            return Err(owned("Invalid SAML response: not a SAML 2.0 Response"));
        }
        match &self.config {
            Some(c) => {
                if !str_contains(xml.as_str(), c.idp_entity_id.as_str()) {
                    return Err(owned("SAML response not issued by the configured identity provider"));
                }
            },
            None => {},
        }
        Ok(validated())
    }

    /// Records the session under its id, in place of one with the same id.
    pub fn create_session(&mut self, session: SsoSession) -> (r: String)
        ensures
            r@ == session.session_id@,
            final(self).saml_config() == old(self).saml_config(),
            match first_session(old(self).sessions(), session.session_id@) {
                Some(k) => final(self).sessions() == old(self).sessions().update(k, session),
                None => final(self).sessions() == old(self).sessions().push(session),
            },
            session_ids_unique(final(self).sessions()),
    {
        proof { use_type_invariant(&*self); }
        let id = owned(session.session_id.as_str());
        let ghost sid = session.session_id@;
        let ghost before = self.sessions();
        match self.find(id.as_str()) {
            Some(k) => {
                let mut v = self.take_sessions();
                v.set(k, session);
                proof {
                    lemma_first_session_range(before, sid);
                    {
                        assert forall|i: int, j: int| 0 <= i < v@.len() && 0 <= j < v@.len() && i != j
                            implies v@[i].session_id@ != v@[j].session_id@ by {
                            if i != k && j != k {
                                assert(v@[i] == before[i] && v@[j] == before[j]);
                            } else if i == k {
                                assert(v@[j] == before[j]);
                                assert(before[k as int].session_id@ == sid);
                            } else {
                                assert(v@[i] == before[i]);
                                assert(before[k as int].session_id@ == sid);
                            }
                        }
                    }
                }
                self.sessions = v;
            }
            None => {
                let mut v = self.take_sessions();
                v.push(session);
                proof {
                    lemma_first_session_none(before, sid);
                    {
                        assert forall|i: int, j: int| 0 <= i < v@.len() && 0 <= j < v@.len() && i != j
                            implies v@[i].session_id@ != v@[j].session_id@ by {
                            if i < before.len() && j < before.len() {
                                assert(v@[i] == before[i] && v@[j] == before[j]);
                            } else if i < before.len() {
                                assert(v@[i] == before[i]);
                            } else {
                                assert(v@[j] == before[j]);
                            }
                        }
                    }
                }
                self.sessions = v;
            }
        }
        id
    }

    /// The session with the id, if any.
    pub fn get_session(&self, session_id: &str) -> (r: Option<&SsoSession>)
        ensures
            match first_session(self.sessions(), session_id@) {
                Some(k) => r is Some && *r->0 == self.sessions()[k],
                None => r is None,
            },
    {
        let f = self.find(session_id);
        match f {
            Some(k) => {
                assert(first_session(self.sessions(), session_id@) == Some(k as int));
                Some(&self.sessions[k])
            }
            None => None,
        }
    }

    /// Ends the session with the id; whether there was one.
    pub fn revoke_session(&mut self, session_id: &str) -> (r: bool)
        ensures
            final(self).saml_config() == old(self).saml_config(),
            match first_session(old(self).sessions(), session_id@) {
                Some(k) => r && final(self).sessions() == old(self).sessions().remove(k),
                None => !r && final(self).sessions() == old(self).sessions(),
            },
            session_ids_unique(final(self).sessions()),
            first_session(final(self).sessions(), session_id@) is None,
    {
        proof { use_type_invariant(&*self); }
        let ghost before = self.sessions();
        match self.find(session_id) {
            Some(k) => {
                let mut v = self.take_sessions();
                v.remove(k);
                proof {
                    lemma_first_session_range(before, session_id@);
                    {
                        assert forall|i: int, j: int| 0 <= i < v@.len() && 0 <= j < v@.len() && i != j
                            implies v@[i].session_id@ != v@[j].session_id@ by {
                            let a = if i < k { i } else { i + 1 };
                            let b = if j < k { j } else { j + 1 };
                            assert(v@[i] == before[a] && v@[j] == before[b]);
                        }
                        assert forall|i: int| 0 <= i < v@.len() implies (#[trigger] v@[i]).session_id@ != session_id@ by {
                            let a = if i < k { i } else { i + 1 };
                            assert(v@[i] == before[a]);
                        }
                        lemma_first_session(v@, session_id@, v@.len() as int);
                    }
                }
                self.sessions = v;
                true
            }
            None => {
                proof { lemma_first_session_none(before, session_id@); }
                false
            }
        }
    }
}

/// Authenticate with SSO: the code is validated as a SAML response by a
/// provider without configuration.
pub fn authenticate_sso(code: &str) -> (r: Result<SsoSession, String>)
    ensures
        match saml_problem(None, code@) {
            Some(e) => r is Err && r->Err_0@ == e,
            None => r is Ok && validated_session(r->Ok_0),
        },
{
    let provider = SsoProvider::new(None);
    provider.validate_response(code)
}

/// The SAML configuration from its five settings, when all are present.
pub fn load_saml_config(idp_url: Option<&str>, idp_entity_id: Option<&str>, sp_entity_id: Option<&str>,
    certificate: Option<&str>, private_key: Option<&str>) -> (r: Option<SamlConfig>)
    ensures
        r is Some <==> (idp_url is Some && idp_entity_id is Some && sp_entity_id is Some && certificate is Some
            && private_key is Some),
        r matches Some(c) ==> c.idp_url@ == idp_url->0@ && c.idp_entity_id@ == idp_entity_id->0@
            && c.sp_entity_id@ == sp_entity_id->0@ && c.certificate@ == certificate->0@ && c.private_key@ == private_key->0@,
{
    match (idp_url, idp_entity_id, sp_entity_id, certificate, private_key) {
        (Some(a), Some(b), Some(c), Some(d), Some(e)) => Some(SamlConfig {
            idp_url: owned(a),
            idp_entity_id: owned(b),
            sp_entity_id: owned(c),
            certificate: owned(d),
            private_key: owned(e),
        }),
        _ => None,
    }
}

/// SSO counts as configured when the identity provider's address is set.
pub fn is_sso_configured(idp_url: Option<&str>) -> (r: bool)
    ensures
        r == idp_url is Some,
{
    idp_url.is_some()
}

/// The login address: the identity provider's address followed by `/login`.
pub fn get_sso_url(idp_url: Option<&str>) -> (r: Option<String>)
    ensures
        match idp_url {
            Some(u) => r matches Some(x) && x@ == u@ + "/login"@,
            None => r is None,
        },
{
    match idp_url {
        Some(u) => Some(cat(u, "/login")),
        None => None,
    }
}

/// Runs an `sso` subcommand: `idp_url` is the identity provider's address
/// (if set), `provider` the provider made from the SAML settings, and
/// `enterprise_url` the enterprise server (if set).
pub fn run_sso_cmd(provider: &mut SsoProvider, idp_url: Option<&str>, enterprise_url: Option<&str>, subcmd: &str) -> (r: Result<String, String>)
    ensures
        final(provider).saml_config() == old(provider).saml_config(),
        final(provider).sessions() == old(provider).sessions(),
        subcmd@ == "status"@ ==> (r matches Ok(m) && m@ == if idp_url is Some { "SSO is configured"@ } else { "SSO is not configured"@ }),
        subcmd@ == "login"@ ==> match idp_url {
            Some(u) => r matches Ok(m) && m@ == "Open this URL to login: "@ + (u@ + "/login"@),
            None => r matches Err(e) && e@ == "SSO not configured"@,
        },
        subcmd@ == "init"@ ==> if old(provider).saml_config() is None {
            r matches Err(e) && e@ == "SSO not configured"@
        } else {
            r matches Ok(m) && m@ == "SSO initialized. Redirect to: "@ + ((match enterprise_url {
                Some(u) => u@,
                None => "https://enterprise.devutils.ai"@,
            }) + "/sso/init"@)
        },
        subcmd@ != "status"@ && subcmd@ != "login"@ && subcmd@ != "init"@ ==>
            (r matches Err(e) && e@ == "Unknown SSO command: "@ + subcmd@),
{
    proof {
        reveal_strlit("status");
        reveal_strlit("login");
        reveal_strlit("init");
        assert("status"@.len() == 6 && "login"@.len() == 5 && "init"@.len() == 4);
    }
    if str_eq(subcmd, "status") {
        if is_sso_configured(idp_url) {
            return Ok(owned("SSO is configured"));
        }
        return Ok(owned("SSO is not configured"));
    }
    if str_eq(subcmd, "login") {
        return match get_sso_url(idp_url) {
            Some(u) => Ok(cat("Open this URL to login: ", u.as_str())),
            None => Err(owned("SSO not configured")),
        };
    }
    if str_eq(subcmd, "init") {
        return match provider.init(enterprise_url) {
            Ok(u) => Ok(cat("SSO initialized. Redirect to: ", u.as_str())),
            Err(e) => Err(e),
        };
    }
    Err(cat("Unknown SSO command: ", subcmd))
}

} // verus!
