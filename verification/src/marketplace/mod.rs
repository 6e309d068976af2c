//! The plugin marketplace: the plugins that come with the tool, search,
//! the featured plugins, categories, installs, and the `marketplace` command.

use vstd::prelude::*;
use crate::ranking::{desc_order, desc_positions, sorted_distinct, strictly_sorted};
use crate::text::{cat, cat3, contains, dec, join, join_strings, lowercase, owned, push_str, str_contains,
    str_eq, to_lower, u64_to_string, views};

verus! {

/// A plugin; its rating is kept in tenths of a star.
#[derive(Debug, Clone)]
pub struct PluginInfo {
    pub name: String,
    pub version: String,
    pub description: String,
    pub author: String,
    pub repository: String,
    pub category: String,
    pub downloads: u32,
    pub rating_tenths: u32,
    pub commands: Vec<String>,
    pub tags: Vec<String>,
}

/// The plugins that come with the tool: name, version, description,
/// author, category, downloads, rating in tenths.
pub open spec fn builtin_table() -> Seq<(Seq<char>, Seq<char>, Seq<char>, Seq<char>, Seq<char>, u32, u32)> {
    seq![
        ("github-actions"@, "1.2.0"@, "GitHub Actions workflow automation"@, "DevUtils Team"@, "CI/CD"@, 15000u32, 48u32),
        ("gitlab-ci"@, "1.1.0"@, "GitLab CI/CD helpers"@, "DevUtils Team"@, "CI/CD"@, 8000u32, 45u32),
        ("jenkins-helper"@, "2.0.0"@, "Jenkins pipeline helpers"@, "Community"@, "CI/CD"@, 5000u32, 42u32),
        ("circleci-tools"@, "1.0.0"@, "CircleCI configuration helpers"@, "Community"@, "CI/CD"@, 3000u32, 40u32),
        ("docker-compose"@, "2.1.0"@, "Docker Compose helper with smart templates"@, "DevUtils Team"@, "Docker"@, 12000u32, 47u32),
        ("kubernetes"@, "3.0.0"@, "Kubernetes deployment helpers"@, "DevOps Team"@, "Docker"@, 10000u32, 46u32),
        ("dockerfile-lint"@, "1.5.0"@, "Lint Dockerfiles for best practices"@, "Community"@, "Docker"@, 6000u32, 43u32),
        ("pytest-helper"@, "1.0.0"@, "Pytest fixtures and helpers"@, "Community"@, "Testing"@, 8000u32, 44u32),
        ("jest-config"@, "1.2.0"@, "Jest configuration helpers"@, "Community"@, "Testing"@, 7000u32, 43u32),
        ("mocha-plus"@, "1.0.0"@, "Mocha test helpers"@, "Community"@, "Testing"@, 4000u32, 41u32),
        ("rust-analyzer-plus"@, "0.3.0"@, "Enhanced Rust analysis"@, "Rust Team"@, "Linting"@, 6500u32, 45u32),
        ("eslint-rules"@, "2.0.0"@, "ESLint rule helpers"@, "JS Team"@, "Linting"@, 9000u32, 44u32),
        ("pylint-config"@, "1.1.0"@, "Pylint configuration"@, "Python Team"@, "Linting"@, 5500u32, 42u32),
        ("prettier-config"@, "1.0.0"@, "Shareable Prettier configurations"@, "DevUtils Team"@, "Formatting"@, 5000u32, 43u32),
        ("black-config"@, "1.0.0"@, "Black formatter configs"@, "Python Team"@, "Formatting"@, 4500u32, 42u32),
        ("secrets-scanner"@, "2.0.0"@, "Scan for exposed secrets"@, "Security Team"@, "Security"@, 9500u32, 47u32),
        ("dependency-check"@, "1.5.0"@, "Check dependencies for vulnerabilities"@, "Security Team"@, "Security"@, 7000u32, 45u32),
        ("audit-ci"@, "1.0.0"@, "CI security audit helpers"@, "Security Team"@, "Security"@, 4000u32, 41u32),
        ("db-migration"@, "1.5.0"@, "Database migration helpers"@, "Database Team"@, "Database"@, 4200u32, 43u32),
        ("sql-formatter"@, "1.0.0"@, "Format SQL queries"@, "Database Team"@, "Database"@, 3800u32, 42u32),
        ("redis-helper"@, "1.0.0"@, "Redis command helpers"@, "Database Team"@, "Database"@, 2500u32, 40u32),
        ("metrics-exporter"@, "0.2.0"@, "Export metrics to Prometheus"@, "Monitoring Team"@, "Monitoring"@, 3100u32, 41u32),
        ("log-parser"@, "1.0.0"@, "Parse and analyze logs"@, "Monitoring Team"@, "Monitoring"@, 2800u32, 40u32),
        ("env-manager"@, "1.0.0"@, "Environment variable manager"@, "DevUtils Team"@, "Utility"@, 6000u32, 44u32),
        ("config-validator"@, "1.0.0"@, "Validate config files"@, "DevUtils Team"@, "Utility"@, 4000u32, 42u32),
    ]
}

/// `p` is the plugin that the row describes, with its repository under
/// `https://github.com/devutils/plugin-<name>` and no commands or tags.
pub open spec fn plugin_from(p: PluginInfo, row: (Seq<char>, Seq<char>, Seq<char>, Seq<char>, Seq<char>, u32, u32)) -> bool {
    &&& p.name@ == row.0
    &&& p.version@ == row.1
    &&& p.description@ == row.2
    &&& p.author@ == row.3
    &&& p.category@ == row.4
    &&& p.downloads == row.5
    &&& p.rating_tenths == row.6
    &&& p.repository@ == "https://github.com/devutils/plugin-"@ + row.0
    &&& p.commands@.len() == 0
    &&& p.tags@.len() == 0
}

/// The marketplace: its plugins and where it caches downloads.
pub struct Marketplace {
    pub plugins: Vec<PluginInfo>,
    pub cache_dir: String,
}

fn add_builtin(plugins: &mut Vec<PluginInfo>, name: &str, version: &str, description: &str, author: &str,
    category: &str, downloads: u32, rating_tenths: u32)
    ensures
        final(plugins)@.drop_last() == old(plugins)@,
        final(plugins)@.len() == old(plugins)@.len() + 1,
        plugin_from(final(plugins)@.last(), (name@, version@, description@, author@, category@, downloads, rating_tenths)),
{
    let p = PluginInfo {
        name: owned(name),
        version: owned(version),
        description: owned(description),
        author: owned(author),
        repository: cat("https://github.com/devutils/plugin-", name),
        category: owned(category),
        downloads,
        rating_tenths,
        commands: Vec::new(),
        tags: Vec::new(),
    };
    plugins.push(p);
    assert(plugins@.drop_last() =~= old(plugins)@);
}

/// The plugins that come with the tool.
pub fn builtin_plugins() -> (r: Vec<PluginInfo>)
    ensures
        r@.len() == builtin_table().len(),
        forall|k: int| 0 <= k < r@.len() ==> plugin_from(r@[k], builtin_table()[k]),
{
    let mut plugins: Vec<PluginInfo> = Vec::new();
    add_builtin(&mut plugins, "github-actions", "1.2.0", "GitHub Actions workflow automation", "DevUtils Team", "CI/CD", 15000, 48);
    add_builtin(&mut plugins, "gitlab-ci", "1.1.0", "GitLab CI/CD helpers", "DevUtils Team", "CI/CD", 8000, 45);
    add_builtin(&mut plugins, "jenkins-helper", "2.0.0", "Jenkins pipeline helpers", "Community", "CI/CD", 5000, 42);
    add_builtin(&mut plugins, "circleci-tools", "1.0.0", "CircleCI configuration helpers", "Community", "CI/CD", 3000, 40);
    add_builtin(&mut plugins, "docker-compose", "2.1.0", "Docker Compose helper with smart templates", "DevUtils Team", "Docker", 12000, 47);
    add_builtin(&mut plugins, "kubernetes", "3.0.0", "Kubernetes deployment helpers", "DevOps Team", "Docker", 10000, 46);
    add_builtin(&mut plugins, "dockerfile-lint", "1.5.0", "Lint Dockerfiles for best practices", "Community", "Docker", 6000, 43);
    add_builtin(&mut plugins, "pytest-helper", "1.0.0", "Pytest fixtures and helpers", "Community", "Testing", 8000, 44);
    add_builtin(&mut plugins, "jest-config", "1.2.0", "Jest configuration helpers", "Community", "Testing", 7000, 43);
    add_builtin(&mut plugins, "mocha-plus", "1.0.0", "Mocha test helpers", "Community", "Testing", 4000, 41);
    add_builtin(&mut plugins, "rust-analyzer-plus", "0.3.0", "Enhanced Rust analysis", "Rust Team", "Linting", 6500, 45);
    add_builtin(&mut plugins, "eslint-rules", "2.0.0", "ESLint rule helpers", "JS Team", "Linting", 9000, 44);
    add_builtin(&mut plugins, "pylint-config", "1.1.0", "Pylint configuration", "Python Team", "Linting", 5500, 42);
    add_builtin(&mut plugins, "prettier-config", "1.0.0", "Shareable Prettier configurations", "DevUtils Team", "Formatting", 5000, 43);
    add_builtin(&mut plugins, "black-config", "1.0.0", "Black formatter configs", "Python Team", "Formatting", 4500, 42);
    add_builtin(&mut plugins, "secrets-scanner", "2.0.0", "Scan for exposed secrets", "Security Team", "Security", 9500, 47);
    add_builtin(&mut plugins, "dependency-check", "1.5.0", "Check dependencies for vulnerabilities", "Security Team", "Security", 7000, 45);
    add_builtin(&mut plugins, "audit-ci", "1.0.0", "CI security audit helpers", "Security Team", "Security", 4000, 41);
    add_builtin(&mut plugins, "db-migration", "1.5.0", "Database migration helpers", "Database Team", "Database", 4200, 43);
    add_builtin(&mut plugins, "sql-formatter", "1.0.0", "Format SQL queries", "Database Team", "Database", 3800, 42);
    add_builtin(&mut plugins, "redis-helper", "1.0.0", "Redis command helpers", "Database Team", "Database", 2500, 40);
    add_builtin(&mut plugins, "metrics-exporter", "0.2.0", "Export metrics to Prometheus", "Monitoring Team", "Monitoring", 3100, 41);
    add_builtin(&mut plugins, "log-parser", "1.0.0", "Parse and analyze logs", "Monitoring Team", "Monitoring", 2800, 40);
    add_builtin(&mut plugins, "env-manager", "1.0.0", "Environment variable manager", "DevUtils Team", "Utility", 6000, 44);
    add_builtin(&mut plugins, "config-validator", "1.0.0", "Validate config files", "DevUtils Team", "Utility", 4000, 42);
    proof {
        let t = builtin_table();
        assert forall|k: int| 0 <= k < plugins@.len() implies plugin_from(plugins@[k], builtin_table()[k]) by {
        }
    }
    plugins
}

/// The plugin matches a search: the query, in lower case, occurs in its
/// name, description or category, in lower case.
pub open spec fn matches_query(p: PluginInfo, q: Seq<char>) -> bool {
    contains(lowercase(p.name@), lowercase(q)) || contains(lowercase(p.description@), lowercase(q))
        || contains(lowercase(p.category@), lowercase(q))
}

/// The search as a predicate on plugins.
pub open spec fn query_pred(q: Seq<char>) -> spec_fn(PluginInfo) -> bool {
    |p: PluginInfo| matches_query(p, q)
}

/// Membership in a category as a predicate on plugins.
pub open spec fn category_pred(c: Seq<char>) -> spec_fn(PluginInfo) -> bool {
    |p: PluginInfo| p.category@ == c
}

/// The positions of the plugins that satisfy `f`, in order.
pub open spec fn positions_where(s: Seq<PluginInfo>, f: spec_fn(PluginInfo) -> bool) -> Seq<int>
    decreases s.len(),
{
    if s.len() == 0 {
        seq![]
    } else if f(s.last()) {
        positions_where(s.drop_last(), f).push(s.len() - 1)
    } else {
        positions_where(s.drop_last(), f)
    }
}

/// The download counts, as keys.
pub open spec fn download_keys(s: Seq<PluginInfo>) -> Seq<u64> {
    s.map_values(|p: PluginInfo| p.downloads as u64)
}

/// The first `n` entries of an order (all of them when there are fewer).
pub open spec fn take_first(o: Seq<usize>, n: nat) -> Seq<usize> {
    if o.len() <= n { o } else { o.subrange(0, n as int) }
}

/// The position of the plugin named `name`.
pub open spec fn plugin_index(s: Seq<PluginInfo>, name: Seq<char>) -> Option<int>
    decreases s.len(),
{
    if s.len() == 0 {
        None
    } else {
        match plugin_index(s.drop_last(), name) {
            Some(i) => Some(i),
            None => if s.last().name@ == name { Some(s.len() - 1) } else { None },
        }
    }
}

proof fn lemma_plugin_index(s: Seq<PluginInfo>, name: Seq<char>)
    ensures
        match plugin_index(s, name) {
            Some(i) => 0 <= i < s.len() && s[i].name@ == name && forall|k: int| 0 <= k < i ==> s[k].name@ != name,
            None => forall|k: int| 0 <= k < s.len() ==> s[k].name@ != name,
        },
    decreases s.len(),
{
    if s.len() > 0 {
        lemma_plugin_index(s.drop_last(), name);
        assert forall|k: int| 0 <= k < s.len() - 1 implies s.drop_last()[k] == s[k] by {}
    }
}

fn find_plugin(v: &Vec<PluginInfo>, name: &str) -> (r: Option<usize>)
    ensures
        match r {
            Some(i) => i < v@.len() && plugin_index(v@, name@) == Some(i as int),
            None => plugin_index(v@, name@) is None,
        },
{
    proof { lemma_plugin_index(v@, name@); }
    let mut i: usize = 0;
    while i < v.len()
        invariant
            i <= v@.len(),
            forall|k: int| 0 <= k < i ==> v@[k].name@ != name@,
            match plugin_index(v@, name@) {
                Some(j) => 0 <= j < v@.len() && v@[j].name@ == name@ && forall|k: int| 0 <= k < j ==> v@[k].name@ != name@,
                None => forall|k: int| 0 <= k < v@.len() ==> v@[k].name@ != name@,
            },
        decreases v.len() - i,
    {
        if str_eq(v[i].name.as_str(), name) {
            return Some(i);
        }
        i = i + 1;
    }
    None
}

impl Marketplace {
    /// The marketplace with the plugins that come with the tool, caching in
    /// `cache_dir`.
    pub fn new(cache_dir: String) -> (r: Self)
        ensures
            r.plugins@.len() == builtin_table().len(),
            forall|k: int| 0 <= k < r.plugins@.len() ==> plugin_from(r.plugins@[k], builtin_table()[k]),
            r.cache_dir == cache_dir,
    {
        Marketplace { plugins: builtin_plugins(), cache_dir }
    }

    /// The plugins that match a search, in stored order.
    pub fn search(&self, query: &str) -> (r: Vec<&PluginInfo>)
        ensures
            r@.len() == positions_where(self.plugins@, query_pred(query@)).len(),
            forall|k: int| 0 <= k < r@.len() ==> *r@[k] == self.plugins@[positions_where(self.plugins@, query_pred(query@))[k]],
    {
        let ghost f = query_pred(query@);
        let q = to_lower(query);
        let mut out: Vec<&PluginInfo> = Vec::new();
        let mut i: usize = 0;
        while i < self.plugins.len()
            invariant
                f == (query_pred(query@)),
                q@ == lowercase(query@),
                i <= self.plugins@.len(),
                out@.len() == positions_where(self.plugins@.subrange(0, i as int), f).len(),
                forall|k: int| 0 <= k < out@.len() ==> *out@[k] == self.plugins@[positions_where(self.plugins@.subrange(0, i as int), f)[k]],
                forall|k: int| 0 <= k < positions_where(self.plugins@.subrange(0, i as int), f).len()
                    ==> 0 <= #[trigger] positions_where(self.plugins@.subrange(0, i as int), f)[k] < i,
            decreases self.plugins.len() - i,
        {
            let ghost nxt = self.plugins@.subrange(0, i + 1);
            assert(nxt.drop_last() =~= self.plugins@.subrange(0, i as int));
            assert(nxt.last() == self.plugins@[i as int]);
            let p = &self.plugins[i];
            let n = to_lower(p.name.as_str());
            let d = to_lower(p.description.as_str());
            let c = to_lower(p.category.as_str());
            let hit = str_contains(n.as_str(), q.as_str()) || str_contains(d.as_str(), q.as_str())
                || str_contains(c.as_str(), q.as_str());
            if hit {
                out.push(p);
            }
            i = i + 1;
        }
        assert(self.plugins@.subrange(0, self.plugins@.len() as int) =~= self.plugins@);
        out
    }

    /// The three most downloaded plugins, most downloaded first (equal
    /// counts in stored order).
    pub fn featured(&self) -> (r: Vec<&PluginInfo>)
        ensures
            r@.len() == take_first(desc_order(download_keys(self.plugins@)), 3).len(),
            forall|k: int| 0 <= k < r@.len() ==> *r@[k] == self.plugins@[take_first(desc_order(download_keys(self.plugins@)), 3)[k] as int],
    {
        let mut keys: Vec<u64> = Vec::new();
        let mut i: usize = 0;
        while i < self.plugins.len()
            invariant
                i <= self.plugins@.len(),
                keys@ =~= download_keys(self.plugins@.subrange(0, i as int)),
            decreases self.plugins.len() - i,
        {
            keys.push(self.plugins[i].downloads as u64);
            i = i + 1;
        }
        assert(self.plugins@.subrange(0, self.plugins@.len() as int) =~= self.plugins@);
        let order = desc_positions(&keys);
        let n: usize = if order.len() <= 3 { order.len() } else { 3 };
        let ghost top = take_first(order@, 3);
        assert(top =~= order@.subrange(0, n as int));
        let mut out: Vec<&PluginInfo> = Vec::new();
        let mut k: usize = 0;
        while k < n
            invariant
                n <= order@.len(),
                order@.len() == self.plugins@.len(),
                forall|j: int| 0 <= j < order@.len() ==> order@[j] < self.plugins@.len(),
                top == order@.subrange(0, n as int),
                k <= n,
                out@.len() == k,
                forall|j: int| 0 <= j < k ==> *out@[j] == self.plugins@[top[j] as int],
            decreases n - k,
        {
            out.push(&self.plugins[order[k]]);
            k = k + 1;
        }
        out
    }

    /// The plugin named `name`.
    pub fn get(&self, name: &str) -> (r: Option<&PluginInfo>)
        ensures
            match plugin_index(self.plugins@, name@) {
                Some(i) => r matches Some(p) && *p == self.plugins@[i],
                None => r is None,
            },
    {
        match find_plugin(&self.plugins, name) {
            Some(i) => Some(&self.plugins[i]),
            None => None,
        }
    }

    /// Every plugin, in stored order.
    pub fn list(&self) -> (r: Vec<&PluginInfo>)
        ensures
            r@.len() == self.plugins@.len(),
            forall|k: int| 0 <= k < r@.len() ==> *r@[k] == self.plugins@[k],
    {
        let mut out: Vec<&PluginInfo> = Vec::new();
        let mut i: usize = 0;
        while i < self.plugins.len()
            invariant
                i <= self.plugins@.len(),
                out@.len() == i,
                forall|k: int| 0 <= k < i ==> *out@[k] == self.plugins@[k],
            decreases self.plugins.len() - i,
        {
            out.push(&self.plugins[i]);
            i = i + 1;
        }
        out
    }

    /// The categories, each once, in ascending order.
    pub fn categories(&self) -> (r: Vec<String>)
        ensures
            strictly_sorted(views(r@)),
            forall|c: Seq<char>| views(r@).contains(c) <==> exists|i: int| 0 <= i < self.plugins@.len() && self.plugins@[i].category@ == c,
    {
        let mut cats: Vec<String> = Vec::new();
        let mut i: usize = 0;
        while i < self.plugins.len()
            invariant
                i <= self.plugins@.len(),
                cats@.len() == i,
                forall|k: int| 0 <= k < i ==> cats@[k]@ == self.plugins@[k].category@,
            decreases self.plugins.len() - i,
        {
            cats.push(owned(self.plugins[i].category.as_str()));
            i = i + 1;
        }
        let r = sorted_distinct(&cats);
        assert forall|c: Seq<char>| views(r@).contains(c) <==> exists|i: int| 0 <= i < self.plugins@.len() && self.plugins@[i].category@ == c by {
            if views(cats@).contains(c) {
                let k = choose|k: int| 0 <= k < views(cats@).len() && views(cats@)[k] == c;
                assert(self.plugins@[k].category@ == c);
            }
            if exists|i: int| 0 <= i < self.plugins@.len() && self.plugins@[i].category@ == c {
                let k = choose|k: int| 0 <= k < self.plugins@.len() && self.plugins@[k].category@ == c;
                assert(views(cats@)[k] == c);
            }
        }
        r
    }

    /// The plugins of a category, in stored order.
    pub fn by_category(&self, category: &str) -> (r: Vec<&PluginInfo>)
        ensures
            r@.len() == positions_where(self.plugins@, category_pred(category@)).len(),
            forall|k: int| 0 <= k < r@.len() ==> *r@[k] == self.plugins@[positions_where(self.plugins@, category_pred(category@))[k]],
    {
        let ghost f = category_pred(category@);
        let mut out: Vec<&PluginInfo> = Vec::new();
        let mut i: usize = 0;
        while i < self.plugins.len()
            invariant
                f == (category_pred(category@)),
                i <= self.plugins@.len(),
                out@.len() == positions_where(self.plugins@.subrange(0, i as int), f).len(),
                forall|k: int| 0 <= k < out@.len() ==> *out@[k] == self.plugins@[positions_where(self.plugins@.subrange(0, i as int), f)[k]],
                forall|k: int| 0 <= k < positions_where(self.plugins@.subrange(0, i as int), f).len()
                    ==> 0 <= #[trigger] positions_where(self.plugins@.subrange(0, i as int), f)[k] < i,
            decreases self.plugins.len() - i,
        {
            let ghost nxt = self.plugins@.subrange(0, i + 1);
            assert(nxt.drop_last() =~= self.plugins@.subrange(0, i as int));
            assert(nxt.last() == self.plugins@[i as int]);
            if str_eq(self.plugins[i].category.as_str(), category) {
                out.push(&self.plugins[i]);
            }
            i = i + 1;
        }
        assert(self.plugins@.subrange(0, self.plugins@.len() as int) =~= self.plugins@);
        out
    }

    /// Counts one more download of the plugin named `name`.
    pub fn increment_download(&mut self, name: &str)
        requires
            plugin_index(old(self).plugins@, name@) matches Some(i) ==> old(self).plugins@[i].downloads < u32::MAX,
        ensures
            final(self).cache_dir == old(self).cache_dir,
            match plugin_index(old(self).plugins@, name@) {
                Some(i) => final(self).plugins@ == old(self).plugins@.update(i,
                    PluginInfo { downloads: (old(self).plugins@[i].downloads + 1) as u32, ..old(self).plugins@[i] }),
                None => final(self).plugins@ == old(self).plugins@,
            },
    {
        match find_plugin(&self.plugins, name) {
            Some(i) => {
                let ghost before = self.plugins@;
                let mut p = self.plugins.remove(i);
                p.downloads = p.downloads + 1;
                self.plugins.insert(i, p);
                assert(self.plugins@ =~= before.update(i as int,
                    PluginInfo { downloads: (before[i as int].downloads + 1) as u32, ..before[i as int] }));
            },
            None => {},
        }
    }
}

/// Installs the plugin named `name`: one more download.
pub fn install(mp: &mut Marketplace, name: &str) -> (r: Result<String, String>)
    requires
        plugin_index(old(mp).plugins@, name@) matches Some(i) ==> old(mp).plugins@[i].downloads < u32::MAX,
    ensures
        final(mp).cache_dir == old(mp).cache_dir,
        match plugin_index(old(mp).plugins@, name@) {
            Some(i) => final(mp).plugins@ == old(mp).plugins@.update(i,
                PluginInfo { downloads: (old(mp).plugins@[i].downloads + 1) as u32, ..old(mp).plugins@[i] })
                && (r matches Ok(m) && m@ == "Installed plugin: "@ + name@),
            None => final(mp).plugins@ == old(mp).plugins@ && (r matches Err(e) && e@ == "Plugin '"@ + name@ + "' not found"@),
        },
{
    proof { lemma_plugin_index(mp.plugins@, name@); }
    match mp.get(name) {
        Some(_) => {
            mp.increment_download(name);
            Ok(cat("Installed plugin: ", name))
        },
        None => Err(cat3("Plugin '", name, "' not found")),
    }
}

/// The categories, each once, in ascending order.
pub fn list_categories(mp: &Marketplace) -> (r: Vec<String>)
    ensures
        strictly_sorted(views(r@)),
        forall|c: Seq<char>| views(r@).contains(c) <==> exists|i: int| 0 <= i < mp.plugins@.len() && mp.plugins@[i].category@ == c,
{
    mp.categories()
}

/// How many plugins there are.
pub fn plugin_count(mp: &Marketplace) -> (r: usize)
    ensures
        r == mp.plugins@.len(),
{
    mp.plugins.len()
}

/// A rating in tenths as one decimal place: `4.8` for 48.
pub open spec fn rating_text(t: u32) -> Seq<char> {
    dec((t / 10) as nat) + "."@ + dec((t % 10) as nat)
}

/// The search result line of the `k`-th (from one) plugin.
pub open spec fn search_line(k: nat, p: PluginInfo) -> Seq<char> {
    dec(k) + ". "@ + p.name@ + " (v"@ + p.version@ + ") - "@ + p.description@ + "\n   Author: "@ + p.author@
        + " | Downloads: "@ + dec(p.downloads as nat) + " | Category: "@ + p.category@ + "\n"@
}

/// The search result lines, numbered from one.
pub open spec fn search_lines(ps: Seq<PluginInfo>) -> Seq<char>
    decreases ps.len(),
{
    if ps.len() == 0 { seq![] } else { search_lines(ps.drop_last()) + search_line(ps.len(), ps.last()) }
}

/// The listing line of a plugin.
pub open spec fn list_line(p: PluginInfo) -> Seq<char> {
    "- "@ + p.name@ + " (v"@ + p.version@ + ") - "@ + p.description@ + "\n  Author: "@ + p.author@
        + " | Downloads: "@ + dec(p.downloads as nat) + "\n"@
}

/// The listing lines.
pub open spec fn list_lines(ps: Seq<PluginInfo>) -> Seq<char>
    decreases ps.len(),
{
    if ps.len() == 0 { seq![] } else { list_lines(ps.drop_last()) + list_line(ps.last()) }
}

/// The featured line of a plugin.
pub open spec fn featured_line(p: PluginInfo) -> Seq<char> {
    "- "@ + p.name@ + " (v"@ + p.version@ + ") - "@ + p.description@ + " ("@ + dec(p.downloads as nat) + " downloads)\n"@
}

/// The featured lines.
pub open spec fn featured_lines(ps: Seq<PluginInfo>) -> Seq<char>
    decreases ps.len(),
{
    if ps.len() == 0 { seq![] } else { featured_lines(ps.drop_last()) + featured_line(ps.last()) }
}

/// The details of a plugin.
pub open spec fn info_text(p: PluginInfo) -> Seq<char> {
    "Plugin: "@ + p.name@ + "\nVersion: "@ + p.version@ + "\nDescription: "@ + p.description@ + "\nAuthor: "@
        + p.author@ + "\nCategory: "@ + p.category@ + "\nDownloads: "@ + dec(p.downloads as nat) + "\nRating: "@
        + rating_text(p.rating_tenths) + "\nRepository: "@ + p.repository@
}

fn rating_string(t: u32) -> (r: String)
    ensures
        r@ == rating_text(t),
{
    let mut r = u64_to_string((t / 10) as u64);
    push_str(&mut r, ".");
    push_str(&mut r, u64_to_string((t % 10) as u64).as_str());
    r
}

/// The plugins at the positions `pos`, in that order.
pub open spec fn picked(ps: Seq<PluginInfo>, pos: Seq<int>) -> Seq<PluginInfo> {
    Seq::new(pos.len(), |k: int| ps[pos[k]])
}

/// The plugins that a search finds.
pub open spec fn found(ps: Seq<PluginInfo>, q: Seq<char>) -> Seq<PluginInfo> {
    picked(ps, positions_where(ps, query_pred(q)))
}

/// The featured plugins.
pub open spec fn featured_of(ps: Seq<PluginInfo>) -> Seq<PluginInfo> {
    let o = take_first(desc_order(download_keys(ps)), 3);
    Seq::new(o.len(), |k: int| ps[o[k] as int])
}

/// The first `n` plugins (all of them when there are fewer).
pub open spec fn first_plugins(ps: Seq<PluginInfo>, n: nat) -> Seq<PluginInfo> {
    if ps.len() <= n { ps } else { ps.subrange(0, n as int) }
}

/// The reply of a `marketplace` subcommand.
pub open spec fn marketplace_reply(ps: Seq<PluginInfo>, subcmd: Seq<char>, args: Seq<Seq<char>>, r: Result<Seq<char>, Seq<char>>) -> bool {
    if subcmd == "search"@ || subcmd == "find"@ {
        let q = if args.len() > 0 { args[0] } else { seq![] };
        let f = found(ps, q);
        r == if f.len() == 0 {
            Ok::<Seq<char>, Seq<char>>("\u{1f50d} No plugins found"@)
        } else {
            Ok("\u{1f50d} Marketplace Results for '"@ + q + "':\n"@ + search_lines(first_plugins(f, 10)))
        }
    } else if subcmd == "list"@ {
        r == Ok::<Seq<char>, Seq<char>>("\u{1f6d2} DevUtils Plugin Marketplace ("@ + dec(ps.len()) + " plugins)\n\n"@ + list_lines(ps))
    } else if subcmd == "featured"@ {
        r == Ok::<Seq<char>, Seq<char>>("\u{2b50} Featured Plugins:\n"@ + featured_lines(featured_of(ps)))
    } else if subcmd == "categories"@ {
        exists|c: Seq<Seq<char>>| strictly_sorted(c)
            && (forall|x: Seq<char>| c.contains(x) <==> exists|i: int| 0 <= i < ps.len() && ps[i].category@ == x)
            && r == Ok::<Seq<char>, Seq<char>>("\u{1f4c2} Plugin Categories:\n"@ + join(c, "\n"@))
    } else if subcmd == "info"@ {
        if args.len() == 0 {
            r == Err::<Seq<char>, Seq<char>>("Please specify plugin name"@)
        } else {
            match plugin_index(ps, args[0]) {
                Some(i) => r == Ok::<Seq<char>, Seq<char>>(info_text(ps[i])),
                None => r == Err::<Seq<char>, Seq<char>>("Plugin '"@ + args[0] + "' not found"@),
            }
        }
    } else {
        r == Err::<Seq<char>, Seq<char>>("Unknown marketplace command: "@ + subcmd)
    }
}

/// The view of a text result.
pub open spec fn result_view(r: Result<String, String>) -> Result<Seq<char>, Seq<char>> {
    match r {
        Ok(s) => Ok(s@),
        Err(e) => Err(e@),
    }
}

fn search_reply(mp: &Marketplace, q: &str) -> (r: String)
    ensures
        r@ == if found(mp.plugins@, q@).len() == 0 {
            "\u{1f50d} No plugins found"@
        } else {
            "\u{1f50d} Marketplace Results for '"@ + q@ + "':\n"@ + search_lines(first_plugins(found(mp.plugins@, q@), 10))
        },
{
    let results = mp.search(q);
    let ghost f = found(mp.plugins@, q@);
    assert(f.len() == results@.len());
    assert forall|k: int| 0 <= k < results@.len() implies *results@[k] == f[k] by {}
    if results.len() == 0 {
        return owned("\u{1f50d} No plugins found");
    }
    let mut out = cat3("\u{1f50d} Marketplace Results for '", q, "':\n");
    let n: usize = if results.len() <= 10 { results.len() } else { 10 };
    let ghost base = out@;
    assert(first_plugins(f, 10) =~= f.subrange(0, n as int));
    let mut k: usize = 0;
    while k < n
        invariant
            n <= results@.len(),
            n <= 10,
            f.len() == results@.len(),
            forall|j: int| 0 <= j < results@.len() ==> *results@[j] == f[j],
            k <= n,
            out@ == base + search_lines(f.subrange(0, k as int)),
        decreases n - k,
    {
        assert(f.subrange(0, k + 1).drop_last() =~= f.subrange(0, k as int));
        let line = search_line_text(k + 1, results[k]);
        push_str(&mut out, line.as_str());
        k = k + 1;
    }
    out
}

fn search_line_text(k: usize, p: &PluginInfo) -> (r: String)
    ensures
        r@ == search_line(k as nat, *p),
{
    let mut out = u64_to_string(k as u64);
    push_str(&mut out, ". ");
    push_str(&mut out, p.name.as_str());
    push_str(&mut out, " (v");
    push_str(&mut out, p.version.as_str());
    push_str(&mut out, ") - ");
    push_str(&mut out, p.description.as_str());
    push_str(&mut out, "\n   Author: ");
    push_str(&mut out, p.author.as_str());
    push_str(&mut out, " | Downloads: ");
    push_str(&mut out, u64_to_string(p.downloads as u64).as_str());
    push_str(&mut out, " | Category: ");
    push_str(&mut out, p.category.as_str());
    push_str(&mut out, "\n");
    out
}

fn list_line_text(p: &PluginInfo) -> (r: String)
    ensures
        r@ == list_line(*p),
{
    let mut out = owned("- ");
    push_str(&mut out, p.name.as_str());
    push_str(&mut out, " (v");
    push_str(&mut out, p.version.as_str());
    push_str(&mut out, ") - ");
    push_str(&mut out, p.description.as_str());
    push_str(&mut out, "\n  Author: ");
    push_str(&mut out, p.author.as_str());
    push_str(&mut out, " | Downloads: ");
    push_str(&mut out, u64_to_string(p.downloads as u64).as_str());
    push_str(&mut out, "\n");
    out
}

fn list_reply(mp: &Marketplace) -> (r: String)
    ensures
        r@ == "\u{1f6d2} DevUtils Plugin Marketplace ("@ + dec(mp.plugins@.len()) + " plugins)\n\n"@ + list_lines(mp.plugins@),
{
    let ghost ps = mp.plugins@;
    let mut out = cat3("\u{1f6d2} DevUtils Plugin Marketplace (", u64_to_string(mp.plugins.len() as u64).as_str(), " plugins)\n\n");
    let ghost base = out@;
    let mut k: usize = 0;
    while k < mp.plugins.len()
        invariant
            k <= ps.len(),
            ps == mp.plugins@,
            out@ == base + list_lines(ps.subrange(0, k as int)),
        decreases mp.plugins.len() - k,
    {
        assert(ps.subrange(0, k + 1).drop_last() =~= ps.subrange(0, k as int));
        let line = list_line_text(&mp.plugins[k]);
        push_str(&mut out, line.as_str());
        k = k + 1;
    }
    assert(ps.subrange(0, ps.len() as int) =~= ps);
    out
}

fn featured_line_text(p: &PluginInfo) -> (r: String)
    ensures
        r@ == featured_line(*p),
{
    let mut out = owned("- ");
    push_str(&mut out, p.name.as_str());
    push_str(&mut out, " (v");
    push_str(&mut out, p.version.as_str());
    push_str(&mut out, ") - ");
    push_str(&mut out, p.description.as_str());
    push_str(&mut out, " (");
    push_str(&mut out, u64_to_string(p.downloads as u64).as_str());
    push_str(&mut out, " downloads)\n");
    out
}

fn featured_reply(mp: &Marketplace) -> (r: String)
    ensures
        r@ == "\u{2b50} Featured Plugins:\n"@ + featured_lines(featured_of(mp.plugins@)),
{
    let top = mp.featured();
    let ghost f = featured_of(mp.plugins@);
    assert(f.len() == top@.len());
    let mut out = owned("\u{2b50} Featured Plugins:\n");
    let ghost base = out@;
    let mut k: usize = 0;
    while k < top.len()
        invariant
            k <= top@.len(),
            f.len() == top@.len(),
            forall|j: int| 0 <= j < top@.len() ==> *top@[j] == f[j],
            out@ == base + featured_lines(f.subrange(0, k as int)),
        decreases top.len() - k,
    {
        assert(f.subrange(0, k + 1).drop_last() =~= f.subrange(0, k as int));
        let line = featured_line_text(top[k]);
        push_str(&mut out, line.as_str());
        k = k + 1;
    }
    assert(f.subrange(0, f.len() as int) =~= f);
    out
}

fn info_reply(p: &PluginInfo) -> (r: String)
    ensures
        r@ == info_text(*p),
{
    let mut r = cat3("Plugin: ", p.name.as_str(), "\nVersion: ");
    push_str(&mut r, p.version.as_str());
    push_str(&mut r, "\nDescription: ");
    push_str(&mut r, p.description.as_str());
    push_str(&mut r, "\nAuthor: ");
    push_str(&mut r, p.author.as_str());
    push_str(&mut r, "\nCategory: ");
    push_str(&mut r, p.category.as_str());
    push_str(&mut r, "\nDownloads: ");
    push_str(&mut r, u64_to_string(p.downloads as u64).as_str());
    push_str(&mut r, "\nRating: ");
    push_str(&mut r, rating_string(p.rating_tenths).as_str());
    push_str(&mut r, "\nRepository: ");
    push_str(&mut r, p.repository.as_str());
    r
}

/// Runs a `marketplace` subcommand.
pub fn run_marketplace_cmd(mp: &Marketplace, subcmd: &str, args: &Vec<String>) -> (r: Result<String, String>)
    ensures
        marketplace_reply(mp.plugins@, subcmd@, views(args@), result_view(r)),
{
    proof {
        reveal_strlit("search");
        reveal_strlit("find");
        reveal_strlit("list");
        reveal_strlit("featured");
        reveal_strlit("categories");
        reveal_strlit("info");
        reveal_strlit("");
        assert("search"@.len() == 6 && "search"@[0] == 's');
        assert("find"@.len() == 4 && "find"@[0] == 'f');
        assert("list"@.len() == 4 && "list"@[0] == 'l');
        assert("featured"@.len() == 8 && "featured"@[0] == 'f');
        assert("categories"@.len() == 10 && "categories"@[0] == 'c');
        assert("info"@.len() == 4 && "info"@[0] == 'i');
        assert(""@ =~= Seq::<char>::empty());
        if args@.len() > 0 {
            assert(views(args@)[0] == args@[0]@);
        }
    }
    if str_eq(subcmd, "search") || str_eq(subcmd, "find") {
        let q: &str = if args.len() > 0 { args[0].as_str() } else { "" };
        return Ok(search_reply(mp, q));
    }
    if str_eq(subcmd, "list") {
        return Ok(list_reply(mp));
    }
    if str_eq(subcmd, "featured") {
        return Ok(featured_reply(mp));
    }
    if str_eq(subcmd, "categories") {
        let cats = mp.categories();
        return Ok(cat("\u{1f4c2} Plugin Categories:\n", join_strings(&cats, "\n").as_str()));
    }
    if str_eq(subcmd, "info") {
        if args.len() == 0 {
            return Err(owned("Please specify plugin name"));
        }
        let name = args[0].as_str();
        return match mp.get(name) {
            Some(p) => Ok(info_reply(p)),
            None => Err(cat3("Plugin '", name, "' not found")),
        };
    }
    Err(cat("Unknown marketplace command: ", subcmd))
}

} // verus!
