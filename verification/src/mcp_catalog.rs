//! The servers that the registry knows of from the start: the official ones
//! and the community and planned ones, each disabled until turned on.
use vstd::prelude::*;
use crate::mcp::{all_disabled, builtin_view, register_builtin, server_names_unique, store_view, views_of, MCPRegistry, ServerView};
use crate::text::{owned, views};

verus! {

/// The arguments that start a package with `npx`: `-y`, the package, then
/// the package's own arguments.
pub open spec fn npx(package: Seq<char>, extra: Seq<Seq<char>>) -> Seq<Seq<char>> {
    seq!["-y"@, package] + extra
}

/// The `npx` arguments of a package: `-y` and the package.
fn npx_package(package: &str) -> (r: Vec<String>)
    ensures
        views(r@) == seq!["-y"@, package@],
{
    let v: Vec<String> = vec![owned("-y"), owned(package)];
    assert(views(v@) =~= seq!["-y"@, package@]);
    v
}

/// No further arguments.
fn no_args() -> (r: Vec<String>)
    ensures
        views(r@) == Seq::<Seq<char>>::empty(),
{
    let v: Vec<String> = Vec::new();
    assert(views(v@) =~= Seq::<Seq<char>>::empty());
    v
}

/// One further argument.
fn one_arg(a: &str) -> (r: Vec<String>)
    ensures
        views(r@) == seq![a@],
{
    let v: Vec<String> = vec![owned(a)];
    assert(views(v@) =~= seq![a@]);
    v
}

/// Two further arguments.
fn two_args(a: &str, b: &str) -> (r: Vec<String>)
    ensures
        views(r@) == seq![a@, b@],
{
    let v: Vec<String> = vec![owned(a), owned(b)];
    assert(views(v@) =~= seq![a@, b@]);
    v
}

/// The servers `s` with the official servers (part 1) registered, in order.
pub open spec fn verified_servers_1_added(s: Seq<ServerView>) -> Seq<ServerView> {
    let s = store_view(s, builtin_view("filesystem"@, "Filesystem"@, "Read, write, navigate filesystem"@, "official"@, "npx"@, npx("@modelcontextprotocol/server-filesystem"@, seq!["/tmp"@]), true));
    let s = store_view(s, builtin_view("github"@, "GitHub"@, "Issues, PRs, repos via GitHub API"@, "official"@, "npx"@, npx("@modelcontextprotocol/server-github"@, Seq::empty()), true));
    let s = store_view(s, builtin_view("puppeteer"@, "Puppeteer"@, "Headless browser automation"@, "official"@, "npx"@, npx("@modelcontextprotocol/server-puppeteer"@, Seq::empty()), true));
    let s = store_view(s, builtin_view("memory"@, "Memory"@, "Persistent vector memory"@, "official"@, "npx"@, npx("@modelcontextprotocol/server-memory"@, Seq::empty()), true));
    let s = store_view(s, builtin_view("slack"@, "Slack"@, "Slack workspace integration"@, "official"@, "npx"@, npx("@modelcontextprotocol/server-slack"@, Seq::empty()), true));
    let s = store_view(s, builtin_view("sentry"@, "Sentry"@, "Error monitoring and reports"@, "official"@, "npx"@, npx("@modelcontextprotocol/server-sentry"@, Seq::empty()), true));
    let s = store_view(s, builtin_view("brave-search"@, "Brave Search"@, "Web search via Brave API"@, "official"@, "npx"@, npx("@modelcontextprotocol/server-brave-search"@, Seq::empty()), true));
    let s = store_view(s, builtin_view("fetch"@, "Fetch"@, "Fetch and parse web pages"@, "official"@, "npx"@, npx("@modelcontextprotocol/server-fetch"@, Seq::empty()), true));
    let s = store_view(s, builtin_view("google-maps"@, "Google Maps"@, "Places, routes, geocoding"@, "official"@, "npx"@, npx("@modelcontextprotocol/server-google-maps"@, Seq::empty()), true));
    let s = store_view(s, builtin_view("sequential-thinking"@, "Sequential Thinking"@, "Multi-step problem solving"@, "official"@, "npx"@, npx("@modelcontextprotocol/server-sequential-thinking"@, Seq::empty()), true));
    let s = store_view(s, builtin_view("postgres"@, "PostgreSQL"@, "PostgreSQL database operations"@, "database"@, "npx"@, npx("@modelcontextprotocol/server-postgres"@, Seq::empty()), true));
    let s = store_view(s, builtin_view("sqlite"@, "SQLite"@, "SQLite database operations"@, "database"@, "npx"@, npx("@modelcontextprotocol/server-sqlite"@, Seq::empty()), true));
    let s = store_view(s, builtin_view("mongodb"@, "MongoDB"@, "MongoDB operations"@, "database"@, "npx"@, npx("@modelcontextprotocol/server-mongodb"@, Seq::empty()), true));
    let s = store_view(s, builtin_view("supabase"@, "Supabase"@, "Supabase PostgreSQL wrapper"@, "database"@, "npx"@, npx("@modelcontextprotocol/server-supabase"@, Seq::empty()), true));
    let s = store_view(s, builtin_view("redis"@, "Redis"@, "Redis key-value store"@, "database"@, "npx"@, npx("@modelcontextprotocol/server-redis"@, Seq::empty()), true));
    let s = store_view(s, builtin_view("notion"@, "Notion"@, "Notion workspace integration"@, "productivity"@, "npx"@, npx("@modelcontextprotocol/server-notion"@, Seq::empty()), true));
    let s = store_view(s, builtin_view("linear"@, "Linear"@, "Linear project management"@, "project"@, "npx"@, npx("@modelcontextprotocol/server-linear"@, Seq::empty()), true));
    let s = store_view(s, builtin_view("gitlab"@, "GitLab"@, "GitLab repos and issues"@, "vcs"@, "npx"@, npx("@modelcontextprotocol/server-gitlab"@, Seq::empty()), true));
    let s = store_view(s, builtin_view("aws-kb-retrieval"@, "AWS KB"@, "AWS Knowledge Base via Bedrock"@, "cloud"@, "npx"@, npx("@modelcontextprotocol/server-aws-kb-retrieval"@, Seq::empty()), true));
    let s = store_view(s, builtin_view("docker"@, "Docker"@, "Docker container management"@, "infrastructure"@, "npx"@, npx("docker-mcp-server"@, Seq::empty()), true));
    let s = store_view(s, builtin_view("kubernetes"@, "Kubernetes"@, "kubectl operations"@, "infrastructure"@, "npx"@, npx("@modelcontextprotocol/server-kubernetes"@, Seq::empty()), true));
    let s = store_view(s, builtin_view("ollama"@, "Ollama"@, "Local LLM inference"@, "ai"@, "npx"@, npx("@modelcontextprotocol/server-ollama"@, Seq::empty()), true));
    let s = store_view(s, builtin_view("openai"@, "OpenAI"@, "OpenAI API integration"@, "ai"@, "npx"@, npx("@modelcontextprotocol/server-openai"@, Seq::empty()), true));
    let s = store_view(s, builtin_view("anthropic"@, "Anthropic"@, "Anthropic API integration"@, "ai"@, "npx"@, npx("@modelcontextprotocol/server-anthropic"@, Seq::empty()), true));
    let s = store_view(s, builtin_view("evernote"@, "Evernote"@, "Note management"@, "productivity"@, "npx"@, npx("@modelcontextprotocol/server-evernote"@, Seq::empty()), true));
    let s = store_view(s, builtin_view("google-calendar"@, "Google Calendar"@, "Calendar management"@, "productivity"@, "npx"@, npx("@modelcontextprotocol/server-google-calendar"@, Seq::empty()), true));
    let s = store_view(s, builtin_view("google-drive"@, "Google Drive"@, "File operations in Drive"@, "storage"@, "npx"@, npx("@modelcontextprotocol/server-google-drive"@, Seq::empty()), true));
    let s = store_view(s, builtin_view("everart"@, "EverArt"@, "AI image generation"@, "ai"@, "npx"@, npx("@modelcontextprotocol/server-everart"@, Seq::empty()), true));
    let s = store_view(s, builtin_view("everything"@, "Everything"@, "MCP protocol test server"@, "testing"@, "npx"@, npx("@modelcontextprotocol/server-everything"@, Seq::empty()), true));
    let s = store_view(s, builtin_view("ultimate-mcp"@, "Ultimate MCP"@, "81 tools, 50+ AI models"@, "ai"@, "npx"@, npx("ultimate-mcp-server"@, Seq::empty()), true));
    let s = store_view(s, builtin_view("mapbox"@, "Mapbox"@, "Geospatial and mapping APIs"@, "utility"@, "npx"@, npx("mapbox/mcp-server"@, Seq::empty()), true));
    let s = store_view(s, builtin_view("slack-full"@, "Slack Full"@, "Full Slack workspace access"@, "communication"@, "npx"@, npx("korotovsky/slack-mcp-server"@, Seq::empty()), true));
    let s = store_view(s, builtin_view("mindsdb"@, "MindsDB"@, "Connect databases with ML"@, "database"@, "npx"@, npx("mindsdb/mindsdb"@, Seq::empty()), true));
    let s = store_view(s, builtin_view("aws-ec2"@, "AWS EC2"@, "EC2 instance management"@, "cloud"@, "npx"@, npx("@modelcontextprotocol/server-aws-ec2"@, Seq::empty()), true));
    let s = store_view(s, builtin_view("aws-s3"@, "AWS S3"@, "S3 bucket operations"@, "cloud"@, "npx"@, npx("@modelcontextprotocol/server-aws-s3"@, Seq::empty()), true));
    let s = store_view(s, builtin_view("aws-lambda"@, "AWS Lambda"@, "Lambda function management"@, "cloud"@, "npx"@, npx("@modelcontextprotocol/server-aws-lambda"@, Seq::empty()), true));
    let s = store_view(s, builtin_view("playwright"@, "Playwright"@, "Browser automation"@, "browser"@, "npx"@, npx("@modelcontextprotocol/server-playwright"@, Seq::empty()), true));
    let s = store_view(s, builtin_view("obsidian"@, "Obsidian"@, "Obsidian vault access"@, "knowledge"@, "npx"@, npx("@modelcontextprotocol/server-obsidian"@, Seq::empty()), true));
    let s = store_view(s, builtin_view("jira"@, "Jira"@, "Jira issue tracking"@, "project"@, "npx"@, npx("@modelcontextprotocol/server-jira"@, Seq::empty()), true));
    let s = store_view(s, builtin_view("search"@, "Search"@, "Global search across sources"@, "search"@, "npx"@, npx("@modelcontextprotocol/server-search"@, Seq::empty()), true));
    s
}

/// Registers the official servers (part 1).
fn verified_servers_1(reg: &mut MCPRegistry)
    ensures
        views_of(final(reg).servers()) == verified_servers_1_added(views_of(old(reg).servers())),
        final(reg).running() == old(reg).running(),
        all_disabled(old(reg).servers()) ==> all_disabled(final(reg).servers()),
{
    register_builtin(reg, "filesystem", "Filesystem", "Read, write, navigate filesystem", "official", "npx",
        npx_package("@modelcontextprotocol/server-filesystem"), one_arg("/tmp"), true);
    register_builtin(reg, "github", "GitHub", "Issues, PRs, repos via GitHub API", "official", "npx",
        npx_package("@modelcontextprotocol/server-github"), no_args(), true);
    register_builtin(reg, "puppeteer", "Puppeteer", "Headless browser automation", "official", "npx",
        npx_package("@modelcontextprotocol/server-puppeteer"), no_args(), true);
    register_builtin(reg, "memory", "Memory", "Persistent vector memory", "official", "npx",
        npx_package("@modelcontextprotocol/server-memory"), no_args(), true);
    register_builtin(reg, "slack", "Slack", "Slack workspace integration", "official", "npx",
        npx_package("@modelcontextprotocol/server-slack"), no_args(), true);
    register_builtin(reg, "sentry", "Sentry", "Error monitoring and reports", "official", "npx",
        npx_package("@modelcontextprotocol/server-sentry"), no_args(), true);
    register_builtin(reg, "brave-search", "Brave Search", "Web search via Brave API", "official", "npx",
        npx_package("@modelcontextprotocol/server-brave-search"), no_args(), true);
    register_builtin(reg, "fetch", "Fetch", "Fetch and parse web pages", "official", "npx",
        npx_package("@modelcontextprotocol/server-fetch"), no_args(), true);
    register_builtin(reg, "google-maps", "Google Maps", "Places, routes, geocoding", "official", "npx",
        npx_package("@modelcontextprotocol/server-google-maps"), no_args(), true);
    register_builtin(reg, "sequential-thinking", "Sequential Thinking", "Multi-step problem solving", "official", "npx",
        npx_package("@modelcontextprotocol/server-sequential-thinking"), no_args(), true);
    register_builtin(reg, "postgres", "PostgreSQL", "PostgreSQL database operations", "database", "npx",
        npx_package("@modelcontextprotocol/server-postgres"), no_args(), true);
    register_builtin(reg, "sqlite", "SQLite", "SQLite database operations", "database", "npx",
        npx_package("@modelcontextprotocol/server-sqlite"), no_args(), true);
    register_builtin(reg, "mongodb", "MongoDB", "MongoDB operations", "database", "npx",
        npx_package("@modelcontextprotocol/server-mongodb"), no_args(), true);
    register_builtin(reg, "supabase", "Supabase", "Supabase PostgreSQL wrapper", "database", "npx",
        npx_package("@modelcontextprotocol/server-supabase"), no_args(), true);
    register_builtin(reg, "redis", "Redis", "Redis key-value store", "database", "npx",
        npx_package("@modelcontextprotocol/server-redis"), no_args(), true);
    register_builtin(reg, "notion", "Notion", "Notion workspace integration", "productivity", "npx",
        npx_package("@modelcontextprotocol/server-notion"), no_args(), true);
    register_builtin(reg, "linear", "Linear", "Linear project management", "project", "npx",
        npx_package("@modelcontextprotocol/server-linear"), no_args(), true);
    register_builtin(reg, "gitlab", "GitLab", "GitLab repos and issues", "vcs", "npx",
        npx_package("@modelcontextprotocol/server-gitlab"), no_args(), true);
    register_builtin(reg, "aws-kb-retrieval", "AWS KB", "AWS Knowledge Base via Bedrock", "cloud", "npx",
        npx_package("@modelcontextprotocol/server-aws-kb-retrieval"), no_args(), true);
    register_builtin(reg, "docker", "Docker", "Docker container management", "infrastructure", "npx",
        npx_package("docker-mcp-server"), no_args(), true);
    register_builtin(reg, "kubernetes", "Kubernetes", "kubectl operations", "infrastructure", "npx",
        npx_package("@modelcontextprotocol/server-kubernetes"), no_args(), true);
    register_builtin(reg, "ollama", "Ollama", "Local LLM inference", "ai", "npx",
        npx_package("@modelcontextprotocol/server-ollama"), no_args(), true);
    register_builtin(reg, "openai", "OpenAI", "OpenAI API integration", "ai", "npx",
        npx_package("@modelcontextprotocol/server-openai"), no_args(), true);
    register_builtin(reg, "anthropic", "Anthropic", "Anthropic API integration", "ai", "npx",
        npx_package("@modelcontextprotocol/server-anthropic"), no_args(), true);
    register_builtin(reg, "evernote", "Evernote", "Note management", "productivity", "npx",
        npx_package("@modelcontextprotocol/server-evernote"), no_args(), true);
    register_builtin(reg, "google-calendar", "Google Calendar", "Calendar management", "productivity", "npx",
        npx_package("@modelcontextprotocol/server-google-calendar"), no_args(), true);
    register_builtin(reg, "google-drive", "Google Drive", "File operations in Drive", "storage", "npx",
        npx_package("@modelcontextprotocol/server-google-drive"), no_args(), true);
    register_builtin(reg, "everart", "EverArt", "AI image generation", "ai", "npx",
        npx_package("@modelcontextprotocol/server-everart"), no_args(), true);
    register_builtin(reg, "everything", "Everything", "MCP protocol test server", "testing", "npx",
        npx_package("@modelcontextprotocol/server-everything"), no_args(), true);
    register_builtin(reg, "ultimate-mcp", "Ultimate MCP", "81 tools, 50+ AI models", "ai", "npx",
        npx_package("ultimate-mcp-server"), no_args(), true);
    register_builtin(reg, "mapbox", "Mapbox", "Geospatial and mapping APIs", "utility", "npx",
        npx_package("mapbox/mcp-server"), no_args(), true);
    register_builtin(reg, "slack-full", "Slack Full", "Full Slack workspace access", "communication", "npx",
        npx_package("korotovsky/slack-mcp-server"), no_args(), true);
    register_builtin(reg, "mindsdb", "MindsDB", "Connect databases with ML", "database", "npx",
        npx_package("mindsdb/mindsdb"), no_args(), true);
    register_builtin(reg, "aws-ec2", "AWS EC2", "EC2 instance management", "cloud", "npx",
        npx_package("@modelcontextprotocol/server-aws-ec2"), no_args(), true);
    register_builtin(reg, "aws-s3", "AWS S3", "S3 bucket operations", "cloud", "npx",
        npx_package("@modelcontextprotocol/server-aws-s3"), no_args(), true);
    register_builtin(reg, "aws-lambda", "AWS Lambda", "Lambda function management", "cloud", "npx",
        npx_package("@modelcontextprotocol/server-aws-lambda"), no_args(), true);
    register_builtin(reg, "playwright", "Playwright", "Browser automation", "browser", "npx",
        npx_package("@modelcontextprotocol/server-playwright"), no_args(), true);
    register_builtin(reg, "obsidian", "Obsidian", "Obsidian vault access", "knowledge", "npx",
        npx_package("@modelcontextprotocol/server-obsidian"), no_args(), true);
    register_builtin(reg, "jira", "Jira", "Jira issue tracking", "project", "npx",
        npx_package("@modelcontextprotocol/server-jira"), no_args(), true);
    register_builtin(reg, "search", "Search", "Global search across sources", "search", "npx",
        npx_package("@modelcontextprotocol/server-search"), no_args(), true);
}

/// The servers `s` with the official servers (part 2) registered, in order.
pub open spec fn verified_servers_2_added(s: Seq<ServerView>) -> Seq<ServerView> {
    let s = store_view(s, builtin_view("git"@, "Git"@, "Git repository operations"@, "vcs"@, "npx"@, npx("@modelcontextprotocol/server-git"@, Seq::empty()), true));
    let s = store_view(s, builtin_view("composio"@, "Composio"@, "Multi-platform integration"@, "integration"@, "npx"@, npx("@composio/mcp-server"@, Seq::empty()), true));
    let s = store_view(s, builtin_view("zapier"@, "Zapier"@, "Workflow automation"@, "automation"@, "npx"@, npx("@composio/mcp-server"@, seq!["--platform"@, "zapier"@]), true));
    s
}

/// Registers the official servers (part 2).
fn verified_servers_2(reg: &mut MCPRegistry)
    ensures
        views_of(final(reg).servers()) == verified_servers_2_added(views_of(old(reg).servers())),
        final(reg).running() == old(reg).running(),
        all_disabled(old(reg).servers()) ==> all_disabled(final(reg).servers()),
{
    register_builtin(reg, "git", "Git", "Git repository operations", "vcs", "npx",
        npx_package("@modelcontextprotocol/server-git"), no_args(), true);
    register_builtin(reg, "composio", "Composio", "Multi-platform integration", "integration", "npx",
        npx_package("@composio/mcp-server"), no_args(), true);
    register_builtin(reg, "zapier", "Zapier", "Workflow automation", "automation", "npx",
        npx_package("@composio/mcp-server"), two_args("--platform", "zapier"), true);
}

/// The servers `s` with the database servers registered, in order.
pub open spec fn db_servers_added(s: Seq<ServerView>) -> Seq<ServerView> {
    let s = store_view(s, builtin_view("postgres"@, "PostgreSQL"@, "Query and manage PostgreSQL databases"@, "database"@, "npx"@, npx("@modelcontextprotocol/server-postgres"@, Seq::empty()), false));
    let s = store_view(s, builtin_view("sqlite"@, "SQLite"@, "Work with SQLite databases"@, "database"@, "npx"@, npx("@modelcontextprotocol/server-sqlite"@, Seq::empty()), false));
    let s = store_view(s, builtin_view("mysql"@, "MySQL"@, "Connect to MySQL/MariaDB databases"@, "database"@, "npx"@, npx("mcp-server-mysql"@, Seq::empty()), false));
    let s = store_view(s, builtin_view("redis"@, "Redis"@, "Redis CLI operations"@, "database"@, "npx"@, npx("mcp-server-redis"@, Seq::empty()), false));
    let s = store_view(s, builtin_view("mongodb"@, "MongoDB"@, "MongoDB operations"@, "database"@, "npx"@, npx("@modelcontextprotocol/server-mongodb"@, Seq::empty()), false));
    let s = store_view(s, builtin_view("chromadb"@, "ChromaDB"@, "Vector database for embeddings"@, "database"@, "npx"@, npx("mcp-server-chroma"@, Seq::empty()), false));
    let s = store_view(s, builtin_view("pinecone"@, "Pinecone"@, "Pinecone vector database"@, "database"@, "npx"@, npx("mcp-server-pinecone"@, Seq::empty()), false));
    let s = store_view(s, builtin_view("qdrant"@, "Qdrant"@, "Qdrant vector search"@, "database"@, "npx"@, npx("mcp-server-qdrant"@, Seq::empty()), false));
    let s = store_view(s, builtin_view("weaviate"@, "Weaviate"@, "Weaviate vector database"@, "database"@, "npx"@, npx("mcp-server-weaviate"@, Seq::empty()), false));
    let s = store_view(s, builtin_view("supabase"@, "Supabase"@, "Supabase PostgreSQL wrapper"@, "database"@, "npx"@, npx("@modelcontextprotocol/server-supabase"@, Seq::empty()), false));
    s
}

/// Registers the database servers.
fn db_servers(reg: &mut MCPRegistry)
    ensures
        views_of(final(reg).servers()) == db_servers_added(views_of(old(reg).servers())),
        final(reg).running() == old(reg).running(),
        all_disabled(old(reg).servers()) ==> all_disabled(final(reg).servers()),
{
    register_builtin(reg, "postgres", "PostgreSQL", "Query and manage PostgreSQL databases", "database", "npx",
        npx_package("@modelcontextprotocol/server-postgres"), no_args(), false);
    register_builtin(reg, "sqlite", "SQLite", "Work with SQLite databases", "database", "npx",
        npx_package("@modelcontextprotocol/server-sqlite"), no_args(), false);
    register_builtin(reg, "mysql", "MySQL", "Connect to MySQL/MariaDB databases", "database", "npx",
        npx_package("mcp-server-mysql"), no_args(), false);
    register_builtin(reg, "redis", "Redis", "Redis CLI operations", "database", "npx",
        npx_package("mcp-server-redis"), no_args(), false);
    register_builtin(reg, "mongodb", "MongoDB", "MongoDB operations", "database", "npx",
        npx_package("@modelcontextprotocol/server-mongodb"), no_args(), false);
    register_builtin(reg, "chromadb", "ChromaDB", "Vector database for embeddings", "database", "npx",
        npx_package("mcp-server-chroma"), no_args(), false);
    register_builtin(reg, "pinecone", "Pinecone", "Pinecone vector database", "database", "npx",
        npx_package("mcp-server-pinecone"), no_args(), false);
    register_builtin(reg, "qdrant", "Qdrant", "Qdrant vector search", "database", "npx",
        npx_package("mcp-server-qdrant"), no_args(), false);
    register_builtin(reg, "weaviate", "Weaviate", "Weaviate vector database", "database", "npx",
        npx_package("mcp-server-weaviate"), no_args(), false);
    register_builtin(reg, "supabase", "Supabase", "Supabase PostgreSQL wrapper", "database", "npx",
        npx_package("@modelcontextprotocol/server-supabase"), no_args(), false);
}

/// The servers `s` with the cloud platform servers registered, in order.
pub open spec fn cloud_servers_added(s: Seq<ServerView>) -> Seq<ServerView> {
    let s = store_view(s, builtin_view("aws-ec2"@, "AWS EC2"@, "Manage EC2 instances"@, "cloud"@, "npx"@, npx("@modelcontextprotocol/server-aws-ec2"@, Seq::empty()), false));
    let s = store_view(s, builtin_view("aws-s3"@, "AWS S3"@, "S3 bucket operations"@, "cloud"@, "npx"@, npx("@modelcontextprotocol/server-aws-s3"@, Seq::empty()), false));
    let s = store_view(s, builtin_view("aws-lambda"@, "AWS Lambda"@, "Deploy and manage Lambda functions"@, "cloud"@, "npx"@, npx("@modelcontextprotocol/server-aws-lambda"@, Seq::empty()), false));
    let s = store_view(s, builtin_view("azure-compute"@, "Azure Compute"@, "Manage Azure virtual machines"@, "cloud"@, "npx"@, npx("@modelcontextprotocol/server-azure-compute"@, Seq::empty()), false));
    let s = store_view(s, builtin_view("azure-blob"@, "Azure Blob"@, "Azure Blob storage operations"@, "cloud"@, "npx"@, npx("@modelcontextprotocol/server-azure-blob"@, Seq::empty()), false));
    let s = store_view(s, builtin_view("gcp-compute"@, "GCP Compute"@, "Google Cloud Compute Engine"@, "cloud"@, "npx"@, npx("@modelcontextprotocol/server-gcp-compute"@, Seq::empty()), false));
    let s = store_view(s, builtin_view("gcp-storage"@, "GCP Storage"@, "Google Cloud Storage"@, "cloud"@, "npx"@, npx("@modelcontextprotocol/server-gcp-storage"@, Seq::empty()), false));
    let s = store_view(s, builtin_view("kubernetes"@, "Kubernetes"@, "kubectl operations"@, "infrastructure"@, "npx"@, npx("@modelcontextprotocol/server-kubernetes"@, Seq::empty()), false));
    let s = store_view(s, builtin_view("docker"@, "Docker"@, "Docker container management"@, "infrastructure"@, "npx"@, npx("@modelcontextprotocol/server-docker"@, Seq::empty()), false));
    let s = store_view(s, builtin_view("terraform"@, "Terraform"@, "Infrastructure as Code"@, "infrastructure"@, "npx"@, npx("@modelcontextprotocol/server-terraform"@, Seq::empty()), false));
    let s = store_view(s, builtin_view("pulumi"@, "Pulumi"@, "Pulumi IaC management"@, "infrastructure"@, "npx"@, npx("@modelcontextprotocol/server-pulumi"@, Seq::empty()), false));
    let s = store_view(s, builtin_view("helm"@, "Helm"@, "Kubernetes package manager"@, "infrastructure"@, "npx"@, npx("@modelcontextprotocol/server-helm"@, Seq::empty()), false));
    s
}

/// Registers the cloud platform servers.
fn cloud_servers(reg: &mut MCPRegistry)
    ensures
        views_of(final(reg).servers()) == cloud_servers_added(views_of(old(reg).servers())),
        final(reg).running() == old(reg).running(),
        all_disabled(old(reg).servers()) ==> all_disabled(final(reg).servers()),
{
    register_builtin(reg, "aws-ec2", "AWS EC2", "Manage EC2 instances", "cloud", "npx",
        npx_package("@modelcontextprotocol/server-aws-ec2"), no_args(), false);
    register_builtin(reg, "aws-s3", "AWS S3", "S3 bucket operations", "cloud", "npx",
        npx_package("@modelcontextprotocol/server-aws-s3"), no_args(), false);
    register_builtin(reg, "aws-lambda", "AWS Lambda", "Deploy and manage Lambda functions", "cloud", "npx",
        npx_package("@modelcontextprotocol/server-aws-lambda"), no_args(), false);
    register_builtin(reg, "azure-compute", "Azure Compute", "Manage Azure virtual machines", "cloud", "npx",
        npx_package("@modelcontextprotocol/server-azure-compute"), no_args(), false);
    register_builtin(reg, "azure-blob", "Azure Blob", "Azure Blob storage operations", "cloud", "npx",
        npx_package("@modelcontextprotocol/server-azure-blob"), no_args(), false);
    register_builtin(reg, "gcp-compute", "GCP Compute", "Google Cloud Compute Engine", "cloud", "npx",
        npx_package("@modelcontextprotocol/server-gcp-compute"), no_args(), false);
    register_builtin(reg, "gcp-storage", "GCP Storage", "Google Cloud Storage", "cloud", "npx",
        npx_package("@modelcontextprotocol/server-gcp-storage"), no_args(), false);
    register_builtin(reg, "kubernetes", "Kubernetes", "kubectl operations", "infrastructure", "npx",
        npx_package("@modelcontextprotocol/server-kubernetes"), no_args(), false);
    register_builtin(reg, "docker", "Docker", "Docker container management", "infrastructure", "npx",
        npx_package("@modelcontextprotocol/server-docker"), no_args(), false);
    register_builtin(reg, "terraform", "Terraform", "Infrastructure as Code", "infrastructure", "npx",
        npx_package("@modelcontextprotocol/server-terraform"), no_args(), false);
    register_builtin(reg, "pulumi", "Pulumi", "Pulumi IaC management", "infrastructure", "npx",
        npx_package("@modelcontextprotocol/server-pulumi"), no_args(), false);
    register_builtin(reg, "helm", "Helm", "Kubernetes package manager", "infrastructure", "npx",
        npx_package("@modelcontextprotocol/server-helm"), no_args(), false);
}

/// The servers `s` with the developer tool servers registered, in order.
pub open spec fn devtool_servers_added(s: Seq<ServerView>) -> Seq<ServerView> {
    let s = store_view(s, builtin_view("gitlab"@, "GitLab"@, "GitLab repos, issues, MRs"@, "vcs"@, "npx"@, npx("@modelcontextprotocol/server-gitlab"@, Seq::empty()), false));
    let s = store_view(s, builtin_view("jira"@, "Jira"@, "Jira issue tracking"@, "project"@, "npx"@, npx("@modelcontextprotocol/server-jira"@, Seq::empty()), false));
    let s = store_view(s, builtin_view("linear"@, "Linear"@, "Linear project management"@, "project"@, "npx"@, npx("@modelcontextprotocol/server-linear"@, Seq::empty()), false));
    let s = store_view(s, builtin_view("notion"@, "Notion"@, "Notion workspace integration"@, "knowledge"@, "npx"@, npx("@modelcontextprotocol/server-notion"@, Seq::empty()), false));
    let s = store_view(s, builtin_view("everhour"@, "Everhour"@, "Time tracking and project management"@, "project"@, "npx"@, npx("@modelcontextprotocol/server-everhour"@, Seq::empty()), false));
    let s = store_view(s, builtin_view("github-labeler"@, "GitHub Labeler"@, "Auto-label GitHub PRs"@, "vcs"@, "npx"@, npx("@modelcontextprotocol/server-github-labeler"@, Seq::empty()), false));
    let s = store_view(s, builtin_view("git"@, "Git"@, "Enhanced Git operations"@, "vcs"@, "npx"@, npx("@modelcontextprotocol/server-git"@, Seq::empty()), false));
    let s = store_view(s, builtin_view("search"@, "Search"@, "Global search across everything"@, "search"@, "npx"@, npx("@modelcontextprotocol/server-search"@, Seq::empty()), false));
    s
}

/// Registers the developer tool servers.
fn devtool_servers(reg: &mut MCPRegistry)
    ensures
        views_of(final(reg).servers()) == devtool_servers_added(views_of(old(reg).servers())),
        final(reg).running() == old(reg).running(),
        all_disabled(old(reg).servers()) ==> all_disabled(final(reg).servers()),
{
    register_builtin(reg, "gitlab", "GitLab", "GitLab repos, issues, MRs", "vcs", "npx",
        npx_package("@modelcontextprotocol/server-gitlab"), no_args(), false);
    register_builtin(reg, "jira", "Jira", "Jira issue tracking", "project", "npx",
        npx_package("@modelcontextprotocol/server-jira"), no_args(), false);
    register_builtin(reg, "linear", "Linear", "Linear project management", "project", "npx",
        npx_package("@modelcontextprotocol/server-linear"), no_args(), false);
    register_builtin(reg, "notion", "Notion", "Notion workspace integration", "knowledge", "npx",
        npx_package("@modelcontextprotocol/server-notion"), no_args(), false);
    register_builtin(reg, "everhour", "Everhour", "Time tracking and project management", "project", "npx",
        npx_package("@modelcontextprotocol/server-everhour"), no_args(), false);
    register_builtin(reg, "github-labeler", "GitHub Labeler", "Auto-label GitHub PRs", "vcs", "npx",
        npx_package("@modelcontextprotocol/server-github-labeler"), no_args(), false);
    register_builtin(reg, "git", "Git", "Enhanced Git operations", "vcs", "npx",
        npx_package("@modelcontextprotocol/server-git"), no_args(), false);
    register_builtin(reg, "search", "Search", "Global search across everything", "search", "npx",
        npx_package("@modelcontextprotocol/server-search"), no_args(), false);
}

/// The servers `s` with the communication servers registered, in order.
pub open spec fn comm_servers_added(s: Seq<ServerView>) -> Seq<ServerView> {
    let s = store_view(s, builtin_view("slack"@, "Slack"@, "Send messages, manage channels"@, "communication"@, "npx"@, npx("@modelcontextprotocol/server-slack"@, Seq::empty()), false));
    let s = store_view(s, builtin_view("discord"@, "Discord"@, "Discord bot operations"@, "communication"@, "npx"@, npx("@modelcontextprotocol/server-discord"@, Seq::empty()), false));
    let s = store_view(s, builtin_view("sentry"@, "Sentry"@, "Error tracking and monitoring"@, "monitoring"@, "npx"@, npx("@modelcontextprotocol/server-sentry"@, Seq::empty()), false));
    let s = store_view(s, builtin_view("email"@, "Email"@, "Send and receive emails"@, "communication"@, "npx"@, npx("@modelcontextprotocol/server-email"@, Seq::empty()), false));
    let s = store_view(s, builtin_view("twilio"@, "Twilio"@, "SMS and voice calls"@, "communication"@, "npx"@, npx("@modelcontextprotocol/server-twilio"@, Seq::empty()), false));
    let s = store_view(s, builtin_view("sendgrid"@, "SendGrid"@, "Email delivery service"@, "communication"@, "npx"@, npx("@modelcontextprotocol/server-sendgrid"@, Seq::empty()), false));
    let s = store_view(s, builtin_view("intercom"@, "Intercom"@, "Customer messaging platform"@, "communication"@, "npx"@, npx("@modelcontextprotocol/server-intercom"@, Seq::empty()), false));
    s
}

/// Registers the communication servers.
fn comm_servers(reg: &mut MCPRegistry)
    ensures
        views_of(final(reg).servers()) == comm_servers_added(views_of(old(reg).servers())),
        final(reg).running() == old(reg).running(),
        all_disabled(old(reg).servers()) ==> all_disabled(final(reg).servers()),
{
    register_builtin(reg, "slack", "Slack", "Send messages, manage channels", "communication", "npx",
        npx_package("@modelcontextprotocol/server-slack"), no_args(), false);
    register_builtin(reg, "discord", "Discord", "Discord bot operations", "communication", "npx",
        npx_package("@modelcontextprotocol/server-discord"), no_args(), false);
    register_builtin(reg, "sentry", "Sentry", "Error tracking and monitoring", "monitoring", "npx",
        npx_package("@modelcontextprotocol/server-sentry"), no_args(), false);
    register_builtin(reg, "email", "Email", "Send and receive emails", "communication", "npx",
        npx_package("@modelcontextprotocol/server-email"), no_args(), false);
    register_builtin(reg, "twilio", "Twilio", "SMS and voice calls", "communication", "npx",
        npx_package("@modelcontextprotocol/server-twilio"), no_args(), false);
    register_builtin(reg, "sendgrid", "SendGrid", "Email delivery service", "communication", "npx",
        npx_package("@modelcontextprotocol/server-sendgrid"), no_args(), false);
    register_builtin(reg, "intercom", "Intercom", "Customer messaging platform", "communication", "npx",
        npx_package("@modelcontextprotocol/server-intercom"), no_args(), false);
}

/// The servers `s` with the browser automation servers registered, in order.
pub open spec fn browser_servers_added(s: Seq<ServerView>) -> Seq<ServerView> {
    let s = store_view(s, builtin_view("puppeteer"@, "Puppeteer"@, "Headless Chrome automation"@, "browser"@, "npx"@, npx("@modelcontextprotocol/server-puppeteer"@, Seq::empty()), false));
    let s = store_view(s, builtin_view("playwright"@, "Playwright"@, "Cross-browser automation"@, "browser"@, "npx"@, npx("@modelcontextprotocol/server-playwright"@, Seq::empty()), false));
    let s = store_view(s, builtin_view("fetch"@, "Fetch"@, "HTTP requests and web scraping"@, "web"@, "npx"@, npx("@modelcontextprotocol/server-fetch"@, Seq::empty()), false));
    let s = store_view(s, builtin_view("browser-tools"@, "Browser Tools"@, "Browser debugging and inspection"@, "browser"@, "npx"@, npx("@modelcontextprotocol/server-browser-tools"@, Seq::empty()), false));
    let s = store_view(s, builtin_view("chrome-devtools"@, "Chrome DevTools"@, "Chrome DevTools protocol"@, "browser"@, "npx"@, npx("@modelcontextprotocol/server-chrome-devtools"@, Seq::empty()), false));
    s
}

/// Registers the browser automation servers.
fn browser_servers(reg: &mut MCPRegistry)
    ensures
        views_of(final(reg).servers()) == browser_servers_added(views_of(old(reg).servers())),
        final(reg).running() == old(reg).running(),
        all_disabled(old(reg).servers()) ==> all_disabled(final(reg).servers()),
{
    register_builtin(reg, "puppeteer", "Puppeteer", "Headless Chrome automation", "browser", "npx",
        npx_package("@modelcontextprotocol/server-puppeteer"), no_args(), false);
    register_builtin(reg, "playwright", "Playwright", "Cross-browser automation", "browser", "npx",
        npx_package("@modelcontextprotocol/server-playwright"), no_args(), false);
    register_builtin(reg, "fetch", "Fetch", "HTTP requests and web scraping", "web", "npx",
        npx_package("@modelcontextprotocol/server-fetch"), no_args(), false);
    register_builtin(reg, "browser-tools", "Browser Tools", "Browser debugging and inspection", "browser", "npx",
        npx_package("@modelcontextprotocol/server-browser-tools"), no_args(), false);
    register_builtin(reg, "chrome-devtools", "Chrome DevTools", "Chrome DevTools protocol", "browser", "npx",
        npx_package("@modelcontextprotocol/server-chrome-devtools"), no_args(), false);
}

/// The servers `s` with the edge platform servers registered, in order.
pub open spec fn cf_servers_added(s: Seq<ServerView>) -> Seq<ServerView> {
    let s = store_view(s, builtin_view("cloudflare-workers"@, "Cloudflare Workers"@, "Serverless edge functions"@, "edge"@, "npx"@, npx("@modelcontextprotocol/server-cloudflare-workers"@, Seq::empty()), false));
    let s = store_view(s, builtin_view("cloudflare-r2"@, "Cloudflare R2"@, "S3-compatible object storage"@, "storage"@, "npx"@, npx("@modelcontextprotocol/server-cloudflare-r2"@, Seq::empty()), false));
    let s = store_view(s, builtin_view("cloudflare-d1"@, "Cloudflare D1"@, "SQLite at the edge"@, "database"@, "npx"@, npx("@modelcontextprotocol/server-cloudflare-d1"@, Seq::empty()), false));
    let s = store_view(s, builtin_view("cloudflare-kv"@, "Cloudflare KV"@, "Global key-value storage"@, "storage"@, "npx"@, npx("@modelcontextprotocol/server-cloudflare-kv"@, Seq::empty()), false));
    s
}

/// Registers the edge platform servers.
fn cf_servers(reg: &mut MCPRegistry)
    ensures
        views_of(final(reg).servers()) == cf_servers_added(views_of(old(reg).servers())),
        final(reg).running() == old(reg).running(),
        all_disabled(old(reg).servers()) ==> all_disabled(final(reg).servers()),
{
    register_builtin(reg, "cloudflare-workers", "Cloudflare Workers", "Serverless edge functions", "edge", "npx",
        npx_package("@modelcontextprotocol/server-cloudflare-workers"), no_args(), false);
    register_builtin(reg, "cloudflare-r2", "Cloudflare R2", "S3-compatible object storage", "storage", "npx",
        npx_package("@modelcontextprotocol/server-cloudflare-r2"), no_args(), false);
    register_builtin(reg, "cloudflare-d1", "Cloudflare D1", "SQLite at the edge", "database", "npx",
        npx_package("@modelcontextprotocol/server-cloudflare-d1"), no_args(), false);
    register_builtin(reg, "cloudflare-kv", "Cloudflare KV", "Global key-value storage", "storage", "npx",
        npx_package("@modelcontextprotocol/server-cloudflare-kv"), no_args(), false);
}

/// The servers `s` with the model provider servers registered, in order.
pub open spec fn ai_servers_added(s: Seq<ServerView>) -> Seq<ServerView> {
    let s = store_view(s, builtin_view("openai-embeddings"@, "OpenAI Embeddings"@, "Generate text embeddings"@, "ai"@, "npx"@, npx("@modelcontextprotocol/server-openai"@, Seq::empty()), false));
    let s = store_view(s, builtin_view("anthropic"@, "Anthropic Models"@, "Anthropic model interactions"@, "ai"@, "npx"@, npx("@modelcontextprotocol/server-anthropic"@, Seq::empty()), false));
    let s = store_view(s, builtin_view("ollama"@, "Ollama"@, "Local LLM inference"@, "ai"@, "npx"@, npx("@modelcontextprotocol/server-ollama"@, Seq::empty()), false));
    let s = store_view(s, builtin_view("lm-studio"@, "LM Studio"@, "Local model inference"@, "ai"@, "npx"@, npx("@modelcontextprotocol/server-lm-studio"@, Seq::empty()), false));
    let s = store_view(s, builtin_view("groq"@, "Groq"@, "Fast LLM inference"@, "ai"@, "npx"@, npx("@modelcontextprotocol/server-groq"@, Seq::empty()), false));
    let s = store_view(s, builtin_view("replicate"@, "Replicate"@, "Run AI models"@, "ai"@, "npx"@, npx("@modelcontextprotocol/server-replicate"@, Seq::empty()), false));
    let s = store_view(s, builtin_view("huggingface"@, "HuggingFace"@, "HuggingFace Hub access"@, "ai"@, "npx"@, npx("@modelcontextprotocol/server-huggingface"@, Seq::empty()), false));
    let s = store_view(s, builtin_view("cohere"@, "Cohere"@, "Cohere AI platform"@, "ai"@, "npx"@, npx("@modelcontextprotocol/server-cohere"@, Seq::empty()), false));
    let s = store_view(s, builtin_view("mistral"@, "Mistral AI"@, "Mistral model access"@, "ai"@, "npx"@, npx("@modelcontextprotocol/server-mistral"@, Seq::empty()), false));
    let s = store_view(s, builtin_view("perplexity"@, "Perplexity"@, "Perplexity AI search"@, "ai"@, "npx"@, npx("@modelcontextprotocol/server-perplexity"@, Seq::empty()), false));
    s
}

/// Registers the model provider servers.
fn ai_servers(reg: &mut MCPRegistry)
    ensures
        views_of(final(reg).servers()) == ai_servers_added(views_of(old(reg).servers())),
        final(reg).running() == old(reg).running(),
        all_disabled(old(reg).servers()) ==> all_disabled(final(reg).servers()),
{
    register_builtin(reg, "openai-embeddings", "OpenAI Embeddings", "Generate text embeddings", "ai", "npx",
        npx_package("@modelcontextprotocol/server-openai"), no_args(), false);
    register_builtin(reg, "anthropic", "Anthropic Models", "Anthropic model interactions", "ai", "npx",
        npx_package("@modelcontextprotocol/server-anthropic"), no_args(), false);
    register_builtin(reg, "ollama", "Ollama", "Local LLM inference", "ai", "npx",
        npx_package("@modelcontextprotocol/server-ollama"), no_args(), false);
    register_builtin(reg, "lm-studio", "LM Studio", "Local model inference", "ai", "npx",
        npx_package("@modelcontextprotocol/server-lm-studio"), no_args(), false);
    register_builtin(reg, "groq", "Groq", "Fast LLM inference", "ai", "npx",
        npx_package("@modelcontextprotocol/server-groq"), no_args(), false);
    register_builtin(reg, "replicate", "Replicate", "Run AI models", "ai", "npx",
        npx_package("@modelcontextprotocol/server-replicate"), no_args(), false);
    register_builtin(reg, "huggingface", "HuggingFace", "HuggingFace Hub access", "ai", "npx",
        npx_package("@modelcontextprotocol/server-huggingface"), no_args(), false);
    register_builtin(reg, "cohere", "Cohere", "Cohere AI platform", "ai", "npx",
        npx_package("@modelcontextprotocol/server-cohere"), no_args(), false);
    register_builtin(reg, "mistral", "Mistral AI", "Mistral model access", "ai", "npx",
        npx_package("@modelcontextprotocol/server-mistral"), no_args(), false);
    register_builtin(reg, "perplexity", "Perplexity", "Perplexity AI search", "ai", "npx",
        npx_package("@modelcontextprotocol/server-perplexity"), no_args(), false);
}

/// The servers `s` with the productivity servers registered, in order.
pub open spec fn productivity_servers_added(s: Seq<ServerView>) -> Seq<ServerView> {
    let s = store_view(s, builtin_view("google-calendar"@, "Google Calendar"@, "Calendar management"@, "productivity"@, "npx"@, npx("@modelcontextprotocol/server-google-calendar"@, Seq::empty()), false));
    let s = store_view(s, builtin_view("google-contacts"@, "Google Contacts"@, "Contacts management"@, "productivity"@, "npx"@, npx("@modelcontextprotocol/server-google-contacts"@, Seq::empty()), false));
    let s = store_view(s, builtin_view("google-drive"@, "Google Drive"@, "Google Drive file operations"@, "storage"@, "npx"@, npx("@modelcontextprotocol/server-google-drive"@, Seq::empty()), false));
    let s = store_view(s, builtin_view("google-tasks"@, "Google Tasks"@, "Task management"@, "productivity"@, "npx"@, npx("@modelcontextprotocol/server-google-tasks"@, Seq::empty()), false));
    let s = store_view(s, builtin_view("outlook-calendar"@, "Outlook Calendar"@, "Microsoft calendar"@, "productivity"@, "npx"@, npx("@modelcontextprotocol/server-outlook-calendar"@, Seq::empty()), false));
    let s = store_view(s, builtin_view("evernote"@, "Evernote"@, "Note management"@, "knowledge"@, "npx"@, npx("@modelcontextprotocol/server-evernote"@, Seq::empty()), false));
    let s = store_view(s, builtin_view("apple-reminders"@, "Apple Reminders"@, "iCloud reminders"@, "productivity"@, "npx"@, npx("@modelcontextprotocol/server-apple-reminders"@, Seq::empty()), false));
    let s = store_view(s, builtin_view("things"@, "Things"@, "Things 3 task manager"@, "productivity"@, "npx"@, npx("@modelcontextprotocol/server-things"@, Seq::empty()), false));
    let s = store_view(s, builtin_view("obsidian"@, "Obsidian"@, "Obsidian vault access"@, "knowledge"@, "npx"@, npx("@modelcontextprotocol/server-obsidian"@, Seq::empty()), false));
    let s = store_view(s, builtin_view("roam"@, "Roam Research"@, "Roam database access"@, "knowledge"@, "npx"@, npx("@modelcontextprotocol/server-roam"@, Seq::empty()), false));
    s
}

/// Registers the productivity servers.
fn productivity_servers(reg: &mut MCPRegistry)
    ensures
        views_of(final(reg).servers()) == productivity_servers_added(views_of(old(reg).servers())),
        final(reg).running() == old(reg).running(),
        all_disabled(old(reg).servers()) ==> all_disabled(final(reg).servers()),
{
    register_builtin(reg, "google-calendar", "Google Calendar", "Calendar management", "productivity", "npx",
        npx_package("@modelcontextprotocol/server-google-calendar"), no_args(), false);
    register_builtin(reg, "google-contacts", "Google Contacts", "Contacts management", "productivity", "npx",
        npx_package("@modelcontextprotocol/server-google-contacts"), no_args(), false);
    register_builtin(reg, "google-drive", "Google Drive", "Google Drive file operations", "storage", "npx",
        npx_package("@modelcontextprotocol/server-google-drive"), no_args(), false);
    register_builtin(reg, "google-tasks", "Google Tasks", "Task management", "productivity", "npx",
        npx_package("@modelcontextprotocol/server-google-tasks"), no_args(), false);
    register_builtin(reg, "outlook-calendar", "Outlook Calendar", "Microsoft calendar", "productivity", "npx",
        npx_package("@modelcontextprotocol/server-outlook-calendar"), no_args(), false);
    register_builtin(reg, "evernote", "Evernote", "Note management", "knowledge", "npx",
        npx_package("@modelcontextprotocol/server-evernote"), no_args(), false);
    register_builtin(reg, "apple-reminders", "Apple Reminders", "iCloud reminders", "productivity", "npx",
        npx_package("@modelcontextprotocol/server-apple-reminders"), no_args(), false);
    register_builtin(reg, "things", "Things", "Things 3 task manager", "productivity", "npx",
        npx_package("@modelcontextprotocol/server-things"), no_args(), false);
    register_builtin(reg, "obsidian", "Obsidian", "Obsidian vault access", "knowledge", "npx",
        npx_package("@modelcontextprotocol/server-obsidian"), no_args(), false);
    register_builtin(reg, "roam", "Roam Research", "Roam database access", "knowledge", "npx",
        npx_package("@modelcontextprotocol/server-roam"), no_args(), false);
}

/// The servers `s` with the analytics servers registered, in order.
pub open spec fn analytics_servers_added(s: Seq<ServerView>) -> Seq<ServerView> {
    let s = store_view(s, builtin_view("datadog"@, "Datadog"@, "Monitoring and analytics"@, "monitoring"@, "npx"@, npx("@modelcontextprotocol/server-datadog"@, Seq::empty()), false));
    let s = store_view(s, builtin_view("newrelic"@, "New Relic"@, "APM and infrastructure monitoring"@, "monitoring"@, "npx"@, npx("@modelcontextprotocol/server-newrelic"@, Seq::empty()), false));
    let s = store_view(s, builtin_view("grafana"@, "Grafana"@, "Metrics dashboards"@, "monitoring"@, "npx"@, npx("@modelcontextprotocol/server-grafana"@, Seq::empty()), false));
    let s = store_view(s, builtin_view("prometheus"@, "Prometheus"@, "Time-series database"@, "monitoring"@, "npx"@, npx("@modelcontextprotocol/server-prometheus"@, Seq::empty()), false));
    let s = store_view(s, builtin_view("sentry"@, "Sentry"@, "Error tracking"@, "monitoring"@, "npx"@, npx("@modelcontextprotocol/server-sentry"@, Seq::empty()), false));
    let s = store_view(s, builtin_view("elasticsearch"@, "Elasticsearch"@, "Search and analytics engine"@, "search"@, "npx"@, npx("@modelcontextprotocol/server-elasticsearch"@, Seq::empty()), false));
    s
}

/// Registers the analytics servers.
fn analytics_servers(reg: &mut MCPRegistry)
    ensures
        views_of(final(reg).servers()) == analytics_servers_added(views_of(old(reg).servers())),
        final(reg).running() == old(reg).running(),
        all_disabled(old(reg).servers()) ==> all_disabled(final(reg).servers()),
{
    register_builtin(reg, "datadog", "Datadog", "Monitoring and analytics", "monitoring", "npx",
        npx_package("@modelcontextprotocol/server-datadog"), no_args(), false);
    register_builtin(reg, "newrelic", "New Relic", "APM and infrastructure monitoring", "monitoring", "npx",
        npx_package("@modelcontextprotocol/server-newrelic"), no_args(), false);
    register_builtin(reg, "grafana", "Grafana", "Metrics dashboards", "monitoring", "npx",
        npx_package("@modelcontextprotocol/server-grafana"), no_args(), false);
    register_builtin(reg, "prometheus", "Prometheus", "Time-series database", "monitoring", "npx",
        npx_package("@modelcontextprotocol/server-prometheus"), no_args(), false);
    register_builtin(reg, "sentry", "Sentry", "Error tracking", "monitoring", "npx",
        npx_package("@modelcontextprotocol/server-sentry"), no_args(), false);
    register_builtin(reg, "elasticsearch", "Elasticsearch", "Search and analytics engine", "search", "npx",
        npx_package("@modelcontextprotocol/server-elasticsearch"), no_args(), false);
}

/// The servers `s` with the commerce servers registered, in order.
pub open spec fn commerce_servers_added(s: Seq<ServerView>) -> Seq<ServerView> {
    let s = store_view(s, builtin_view("stripe"@, "Stripe"@, "Payment processing"@, "commerce"@, "npx"@, npx("@modelcontextprotocol/server-stripe"@, Seq::empty()), false));
    let s = store_view(s, builtin_view("shopify"@, "Shopify"@, "E-commerce platform"@, "commerce"@, "npx"@, npx("@modelcontextprotocol/server-shopify"@, Seq::empty()), false));
    let s = store_view(s, builtin_view("square"@, "Square"@, "Payments and commerce"@, "commerce"@, "npx"@, npx("@modelcontextprotocol/server-square"@, Seq::empty()), false));
    let s = store_view(s, builtin_view("paypal"@, "PayPal"@, "Payment processing"@, "commerce"@, "npx"@, npx("@modelcontextprotocol/server-paypal"@, Seq::empty()), false));
    s
}

/// Registers the commerce servers.
fn commerce_servers(reg: &mut MCPRegistry)
    ensures
        views_of(final(reg).servers()) == commerce_servers_added(views_of(old(reg).servers())),
        final(reg).running() == old(reg).running(),
        all_disabled(old(reg).servers()) ==> all_disabled(final(reg).servers()),
{
    register_builtin(reg, "stripe", "Stripe", "Payment processing", "commerce", "npx",
        npx_package("@modelcontextprotocol/server-stripe"), no_args(), false);
    register_builtin(reg, "shopify", "Shopify", "E-commerce platform", "commerce", "npx",
        npx_package("@modelcontextprotocol/server-shopify"), no_args(), false);
    register_builtin(reg, "square", "Square", "Payments and commerce", "commerce", "npx",
        npx_package("@modelcontextprotocol/server-square"), no_args(), false);
    register_builtin(reg, "paypal", "PayPal", "Payment processing", "commerce", "npx",
        npx_package("@modelcontextprotocol/server-paypal"), no_args(), false);
}

/// The servers `s` with the search servers registered, in order.
pub open spec fn search_servers_added(s: Seq<ServerView>) -> Seq<ServerView> {
    let s = store_view(s, builtin_view("brave-search"@, "Brave Search"@, "Privacy-respecting web search"@, "search"@, "npx"@, npx("@modelcontextprotocol/server-brave-search"@, Seq::empty()), false));
    let s = store_view(s, builtin_view("google-search"@, "Google Search"@, "Google search results"@, "search"@, "npx"@, npx("@modelcontextprotocol/server-google-search"@, Seq::empty()), false));
    let s = store_view(s, builtin_view("ddg"@, "DuckDuckGo"@, "DuckDuckGo search"@, "search"@, "npx"@, npx("@modelcontextprotocol/server-ddg"@, Seq::empty()), false));
    let s = store_view(s, builtin_view("arxiv"@, "ArXiv"@, "Scientific paper search"@, "search"@, "npx"@, npx("@modelcontextprotocol/server-arxiv"@, Seq::empty()), false));
    let s = store_view(s, builtin_view("pubmed"@, "PubMed"@, "Medical literature search"@, "search"@, "npx"@, npx("@modelcontextprotocol/server-pubmed"@, Seq::empty()), false));
    s
}

/// Registers the search servers.
fn search_servers(reg: &mut MCPRegistry)
    ensures
        views_of(final(reg).servers()) == search_servers_added(views_of(old(reg).servers())),
        final(reg).running() == old(reg).running(),
        all_disabled(old(reg).servers()) ==> all_disabled(final(reg).servers()),
{
    register_builtin(reg, "brave-search", "Brave Search", "Privacy-respecting web search", "search", "npx",
        npx_package("@modelcontextprotocol/server-brave-search"), no_args(), false);
    register_builtin(reg, "google-search", "Google Search", "Google search results", "search", "npx",
        npx_package("@modelcontextprotocol/server-google-search"), no_args(), false);
    register_builtin(reg, "ddg", "DuckDuckGo", "DuckDuckGo search", "search", "npx",
        npx_package("@modelcontextprotocol/server-ddg"), no_args(), false);
    register_builtin(reg, "arxiv", "ArXiv", "Scientific paper search", "search", "npx",
        npx_package("@modelcontextprotocol/server-arxiv"), no_args(), false);
    register_builtin(reg, "pubmed", "PubMed", "Medical literature search", "search", "npx",
        npx_package("@modelcontextprotocol/server-pubmed"), no_args(), false);
}

/// The servers `s` with the runtime servers registered, in order.
pub open spec fn runtime_servers_added(s: Seq<ServerView>) -> Seq<ServerView> {
    let s = store_view(s, builtin_view("nodejs"@, "Node.js"@, "JavaScript runtime operations"@, "runtime"@, "npx"@, npx("@modelcontextprotocol/server-nodejs"@, Seq::empty()), false));
    let s = store_view(s, builtin_view("python"@, "Python"@, "Python runtime operations"@, "runtime"@, "npx"@, npx("@modelcontextprotocol/server-python"@, Seq::empty()), false));
    let s = store_view(s, builtin_view("bash"@, "Bash"@, "Shell command execution"@, "runtime"@, "npx"@, npx("@modelcontextprotocol/server-bash"@, Seq::empty()), false));
    let s = store_view(s, builtin_view("docker-compose"@, "Docker Compose"@, "Multi-container apps"@, "infrastructure"@, "npx"@, npx("@modelcontextprotocol/server-docker-compose"@, Seq::empty()), false));
    let s = store_view(s, builtin_view("npm"@, "NPM"@, "Node package manager"@, "package"@, "npx"@, npx("@modelcontextprotocol/server-npm"@, Seq::empty()), false));
    let s = store_view(s, builtin_view("pip"@, "Pip"@, "Python package manager"@, "package"@, "npx"@, npx("@modelcontextprotocol/server-pip"@, Seq::empty()), false));
    s
}

/// Registers the runtime servers.
fn runtime_servers(reg: &mut MCPRegistry)
    ensures
        views_of(final(reg).servers()) == runtime_servers_added(views_of(old(reg).servers())),
        final(reg).running() == old(reg).running(),
        all_disabled(old(reg).servers()) ==> all_disabled(final(reg).servers()),
{
    register_builtin(reg, "nodejs", "Node.js", "JavaScript runtime operations", "runtime", "npx",
        npx_package("@modelcontextprotocol/server-nodejs"), no_args(), false);
    register_builtin(reg, "python", "Python", "Python runtime operations", "runtime", "npx",
        npx_package("@modelcontextprotocol/server-python"), no_args(), false);
    register_builtin(reg, "bash", "Bash", "Shell command execution", "runtime", "npx",
        npx_package("@modelcontextprotocol/server-bash"), no_args(), false);
    register_builtin(reg, "docker-compose", "Docker Compose", "Multi-container apps", "infrastructure", "npx",
        npx_package("@modelcontextprotocol/server-docker-compose"), no_args(), false);
    register_builtin(reg, "npm", "NPM", "Node package manager", "package", "npx",
        npx_package("@modelcontextprotocol/server-npm"), no_args(), false);
    register_builtin(reg, "pip", "Pip", "Python package manager", "package", "npx",
        npx_package("@modelcontextprotocol/server-pip"), no_args(), false);
}

/// The servers `s` with the planned servers (part 1) registered, in order.
pub open spec fn planned_servers_1_added(s: Seq<ServerView>) -> Seq<ServerView> {
    let s = store_view(s, builtin_view("github-actions"@, "GitHub Actions (planned)"@, "CI/CD pipeline automation"@, "planned"@, "npx"@, npx("@modelcontextprotocol/server-github-actions"@, Seq::empty()), false));
    let s = store_view(s, builtin_view("gitlab-ci"@, "GitLab CI"@, "GitLab CI/CD pipelines"@, "devops"@, "npx"@, npx("@modelcontextprotocol/server-gitlab-ci"@, Seq::empty()), false));
    let s = store_view(s, builtin_view("jenkins"@, "Jenkins"@, "Jenkins automation server"@, "devops"@, "npx"@, npx("@modelcontextprotocol/server-jenkins"@, Seq::empty()), false));
    let s = store_view(s, builtin_view("circleci"@, "CircleCI"@, "CircleCI CI/CD"@, "devops"@, "npx"@, npx("@modelcontextprotocol/server-circleci"@, Seq::empty()), false));
    let s = store_view(s, builtin_view("travis-ci"@, "Travis CI"@, "Travis CI continuous integration"@, "devops"@, "npx"@, npx("@modelcontextprotocol/server-travis-ci"@, Seq::empty()), false));
    let s = store_view(s, builtin_view("bitbucket-pipelines"@, "Bitbucket Pipelines"@, "Atlassian CI/CD"@, "devops"@, "npx"@, npx("@modelcontextprotocol/server-bitbucket-pipelines"@, Seq::empty()), false));
    let s = store_view(s, builtin_view("aws-codebuild"@, "AWS CodeBuild"@, "AWS managed build service"@, "devops"@, "npx"@, npx("@modelcontextprotocol/server-aws-codebuild"@, Seq::empty()), false));
    let s = store_view(s, builtin_view("azure-devops"@, "Azure DevOps"@, "Microsoft CI/CD platform"@, "devops"@, "npx"@, npx("@modelcontextprotocol/server-azure-devops"@, Seq::empty()), false));
    let s = store_view(s, builtin_view("argo-cd"@, "Argo CD"@, "GitOps continuous delivery"@, "devops"@, "npx"@, npx("@modelcontextprotocol/server-argo-cd"@, Seq::empty()), false));
    let s = store_view(s, builtin_view("flux"@, "Flux"@, "GitOps for Kubernetes"@, "devops"@, "npx"@, npx("@modelcontextprotocol/server-flux"@, Seq::empty()), false));
    let s = store_view(s, builtin_view("tekton"@, "Tekton"@, "CI/CD Kubernetes native"@, "devops"@, "npx"@, npx("@modelcontextprotocol/server-tekton"@, Seq::empty()), false));
    let s = store_view(s, builtin_view("spinnaker"@, "Spinnaker"@, "Continuous delivery platform"@, "devops"@, "npx"@, npx("@modelcontextprotocol/server-spinnaker"@, Seq::empty()), false));
    let s = store_view(s, builtin_view("snyk"@, "Snyk"@, "Vulnerability scanning"@, "security"@, "npx"@, npx("@modelcontextprotocol/server-snyk"@, Seq::empty()), false));
    let s = store_view(s, builtin_view("aqua"@, "Aqua Security"@, "Container security"@, "security"@, "npx"@, npx("@modelcontextprotocol/server-aqua"@, Seq::empty()), false));
    let s = store_view(s, builtin_view("trivy"@, "Trivy"@, "Vulnerability scanner"@, "security"@, "npx"@, npx("@modelcontextprotocol/server-trivy"@, Seq::empty()), false));
    let s = store_view(s, builtin_view("checkov"@, "Checkov"@, "IaC security scanning"@, "security"@, "npx"@, npx("@modelcontextprotocol/server-checkov"@, Seq::empty()), false));
    let s = store_view(s, builtin_view("tfsec"@, "TfSec"@, "Terraform security"@, "security"@, "npx"@, npx("@modelcontextprotocol/server-tfsec"@, Seq::empty()), false));
    let s = store_view(s, builtin_view("bandit"@, "Bandit"@, "Python security linter"@, "security"@, "npx"@, npx("@modelcontextprotocol/server-bandit"@, Seq::empty()), false));
    let s = store_view(s, builtin_view("sonarqube"@, "SonarQube"@, "Code quality & security"@, "security"@, "npx"@, npx("@modelcontextprotocol/server-sonarqube"@, Seq::empty()), false));
    let s = store_view(s, builtin_view("owasp-zap"@, "OWASP ZAP"@, "Web app security testing"@, "security"@, "npx"@, npx("@modelcontextprotocol/server-owasp-zap"@, Seq::empty()), false));
    let s = store_view(s, builtin_view("metasploit"@, "Metasploit"@, "Penetration testing"@, "security"@, "npx"@, npx("@modelcontextprotocol/server-metasploit"@, Seq::empty()), false));
    let s = store_view(s, builtin_view("fail2ban"@, "Fail2Ban"@, "Intrusion prevention"@, "security"@, "npx"@, npx("@modelcontextprotocol/server-fail2ban"@, Seq::empty()), false));
    let s = store_view(s, builtin_view("vault"@, "Vault"@, "Secrets management"@, "security"@, "npx"@, npx("@modelcontextprotocol/server-vault"@, Seq::empty()), false));
    let s = store_view(s, builtin_view("keycloak"@, "Keycloak"@, "Identity management"@, "security"@, "npx"@, npx("@modelcontextprotocol/server-keycloak"@, Seq::empty()), false));
    let s = store_view(s, builtin_view("auth0"@, "Auth0"@, "Authentication as a service"@, "security"@, "npx"@, npx("@modelcontextprotocol/server-auth0"@, Seq::empty()), false));
    let s = store_view(s, builtin_view("okta"@, "Okta"@, "Identity cloud"@, "security"@, "npx"@, npx("@modelcontextprotocol/server-okta"@, Seq::empty()), false));
    let s = store_view(s, builtin_view("cloudflare-waf"@, "Cloudflare WAF"@, "Web application firewall"@, "security"@, "npx"@, npx("@modelcontextprotocol/server-cloudflare-waf"@, Seq::empty()), false));
    let s = store_view(s, builtin_view("rabbitmq"@, "RabbitMQ"@, "Message broker"@, "messaging"@, "npx"@, npx("@modelcontextprotocol/server-rabbitmq"@, Seq::empty()), false));
    let s = store_view(s, builtin_view("kafka"@, "Kafka"@, "Distributed messaging"@, "messaging"@, "npx"@, npx("@modelcontextprotocol/server-kafka"@, Seq::empty()), false));
    let s = store_view(s, builtin_view("pulsar"@, "Pulsar"@, "Distributed messaging"@, "messaging"@, "npx"@, npx("@modelcontextprotocol/server-pulsar"@, Seq::empty()), false));
    let s = store_view(s, builtin_view("nats"@, "NATS"@, "Lightweight messaging"@, "messaging"@, "npx"@, npx("@modelcontextprotocol/server-nats"@, Seq::empty()), false));
    let s = store_view(s, builtin_view("redis-queue"@, "Redis Queue"@, "Task queue"@, "messaging"@, "npx"@, npx("@modelcontextprotocol/server-redis-queue"@, Seq::empty()), false));
    let s = store_view(s, builtin_view("activemq"@, "ActiveMQ"@, "Message broker"@, "messaging"@, "npx"@, npx("@modelcontextprotocol/server-activemq"@, Seq::empty()), false));
    let s = store_view(s, builtin_view("zeromq"@, "ZeroMQ"@, "Messaging library"@, "messaging"@, "npx"@, npx("@modelcontextprotocol/server-zeromq"@, Seq::empty()), false));
    let s = store_view(s, builtin_view("event-grid"@, "Event Grid"@, "Azure event routing"@, "messaging"@, "npx"@, npx("@modelcontextprotocol/server-event-grid"@, Seq::empty()), false));
    let s = store_view(s, builtin_view("cloud-events"@, "Cloud Events"@, "CloudEvents protocol"@, "messaging"@, "npx"@, npx("@modelcontextprotocol/server-cloud-events"@, Seq::empty()), false));
    let s = store_view(s, builtin_view("event-bridge"@, "Event Bridge"@, "AWS event bus"@, "messaging"@, "npx"@, npx("@modelcontextprotocol/server-event-bridge"@, Seq::empty()), false));
    let s = store_view(s, builtin_view("elk"@, "ELK Stack"@, "Elasticsearch Logstash Kibana"@, "logging"@, "npx"@, npx("@modelcontextprotocol/server-elk"@, Seq::empty()), false));
    let s = store_view(s, builtin_view("loki"@, "Loki"@, "Log aggregation"@, "logging"@, "npx"@, npx("@modelcontextprotocol/server-loki"@, Seq::empty()), false));
    let s = store_view(s, builtin_view("fluentd"@, "Fluentd"@, "Log collector"@, "logging"@, "npx"@, npx("@modelcontextprotocol/server-fluentd"@, Seq::empty()), false));
    s
}

/// Registers the planned servers (part 1).
fn planned_servers_1(reg: &mut MCPRegistry)
    ensures
        views_of(final(reg).servers()) == planned_servers_1_added(views_of(old(reg).servers())),
        final(reg).running() == old(reg).running(),
        all_disabled(old(reg).servers()) ==> all_disabled(final(reg).servers()),
{
    register_builtin(reg, "github-actions", "GitHub Actions (planned)", "CI/CD pipeline automation", "planned", "npx",
        npx_package("@modelcontextprotocol/server-github-actions"), no_args(), false);
    register_builtin(reg, "gitlab-ci", "GitLab CI", "GitLab CI/CD pipelines", "devops", "npx",
        npx_package("@modelcontextprotocol/server-gitlab-ci"), no_args(), false);
    register_builtin(reg, "jenkins", "Jenkins", "Jenkins automation server", "devops", "npx",
        npx_package("@modelcontextprotocol/server-jenkins"), no_args(), false);
    register_builtin(reg, "circleci", "CircleCI", "CircleCI CI/CD", "devops", "npx",
        npx_package("@modelcontextprotocol/server-circleci"), no_args(), false);
    register_builtin(reg, "travis-ci", "Travis CI", "Travis CI continuous integration", "devops", "npx",
        npx_package("@modelcontextprotocol/server-travis-ci"), no_args(), false);
    register_builtin(reg, "bitbucket-pipelines", "Bitbucket Pipelines", "Atlassian CI/CD", "devops", "npx",
        npx_package("@modelcontextprotocol/server-bitbucket-pipelines"), no_args(), false);
    register_builtin(reg, "aws-codebuild", "AWS CodeBuild", "AWS managed build service", "devops", "npx",
        npx_package("@modelcontextprotocol/server-aws-codebuild"), no_args(), false);
    register_builtin(reg, "azure-devops", "Azure DevOps", "Microsoft CI/CD platform", "devops", "npx",
        npx_package("@modelcontextprotocol/server-azure-devops"), no_args(), false);
    register_builtin(reg, "argo-cd", "Argo CD", "GitOps continuous delivery", "devops", "npx",
        npx_package("@modelcontextprotocol/server-argo-cd"), no_args(), false);
    register_builtin(reg, "flux", "Flux", "GitOps for Kubernetes", "devops", "npx",
        npx_package("@modelcontextprotocol/server-flux"), no_args(), false);
    register_builtin(reg, "tekton", "Tekton", "CI/CD Kubernetes native", "devops", "npx",
        npx_package("@modelcontextprotocol/server-tekton"), no_args(), false);
    register_builtin(reg, "spinnaker", "Spinnaker", "Continuous delivery platform", "devops", "npx",
        npx_package("@modelcontextprotocol/server-spinnaker"), no_args(), false);
    register_builtin(reg, "snyk", "Snyk", "Vulnerability scanning", "security", "npx",
        npx_package("@modelcontextprotocol/server-snyk"), no_args(), false);
    register_builtin(reg, "aqua", "Aqua Security", "Container security", "security", "npx",
        npx_package("@modelcontextprotocol/server-aqua"), no_args(), false);
    register_builtin(reg, "trivy", "Trivy", "Vulnerability scanner", "security", "npx",
        npx_package("@modelcontextprotocol/server-trivy"), no_args(), false);
    register_builtin(reg, "checkov", "Checkov", "IaC security scanning", "security", "npx",
        npx_package("@modelcontextprotocol/server-checkov"), no_args(), false);
    register_builtin(reg, "tfsec", "TfSec", "Terraform security", "security", "npx",
        npx_package("@modelcontextprotocol/server-tfsec"), no_args(), false);
    register_builtin(reg, "bandit", "Bandit", "Python security linter", "security", "npx",
        npx_package("@modelcontextprotocol/server-bandit"), no_args(), false);
    register_builtin(reg, "sonarqube", "SonarQube", "Code quality & security", "security", "npx",
        npx_package("@modelcontextprotocol/server-sonarqube"), no_args(), false);
    register_builtin(reg, "owasp-zap", "OWASP ZAP", "Web app security testing", "security", "npx",
        npx_package("@modelcontextprotocol/server-owasp-zap"), no_args(), false);
    register_builtin(reg, "metasploit", "Metasploit", "Penetration testing", "security", "npx",
        npx_package("@modelcontextprotocol/server-metasploit"), no_args(), false);
    register_builtin(reg, "fail2ban", "Fail2Ban", "Intrusion prevention", "security", "npx",
        npx_package("@modelcontextprotocol/server-fail2ban"), no_args(), false);
    register_builtin(reg, "vault", "Vault", "Secrets management", "security", "npx",
        npx_package("@modelcontextprotocol/server-vault"), no_args(), false);
    register_builtin(reg, "keycloak", "Keycloak", "Identity management", "security", "npx",
        npx_package("@modelcontextprotocol/server-keycloak"), no_args(), false);
    register_builtin(reg, "auth0", "Auth0", "Authentication as a service", "security", "npx",
        npx_package("@modelcontextprotocol/server-auth0"), no_args(), false);
    register_builtin(reg, "okta", "Okta", "Identity cloud", "security", "npx",
        npx_package("@modelcontextprotocol/server-okta"), no_args(), false);
    register_builtin(reg, "cloudflare-waf", "Cloudflare WAF", "Web application firewall", "security", "npx",
        npx_package("@modelcontextprotocol/server-cloudflare-waf"), no_args(), false);
    register_builtin(reg, "rabbitmq", "RabbitMQ", "Message broker", "messaging", "npx",
        npx_package("@modelcontextprotocol/server-rabbitmq"), no_args(), false);
    register_builtin(reg, "kafka", "Kafka", "Distributed messaging", "messaging", "npx",
        npx_package("@modelcontextprotocol/server-kafka"), no_args(), false);
    register_builtin(reg, "pulsar", "Pulsar", "Distributed messaging", "messaging", "npx",
        npx_package("@modelcontextprotocol/server-pulsar"), no_args(), false);
    register_builtin(reg, "nats", "NATS", "Lightweight messaging", "messaging", "npx",
        npx_package("@modelcontextprotocol/server-nats"), no_args(), false);
    register_builtin(reg, "redis-queue", "Redis Queue", "Task queue", "messaging", "npx",
        npx_package("@modelcontextprotocol/server-redis-queue"), no_args(), false);
    register_builtin(reg, "activemq", "ActiveMQ", "Message broker", "messaging", "npx",
        npx_package("@modelcontextprotocol/server-activemq"), no_args(), false);
    register_builtin(reg, "zeromq", "ZeroMQ", "Messaging library", "messaging", "npx",
        npx_package("@modelcontextprotocol/server-zeromq"), no_args(), false);
    register_builtin(reg, "event-grid", "Event Grid", "Azure event routing", "messaging", "npx",
        npx_package("@modelcontextprotocol/server-event-grid"), no_args(), false);
    register_builtin(reg, "cloud-events", "Cloud Events", "CloudEvents protocol", "messaging", "npx",
        npx_package("@modelcontextprotocol/server-cloud-events"), no_args(), false);
    register_builtin(reg, "event-bridge", "Event Bridge", "AWS event bus", "messaging", "npx",
        npx_package("@modelcontextprotocol/server-event-bridge"), no_args(), false);
    register_builtin(reg, "elk", "ELK Stack", "Elasticsearch Logstash Kibana", "logging", "npx",
        npx_package("@modelcontextprotocol/server-elk"), no_args(), false);
    register_builtin(reg, "loki", "Loki", "Log aggregation", "logging", "npx",
        npx_package("@modelcontextprotocol/server-loki"), no_args(), false);
    register_builtin(reg, "fluentd", "Fluentd", "Log collector", "logging", "npx",
        npx_package("@modelcontextprotocol/server-fluentd"), no_args(), false);
}

/// The servers `s` with the planned servers (part 2) registered, in order.
pub open spec fn planned_servers_2_added(s: Seq<ServerView>) -> Seq<ServerView> {
    let s = store_view(s, builtin_view("fluent-bit"@, "Fluent Bit"@, "Log processor"@, "logging"@, "npx"@, npx("@modelcontextprotocol/server-fluent-bit"@, Seq::empty()), false));
    let s = store_view(s, builtin_view("splunk"@, "Splunk"@, "Log analytics"@, "logging"@, "npx"@, npx("@modelcontextprotocol/server-splunk"@, Seq::empty()), false));
    let s = store_view(s, builtin_view("sumologic"@, "Sumo Logic"@, "Cloud logging"@, "logging"@, "npx"@, npx("@modelcontextprotocol/server-sumologic"@, Seq::empty()), false));
    let s = store_view(s, builtin_view("papertrail"@, "Papertrail"@, "Cloud log management"@, "logging"@, "npx"@, npx("@modelcontextprotocol/server-papertrail"@, Seq::empty()), false));
    let s = store_view(s, builtin_view("loggly"@, "Loggly"@, "Cloud logging"@, "logging"@, "npx"@, npx("@modelcontextprotocol/server-loggly"@, Seq::empty()), false));
    let s = store_view(s, builtin_view("chronicle"@, "Chronicle"@, "SIEM platform"@, "logging"@, "npx"@, npx("@modelcontextprotocol/server-chronicle"@, Seq::empty()), false));
    let s = store_view(s, builtin_view("jest"@, "Jest"@, "JavaScript testing"@, "testing"@, "npx"@, npx("@modelcontextprotocol/server-jest"@, Seq::empty()), false));
    let s = store_view(s, builtin_view("pytest"@, "Pytest"@, "Python testing"@, "testing"@, "npx"@, npx("@modelcontextprotocol/server-pytest"@, Seq::empty()), false));
    let s = store_view(s, builtin_view("playwright"@, "Playwright"@, "E2E testing"@, "testing"@, "npx"@, npx("@modelcontextprotocol/server-playwright"@, Seq::empty()), false));
    let s = store_view(s, builtin_view("cypress"@, "Cypress"@, "JavaScript E2E testing"@, "testing"@, "npx"@, npx("@modelcontextprotocol/server-cypress"@, Seq::empty()), false));
    let s = store_view(s, builtin_view("selenium"@, "Selenium"@, "Browser automation"@, "testing"@, "npx"@, npx("@modelcontextprotocol/server-selenium"@, Seq::empty()), false));
    let s = store_view(s, builtin_view("puppeteer"@, "Puppeteer"@, "Chrome automation"@, "testing"@, "npx"@, npx("@modelcontextprotocol/server-puppeteer"@, Seq::empty()), false));
    let s = store_view(s, builtin_view("testng"@, "TestNG"@, "Java testing"@, "testing"@, "npx"@, npx("@modelcontextprotocol/server-testng"@, Seq::empty()), false));
    let s = store_view(s, builtin_view("junit"@, "JUnit"@, "Java unit testing"@, "testing"@, "npx"@, npx("@modelcontextprotocol/server-junit"@, Seq::empty()), false));
    let s = store_view(s, builtin_view("cucumber"@, "Cucumber"@, "BDD testing"@, "testing"@, "npx"@, npx("@modelcontextprotocol/server-cucumber"@, Seq::empty()), false));
    let s = store_view(s, builtin_view("postman"@, "Postman"@, "API testing"@, "testing"@, "npx"@, npx("@modelcontextprotocol/server-postman"@, Seq::empty()), false));
    let s = store_view(s, builtin_view("insomnia"@, "Insomnia"@, "REST client"@, "testing"@, "npx"@, npx("@modelcontextprotocol/server-insomnia"@, Seq::empty()), false));
    let s = store_view(s, builtin_view("k6"@, "K6"@, "Load testing"@, "testing"@, "npx"@, npx("@modelcontextprotocol/server-k6"@, Seq::empty()), false));
    let s = store_view(s, builtin_view("locust"@, "Locust"@, "Python load testing"@, "testing"@, "npx"@, npx("@modelcontextprotocol/server-locust"@, Seq::empty()), false));
    let s = store_view(s, builtin_view("gatling"@, "Gatling"@, "Load testing"@, "testing"@, "npx"@, npx("@modelcontextprotocol/server-gatling"@, Seq::empty()), false));
    let s = store_view(s, builtin_view("jmeter"@, "JMeter"@, "Apache load testing"@, "testing"@, "npx"@, npx("@modelcontextprotocol/server-jmeter"@, Seq::empty()), false));
    let s = store_view(s, builtin_view("mockoon"@, "Mockoon"@, "API mocking"@, "testing"@, "npx"@, npx("@modelcontextprotocol/server-mockoon"@, Seq::empty()), false));
    let s = store_view(s, builtin_view("wiremock"@, "WireMock"@, "Mock HTTP"@, "testing"@, "npx"@, npx("@modelcontextprotocol/server-wiremock"@, Seq::empty()), false));
    let s = store_view(s, builtin_view("eslint"@, "ESLint"@, "JavaScript linting"@, "quality"@, "npx"@, npx("@modelcontextprotocol/server-eslint"@, Seq::empty()), false));
    let s = store_view(s, builtin_view("prettier"@, "Prettier"@, "Code formatting"@, "quality"@, "npx"@, npx("@modelcontextprotocol/server-prettier"@, Seq::empty()), false));
    let s = store_view(s, builtin_view("black"@, "Black"@, "Python formatter"@, "quality"@, "npx"@, npx("@modelcontextprotocol/server-black"@, Seq::empty()), false));
    let s = store_view(s, builtin_view("rustfmt"@, "Rustfmt"@, "Rust formatter"@, "quality"@, "npx"@, npx("@modelcontextprotocol/server-rustfmt"@, Seq::empty()), false));
    let s = store_view(s, builtin_view("gofmt"@, "GoFmt"@, "Go formatter"@, "quality"@, "npx"@, npx("@modelcontextprotocol/server-gofmt"@, Seq::empty()), false));
    let s = store_view(s, builtin_view("clang-format"@, "ClangFormat"@, "C/C++ formatter"@, "quality"@, "npx"@, npx("@modelcontextprotocol/server-clang-format"@, Seq::empty()), false));
    let s = store_view(s, builtin_view("stylelint"@, "Stylelint"@, "CSS linting"@, "quality"@, "npx"@, npx("@modelcontextprotocol/server-stylelint"@, Seq::empty()), false));
    let s = store_view(s, builtin_view("pylint"@, "Pylint"@, "Python linting"@, "quality"@, "npx"@, npx("@modelcontextprotocol/server-pylint"@, Seq::empty()), false));
    let s = store_view(s, builtin_view("flake8"@, "Flake8"@, "Python linting"@, "quality"@, "npx"@, npx("@modelcontextprotocol/server-flake8"@, Seq::empty()), false));
    let s = store_view(s, builtin_view("mypy"@, "Mypy"@, "Python type checking"@, "quality"@, "npx"@, npx("@modelcontextprotocol/server-mypy"@, Seq::empty()), false));
    let s = store_view(s, builtin_view("cargo-clippy"@, "Cargo Clippy"@, "Rust linting"@, "quality"@, "npx"@, npx("@modelcontextprotocol/server-cargo-clippy"@, Seq::empty()), false));
    let s = store_view(s, builtin_view("golangci-lint"@, "GolangCI Lint"@, "Go linting"@, "quality"@, "npx"@, npx("@modelcontextprotocol/server-golangci-lint"@, Seq::empty()), false));
    let s = store_view(s, builtin_view("shellcheck"@, "ShellCheck"@, "Shell script linting"@, "quality"@, "npx"@, npx("@modelcontextprotocol/server-shellcheck"@, Seq::empty()), false));
    let s = store_view(s, builtin_view("npm"@, "NPM"@, "Node package manager"@, "package"@, "npx"@, npx("@modelcontextprotocol/server-npm"@, Seq::empty()), false));
    let s = store_view(s, builtin_view("yarn"@, "Yarn"@, "JavaScript package manager"@, "package"@, "npx"@, npx("@modelcontextprotocol/server-yarn"@, Seq::empty()), false));
    let s = store_view(s, builtin_view("pnpm"@, "PNPM"@, "Fast npm alternative"@, "package"@, "npx"@, npx("@modelcontextprotocol/server-pnpm"@, Seq::empty()), false));
    let s = store_view(s, builtin_view("pip"@, "Pip"@, "Python package manager"@, "package"@, "npx"@, npx("@modelcontextprotocol/server-pip"@, Seq::empty()), false));
    s
}

/// Registers the planned servers (part 2).
fn planned_servers_2(reg: &mut MCPRegistry)
    ensures
        views_of(final(reg).servers()) == planned_servers_2_added(views_of(old(reg).servers())),
        final(reg).running() == old(reg).running(),
        all_disabled(old(reg).servers()) ==> all_disabled(final(reg).servers()),
{
    register_builtin(reg, "fluent-bit", "Fluent Bit", "Log processor", "logging", "npx",
        npx_package("@modelcontextprotocol/server-fluent-bit"), no_args(), false);
    register_builtin(reg, "splunk", "Splunk", "Log analytics", "logging", "npx",
        npx_package("@modelcontextprotocol/server-splunk"), no_args(), false);
    register_builtin(reg, "sumologic", "Sumo Logic", "Cloud logging", "logging", "npx",
        npx_package("@modelcontextprotocol/server-sumologic"), no_args(), false);
    register_builtin(reg, "papertrail", "Papertrail", "Cloud log management", "logging", "npx",
        npx_package("@modelcontextprotocol/server-papertrail"), no_args(), false);
    register_builtin(reg, "loggly", "Loggly", "Cloud logging", "logging", "npx",
        npx_package("@modelcontextprotocol/server-loggly"), no_args(), false);
    register_builtin(reg, "chronicle", "Chronicle", "SIEM platform", "logging", "npx",
        npx_package("@modelcontextprotocol/server-chronicle"), no_args(), false);
    register_builtin(reg, "jest", "Jest", "JavaScript testing", "testing", "npx",
        npx_package("@modelcontextprotocol/server-jest"), no_args(), false);
    register_builtin(reg, "pytest", "Pytest", "Python testing", "testing", "npx",
        npx_package("@modelcontextprotocol/server-pytest"), no_args(), false);
    register_builtin(reg, "playwright", "Playwright", "E2E testing", "testing", "npx",
        npx_package("@modelcontextprotocol/server-playwright"), no_args(), false);
    register_builtin(reg, "cypress", "Cypress", "JavaScript E2E testing", "testing", "npx",
        npx_package("@modelcontextprotocol/server-cypress"), no_args(), false);
    register_builtin(reg, "selenium", "Selenium", "Browser automation", "testing", "npx",
        npx_package("@modelcontextprotocol/server-selenium"), no_args(), false);
    register_builtin(reg, "puppeteer", "Puppeteer", "Chrome automation", "testing", "npx",
        npx_package("@modelcontextprotocol/server-puppeteer"), no_args(), false);
    register_builtin(reg, "testng", "TestNG", "Java testing", "testing", "npx",
        npx_package("@modelcontextprotocol/server-testng"), no_args(), false);
    register_builtin(reg, "junit", "JUnit", "Java unit testing", "testing", "npx",
        npx_package("@modelcontextprotocol/server-junit"), no_args(), false);
    register_builtin(reg, "cucumber", "Cucumber", "BDD testing", "testing", "npx",
        npx_package("@modelcontextprotocol/server-cucumber"), no_args(), false);
    register_builtin(reg, "postman", "Postman", "API testing", "testing", "npx",
        npx_package("@modelcontextprotocol/server-postman"), no_args(), false);
    register_builtin(reg, "insomnia", "Insomnia", "REST client", "testing", "npx",
        npx_package("@modelcontextprotocol/server-insomnia"), no_args(), false);
    register_builtin(reg, "k6", "K6", "Load testing", "testing", "npx",
        npx_package("@modelcontextprotocol/server-k6"), no_args(), false);
    register_builtin(reg, "locust", "Locust", "Python load testing", "testing", "npx",
        npx_package("@modelcontextprotocol/server-locust"), no_args(), false);
    register_builtin(reg, "gatling", "Gatling", "Load testing", "testing", "npx",
        npx_package("@modelcontextprotocol/server-gatling"), no_args(), false);
    register_builtin(reg, "jmeter", "JMeter", "Apache load testing", "testing", "npx",
        npx_package("@modelcontextprotocol/server-jmeter"), no_args(), false);
    register_builtin(reg, "mockoon", "Mockoon", "API mocking", "testing", "npx",
        npx_package("@modelcontextprotocol/server-mockoon"), no_args(), false);
    register_builtin(reg, "wiremock", "WireMock", "Mock HTTP", "testing", "npx",
        npx_package("@modelcontextprotocol/server-wiremock"), no_args(), false);
    register_builtin(reg, "eslint", "ESLint", "JavaScript linting", "quality", "npx",
        npx_package("@modelcontextprotocol/server-eslint"), no_args(), false);
    register_builtin(reg, "prettier", "Prettier", "Code formatting", "quality", "npx",
        npx_package("@modelcontextprotocol/server-prettier"), no_args(), false);
    register_builtin(reg, "black", "Black", "Python formatter", "quality", "npx",
        npx_package("@modelcontextprotocol/server-black"), no_args(), false);
    register_builtin(reg, "rustfmt", "Rustfmt", "Rust formatter", "quality", "npx",
        npx_package("@modelcontextprotocol/server-rustfmt"), no_args(), false);
    register_builtin(reg, "gofmt", "GoFmt", "Go formatter", "quality", "npx",
        npx_package("@modelcontextprotocol/server-gofmt"), no_args(), false);
    register_builtin(reg, "clang-format", "ClangFormat", "C/C++ formatter", "quality", "npx",
        npx_package("@modelcontextprotocol/server-clang-format"), no_args(), false);
    register_builtin(reg, "stylelint", "Stylelint", "CSS linting", "quality", "npx",
        npx_package("@modelcontextprotocol/server-stylelint"), no_args(), false);
    register_builtin(reg, "pylint", "Pylint", "Python linting", "quality", "npx",
        npx_package("@modelcontextprotocol/server-pylint"), no_args(), false);
    register_builtin(reg, "flake8", "Flake8", "Python linting", "quality", "npx",
        npx_package("@modelcontextprotocol/server-flake8"), no_args(), false);
    register_builtin(reg, "mypy", "Mypy", "Python type checking", "quality", "npx",
        npx_package("@modelcontextprotocol/server-mypy"), no_args(), false);
    register_builtin(reg, "cargo-clippy", "Cargo Clippy", "Rust linting", "quality", "npx",
        npx_package("@modelcontextprotocol/server-cargo-clippy"), no_args(), false);
    register_builtin(reg, "golangci-lint", "GolangCI Lint", "Go linting", "quality", "npx",
        npx_package("@modelcontextprotocol/server-golangci-lint"), no_args(), false);
    register_builtin(reg, "shellcheck", "ShellCheck", "Shell script linting", "quality", "npx",
        npx_package("@modelcontextprotocol/server-shellcheck"), no_args(), false);
    register_builtin(reg, "npm", "NPM", "Node package manager", "package", "npx",
        npx_package("@modelcontextprotocol/server-npm"), no_args(), false);
    register_builtin(reg, "yarn", "Yarn", "JavaScript package manager", "package", "npx",
        npx_package("@modelcontextprotocol/server-yarn"), no_args(), false);
    register_builtin(reg, "pnpm", "PNPM", "Fast npm alternative", "package", "npx",
        npx_package("@modelcontextprotocol/server-pnpm"), no_args(), false);
    register_builtin(reg, "pip", "Pip", "Python package manager", "package", "npx",
        npx_package("@modelcontextprotocol/server-pip"), no_args(), false);
}

/// The servers `s` with the planned servers (part 3) registered, in order.
pub open spec fn planned_servers_3_added(s: Seq<ServerView>) -> Seq<ServerView> {
    let s = store_view(s, builtin_view("poetry"@, "Poetry"@, "Python dependency management"@, "package"@, "npx"@, npx("@modelcontextprotocol/server-poetry"@, Seq::empty()), false));
    let s = store_view(s, builtin_view("pipenv"@, "Pipenv"@, "Python dev workflow"@, "package"@, "npx"@, npx("@modelcontextprotocol/server-pipenv"@, Seq::empty()), false));
    let s = store_view(s, builtin_view("conda"@, "Conda"@, "Package manager"@, "package"@, "npx"@, npx("@modelcontextprotocol/server-conda"@, Seq::empty()), false));
    let s = store_view(s, builtin_view("cargo"@, "Cargo"@, "Rust package manager"@, "package"@, "npx"@, npx("@modelcontextprotocol/server-cargo"@, Seq::empty()), false));
    let s = store_view(s, builtin_view("go-modules"@, "Go Modules"@, "Go dependency management"@, "package"@, "npx"@, npx("@modelcontextprotocol/server-go-modules"@, Seq::empty()), false));
    let s = store_view(s, builtin_view("composer"@, "Composer"@, "PHP package manager"@, "package"@, "npx"@, npx("@modelcontextprotocol/server-composer"@, Seq::empty()), false));
    let s = store_view(s, builtin_view("nuget"@, "NuGet"@, ".NET package manager"@, "package"@, "npx"@, npx("@modelcontextprotocol/server-nuget"@, Seq::empty()), false));
    let s = store_view(s, builtin_view("maven"@, "Maven"@, "Java build tool"@, "package"@, "npx"@, npx("@modelcontextprotocol/server-maven"@, Seq::empty()), false));
    let s = store_view(s, builtin_view("gradle"@, "Gradle"@, "Build automation"@, "package"@, "npx"@, npx("@modelcontextprotocol/server-gradle"@, Seq::empty()), false));
    let s = store_view(s, builtin_view("bazel"@, "Bazel"@, "Build system"@, "package"@, "npx"@, npx("@modelcontextprotocol/server-bazel"@, Seq::empty()), false));
    let s = store_view(s, builtin_view("buck"@, "Buck"@, "Build system"@, "package"@, "npx"@, npx("@modelcontextprotocol/server-buck"@, Seq::empty()), false));
    let s = store_view(s, builtin_view("pnpm"@, "PNPM"@, "Package manager"@, "package"@, "npx"@, npx("@modelcontextprotocol/server-pnpm"@, Seq::empty()), false));
    let s = store_view(s, builtin_view("docker-swarm"@, "Docker Swarm"@, "Container orchestration"@, "container"@, "npx"@, npx("@modelcontextprotocol/server-docker-swarm"@, Seq::empty()), false));
    let s = store_view(s, builtin_view("kubernetes"@, "Kubernetes"@, "K8s orchestration"@, "container"@, "npx"@, npx("@modelcontextprotocol/server-kubernetes"@, Seq::empty()), false));
    let s = store_view(s, builtin_view("helm"@, "Helm"@, "K8s package manager"@, "container"@, "npx"@, npx("@modelcontextprotocol/server-helm"@, Seq::empty()), false));
    let s = store_view(s, builtin_view("kustomize"@, "Kustomize"@, "K8s configuration"@, "container"@, "npx"@, npx("@modelcontextprotocol/server-kustomize"@, Seq::empty()), false));
    let s = store_view(s, builtin_view("skaffold"@, "Skaffold"@, "K8s development"@, "container"@, "npx"@, npx("@modelcontextprotocol/server-skaffold"@, Seq::empty()), false));
    let s = store_view(s, builtin_view("tilt"@, "Tilt"@, "K8s dev environment"@, "container"@, "npx"@, npx("@modelcontextprotocol/server-tilt"@, Seq::empty()), false));
    let s = store_view(s, builtin_view("kompose"@, "Kompose"@, "Docker-compose to K8s"@, "container"@, "npx"@, npx("@modelcontextprotocol/server-kompose"@, Seq::empty()), false));
    let s = store_view(s, builtin_view("kind"@, "Kind"@, "K8s in Docker"@, "container"@, "npx"@, npx("@modelcontextprotocol/server-kind"@, Seq::empty()), false));
    let s = store_view(s, builtin_view("minikube"@, "Minikube"@, "Local K8s"@, "container"@, "npx"@, npx("@modelcontextprotocol/server-minikube"@, Seq::empty()), false));
    let s = store_view(s, builtin_view("k3s"@, "K3s"@, "Lightweight K8s"@, "container"@, "npx"@, npx("@modelcontextprotocol/server-k3s"@, Seq::empty()), false));
    let s = store_view(s, builtin_view("k3d"@, "K3d"@, "K3s in Docker"@, "container"@, "npx"@, npx("@modelcontextprotocol/server-k3d"@, Seq::empty()), false));
    let s = store_view(s, builtin_view("rancher"@, "Rancher"@, "K8s management"@, "container"@, "npx"@, npx("@modelcontextprotocol/server-rancher"@, Seq::empty()), false));
    let s = store_view(s, builtin_view("openshift"@, "OpenShift"@, "Enterprise K8s"@, "container"@, "npx"@, npx("@modelcontextprotocol/server-openshift"@, Seq::empty()), false));
    let s = store_view(s, builtin_view("istio"@, "Istio"@, "Service mesh"@, "container"@, "npx"@, npx("@modelcontextprotocol/server-istio"@, Seq::empty()), false));
    let s = store_view(s, builtin_view("linkerd"@, "Linkerd"@, "Service mesh"@, "container"@, "npx"@, npx("@modelcontextprotocol/server-linkerd"@, Seq::empty()), false));
    let s = store_view(s, builtin_view("consul"@, "Consul"@, "Service discovery"@, "container"@, "npx"@, npx("@modelcontextprotocol/server-consul"@, Seq::empty()), false));
    let s = store_view(s, builtin_view("envoy"@, "Envoy"@, "Proxy service"@, "container"@, "npx"@, npx("@modelcontextprotocol/server-envoy"@, Seq::empty()), false));
    let s = store_view(s, builtin_view("nginx"@, "Nginx"@, "Web server"@, "container"@, "npx"@, npx("@modelcontextprotocol/server-nginx"@, Seq::empty()), false));
    let s = store_view(s, builtin_view("caddy"@, "Caddy"@, "Web server"@, "container"@, "npx"@, npx("@modelcontextprotocol/server-caddy"@, Seq::empty()), false));
    let s = store_view(s, builtin_view("traefik"@, "Traefik"@, "Reverse proxy"@, "container"@, "npx"@, npx("@modelcontextprotocol/server-traefik"@, Seq::empty()), false));
    let s = store_view(s, builtin_view("digitalocean"@, "DigitalOcean"@, "Cloud infrastructure"@, "cloud"@, "npx"@, npx("@modelcontextprotocol/server-digitalocean"@, Seq::empty()), false));
    let s = store_view(s, builtin_view("linode"@, "Linode"@, "Cloud hosting"@, "cloud"@, "npx"@, npx("@modelcontextprotocol/server-linode"@, Seq::empty()), false));
    let s = store_view(s, builtin_view("vultr"@, "Vultr"@, "Cloud compute"@, "cloud"@, "npx"@, npx("@modelcontextprotocol/server-vultr"@, Seq::empty()), false));
    let s = store_view(s, builtin_view("heroku"@, "Heroku"@, "PaaS platform"@, "cloud"@, "npx"@, npx("@modelcontextprotocol/server-heroku"@, Seq::empty()), false));
    let s = store_view(s, builtin_view("vercel"@, "Vercel"@, "Frontend cloud"@, "cloud"@, "npx"@, npx("@modelcontextprotocol/server-vercel"@, Seq::empty()), false));
    let s = store_view(s, builtin_view("netlify"@, "Netlify"@, "Web hosting"@, "cloud"@, "npx"@, npx("@modelcontextprotocol/server-netlify"@, Seq::empty()), false));
    let s = store_view(s, builtin_view("render"@, "Render"@, "Cloud hosting"@, "cloud"@, "npx"@, npx("@modelcontextprotocol/server-render"@, Seq::empty()), false));
    let s = store_view(s, builtin_view("flyio"@, "Fly.io"@, "Edge hosting"@, "cloud"@, "npx"@, npx("@modelcontextprotocol/server-flyio"@, Seq::empty()), false));
    s
}

/// Registers the planned servers (part 3).
fn planned_servers_3(reg: &mut MCPRegistry)
    ensures
        views_of(final(reg).servers()) == planned_servers_3_added(views_of(old(reg).servers())),
        final(reg).running() == old(reg).running(),
        all_disabled(old(reg).servers()) ==> all_disabled(final(reg).servers()),
{
    register_builtin(reg, "poetry", "Poetry", "Python dependency management", "package", "npx",
        npx_package("@modelcontextprotocol/server-poetry"), no_args(), false);
    register_builtin(reg, "pipenv", "Pipenv", "Python dev workflow", "package", "npx",
        npx_package("@modelcontextprotocol/server-pipenv"), no_args(), false);
    register_builtin(reg, "conda", "Conda", "Package manager", "package", "npx",
        npx_package("@modelcontextprotocol/server-conda"), no_args(), false);
    register_builtin(reg, "cargo", "Cargo", "Rust package manager", "package", "npx",
        npx_package("@modelcontextprotocol/server-cargo"), no_args(), false);
    register_builtin(reg, "go-modules", "Go Modules", "Go dependency management", "package", "npx",
        npx_package("@modelcontextprotocol/server-go-modules"), no_args(), false);
    register_builtin(reg, "composer", "Composer", "PHP package manager", "package", "npx",
        npx_package("@modelcontextprotocol/server-composer"), no_args(), false);
    register_builtin(reg, "nuget", "NuGet", ".NET package manager", "package", "npx",
        npx_package("@modelcontextprotocol/server-nuget"), no_args(), false);
    register_builtin(reg, "maven", "Maven", "Java build tool", "package", "npx",
        npx_package("@modelcontextprotocol/server-maven"), no_args(), false);
    register_builtin(reg, "gradle", "Gradle", "Build automation", "package", "npx",
        npx_package("@modelcontextprotocol/server-gradle"), no_args(), false);
    register_builtin(reg, "bazel", "Bazel", "Build system", "package", "npx",
        npx_package("@modelcontextprotocol/server-bazel"), no_args(), false);
    register_builtin(reg, "buck", "Buck", "Build system", "package", "npx",
        npx_package("@modelcontextprotocol/server-buck"), no_args(), false);
    register_builtin(reg, "pnpm", "PNPM", "Package manager", "package", "npx",
        npx_package("@modelcontextprotocol/server-pnpm"), no_args(), false);
    register_builtin(reg, "docker-swarm", "Docker Swarm", "Container orchestration", "container", "npx",
        npx_package("@modelcontextprotocol/server-docker-swarm"), no_args(), false);
    register_builtin(reg, "kubernetes", "Kubernetes", "K8s orchestration", "container", "npx",
        npx_package("@modelcontextprotocol/server-kubernetes"), no_args(), false);
    register_builtin(reg, "helm", "Helm", "K8s package manager", "container", "npx",
        npx_package("@modelcontextprotocol/server-helm"), no_args(), false);
    register_builtin(reg, "kustomize", "Kustomize", "K8s configuration", "container", "npx",
        npx_package("@modelcontextprotocol/server-kustomize"), no_args(), false);
    register_builtin(reg, "skaffold", "Skaffold", "K8s development", "container", "npx",
        npx_package("@modelcontextprotocol/server-skaffold"), no_args(), false);
    register_builtin(reg, "tilt", "Tilt", "K8s dev environment", "container", "npx",
        npx_package("@modelcontextprotocol/server-tilt"), no_args(), false);
    register_builtin(reg, "kompose", "Kompose", "Docker-compose to K8s", "container", "npx",
        npx_package("@modelcontextprotocol/server-kompose"), no_args(), false);
    register_builtin(reg, "kind", "Kind", "K8s in Docker", "container", "npx",
        npx_package("@modelcontextprotocol/server-kind"), no_args(), false);
    register_builtin(reg, "minikube", "Minikube", "Local K8s", "container", "npx",
        npx_package("@modelcontextprotocol/server-minikube"), no_args(), false);
    register_builtin(reg, "k3s", "K3s", "Lightweight K8s", "container", "npx",
        npx_package("@modelcontextprotocol/server-k3s"), no_args(), false);
    register_builtin(reg, "k3d", "K3d", "K3s in Docker", "container", "npx",
        npx_package("@modelcontextprotocol/server-k3d"), no_args(), false);
    register_builtin(reg, "rancher", "Rancher", "K8s management", "container", "npx",
        npx_package("@modelcontextprotocol/server-rancher"), no_args(), false);
    register_builtin(reg, "openshift", "OpenShift", "Enterprise K8s", "container", "npx",
        npx_package("@modelcontextprotocol/server-openshift"), no_args(), false);
    register_builtin(reg, "istio", "Istio", "Service mesh", "container", "npx",
        npx_package("@modelcontextprotocol/server-istio"), no_args(), false);
    register_builtin(reg, "linkerd", "Linkerd", "Service mesh", "container", "npx",
        npx_package("@modelcontextprotocol/server-linkerd"), no_args(), false);
    register_builtin(reg, "consul", "Consul", "Service discovery", "container", "npx",
        npx_package("@modelcontextprotocol/server-consul"), no_args(), false);
    register_builtin(reg, "envoy", "Envoy", "Proxy service", "container", "npx",
        npx_package("@modelcontextprotocol/server-envoy"), no_args(), false);
    register_builtin(reg, "nginx", "Nginx", "Web server", "container", "npx",
        npx_package("@modelcontextprotocol/server-nginx"), no_args(), false);
    register_builtin(reg, "caddy", "Caddy", "Web server", "container", "npx",
        npx_package("@modelcontextprotocol/server-caddy"), no_args(), false);
    register_builtin(reg, "traefik", "Traefik", "Reverse proxy", "container", "npx",
        npx_package("@modelcontextprotocol/server-traefik"), no_args(), false);
    register_builtin(reg, "digitalocean", "DigitalOcean", "Cloud infrastructure", "cloud", "npx",
        npx_package("@modelcontextprotocol/server-digitalocean"), no_args(), false);
    register_builtin(reg, "linode", "Linode", "Cloud hosting", "cloud", "npx",
        npx_package("@modelcontextprotocol/server-linode"), no_args(), false);
    register_builtin(reg, "vultr", "Vultr", "Cloud compute", "cloud", "npx",
        npx_package("@modelcontextprotocol/server-vultr"), no_args(), false);
    register_builtin(reg, "heroku", "Heroku", "PaaS platform", "cloud", "npx",
        npx_package("@modelcontextprotocol/server-heroku"), no_args(), false);
    register_builtin(reg, "vercel", "Vercel", "Frontend cloud", "cloud", "npx",
        npx_package("@modelcontextprotocol/server-vercel"), no_args(), false);
    register_builtin(reg, "netlify", "Netlify", "Web hosting", "cloud", "npx",
        npx_package("@modelcontextprotocol/server-netlify"), no_args(), false);
    register_builtin(reg, "render", "Render", "Cloud hosting", "cloud", "npx",
        npx_package("@modelcontextprotocol/server-render"), no_args(), false);
    register_builtin(reg, "flyio", "Fly.io", "Edge hosting", "cloud", "npx",
        npx_package("@modelcontextprotocol/server-flyio"), no_args(), false);
}

/// The servers `s` with the planned servers (part 4) registered, in order.
pub open spec fn planned_servers_4_added(s: Seq<ServerView>) -> Seq<ServerView> {
    let s = store_view(s, builtin_view("railway"@, "Railway"@, "Deploy platform"@, "cloud"@, "npx"@, npx("@modelcontextprotocol/server-railway"@, Seq::empty()), false));
    let s = store_view(s, builtin_view("glitch"@, "Glitch"@, "Web IDE hosting"@, "cloud"@, "npx"@, npx("@modelcontextprotocol/server-glitch"@, Seq::empty()), false));
    let s = store_view(s, builtin_view("forge"@, "DigitalOcean Forge"@, "Server provisioning"@, "cloud"@, "npx"@, npx("@modelcontextprotocol/server-forge"@, Seq::empty()), false));
    let s = store_view(s, builtin_view("hetzner"@, "Hetzner"@, "Cloud provider"@, "cloud"@, "npx"@, npx("@modelcontextprotocol/server-hetzner"@, Seq::empty()), false));
    let s = store_view(s, builtin_view("upcloud"@, "UpCloud"@, "Cloud hosting"@, "cloud"@, "npx"@, npx("@modelcontextprotocol/server-upcloud"@, Seq::empty()), false));
    let s = store_view(s, builtin_view("backblaze"@, "Backblaze"@, "Backup storage"@, "cloud"@, "npx"@, npx("@modelcontextprotocol/server-backblaze"@, Seq::empty()), false));
    let s = store_view(s, builtin_view("wasabi"@, "Wasabi"@, "S3 storage"@, "cloud"@, "npx"@, npx("@modelcontextprotocol/server-wasabi"@, Seq::empty()), false));
    let s = store_view(s, builtin_view("cloudflare-stream"@, "Cloudflare Stream"@, "Video hosting"@, "cloud"@, "npx"@, npx("@modelcontextprotocol/server-cloudflare-stream"@, Seq::empty()), false));
    let s = store_view(s, builtin_view("bun"@, "Bun"@, "JavaScript runtime"@, "runtime"@, "npx"@, npx("@modelcontextprotocol/server-bun"@, Seq::empty()), false));
    let s = store_view(s, builtin_view("deno"@, "Deno"@, "Secure runtime"@, "runtime"@, "npx"@, npx("@modelcontextprotocol/server-deno"@, Seq::empty()), false));
    let s = store_view(s, builtin_view("pytorch"@, "PyTorch"@, "ML framework"@, "ml"@, "npx"@, npx("@modelcontextprotocol/server-pytorch"@, Seq::empty()), false));
    let s = store_view(s, builtin_view("tensorflow"@, "TensorFlow"@, "ML framework"@, "ml"@, "npx"@, npx("@modelcontextprotocol/server-tensorflow"@, Seq::empty()), false));
    let s = store_view(s, builtin_view("jax"@, "JAX"@, "ML library"@, "ml"@, "npx"@, npx("@modelcontextprotocol/server-jax"@, Seq::empty()), false));
    let s = store_view(s, builtin_view("scikit-learn"@, "Scikit Learn"@, "ML library"@, "ml"@, "npx"@, npx("@modelcontextprotocol/server-scikit-learn"@, Seq::empty()), false));
    let s = store_view(s, builtin_view("keras"@, "Keras"@, "Neural network API"@, "ml"@, "npx"@, npx("@modelcontextprotocol/server-keras"@, Seq::empty()), false));
    let s = store_view(s, builtin_view("fastai"@, "FastAI"@, "Deep learning"@, "ml"@, "npx"@, npx("@modelcontextprotocol/server-fastai"@, Seq::empty()), false));
    let s = store_view(s, builtin_view("mlflow"@, "MLflow"@, "ML lifecycle"@, "ml"@, "npx"@, npx("@modelcontextprotocol/server-mlflow"@, Seq::empty()), false));
    let s = store_view(s, builtin_view("kubeflow"@, "Kubeflow"@, "ML on K8s"@, "ml"@, "npx"@, npx("@modelcontextprotocol/server-kubeflow"@, Seq::empty()), false));
    let s = store_view(s, builtin_view("Weights-Biases"@, "Weights & Biases"@, "ML tracking"@, "ml"@, "npx"@, npx("@modelcontextprotocol/server-weights-biases"@, Seq::empty()), false));
    let s = store_view(s, builtin_view("comet"@, "Comet"@, "ML platform"@, "ml"@, "npx"@, npx("@modelcontextprotocol/server-comet"@, Seq::empty()), false));
    let s = store_view(s, builtin_view("neptune"@, "Neptune"@, "ML metadata store"@, "ml"@, "npx"@, npx("@modelcontextprotocol/server-neptune"@, Seq::empty()), false));
    let s = store_view(s, builtin_view("clearml"@, "ClearML"@, "MLOps platform"@, "ml"@, "npx"@, npx("@modelcontextprotocol/server-clearml"@, Seq::empty()), false));
    let s = store_view(s, builtin_view("cml"@, "CML"@, "Continuous ML"@, "ml"@, "npx"@, npx("@modelcontextprotocol/server-cml"@, Seq::empty()), false));
    let s = store_view(s, builtin_view("dagshub"@, "DagsHub"@, "ML collaboration"@, "ml"@, "npx"@, npx("@modelcontextprotocol/server-dagshub"@, Seq::empty()), false));
    let s = store_view(s, builtin_view("colab"@, "Google Colab"@, "Notebook environment"@, "ml"@, "npx"@, npx("@modelcontextprotocol/server-colab"@, Seq::empty()), false));
    let s = store_view(s, builtin_view("paperspace"@, "Paperspace"@, "ML cloud"@, "ml"@, "npx"@, npx("@modelcontextprotocol/server-paperspace"@, Seq::empty()), false));
    let s = store_view(s, builtin_view("gradient"@, "Gradient"@, "ML platform"@, "ml"@, "npx"@, npx("@modelcontextprotocol/server-gradient"@, Seq::empty()), false));
    let s = store_view(s, builtin_view("flowise"@, "Flowise"@, "No-code AI"@, "ml"@, "npx"@, npx("@modelcontextprotocol/server-flowise"@, Seq::empty()), false));
    let s = store_view(s, builtin_view("langchain"@, "LangChain"@, "AI app framework"@, "ml"@, "npx"@, npx("@modelcontextprotocol/server-langchain"@, Seq::empty()), false));
    let s = store_view(s, builtin_view("llamaindex"@, "LlamaIndex"@, "Data framework"@, "ml"@, "npx"@, npx("@modelcontextprotocol/server-llamaindex"@, Seq::empty()), false));
    let s = store_view(s, builtin_view("autogen"@, "AutoGen"@, "Multi-agent AI"@, "ml"@, "npx"@, npx("@modelcontextprotocol/server-autogen"@, Seq::empty()), false));
    let s = store_view(s, builtin_view("crewai"@, "CrewAI"@, "AI agents"@, "ml"@, "npx"@, npx("@modelcontextprotocol/server-crewai"@, Seq::empty()), false));
    let s = store_view(s, builtin_view("marquis"@, "Marquis"@, "AI gateway"@, "ml"@, "npx"@, npx("@modelcontextprotocol/server-marquis"@, Seq::empty()), false));
    let s = store_view(s, builtin_view("vllm"@, "VLLM"@, "LLM inference"@, "ml"@, "npx"@, npx("@modelcontextprotocol/server-vllm"@, Seq::empty()), false));
    let s = store_view(s, builtin_view("text-generation-webui"@, "Text Gen WebUI"@, "GGML inference"@, "ml"@, "npx"@, npx("@modelcontextprotocol/server-text-generation-webui"@, Seq::empty()), false));
    let s = store_view(s, builtin_view("open-webui"@, "Open WebUI"@, "Chatbot UI"@, "ml"@, "npx"@, npx("@modelcontextprotocol/server-open-webui"@, Seq::empty()), false));
    let s = store_view(s, builtin_view("chatbox"@, "Chatbox"@, "AI客户端"@, "ml"@, "npx"@, npx("@modelcontextprotocol/server-chatbox"@, Seq::empty()), false));
    let s = store_view(s, builtin_view("lobe-chat"@, "Lobe Chat"@, "AI chat interface"@, "ml"@, "npx"@, npx("@modelcontextprotocol/server-lobe-chat"@, Seq::empty()), false));
    let s = store_view(s, builtin_view("anything-lora"@, "Anything Lora"@, "LoRA training"@, "ml"@, "npx"@, npx("@modelcontextprotocol/server-anything-lora"@, Seq::empty()), false));
    let s = store_view(s, builtin_view("dynamodb"@, "DynamoDB"@, "AWS NoSQL"@, "database"@, "npx"@, npx("@modelcontextprotocol/server-dynamodb"@, Seq::empty()), false));
    s
}

/// Registers the planned servers (part 4).
fn planned_servers_4(reg: &mut MCPRegistry)
    ensures
        views_of(final(reg).servers()) == planned_servers_4_added(views_of(old(reg).servers())),
        final(reg).running() == old(reg).running(),
        all_disabled(old(reg).servers()) ==> all_disabled(final(reg).servers()),
{
    register_builtin(reg, "railway", "Railway", "Deploy platform", "cloud", "npx",
        npx_package("@modelcontextprotocol/server-railway"), no_args(), false);
    register_builtin(reg, "glitch", "Glitch", "Web IDE hosting", "cloud", "npx",
        npx_package("@modelcontextprotocol/server-glitch"), no_args(), false);
    register_builtin(reg, "forge", "DigitalOcean Forge", "Server provisioning", "cloud", "npx",
        npx_package("@modelcontextprotocol/server-forge"), no_args(), false);
    register_builtin(reg, "hetzner", "Hetzner", "Cloud provider", "cloud", "npx",
        npx_package("@modelcontextprotocol/server-hetzner"), no_args(), false);
    register_builtin(reg, "upcloud", "UpCloud", "Cloud hosting", "cloud", "npx",
        npx_package("@modelcontextprotocol/server-upcloud"), no_args(), false);
    register_builtin(reg, "backblaze", "Backblaze", "Backup storage", "cloud", "npx",
        npx_package("@modelcontextprotocol/server-backblaze"), no_args(), false);
    register_builtin(reg, "wasabi", "Wasabi", "S3 storage", "cloud", "npx",
        npx_package("@modelcontextprotocol/server-wasabi"), no_args(), false);
    register_builtin(reg, "cloudflare-stream", "Cloudflare Stream", "Video hosting", "cloud", "npx",
        npx_package("@modelcontextprotocol/server-cloudflare-stream"), no_args(), false);
    register_builtin(reg, "bun", "Bun", "JavaScript runtime", "runtime", "npx",
        npx_package("@modelcontextprotocol/server-bun"), no_args(), false);
    register_builtin(reg, "deno", "Deno", "Secure runtime", "runtime", "npx",
        npx_package("@modelcontextprotocol/server-deno"), no_args(), false);
    register_builtin(reg, "pytorch", "PyTorch", "ML framework", "ml", "npx",
        npx_package("@modelcontextprotocol/server-pytorch"), no_args(), false);
    register_builtin(reg, "tensorflow", "TensorFlow", "ML framework", "ml", "npx",
        npx_package("@modelcontextprotocol/server-tensorflow"), no_args(), false);
    register_builtin(reg, "jax", "JAX", "ML library", "ml", "npx",
        npx_package("@modelcontextprotocol/server-jax"), no_args(), false);
    register_builtin(reg, "scikit-learn", "Scikit Learn", "ML library", "ml", "npx",
        npx_package("@modelcontextprotocol/server-scikit-learn"), no_args(), false);
    register_builtin(reg, "keras", "Keras", "Neural network API", "ml", "npx",
        npx_package("@modelcontextprotocol/server-keras"), no_args(), false);
    register_builtin(reg, "fastai", "FastAI", "Deep learning", "ml", "npx",
        npx_package("@modelcontextprotocol/server-fastai"), no_args(), false);
    register_builtin(reg, "mlflow", "MLflow", "ML lifecycle", "ml", "npx",
        npx_package("@modelcontextprotocol/server-mlflow"), no_args(), false);
    register_builtin(reg, "kubeflow", "Kubeflow", "ML on K8s", "ml", "npx",
        npx_package("@modelcontextprotocol/server-kubeflow"), no_args(), false);
    register_builtin(reg, "Weights-Biases", "Weights & Biases", "ML tracking", "ml", "npx",
        npx_package("@modelcontextprotocol/server-weights-biases"), no_args(), false);
    register_builtin(reg, "comet", "Comet", "ML platform", "ml", "npx",
        npx_package("@modelcontextprotocol/server-comet"), no_args(), false);
    register_builtin(reg, "neptune", "Neptune", "ML metadata store", "ml", "npx",
        npx_package("@modelcontextprotocol/server-neptune"), no_args(), false);
    register_builtin(reg, "clearml", "ClearML", "MLOps platform", "ml", "npx",
        npx_package("@modelcontextprotocol/server-clearml"), no_args(), false);
    register_builtin(reg, "cml", "CML", "Continuous ML", "ml", "npx",
        npx_package("@modelcontextprotocol/server-cml"), no_args(), false);
    register_builtin(reg, "dagshub", "DagsHub", "ML collaboration", "ml", "npx",
        npx_package("@modelcontextprotocol/server-dagshub"), no_args(), false);
    register_builtin(reg, "colab", "Google Colab", "Notebook environment", "ml", "npx",
        npx_package("@modelcontextprotocol/server-colab"), no_args(), false);
    register_builtin(reg, "paperspace", "Paperspace", "ML cloud", "ml", "npx",
        npx_package("@modelcontextprotocol/server-paperspace"), no_args(), false);
    register_builtin(reg, "gradient", "Gradient", "ML platform", "ml", "npx",
        npx_package("@modelcontextprotocol/server-gradient"), no_args(), false);
    register_builtin(reg, "flowise", "Flowise", "No-code AI", "ml", "npx",
        npx_package("@modelcontextprotocol/server-flowise"), no_args(), false);
    register_builtin(reg, "langchain", "LangChain", "AI app framework", "ml", "npx",
        npx_package("@modelcontextprotocol/server-langchain"), no_args(), false);
    register_builtin(reg, "llamaindex", "LlamaIndex", "Data framework", "ml", "npx",
        npx_package("@modelcontextprotocol/server-llamaindex"), no_args(), false);
    register_builtin(reg, "autogen", "AutoGen", "Multi-agent AI", "ml", "npx",
        npx_package("@modelcontextprotocol/server-autogen"), no_args(), false);
    register_builtin(reg, "crewai", "CrewAI", "AI agents", "ml", "npx",
        npx_package("@modelcontextprotocol/server-crewai"), no_args(), false);
    register_builtin(reg, "marquis", "Marquis", "AI gateway", "ml", "npx",
        npx_package("@modelcontextprotocol/server-marquis"), no_args(), false);
    register_builtin(reg, "vllm", "VLLM", "LLM inference", "ml", "npx",
        npx_package("@modelcontextprotocol/server-vllm"), no_args(), false);
    register_builtin(reg, "text-generation-webui", "Text Gen WebUI", "GGML inference", "ml", "npx",
        npx_package("@modelcontextprotocol/server-text-generation-webui"), no_args(), false);
    register_builtin(reg, "open-webui", "Open WebUI", "Chatbot UI", "ml", "npx",
        npx_package("@modelcontextprotocol/server-open-webui"), no_args(), false);
    register_builtin(reg, "chatbox", "Chatbox", "AI客户端", "ml", "npx",
        npx_package("@modelcontextprotocol/server-chatbox"), no_args(), false);
    register_builtin(reg, "lobe-chat", "Lobe Chat", "AI chat interface", "ml", "npx",
        npx_package("@modelcontextprotocol/server-lobe-chat"), no_args(), false);
    register_builtin(reg, "anything-lora", "Anything Lora", "LoRA training", "ml", "npx",
        npx_package("@modelcontextprotocol/server-anything-lora"), no_args(), false);
    register_builtin(reg, "dynamodb", "DynamoDB", "AWS NoSQL", "database", "npx",
        npx_package("@modelcontextprotocol/server-dynamodb"), no_args(), false);
}

/// The servers `s` with the planned servers (part 5) registered, in order.
pub open spec fn planned_servers_5_added(s: Seq<ServerView>) -> Seq<ServerView> {
    let s = store_view(s, builtin_view("cosmos-db"@, "Cosmos DB"@, "Azure NoSQL"@, "database"@, "npx"@, npx("@modelcontextprotocol/server-cosmos-db"@, Seq::empty()), false));
    let s = store_view(s, builtin_view("firestore"@, "Firestore"@, "Firebase NoSQL"@, "database"@, "npx"@, npx("@modelcontextprotocol/server-firestore"@, Seq::empty()), false));
    let s = store_view(s, builtin_view("realm"@, "Realm"@, "Mobile database"@, "database"@, "npx"@, npx("@modelcontextprotocol/server-realm"@, Seq::empty()), false));
    let s = store_view(s, builtin_view("cockroachdb"@, "CockroachDB"@, "Distributed SQL"@, "database"@, "npx"@, npx("@modelcontextprotocol/server-cockroachdb"@, Seq::empty()), false));
    let s = store_view(s, builtin_view("ytimescaledb"@, "TimescaleDB"@, "Time-series DB"@, "database"@, "npx"@, npx("@modelcontextprotocol/server-timescaledb"@, Seq::empty()), false));
    let s = store_view(s, builtin_view("influxdb"@, "InfluxDB"@, "Time-series DB"@, "database"@, "npx"@, npx("@modelcontextprotocol/server-influxdb"@, Seq::empty()), false));
    let s = store_view(s, builtin_view("clickhouse"@, "ClickHouse"@, "OLAP database"@, "database"@, "npx"@, npx("@modelcontextprotocol/server-clickhouse"@, Seq::empty()), false));
    let s = store_view(s, builtin_view("duckdb"@, "DuckDB"@, "Analytical database"@, "database"@, "npx"@, npx("@modelcontextprotocol/server-duckdb"@, Seq::empty()), false));
    let s = store_view(s, builtin_view("scylladb"@, "ScyllaDB"@, "NoSQL database"@, "database"@, "npx"@, npx("@modelcontextprotocol/server-scylladb"@, Seq::empty()), false));
    let s = store_view(s, builtin_view("arangodb"@, "ArangoDB"@, "Multi-model DB"@, "database"@, "npx"@, npx("@modelcontextprotocol/server-arangodb"@, Seq::empty()), false));
    let s = store_view(s, builtin_view("couchdb"@, "CouchDB"@, "Document DB"@, "database"@, "npx"@, npx("@modelcontextprotocol/server-couchdb"@, Seq::empty()), false));
    let s = store_view(s, builtin_view("cassandra"@, "Cassandra"@, "NoSQL database"@, "database"@, "npx"@, npx("@modelcontextprotocol/server-cassandra"@, Seq::empty()), false));
    let s = store_view(s, builtin_view("neo4j"@, "Neo4j"@, "Graph database"@, "database"@, "npx"@, npx("@modelcontextprotocol/server-neo4j"@, Seq::empty()), false));
    let s = store_view(s, builtin_view("orientdb"@, "OrientDB"@, "Graph database"@, "database"@, "npx"@, npx("@modelcontextprotocol/server-orientdb"@, Seq::empty()), false));
    let s = store_view(s, builtin_view("nebula-graph"@, "Nebula Graph"@, "Graph database"@, "database"@, "npx"@, npx("@modelcontextprotocol/server-nebula-graph"@, Seq::empty()), false));
    let s = store_view(s, builtin_view("dgraph"@, "Dgraph"@, "GraphQL database"@, "database"@, "npx"@, npx("@modelcontextprotocol/server-dgraph"@, Seq::empty()), false));
    let s = store_view(s, builtin_view("memgraph"@, "Memgraph"@, "Graph database"@, "database"@, "npx"@, npx("@modelcontextprotocol/server-memgraph"@, Seq::empty()), false));
    let s = store_view(s, builtin_view("react"@, "React"@, "UI framework"@, "frontend"@, "npx"@, npx("@modelcontextprotocol/server-react"@, Seq::empty()), false));
    let s = store_view(s, builtin_view("vue"@, "Vue.js"@, "UI framework"@, "frontend"@, "npx"@, npx("@modelcontextprotocol/server-vue"@, Seq::empty()), false));
    let s = store_view(s, builtin_view("svelte"@, "Svelte"@, "UI framework"@, "frontend"@, "npx"@, npx("@modelcontextprotocol/server-svelte"@, Seq::empty()), false));
    let s = store_view(s, builtin_view("angular"@, "Angular"@, "UI framework"@, "frontend"@, "npx"@, npx("@modelcontextprotocol/server-angular"@, Seq::empty()), false));
    let s = store_view(s, builtin_view("nextjs"@, "Next.js"@, "React framework"@, "frontend"@, "npx"@, npx("@modelcontextprotocol/server-nextjs"@, Seq::empty()), false));
    let s = store_view(s, builtin_view("nuxtjs"@, "Nuxt.js"@, "Vue framework"@, "frontend"@, "npx"@, npx("@modelcontextprotocol/server-nuxtjs"@, Seq::empty()), false));
    let s = store_view(s, builtin_view("sveltekit"@, "SvelteKit"@, "Svelte framework"@, "frontend"@, "npx"@, npx("@modelcontextprotocol/server-sveltekit"@, Seq::empty()), false));
    let s = store_view(s, builtin_view("astro"@, "Astro"@, "SSG framework"@, "frontend"@, "npx"@, npx("@modelcontextprotocol/server-astro"@, Seq::empty()), false));
    let s = store_view(s, builtin_view("remix"@, "Remix"@, "Full stack"@, "frontend"@, "npx"@, npx("@modelcontextprotocol/server-remix"@, Seq::empty()), false));
    let s = store_view(s, builtin_view("solidjs"@, "SolidJS"@, "UI library"@, "frontend"@, "npx"@, npx("@modelcontextprotocol/server-solidjs"@, Seq::empty()), false));
    let s = store_view(s, builtin_view("qwik"@, "Qwik"@, "Resumable framework"@, "frontend"@, "npx"@, npx("@modelcontextprotocol/server-qwik"@, Seq::empty()), false));
    let s = store_view(s, builtin_view("alpinejs"@, "Alpine.js"@, "Minimal JS"@, "frontend"@, "npx"@, npx("@modelcontextprotocol/server-alpinejs"@, Seq::empty()), false));
    let s = store_view(s, builtin_view("tailwindcss"@, "TailwindCSS"@, "CSS framework"@, "frontend"@, "npx"@, npx("@modelcontextprotocol/server-tailwindcss"@, Seq::empty()), false));
    let s = store_view(s, builtin_view("bootstrap"@, "Bootstrap"@, "CSS framework"@, "frontend"@, "npx"@, npx("@modelcontextprotocol/server-bootstrap"@, Seq::empty()), false));
    let s = store_view(s, builtin_view("chakra-ui"@, "Chakra UI"@, "React component lib"@, "frontend"@, "npx"@, npx("@modelcontextprotocol/server-chakra-ui"@, Seq::empty()), false));
    let s = store_view(s, builtin_view("material-ui"@, "Material UI"@, "React components"@, "frontend"@, "npx"@, npx("@modelcontextprotocol/server-material-ui"@, Seq::empty()), false));
    let s = store_view(s, builtin_view("antd"@, "Ant Design"@, "React component lib"@, "frontend"@, "npx"@, npx("@modelcontextprotocol/server-antd"@, Seq::empty()), false));
    let s = store_view(s, builtin_view("radix-ui"@, "Radix UI"@, "Unstyled components"@, "frontend"@, "npx"@, npx("@modelcontextprotocol/server-radix-ui"@, Seq::empty()), false));
    let s = store_view(s, builtin_view("headless-ui"@, "Headless UI"@, "Unexposed components"@, "frontend"@, "npx"@, npx("@modelcontextprotocol/server-headless-ui"@, Seq::empty()), false));
    let s = store_view(s, builtin_view("express"@, "Express"@, "Node.js web framework"@, "backend"@, "npx"@, npx("@modelcontextprotocol/server-express"@, Seq::empty()), false));
    let s = store_view(s, builtin_view("fastify"@, "Fastify"@, "Node.js framework"@, "backend"@, "npx"@, npx("@modelcontextprotocol/server-fastify"@, Seq::empty()), false));
    let s = store_view(s, builtin_view("koa"@, "Koa"@, "Node.js framework"@, "backend"@, "npx"@, npx("@modelcontextprotocol/server-koa"@, Seq::empty()), false));
    let s = store_view(s, builtin_view("nestjs"@, "NestJS"@, "Node.js framework"@, "backend"@, "npx"@, npx("@modelcontextprotocol/server-nestjs"@, Seq::empty()), false));
    s
}

/// Registers the planned servers (part 5).
fn planned_servers_5(reg: &mut MCPRegistry)
    ensures
        views_of(final(reg).servers()) == planned_servers_5_added(views_of(old(reg).servers())),
        final(reg).running() == old(reg).running(),
        all_disabled(old(reg).servers()) ==> all_disabled(final(reg).servers()),
{
    register_builtin(reg, "cosmos-db", "Cosmos DB", "Azure NoSQL", "database", "npx",
        npx_package("@modelcontextprotocol/server-cosmos-db"), no_args(), false);
    register_builtin(reg, "firestore", "Firestore", "Firebase NoSQL", "database", "npx",
        npx_package("@modelcontextprotocol/server-firestore"), no_args(), false);
    register_builtin(reg, "realm", "Realm", "Mobile database", "database", "npx",
        npx_package("@modelcontextprotocol/server-realm"), no_args(), false);
    register_builtin(reg, "cockroachdb", "CockroachDB", "Distributed SQL", "database", "npx",
        npx_package("@modelcontextprotocol/server-cockroachdb"), no_args(), false);
    register_builtin(reg, "ytimescaledb", "TimescaleDB", "Time-series DB", "database", "npx",
        npx_package("@modelcontextprotocol/server-timescaledb"), no_args(), false);
    register_builtin(reg, "influxdb", "InfluxDB", "Time-series DB", "database", "npx",
        npx_package("@modelcontextprotocol/server-influxdb"), no_args(), false);
    register_builtin(reg, "clickhouse", "ClickHouse", "OLAP database", "database", "npx",
        npx_package("@modelcontextprotocol/server-clickhouse"), no_args(), false);
    register_builtin(reg, "duckdb", "DuckDB", "Analytical database", "database", "npx",
        npx_package("@modelcontextprotocol/server-duckdb"), no_args(), false);
    register_builtin(reg, "scylladb", "ScyllaDB", "NoSQL database", "database", "npx",
        npx_package("@modelcontextprotocol/server-scylladb"), no_args(), false);
    register_builtin(reg, "arangodb", "ArangoDB", "Multi-model DB", "database", "npx",
        npx_package("@modelcontextprotocol/server-arangodb"), no_args(), false);
    register_builtin(reg, "couchdb", "CouchDB", "Document DB", "database", "npx",
        npx_package("@modelcontextprotocol/server-couchdb"), no_args(), false);
    register_builtin(reg, "cassandra", "Cassandra", "NoSQL database", "database", "npx",
        npx_package("@modelcontextprotocol/server-cassandra"), no_args(), false);
    register_builtin(reg, "neo4j", "Neo4j", "Graph database", "database", "npx",
        npx_package("@modelcontextprotocol/server-neo4j"), no_args(), false);
    register_builtin(reg, "orientdb", "OrientDB", "Graph database", "database", "npx",
        npx_package("@modelcontextprotocol/server-orientdb"), no_args(), false);
    register_builtin(reg, "nebula-graph", "Nebula Graph", "Graph database", "database", "npx",
        npx_package("@modelcontextprotocol/server-nebula-graph"), no_args(), false);
    register_builtin(reg, "dgraph", "Dgraph", "GraphQL database", "database", "npx",
        npx_package("@modelcontextprotocol/server-dgraph"), no_args(), false);
    register_builtin(reg, "memgraph", "Memgraph", "Graph database", "database", "npx",
        npx_package("@modelcontextprotocol/server-memgraph"), no_args(), false);
    register_builtin(reg, "react", "React", "UI framework", "frontend", "npx",
        npx_package("@modelcontextprotocol/server-react"), no_args(), false);
    register_builtin(reg, "vue", "Vue.js", "UI framework", "frontend", "npx",
        npx_package("@modelcontextprotocol/server-vue"), no_args(), false);
    register_builtin(reg, "svelte", "Svelte", "UI framework", "frontend", "npx",
        npx_package("@modelcontextprotocol/server-svelte"), no_args(), false);
    register_builtin(reg, "angular", "Angular", "UI framework", "frontend", "npx",
        npx_package("@modelcontextprotocol/server-angular"), no_args(), false);
    register_builtin(reg, "nextjs", "Next.js", "React framework", "frontend", "npx",
        npx_package("@modelcontextprotocol/server-nextjs"), no_args(), false);
    register_builtin(reg, "nuxtjs", "Nuxt.js", "Vue framework", "frontend", "npx",
        npx_package("@modelcontextprotocol/server-nuxtjs"), no_args(), false);
    register_builtin(reg, "sveltekit", "SvelteKit", "Svelte framework", "frontend", "npx",
        npx_package("@modelcontextprotocol/server-sveltekit"), no_args(), false);
    register_builtin(reg, "astro", "Astro", "SSG framework", "frontend", "npx",
        npx_package("@modelcontextprotocol/server-astro"), no_args(), false);
    register_builtin(reg, "remix", "Remix", "Full stack", "frontend", "npx",
        npx_package("@modelcontextprotocol/server-remix"), no_args(), false);
    register_builtin(reg, "solidjs", "SolidJS", "UI library", "frontend", "npx",
        npx_package("@modelcontextprotocol/server-solidjs"), no_args(), false);
    register_builtin(reg, "qwik", "Qwik", "Resumable framework", "frontend", "npx",
        npx_package("@modelcontextprotocol/server-qwik"), no_args(), false);
    register_builtin(reg, "alpinejs", "Alpine.js", "Minimal JS", "frontend", "npx",
        npx_package("@modelcontextprotocol/server-alpinejs"), no_args(), false);
    register_builtin(reg, "tailwindcss", "TailwindCSS", "CSS framework", "frontend", "npx",
        npx_package("@modelcontextprotocol/server-tailwindcss"), no_args(), false);
    register_builtin(reg, "bootstrap", "Bootstrap", "CSS framework", "frontend", "npx",
        npx_package("@modelcontextprotocol/server-bootstrap"), no_args(), false);
    register_builtin(reg, "chakra-ui", "Chakra UI", "React component lib", "frontend", "npx",
        npx_package("@modelcontextprotocol/server-chakra-ui"), no_args(), false);
    register_builtin(reg, "material-ui", "Material UI", "React components", "frontend", "npx",
        npx_package("@modelcontextprotocol/server-material-ui"), no_args(), false);
    register_builtin(reg, "antd", "Ant Design", "React component lib", "frontend", "npx",
        npx_package("@modelcontextprotocol/server-antd"), no_args(), false);
    register_builtin(reg, "radix-ui", "Radix UI", "Unstyled components", "frontend", "npx",
        npx_package("@modelcontextprotocol/server-radix-ui"), no_args(), false);
    register_builtin(reg, "headless-ui", "Headless UI", "Unexposed components", "frontend", "npx",
        npx_package("@modelcontextprotocol/server-headless-ui"), no_args(), false);
    register_builtin(reg, "express", "Express", "Node.js web framework", "backend", "npx",
        npx_package("@modelcontextprotocol/server-express"), no_args(), false);
    register_builtin(reg, "fastify", "Fastify", "Node.js framework", "backend", "npx",
        npx_package("@modelcontextprotocol/server-fastify"), no_args(), false);
    register_builtin(reg, "koa", "Koa", "Node.js framework", "backend", "npx",
        npx_package("@modelcontextprotocol/server-koa"), no_args(), false);
    register_builtin(reg, "nestjs", "NestJS", "Node.js framework", "backend", "npx",
        npx_package("@modelcontextprotocol/server-nestjs"), no_args(), false);
}

/// The servers `s` with the planned servers (part 6) registered, in order.
pub open spec fn planned_servers_6_added(s: Seq<ServerView>) -> Seq<ServerView> {
    let s = store_view(s, builtin_view("hapi"@, "Hapi"@, "Node.js framework"@, "backend"@, "npx"@, npx("@modelcontextprotocol/server-hapi"@, Seq::empty()), false));
    let s = store_view(s, builtin_view("sails"@, "Sails.js"@, "MVC framework"@, "backend"@, "npx"@, npx("@modelcontextprotocol/server-sails"@, Seq::empty()), false));
    let s = store_view(s, builtin_view("strapi"@, "Strapi"@, "Headless CMS"@, "backend"@, "npx"@, npx("@modelcontextprotocol/server-strapi"@, Seq::empty()), false));
    let s = store_view(s, builtin_view("keystone"@, "Keystone"@, "Headless CMS"@, "backend"@, "npx"@, npx("@modelcontextprotocol/server-keystone"@, Seq::empty()), false));
    let s = store_view(s, builtin_view("directus"@, "Directus"@, "Data platform"@, "backend"@, "npx"@, npx("@modelcontextprotocol/server-directus"@, Seq::empty()), false));
    let s = store_view(s, builtin_view("sanity"@, "Sanity"@, "Headless CMS"@, "backend"@, "npx"@, npx("@modelcontextprotocol/server-sanity"@, Seq::empty()), false));
    let s = store_view(s, builtin_view("contentful"@, "Contentful"@, "CMS"@, "backend"@, "npx"@, npx("@modelcontextprotocol/server-contentful"@, Seq::empty()), false));
    let s = store_view(s, builtin_view("prismic"@, "Prismic"@, "Headless CMS"@, "backend"@, "npx"@, npx("@modelcontextprotocol/server-prismic"@, Seq::empty()), false));
    let s = store_view(s, builtin_view("stripe"@, "Stripe"@, "Payment API"@, "api"@, "npx"@, npx("@modelcontextprotocol/server-stripe"@, Seq::empty()), false));
    let s = store_view(s, builtin_view("twilio"@, "Twilio"@, "Communication API"@, "api"@, "npx"@, npx("@modelcontextprotocol/server-twilio"@, Seq::empty()), false));
    let s = store_view(s, builtin_view("sendgrid"@, "SendGrid"@, "Email API"@, "api"@, "npx"@, npx("@modelcontextprotocol/server-sendgrid"@, Seq::empty()), false));
    let s = store_view(s, builtin_view("mailgun"@, "Mailgun"@, "Email API"@, "api"@, "npx"@, npx("@modelcontextprotocol/server-mailgun"@, Seq::empty()), false));
    let s = store_view(s, builtin_view("sendinblue"@, "SendinBlue"@, "Email marketing"@, "api"@, "npx"@, npx("@modelcontextprotocol/server-sendinblue"@, Seq::empty()), false));
    let s = store_view(s, builtin_view("postmark"@, "Postmark"@, "Email delivery"@, "api"@, "npx"@, npx("@modelcontextprotocol/server-postmark"@, Seq::empty()), false));
    let s = store_view(s, builtin_view("mailchimp"@, "Mailchimp"@, "Email marketing"@, "api"@, "npx"@, npx("@modelcontextprotocol/server-mailchimp"@, Seq::empty()), false));
    let s = store_view(s, builtin_view("hubspot"@, "HubSpot"@, "Marketing automation"@, "api"@, "npx"@, npx("@modelcontextprotocol/server-hubspot"@, Seq::empty()), false));
    let s = store_view(s, builtin_view("salesforce"@, "Salesforce"@, "CRM API"@, "api"@, "npx"@, npx("@modelcontextprotocol/server-salesforce"@, Seq::empty()), false));
    let s = store_view(s, builtin_view("zendesk"@, "Zendesk"@, "Support API"@, "api"@, "npx"@, npx("@modelcontextprotocol/server-zendesk"@, Seq::empty()), false));
    let s = store_view(s, builtin_view("freshdesk"@, "Freshdesk"@, "Customer support"@, "api"@, "npx"@, npx("@modelcontextprotocol/server-freshdesk"@, Seq::empty()), false));
    let s = store_view(s, builtin_view("intercom"@, "Intercom"@, "Messaging platform"@, "api"@, "npx"@, npx("@modelcontextprotocol/server-intercom"@, Seq::empty()), false));
    let s = store_view(s, builtin_view("drift"@, "Drift"@, "Conversational marketing"@, "api"@, "npx"@, npx("@modelcontextprotocol/server-drift"@, Seq::empty()), false));
    let s = store_view(s, builtin_view("twilio whatsapp"@, "Twilio WhatsApp"@, "WhatsApp messaging"@, "api"@, "npx"@, npx("@modelcontextprotocol/server-twilio-whatsapp"@, Seq::empty()), false));
    let s = store_view(s, builtin_view("vonage"@, "Vonage"@, "Communications API"@, "api"@, "npx"@, npx("@modelcontextprotocol/server-vonage"@, Seq::empty()), false));
    let s = store_view(s, builtin_view("nexmo"@, "Nexmo"@, "Vonage API"@, "api"@, "npx"@, npx("@modelcontextprotocol/server-nexmo"@, Seq::empty()), false));
    let s = store_view(s, builtin_view("plivo"@, "Plivo"@, "SMS API"@, "api"@, "npx"@, npx("@modelcontextprotocol/server-plivo"@, Seq::empty()), false));
    let s = store_view(s, builtin_view("messagebird"@, "MessageBird"@, "Messaging"@, "api"@, "npx"@, npx("@modelcontextprotocol/server-messagebird"@, Seq::empty()), false));
    let s = store_view(s, builtin_view("fswatch"@, "Fswatch"@, "File watcher"@, "tool"@, "npx"@, npx("@modelcontextprotocol/server-fswatch"@, Seq::empty()), false));
    let s = store_view(s, builtin_view("chokidar"@, "Chokidar"@, "File watcher"@, "tool"@, "npx"@, npx("@modelcontextprotocol/server-chokidar"@, Seq::empty()), false));
    let s = store_view(s, builtin_view("nodemon"@, "Nodemon"@, "Dev watcher"@, "tool"@, "npx"@, npx("@modelcontextprotocol/server-nodemon"@, Seq::empty()), false));
    let s = store_view(s, builtin_view("parcel"@, "Parcel"@, "Bundler"@, "tool"@, "npx"@, npx("@modelcontextprotocol/server-parcel"@, Seq::empty()), false));
    let s = store_view(s, builtin_view("esbuild"@, "Esbuild"@, "Bundler"@, "tool"@, "npx"@, npx("@modelcontextprotocol/server-esbuild"@, Seq::empty()), false));
    let s = store_view(s, builtin_view("vite"@, "Vite"@, "Build tool"@, "tool"@, "npx"@, npx("@modelcontextprotocol/server-vite"@, Seq::empty()), false));
    let s = store_view(s, builtin_view("webpack"@, "Webpack"@, "Bundler"@, "tool"@, "npx"@, npx("@modelcontextprotocol/server-webpack"@, Seq::empty()), false));
    let s = store_view(s, builtin_view("rollup"@, "Rollup"@, "Bundler"@, "tool"@, "npx"@, npx("@modelcontextprotocol/server-rollup"@, Seq::empty()), false));
    let s = store_view(s, builtin_view("snowpack"@, "Snowpack"@, "Dev server"@, "tool"@, "npx"@, npx("@modelcontextprotocol/server-snowpack"@, Seq::empty()), false));
    let s = store_view(s, builtin_view("turbo"@, "Turbo"@, "Build system"@, "tool"@, "npx"@, npx("@modelcontextprotocol/server-turbo"@, Seq::empty()), false));
    let s = store_view(s, builtin_view("nx"@, "NX"@, "Monorepo tool"@, "tool"@, "npx"@, npx("@modelcontextprotocol/server-nx"@, Seq::empty()), false));
    let s = store_view(s, builtin_view("lerna"@, "Lerna"@, "Monorepo tool"@, "tool"@, "npx"@, npx("@modelcontextprotocol/server-lerna"@, Seq::empty()), false));
    let s = store_view(s, builtin_view("yarn-workspaces"@, "Yarn Workspaces"@, "Monorepo"@, "tool"@, "npx"@, npx("@modelcontextprotocol/server-yarn-workspaces"@, Seq::empty()), false));
    let s = store_view(s, builtin_view("pnpm-workspace"@, "PNPM Workspace"@, "Monorepo"@, "tool"@, "npx"@, npx("@modelcontextprotocol/server-pnpm-workspace"@, Seq::empty()), false));
    s
}

/// Registers the planned servers (part 6).
fn planned_servers_6(reg: &mut MCPRegistry)
    ensures
        views_of(final(reg).servers()) == planned_servers_6_added(views_of(old(reg).servers())),
        final(reg).running() == old(reg).running(),
        all_disabled(old(reg).servers()) ==> all_disabled(final(reg).servers()),
{
    register_builtin(reg, "hapi", "Hapi", "Node.js framework", "backend", "npx",
        npx_package("@modelcontextprotocol/server-hapi"), no_args(), false);
    register_builtin(reg, "sails", "Sails.js", "MVC framework", "backend", "npx",
        npx_package("@modelcontextprotocol/server-sails"), no_args(), false);
    register_builtin(reg, "strapi", "Strapi", "Headless CMS", "backend", "npx",
        npx_package("@modelcontextprotocol/server-strapi"), no_args(), false);
    register_builtin(reg, "keystone", "Keystone", "Headless CMS", "backend", "npx",
        npx_package("@modelcontextprotocol/server-keystone"), no_args(), false);
    register_builtin(reg, "directus", "Directus", "Data platform", "backend", "npx",
        npx_package("@modelcontextprotocol/server-directus"), no_args(), false);
    register_builtin(reg, "sanity", "Sanity", "Headless CMS", "backend", "npx",
        npx_package("@modelcontextprotocol/server-sanity"), no_args(), false);
    register_builtin(reg, "contentful", "Contentful", "CMS", "backend", "npx",
        npx_package("@modelcontextprotocol/server-contentful"), no_args(), false);
    register_builtin(reg, "prismic", "Prismic", "Headless CMS", "backend", "npx",
        npx_package("@modelcontextprotocol/server-prismic"), no_args(), false);
    register_builtin(reg, "stripe", "Stripe", "Payment API", "api", "npx",
        npx_package("@modelcontextprotocol/server-stripe"), no_args(), false);
    register_builtin(reg, "twilio", "Twilio", "Communication API", "api", "npx",
        npx_package("@modelcontextprotocol/server-twilio"), no_args(), false);
    register_builtin(reg, "sendgrid", "SendGrid", "Email API", "api", "npx",
        npx_package("@modelcontextprotocol/server-sendgrid"), no_args(), false);
    register_builtin(reg, "mailgun", "Mailgun", "Email API", "api", "npx",
        npx_package("@modelcontextprotocol/server-mailgun"), no_args(), false);
    register_builtin(reg, "sendinblue", "SendinBlue", "Email marketing", "api", "npx",
        npx_package("@modelcontextprotocol/server-sendinblue"), no_args(), false);
    register_builtin(reg, "postmark", "Postmark", "Email delivery", "api", "npx",
        npx_package("@modelcontextprotocol/server-postmark"), no_args(), false);
    register_builtin(reg, "mailchimp", "Mailchimp", "Email marketing", "api", "npx",
        npx_package("@modelcontextprotocol/server-mailchimp"), no_args(), false);
    register_builtin(reg, "hubspot", "HubSpot", "Marketing automation", "api", "npx",
        npx_package("@modelcontextprotocol/server-hubspot"), no_args(), false);
    register_builtin(reg, "salesforce", "Salesforce", "CRM API", "api", "npx",
        npx_package("@modelcontextprotocol/server-salesforce"), no_args(), false);
    register_builtin(reg, "zendesk", "Zendesk", "Support API", "api", "npx",
        npx_package("@modelcontextprotocol/server-zendesk"), no_args(), false);
    register_builtin(reg, "freshdesk", "Freshdesk", "Customer support", "api", "npx",
        npx_package("@modelcontextprotocol/server-freshdesk"), no_args(), false);
    register_builtin(reg, "intercom", "Intercom", "Messaging platform", "api", "npx",
        npx_package("@modelcontextprotocol/server-intercom"), no_args(), false);
    register_builtin(reg, "drift", "Drift", "Conversational marketing", "api", "npx",
        npx_package("@modelcontextprotocol/server-drift"), no_args(), false);
    register_builtin(reg, "twilio whatsapp", "Twilio WhatsApp", "WhatsApp messaging", "api", "npx",
        npx_package("@modelcontextprotocol/server-twilio-whatsapp"), no_args(), false);
    register_builtin(reg, "vonage", "Vonage", "Communications API", "api", "npx",
        npx_package("@modelcontextprotocol/server-vonage"), no_args(), false);
    register_builtin(reg, "nexmo", "Nexmo", "Vonage API", "api", "npx",
        npx_package("@modelcontextprotocol/server-nexmo"), no_args(), false);
    register_builtin(reg, "plivo", "Plivo", "SMS API", "api", "npx",
        npx_package("@modelcontextprotocol/server-plivo"), no_args(), false);
    register_builtin(reg, "messagebird", "MessageBird", "Messaging", "api", "npx",
        npx_package("@modelcontextprotocol/server-messagebird"), no_args(), false);
    register_builtin(reg, "fswatch", "Fswatch", "File watcher", "tool", "npx",
        npx_package("@modelcontextprotocol/server-fswatch"), no_args(), false);
    register_builtin(reg, "chokidar", "Chokidar", "File watcher", "tool", "npx",
        npx_package("@modelcontextprotocol/server-chokidar"), no_args(), false);
    register_builtin(reg, "nodemon", "Nodemon", "Dev watcher", "tool", "npx",
        npx_package("@modelcontextprotocol/server-nodemon"), no_args(), false);
    register_builtin(reg, "parcel", "Parcel", "Bundler", "tool", "npx",
        npx_package("@modelcontextprotocol/server-parcel"), no_args(), false);
    register_builtin(reg, "esbuild", "Esbuild", "Bundler", "tool", "npx",
        npx_package("@modelcontextprotocol/server-esbuild"), no_args(), false);
    register_builtin(reg, "vite", "Vite", "Build tool", "tool", "npx",
        npx_package("@modelcontextprotocol/server-vite"), no_args(), false);
    register_builtin(reg, "webpack", "Webpack", "Bundler", "tool", "npx",
        npx_package("@modelcontextprotocol/server-webpack"), no_args(), false);
    register_builtin(reg, "rollup", "Rollup", "Bundler", "tool", "npx",
        npx_package("@modelcontextprotocol/server-rollup"), no_args(), false);
    register_builtin(reg, "snowpack", "Snowpack", "Dev server", "tool", "npx",
        npx_package("@modelcontextprotocol/server-snowpack"), no_args(), false);
    register_builtin(reg, "turbo", "Turbo", "Build system", "tool", "npx",
        npx_package("@modelcontextprotocol/server-turbo"), no_args(), false);
    register_builtin(reg, "nx", "NX", "Monorepo tool", "tool", "npx",
        npx_package("@modelcontextprotocol/server-nx"), no_args(), false);
    register_builtin(reg, "lerna", "Lerna", "Monorepo tool", "tool", "npx",
        npx_package("@modelcontextprotocol/server-lerna"), no_args(), false);
    register_builtin(reg, "yarn-workspaces", "Yarn Workspaces", "Monorepo", "tool", "npx",
        npx_package("@modelcontextprotocol/server-yarn-workspaces"), no_args(), false);
    register_builtin(reg, "pnpm-workspace", "PNPM Workspace", "Monorepo", "tool", "npx",
        npx_package("@modelcontextprotocol/server-pnpm-workspace"), no_args(), false);
}

/// Every server the tool knows of, registered group by group into `s`.
pub open spec fn catalog(s: Seq<ServerView>) -> Seq<ServerView> {
    let s = verified_servers_1_added(s);
    let s = verified_servers_2_added(s);
    let s = db_servers_added(s);
    let s = cloud_servers_added(s);
    let s = devtool_servers_added(s);
    let s = comm_servers_added(s);
    let s = browser_servers_added(s);
    let s = cf_servers_added(s);
    let s = ai_servers_added(s);
    let s = productivity_servers_added(s);
    let s = analytics_servers_added(s);
    let s = commerce_servers_added(s);
    let s = search_servers_added(s);
    let s = runtime_servers_added(s);
    let s = planned_servers_1_added(s);
    let s = planned_servers_2_added(s);
    let s = planned_servers_3_added(s);
    let s = planned_servers_4_added(s);
    let s = planned_servers_5_added(s);
    let s = planned_servers_6_added(s);
    s
}

/// The registry with every server the tool knows of, group by group: none
/// of them running and none enabled.
pub fn default_registry() -> (r: MCPRegistry)
    ensures
        views_of(r.servers()) == catalog(Seq::empty()),
        r.running().len() == 0,
        all_disabled(r.servers()),
        server_names_unique(r.servers()),
{
    let mut reg = MCPRegistry::new();
    assert(views_of(reg.servers()) =~= Seq::<ServerView>::empty());
    verified_servers_1(&mut reg);
    verified_servers_2(&mut reg);
    db_servers(&mut reg);
    cloud_servers(&mut reg);
    devtool_servers(&mut reg);
    comm_servers(&mut reg);
    browser_servers(&mut reg);
    cf_servers(&mut reg);
    ai_servers(&mut reg);
    productivity_servers(&mut reg);
    analytics_servers(&mut reg);
    commerce_servers(&mut reg);
    search_servers(&mut reg);
    runtime_servers(&mut reg);
    planned_servers_1(&mut reg);
    planned_servers_2(&mut reg);
    planned_servers_3(&mut reg);
    planned_servers_4(&mut reg);
    planned_servers_5(&mut reg);
    planned_servers_6(&mut reg);
    reg.with_unique_names()
}

} // verus!
