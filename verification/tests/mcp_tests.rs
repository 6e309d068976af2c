use devutils::mcp::{
    add_custom_server, add_server, get_server, list_by_category, list_servers, search_servers,
    server_count, MCPRegistry, MCPServerConfig,
};

fn config(name: &str, category: &str) -> MCPServerConfig {
    MCPServerConfig {
        name: name.to_string(),
        display_name: format!("{} Server", name.to_uppercase()),
        description: "Does things".to_string(),
        category: category.to_string(),
        command: "npx".to_string(),
        args: vec![],
        env: vec![],
        enabled: true,
        official: false,
    }
}

#[test]
fn servers_are_listed_by_category_then_name() {
    let mut reg = MCPRegistry::new();
    add_server(&mut reg, config("zeta", "b"));
    add_server(&mut reg, config("beta", "b"));
    add_server(&mut reg, config("alpha", "c"));
    add_server(&mut reg, config("omega", "a"));
    let names: Vec<String> = list_servers(&reg).into_iter().map(|c| c.name).collect();
    assert_eq!(names, vec!["omega", "beta", "zeta", "alpha"]);
}

#[test]
fn adding_twice_is_refused() {
    let mut reg = MCPRegistry::new();
    assert_eq!(add_server(&mut reg, config("git", "vcs")), "{\"success\": \"Added MCP server: GIT Server\"}");
    assert_eq!(add_server(&mut reg, config("git", "vcs")), "{\"error\": \"Server 'git' already exists\"}");
    assert_eq!(server_count(&reg), 1);
    assert_eq!(
        add_custom_server(&mut reg, "git", "Git", "d", "vcs", "cmd", vec![]),
        "{\"error\": \"Server 'git' already exists\"}"
    );
}

#[test]
fn search_ignores_case_of_display_name() {
    let mut reg = MCPRegistry::new();
    add_server(&mut reg, config("git", "vcs"));
    add_server(&mut reg, config("db", "data"));
    assert_eq!(search_servers(&reg, "GIT SERVER").len(), 1);
    assert_eq!(search_servers(&reg, "things").len(), 2);
    assert_eq!(list_by_category(&reg, "data")[0].name, "db");
    assert!(get_server(&reg, "db").is_some());
    assert!(get_server(&reg, "nope").is_none());
}

#[test]
fn default_registry_holds_the_catalog() {
    let reg = devutils::mcp_catalog::default_registry();
    assert_eq!(server_count(&reg), 330);
    let fs = get_server(&reg, "filesystem").unwrap();
    assert_eq!(fs.args, vec!["-y".to_string(), "@modelcontextprotocol/server-filesystem".to_string(), "/tmp".to_string()]);
    assert!(fs.official);
    assert!(!fs.enabled);
    let later = get_server(&reg, "anthropic").unwrap();
    assert_eq!(later.display_name, "Anthropic Models");
    assert!(!later.official);
    assert!(list_servers(&reg).iter().all(|s| !s.enabled));
}
