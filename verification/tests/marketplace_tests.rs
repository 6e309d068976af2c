use devutils::marketplace::{install, plugin_count, Marketplace};

#[test]
fn test_marketplace_search() {
    let mp = Marketplace::new(".cache".to_string());
    let results = mp.search("docker");
    assert!(!results.is_empty());
}

#[test]
fn test_marketplace_featured() {
    let mp = Marketplace::new(".cache".to_string());
    let featured = mp.featured();
    assert!(!featured.is_empty());
}

#[test]
fn builtin_catalogue_has_twenty_five_plugins() {
    let mp = Marketplace::new(".cache".to_string());
    assert_eq!(plugin_count(&mp), 25);
}

#[test]
fn installing_unknown_plugin_fails() {
    let mut mp = Marketplace::new(".cache".to_string());
    assert!(install(&mut mp, "no-such-plugin").is_err());
}

#[test]
fn categories_are_sorted_and_distinct() {
    let mp = Marketplace::new(".cache".to_string());
    let cats = mp.categories();
    for w in cats.windows(2) {
        assert!(w[0] < w[1]);
    }
}
