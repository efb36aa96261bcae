use agent_core::config_types::Language;
use agent_core::i18n::{
    flatten, insert_list, insert_string, interpolate, language_name, lookup, tr, tr_args, tr_list,
    Catalog, CatalogNode, Catalogs,
};

fn table(entries: Vec<(&str, CatalogNode)>) -> CatalogNode {
    CatalogNode::Table(entries.into_iter().map(|(k, v)| (k.to_string(), v)).collect())
}

fn text(s: &str) -> CatalogNode {
    CatalogNode::Text(s.to_string())
}

fn en_document() -> CatalogNode {
    table(vec![
        (
            "language",
            table(vec![("name", table(vec![("en", text("English")), ("zh_cn", text("Chinese"))]))]),
        ),
        ("greeting", text("Hello ${name}")),
        ("only_en", text("English only")),
        ("tips", CatalogNode::List(vec![text("one"), text("two")])),
    ])
}

fn zh_document() -> CatalogNode {
    table(vec![
        (
            "language",
            table(vec![("name", table(vec![("en", text("英文")), ("zh_cn", text("简体中文"))]))]),
        ),
        ("greeting", text("你好 ${name}")),
        ("only_en", text("仅英文")),
        ("tips", CatalogNode::List(vec![text("一")])),
    ])
}

fn catalogs() -> Catalogs {
    Catalogs {
        en: Catalog::from_node(&en_document()).expect("en catalog"),
        zh_cn: Catalog::from_node(&zh_document()).expect("zh catalog"),
    }
}

#[test]
fn catalogs_share_keys() {
    let c = catalogs();
    let en_keys = c.en.keys();
    let zh_keys = c.zh_cn.keys();
    assert_eq!(en_keys, zh_keys);
}

#[test]
fn interpolate_replaces_placeholders() {
    let rendered = interpolate("Hello ${name}", &[("name", "World")]);
    assert_eq!(rendered, "Hello World");
}

#[test]
fn interpolate_keeps_unknown_and_unclosed_placeholders() {
    assert_eq!(interpolate("a ${x} b", &[("y", "1")]), "a ${x} b");
    assert_eq!(interpolate("a ${x", &[("x", "1")]), "a ${x");
    assert_eq!(interpolate("${a}${b}", &[("a", "1"), ("b", "2"), ("a", "3")]), "12");
    assert_eq!(interpolate("", &[]), "");
}

#[test]
fn keys_are_sorted_and_unique() {
    let c = catalogs();
    assert_eq!(
        c.en.keys(),
        vec![
            "greeting".to_string(),
            "language.name.en".to_string(),
            "language.name.zh_cn".to_string(),
            "only_en".to_string(),
            "tips".to_string(),
        ]
    );
}

#[test]
fn lookup_falls_back_to_english_then_key() {
    let mut zh = Catalog::new();
    assert!(insert_string("greeting", "你好", &mut zh));
    let c = Catalogs { en: Catalog::from_node(&en_document()).unwrap(), zh_cn: zh };
    assert_eq!(tr(&c, Language::ZhCn, "greeting"), "你好");
    assert_eq!(tr(&c, Language::ZhCn, "only_en"), "English only");
    assert_eq!(tr(&c, Language::ZhCn, "missing.key"), "missing.key");
    assert_eq!(lookup(&c, Language::En, "missing.key"), None);
    assert_eq!(tr_args(&c, Language::En, "greeting", &[("name", "Ada")]), "Hello Ada");
    assert_eq!(language_name(&c, Language::En, Language::ZhCn), "Chinese");
}

#[test]
fn lists_fall_back_to_english() {
    let mut zh = Catalog::new();
    assert!(insert_string("x", "y", &mut zh));
    let c = Catalogs { en: Catalog::from_node(&en_document()).unwrap(), zh_cn: zh };
    assert_eq!(tr_list(&c, Language::ZhCn, "tips"), vec!["one".to_string(), "two".to_string()]);
    assert!(tr_list(&c, Language::En, "nothing").is_empty());
    let full = catalogs();
    assert_eq!(tr_list(&full, Language::ZhCn, "tips"), vec!["一".to_string()]);
}

#[test]
fn duplicate_keys_are_refused() {
    let mut c = Catalog::new();
    assert!(insert_string("a", "1", &mut c));
    assert!(!insert_string("a", "2", &mut c));
    assert!(insert_list("a", vec!["x".to_string()], &mut c));
    assert!(!insert_list("a", vec![], &mut c));
    assert_eq!(c.lookup_text("a"), Some("1".to_string()));
}

#[test]
fn malformed_documents_are_rejected() {
    assert!(Catalog::from_node(&text("unkeyed")).is_err());
    assert!(Catalog::from_node(&table(vec![("a", CatalogNode::Other)])).is_err());
    assert!(Catalog::from_node(&table(vec![("a", CatalogNode::List(vec![CatalogNode::Other]))])).is_err());
    let mut c = Catalog::new();
    assert!(insert_string("a.b", "x", &mut c));
    assert!(flatten(None, &table(vec![("a", table(vec![("b", text("y"))]))]), &mut c).is_err());
}
