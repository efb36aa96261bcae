use agent_core::config_types::Language;
use agent_core::i18n::{Catalog, Catalogs, insert_string};
use agent_core::tooltips::{
    experimental_tooltip, get_tooltip, pick_tooltip, pick_tooltip_at, select_announcement,
    tooltip_for, AnnouncementTip, AnnouncementTipRaw, Feature, PlanType,
};

fn tips() -> Vec<String> {
    vec!["first tip".to_string(), "second tip".to_string(), "third tip".to_string()]
}

fn catalogs() -> Catalogs {
    let mut en = Catalog::new();
    insert_string("tooltips.promo.paid", "Thanks for subscribing", &mut en);
    insert_string("tooltips.promo.free_go", "Upgrade for more", &mut en);
    insert_string("tooltips.experimental.collab", "Try collaboration", &mut en);
    Catalogs { en, zh_cn: Catalog::new() }
}

fn raw(content: &str) -> AnnouncementTipRaw {
    AnnouncementTipRaw {
        content: content.to_string(),
        from_date: None,
        to_date: None,
        version_regex: None,
        target_app: None,
    }
}

#[test]
fn random_tooltip_returns_some_tip_when_available() {
    let picked = pick_tooltip(&tips());
    assert!(picked.is_some());
    assert!(tips().contains(&picked.unwrap()));
    assert_eq!(pick_tooltip(&Vec::new()), None);
}

#[test]
fn random_tooltip_is_reproducible_with_seed() {
    let expected = pick_tooltip_at(&tips(), 7);
    assert_eq!(expected, pick_tooltip_at(&tips(), 7));
    assert_eq!(expected, Some("second tip".to_string()));
}

#[test]
fn tooltip_prefers_promo_then_announcement() {
    let c = catalogs();
    assert_eq!(
        tooltip_for(&c, Some(PlanType::Pro), Language::En, true, Some("news".to_string()), None),
        Some("Thanks for subscribing".to_string())
    );
    assert_eq!(
        tooltip_for(&c, Some(PlanType::Free), Language::En, false, Some("news".to_string()), None),
        Some("news".to_string())
    );
    assert_eq!(
        tooltip_for(&c, None, Language::En, false, None, Some("tip".to_string())),
        Some("tip".to_string())
    );
    let any = get_tooltip(&c, Some(PlanType::Go), Language::En, &tips(), None).unwrap();
    assert!(any == "Upgrade for more" || tips().contains(&any));
    assert_eq!(
        experimental_tooltip(&c, Feature::Collab, Language::ZhCn),
        Some("Try collaboration".to_string())
    );
    assert_eq!(experimental_tooltip(&c, Feature::Other, Language::En), None);
}

#[test]
fn announcement_dates_and_versions() {
    let mut r = raw("  latest match  ");
    r.from_date = Some("2000-01-01".to_string());
    r.to_date = Some("2000-01-03".to_string());
    r.version_regex = Some("^1\\.".to_string());
    r.target_app = Some("CLI".to_string());
    let tip = AnnouncementTip::from_raw(r).expect("readable");
    assert_eq!(tip.content, "latest match");
    assert_eq!(tip.target_app, "cli");
    let first = tip.from_day.unwrap();
    assert_eq!(tip.to_day.unwrap() - first, 2);
    assert!(!tip.date_matches(first - 1));
    assert!(tip.date_matches(first));
    assert!(tip.date_matches(first + 1));
    assert!(!tip.date_matches(first + 2));
    assert!(tip.version_matches("1.2.3"));
    assert!(!tip.version_matches("2.0.0"));

    let mut bad_date = raw("x");
    bad_date.from_date = Some("yesterday".to_string());
    assert!(AnnouncementTip::from_raw(bad_date).is_none());
    let mut bad_regex = raw("x");
    bad_regex.version_regex = Some("(".to_string());
    assert!(AnnouncementTip::from_raw(bad_regex).is_none());
    assert!(AnnouncementTip::from_raw(raw("   ")).is_none());
}

#[test]
fn announcement_selection_takes_last_match() {
    let mut other_app = raw("for the desktop app");
    other_app.target_app = Some("desktop".to_string());
    let raws = vec![raw("older"), raw("latest match"), other_app, raw("  ")];
    assert_eq!(select_announcement(raws, "1.0.0", 740000), Some("latest match".to_string()));
    assert_eq!(select_announcement(vec![], "1.0.0", 740000), None);
}

#[test]
fn experimental_tips_follow_announced_features() {
    let c = catalogs();
    let features = vec![
        (Feature::Collab, true),
        (Feature::Apps, false),
        (Feature::Other, true),
        (Feature::ShellSnapshot, true),
    ];
    assert_eq!(
        agent_core::tooltips::experimental_tooltips(&c, &features, Language::En),
        vec!["Try collaboration".to_string(), "tooltips.experimental.shell_snapshot".to_string()]
    );
}
