use shared_assets::xtask::apps::{copies_style_entry, is_excluded_app_dir, receives_styles};
use shared_assets::xtask::engine::{any_file_matches, md5_hex, md5_hex_equals, multiline_pattern, total_matches};
use shared_assets::xtask::icons::{
    check_app_icons, fix_index_html, index_findings, plan_icon_sync, plan_icon_syncs, FileState, IconCheckInput,
    IconFinding, IconSyncInput, IndexFix, SkipReason, TextFile, RED_CHECK_MD5,
};
use shared_assets::xtask::links::{check_appshell_links, LinkCheckInput, LinkFinding};

#[test]
fn md5_hex_known_values() {
    assert_eq!(md5_hex(b""), "d41d8cd98f00b204e9800998ecf8427e");
    assert_eq!(md5_hex(b"abc"), "900150983cd24fb0d6963f7d28e17f72");
    assert!(md5_hex_equals(b"abc", "900150983cd24fb0d6963f7d28e17f72"));
    assert!(!md5_hex_equals(b"abd", "900150983cd24fb0d6963f7d28e17f72"));
    assert_eq!(RED_CHECK_MD5.len(), 32);
}

#[test]
fn excluded_dirs() {
    assert!(is_excluded_app_dir("shared-assets"));
    assert!(is_excluded_app_dir("studio2201.github.io"));
    assert!(is_excluded_app_dir(".github"));
    assert!(!is_excluded_app_dir("probe"));
    assert!(copies_style_entry("themes"));
    assert!(!copies_style_entry(".git"));
    assert!(receives_styles(false, false, true));
    assert!(!receives_styles(false, false, false));
}

#[test]
fn multiline_matching_over_files() {
    assert_eq!(multiline_pattern("^x"), "(?m)^x");
    let files = vec!["fn a() {}\n    version,\n".to_string(), "AppShell".to_string()];
    assert_eq!(any_file_matches("^\\s+version,", &files), Some(true));
    assert_eq!(any_file_matches("nothing-here", &files), Some(false));
    assert_eq!(any_file_matches("(", &files), None);
    let hits = vec![
        "repo: Some(\"probe\") repo: Some(\"probe\")".to_string(),
        "repo: Some(\"probe\")".to_string(),
    ];
    assert_eq!(total_matches("repo: Some\\(\"probe\"", &hits), Some(3));
}

fn web_app(index: &str) -> IconCheckInput {
    IconCheckInput {
        has_frontend: true,
        has_dashboard: false,
        favicon_png: FileState::Bytes(b"png".to_vec()),
        favicon_jpg: FileState::Missing,
        icon_png: FileState::Bytes(b"png".to_vec()),
        favicon_svg: FileState::Missing,
        index_html: TextFile::Text(index.to_string()),
    }
}

#[test]
fn icon_check_passes_compliant_app() {
    let r = check_app_icons(&web_app("<link rel=\"icon\" href=\"favicon.png\">"), false);
    assert_eq!(r.findings, vec![IconFinding::Passed]);
    assert!(!r.failed);
    let r = check_app_icons(&web_app("<link rel=\"icon\" href=\"favicon.png\">"), true);
    assert!(r.findings.is_empty());
    assert!(r.failed);
}

#[test]
fn icon_check_reports_problems() {
    let mut inp = web_app("<link rel=\"icon\" type=\"image/svg+xml\" href=\"favicon.svg\">");
    inp.icon_png = FileState::Bytes(b"other".to_vec());
    let r = check_app_icons(&inp, false);
    assert_eq!(
        r.findings,
        vec![
            IconFinding::FaviconDiffersFromIcon,
            IconFinding::IndexPrefersSvg,
            IconFinding::IndexMissingPngReference
        ]
    );
    assert!(r.failed);

    let none = IconCheckInput {
        has_frontend: false,
        has_dashboard: false,
        favicon_png: FileState::Missing,
        favicon_jpg: FileState::Missing,
        icon_png: FileState::Missing,
        favicon_svg: FileState::Missing,
        index_html: TextFile::Missing,
    };
    let r = check_app_icons(&none, false);
    assert_eq!(r.findings, vec![IconFinding::SkippedNoWebUi]);
    assert!(!r.failed);

    let mut no_fav = web_app("");
    no_fav.favicon_png = FileState::Missing;
    no_fav.icon_png = FileState::Missing;
    let r = check_app_icons(&no_fav, false);
    assert_eq!(r.findings, vec![IconFinding::MissingFavicon]);
    assert!(r.failed);
}

#[test]
fn jpg_favicon_is_not_compared_with_icon() {
    let mut inp = web_app("favicon.png");
    inp.favicon_png = FileState::Missing;
    inp.favicon_jpg = FileState::Bytes(b"jpg".to_vec());
    let r = check_app_icons(&inp, false);
    assert_eq!(r.findings, vec![IconFinding::Passed]);
}

#[test]
fn index_findings_first_icon_line_decides() {
    let png_first = "<link rel=\"icon\" href=\"favicon.png\">\n<link rel=\"icon\" type=\"image/svg+xml\" href=\"x.svg\">";
    assert_eq!(index_findings(png_first), Some(vec![]));
    let svg_first = "<link rel=\"icon\" type=\"image/svg+xml\" href=\"x.SVG\">\n<link rel=\"icon\" href=\"favicon.png\">";
    assert_eq!(index_findings(svg_first), Some(vec![IconFinding::IndexPrefersSvg]));
}

#[test]
fn fix_index_adds_png_links_after_title() {
    let html = "<head>\n<title>App</title>\n</head>";
    match fix_index_html(html) {
        IndexFix::Rewrite(s) => assert_eq!(
            s,
            "<head>\n<title>App</title>\n    <link rel=\"icon\" type=\"image/png\" href=\"favicon.png\" />\n    <link rel=\"apple-touch-icon\" href=\"favicon.png\" />\n</head>"
        ),
        _ => panic!("expected a rewrite"),
    }
}

#[test]
fn fix_index_drops_svg_and_adds_trunk_copy() {
    let html = "<head>\n<link rel=\"icon\" type=\"image/svg+xml\" href=\"favicon.svg\" />\n<link data-trunk rel=\"icon\" href=\"favicon.png\" />\n</head>";
    match fix_index_html(html) {
        IndexFix::Rewrite(s) => assert_eq!(
            s,
            "<head>\n    <link data-trunk rel=\"copy-file\" href=\"../assets/favicon.png\" />\n<link data-trunk rel=\"icon\" href=\"favicon.png\" />\n</head>"
        ),
        _ => panic!("expected a rewrite"),
    }
}

#[test]
fn fix_index_leaves_compliant_page() {
    let html = "<link rel=\"icon\" type=\"image/png\" href=\"favicon.png\" />\n<link rel=\"apple-touch-icon\" href=\"favicon.png\" />";
    assert!(matches!(fix_index_html(html), IndexFix::Unchanged));
}

#[test]
fn fix_index_adds_apple_icon_after_png_link() {
    let html = "<link rel=\"icon\" type=\"image/png\" href=\"favicon.png\" />";
    match fix_index_html(html) {
        IndexFix::Rewrite(s) => assert_eq!(
            s,
            "<link rel=\"icon\" type=\"image/png\" href=\"favicon.png\" />\n    <link rel=\"apple-touch-icon\" href=\"favicon.png\" />"
        ),
        _ => panic!("expected a rewrite"),
    }
}

#[test]
fn fix_index_refuses_to_empty_page() {
    let html = "<link rel=\"icon\" href=\"favicon.svg\" />";
    assert!(matches!(fix_index_html(html), IndexFix::RefusedEmpty));
}

#[test]
fn sync_plan_decisions() {
    let inp = IconSyncInput {
        has_frontend: true,
        has_dashboard: false,
        has_assets: true,
        icon_png: Some(b"new".to_vec()),
        favicon_png: Some(b"old".to_vec()),
        has_favicon_jpg: false,
        favicon_svg: FileState::Missing,
        index_html: None,
    };
    let p = plan_icon_sync(&inp);
    assert!(p.skip.is_none());
    assert!(p.copy_icon_to_favicon);
    assert!(!p.warn_missing_icons);
    assert!(!p.remove_legacy_svg);
    assert!(p.index.is_none());

    let same = IconSyncInput { favicon_png: Some(b"new".to_vec()), ..inp };
    assert!(!plan_icon_sync(&same).copy_icon_to_favicon);

    let bare = IconSyncInput {
        has_frontend: false,
        has_dashboard: true,
        has_assets: true,
        icon_png: None,
        favicon_png: None,
        has_favicon_jpg: false,
        favicon_svg: FileState::Missing,
        index_html: Some(String::new()),
    };
    let p = plan_icon_sync(&bare);
    assert!(p.warn_missing_icons);
    assert!(!p.copy_icon_to_favicon);
    assert!(matches!(p.index, Some(IndexFix::Unchanged)));

    let no_assets = IconSyncInput { has_assets: false, ..bare };
    assert_eq!(plan_icon_sync(&no_assets).skip, Some(SkipReason::NoAssets));
}

#[test]
fn appshell_links_frontend_app() {
    let good = LinkCheckInput {
        name: "probe".to_string(),
        has_dashboard: false,
        dashboard_page: None,
        scripts_actions: None,
        frontend_sources: Some(vec![
            "AppShell { header: HeaderProps { repo: Some(\"probe\".into()) } }".to_string(),
            "FooterProps { repo: Some(\"probe\".into()), show_version: true, version: Some(v) }".to_string(),
        ]),
    };
    let r = check_appshell_links(&good);
    assert_eq!(r.findings, vec![LinkFinding::Passed(2)]);
    assert!(!r.failed);

    let bad = LinkCheckInput {
        name: "probe".to_string(),
        has_dashboard: false,
        dashboard_page: None,
        scripts_actions: None,
        frontend_sources: Some(vec!["fn main() {}".to_string()]),
    };
    let r = check_appshell_links(&bad);
    assert_eq!(
        r.findings,
        vec![
            LinkFinding::NoAppShell,
            LinkFinding::RepoPropsMissing(0),
            LinkFinding::MissingShowVersion,
            LinkFinding::MissingVersionValue
        ]
    );
    assert!(r.failed);
}

#[test]
fn appshell_links_server_rendered_and_skip() {
    let ok = LinkCheckInput {
        name: "statesync".to_string(),
        has_dashboard: true,
        dashboard_page: Some("a href=\"https://github.com/studio2201/statesync\"".to_string()),
        scripts_actions: Some("releases/tag/v".to_string()),
        frontend_sources: None,
    };
    assert_eq!(check_appshell_links(&ok).findings, vec![LinkFinding::ServerRenderedOk]);
    let missing = LinkCheckInput { dashboard_page: None, ..ok };
    let r = check_appshell_links(&missing);
    assert_eq!(r.findings, vec![LinkFinding::MissingDashboardPage]);
    assert!(r.failed);
    let skip = LinkCheckInput {
        name: "cli".to_string(),
        has_dashboard: false,
        dashboard_page: None,
        scripts_actions: None,
        frontend_sources: None,
    };
    let r = check_appshell_links(&skip);
    assert_eq!(r.findings, vec![LinkFinding::SkippedNoWebUi]);
    assert!(!r.failed);
}

#[test]
fn run_fails_only_when_an_index_would_be_emptied() {
    let app = |index: &str| IconSyncInput {
        has_frontend: true,
        has_dashboard: false,
        has_assets: true,
        icon_png: None,
        favicon_png: Some(b"png".to_vec()),
        has_favicon_jpg: false,
        favicon_svg: FileState::Missing,
        index_html: Some(index.to_string()),
    };
    let compliant = "<title>x</title>\n<link rel=\"icon\" type=\"image/png\" href=\"favicon.png\" />\n<link rel=\"apple-touch-icon\" href=\"favicon.png\" />";
    let all_svg = "<link rel=\"icon\" href=\"favicon.svg\" />";
    let (plans, failed) = plan_icon_syncs(&vec![app(compliant), app(compliant)]);
    assert_eq!(plans.len(), 2);
    assert!(!failed);
    assert!(matches!(plans[0].index, Some(IndexFix::Unchanged)));
    let (plans, failed) = plan_icon_syncs(&vec![app(compliant), app(all_svg)]);
    assert!(failed);
    assert!(matches!(plans[1].index, Some(IndexFix::RefusedEmpty)));
    let (_, failed) = plan_icon_syncs(&Vec::new());
    assert!(!failed);
}
