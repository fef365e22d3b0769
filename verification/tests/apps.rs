use capyshell::apps::catalog::{get_app, get_icon, strip_suffix_all, AppCatalog, AppEvent};
use capyshell::apps::desktop_entry::{parse_desktop_entry, DesktopApp};
use capyshell::apps::icons::IconTheme;
use capyshell::apps::settings::{
    get_preferred_icon_themes, read_gtkrc_theme, read_ini_value, strip_chars, ThemeSettings,
};
use capyshell::apps::theme_index::{parse_icon_theme_index, InheritanceWalk, ParsedIconTheme};
use std::path::PathBuf;

fn parse(content: &str) -> Option<DesktopApp> {
    parse_desktop_entry("app.desktop".to_string(), PathBuf::from("/usr/share/applications/app.desktop"), content)
}

const FIREFOX: &str = "[Desktop Entry]\nVersion=1.0\nName=Firefox\nComment=Browse the World Wide Web\nExec=firefox %u\nIcon=firefox\nTerminal=false\nType=Application\nCategories=Network;WebBrowser;\nKeywords=web;browser;internet\nStartupWMClass=firefox\n\n[Desktop Action new-window]\nName=New Window\nExec=firefox --new-window %u\n";

#[test]
fn desktop_entry_of_an_application() {
    let app = parse_desktop_entry(
        "firefox.desktop".to_string(),
        PathBuf::from("/usr/share/applications/firefox.desktop"),
        FIREFOX,
    )
    .unwrap();
    assert_eq!(app.id, "firefox.desktop");
    assert_eq!(app.name, "Firefox");
    assert_eq!(app.command, "firefox %u");
    assert_eq!(app.icon_name, Some("firefox".to_string()));
    assert_eq!(app.startup_wm_class, Some("firefox".to_string()));
    assert_eq!(app.comment, Some("Browse the World Wide Web".to_string()));
    assert_eq!(app.categories, vec!["Network", "WebBrowser", ""]);
    assert_eq!(app.keywords, vec!["web", "browser", "internet"]);
    assert!(!app.no_display);
    assert_eq!(app.desktop_file_path, PathBuf::from("/usr/share/applications/firefox.desktop"));
}

#[test]
fn desktop_entry_needs_type_name_and_command() {
    assert!(parse("[Desktop Entry]\nType=Application\nName=A\nExec=a\n").is_some());
    assert!(parse("[Desktop Entry]\nName=A\nExec=a\n").is_none());
    assert!(parse("[Desktop Entry]\nType=Link\nName=A\nExec=a\n").is_none());
    assert!(parse("[Desktop Entry]\nType=application\nName=A\nExec=a\n").is_none());
    assert!(parse("[Desktop Entry]\nType=Application\nExec=a\n").is_none());
    assert!(parse("[Desktop Entry]\nType=Application\nName=A\n").is_none());
    assert!(parse("").is_none());
    assert!(parse("Type=Application\nName=A\nExec=a\n").is_none());
}

#[test]
fn desktop_entry_reads_only_its_section() {
    let app = parse("[Other]\nName=Wrong\n[Desktop Entry]\nType=Application\nName=Right\nExec=run\n[Desktop Action x]\nName=Action\nExec=other\nIcon=hidden\n").unwrap();
    assert_eq!(app.name, "Right");
    assert_eq!(app.command, "run");
    assert_eq!(app.icon_name, None);
    let again = parse("[Desktop Entry]\nType=Application\nName=One\nExec=run\n[X]\nName=No\n[Desktop Entry]\nName=Two\n").unwrap();
    assert_eq!(again.name, "Two");
}

#[test]
fn desktop_entry_passes_over_blank_lines_and_comments() {
    let app = parse("# a comment\n\n   \n[Desktop Entry]\n#Name=Hidden\n  # indented comment\nType=Application\n\nName=A\nExec=a\nno equals sign here\n").unwrap();
    assert_eq!(app.name, "A");
}

#[test]
fn desktop_entry_trims_and_splits_at_the_first_equals_sign() {
    let app = parse("  [Desktop Entry]  \r\n  Type = Application \r\nName=  Spaced Out  \r\nExec=sh -c \"A=1 run\"\r\n\tIcon\t=\ticon\t\r\nNoDisplay= true\r\n").unwrap();
    assert_eq!(app.name, "Spaced Out");
    assert_eq!(app.command, "sh -c \"A=1 run\"");
    assert_eq!(app.icon_name, Some("icon".to_string()));
    assert!(app.no_display);
}

#[test]
fn desktop_entry_takes_the_last_of_a_repeated_key() {
    let app = parse("[Desktop Entry]\nType=Link\nName=First\nExec=a\nName=Second\nType=Application\n").unwrap();
    assert_eq!(app.name, "Second");
}

#[test]
fn desktop_entry_flags_and_lists() {
    let app = parse("[Desktop Entry]\nType=Application\nName=A\nExec=a\nNoDisplay=True\nCategories=\nKeywords=;;\n").unwrap();
    assert!(!app.no_display);
    assert_eq!(app.categories, vec![""]);
    assert_eq!(app.keywords, vec!["", "", ""]);
    let bare = parse("[Desktop Entry]\nType=Application\nName=A\nExec=a\n").unwrap();
    assert!(bare.categories.is_empty());
    assert!(bare.keywords.is_empty());
    assert_eq!(bare.comment, None);
    assert_eq!(bare.startup_wm_class, None);
    let localized = parse("[Desktop Entry]\nType=Application\nName[de]=Anwendung\nName=App\nExec=a\n[desktop entry]\nName=lower\n").unwrap();
    assert_eq!(localized.name, "App");
}

#[test]
fn desktop_entry_header_is_a_line_in_brackets() {
    let app = parse("[Desktop Entry]\nType=Application\nName=A\nExec=a\n[not closed\nName=B\n").unwrap();
    assert_eq!(app.name, "B");
    let closed = parse("[Desktop Entry]\nType=Application\nName=A\nExec=a\n[closed]\nName=B\n").unwrap();
    assert_eq!(closed.name, "A");
    let eq = parse("[Desktop Entry]\nType=Application\nName=A\nExec=a\n[k=v\n").unwrap();
    assert_eq!(eq.name, "A");
}

#[test]
fn desktop_entry_copy_is_equal() {
    let app = parse(FIREFOX).unwrap();
    let copy = app.copy();
    assert_eq!(format!("{:?}", app), format!("{:?}", copy));
}

fn theme(content: &str) -> (Vec<String>, Vec<String>) {
    let ParsedIconTheme { directories, inherits } = parse_icon_theme_index(content);
    (directories, inherits)
}

#[test]
fn theme_index_lists() {
    let (directories, inherits) = theme("[Icon Theme]\nName=Papirus\nInherits=breeze, hicolor\nDirectories=16x16/apps,22x22/apps , scalable/apps\n\n[16x16/apps]\nSize=16\nDirectories=wrong\n");
    assert_eq!(directories, vec!["16x16/apps", "22x22/apps", "scalable/apps"]);
    assert_eq!(inherits, vec!["breeze", "hicolor"]);
}

#[test]
fn theme_index_header_ignores_case() {
    let (directories, _) = theme("[icon theme]\nDirectories=a\n");
    assert_eq!(directories, vec!["a"]);
    let (directories, _) = theme("[ICON THEME]\nDirectories=a\n");
    assert_eq!(directories, vec!["a"]);
    let (directories, _) = theme("[Icon  Theme]\nDirectories=a\n");
    assert!(directories.is_empty());
}

#[test]
fn theme_index_keys_are_exact_and_the_last_counts() {
    let (directories, inherits) = theme("[Icon Theme]\ndirectories=a\nInherits=x\nInherits=\nDirectories=b,,c\n");
    assert_eq!(directories, vec!["b", "", "c"]);
    assert_eq!(inherits, vec![""]);
}

#[test]
fn theme_index_without_the_section() {
    let (directories, inherits) = theme("Directories=a\n[Other]\nInherits=b\n");
    assert!(directories.is_empty());
    assert!(inherits.is_empty());
    let (directories, inherits) = theme("");
    assert!(directories.is_empty());
    assert!(inherits.is_empty());
}

fn names(list: &[&str]) -> Vec<String> {
    list.iter().map(|s| s.to_string()).collect()
}

fn walk_all(start: &[&str], parents: &[(&str, &[&str])]) -> Vec<String> {
    let mut walk = InheritanceWalk::new(names(start));
    while let Some(theme) = walk.next_theme() {
        let inherited = parents.iter().find(|(name, _)| *name == theme).map(|(_, p)| names(p)).unwrap_or_default();
        walk.add_parents(inherited);
    }
    walk.into_order()
}

#[test]
fn inheritance_is_walked_breadth_first() {
    let order = walk_all(
        &["Papirus", "hicolor"],
        &[("Papirus", &["breeze", "Adwaita"]), ("breeze", &["hicolor", "gnome"]), ("Adwaita", &["hicolor"])],
    );
    assert_eq!(order, vec!["Papirus", "hicolor", "breeze", "Adwaita", "gnome"]);
}

#[test]
fn inheritance_visits_each_theme_once() {
    let order = walk_all(&["a", "a", "b"], &[("a", &["b", "a", "c"]), ("b", &["a"]), ("c", &["c", "a"])]);
    assert_eq!(order, vec!["a", "b", "c"]);
    assert!(walk_all(&[], &[]).is_empty());
    assert_eq!(walk_all(&["solo"], &[]), vec!["solo"]);
}

#[test]
fn inheritance_walk_step_by_step() {
    let mut walk = InheritanceWalk::new(names(&["t", "u"]));
    assert_eq!(walk.queue.len(), 2);
    assert_eq!(walk.next_theme(), Some("t".to_string()));
    walk.add_parents(names(&["t", "u", "v"]));
    assert_eq!(walk.queue.iter().cloned().collect::<Vec<_>>(), vec!["u", "u", "v"]);
    assert_eq!(walk.next_theme(), Some("u".to_string()));
    assert_eq!(walk.next_theme(), Some("v".to_string()));
    assert_eq!(walk.next_theme(), None);
    assert_eq!(walk.next_theme(), None);
    assert_eq!(walk.into_order(), vec!["t", "u", "v"]);
}

fn icons() -> IconTheme {
    let mut theme = IconTheme::new();
    theme.add_file("Firefox", "PNG", PathBuf::from("/icons/hicolor/48/firefox.png"));
    theme.add_file("firefox", "svg", PathBuf::from("/icons/other/firefox.svg"));
    theme.add_file("visual-studio-code", "svg", PathBuf::from("/icons/vsc.svg"));
    theme.add_file("notes", "txt", PathBuf::from("/icons/notes.txt"));
    theme.add_file("old", "xpm", PathBuf::from("/pixmaps/old.xpm"));
    theme.add_file("new", "webp", PathBuf::from("/pixmaps/new.webp"));
    theme.add_file("a b_c", "png", PathBuf::from("/icons/abc.png"));
    theme
}

#[test]
fn icons_are_found_by_lower_case_name() {
    let theme = icons();
    assert_eq!(theme.resolve("firefox"), Some(PathBuf::from("/icons/hicolor/48/firefox.png")));
    assert_eq!(theme.resolve("FIREFOX"), Some(PathBuf::from("/icons/hicolor/48/firefox.png")));
    assert_eq!(theme.resolve("old"), Some(PathBuf::from("/pixmaps/old.xpm")));
    assert_eq!(theme.resolve("new"), Some(PathBuf::from("/pixmaps/new.webp")));
    assert_eq!(theme.resolve("notes"), None);
    assert_eq!(theme.resolve("chromium"), None);
    assert_eq!(theme.resolve(""), None);
}

#[test]
fn icons_are_found_by_variations_of_the_name() {
    let theme = icons();
    assert_eq!(theme.resolve("Visual Studio Code"), Some(PathBuf::from("/icons/vsc.svg")));
    assert_eq!(theme.resolve("visual_studio_code"), Some(PathBuf::from("/icons/vsc.svg")));
    assert_eq!(theme.resolve("visual studio_code"), None);
    assert_eq!(theme.resolve("a b_c"), Some(PathBuf::from("/icons/abc.png")));
    assert_eq!(IconTheme::new().resolve("firefox"), None);
}

#[test]
fn absolute_names() {
    assert!(IconTheme::is_absolute_name("/usr/share/pixmaps/x.png"));
    assert!(IconTheme::is_absolute_name("/"));
    assert!(!IconTheme::is_absolute_name("firefox"));
    assert!(!IconTheme::is_absolute_name(""));
    assert!(!IconTheme::is_absolute_name("~/x.png"));
}

#[test]
fn suffixes_are_stripped_as_often_as_they_stand() {
    assert_eq!(strip_suffix_all("firefox.desktop", ".desktop"), "firefox");
    assert_eq!(strip_suffix_all("a.desktop.desktop", ".desktop"), "a");
    assert_eq!(strip_suffix_all("a.desktop.x", ".desktop"), "a.desktop.x");
    assert_eq!(strip_suffix_all(".desktop", ".desktop"), "");
    assert_eq!(strip_suffix_all("desktop", ".desktop"), "desktop");
    assert_eq!(strip_suffix_all("", ".desktop"), "");
    assert_eq!(strip_suffix_all("abc", ""), "abc");
    for s in ["firefox.desktop", "x.desktop.desktop", "", "plain", ".desktop"] {
        assert_eq!(strip_suffix_all(s, ".desktop"), s.trim_end_matches(".desktop"));
    }
}

fn app(id: &str, class: Option<&str>, icon: Option<&str>) -> DesktopApp {
    DesktopApp {
        id: id.to_string(),
        name: id.to_string(),
        command: "run".to_string(),
        icon_name: icon.map(|s| s.to_string()),
        startup_wm_class: class.map(|s| s.to_string()),
        comment: None,
        categories: Vec::new(),
        keywords: Vec::new(),
        no_display: false,
        desktop_file_path: PathBuf::from(format!("/apps/{}", id)),
    }
}

#[test]
fn catalog_finds_applications() {
    let mut catalog = AppCatalog::new();
    assert!(get_app(&catalog, "firefox.desktop").is_none());
    catalog.add_app(app("firefox.desktop", Some("Navigator"), Some("firefox")));
    catalog.add_app(app("org.gnome.Nautilus.desktop", None, None));
    assert_eq!(get_app(&catalog, "firefox.desktop").unwrap().name, "firefox.desktop");
    assert!(get_app(&catalog, "firefox").is_none());
    assert_eq!(catalog.get_app("org.gnome.Nautilus.desktop").unwrap().id, "org.gnome.Nautilus.desktop");
    assert_eq!(catalog.get_app_id_by_wm_class("navigator"), Some("firefox.desktop".to_string()));
    assert_eq!(catalog.get_app_id_by_wm_class("NAVIGATOR"), Some("firefox.desktop".to_string()));
    assert_eq!(catalog.get_app_id_by_wm_class("Firefox"), Some("firefox.desktop".to_string()));
    assert_eq!(catalog.get_app_id_by_wm_class("org.gnome.nautilus"), Some("org.gnome.Nautilus.desktop".to_string()));
    assert_eq!(catalog.get_app_id_by_wm_class("nautilus"), None);
}

#[test]
fn catalog_window_class_wins_over_base_name() {
    let mut catalog = AppCatalog::new();
    catalog.add_app(app("code.desktop", None, None));
    catalog.add_app(app("vscode.desktop", Some("Code"), None));
    assert_eq!(catalog.get_app_id_by_wm_class("code"), Some("vscode.desktop".to_string()));
    assert_eq!(catalog.get_app_id_by_wm_class("vscode"), Some("vscode.desktop".to_string()));
    let mut other = AppCatalog::new();
    other.add_app(app("vscode.desktop", Some("Code"), None));
    other.add_app(app("code.desktop", None, None));
    assert_eq!(other.get_app_id_by_wm_class("code"), Some("vscode.desktop".to_string()));
    let mut replaced = AppCatalog::new();
    let mut first = app("a.desktop", None, None);
    first.name = "first".to_string();
    let mut second = app("a.desktop", None, None);
    second.name = "second".to_string();
    replaced.add_app(first);
    replaced.add_app(second);
    assert_eq!(replaced.get_app("a.desktop").unwrap().name, "second");
    assert_eq!(replaced.apps.len(), 1);
}

#[test]
fn catalog_caches_icon_lookups() {
    let mut catalog = AppCatalog::new();
    assert_eq!(get_icon(&mut catalog, "Firefox"), None);
    catalog.icon_theme.add_file("firefox", "png", PathBuf::from("/icons/firefox.png"));
    assert_eq!(get_icon(&mut catalog, "firefox"), None);
    assert_eq!(get_icon(&mut catalog, "FIREFOX"), None);
    catalog.icon_theme.add_file("mpv", "svg", PathBuf::from("/icons/mpv.svg"));
    assert_eq!(get_icon(&mut catalog, "mpv"), Some(PathBuf::from("/icons/mpv.svg")));
    assert_eq!(catalog.resolve_icon("MPV"), Some(PathBuf::from("/icons/mpv.svg")));
    assert_eq!(get_icon(&mut catalog, ""), None);
    assert_eq!(catalog.icon_cache.len(), 2);
    let mut fresh = AppCatalog::new();
    fresh.icon_theme.add_file("firefox", "png", PathBuf::from("/icons/firefox.png"));
    assert_eq!(get_icon(&mut fresh, "Firefox"), Some(PathBuf::from("/icons/firefox.png")));
}

#[test]
fn catalog_events() {
    assert_eq!(AppEvent::Refresh, AppEvent::Refresh.clone());
}

const SETTINGS: &str = "# GTK settings\n[Other]\ngtk-icon-theme-name=Wrong\n\n[Settings]\n; a comment\ngtk-theme-name=Adwaita-dark\n  gtk-icon-theme-name = Papirus-Dark  \ngtk-icon-theme-name=Second\n[More]\nTheme=x\n";

#[test]
fn settings_value_of_a_section() {
    assert_eq!(read_ini_value(SETTINGS, "Settings", "gtk-icon-theme-name"), Some("Papirus-Dark".to_string()));
    assert_eq!(read_ini_value(SETTINGS, "settings", "GTK-ICON-THEME-NAME"), Some("Papirus-Dark".to_string()));
    assert_eq!(read_ini_value(SETTINGS, "Other", "gtk-icon-theme-name"), Some("Wrong".to_string()));
    assert_eq!(read_ini_value(SETTINGS, "More", "Theme"), Some("x".to_string()));
    assert_eq!(read_ini_value(SETTINGS, "Settings", "Theme"), None);
    assert_eq!(read_ini_value(SETTINGS, "Missing", "gtk-icon-theme-name"), None);
    assert_eq!(read_ini_value(SETTINGS, "Settings", "gtk-icon"), None);
    assert_eq!(read_ini_value("", "Settings", "k"), None);
    assert_eq!(read_ini_value("k=v\n", "", "k"), None);
    assert_eq!(read_ini_value("[]\nk=v\n", "", "k"), Some("v".to_string()));
    assert_eq!(read_ini_value("[ s ]\nk=v\n", "s", "k"), None);
    assert_eq!(read_ini_value("[ s ]\nk=v\n", " s ", "k"), Some("v".to_string()));
    assert_eq!(read_ini_value("[s]\r\nk = a=b \r\n", "s", "k"), Some("a=b".to_string()));
    assert_eq!(read_ini_value("[s]\n#k=1\n;k=2\nk\nk=3\n", "s", "k"), Some("3".to_string()));
}

#[test]
fn gtkrc_theme_name() {
    assert_eq!(read_gtkrc_theme("gtk-theme-name=\"Adwaita\"\ngtk-icon-theme-name=\"Papirus\"\n"), Some("Papirus".to_string()));
    assert_eq!(read_gtkrc_theme("  gtk-icon-theme-name = \"\"Breeze Dark\"  \n"), Some("Breeze Dark".to_string()));
    assert_eq!(read_gtkrc_theme("gtk-icon-theme-name=NoQuotes\ngtk-icon-theme-name=\"Later\"\n"), Some("NoQuotes".to_string()));
    assert_eq!(read_gtkrc_theme("gtk-icon-theme-name\ngtk-icon-theme-name-extra=\"x\"\n"), Some("x".to_string()));
    assert_eq!(read_gtkrc_theme("#gtk-icon-theme-name=\"x\"\n"), None);
    assert_eq!(read_gtkrc_theme("gtk-icon-theme-name=\"\"\n"), Some("".to_string()));
    assert_eq!(read_gtkrc_theme("gtk-icon-theme-name= \" a \" \n"), Some(" a ".to_string()));
    assert_eq!(read_gtkrc_theme(""), None);
}

#[test]
fn characters_are_stripped_at_both_ends() {
    for s in ["\"a\"", "a", "", "\"\"", "\"\"\"", "\"a\"b\"", "a\"", "\"a"] {
        let stripped: String = strip_chars(&s.chars().collect::<Vec<_>>(), '"').iter().collect();
        assert_eq!(stripped, s.trim_matches('"'), "of {:?}", s);
    }
}

#[test]
fn preferred_themes_in_their_order() {
    let none = ThemeSettings {
        xdg_icon_theme: None,
        gtk_theme: None,
        gtk3_settings: None,
        gtk4_settings: None,
        gtkrc: None,
        kde_globals: None,
    };
    assert_eq!(get_preferred_icon_themes(&none), vec!["hicolor", "Adwaita", "breeze", "Papirus"]);
    let all = ThemeSettings {
        xdg_icon_theme: Some("Tela:Tela-dark".to_string()),
        gtk_theme: Some("Adwaita:dark".to_string()),
        gtk3_settings: Some(SETTINGS.to_string()),
        gtk4_settings: Some("[Settings]\ngtk-icon-theme-name=Four\n".to_string()),
        gtkrc: Some("gtk-icon-theme-name=\"Two\"\n".to_string()),
        kde_globals: Some("[Icons]\nTheme=breeze-dark\n".to_string()),
    };
    assert_eq!(
        get_preferred_icon_themes(&all),
        vec!["Tela", "Adwaita", "Papirus-Dark", "Four", "Two", "breeze-dark", "hicolor", "Adwaita", "breeze", "Papirus"]
    );
    let some = ThemeSettings {
        xdg_icon_theme: Some("".to_string()),
        gtk_theme: None,
        gtk3_settings: Some("[Other]\nx=y\n".to_string()),
        gtk4_settings: None,
        gtkrc: Some("nothing".to_string()),
        kde_globals: Some("[Icons]\nTheme=k\n".to_string()),
    };
    assert_eq!(get_preferred_icon_themes(&some), vec!["", "k", "hicolor", "Adwaita", "breeze", "Papirus"]);
}

#[test]
fn icons_are_sought_more_widely() {
    let mut theme = IconTheme::new();
    theme.add_named_file("Firefox", "Firefox.PNG", "PNG", PathBuf::from("/icons/firefox.png"));
    theme.add_named_file("firefox", "firefox.svg", "svg", PathBuf::from("/icons/firefox.svg"));
    theme.add_named_file("my_app", "my_app.xpm", "xpm", PathBuf::from("/icons/my_app.xpm"));
    theme.add_named_file("other-app", "other-app.webp", "webp", PathBuf::from("/icons/other-app.webp"));
    theme.add_named_file("readme", "readme.txt", "txt", PathBuf::from("/icons/readme.txt"));
    assert_eq!(theme.lookup_icon_internal("firefox"), Some(PathBuf::from("/icons/firefox.png")));
    assert_eq!(theme.lookup_icon_internal("Firefox.png"), Some(PathBuf::from("/icons/firefox.png")));
    assert_eq!(theme.lookup_icon_internal("firefox.svg"), Some(PathBuf::from("/icons/firefox.svg")));
    assert_eq!(theme.lookup_icon_internal("firefox.desktop"), Some(PathBuf::from("/icons/firefox.png")));
    assert_eq!(theme.lookup_icon_internal("firefox.beta.desktop"), None);
    assert_eq!(theme.lookup_icon_internal("my-app"), Some(PathBuf::from("/icons/my_app.xpm")));
    assert_eq!(theme.lookup_icon_internal("other_app"), Some(PathBuf::from("/icons/other-app.webp")));
    assert_eq!(theme.lookup_icon_internal("other app"), Some(PathBuf::from("/icons/other-app.webp")));
    assert_eq!(theme.lookup_icon_internal("readme"), None);
    assert_eq!(theme.lookup_icon_internal(""), None);
    assert_eq!(theme.lookup_icon_internal("."), None);
    assert_eq!(theme.resolve("my-app"), None);
    assert_eq!(theme.resolve("firefox.desktop"), None);
}
