use window_shell::label::allocate_label;
use window_shell::menu::{
    file_menu, new_window_menu_item, provision_menu, HandlerScope, Menu, MenuCommand,
    MenuDiscoveryError, Submenu,
};
use window_shell::router::{handle_menu_event, should_spawn, startup, MenuEvent, StartupError};
use window_shell::template::{
    lookup, main_template, spawn_template, AppConfig, ConfigurationError, ContentSource,
    WindowTemplate,
};

fn template(label: &str, source: ContentSource) -> WindowTemplate {
    WindowTemplate { label: label.to_string(), source }
}

fn config_with_main() -> AppConfig {
    AppConfig {
        windows: vec![
            template("splash", ContentSource::Local("splash.html".to_string())),
            template("main", ContentSource::Local("index.html".to_string())),
        ],
        dev_url: Some("http://localhost:1420".to_string()),
    }
}

fn command(id: &str, text: &str) -> MenuCommand {
    MenuCommand { id: id.to_string(), text: text.to_string(), accelerator: String::new() }
}

fn submenu(text: &str, items: Vec<MenuCommand>) -> Submenu {
    Submenu { text: text.to_string(), items }
}

fn event(id: &str, window: Option<&str>) -> MenuEvent {
    MenuEvent { id: id.to_string(), window: window.map(|w| w.to_string()) }
}

#[test]
fn label_is_archetype_and_seconds() {
    assert_eq!(allocate_label(0), "main0");
    assert_eq!(allocate_label(9), "main9");
    assert_eq!(allocate_label(10), "main10");
    assert_eq!(allocate_label(1_700_000_000), "main1700000000");
    assert_eq!(allocate_label(u64::MAX), format!("main{}", u64::MAX));
}

#[test]
fn same_second_labels_collide() {
    let config = config_with_main();
    let a = spawn_template(&config, false, 1_700_000_123).unwrap();
    let b = spawn_template(&config, false, 1_700_000_123).unwrap();
    assert_eq!(a.label, b.label);
}

#[test]
fn distinct_seconds_give_distinct_windows() {
    let config = config_with_main();
    let seconds: Vec<u64> = vec![1, 10, 100, 1_700_000_000, 1_700_000_001];
    let labels: Vec<String> = seconds
        .iter()
        .map(|s| spawn_template(&config, false, *s).unwrap().label)
        .collect();
    assert_eq!(labels.len(), seconds.len());
    for (i, a) in labels.iter().enumerate() {
        assert_ne!(a, "main");
        for b in labels.iter().skip(i + 1) {
            assert_ne!(a, b);
        }
    }
}

#[test]
fn startup_without_main_template_fails() {
    let config = AppConfig {
        windows: vec![template("splash", ContentSource::Local("splash.html".to_string()))],
        dev_url: None,
    };
    assert_eq!(
        startup(&config, None),
        Err(StartupError::Configuration(ConfigurationError::MissingTemplate))
    );
    assert_eq!(main_template(&config), Err(ConfigurationError::MissingTemplate));
    assert_eq!(spawn_template(&config, false, 5), Err(ConfigurationError::MissingTemplate));
}

#[test]
fn dev_spawn_without_dev_url_fails() {
    let mut config = config_with_main();
    config.dev_url = None;
    let before = config.clone();
    assert_eq!(spawn_template(&config, true, 5), Err(ConfigurationError::MissingDevUrl));
    assert_eq!(config, before);
    let main = main_template(&config).unwrap();
    assert_eq!(main.label, "main");
}

#[test]
fn existing_file_menu_gets_new_window_first() {
    let menu = Menu {
        submenus: vec![
            submenu("File", vec![command("open", "Open"), command("quit", "Quit")]),
            submenu("Edit", vec![command("copy", "Copy")]),
        ],
    };
    let p = provision_menu(Some(menu.clone())).unwrap();
    assert_eq!(p.scope, HandlerScope::Application);
    assert_eq!(p.file_index, Some(0));
    let file = &p.menu.submenus[0];
    assert_eq!(file.items.len(), 3);
    assert_eq!(file.items[0], new_window_menu_item());
    assert_eq!(file.items[0].id, "new_window");
    assert_eq!(file.items[0].text, "New Window");
    assert_eq!(file.items[0].accelerator, "CmdOrCtrl+n");
    assert_eq!(file.items[1], command("open", "Open"));
    assert_eq!(file.items[2], command("quit", "Quit"));
    assert_eq!(p.menu.submenus[1], menu.submenus[1]);
    assert_eq!(p.menu.submenus.len(), 2);
}

#[test]
fn file_menu_found_after_other_submenus() {
    let menu = Menu {
        submenus: vec![submenu("App", vec![]), submenu("File", vec![])],
    };
    let p = provision_menu(Some(menu)).unwrap();
    assert_eq!(p.file_index, Some(1));
    assert_eq!(p.menu.submenus[0].items.len(), 0);
    assert_eq!(p.menu.submenus[1].items, vec![new_window_menu_item()]);
}

#[test]
fn no_menu_builds_file_menu_for_main_window() {
    let p = provision_menu(None).unwrap();
    assert_eq!(p.scope, HandlerScope::MainWindow);
    assert_eq!(p.file_index, None);
    assert_eq!(p.menu, file_menu());
    assert_eq!(p.menu.submenus.len(), 1);
    assert_eq!(p.menu.submenus[0].text, "File");
    assert_eq!(p.menu.submenus[0].items.len(), 1);
    assert_eq!(p.menu.submenus[0].items[0].id, "new_window");
    assert_eq!(p.menu.submenus[0].items[0].text, "New Window");
    assert_eq!(p.menu.submenus[0].items[0].accelerator, "Ctrl+N");

    let config = config_with_main();
    assert!(should_spawn(p.scope, &event("new_window", Some("main"))));
    assert!(!should_spawn(p.scope, &event("new_window", Some("main1700000000"))));
    assert!(!should_spawn(p.scope, &event("new_window", None)));
    let spawned = handle_menu_event(p.scope, &event("new_window", Some("main")), &config, false, 77);
    assert_eq!(
        spawned,
        Some(Ok(template("main77", ContentSource::Local("index.html".to_string()))))
    );
    assert_eq!(
        handle_menu_event(p.scope, &event("new_window", Some("other")), &config, false, 77),
        None
    );
}

#[test]
fn missing_file_menu_is_a_discovery_error() {
    let menu = Menu { submenus: vec![submenu("Edit", vec![command("copy", "Copy")])] };
    assert_eq!(provision_menu(Some(menu.clone())), Err(MenuDiscoveryError::FileMenuMissing));
    assert_eq!(
        startup(&config_with_main(), Some(menu)),
        Err(StartupError::MenuDiscovery(MenuDiscoveryError::FileMenuMissing))
    );
    assert_eq!(
        provision_menu(Some(Menu { submenus: vec![] })),
        Err(MenuDiscoveryError::FileMenuMissing)
    );
    // The match is on the exact text.
    let menu = Menu { submenus: vec![submenu("file", vec![]), submenu("File ", vec![])] };
    assert_eq!(provision_menu(Some(menu)), Err(MenuDiscoveryError::FileMenuMissing));
}

#[test]
fn two_file_menus_are_ambiguous() {
    let menu = Menu {
        submenus: vec![submenu("File", vec![]), submenu("Edit", vec![]), submenu("File", vec![])],
    };
    assert_eq!(provision_menu(Some(menu)), Err(MenuDiscoveryError::FileMenuAmbiguous));
}

#[test]
fn startup_with_main_template_provisions() {
    let p = startup(&config_with_main(), None).unwrap();
    assert_eq!(p.scope, HandlerScope::MainWindow);
    assert_eq!(p.menu, file_menu());
}

#[test]
fn spawned_window_keeps_source_with_fresh_label() {
    let config = config_with_main();
    let prod = spawn_template(&config, false, 1_700_000_000).unwrap();
    assert_eq!(prod.source, ContentSource::Local("index.html".to_string()));
    assert_eq!(prod.label, "main1700000000");
    assert_ne!(prod.label, "main");
    let dev = spawn_template(&config, true, 1_700_000_000).unwrap();
    assert_eq!(dev.source, ContentSource::External("http://localhost:1420".to_string()));
    assert_eq!(dev.label, "main1700000000");
}

#[test]
fn lookup_takes_first_template_of_a_name() {
    let templates = vec![
        template("main", ContentSource::Local("first.html".to_string())),
        template("main", ContentSource::Local("second.html".to_string())),
    ];
    assert_eq!(lookup(&templates, "main"), Ok(templates[0].clone()));
    assert_eq!(lookup(&templates, "other"), Err(ConfigurationError::MissingTemplate));
    assert_eq!(lookup(&vec![], "main"), Err(ConfigurationError::MissingTemplate));
    assert_eq!(templates[1].duplicate(), templates[1]);
}

#[test]
fn application_scope_hears_every_window() {
    let config = config_with_main();
    let scope = HandlerScope::Application;
    assert!(should_spawn(scope, &event("new_window", None)));
    assert!(should_spawn(scope, &event("new_window", Some("main5"))));
    assert!(!should_spawn(scope, &event("open", Some("main"))));
    assert_eq!(handle_menu_event(scope, &event("quit", None), &config, true, 3), None);
    let mut no_dev = config.clone();
    no_dev.dev_url = None;
    assert_eq!(
        handle_menu_event(scope, &event("new_window", None), &no_dev, true, 3),
        Some(Err(ConfigurationError::MissingDevUrl))
    );
}
