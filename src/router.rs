//! Startup wiring and the routing of menu events to window creation.
use vstd::prelude::*;
use crate::label::archetype;
use crate::menu::{new_window_id, provision_menu, provision_outcome, HandlerScope, Menu, MenuDiscoveryError, Provisioned};
use crate::template::{first_named, main_template, planned_window, spawn_template, AppConfig, ConfigurationError, TemplateView, WindowTemplate};

verus! {

/// The activation of a menu command.
#[derive(Clone, Debug, PartialEq, Eq)]
pub struct MenuEvent {
    /// The identifier of the activated command.
    pub id: String,
    /// The label of the window whose menu was used, where the host tells it.
    pub window: Option<String>,
}

/// Why the application cannot start.
#[derive(Clone, Copy, Debug, PartialEq, Eq)]
pub enum StartupError {
    Configuration(ConfigurationError),
    MenuDiscovery(MenuDiscoveryError),
}

/// A handler listening at `scope` hears an event from `window`.
pub open spec fn hears(scope: HandlerScope, window: Option<Seq<char>>) -> bool {
    match scope {
        HandlerScope::Application => true,
        HandlerScope::MainWindow => window == Some(archetype()),
    }
}

pub open spec fn event_window(e: MenuEvent) -> Option<Seq<char>> {
    match e.window {
        Some(w) => Some(w@),
        None => None,
    }
}

/// The event asks a handler at `scope` for a new window.
pub open spec fn asks_for_window(scope: HandlerScope, e: MenuEvent) -> bool {
    hears(scope, event_window(e)) && e.id@ == new_window_id()
}

/// Whether a handler listening at `scope` spawns a window for `event`.
pub fn should_spawn(scope: HandlerScope, event: &MenuEvent) -> (r: bool)
    ensures
        r == asks_for_window(scope, *event),
{
    let id = String::from_str("new_window");
    if event.id != id {
        return false;
    }
    match scope {
        HandlerScope::Application => true,
        HandlerScope::MainWindow => match &event.window {
            Some(w) => {
                let main = String::from_str("main");
                *w == main
            },
            None => false,
        },
    }
}

/// Handles one menu event: nothing for an event that is not heard or not the
/// "New Window" command, else the configuration of the window to build, or
/// why none is built. Every such event gives one spawn.
pub fn handle_menu_event(
    scope: HandlerScope,
    event: &MenuEvent,
    config: &AppConfig,
    dev: bool,
    now_secs: u64,
) -> (r: Option<Result<WindowTemplate, ConfigurationError>>)
    ensures
        asks_for_window(scope, *event) == (r is Some),
        r matches Some(Ok(t)) ==> planned_window(config@, dev, now_secs as nat) == Ok::<
            TemplateView,
            ConfigurationError,
        >(t@),
        r matches Some(Err(e)) ==> planned_window(config@, dev, now_secs as nat) == Err::<
            TemplateView,
            ConfigurationError,
        >(e),
{
    if should_spawn(scope, event) {
        Some(spawn_template(config, dev, now_secs))
    } else {
        None
    }
}

/// Startup: the "main" template must exist, then the menu is provisioned.
pub fn startup(config: &AppConfig, existing: Option<Menu>) -> (r: Result<Provisioned, StartupError>)
    ensures
        match r {
            Err(StartupError::Configuration(e)) => first_named(config@.windows, archetype()) is None
                && e == ConfigurationError::MissingTemplate,
            Err(StartupError::MenuDiscovery(e)) => first_named(config@.windows, archetype()) is Some
                && provision_outcome(existing, Err(e)),
            Ok(p) => first_named(config@.windows, archetype()) is Some && provision_outcome(
                existing,
                Ok(p),
            ),
        },
{
    match main_template(config) {
        Err(e) => Err(StartupError::Configuration(e)),
        Ok(_) => match provision_menu(existing) {
            Ok(p) => Ok(p),
            Err(e) => Err(StartupError::MenuDiscovery(e)),
        },
    }
}

} // verus!
