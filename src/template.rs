//! Window templates, their lookup by name, and the window factory that turns
//! the "main" template into the configuration of a new window.
use vstd::prelude::*;
use crate::label::{allocate_label, archetype, label_for, lemma_label_for_injective};

verus! {

/// Where a window's content comes from.
#[derive(Clone, Debug, PartialEq, Eq)]
pub enum ContentSource {
    /// A path inside the application's bundled assets.
    Local(String),
    /// An external URL.
    External(String),
}

pub enum SourceView {
    Local(Seq<char>),
    External(Seq<char>),
}

impl View for ContentSource {
    type V = SourceView;

    open spec fn view(&self) -> SourceView {
        match self {
            ContentSource::Local(p) => SourceView::Local(p@),
            ContentSource::External(u) => SourceView::External(u@),
        }
    }
}

/// A named configuration from which windows are built. Fields that this core
/// never reads (geometry and the like) stay with the host.
#[derive(Clone, Debug, PartialEq, Eq)]
pub struct WindowTemplate {
    pub label: String,
    pub source: ContentSource,
}

pub struct TemplateView {
    pub label: Seq<char>,
    pub source: SourceView,
}

impl View for WindowTemplate {
    type V = TemplateView;

    open spec fn view(&self) -> TemplateView {
        TemplateView { label: self.label@, source: self.source@ }
    }
}

/// The static configuration read at startup.
#[derive(Clone, Debug, PartialEq, Eq)]
pub struct AppConfig {
    pub windows: Vec<WindowTemplate>,
    /// The URL that development builds load instead of the bundled assets.
    pub dev_url: Option<String>,
}

pub struct ConfigView {
    pub windows: Seq<TemplateView>,
    pub dev_url: Option<Seq<char>>,
}

pub open spec fn templates_view(ts: Seq<WindowTemplate>) -> Seq<TemplateView> {
    ts.map_values(|t: WindowTemplate| t@)
}

impl View for AppConfig {
    type V = ConfigView;

    open spec fn view(&self) -> ConfigView {
        ConfigView {
            windows: templates_view(self.windows@),
            dev_url: match self.dev_url {
                Some(u) => Some(u@),
                None => None,
            },
        }
    }
}

/// A required piece of configuration is absent.
#[derive(Clone, Copy, Debug, PartialEq, Eq)]
pub enum ConfigurationError {
    /// No window template carries the requested name.
    MissingTemplate,
    /// A development build has no development URL to load.
    MissingDevUrl,
}

/// The first template whose label is `name`, if any.
pub open spec fn first_named(ts: Seq<TemplateView>, name: Seq<char>) -> Option<TemplateView>
    decreases ts.len(),
{
    if ts.len() == 0 {
        None
    } else if ts[0].label == name {
        Some(ts[0])
    } else {
        first_named(ts.drop_first(), name)
    }
}

/// The configuration of the window that the factory builds from `cfg` at
/// `secs` seconds after the epoch, or the reason it builds none.
pub open spec fn planned_window(cfg: ConfigView, dev: bool, secs: nat) -> Result<
    TemplateView,
    ConfigurationError,
> {
    match first_named(cfg.windows, archetype()) {
        None => Err(ConfigurationError::MissingTemplate),
        Some(t) => if dev {
            match cfg.dev_url {
                None => Err(ConfigurationError::MissingDevUrl),
                Some(u) => Ok(TemplateView { label: label_for(secs), source: SourceView::External(u) }),
            }
        } else {
            Ok(TemplateView { label: label_for(secs), source: t.source })
        },
    }
}

impl ContentSource {
    /// A copy of this source.
    pub fn duplicate(&self) -> (r: ContentSource)
        ensures
            r@ == self@,
    {
        match self {
            ContentSource::Local(p) => ContentSource::Local(p.clone()),
            ContentSource::External(u) => ContentSource::External(u.clone()),
        }
    }
}

impl WindowTemplate {
    /// A copy of this template.
    pub fn duplicate(&self) -> (r: WindowTemplate)
        ensures
            r@ == self@,
    {
        WindowTemplate { label: self.label.clone(), source: self.source.duplicate() }
    }
}

/// Looks up the first template whose label is `name`.
pub fn lookup(templates: &Vec<WindowTemplate>, name: &str) -> (r: Result<
    WindowTemplate,
    ConfigurationError,
>)
    ensures
        match r {
            Ok(t) => first_named(templates_view(templates@), name@) == Some(t@),
            Err(e) => first_named(templates_view(templates@), name@) is None && e
                == ConfigurationError::MissingTemplate,
        },
{
    let ghost all = templates_view(templates@);
    let wanted = String::from_str(name);
    let mut i: usize = 0;
    assert(all.subrange(0, all.len() as int) =~= all);
    while i < templates.len()
        invariant
            0 <= i <= templates.len(),
            all == templates_view(templates@),
            wanted@ == name@,
            first_named(all, name@) == first_named(all.subrange(i as int, all.len() as int), name@),
        decreases templates.len() - i,
    {
        let ghost rest = all.subrange(i as int, all.len() as int);
        assert(rest.drop_first() =~= all.subrange(i + 1, all.len() as int));
        if templates[i].label == wanted {
            return Ok(templates[i].duplicate());
        }
        i = i + 1;
    }
    assert(all.subrange(i as int, all.len() as int) =~= Seq::<TemplateView>::empty());
    Err(ConfigurationError::MissingTemplate)
}

/// Looks up the "main" template, which the application cannot start without.
pub fn main_template(config: &AppConfig) -> (r: Result<WindowTemplate, ConfigurationError>)
    ensures
        match r {
            Ok(t) => first_named(config@.windows, archetype()) == Some(t@),
            Err(e) => first_named(config@.windows, archetype()) is None && e
                == ConfigurationError::MissingTemplate,
        },
{
    lookup(&config.windows, "main")
}

/// Builds the configuration of a new window from the "main" template: a
/// fresh label minted from `now_secs` and, in a development build, the
/// development URL as its content source.
pub fn spawn_template(config: &AppConfig, dev: bool, now_secs: u64) -> (r: Result<
    WindowTemplate,
    ConfigurationError,
>)
    ensures
        match r {
            Ok(t) => planned_window(config@, dev, now_secs as nat) == Ok::<
                TemplateView,
                ConfigurationError,
            >(t@),
            Err(e) => planned_window(config@, dev, now_secs as nat) == Err::<
                TemplateView,
                ConfigurationError,
            >(e),
        },
{
    let mut cfg = match main_template(config) {
        Ok(t) => t,
        Err(e) => return Err(e),
    };
    cfg.label = allocate_label(now_secs);
    if dev {
        match &config.dev_url {
            Some(u) => {
                cfg.source = ContentSource::External(u.clone());
            },
            None => {
                return Err(ConfigurationError::MissingDevUrl);
            },
        }
    }
    Ok(cfg)
}

/// Windows spawned in pairwise distinct seconds from a configuration that
/// holds a "main" template (and, in a development build, a development URL)
/// are all created, and their labels differ from one another and from the
/// label of the main window that exists from startup.
pub proof fn lemma_distinct_seconds_distinct_windows(cfg: ConfigView, dev: bool, secs: Seq<nat>)
    requires
        first_named(cfg.windows, archetype()) is Some,
        dev ==> cfg.dev_url is Some,
        forall|i: int, j: int| 0 <= i < j < secs.len() ==> secs[i] != secs[j],
    ensures
        forall|i: int| 0 <= i < secs.len() ==> planned_window(cfg, dev, #[trigger] secs[i]) is Ok,
        forall|i: int|
            0 <= i < secs.len() ==> (#[trigger] planned_window(cfg, dev, secs[i])).unwrap().label
                != archetype(),
        forall|i: int, j: int|
            0 <= i < secs.len() && 0 <= j < secs.len() && i != j ==> planned_window(
                cfg,
                dev,
                #[trigger] secs[i],
            ).unwrap().label != planned_window(cfg, dev, #[trigger] secs[j]).unwrap().label,
{
    assert forall|i: int| 0 <= i < secs.len() implies (#[trigger] planned_window(
        cfg,
        dev,
        secs[i],
    )).unwrap().label != archetype() by {
        lemma_label_for_injective(secs[i], secs[i]);
    }
    assert forall|i: int, j: int|
        0 <= i < secs.len() && 0 <= j < secs.len() && i != j implies planned_window(
        cfg,
        dev,
        #[trigger] secs[i],
    ).unwrap().label != planned_window(cfg, dev, #[trigger] secs[j]).unwrap().label by {
        lemma_label_for_injective(secs[i], secs[j]);
    }
}

/// Two windows spawned within the same second carry the same label, whatever
/// the configuration and build mode of each: labels are only as fine as the
/// clock's seconds.
pub proof fn lemma_same_second_same_label(
    cfg1: ConfigView,
    dev1: bool,
    cfg2: ConfigView,
    dev2: bool,
    secs: nat,
)
    requires
        planned_window(cfg1, dev1, secs) is Ok,
        planned_window(cfg2, dev2, secs) is Ok,
    ensures
        planned_window(cfg1, dev1, secs).unwrap().label == label_for(secs),
        planned_window(cfg1, dev1, secs).unwrap().label == planned_window(
            cfg2,
            dev2,
            secs,
        ).unwrap().label,
{
}

/// A spawned window loads the template's content source, or the development
/// URL in a development build, and carries a fresh label that differs from the
/// label stored in the template.
pub proof fn lemma_spawned_source_and_fresh_label(cfg: ConfigView, dev: bool, secs: nat)
    requires
        planned_window(cfg, dev, secs) is Ok,
    ensures
        first_named(cfg.windows, archetype()) is Some,
        planned_window(cfg, dev, secs).unwrap().source == (if dev {
            SourceView::External(cfg.dev_url.unwrap())
        } else {
            first_named(cfg.windows, archetype()).unwrap().source
        }),
        planned_window(cfg, dev, secs).unwrap().label != first_named(
            cfg.windows,
            archetype(),
        ).unwrap().label,
{
    lemma_first_named_label(cfg.windows, archetype());
    lemma_label_for_injective(secs, secs);
}

/// A template found by name carries that name.
pub proof fn lemma_first_named_label(ts: Seq<TemplateView>, name: Seq<char>)
    ensures
        first_named(ts, name) matches Some(t) ==> t.label == name,
    decreases ts.len(),
{
    if ts.len() > 0 && ts[0].label != name {
        lemma_first_named_label(ts.drop_first(), name);
    }
}

} // verus!
