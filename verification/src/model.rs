//! The configuration as the tool consumes it: the core settings that stand at
//! the document's root, and the seven named sections.
//!
//! The fields that the migration reads or writes are fields of these types.
//! Every other setting of a table is kept, as the document gave it, among the
//! table's `settings`, for the component that the section belongs to.

use vstd::prelude::*;
use crate::value::{pairs, Entry, Pair};

verus! {

/// The content of an optional text.
pub open spec fn text_of(text: Option<String>) -> Option<Seq<char>> {
    match text {
        Some(text) => Some(text@),
        None => None,
    }
}

/// The settings that stand at the document's root.
#[derive(Clone, Debug, PartialEq, Eq)]
pub struct Core {
    /// The directory that the build writes to.
    pub dist: Option<String>,
    pub settings: Vec<Entry>,
}

/// The mathematical content of a [`Core`].
pub struct CoreView {
    pub dist: Option<Seq<char>>,
    pub settings: Seq<Pair>,
}

impl View for Core {
    type V = CoreView;

    open spec fn view(&self) -> CoreView {
        CoreView { dist: text_of(self.dist), settings: pairs(self.settings@) }
    }
}

/// The section `build`.
#[derive(Clone, Debug, PartialEq, Eq)]
pub struct Build {
    pub settings: Vec<Entry>,
}

impl View for Build {
    type V = Seq<Pair>;

    open spec fn view(&self) -> Seq<Pair> {
        pairs(self.settings@)
    }
}

/// The section `tools`.
#[derive(Clone, Debug, PartialEq, Eq)]
pub struct Tools {
    pub settings: Vec<Entry>,
}

impl View for Tools {
    type V = Seq<Pair>;

    open spec fn view(&self) -> Seq<Pair> {
        pairs(self.settings@)
    }
}

/// One element of the section `hooks`.
#[derive(Clone, Debug, PartialEq, Eq)]
pub struct Hook {
    pub settings: Vec<Entry>,
}

impl View for Hook {
    type V = Seq<Pair>;

    open spec fn view(&self) -> Seq<Pair> {
        pairs(self.settings@)
    }
}

/// The section `hooks`.
#[derive(Clone, Debug, PartialEq, Eq)]
pub struct Hooks(pub Vec<Hook>);

impl View for Hooks {
    type V = Seq<Seq<Pair>>;

    open spec fn view(&self) -> Seq<Seq<Pair>> {
        self.0@.map_values(|hook: Hook| hook@)
    }
}

/// The section `watch`.
#[derive(Clone, Debug, PartialEq, Eq)]
pub struct Watch {
    pub settings: Vec<Entry>,
}

impl View for Watch {
    type V = Seq<Pair>;

    open spec fn view(&self) -> Seq<Pair> {
        pairs(self.settings@)
    }
}

/// The section `serve`. Its `proxy_*` fields are the older way to configure
/// a single proxy; the migration turns them into an element of `proxies`.
#[derive(Clone, Debug, PartialEq, Eq)]
pub struct Serve {
    pub proxy_backend: Option<String>,
    pub proxy_rewrite: Option<String>,
    pub proxy_ws: Option<bool>,
    pub proxy_insecure: Option<bool>,
    pub proxy_no_system_proxy: Option<bool>,
    pub settings: Vec<Entry>,
}

/// The mathematical content of a [`Serve`].
pub struct ServeView {
    pub proxy_backend: Option<Seq<char>>,
    pub proxy_rewrite: Option<Seq<char>>,
    pub proxy_ws: Option<bool>,
    pub proxy_insecure: Option<bool>,
    pub proxy_no_system_proxy: Option<bool>,
    pub settings: Seq<Pair>,
}

impl View for Serve {
    type V = ServeView;

    open spec fn view(&self) -> ServeView {
        ServeView {
            proxy_backend: text_of(self.proxy_backend),
            proxy_rewrite: text_of(self.proxy_rewrite),
            proxy_ws: self.proxy_ws,
            proxy_insecure: self.proxy_insecure,
            proxy_no_system_proxy: self.proxy_no_system_proxy,
            settings: pairs(self.settings@),
        }
    }
}

/// The section `clean`. Its `dist` field is the older place of the core
/// setting of the same name; the migration moves it there.
#[derive(Clone, Debug, PartialEq, Eq)]
pub struct Clean {
    pub dist: Option<String>,
    pub settings: Vec<Entry>,
}

/// The mathematical content of a [`Clean`].
pub struct CleanView {
    pub dist: Option<Seq<char>>,
    pub settings: Seq<Pair>,
}

impl View for Clean {
    type V = CleanView;

    open spec fn view(&self) -> CleanView {
        CleanView { dist: text_of(self.dist), settings: pairs(self.settings@) }
    }
}

/// One element of the section `proxies`.
#[derive(Clone, Debug, PartialEq, Eq)]
pub struct Proxy {
    /// The address that requests are passed on to.
    pub backend: String,
    /// The path that replaces the one the request came with.
    pub rewrite: Option<String>,
    /// Whether websocket connections are passed on.
    pub ws: bool,
    /// Whether the backend's certificate goes unchecked.
    pub insecure: bool,
    /// Whether the system's own proxy is left out.
    pub no_system_proxy: bool,
    pub settings: Vec<Entry>,
}

/// The mathematical content of a [`Proxy`].
pub struct ProxyView {
    pub backend: Seq<char>,
    pub rewrite: Option<Seq<char>>,
    pub ws: bool,
    pub insecure: bool,
    pub no_system_proxy: bool,
    pub settings: Seq<Pair>,
}

impl View for Proxy {
    type V = ProxyView;

    open spec fn view(&self) -> ProxyView {
        ProxyView {
            backend: self.backend@,
            rewrite: text_of(self.rewrite),
            ws: self.ws,
            insecure: self.insecure,
            no_system_proxy: self.no_system_proxy,
            settings: pairs(self.settings@),
        }
    }
}

/// The section `proxies`.
#[derive(Clone, Debug, PartialEq, Eq)]
pub struct Proxies(pub Vec<Proxy>);

impl View for Proxies {
    type V = Seq<ProxyView>;

    open spec fn view(&self) -> Seq<ProxyView> {
        self.0@.map_values(|proxy: Proxy| proxy@)
    }
}

/// The whole configuration.
#[derive(Clone, Debug, PartialEq, Eq)]
pub struct Configuration {
    pub core: Core,
    pub build: Build,
    pub tools: Tools,
    pub hooks: Hooks,
    pub watch: Watch,
    pub serve: Serve,
    pub clean: Clean,
    pub proxies: Proxies,
}

/// The mathematical content of a [`Configuration`].
pub struct Settled {
    pub core: CoreView,
    pub build: Seq<Pair>,
    pub tools: Seq<Pair>,
    pub hooks: Seq<Seq<Pair>>,
    pub watch: Seq<Pair>,
    pub serve: ServeView,
    pub clean: CleanView,
    pub proxies: Seq<ProxyView>,
}

impl View for Configuration {
    type V = Settled;

    open spec fn view(&self) -> Settled {
        Settled {
            core: self.core@,
            build: self.build@,
            tools: self.tools@,
            hooks: self.hooks@,
            watch: self.watch@,
            serve: self.serve@,
            clean: self.clean@,
            proxies: self.proxies@,
        }
    }
}

impl CoreView {
    /// The core settings of a document that sets none.
    pub open spec fn empty() -> CoreView {
        CoreView { dist: None, settings: Seq::empty() }
    }
}

impl ServeView {
    /// The section `serve` of a document that has none.
    pub open spec fn empty() -> ServeView {
        ServeView {
            proxy_backend: None,
            proxy_rewrite: None,
            proxy_ws: None,
            proxy_insecure: None,
            proxy_no_system_proxy: None,
            settings: Seq::empty(),
        }
    }
}

impl CleanView {
    /// The section `clean` of a document that has none.
    pub open spec fn empty() -> CleanView {
        CleanView { dist: None, settings: Seq::empty() }
    }
}

impl Settled {
    /// The configuration of the empty document.
    pub open spec fn empty() -> Settled {
        Settled {
            core: CoreView::empty(),
            build: Seq::empty(),
            tools: Seq::empty(),
            hooks: Seq::empty(),
            watch: Seq::empty(),
            serve: ServeView::empty(),
            clean: CleanView::empty(),
            proxies: Seq::empty(),
        }
    }
}

impl Default for Core {
    fn default() -> (core: Core)
        ensures
            core@ == CoreView::empty(),
    {
        let core = Core { dist: None, settings: Vec::new() };
        assert(core@.settings =~= Seq::empty());
        core
    }
}

impl Default for Build {
    fn default() -> (build: Build)
        ensures
            build@ == Seq::<Pair>::empty(),
    {
        let build = Build { settings: Vec::new() };
        assert(build@ =~= Seq::empty());
        build
    }
}

impl Default for Tools {
    fn default() -> (tools: Tools)
        ensures
            tools@ == Seq::<Pair>::empty(),
    {
        let tools = Tools { settings: Vec::new() };
        assert(tools@ =~= Seq::empty());
        tools
    }
}

impl Default for Hooks {
    fn default() -> (hooks: Hooks)
        ensures
            hooks@ == Seq::<Seq<Pair>>::empty(),
    {
        let hooks = Hooks(Vec::new());
        assert(hooks@ =~= Seq::empty());
        hooks
    }
}

impl Default for Watch {
    fn default() -> (watch: Watch)
        ensures
            watch@ == Seq::<Pair>::empty(),
    {
        let watch = Watch { settings: Vec::new() };
        assert(watch@ =~= Seq::empty());
        watch
    }
}

impl Default for Serve {
    fn default() -> (serve: Serve)
        ensures
            serve@ == ServeView::empty(),
    {
        let serve = Serve {
            proxy_backend: None,
            proxy_rewrite: None,
            proxy_ws: None,
            proxy_insecure: None,
            proxy_no_system_proxy: None,
            settings: Vec::new(),
        };
        assert(serve@.settings =~= Seq::empty());
        serve
    }
}

impl Default for Clean {
    fn default() -> (clean: Clean)
        ensures
            clean@ == CleanView::empty(),
    {
        let clean = Clean { dist: None, settings: Vec::new() };
        assert(clean@.settings =~= Seq::empty());
        clean
    }
}

impl Default for Proxies {
    fn default() -> (proxies: Proxies)
        ensures
            proxies@ == Seq::<ProxyView>::empty(),
    {
        let proxies = Proxies(Vec::new());
        assert(proxies@ =~= Seq::empty());
        proxies
    }
}

impl Default for Configuration {
    fn default() -> (config: Configuration)
        ensures
            config@ == Settled::empty(),
    {
        Configuration {
            core: Core::default(),
            build: Build::default(),
            tools: Tools::default(),
            hooks: Hooks::default(),
            watch: Watch::default(),
            serve: Serve::default(),
            clean: Clean::default(),
            proxies: Proxies::default(),
        }
    }
}

} // verus!
