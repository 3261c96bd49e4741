//! Rewriting deprecated settings into their current form.
//!
//! The migration works on the decoded configuration alone and in memory: the
//! document it came from is never written. Each step that rewrites something
//! says so with one warning.

use vstd::prelude::*;
use vstd::string::StringExecFns;
use crate::error::FieldPath;
use crate::model::{
    Build, Clean, CleanView, Configuration, Core, CoreView, Hooks, Proxies, Proxy, ProxyView,
    Serve, ServeView, Settled, Tools, Watch,
};
use crate::section::flag_or_false;

verus! {

/// A deprecated construct that the migration has rewritten.
#[derive(Clone, Copy, Debug, PartialEq, Eq, Structural)]
pub enum Warning {
    /// `clean.dist` was set; its value now stands in the core setting `dist`.
    CleanDist,
    /// `serve.proxy_backend` was set; the proxy now stands in `proxies`.
    ServeProxy,
}

impl Warning {
    /// The warning in words.
    pub open spec fn text(self) -> Seq<char> {
        match self {
            Warning::CleanDist =>
                "'clean.dist' is used in the configuration. This is deprecated for the global 'dist' field and will result in an error in a future release."@,
            Warning::ServeProxy =>
                "The proxy fields in the configuration are deprecated and will be removed in a future version. Migrate those settings into an entry of the `proxies` field, which allows adding more than one."@,
        }
    }

    /// The warning in words, for the user who wrote the document.
    pub fn message(self) -> (text: String)
        ensures
            text@ == self.text(),
    {
        match self {
            Warning::CleanDist =>
                "'clean.dist' is used in the configuration. This is deprecated for the global 'dist' field and will result in an error in a future release.".to_owned(),
            Warning::ServeProxy =>
                "The proxy fields in the configuration are deprecated and will be removed in a future version. Migrate those settings into an entry of the `proxies` field, which allows adding more than one.".to_owned(),
        }
    }
}

/// A setting that could not be rewritten into its current form.
#[derive(Clone, Debug, PartialEq, Eq)]
pub struct MigrationError {
    /// The setting that the migration stopped at.
    pub path: FieldPath,
}

impl MigrationError {
    /// The error in words.
    pub open spec fn text(self) -> Seq<char> {
        "unable to migrate `"@ + self.path@.dotted() + "`"@
    }

    /// The error in words, for the user who wrote the document.
    pub fn message(&self) -> (text: String)
        ensures
            text@ == self.text(),
    {
        let mut text = "unable to migrate `".to_owned();
        text.append(self.path.dotted().as_str());
        text.append("`");
        text
    }
}

/// What every part of the configuration offers.
pub trait ConfigModel {
    /// Rewrites the deprecated settings of this part into their current
    /// form, where that is possible, and tells what it rewrote. A part that
    /// does not say otherwise has nothing to rewrite.
    fn migrate(&mut self) -> (outcome: Result<Vec<Warning>, MigrationError>)
        default_ensures
            outcome is Ok,
            outcome->Ok_0@ == Seq::<Warning>::empty(),
            &*final(self) == &*old(self),
    {
        Ok(Vec::new())
    }
}

/// The configuration after `clean.dist`, where it was set, has moved to the
/// core setting `dist`. The moved value replaces what `dist` held.
pub open spec fn dist_moved(config: Settled) -> Settled {
    match config.clean.dist {
        Some(dist) => Settled {
            core: CoreView { dist: Some(dist), ..config.core },
            clean: CleanView { dist: None, ..config.clean },
            ..config
        },
        None => config,
    }
}

/// The proxy that the single-proxy fields of `serve` describe, with the
/// backend `backend`. A flag that was left out is off.
pub open spec fn single_proxy(serve: ServeView, backend: Seq<char>) -> ProxyView {
    ProxyView {
        backend,
        rewrite: serve.proxy_rewrite,
        ws: flag_or_false(serve.proxy_ws),
        insecure: flag_or_false(serve.proxy_insecure),
        no_system_proxy: flag_or_false(serve.proxy_no_system_proxy),
        settings: Seq::empty(),
    }
}

/// The configuration after the single proxy of `serve`, where
/// `serve.proxy_backend` was set, has been added at the end of `proxies` and
/// all its fields in `serve` have been cleared.
pub open spec fn proxy_moved(config: Settled) -> Settled {
    match config.serve.proxy_backend {
        Some(backend) => Settled {
            serve: ServeView {
                proxy_backend: None,
                proxy_rewrite: None,
                proxy_ws: None,
                proxy_insecure: None,
                proxy_no_system_proxy: None,
                ..config.serve
            },
            proxies: config.proxies.push(single_proxy(config.serve, backend)),
            ..config
        },
        None => config,
    }
}

/// The configuration after the whole migration.
pub open spec fn migrated(config: Settled) -> Settled {
    proxy_moved(dist_moved(config))
}

/// The warnings that the migration of `config` gives, in order.
pub open spec fn warnings_of(config: Settled) -> Seq<Warning> {
    let first = if config.clean.dist is Some {
        seq![Warning::CleanDist]
    } else {
        Seq::empty()
    };
    if config.serve.proxy_backend is Some {
        first.push(Warning::ServeProxy)
    } else {
        first
    }
}

impl ConfigModel for Core {
    /// The core settings hold nothing deprecated.
    fn migrate(&mut self) -> (outcome: Result<Vec<Warning>, MigrationError>)
        ensures
            outcome is Ok,
            outcome->Ok_0@ == Seq::<Warning>::empty(),
            *final(self) == *old(self),
    {
        Ok(Vec::new())
    }
}

impl ConfigModel for Build {
    /// The section holds nothing deprecated.
    fn migrate(&mut self) -> (outcome: Result<Vec<Warning>, MigrationError>)
        ensures
            outcome is Ok,
            outcome->Ok_0@ == Seq::<Warning>::empty(),
            *final(self) == *old(self),
    {
        Ok(Vec::new())
    }
}

impl ConfigModel for Tools {
    /// The section holds nothing deprecated.
    fn migrate(&mut self) -> (outcome: Result<Vec<Warning>, MigrationError>)
        ensures
            outcome is Ok,
            outcome->Ok_0@ == Seq::<Warning>::empty(),
            *final(self) == *old(self),
    {
        Ok(Vec::new())
    }
}

impl ConfigModel for Hooks {
    /// The section holds nothing deprecated.
    fn migrate(&mut self) -> (outcome: Result<Vec<Warning>, MigrationError>)
        ensures
            outcome is Ok,
            outcome->Ok_0@ == Seq::<Warning>::empty(),
            *final(self) == *old(self),
    {
        Ok(Vec::new())
    }
}

impl ConfigModel for Proxies {
    /// The section holds nothing deprecated.
    fn migrate(&mut self) -> (outcome: Result<Vec<Warning>, MigrationError>)
        ensures
            outcome is Ok,
            outcome->Ok_0@ == Seq::<Warning>::empty(),
            *final(self) == *old(self),
    {
        Ok(Vec::new())
    }
}

impl ConfigModel for Clean {
    /// Nothing within the section is rewritten: its deprecated `dist` moves
    /// to another part, which is for the whole configuration to do.
    fn migrate(&mut self) -> (outcome: Result<Vec<Warning>, MigrationError>)
        ensures
            outcome is Ok,
            outcome->Ok_0@ == Seq::<Warning>::empty(),
            *final(self) == *old(self),
    {
        Ok(Vec::new())
    }
}

impl ConfigModel for Watch {
    /// The section holds nothing deprecated.
    fn migrate(&mut self) -> (outcome: Result<Vec<Warning>, MigrationError>)
        ensures
            outcome is Ok,
            outcome->Ok_0@ == Seq::<Warning>::empty(),
            *final(self) == *old(self),
    {
        Ok(Vec::new())
    }
}

impl ConfigModel for Serve {
    /// Nothing within the section is rewritten: its single proxy moves to
    /// another part, which is for the whole configuration to do.
    fn migrate(&mut self) -> (outcome: Result<Vec<Warning>, MigrationError>)
        ensures
            outcome is Ok,
            outcome->Ok_0@ == Seq::<Warning>::empty(),
            *final(self) == *old(self),
    {
        Ok(Vec::new())
    }
}

impl ConfigModel for Configuration {
    /// Runs all steps of the migration, in their fixed order: first each part
    /// on its own, then the steps that move a setting from one part to
    /// another.
    fn migrate(&mut self) -> (outcome: Result<Vec<Warning>, MigrationError>)
        ensures
            outcome is Ok,
            outcome->Ok_0@ == warnings_of(old(self)@),
            final(self)@ == migrated(old(self)@),
    {
        let mut warnings: Vec<Warning> = Vec::new();
        let mut told = self.core.migrate()?;
        warnings.append(&mut told);
        let mut told = self.tools.migrate()?;
        warnings.append(&mut told);
        let mut told = self.hooks.migrate()?;
        warnings.append(&mut told);
        let mut told = self.proxies.migrate()?;
        warnings.append(&mut told);
        let mut told = self.clean.migrate()?;
        warnings.append(&mut told);
        let mut told = self.build.migrate()?;
        warnings.append(&mut told);
        let mut told = self.watch.migrate()?;
        warnings.append(&mut told);
        let mut told = self.serve.migrate()?;
        warnings.append(&mut told);
        assert(warnings@ =~= Seq::<Warning>::empty());

        match self.clean.dist.take() {
            Some(dist) => {
                warnings.push(Warning::CleanDist);
                self.core.dist = Some(dist);
            },
            None => {},
        }
        assert(self@ == dist_moved(old(self)@));

        match self.serve.proxy_backend.take() {
            Some(backend) => {
                warnings.push(Warning::ServeProxy);
                let ghost before = self.proxies@;
                let proxy = Proxy {
                    backend,
                    rewrite: self.serve.proxy_rewrite.take(),
                    ws: self.serve.proxy_ws.take().unwrap_or(false),
                    insecure: self.serve.proxy_insecure.take().unwrap_or(false),
                    no_system_proxy: self.serve.proxy_no_system_proxy.take().unwrap_or(false),
                    settings: Vec::new(),
                };
                assert(proxy@.settings =~= Seq::empty());
                self.proxies.0.push(proxy);
                assert(self.proxies@ =~= before.push(proxy@));
            },
            None => {},
        }
        assert(warnings@ =~= warnings_of(old(self)@));
        Ok(warnings)
    }
}

impl Configuration {
    /// The configuration after the migration, with the warnings of the
    /// migration in their order. The configuration that is handed in is used
    /// up; nothing else is changed, and nothing is written anywhere.
    pub fn into_migrated(self) -> (outcome: Result<(Configuration, Vec<Warning>), MigrationError>)
        ensures
            outcome is Ok,
            outcome->Ok_0.0@ == migrated(self@),
            outcome->Ok_0.1@ == warnings_of(self@),
    {
        let mut config = self;
        let warnings = config.migrate()?;
        Ok((config, warnings))
    }
}

} // verus!
