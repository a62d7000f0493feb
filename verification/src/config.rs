//! The declarative appliance configuration and the rules for creating and
//! loading it.

use vstd::prelude::*;
use crate::error::ConfigError;

verus! {

/// What to provision: where, how large, from which image, with which tags.
#[derive(Debug, PartialEq, Eq)]
pub struct KubeLiftConfigOptions {
    pub image: String,
    pub location: String,
    pub size: String,
    pub tags: String,
}

/// The whole configuration file: the cloud it is meant for and the options.
#[derive(Debug, PartialEq, Eq)]
pub struct KubeLiftConfig {
    pub cloud: String,
    pub options: KubeLiftConfigOptions,
}

/// Mathematical value of [`KubeLiftConfigOptions`].
pub struct KubeLiftConfigOptionsView {
    pub image: Seq<char>,
    pub location: Seq<char>,
    pub size: Seq<char>,
    pub tags: Seq<char>,
}

/// Mathematical value of [`KubeLiftConfig`].
pub struct KubeLiftConfigView {
    pub cloud: Seq<char>,
    pub options: KubeLiftConfigOptionsView,
}

impl View for KubeLiftConfigOptions {
    type V = KubeLiftConfigOptionsView;

    open spec fn view(&self) -> KubeLiftConfigOptionsView {
        KubeLiftConfigOptionsView {
            image: self.image@,
            location: self.location@,
            size: self.size@,
            tags: self.tags@,
        }
    }
}

impl View for KubeLiftConfig {
    type V = KubeLiftConfigView;

    open spec fn view(&self) -> KubeLiftConfigView {
        KubeLiftConfigView { cloud: self.cloud@, options: self.options@ }
    }
}

impl KubeLiftConfigView {
    /// A configuration can be provisioned from only if it names an image and
    /// a location.
    pub open spec fn well_formed(self) -> bool {
        self.options.image.len() > 0 && self.options.location.len() > 0
    }
}

impl Clone for KubeLiftConfigOptions {
    fn clone(&self) -> (copy: Self)
        ensures
            copy@ == self@,
    {
        KubeLiftConfigOptions {
            image: self.image.clone(),
            location: self.location.clone(),
            size: self.size.clone(),
            tags: self.tags.clone(),
        }
    }
}

impl Clone for KubeLiftConfig {
    fn clone(&self) -> (copy: Self)
        ensures
            copy@ == self@,
    {
        KubeLiftConfig { cloud: self.cloud.clone(), options: self.options.clone() }
    }
}

impl KubeLiftConfig {
    pub fn is_well_formed(&self) -> (ok: bool)
        ensures
            ok == self@.well_formed(),
    {
        self.options.image.as_str().unicode_len() > 0
            && self.options.location.as_str().unicode_len() > 0
    }
}

/// What reading the configuration file produced.
#[derive(Debug, PartialEq, Eq)]
pub enum ConfigSource {
    /// There is no configuration file.
    Missing,
    /// There is a file, but it is not a configuration document.
    Malformed,
    /// The document the file holds.
    Parsed(KubeLiftConfig),
}

/// Mathematical value of a [`ConfigSource`].
pub enum ConfigSourceView {
    Missing,
    Malformed,
    Parsed(KubeLiftConfigView),
}

impl View for ConfigSource {
    type V = ConfigSourceView;

    open spec fn view(&self) -> ConfigSourceView {
        match self {
            ConfigSource::Missing => ConfigSourceView::Missing,
            ConfigSource::Malformed => ConfigSourceView::Malformed,
            ConfigSource::Parsed(config) => ConfigSourceView::Parsed(config@),
        }
    }
}

/// What `init` has to do about the configuration file.
#[derive(Debug, PartialEq, Eq)]
pub enum InitPlan {
    /// A configuration file is present and stays as it is.
    Keep,
    /// No file is present: create it with this content.
    Write(KubeLiftConfig),
}

/// Mathematical value of an [`InitPlan`].
pub enum InitPlanView {
    Keep,
    Write(KubeLiftConfigView),
}

impl View for InitPlan {
    type V = InitPlanView;

    open spec fn view(&self) -> InitPlanView {
        match self {
            InitPlan::Keep => InitPlanView::Keep,
            InitPlan::Write(config) => InitPlanView::Write(config@),
        }
    }
}

/// `init` never touches an existing file, and otherwise writes the defaults.
pub open spec fn init_model(config_present: bool, defaults: KubeLiftConfigView) -> InitPlanView {
    if config_present {
        InitPlanView::Keep
    } else {
        InitPlanView::Write(defaults)
    }
}

/// Loading fails with `Missing` without a file, with `Parse` on a file that is
/// no configuration document or names no image or no location, and otherwise
/// yields the document unchanged.
pub open spec fn load_model(source: ConfigSourceView) -> Result<KubeLiftConfigView, ConfigError> {
    match source {
        ConfigSourceView::Missing => Err(ConfigError::Missing),
        ConfigSourceView::Malformed => Err(ConfigError::Parse),
        ConfigSourceView::Parsed(config) => if config.well_formed() {
            Ok(config)
        } else {
            Err(ConfigError::Parse)
        },
    }
}

/// View of a loading result.
pub open spec fn loaded_view(loaded: Result<KubeLiftConfig, ConfigError>) -> Result<
    KubeLiftConfigView,
    ConfigError,
> {
    match loaded {
        Ok(config) => Ok(config@),
        Err(e) => Err(e),
    }
}

/// Decides what `init` does, given whether a configuration file is present
/// and the defaults of the chosen cloud.
pub fn plan_init(config_present: bool, defaults: KubeLiftConfig) -> (plan: InitPlan)
    ensures
        plan@ == init_model(config_present, defaults@),
{
    if config_present {
        InitPlan::Keep
    } else {
        InitPlan::Write(defaults)
    }
}

/// Turns what was read from the configuration file into the configuration to
/// provision from.
pub fn kubelift_config(source: ConfigSource) -> (loaded: Result<KubeLiftConfig, ConfigError>)
    ensures
        loaded_view(loaded) == load_model(source@),
{
    match source {
        ConfigSource::Missing => Err(ConfigError::Missing),
        ConfigSource::Malformed => Err(ConfigError::Parse),
        ConfigSource::Parsed(config) => {
            if config.is_well_formed() {
                Ok(config)
            } else {
                Err(ConfigError::Parse)
            }
        },
    }
}

/// Creating the file from well-formed defaults and loading what was written
/// gives back exactly those defaults.
pub proof fn lemma_init_then_load(defaults: KubeLiftConfigView)
    requires
        defaults.well_formed(),
    ensures
        init_model(false, defaults) == InitPlanView::Write(defaults),
        load_model(ConfigSourceView::Parsed(defaults)) == Ok::<KubeLiftConfigView, ConfigError>(
            defaults,
        ),
{
}

/// `init` on a directory that already has a configuration plans no write, so
/// running it again changes nothing.
pub proof fn lemma_init_idempotent(defaults: KubeLiftConfigView)
    ensures
        init_model(true, defaults) == InitPlanView::Keep,
{
}

} // verus!
