//! Azure as the cloud of the appliance.

use vstd::prelude::*;
use crate::Appliance;
use crate::config::{
    init_model, plan_init, InitPlan, KubeLiftConfig, KubeLiftConfigOptions, KubeLiftConfigOptionsView,
    KubeLiftConfigView,
};
use crate::error::KubeLiftError;
use crate::instance::InstanceRecord;
use crate::kubeconfig::{
    switch_model, GlobalKubeconfigView, SwitchObservation, SwitchPlan, SwitchPlanView,
};
use crate::lifecycle::{CleanPlan, DownPlan};
use crate::probe::kubelift_config_file_exists;
use crate::provision::{begin, begin_model, UpOptions, UpStep};

verus! {

#[derive(Clone, Copy, Debug)]
pub struct KubeLift;

/// What `init` writes for Azure.
pub open spec fn default_config() -> KubeLiftConfigView {
    KubeLiftConfigView {
        cloud: "AzurePublic"@,
        options: KubeLiftConfigOptionsView {
            image: "MicrosoftCBLMariner:cbl-mariner:cbl-mariner-2-gen2:latest"@,
            location: "westeurope"@,
            size: "Standard_B4ms"@,
            tags: "KUBE_CHANNEL=stable"@,
        },
    }
}

/// The defaults name an image and a location.
pub proof fn lemma_default_config_is_well_formed()
    ensures
        default_config().well_formed(),
{
    reveal_strlit("MicrosoftCBLMariner:cbl-mariner:cbl-mariner-2-gen2:latest");
    reveal_strlit("westeurope");
}

/// What `init` writes for Azure.
pub fn defaults() -> (config: KubeLiftConfig)
    ensures
        config@ == default_config(),
        config@.well_formed(),
{
    proof {
        lemma_default_config_is_well_formed();
    }
    KubeLiftConfig {
        cloud: String::from_str("AzurePublic"),
        options: KubeLiftConfigOptions {
            image: String::from_str("MicrosoftCBLMariner:cbl-mariner:cbl-mariner-2-gen2:latest"),
            location: String::from_str("westeurope"),
            size: String::from_str("Standard_B4ms"),
            tags: String::from_str("KUBE_CHANNEL=stable"),
        },
    }
}

/// Checks that what the commands need is at hand. Nothing is needed so far.
pub fn preflight() -> (checked: Result<(), KubeLiftError>)
    ensures
        checked is Ok,
{
    Ok(())
}

/// Decides what `init` does in the working directory as it is now: a
/// configuration file that is there stays, a missing one is created from
/// the defaults.
pub fn init() -> (plan: InitPlan)
    ensures
        plan@ == init_model(true, default_config()) || plan@ == init_model(
            false,
            default_config(),
        ),
{
    let config_present = kubelift_config_file_exists();
    plan_init(config_present, defaults())
}

/// Starts a provisioning run in the working directory as it is now, for an
/// instance with a freshly drawn identifier.
pub fn up(options: UpOptions) -> (first: UpStep)
    ensures
        first@.run.instance.well_formed(),
        first@ == begin_model(true, first@.run.instance, default_config(), options) || first@
            == begin_model(false, first@.run.instance, default_config(), options),
{
    let config_present = kubelift_config_file_exists();
    let instance = InstanceRecord::generate();
    begin(config_present, instance, defaults(), options)
}

impl Appliance for KubeLift {
    fn smoke(&self) -> (banner: String)
        ensures
            banner@ == "This is the Azure plugin for KubeLift!"@,
    {
        String::from_str("This is the Azure plugin for KubeLift!")
    }

    fn init(&self) -> (plan: InitPlan)
        ensures
            plan@ == init_model(true, default_config()) || plan@ == init_model(
                false,
                default_config(),
            ),
    {
        let _ = preflight();
        init()
    }

    fn up(&self, options: UpOptions) -> (first: UpStep)
        ensures
            first@.run.instance.well_formed(),
            first@ == begin_model(true, first@.run.instance, default_config(), options) || first@
                == begin_model(false, first@.run.instance, default_config(), options),
    {
        up(options)
    }

    fn down(&self, record: Option<&str>) -> (planned: Result<DownPlan, KubeLiftError>)
        ensures
            crate::lifecycle::down_view(planned) == crate::lifecycle::down_model(
                match record {
                    Some(text) => Some(text@),
                    None => None,
                },
            ),
    {
        crate::lifecycle::down(record)
    }

    fn clean(&self) -> (plan: CleanPlan) {
        crate::lifecycle::clean()
    }

    fn switch(&self) -> (planned: Result<SwitchPlan, KubeLiftError>)
        ensures
            planned matches Err(e) ==> e == KubeLiftError::Io,
            planned matches Ok(plan) ==> exists|
                target: GlobalKubeconfigView,
                stamp: Seq<char>,
                seen: SwitchObservation,
            | switch_model(target, stamp, seen) == Ok::<SwitchPlanView, KubeLiftError>(plan@),
    {
        crate::kubeconfig::switch()
    }
}

} // verus!
