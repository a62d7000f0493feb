//! Tearing the appliance down and removing what a run left behind.

use vstd::prelude::*;
use crate::descriptor::{group_of, optional_text, resource_group_of};
use crate::error::{KubeLiftError, ProviderError};
use crate::probe::{kubelift_config_file_exists, state_dir_exists};

verus! {

/// What `clean` removes. What is not there is not removed, and its absence
/// is no error.
#[derive(Clone, Copy, Debug, PartialEq, Eq, Structural)]
pub struct CleanPlan {
    /// Remove the hidden state directory with all it holds.
    pub remove_state_dir: bool,
    /// Remove the configuration file.
    pub remove_config: bool,
}

impl CleanPlan {
    /// The plan removes nothing.
    pub open spec fn is_empty(self) -> bool {
        !self.remove_state_dir && !self.remove_config
    }
}

/// `clean` removes exactly what is present.
pub open spec fn clean_model(state_dir_present: bool, config_present: bool) -> CleanPlan {
    CleanPlan { remove_state_dir: state_dir_present, remove_config: config_present }
}

/// Decides what `clean` removes, given what is on disk.
pub fn plan_clean(state_dir_present: bool, config_present: bool) -> (plan: CleanPlan)
    ensures
        plan == clean_model(state_dir_present, config_present),
        !state_dir_present && !config_present ==> plan.is_empty(),
{
    CleanPlan { remove_state_dir: state_dir_present, remove_config: config_present }
}

/// Decides what `clean` removes in the working directory as it is now.
pub fn clean() -> (plan: CleanPlan) {
    let state_dir_present = state_dir_exists();
    let config_present = kubelift_config_file_exists();
    plan_clean(state_dir_present, config_present)
}

/// What `down` has to do.
#[derive(Debug, PartialEq, Eq)]
pub enum DownPlan {
    /// No resource group is on record: there is nothing to tear down, and
    /// nothing is asked of the cloud.
    NothingToTearDown,
    /// Ask the cloud to delete this resource group, without waiting for the
    /// deletion to finish, and clean up once the request was taken.
    TearDown { resource_group: String },
}

/// Mathematical value of a [`DownPlan`].
pub enum DownPlanView {
    NothingToTearDown,
    TearDown { resource_group: Seq<char> },
}

impl View for DownPlan {
    type V = DownPlanView;

    open spec fn view(&self) -> DownPlanView {
        match self {
            DownPlan::NothingToTearDown => DownPlanView::NothingToTearDown,
            DownPlan::TearDown { resource_group } => DownPlanView::TearDown {
                resource_group: resource_group@,
            },
        }
    }
}

/// View of the result of planning a teardown.
pub open spec fn down_view(planned: Result<DownPlan, KubeLiftError>) -> Result<
    DownPlanView,
    KubeLiftError,
> {
    match planned {
        Ok(plan) => Ok(plan@),
        Err(e) => Err(e),
    }
}

/// What `down` does, given whether a resource group record is persisted and
/// which name it gives: without a record nothing, with a record that names a
/// group the deletion of that group, and with a record that names none an
/// error, since local state is unreadable.
pub open spec fn teardown_model(record_present: bool, name: Option<Seq<char>>) -> Result<
    DownPlanView,
    KubeLiftError,
> {
    if !record_present {
        Ok(DownPlanView::NothingToTearDown)
    } else {
        match name {
            Some(resource_group) => Ok(DownPlanView::TearDown { resource_group }),
            None => Err(KubeLiftError::Io),
        }
    }
}

/// What `down` does about the persisted resource group record `record`.
pub open spec fn down_model(record: Option<Seq<char>>) -> Result<DownPlanView, KubeLiftError> {
    match record {
        None => teardown_model(false, None),
        Some(text) => teardown_model(true, group_of(text)),
    }
}

/// Decides what `down` does, given whether a record is persisted and the
/// resource group it names.
pub fn plan_down(record_present: bool, name: Option<String>) -> (planned: Result<
    DownPlan,
    KubeLiftError,
>)
    ensures
        down_view(planned) == teardown_model(record_present, optional_text(name)),
{
    if !record_present {
        Ok(DownPlan::NothingToTearDown)
    } else {
        match name {
            Some(resource_group) => Ok(DownPlan::TearDown { resource_group }),
            None => Err(KubeLiftError::Io),
        }
    }
}

/// Decides what `down` does about the persisted resource group record, if
/// there is one.
pub fn down(record: Option<&str>) -> (planned: Result<DownPlan, KubeLiftError>)
    ensures
        down_view(planned) == down_model(
            match record {
                Some(text) => Some(text@),
                None => None,
            },
        ),
        record is None ==> planned == Ok::<DownPlan, KubeLiftError>(DownPlan::NothingToTearDown),
{
    match record {
        None => plan_down(false, None),
        Some(text) => plan_down(true, resource_group_of(text)),
    }
}

/// What follows the deletion request: once the cloud took it, local state is
/// removed as [`clean_model`] says. Where the cloud refused it, local state
/// stays, so that `down` can be run again.
pub open spec fn after_teardown_model(
    deletion: Result<(), ProviderError>,
    state_dir_present: bool,
    config_present: bool,
) -> Result<CleanPlan, KubeLiftError> {
    match deletion {
        Ok(_) => Ok(clean_model(state_dir_present, config_present)),
        Err(e) => Err(KubeLiftError::Provider(e)),
    }
}

/// Decides what follows the deletion request.
pub fn after_teardown(
    deletion: Result<(), ProviderError>,
    state_dir_present: bool,
    config_present: bool,
) -> (planned: Result<CleanPlan, KubeLiftError>)
    ensures
        planned == after_teardown_model(deletion, state_dir_present, config_present),
{
    match deletion {
        Ok(_) => Ok(plan_clean(state_dir_present, config_present)),
        Err(e) => Err(KubeLiftError::Provider(e)),
    }
}

} // verus!
