//! The appliance's client configuration: patching it for access from
//! outside, and making it the operator's active configuration.

use vstd::prelude::*;
use crate::descriptor::{optional_text, Addresses, AddressesView};
use crate::error::KubeLiftError;
use crate::probe::{local_kubeconfig_exists, path_exists, LOCAL_KUBECONFIG};
use crate::text::{
    borderless, contains, count_matches, delimited, lemma_replace_counts_delimited,
    lemma_replace_puts_one_for_one, lemma_replace_removes_delimited,
    lemma_replace_removes_every_occurrence, never_overlap, occurs_at, replace, replace_all,
};

verus! {

/// Permission bits of the appliance's client configuration where the
/// platform has such bits: read and write for the owner, nothing for others.
pub const KUBECONFIG_MODE: u32 = 0o600;

/// The configuration as the appliance generated it names the appliance by
/// its private address. The patched one names it by its public address
/// wherever the private one stood.
pub open spec fn patch_model(text: Seq<char>, addresses: AddressesView) -> Seq<char> {
    replace_all(text, addresses.private_ip, addresses.public_ip)
}

/// Patches the client configuration the appliance generated.
pub fn patch_kubeconfig(text: &str, addresses: &Addresses) -> (patched: String)
    ensures
        patched@ == patch_model(text@, addresses@),
{
    replace(text, addresses.private_ip.as_str(), addresses.public_ip.as_str())
}

/// The patched configuration mentions the private address nowhere, and the
/// public address once for each time the fetched text mentioned the private one.
///
/// This needs more than two different addresses of which neither stands in
/// the other. No end of one may be a beginning of the other, or a private
/// address could form across the seam of a replacement. The public address
/// may not end the way it begins, and the fetched text may not mention it, or
/// it would be found more often than it was put in.
pub proof fn lemma_patch_swaps_addresses(text: Seq<char>, addresses: AddressesView)
    requires
        !contains(addresses.public_ip, addresses.private_ip),
        !contains(addresses.private_ip, addresses.public_ip),
        never_overlap(addresses.private_ip, addresses.public_ip),
        never_overlap(addresses.public_ip, addresses.private_ip),
        borderless(addresses.public_ip),
        !contains(text, addresses.public_ip),
    ensures
        !contains(patch_model(text, addresses), addresses.private_ip),
        count_matches(patch_model(text, addresses), addresses.private_ip) == 0,
        count_matches(patch_model(text, addresses), addresses.public_ip) == count_matches(
            text,
            addresses.private_ip,
        ),
{
    let private_ip = addresses.private_ip;
    let public_ip = addresses.public_ip;
    if private_ip.len() == 0 {
        assert(public_ip.subrange(0, 0) =~= private_ip);
        assert(occurs_at(public_ip, private_ip, 0));
    }
    if public_ip.len() == 0 {
        assert(private_ip.subrange(0, 0) =~= public_ip);
        assert(occurs_at(private_ip, public_ip, 0));
    }
    lemma_replace_removes_every_occurrence(text, private_ip, public_ip);
    lemma_replace_puts_one_for_one(text, private_ip, public_ip);
}

/// In a configuration that mentions the private address only between
/// delimiters, that is, with the end of the text or a character of neither
/// address on each side, the patch leaves no private address behind. Where
/// the fetched text does not mention the public address, the patched one
/// mentions it once for each time the fetched text mentioned the private one.
pub proof fn lemma_patch_swaps_delimited_addresses(text: Seq<char>, addresses: AddressesView)
    requires
        !contains(addresses.public_ip, addresses.private_ip),
        delimited(text, addresses.private_ip, addresses.public_ip),
    ensures
        !contains(patch_model(text, addresses), addresses.private_ip),
        count_matches(patch_model(text, addresses), addresses.private_ip) == 0,
        !contains(text, addresses.public_ip) ==> count_matches(
            patch_model(text, addresses),
            addresses.public_ip,
        ) == count_matches(text, addresses.private_ip),
{
    let private_ip = addresses.private_ip;
    let public_ip = addresses.public_ip;
    if private_ip.len() == 0 {
        assert(public_ip.subrange(0, 0) =~= private_ip);
        assert(occurs_at(public_ip, private_ip, 0));
    }
    lemma_replace_removes_delimited(text, private_ip, public_ip);
    if !contains(text, public_ip) {
        lemma_replace_counts_delimited(text, private_ip, public_ip);
    }
}

/// Where the operator's Kubernetes client looks for its configuration.
#[derive(Debug, PartialEq, Eq)]
pub struct GlobalKubeconfig {
    /// The client's directory in the operator's home.
    pub directory: String,
    /// The configuration file in that directory.
    pub path: String,
}

/// Mathematical value of a [`GlobalKubeconfig`].
pub struct GlobalKubeconfigView {
    pub directory: Seq<char>,
    pub path: Seq<char>,
}

impl View for GlobalKubeconfig {
    type V = GlobalKubeconfigView;

    open spec fn view(&self) -> GlobalKubeconfigView {
        GlobalKubeconfigView { directory: self.directory@, path: self.path@ }
    }
}

/// What was found on disk before a switch.
#[derive(Clone, Copy, Debug, PartialEq, Eq, Structural)]
pub struct SwitchObservation {
    /// The appliance's client configuration is in local state.
    pub local_present: bool,
    /// The client's directory exists.
    pub directory_present: bool,
    /// The client has a configuration file.
    pub config_present: bool,
    /// Something already stands where the backup would go.
    pub backup_present: bool,
}

/// One file copy.
#[derive(Debug, PartialEq, Eq)]
pub struct Copying {
    pub from: String,
    pub to: String,
}

/// Mathematical value of a [`Copying`].
pub struct CopyingView {
    pub from: Seq<char>,
    pub to: Seq<char>,
}

impl View for Copying {
    type V = CopyingView;

    open spec fn view(&self) -> CopyingView {
        CopyingView { from: self.from@, to: self.to@ }
    }
}

/// What a switch has to do, in the order of the fields. The three steps
/// belong together: nobody else may touch the client's configuration between
/// the first and the last.
#[derive(Debug, PartialEq, Eq)]
pub struct SwitchPlan {
    /// Create this directory, parents included.
    pub create_directory: Option<String>,
    /// Copy the client's configuration to a new file. The copy must fail
    /// rather than overwrite anything.
    pub backup: Option<Copying>,
    /// Put the appliance's configuration in the place of the client's,
    /// in one step where the platform can do that.
    pub install: Option<Copying>,
}

/// Mathematical value of a [`SwitchPlan`].
pub struct SwitchPlanView {
    pub create_directory: Option<Seq<char>>,
    pub backup: Option<CopyingView>,
    pub install: Option<CopyingView>,
}

impl View for SwitchPlan {
    type V = SwitchPlanView;

    open spec fn view(&self) -> SwitchPlanView {
        SwitchPlanView {
            create_directory: match self.create_directory {
                Some(d) => Some(d@),
                None => None,
            },
            backup: match self.backup {
                Some(c) => Some(c@),
                None => None,
            },
            install: match self.install {
                Some(c) => Some(c@),
                None => None,
            },
        }
    }
}

impl SwitchPlanView {
    /// The plan that does nothing.
    pub open spec fn nothing() -> SwitchPlanView {
        SwitchPlanView { create_directory: None, backup: None, install: None }
    }
}

/// View of a planning result.
pub open spec fn planned_view(planned: Result<SwitchPlan, KubeLiftError>) -> Result<
    SwitchPlanView,
    KubeLiftError,
> {
    match planned {
        Ok(plan) => Ok(plan@),
        Err(e) => Err(e),
    }
}

/// Where the local appliance configuration is kept.
pub open spec fn local_path() -> Seq<char> {
    LOCAL_KUBECONFIG@
}

/// The backup of the configuration at `global` taken at `stamp`: the path,
/// a dot, the stamp, and `.bak`.
pub open spec fn backup_path_of(global: Seq<char>, stamp: Seq<char>) -> Seq<char> {
    global + "."@ + stamp + ".bak"@
}

/// What a switch does.
///
/// Without an appliance configuration in local state: nothing. Otherwise the
/// appliance's configuration is installed as the client's, after the client's
/// directory was created where it is missing, and after the client's present
/// configuration, where there is one, was copied to its backup. Where the
/// backup's name is taken, the switch is refused and nothing is done.
pub open spec fn switch_model(
    target: GlobalKubeconfigView,
    stamp: Seq<char>,
    seen: SwitchObservation,
) -> Result<SwitchPlanView, KubeLiftError> {
    let install = Some(CopyingView { from: local_path(), to: target.path });
    if !seen.local_present {
        Ok(SwitchPlanView::nothing())
    } else if !seen.directory_present {
        Ok(SwitchPlanView { create_directory: Some(target.directory), backup: None, install })
    } else if !seen.config_present {
        Ok(SwitchPlanView { create_directory: None, backup: None, install })
    } else if seen.backup_present {
        Err(KubeLiftError::Io)
    } else {
        Ok(
            SwitchPlanView {
                create_directory: None,
                backup: Some(
                    CopyingView { from: target.path, to: backup_path_of(target.path, stamp) },
                ),
                install,
            },
        )
    }
}

/// The name of the backup of `global` taken at `stamp`.
pub fn backup_path(global: &str, stamp: &str) -> (path: String)
    ensures
        path@ == backup_path_of(global@, stamp@),
{
    let mut path = String::from_str(global);
    path.append(".");
    path.append(stamp);
    path.append(".bak");
    path
}

/// Decides what a switch to the appliance does, given the client's
/// configuration location, the time stamp for a backup, and what is on disk.
pub fn plan_switch(target: &GlobalKubeconfig, stamp: &str, seen: SwitchObservation) -> (planned:
    Result<SwitchPlan, KubeLiftError>)
    ensures
        planned_view(planned) == switch_model(target@, stamp@, seen),
{
    if !seen.local_present {
        return Ok(SwitchPlan { create_directory: None, backup: None, install: None });
    }
    let install = Some(
        Copying { from: String::from_str(LOCAL_KUBECONFIG), to: target.path.clone() },
    );
    if !seen.directory_present {
        Ok(SwitchPlan { create_directory: Some(target.directory.clone()), backup: None, install })
    } else if !seen.config_present {
        Ok(SwitchPlan { create_directory: None, backup: None, install })
    } else if seen.backup_present {
        Err(KubeLiftError::Io)
    } else {
        let backup = Some(
            Copying {
                from: target.path.clone(),
                to: backup_path(target.path.as_str(), stamp),
            },
        );
        Ok(SwitchPlan { create_directory: None, backup, install })
    }
}

/// Asks `dirs::home_dir` for the operator's home directory.
///
/// Trusted, and nothing is claimed of the answer: it depends on the
/// environment of the process.
#[verifier::external_body]
fn home_directory() -> Option<String> {
    dirs::home_dir().map(|home| home.to_string_lossy().to_string())
}

/// Appends `leaf` to the path `base` with `std::path::Path::join`.
///
/// Trusted, and nothing is claimed of the result: the separator is the
/// platform's.
#[verifier::external_body]
fn path_join(base: &str, leaf: &str) -> String {
    std::path::Path::new(base).join(leaf).to_string_lossy().to_string()
}

/// What the system clock shows, as a distance from the start of 1970.
#[derive(Clone, Copy, Debug, PartialEq, Eq, Structural)]
pub enum ClockReading {
    /// That long after the start of 1970.
    After { seconds: u64, nanos: u32 },
    /// That long before it.
    Before { seconds: u64, nanos: u32 },
}

/// Reads the clock with `std::time::SystemTime::now` and takes its distance
/// from `UNIX_EPOCH` with `SystemTime::duration_since`.
///
/// Trusted, and nothing is claimed of the reading: it depends on the moment
/// of the call.
#[verifier::external_body]
fn system_clock() -> ClockReading {
    match std::time::SystemTime::now().duration_since(std::time::UNIX_EPOCH) {
        Ok(after) => ClockReading::After {
            seconds: after.as_secs(),
            nanos: after.subsec_nanos(),
        },
        Err(before) => ClockReading::Before {
            seconds: before.duration().as_secs(),
            nanos: before.duration().subsec_nanos(),
        },
    }
}

/// The time `seconds` after the start of 1970 in UTC, written as RFC 3339
/// prescribes, to the second and with `Z` for the offset. `None` for a time
/// beyond the years that can be written.
pub uninterp spec fn rfc3339_seconds(seconds: i64) -> Option<Seq<char>>;

/// Makes a time of `seconds` with `chrono::DateTime::from_timestamp` and
/// writes it down with `DateTime::to_rfc3339_opts`, to the second and with
/// `Z` for the offset.
///
/// Trusted: the result is [`rfc3339_seconds`] of the argument, that is, it
/// depends on the argument alone.
#[verifier::external_body]
fn rfc3339_utc(seconds: i64) -> (stamp: Option<String>)
    ensures
        optional_text(stamp) == rfc3339_seconds(seconds),
{
    chrono::DateTime::<chrono::Utc>::from_timestamp(seconds, 0)
        .map(|at| at.to_rfc3339_opts(chrono::SecondsFormat::Secs, true))
}

/// The last full second that a clock reading has passed, counted from the
/// start of 1970.
pub open spec fn whole_seconds(reading: ClockReading) -> int {
    match reading {
        ClockReading::After { seconds, .. } => seconds as int,
        ClockReading::Before { seconds, nanos } => if nanos == 0 {
            -(seconds as int)
        } else {
            -(seconds as int) - 1
        },
    }
}

/// The stamp for a backup taken at `reading`: the last full second, written
/// as RFC 3339 prescribes. `None` for a time that cannot be written.
pub open spec fn stamp_model(reading: ClockReading) -> Option<Seq<char>> {
    let seconds = whole_seconds(reading);
    if i64::MIN <= seconds <= i64::MAX {
        rfc3339_seconds(seconds as i64)
    } else {
        None
    }
}

/// The stamp for a backup taken at `reading`.
pub fn stamp_of(reading: ClockReading) -> (stamp: Option<String>)
    ensures
        optional_text(stamp) == stamp_model(reading),
{
    let seconds: i128 = match reading {
        ClockReading::After { seconds, .. } => seconds as i128,
        ClockReading::Before { seconds, nanos } => {
            if nanos == 0 {
                -(seconds as i128)
            } else {
                -(seconds as i128) - 1
            }
        },
    };
    if seconds >= i64::MIN as i128 && seconds <= i64::MAX as i128 {
        rfc3339_utc(seconds as i64)
    } else {
        None
    }
}

/// Where the operator's Kubernetes client keeps its configuration: the file
/// `config` in the directory `.kube` of the home directory. `None` where the
/// operator has no home directory.
pub fn global_kubeconfig() -> (target: Option<GlobalKubeconfig>) {
    match home_directory() {
        Some(home) => {
            let directory = path_join(home.as_str(), ".kube");
            let path = path_join(directory.as_str(), "config");
            Some(GlobalKubeconfig { directory, path })
        },
        None => None,
    }
}

/// Decides what a switch to the appliance does now, on this machine.
///
/// The clock, the home directory and the disk are read here, so the plan is
/// the one [`switch_model`] gives for some location, stamp and observation.
/// Without a home directory, or at a time that cannot be written down, the
/// switch fails.
pub fn switch() -> (planned: Result<SwitchPlan, KubeLiftError>)
    ensures
        planned matches Err(e) ==> e == KubeLiftError::Io,
        planned matches Ok(plan) ==> exists|
            target: GlobalKubeconfigView,
            stamp: Seq<char>,
            seen: SwitchObservation,
        | switch_model(target, stamp, seen) == Ok::<SwitchPlanView, KubeLiftError>(plan@),
{
    if !local_kubeconfig_exists() {
        let plan = SwitchPlan { create_directory: None, backup: None, install: None };
        proof {
            let target = GlobalKubeconfigView { directory: Seq::empty(), path: Seq::empty() };
            let seen = SwitchObservation {
                local_present: false,
                directory_present: false,
                config_present: false,
                backup_present: false,
            };
            assert(switch_model(target, Seq::empty(), seen) == Ok::<SwitchPlanView, KubeLiftError>(
                plan@,
            ));
        }
        return Ok(plan);
    }
    let target = match global_kubeconfig() {
        Some(target) => target,
        None => return Err(KubeLiftError::Io),
    };
    let stamp = match stamp_of(system_clock()) {
        Some(stamp) => stamp,
        None => return Err(KubeLiftError::Io),
    };
    let backup = backup_path(target.path.as_str(), stamp.as_str());
    let seen = SwitchObservation {
        local_present: true,
        directory_present: path_exists(target.directory.as_str()),
        config_present: path_exists(target.path.as_str()),
        backup_present: path_exists(backup.as_str()),
    };
    let planned = plan_switch(&target, stamp.as_str(), seen);
    assert(planned matches Ok(plan) ==> switch_model(target@, stamp@, seen) == Ok::<
        SwitchPlanView,
        KubeLiftError,
    >(plan@));
    planned
}

/// The files, by path, after `plan` was carried out on `files`. Directories
/// are not files and do not show.
pub open spec fn carried_out(plan: SwitchPlanView, files: Map<Seq<char>, Seq<char>>) -> Map<
    Seq<char>,
    Seq<char>,
> {
    let backed_up = match plan.backup {
        Some(copy) => files.insert(copy.to, files[copy.from]),
        None => files,
    };
    match plan.install {
        Some(copy) => backed_up.insert(copy.to, backed_up[copy.from]),
        None => backed_up,
    }
}

/// What a switch at `stamp` finds in `files`.
pub open spec fn seen_in(
    files: Map<Seq<char>, Seq<char>>,
    target: GlobalKubeconfigView,
    stamp: Seq<char>,
    directory_present: bool,
) -> SwitchObservation {
    SwitchObservation {
        local_present: files.dom().contains(local_path()),
        directory_present,
        config_present: files.dom().contains(target.path),
        backup_present: files.dom().contains(backup_path_of(target.path, stamp)),
    }
}

/// The files after a switch at `stamp` that found `files`.
pub open spec fn switched(
    files: Map<Seq<char>, Seq<char>>,
    target: GlobalKubeconfigView,
    stamp: Seq<char>,
    directory_present: bool,
) -> Result<Map<Seq<char>, Seq<char>>, KubeLiftError> {
    match switch_model(target, stamp, seen_in(files, target, stamp, directory_present)) {
        Ok(plan) => Ok(carried_out(plan, files)),
        Err(e) => Err(e),
    }
}

/// Backups taken at different stamps have different names, and no backup has
/// the name of the configuration it saves or of the appliance's.
pub proof fn lemma_backup_names(global: Seq<char>, first: Seq<char>, second: Seq<char>)
    ensures
        backup_path_of(global, first) != global,
        backup_path_of(global, first) != local_path(),
        first != second ==> backup_path_of(global, first) != backup_path_of(global, second),
{
    reveal_strlit(".");
    reveal_strlit(".bak");
    reveal_strlit("./.kubelift/kubeconfig");
    let a = backup_path_of(global, first);
    let b = backup_path_of(global, second);
    assert(a.len() == global.len() + 1 + first.len() + 4);
    assert(a[a.len() - 1] == 'k');
    assert(local_path()[local_path().len() - 1] == 'g');
    if a == b {
        assert(first.len() == second.len());
        assert forall|i: int| 0 <= i < first.len() implies first[i] == second[i] by {
            assert(a[global.len() + 1 + i] == first[i]);
            assert(b[global.len() + 1 + i] == second[i]);
        }
        assert(first =~= second);
    }
}

/// Without an appliance configuration in local state a switch changes no
/// file: the client's configuration stays untouched.
pub proof fn lemma_switch_without_appliance_is_noop(
    files: Map<Seq<char>, Seq<char>>,
    target: GlobalKubeconfigView,
    stamp: Seq<char>,
    directory_present: bool,
)
    requires
        !files.dom().contains(local_path()),
    ensures
        switch_model(target, stamp, seen_in(files, target, stamp, directory_present)) == Ok::<
            SwitchPlanView,
            KubeLiftError,
        >(SwitchPlanView::nothing()),
        switched(files, target, stamp, directory_present) == Ok::<
            Map<Seq<char>, Seq<char>>,
            KubeLiftError,
        >(files),
{
}

/// A switch that would save the client's configuration under a name that is
/// taken is refused: no backup is ever overwritten.
pub proof fn lemma_backup_is_never_overwritten(
    files: Map<Seq<char>, Seq<char>>,
    target: GlobalKubeconfigView,
    stamp: Seq<char>,
)
    requires
        files.dom().contains(local_path()),
        files.dom().contains(target.path),
        files.dom().contains(backup_path_of(target.path, stamp)),
    ensures
        switched(files, target, stamp, true) == Err::<Map<Seq<char>, Seq<char>>, KubeLiftError>(
            KubeLiftError::Io,
        ),
{
}

/// Two switches at different stamps, against one client configuration, leave
/// two backups under different names: the first holds what the client had
/// before, the second what the first switch installed. In the end the
/// client's configuration is the appliance's.
pub proof fn lemma_two_switches_leave_two_backups(
    files: Map<Seq<char>, Seq<char>>,
    target: GlobalKubeconfigView,
    first: Seq<char>,
    second: Seq<char>,
)
    requires
        first != second,
        files.dom().contains(local_path()),
        files.dom().contains(target.path),
        !files.dom().contains(backup_path_of(target.path, first)),
        !files.dom().contains(backup_path_of(target.path, second)),
    ensures
        backup_path_of(target.path, first) != backup_path_of(target.path, second),
        switched(files, target, first, true) matches Ok(once) && switched(
            once,
            target,
            second,
            true,
        ) matches Ok(twice) && {
            &&& twice.dom().contains(backup_path_of(target.path, first))
            &&& twice.dom().contains(backup_path_of(target.path, second))
            &&& twice[backup_path_of(target.path, first)] == files[target.path]
            &&& twice[backup_path_of(target.path, second)] == files[local_path()]
            &&& twice[target.path] == files[local_path()]
            &&& twice[local_path()] == files[local_path()]
        },
{
    lemma_backup_names(target.path, first, second);
    lemma_backup_names(target.path, second, first);
}

} // verus!
