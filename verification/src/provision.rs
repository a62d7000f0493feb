//! Bringing an appliance up, one decision at a time.
//!
//! A run is a value of [`UpRun`]. The program around the library carries out
//! the [`UpAction`] it is handed, reports what happened as an [`UpEvent`], and
//! receives the next action. Nothing here blocks, sleeps or calls out.

use vstd::prelude::*;
use crate::config::{ConfigSource, ConfigSourceView, KubeLiftConfig, KubeLiftConfigView};
use crate::descriptor::{Addresses, AddressesView};
use crate::error::KubeLiftError;
use crate::instance::{InstanceRecord, InstanceRecordView};
use crate::config::{kubelift_config, load_model};
use crate::descriptor::{addresses_of, discover_addresses, optional_addresses};
use crate::kubeconfig::{patch_kubeconfig, patch_model, KUBECONFIG_MODE};

verus! {

/// The port the Kubernetes API server listens on.
pub const KUBERNETES_API_PORT: u16 = 6443;

/// How often a remote operation is tried and how long to wait in between.
#[derive(Clone, Copy, Debug, PartialEq, Eq, Structural)]
pub struct RetryPolicy {
    /// Tries per remote operation, the first one included.
    pub max_attempts: u32,
    /// Wait before the second try, in milliseconds. It doubles from try to try.
    pub base_delay_ms: u64,
    /// No wait is longer than this.
    pub max_delay_ms: u64,
}

/// How long to wait for the appliance to finish configuring itself.
#[derive(Clone, Copy, Debug, PartialEq, Eq, Structural)]
pub struct RendezvousPolicy {
    /// Pause between two probes, in milliseconds.
    pub interval_ms: u64,
    /// The pauses of one run never add up to more than this.
    pub timeout_ms: u64,
    /// Probes per run.
    pub max_polls: u32,
}

/// What the operator and the defaults decide about a run.
#[derive(Clone, Copy, Debug, PartialEq, Eq, Structural)]
pub struct UpOptions {
    /// Accept marketplace terms without asking.
    pub auto_accept_terms: bool,
    pub retry: RetryPolicy,
    pub rendezvous: RendezvousPolicy,
}

impl Default for RetryPolicy {
    /// Five tries, one second before the second, never more than thirty.
    fn default() -> (policy: RetryPolicy)
        ensures
            policy == (RetryPolicy { max_attempts: 5, base_delay_ms: 1_000, max_delay_ms: 30_000 }),
    {
        RetryPolicy { max_attempts: 5, base_delay_ms: 1_000, max_delay_ms: 30_000 }
    }
}

impl Default for RendezvousPolicy {
    /// A probe every five seconds, for ten minutes.
    fn default() -> (policy: RendezvousPolicy)
        ensures
            policy == (RendezvousPolicy {
                interval_ms: 5_000,
                timeout_ms: 600_000,
                max_polls: 120,
            }),
    {
        RendezvousPolicy { interval_ms: 5_000, timeout_ms: 600_000, max_polls: 120 }
    }
}

impl UpOptions {
    /// The options of a run with the default policies.
    pub open spec fn standard(auto_accept_terms: bool) -> UpOptions {
        UpOptions {
            auto_accept_terms,
            retry: RetryPolicy { max_attempts: 5, base_delay_ms: 1_000, max_delay_ms: 30_000 },
            rendezvous: RendezvousPolicy {
                interval_ms: 5_000,
                timeout_ms: 600_000,
                max_polls: 120,
            },
        }
    }

    /// The options of a run with the default policies.
    pub fn with_defaults(auto_accept_terms: bool) -> (options: UpOptions)
        ensures
            options == UpOptions::standard(auto_accept_terms),
    {
        UpOptions {
            auto_accept_terms,
            retry: RetryPolicy::default(),
            rendezvous: RendezvousPolicy::default(),
        }
    }
}

/// The operation a run is waiting for. The variants follow the order of a
/// successful run.
#[derive(Clone, Copy, Debug, PartialEq, Eq, Structural)]
pub enum UpOp {
    /// Creating the configuration file from the defaults.
    ConfigWrite,
    /// Reading the configuration file.
    ConfigRead,
    /// Asking whether the image's terms are accepted.
    TermsQuery,
    /// Fetching the terms document.
    TermsFetch,
    /// Asking the operator to accept the terms.
    TermsPrompt,
    /// Recording the acceptance with the cloud.
    TermsAccept,
    /// Creating the resource group.
    GroupCreate,
    /// Writing the resource group descriptor to local state.
    GroupPersist,
    /// Creating the virtual machine.
    VmCreate,
    /// Writing the virtual machine descriptor to local state.
    VmPersist,
    /// Opening the API server's port.
    PortOpen,
    /// Probing the appliance for its readiness marker.
    Probe,
    /// Fetching the appliance's client configuration.
    KubeconfigFetch,
    /// Writing the patched client configuration to local state.
    KubeconfigPersist,
    /// Pointing the operator's client configuration at the appliance.
    Switch,
    /// The appliance is up.
    Ready,
    /// The run was given up.
    Failed,
}

/// The state of one provisioning run.
#[derive(Debug, PartialEq, Eq)]
pub struct UpRun {
    pub op: UpOp,
    /// A wait is outstanding, after which `op` is asked for again.
    pub paused: bool,
    /// Transient failures of `op` so far.
    pub attempts: u32,
    /// Probes so far that found the appliance not ready.
    pub polls: u32,
    pub options: UpOptions,
    pub instance: InstanceRecord,
    /// The defaults until the file was read, then its content.
    pub config: KubeLiftConfig,
    pub terms_url: String,
    pub vm_descriptor: String,
    pub addresses: Addresses,
    /// Why the run was given up, once it was.
    pub error: Option<KubeLiftError>,
}

/// Mathematical value of an [`UpRun`].
pub struct UpRunView {
    pub op: UpOp,
    pub paused: bool,
    pub attempts: nat,
    pub polls: nat,
    pub options: UpOptions,
    pub instance: InstanceRecordView,
    pub config: KubeLiftConfigView,
    pub terms_url: Seq<char>,
    pub vm_descriptor: Seq<char>,
    pub addresses: AddressesView,
    pub error: Option<KubeLiftError>,
}

impl View for UpRun {
    type V = UpRunView;

    open spec fn view(&self) -> UpRunView {
        UpRunView {
            op: self.op,
            paused: self.paused,
            attempts: self.attempts as nat,
            polls: self.polls as nat,
            options: self.options,
            instance: self.instance@,
            config: self.config@,
            terms_url: self.terms_url@,
            vm_descriptor: self.vm_descriptor@,
            addresses: self.addresses@,
            error: self.error,
        }
    }
}

/// What happened to the action last handed out.
#[derive(Debug, PartialEq, Eq)]
pub enum UpEvent {
    /// It was carried out and has nothing to report.
    Completed,
    /// What reading the configuration file produced.
    Config(ConfigSource),
    /// The cloud's answer about the image's terms.
    Terms { accepted: bool, terms_url: String },
    /// The text of the terms.
    TermsDocument(String),
    /// Whether the operator accepted the terms.
    Answer(bool),
    /// The descriptor of the resource group just created.
    ResourceGroup(String),
    /// The descriptor of the virtual machine just created.
    VirtualMachine(String),
    /// Whether the probe found the readiness marker.
    Probe(bool),
    /// The client configuration the appliance generated.
    Kubeconfig(String),
    /// It failed.
    Failed(KubeLiftError),
    /// The operator interrupted the run.
    Cancelled,
}

/// Mathematical value of an [`UpEvent`].
pub enum UpEventView {
    Completed,
    Config(ConfigSourceView),
    Terms { accepted: bool, terms_url: Seq<char> },
    TermsDocument(Seq<char>),
    Answer(bool),
    ResourceGroup(Seq<char>),
    VirtualMachine(Seq<char>),
    Probe(bool),
    Kubeconfig(Seq<char>),
    Failed(KubeLiftError),
    Cancelled,
}

impl View for UpEvent {
    type V = UpEventView;

    open spec fn view(&self) -> UpEventView {
        match self {
            UpEvent::Completed => UpEventView::Completed,
            UpEvent::Config(source) => UpEventView::Config(source@),
            UpEvent::Terms { accepted, terms_url } => UpEventView::Terms {
                accepted: *accepted,
                terms_url: terms_url@,
            },
            UpEvent::TermsDocument(text) => UpEventView::TermsDocument(text@),
            UpEvent::Answer(yes) => UpEventView::Answer(*yes),
            UpEvent::ResourceGroup(descriptor) => UpEventView::ResourceGroup(descriptor@),
            UpEvent::VirtualMachine(descriptor) => UpEventView::VirtualMachine(descriptor@),
            UpEvent::Probe(ready) => UpEventView::Probe(*ready),
            UpEvent::Kubeconfig(text) => UpEventView::Kubeconfig(text@),
            UpEvent::Failed(error) => UpEventView::Failed(*error),
            UpEvent::Cancelled => UpEventView::Cancelled,
        }
    }
}

/// What the program has to do next.
#[derive(Debug, PartialEq, Eq)]
pub enum UpAction {
    /// Create the configuration file with this content.
    WriteConfig(KubeLiftConfig),
    /// Read the configuration file.
    ReadConfig,
    /// Ask the cloud whether the terms of `image` are accepted.
    QueryTerms { image: String },
    /// Fetch the terms document.
    FetchTerms { url: String },
    /// Show the terms to the operator and ask for acceptance.
    Prompt { terms: String },
    /// Accept the terms of `image`.
    AcceptTerms { image: String },
    CreateResourceGroup { name: String, location: String },
    /// Write the resource group descriptor to local state.
    PersistResourceGroup { descriptor: String },
    CreateVm { group: String, name: String, image: String, size: String, tags: String },
    /// Write the virtual machine descriptor to local state.
    PersistVm { descriptor: String },
    OpenPort { group: String, name: String, port: u16 },
    /// Look for the readiness marker on the appliance.
    Probe { address: String },
    /// Let this many milliseconds pass.
    Wait { millis: u64 },
    /// Fetch the client configuration from the appliance.
    FetchKubeconfig { address: String },
    /// Write the client configuration to local state and, where files have
    /// permission bits, set them to `mode`.
    PersistKubeconfig { text: String, mode: u32 },
    /// Make the appliance the target of the operator's Kubernetes client.
    Switch,
    /// Nothing is left to do: the appliance is up.
    Finish,
    /// Stop, report the error, and leave local state as it is.
    Abort(KubeLiftError),
}

/// Mathematical value of an [`UpAction`].
pub enum UpActionView {
    WriteConfig(KubeLiftConfigView),
    ReadConfig,
    QueryTerms { image: Seq<char> },
    FetchTerms { url: Seq<char> },
    Prompt { terms: Seq<char> },
    AcceptTerms { image: Seq<char> },
    CreateResourceGroup { name: Seq<char>, location: Seq<char> },
    PersistResourceGroup { descriptor: Seq<char> },
    CreateVm {
        group: Seq<char>,
        name: Seq<char>,
        image: Seq<char>,
        size: Seq<char>,
        tags: Seq<char>,
    },
    PersistVm { descriptor: Seq<char> },
    OpenPort { group: Seq<char>, name: Seq<char>, port: u16 },
    Probe { address: Seq<char> },
    Wait { millis: u64 },
    FetchKubeconfig { address: Seq<char> },
    PersistKubeconfig { text: Seq<char>, mode: u32 },
    Switch,
    Finish,
    Abort(KubeLiftError),
}

impl View for UpAction {
    type V = UpActionView;

    open spec fn view(&self) -> UpActionView {
        match self {
            UpAction::WriteConfig(config) => UpActionView::WriteConfig(config@),
            UpAction::ReadConfig => UpActionView::ReadConfig,
            UpAction::QueryTerms { image } => UpActionView::QueryTerms { image: image@ },
            UpAction::FetchTerms { url } => UpActionView::FetchTerms { url: url@ },
            UpAction::Prompt { terms } => UpActionView::Prompt { terms: terms@ },
            UpAction::AcceptTerms { image } => UpActionView::AcceptTerms { image: image@ },
            UpAction::CreateResourceGroup { name, location } => UpActionView::CreateResourceGroup {
                name: name@,
                location: location@,
            },
            UpAction::PersistResourceGroup { descriptor } => UpActionView::PersistResourceGroup {
                descriptor: descriptor@,
            },
            UpAction::CreateVm { group, name, image, size, tags } => UpActionView::CreateVm {
                group: group@,
                name: name@,
                image: image@,
                size: size@,
                tags: tags@,
            },
            UpAction::PersistVm { descriptor } => UpActionView::PersistVm {
                descriptor: descriptor@,
            },
            UpAction::OpenPort { group, name, port } => UpActionView::OpenPort {
                group: group@,
                name: name@,
                port: *port,
            },
            UpAction::Probe { address } => UpActionView::Probe { address: address@ },
            UpAction::Wait { millis } => UpActionView::Wait { millis: *millis },
            UpAction::FetchKubeconfig { address } => UpActionView::FetchKubeconfig {
                address: address@,
            },
            UpAction::PersistKubeconfig { text, mode } => UpActionView::PersistKubeconfig {
                text: text@,
                mode: *mode,
            },
            UpAction::Switch => UpActionView::Switch,
            UpAction::Finish => UpActionView::Finish,
            UpAction::Abort(error) => UpActionView::Abort(*error),
        }
    }
}

/// A run after one decision, and the action that was decided.
#[derive(Debug, PartialEq, Eq)]
pub struct UpStep {
    pub run: UpRun,
    pub action: UpAction,
}

/// Mathematical value of an [`UpStep`].
pub struct UpStepView {
    pub run: UpRunView,
    pub action: UpActionView,
}

impl View for UpStep {
    type V = UpStepView;

    open spec fn view(&self) -> UpStepView {
        UpStepView { run: self.run@, action: self.action@ }
    }
}

/// `base`, doubled `times` times.
pub open spec fn doubled(base: nat, times: nat) -> nat
    decreases times,
{
    if times == 0 {
        base
    } else {
        2 * doubled(base, (times - 1) as nat)
    }
}

/// The wait after the failure that `failures` others preceded: the base wait
/// doubled once per earlier failure, but never more than the longest wait.
pub open spec fn backoff_model(policy: RetryPolicy, failures: nat) -> nat {
    let grown = doubled(policy.base_delay_ms as nat, failures);
    if grown < policy.max_delay_ms {
        grown
    } else {
        policy.max_delay_ms as nat
    }
}

/// After `polls` fruitless probes no further one is allowed: their number is
/// used up, or the pauses between them would exceed the timeout.
pub open spec fn rendezvous_exhausted(policy: RendezvousPolicy, polls: nat) -> bool {
    polls >= policy.max_polls || polls * policy.interval_ms > policy.timeout_ms
}

/// The operations that reach out to the cloud or to the appliance. Only
/// these are tried again after a transient failure.
pub open spec fn is_remote(op: UpOp) -> bool {
    match op {
        UpOp::TermsQuery
        | UpOp::TermsFetch
        | UpOp::TermsAccept
        | UpOp::GroupCreate
        | UpOp::VmCreate
        | UpOp::PortOpen
        | UpOp::Probe
        | UpOp::KubeconfigFetch => true,
        _ => false,
    }
}

/// A run that needs no further action.
pub open spec fn is_terminal(op: UpOp) -> bool {
    op == UpOp::Ready || op == UpOp::Failed
}

/// The action that asks for the remote operation `run.op`.
pub open spec fn request_model(run: UpRunView) -> UpActionView {
    match run.op {
        UpOp::TermsQuery => UpActionView::QueryTerms { image: run.config.options.image },
        UpOp::TermsFetch => UpActionView::FetchTerms { url: run.terms_url },
        UpOp::TermsAccept => UpActionView::AcceptTerms { image: run.config.options.image },
        UpOp::GroupCreate => UpActionView::CreateResourceGroup {
            name: run.instance.resource_group_name,
            location: run.config.options.location,
        },
        UpOp::VmCreate => UpActionView::CreateVm {
            group: run.instance.resource_group_name,
            name: run.instance.instance_id,
            image: run.config.options.image,
            size: run.config.options.size,
            tags: run.config.options.tags,
        },
        UpOp::PortOpen => UpActionView::OpenPort {
            group: run.instance.resource_group_name,
            name: run.instance.instance_id,
            port: KUBERNETES_API_PORT,
        },
        UpOp::Probe => UpActionView::Probe { address: run.addresses.public_ip },
        UpOp::KubeconfigFetch => UpActionView::FetchKubeconfig {
            address: run.addresses.public_ip,
        },
        _ => UpActionView::Abort(KubeLiftError::OutOfTurn),
    }
}

/// The run is given up for `error`.
pub open spec fn fail_model(run: UpRunView, error: KubeLiftError) -> UpStepView {
    UpStepView {
        run: UpRunView { op: UpOp::Failed, paused: false, error: Some(error), ..run },
        action: UpActionView::Abort(error),
    }
}

/// The run moves on to the remote operation `op` and asks for it.
pub open spec fn proceed_model(run: UpRunView, op: UpOp) -> UpStepView {
    let next = UpRunView { op, paused: false, attempts: 0, ..run };
    UpStepView { run: next, action: request_model(next) }
}

/// The run moves on to the local operation `op`, asked for by `action`.
pub open spec fn hand_model(run: UpRunView, op: UpOp, action: UpActionView) -> UpStepView {
    UpStepView { run: UpRunView { op, paused: false, attempts: 0, ..run }, action }
}

/// What a run does about a failure of its operation: a transient failure of
/// a remote operation is answered by a wait and another try while tries are
/// left, everything else ends the run.
pub open spec fn failure_model(run: UpRunView, error: KubeLiftError) -> UpStepView {
    if error.retry_eligible() && is_remote(run.op) && !run.paused && run.attempts + 1
        < run.options.retry.max_attempts {
        UpStepView {
            run: UpRunView { paused: true, attempts: run.attempts + 1, ..run },
            action: UpActionView::Wait {
                millis: backoff_model(run.options.retry, run.attempts) as u64,
            },
        }
    } else {
        fail_model(run, error)
    }
}

/// What a run that is not paused does about the report of its operation.
/// `found` is what the virtual machine descriptor gives as addresses.
pub open spec fn report_model(
    run: UpRunView,
    event: UpEventView,
    found: Option<AddressesView>,
) -> UpStepView {
    match (run.op, event) {
        (UpOp::ConfigWrite, UpEventView::Completed) => hand_model(
            run,
            UpOp::ConfigRead,
            UpActionView::ReadConfig,
        ),
        (UpOp::ConfigRead, UpEventView::Config(source)) => match load_model(source) {
            Ok(config) => proceed_model(UpRunView { config, ..run }, UpOp::TermsQuery),
            Err(e) => fail_model(run, KubeLiftError::Config(e)),
        },
        (UpOp::TermsQuery, UpEventView::Terms { accepted, terms_url }) => if accepted {
            proceed_model(run, UpOp::GroupCreate)
        } else {
            proceed_model(UpRunView { terms_url, ..run }, UpOp::TermsFetch)
        },
        (UpOp::TermsFetch, UpEventView::TermsDocument(terms)) => if run.options.auto_accept_terms {
            proceed_model(run, UpOp::TermsAccept)
        } else {
            hand_model(run, UpOp::TermsPrompt, UpActionView::Prompt { terms })
        },
        (UpOp::TermsPrompt, UpEventView::Answer(yes)) => if yes {
            proceed_model(run, UpOp::TermsAccept)
        } else {
            fail_model(run, KubeLiftError::UserDeclined)
        },
        (UpOp::TermsAccept, UpEventView::Completed) => proceed_model(run, UpOp::GroupCreate),
        (UpOp::GroupCreate, UpEventView::ResourceGroup(descriptor)) => hand_model(
            run,
            UpOp::GroupPersist,
            UpActionView::PersistResourceGroup { descriptor },
        ),
        (UpOp::GroupPersist, UpEventView::Completed) => proceed_model(run, UpOp::VmCreate),
        (UpOp::VmCreate, UpEventView::VirtualMachine(descriptor)) => hand_model(
            UpRunView { vm_descriptor: descriptor, ..run },
            UpOp::VmPersist,
            UpActionView::PersistVm { descriptor },
        ),
        (UpOp::VmPersist, UpEventView::Completed) => proceed_model(run, UpOp::PortOpen),
        (UpOp::PortOpen, UpEventView::Completed) => match found {
            Some(addresses) => proceed_model(
                UpRunView { addresses, polls: 0, ..run },
                UpOp::Probe,
            ),
            None => fail_model(
                run,
                KubeLiftError::Provider(crate::error::ProviderError::Permanent),
            ),
        },
        (UpOp::Probe, UpEventView::Probe(ready)) => if ready {
            proceed_model(run, UpOp::KubeconfigFetch)
        } else if rendezvous_exhausted(run.options.rendezvous, run.polls + 1) {
            fail_model(run, KubeLiftError::Timeout)
        } else {
            UpStepView {
                run: UpRunView { paused: true, attempts: 0, polls: run.polls + 1, ..run },
                action: UpActionView::Wait { millis: run.options.rendezvous.interval_ms },
            }
        },
        (UpOp::KubeconfigFetch, UpEventView::Kubeconfig(text)) => hand_model(
            run,
            UpOp::KubeconfigPersist,
            UpActionView::PersistKubeconfig {
                text: patch_model(text, run.addresses),
                mode: KUBECONFIG_MODE,
            },
        ),
        (UpOp::KubeconfigPersist, UpEventView::Completed) => hand_model(
            run,
            UpOp::Switch,
            UpActionView::Switch,
        ),
        (UpOp::Switch, UpEventView::Completed) => hand_model(
            run,
            UpOp::Ready,
            UpActionView::Finish,
        ),
        _ => fail_model(run, KubeLiftError::OutOfTurn),
    }
}

/// The decision a run takes on an event.
///
/// A finished run stays finished. An interrupt ends the run. A failure is
/// handled as [`failure_model`] says. The end of a wait asks for the pending
/// operation again. Everything else is the report of the pending operation,
/// handled as [`report_model`] says.
pub open spec fn advance_model(
    run: UpRunView,
    event: UpEventView,
    found: Option<AddressesView>,
) -> UpStepView {
    if run.op == UpOp::Ready {
        UpStepView { run, action: UpActionView::Finish }
    } else if run.op == UpOp::Failed {
        UpStepView {
            run,
            action: UpActionView::Abort(
                match run.error {
                    Some(e) => e,
                    None => KubeLiftError::OutOfTurn,
                },
            ),
        }
    } else {
        match event {
            UpEventView::Cancelled => fail_model(run, KubeLiftError::Cancelled),
            UpEventView::Failed(error) => failure_model(run, error),
            _ => if run.paused {
                if event == UpEventView::Completed {
                    UpStepView { run: UpRunView { paused: false, ..run }, action: request_model(run) }
                } else {
                    fail_model(run, KubeLiftError::OutOfTurn)
                }
            } else {
                report_model(run, event, found)
            },
        }
    }
}

/// How a run starts: with the defaults as configuration and nothing
/// discovered yet. A missing configuration file is created first.
pub open spec fn begin_model(
    config_present: bool,
    instance: InstanceRecordView,
    defaults: KubeLiftConfigView,
    options: UpOptions,
) -> UpStepView {
    let run = UpRunView {
        op: if config_present {
            UpOp::ConfigRead
        } else {
            UpOp::ConfigWrite
        },
        paused: false,
        attempts: 0,
        polls: 0,
        options,
        instance,
        config: defaults,
        terms_url: Seq::empty(),
        vm_descriptor: Seq::empty(),
        addresses: AddressesView { private_ip: Seq::empty(), public_ip: Seq::empty() },
        error: None,
    };
    UpStepView {
        run,
        action: if config_present {
            UpActionView::ReadConfig
        } else {
            UpActionView::WriteConfig(defaults)
        },
    }
}

/// Doubling never shrinks.
pub proof fn lemma_doubled_monotonic(base: nat, fewer: nat, more: nat)
    requires
        fewer <= more,
    ensures
        doubled(base, fewer) <= doubled(base, more),
    decreases more,
{
    if fewer < more {
        lemma_doubled_monotonic(base, fewer, (more - 1) as nat);
    }
}

/// Doubling nothing gives nothing.
pub proof fn lemma_doubled_zero(times: nat)
    ensures
        doubled(0, times) == 0,
    decreases times,
{
    if times > 0 {
        lemma_doubled_zero((times - 1) as nat);
    }
}

/// The wait after the failure that `failures` others preceded.
pub fn backoff_delay(policy: &RetryPolicy, failures: u32) -> (millis: u64)
    ensures
        millis == backoff_model(*policy, failures as nat),
        millis <= policy.max_delay_ms,
{
    let base: u64 = policy.base_delay_ms;
    let cap: u64 = policy.max_delay_ms;
    if base >= cap {
        proof {
            lemma_doubled_monotonic(base as nat, 0, failures as nat);
        }
        return cap;
    }
    if base == 0 {
        proof {
            lemma_doubled_zero(failures as nat);
        }
        return 0;
    }
    let mut delay: u64 = base;
    let mut i: u32 = 0;
    while i < failures && delay < cap
        invariant
            i <= failures,
            0 < delay <= cap,
            delay < cap ==> delay == doubled(base as nat, i as nat),
            delay == cap ==> doubled(base as nat, i as nat) >= cap,
        decreases failures - i,
    {
        if delay > cap - delay {
            delay = cap;
        } else {
            delay = delay + delay;
        }
        i = i + 1;
    }
    proof {
        lemma_doubled_monotonic(base as nat, i as nat, failures as nat);
    }
    delay
}

/// Whether `polls` fruitless probes use up what the policy allows.
pub fn is_rendezvous_exhausted(policy: &RendezvousPolicy, polls: u32) -> (exhausted: bool)
    ensures
        exhausted == rendezvous_exhausted(*policy, polls as nat),
{
    if polls >= policy.max_polls {
        return true;
    }
    let interval: u64 = policy.interval_ms;
    assert(polls * interval <= 0xffff_ffff * 0xffff_ffff_ffff_ffff) by (nonlinear_arith)
        requires
            0 <= polls <= 0xffff_ffff,
            0 <= interval <= 0xffff_ffff_ffff_ffff,
    ;
    let waited: u128 = (polls as u128) * (interval as u128);
    waited > policy.timeout_ms as u128
}

/// Whether `op` reaches out to the cloud or to the appliance.
pub fn remote(op: UpOp) -> (yes: bool)
    ensures
        yes == is_remote(op),
{
    match op {
        UpOp::TermsQuery
        | UpOp::TermsFetch
        | UpOp::TermsAccept
        | UpOp::GroupCreate
        | UpOp::VmCreate
        | UpOp::PortOpen
        | UpOp::Probe
        | UpOp::KubeconfigFetch => true,
        _ => false,
    }
}

impl UpRun {
    /// Whether the run needs no further action.
    pub fn finished(&self) -> (done: bool)
        ensures
            done == is_terminal(self@.op),
    {
        match self.op {
            UpOp::Ready | UpOp::Failed => true,
            _ => false,
        }
    }

    /// The action that asks for the pending remote operation.
    pub fn request(&self) -> (action: UpAction)
        ensures
            action@ == request_model(self@),
    {
        match self.op {
            UpOp::TermsQuery => UpAction::QueryTerms { image: self.config.options.image.clone() },
            UpOp::TermsFetch => UpAction::FetchTerms { url: self.terms_url.clone() },
            UpOp::TermsAccept => UpAction::AcceptTerms { image: self.config.options.image.clone() },
            UpOp::GroupCreate => UpAction::CreateResourceGroup {
                name: self.instance.resource_group_name.clone(),
                location: self.config.options.location.clone(),
            },
            UpOp::VmCreate => UpAction::CreateVm {
                group: self.instance.resource_group_name.clone(),
                name: self.instance.instance_id.clone(),
                image: self.config.options.image.clone(),
                size: self.config.options.size.clone(),
                tags: self.config.options.tags.clone(),
            },
            UpOp::PortOpen => UpAction::OpenPort {
                group: self.instance.resource_group_name.clone(),
                name: self.instance.instance_id.clone(),
                port: KUBERNETES_API_PORT,
            },
            UpOp::Probe => UpAction::Probe { address: self.addresses.public_ip.clone() },
            UpOp::KubeconfigFetch => UpAction::FetchKubeconfig {
                address: self.addresses.public_ip.clone(),
            },
            _ => UpAction::Abort(KubeLiftError::OutOfTurn),
        }
    }

    fn fail(self, error: KubeLiftError) -> (step: UpStep)
        ensures
            step@ == fail_model(self@, error),
    {
        UpStep {
            run: UpRun { op: UpOp::Failed, paused: false, error: Some(error), ..self },
            action: UpAction::Abort(error),
        }
    }

    fn proceed(self, op: UpOp) -> (step: UpStep)
        ensures
            step@ == proceed_model(self@, op),
    {
        let run = UpRun { op, paused: false, attempts: 0, ..self };
        let action = run.request();
        UpStep { run, action }
    }

    fn hand(self, op: UpOp, action: UpAction) -> (step: UpStep)
        ensures
            step@ == hand_model(self@, op, action@),
    {
        UpStep { run: UpRun { op, paused: false, attempts: 0, ..self }, action }
    }

    fn on_failure(self, error: KubeLiftError) -> (step: UpStep)
        ensures
            step@ == failure_model(self@, error),
    {
        if error.is_retry_eligible() && remote(self.op) && !self.paused
            && self.attempts < u32::MAX && self.attempts + 1 < self.options.retry.max_attempts {
            let millis = backoff_delay(&self.options.retry, self.attempts);
            let attempts: u32 = self.attempts + 1;
            UpStep { run: UpRun { paused: true, attempts, ..self }, action: UpAction::Wait { millis } }
        } else {
            self.fail(error)
        }
    }

    fn on_report(self, event: UpEvent, found: Option<Addresses>) -> (step: UpStep)
        ensures
            step@ == report_model(self@, event@, optional_addresses(found)),
    {
        match (self.op, event) {
            (UpOp::ConfigWrite, UpEvent::Completed) => self.hand(
                UpOp::ConfigRead,
                UpAction::ReadConfig,
            ),
            (UpOp::ConfigRead, UpEvent::Config(source)) => match kubelift_config(source) {
                Ok(config) => {
                    let run = UpRun { config, ..self };
                    run.proceed(UpOp::TermsQuery)
                },
                Err(e) => self.fail(KubeLiftError::Config(e)),
            },
            (UpOp::TermsQuery, UpEvent::Terms { accepted, terms_url }) => {
                if accepted {
                    self.proceed(UpOp::GroupCreate)
                } else {
                    let run = UpRun { terms_url, ..self };
                    run.proceed(UpOp::TermsFetch)
                }
            },
            (UpOp::TermsFetch, UpEvent::TermsDocument(terms)) => {
                if self.options.auto_accept_terms {
                    self.proceed(UpOp::TermsAccept)
                } else {
                    self.hand(UpOp::TermsPrompt, UpAction::Prompt { terms })
                }
            },
            (UpOp::TermsPrompt, UpEvent::Answer(yes)) => {
                if yes {
                    self.proceed(UpOp::TermsAccept)
                } else {
                    self.fail(KubeLiftError::UserDeclined)
                }
            },
            (UpOp::TermsAccept, UpEvent::Completed) => self.proceed(UpOp::GroupCreate),
            (UpOp::GroupCreate, UpEvent::ResourceGroup(descriptor)) => self.hand(
                UpOp::GroupPersist,
                UpAction::PersistResourceGroup { descriptor },
            ),
            (UpOp::GroupPersist, UpEvent::Completed) => self.proceed(UpOp::VmCreate),
            (UpOp::VmCreate, UpEvent::VirtualMachine(descriptor)) => {
                let run = UpRun { vm_descriptor: descriptor.clone(), ..self };
                run.hand(UpOp::VmPersist, UpAction::PersistVm { descriptor })
            },
            (UpOp::VmPersist, UpEvent::Completed) => self.proceed(UpOp::PortOpen),
            (UpOp::PortOpen, UpEvent::Completed) => match found {
                Some(addresses) => {
                    let run = UpRun { addresses, polls: 0, ..self };
                    run.proceed(UpOp::Probe)
                },
                None => self.fail(KubeLiftError::Provider(crate::error::ProviderError::Permanent)),
            },
            (UpOp::Probe, UpEvent::Probe(ready)) => {
                if ready {
                    self.proceed(UpOp::KubeconfigFetch)
                } else if self.polls == u32::MAX || is_rendezvous_exhausted(
                    &self.options.rendezvous,
                    self.polls + 1,
                ) {
                    self.fail(KubeLiftError::Timeout)
                } else {
                    let polls: u32 = self.polls + 1;
                    let millis: u64 = self.options.rendezvous.interval_ms;
                    UpStep {
                        run: UpRun { paused: true, attempts: 0, polls, ..self },
                        action: UpAction::Wait { millis },
                    }
                }
            },
            (UpOp::KubeconfigFetch, UpEvent::Kubeconfig(text)) => {
                let patched = patch_kubeconfig(text.as_str(), &self.addresses);
                self.hand(
                    UpOp::KubeconfigPersist,
                    UpAction::PersistKubeconfig { text: patched, mode: KUBECONFIG_MODE },
                )
            },
            (UpOp::KubeconfigPersist, UpEvent::Completed) => self.hand(
                UpOp::Switch,
                UpAction::Switch,
            ),
            (UpOp::Switch, UpEvent::Completed) => self.hand(UpOp::Ready, UpAction::Finish),
            _ => self.fail(KubeLiftError::OutOfTurn),
        }
    }
}

/// Takes the decision of `run` on `event`. `found` is what the run's virtual
/// machine descriptor gives as addresses; it is read only when the port was
/// opened and the addresses are due.
pub fn advance(run: UpRun, event: UpEvent, found: Option<Addresses>) -> (step: UpStep)
    ensures
        step@ == advance_model(run@, event@, optional_addresses(found)),
{
    match run.op {
        UpOp::Ready => UpStep { run, action: UpAction::Finish },
        UpOp::Failed => {
            let error = match run.error {
                Some(e) => e,
                None => KubeLiftError::OutOfTurn,
            };
            UpStep { run, action: UpAction::Abort(error) }
        },
        _ => match event {
            UpEvent::Cancelled => run.fail(KubeLiftError::Cancelled),
            UpEvent::Failed(error) => run.on_failure(error),
            event => {
                if run.paused {
                    match event {
                        UpEvent::Completed => {
                            let action = run.request();
                            UpStep { run: UpRun { paused: false, ..run }, action }
                        },
                        _ => run.fail(KubeLiftError::OutOfTurn),
                    }
                } else {
                    run.on_report(event, found)
                }
            },
        },
    }
}

/// Takes the decision of `run` on `event`, reading the appliance's addresses
/// out of the run's virtual machine descriptor when they are due.
pub fn step(run: UpRun, event: UpEvent) -> (next: UpStep)
    ensures
        next@ == advance_model(run@, event@, addresses_of(run@.vm_descriptor)),
{
    let due = match (run.op, &event) {
        (UpOp::PortOpen, UpEvent::Completed) => !run.paused,
        _ => false,
    };
    let found = if due {
        discover_addresses(run.vm_descriptor.as_str())
    } else {
        None
    };
    advance(run, event, found)
}

/// Starts a run for `instance`.
pub fn begin(
    config_present: bool,
    instance: InstanceRecord,
    defaults: KubeLiftConfig,
    options: UpOptions,
) -> (step: UpStep)
    ensures
        step@ == begin_model(config_present, instance@, defaults@, options),
{
    let run = UpRun {
        op: if config_present {
            UpOp::ConfigRead
        } else {
            UpOp::ConfigWrite
        },
        paused: false,
        attempts: 0,
        polls: 0,
        options,
        instance,
        config: defaults.clone(),
        terms_url: String::new(),
        vm_descriptor: String::new(),
        addresses: Addresses { private_ip: String::new(), public_ip: String::new() },
        error: None,
    };
    let action = if config_present {
        UpAction::ReadConfig
    } else {
        UpAction::WriteConfig(defaults)
    };
    UpStep { run, action }
}

/// Position of an operation in a successful run, counted from the end.
pub open spec fn rank(op: UpOp) -> nat {
    match op {
        UpOp::ConfigWrite => 15,
        UpOp::ConfigRead => 14,
        UpOp::TermsQuery => 13,
        UpOp::TermsFetch => 12,
        UpOp::TermsPrompt => 11,
        UpOp::TermsAccept => 10,
        UpOp::GroupCreate => 9,
        UpOp::GroupPersist => 8,
        UpOp::VmCreate => 7,
        UpOp::VmPersist => 6,
        UpOp::PortOpen => 5,
        UpOp::Probe => 4,
        UpOp::KubeconfigFetch => 3,
        UpOp::KubeconfigPersist => 2,
        UpOp::Switch => 1,
        UpOp::Ready => 0,
        UpOp::Failed => 0,
    }
}

/// What a run has left: operations, probes, tries, and an outstanding wait.
pub open spec fn remaining(run: UpRunView) -> (nat, nat, nat, nat) {
    (
        rank(run.op),
        if run.polls < run.options.rendezvous.max_polls {
            (run.options.rendezvous.max_polls - run.polls) as nat
        } else {
            0
        },
        if run.attempts < run.options.retry.max_attempts {
            (run.options.retry.max_attempts - run.attempts) as nat
        } else {
            0
        },
        if run.paused {
            1
        } else {
            0
        },
    )
}

/// `a` comes before `b` when the two are compared place by place.
pub open spec fn less(a: (nat, nat, nat, nat), b: (nat, nat, nat, nat)) -> bool {
    ||| a.0 < b.0
    ||| (a.0 == b.0 && a.1 < b.1)
    ||| (a.0 == b.0 && a.1 == b.1 && a.2 < b.2)
    ||| (a.0 == b.0 && a.1 == b.1 && a.2 == b.2 && a.3 < b.3)
}

impl UpRunView {
    /// What holds of every run that [`begin`] started: it is for a well-formed
    /// instance, it records an error exactly when it was given up, and once
    /// the configuration was read, it is a usable one.
    pub open spec fn well_formed(self) -> bool {
        &&& self.instance.well_formed()
        &&& (self.op == UpOp::Failed <==> self.error is Some)
        &&& (rank(self.op) < rank(UpOp::ConfigRead) && self.op != UpOp::Failed
            ==> self.config.well_formed())
    }
}

/// Every decision uses up something: each unfinished run has strictly less
/// left after an event than before. Since nothing left can grow without end,
/// no run goes on forever: retries and probes are bounded.
pub proof fn lemma_every_decision_makes_progress(
    run: UpRunView,
    event: UpEventView,
    found: Option<AddressesView>,
)
    requires
        !is_terminal(run.op),
    ensures
        less(remaining(advance_model(run, event, found).run), remaining(run)),
{
}

/// A finished run stays as it is, whatever is reported to it, and asks for
/// nothing but to stop.
pub proof fn lemma_finished_run_stays(
    run: UpRunView,
    event: UpEventView,
    found: Option<AddressesView>,
)
    requires
        is_terminal(run.op),
    ensures
        advance_model(run, event, found).run == run,
        advance_model(run, event, found).action is Finish || advance_model(
            run,
            event,
            found,
        ).action is Abort,
{
}

/// An interrupt, a failure that is not transient, and a refusal of the terms
/// each end an unfinished run at once: the next action is to stop with that
/// error, and no remote operation is asked for any more.
pub proof fn lemma_fatal_event_ends_run(
    run: UpRunView,
    event: UpEventView,
    found: Option<AddressesView>,
)
    requires
        !is_terminal(run.op),
        event is Cancelled || (event matches UpEventView::Failed(e) && !e.retry_eligible()) || (
        run.op == UpOp::TermsPrompt && !run.paused && event == UpEventView::Answer(false)),
    ensures
        advance_model(run, event, found).run.op == UpOp::Failed,
        advance_model(run, event, found).action is Abort,
        event is Cancelled ==> advance_model(run, event, found).action == UpActionView::Abort(
            KubeLiftError::Cancelled,
        ),
        event matches UpEventView::Failed(e) ==> advance_model(run, event, found).action
            == UpActionView::Abort(e),
        event is Answer ==> advance_model(run, event, found).action == UpActionView::Abort(
            KubeLiftError::UserDeclined,
        ),
{
}

/// A transient failure of a remote operation is answered by a wait of the
/// backoff's length while tries are left, and ends the run when none is.
pub proof fn lemma_transient_failure_is_retried(run: UpRunView, found: Option<AddressesView>)
    requires
        is_remote(run.op),
        !run.paused,
    ensures
        ({
            let event = UpEventView::Failed(
                KubeLiftError::Provider(crate::error::ProviderError::Transient),
            );
            let step = advance_model(run, event, found);
            if run.attempts + 1 < run.options.retry.max_attempts {
                &&& step.run.op == run.op
                &&& step.run.paused
                &&& step.run.attempts == run.attempts + 1
                &&& step.action == UpActionView::Wait {
                    millis: backoff_model(run.options.retry, run.attempts) as u64,
                }
                &&& advance_model(step.run, UpEventView::Completed, found).action == request_model(
                    run,
                )
            } else {
                step.run.op == UpOp::Failed
            }
        }),
{
}

/// Nothing is created in the cloud before the terms of the image are
/// settled: a resource group is asked for only when the cloud reported the
/// terms as accepted, when their acceptance was recorded, or when an earlier
/// request for the group is repeated.
pub proof fn lemma_nothing_is_created_before_terms_are_settled(
    run: UpRunView,
    event: UpEventView,
    found: Option<AddressesView>,
)
    requires
        advance_model(run, event, found).action is CreateResourceGroup,
    ensures
        ({
            ||| run.op == UpOp::GroupCreate
            ||| (run.op == UpOp::TermsAccept && event == UpEventView::Completed)
            ||| (run.op == UpOp::TermsQuery && event is Terms && event->accepted)
        }),
{
}

/// The wait for the appliance is bounded. A probe that finds the appliance
/// not ready is followed by a pause of the interval's length only while
/// probes are left and the pauses so far, this one included, stay within
/// the timeout. Otherwise the run ends as timed out.
pub proof fn lemma_rendezvous_is_bounded(run: UpRunView, found: Option<AddressesView>)
    requires
        run.op == UpOp::Probe,
        !run.paused,
    ensures
        ({
            let policy = run.options.rendezvous;
            let step = advance_model(run, UpEventView::Probe(false), found);
            if run.polls + 1 < policy.max_polls && (run.polls + 1) * policy.interval_ms
                <= policy.timeout_ms {
                &&& step.action == UpActionView::Wait { millis: policy.interval_ms }
                &&& step.run.op == UpOp::Probe
                &&& step.run.paused
                &&& step.run.polls == run.polls + 1
            } else {
                &&& step.action == UpActionView::Abort(KubeLiftError::Timeout)
                &&& step.run.op == UpOp::Failed
                &&& step.run.error == Some(KubeLiftError::Timeout)
            }
        }),
{
}

/// A descriptor the cloud hands back is written to local state before
/// anything else is asked for, so that a later failure leaves enough behind
/// to tear the resources down.
pub proof fn lemma_descriptor_is_persisted_first(
    run: UpRunView,
    descriptor: Seq<char>,
    found: Option<AddressesView>,
)
    requires
        !run.paused,
    ensures
        run.op == UpOp::GroupCreate ==> advance_model(
            run,
            UpEventView::ResourceGroup(descriptor),
            found,
        ).action == (UpActionView::PersistResourceGroup { descriptor }),
        run.op == UpOp::VmCreate ==> advance_model(
            run,
            UpEventView::VirtualMachine(descriptor),
            found,
        ).action == (UpActionView::PersistVm { descriptor }),
{
}

/// The client configuration that is written to local state is the one the
/// appliance generated, patched with the addresses discovered before, and it
/// is to be readable by its owner alone.
pub proof fn lemma_kubeconfig_is_patched_before_it_is_persisted(
    run: UpRunView,
    text: Seq<char>,
    found: Option<AddressesView>,
)
    requires
        run.op == UpOp::KubeconfigFetch,
        !run.paused,
    ensures
        advance_model(run, UpEventView::Kubeconfig(text), found).action
            == (UpActionView::PersistKubeconfig {
            text: patch_model(text, run.addresses),
            mode: KUBECONFIG_MODE,
        }),
        KUBECONFIG_MODE == 0o600,
{
}

/// No decision changes the instance a run is for, and no decision makes a
/// well-formed run ill-formed.
pub proof fn lemma_advance_keeps_well_formed(
    run: UpRunView,
    event: UpEventView,
    found: Option<AddressesView>,
)
    requires
        run.well_formed(),
    ensures
        advance_model(run, event, found).run.well_formed(),
        advance_model(run, event, found).run.instance == run.instance,
{
}

/// A run started for a well-formed instance is well-formed.
pub proof fn lemma_begin_is_well_formed(
    config_present: bool,
    instance: InstanceRecordView,
    defaults: KubeLiftConfigView,
    options: UpOptions,
)
    requires
        instance.well_formed(),
    ensures
        begin_model(config_present, instance, defaults, options).run.well_formed(),
{
}

/// Whatever a well-formed run asks the cloud to create carries the name of
/// its instance: the group is `kubelift-` and the identifier, the machine is
/// the identifier, and image and location are not empty.
pub proof fn lemma_requests_name_the_instance(
    run: UpRunView,
    event: UpEventView,
    found: Option<AddressesView>,
)
    requires
        run.well_formed(),
    ensures
        ({
            let step = advance_model(run, event, found);
            &&& step.action matches UpActionView::CreateResourceGroup { name, location } ==> {
                &&& name == crate::instance::group_name_of(run.instance.instance_id)
                &&& crate::instance::valid_instance_id(run.instance.instance_id)
                &&& location.len() > 0
            }
            &&& step.action matches UpActionView::CreateVm { group, name, image, .. } ==> {
                &&& group == crate::instance::group_name_of(run.instance.instance_id)
                &&& name == run.instance.instance_id
                &&& image.len() > 0
            }
        }),
{
}

} // verus!
