use std::collections::BTreeMap;

use kubelift::config::{ConfigSource, KubeLiftConfig, KubeLiftConfigOptions};
use kubelift::descriptor::{discover_addresses, resource_group_of, Addresses};
use kubelift::error::{ConfigError, KubeLiftError, ProviderError};
use kubelift::instance::{is_valid_instance_id, InstanceRecord};
use kubelift::provision::{
    advance, backoff_delay, begin, is_rendezvous_exhausted, remote, step, RendezvousPolicy,
    RetryPolicy, UpAction, UpEvent, UpOp, UpOptions, UpRun, UpStep, KUBERNETES_API_PORT,
};

const TRANSIENT: KubeLiftError = KubeLiftError::Provider(ProviderError::Transient);
const PERMANENT: KubeLiftError = KubeLiftError::Provider(ProviderError::Permanent);

fn config() -> KubeLiftConfig {
    KubeLiftConfig {
        cloud: "AzurePublic".to_string(),
        options: KubeLiftConfigOptions {
            image: "vendor:image:v1".to_string(),
            location: "westeurope".to_string(),
            size: "Standard_B4ms".to_string(),
            tags: "env=test".to_string(),
        },
    }
}

fn options(auto_accept_terms: bool) -> UpOptions {
    UpOptions::with_defaults(auto_accept_terms)
}

fn run_at(op: UpOp) -> UpRun {
    UpRun {
        op,
        paused: false,
        attempts: 0,
        polls: 0,
        options: options(false),
        instance: InstanceRecord::from_id("abcde").unwrap(),
        config: config(),
        terms_url: "https://terms.example/v1".to_string(),
        vm_descriptor: r#"{"privateIpAddress": "10.0.0.4", "publicIpAddress": "20.103.45.67"}"#
            .to_string(),
        addresses: Addresses {
            private_ip: "10.0.0.4".to_string(),
            public_ip: "20.103.45.67".to_string(),
        },
        error: None,
    }
}

fn failed(run: UpRun, error: KubeLiftError) -> UpStep {
    UpStep {
        run: UpRun { op: UpOp::Failed, paused: false, error: Some(error), ..run },
        action: UpAction::Abort(error),
    }
}

fn create_group() -> UpAction {
    UpAction::CreateResourceGroup {
        name: "kubelift-abcde".to_string(),
        location: "westeurope".to_string(),
    }
}

fn create_vm() -> UpAction {
    UpAction::CreateVm {
        group: "kubelift-abcde".to_string(),
        name: "abcde".to_string(),
        image: "vendor:image:v1".to_string(),
        size: "Standard_B4ms".to_string(),
        tags: "env=test".to_string(),
    }
}

/// A cloud, an appliance and an operator that do what they are asked.
struct World {
    terms_accepted: bool,
    operator_accepts: bool,
    probes_until_ready: u32,
    files: BTreeMap<String, String>,
    asked: Vec<String>,
    waited: Vec<u64>,
}

impl World {
    fn new() -> World {
        World {
            terms_accepted: true,
            operator_accepts: true,
            probes_until_ready: 1,
            files: BTreeMap::new(),
            asked: Vec::new(),
            waited: Vec::new(),
        }
    }

    fn answer(&mut self, action: UpAction) -> UpEvent {
        match action {
            UpAction::WriteConfig(_) => {
                self.asked.push("write-config".to_string());
                UpEvent::Completed
            }
            UpAction::ReadConfig => {
                self.asked.push("read-config".to_string());
                UpEvent::Config(ConfigSource::Parsed(config()))
            }
            UpAction::QueryTerms { image } => {
                self.asked.push(format!("query-terms {}", image));
                UpEvent::Terms {
                    accepted: self.terms_accepted,
                    terms_url: "https://terms.example/v1".to_string(),
                }
            }
            UpAction::FetchTerms { url } => {
                self.asked.push(format!("fetch-terms {}", url));
                UpEvent::TermsDocument("You agree.".to_string())
            }
            UpAction::Prompt { terms } => {
                self.asked.push(format!("prompt {}", terms));
                UpEvent::Answer(self.operator_accepts)
            }
            UpAction::AcceptTerms { image } => {
                self.asked.push(format!("accept-terms {}", image));
                UpEvent::Completed
            }
            UpAction::CreateResourceGroup { name, location } => {
                self.asked.push(format!("create-group {} {}", name, location));
                UpEvent::ResourceGroup(format!(
                    "{{\"location\": \"{}\", \"name\": \"{}\"}}",
                    location, name
                ))
            }
            UpAction::PersistResourceGroup { descriptor } => {
                self.asked.push("persist-group".to_string());
                self.files.insert("./.kubelift/resource_group.json".to_string(), descriptor);
                UpEvent::Completed
            }
            UpAction::CreateVm { group, name, image, size, tags } => {
                self.asked.push(format!("create-vm {} {} {} {} {}", group, name, image, size, tags));
                UpEvent::VirtualMachine(format!(
                    "{{\"privateIpAddress\": \"10.0.0.4\", \"publicIpAddress\": \"20.103.45.67\", \"resourceGroup\": \"{}\"}}",
                    group
                ))
            }
            UpAction::PersistVm { descriptor } => {
                self.asked.push("persist-vm".to_string());
                self.files.insert("./.kubelift/vm.json".to_string(), descriptor);
                UpEvent::Completed
            }
            UpAction::OpenPort { group, name, port } => {
                self.asked.push(format!("open-port {} {} {}", group, name, port));
                UpEvent::Completed
            }
            UpAction::Probe { address } => {
                self.asked.push(format!("probe {}", address));
                self.probes_until_ready -= 1;
                UpEvent::Probe(self.probes_until_ready == 0)
            }
            UpAction::Wait { millis } => {
                self.waited.push(millis);
                UpEvent::Completed
            }
            UpAction::FetchKubeconfig { address } => {
                self.asked.push(format!("fetch-kubeconfig {}", address));
                UpEvent::Kubeconfig(
                    "clusters:\n- cluster:\n    server: https://10.0.0.4:6443\n".to_string(),
                )
            }
            UpAction::PersistKubeconfig { text, mode } => {
                self.asked.push(format!("persist-kubeconfig {:o}", mode));
                self.files.insert("./.kubelift/kubeconfig".to_string(), text);
                UpEvent::Completed
            }
            UpAction::Switch => {
                self.asked.push("switch".to_string());
                UpEvent::Completed
            }
            UpAction::Finish | UpAction::Abort(_) => panic!("a finished run is not answered"),
        }
    }

    /// Plays the run to its end and says how it ended.
    fn play(&mut self, first: UpStep) -> (UpRun, Result<(), KubeLiftError>) {
        let mut at = first;
        for _ in 0..10_000 {
            match at.action {
                UpAction::Finish => return (at.run, Ok(())),
                UpAction::Abort(error) => return (at.run, Err(error)),
                action => {
                    let event = self.answer(action);
                    at = step(at.run, event);
                }
            }
        }
        panic!("the run does not end");
    }
}

#[test]
fn a_run_ends_with_a_group_on_record_and_a_patched_kubeconfig() {
    let mut world = World::new();
    let first = begin(true, InstanceRecord::generate(), config(), options(false));
    let (run, outcome) = world.play(first);

    assert_eq!(outcome, Ok(()));
    assert_eq!(run.op, UpOp::Ready);
    assert_eq!(run.error, None);

    let group = resource_group_of(&world.files["./.kubelift/resource_group.json"]).unwrap();
    let id = group.strip_prefix("kubelift-").unwrap();
    assert_eq!(id.chars().count(), 5);
    assert!(is_valid_instance_id(id));
    assert_eq!(id, run.instance.instance_id);

    let kubeconfig = &world.files["./.kubelift/kubeconfig"];
    assert!(kubeconfig.contains("20.103.45.67"));
    assert_eq!(kubeconfig.matches("10.0.0.4").count(), 0);
    assert_eq!(kubeconfig, "clusters:\n- cluster:\n    server: https://20.103.45.67:6443\n");

    let found = discover_addresses(&world.files["./.kubelift/vm.json"]).unwrap();
    assert_eq!(run.addresses, found);
}

#[test]
fn a_run_asks_for_everything_in_order() {
    let mut world = World::new();
    world.terms_accepted = false;
    world.probes_until_ready = 3;
    let first = begin(false, InstanceRecord::from_id("abcde").unwrap(), config(), options(false));
    let (_, outcome) = world.play(first);

    assert_eq!(outcome, Ok(()));
    assert_eq!(
        world.asked,
        vec![
            "write-config",
            "read-config",
            "query-terms vendor:image:v1",
            "fetch-terms https://terms.example/v1",
            "prompt You agree.",
            "accept-terms vendor:image:v1",
            "create-group kubelift-abcde westeurope",
            "persist-group",
            "create-vm kubelift-abcde abcde vendor:image:v1 Standard_B4ms env=test",
            "persist-vm",
            "open-port kubelift-abcde abcde 6443",
            "probe 20.103.45.67",
            "probe 20.103.45.67",
            "probe 20.103.45.67",
            "fetch-kubeconfig 20.103.45.67",
            "persist-kubeconfig 600",
            "switch",
        ]
    );
    assert_eq!(world.waited, vec![5_000, 5_000]);
    assert_eq!(KUBERNETES_API_PORT, 6443);
}

#[test]
fn a_run_starts_by_reading_or_writing_the_configuration() {
    let instance = InstanceRecord::from_id("abcde").unwrap();
    let first = begin(true, instance.duplicate(), config(), options(true));
    assert_eq!(first.action, UpAction::ReadConfig);
    assert_eq!(
        first.run,
        UpRun {
            op: UpOp::ConfigRead,
            paused: false,
            attempts: 0,
            polls: 0,
            options: options(true),
            instance: instance.duplicate(),
            config: config(),
            terms_url: String::new(),
            vm_descriptor: String::new(),
            addresses: Addresses { private_ip: String::new(), public_ip: String::new() },
            error: None,
        }
    );

    let first = begin(false, instance, config(), options(true));
    assert_eq!(first.action, UpAction::WriteConfig(config()));
    assert_eq!(first.run.op, UpOp::ConfigWrite);

    let next = step(first.run, UpEvent::Completed);
    assert_eq!(next.action, UpAction::ReadConfig);
    assert_eq!(next.run.op, UpOp::ConfigRead);
}

#[test]
fn a_run_without_usable_configuration_ends_at_once() {
    let next = step(run_at(UpOp::ConfigRead), UpEvent::Config(ConfigSource::Missing));
    assert_eq!(next, failed(run_at(UpOp::ConfigRead), KubeLiftError::Config(ConfigError::Missing)));

    let next = step(run_at(UpOp::ConfigRead), UpEvent::Config(ConfigSource::Malformed));
    assert_eq!(next, failed(run_at(UpOp::ConfigRead), KubeLiftError::Config(ConfigError::Parse)));

    let mut empty = config();
    empty.options.image = String::new();
    let next = step(run_at(UpOp::ConfigRead), UpEvent::Config(ConfigSource::Parsed(empty)));
    assert_eq!(next.action, UpAction::Abort(KubeLiftError::Config(ConfigError::Parse)));
}

#[test]
fn the_configuration_that_was_read_replaces_the_defaults() {
    let mut other = config();
    other.options.image = "other:image:v2".to_string();
    other.options.location = "northeurope".to_string();
    let next = step(run_at(UpOp::ConfigRead), UpEvent::Config(ConfigSource::Parsed(other.clone())));
    assert_eq!(next.action, UpAction::QueryTerms { image: "other:image:v2".to_string() });
    assert_eq!(next.run, UpRun { op: UpOp::TermsQuery, config: other, ..run_at(UpOp::ConfigRead) });
}

#[test]
fn accepted_terms_lead_straight_to_the_resource_group() {
    let event = UpEvent::Terms { accepted: true, terms_url: "https://other.example".to_string() };
    let next = step(run_at(UpOp::TermsQuery), event);
    assert_eq!(next.action, create_group());
    assert_eq!(next.run, run_at(UpOp::GroupCreate));
}

#[test]
fn open_terms_are_fetched_shown_and_accepted() {
    let event = UpEvent::Terms { accepted: false, terms_url: "https://other.example".to_string() };
    let next = step(run_at(UpOp::TermsQuery), event);
    assert_eq!(next.action, UpAction::FetchTerms { url: "https://other.example".to_string() });
    assert_eq!(next.run.op, UpOp::TermsFetch);
    assert_eq!(next.run.terms_url, "https://other.example");

    let next = step(next.run, UpEvent::TermsDocument("The terms.".to_string()));
    assert_eq!(next.action, UpAction::Prompt { terms: "The terms.".to_string() });
    assert_eq!(next.run.op, UpOp::TermsPrompt);

    let next = step(next.run, UpEvent::Answer(true));
    assert_eq!(next.action, UpAction::AcceptTerms { image: "vendor:image:v1".to_string() });
    assert_eq!(next.run.op, UpOp::TermsAccept);

    let next = step(next.run, UpEvent::Completed);
    assert_eq!(next.action, create_group());
}

#[test]
fn with_auto_accept_nobody_is_asked() {
    let mut run = run_at(UpOp::TermsFetch);
    run.options = options(true);
    let next = step(run, UpEvent::TermsDocument("The terms.".to_string()));
    assert_eq!(next.action, UpAction::AcceptTerms { image: "vendor:image:v1".to_string() });
    assert_eq!(next.run.op, UpOp::TermsAccept);

    let mut world = World::new();
    world.terms_accepted = false;
    world.operator_accepts = false;
    let first = begin(true, InstanceRecord::generate(), config(), options(true));
    let (_, outcome) = world.play(first);
    assert_eq!(outcome, Ok(()));
    assert!(!world.asked.iter().any(|asked| asked.starts_with("prompt")));
    assert!(world.asked.iter().any(|asked| asked.starts_with("accept-terms")));
}

#[test]
fn declined_terms_end_the_run_before_anything_is_created() {
    let next = step(run_at(UpOp::TermsPrompt), UpEvent::Answer(false));
    assert_eq!(next, failed(run_at(UpOp::TermsPrompt), KubeLiftError::UserDeclined));

    let mut world = World::new();
    world.terms_accepted = false;
    world.operator_accepts = false;
    let first = begin(true, InstanceRecord::generate(), config(), options(false));
    let (run, outcome) = world.play(first);
    assert_eq!(outcome, Err(KubeLiftError::UserDeclined));
    assert_eq!(run.op, UpOp::Failed);
    assert_eq!(run.error, Some(KubeLiftError::UserDeclined));
    assert!(!world.asked.iter().any(|asked| asked.starts_with("create")));
    assert!(!world.asked.iter().any(|asked| asked.starts_with("accept-terms")));
    assert!(world.files.is_empty());
}

#[test]
fn a_descriptor_is_persisted_before_anything_else_happens() {
    let next = step(run_at(UpOp::GroupCreate), UpEvent::ResourceGroup("{\"name\": \"g\"}".to_string()));
    assert_eq!(
        next.action,
        UpAction::PersistResourceGroup { descriptor: "{\"name\": \"g\"}".to_string() }
    );
    assert_eq!(next.run, run_at(UpOp::GroupPersist));

    let next = step(next.run, UpEvent::Completed);
    assert_eq!(next.action, create_vm());

    let next = step(next.run, UpEvent::VirtualMachine("{\"vm\": 1}".to_string()));
    assert_eq!(next.action, UpAction::PersistVm { descriptor: "{\"vm\": 1}".to_string() });
    assert_eq!(next.run.op, UpOp::VmPersist);
    assert_eq!(next.run.vm_descriptor, "{\"vm\": 1}");

    let next = step(next.run, UpEvent::Completed);
    assert_eq!(
        next.action,
        UpAction::OpenPort {
            group: "kubelift-abcde".to_string(),
            name: "abcde".to_string(),
            port: 6443,
        }
    );
}

#[test]
fn the_addresses_come_from_the_descriptor_on_record() {
    let mut run = run_at(UpOp::PortOpen);
    run.vm_descriptor =
        r#"{"privateIpAddress": "172.16.0.5", "publicIpAddress": "52.174.3.9"}"#.to_string();
    run.polls = 7;
    let next = step(run, UpEvent::Completed);
    assert_eq!(next.action, UpAction::Probe { address: "52.174.3.9".to_string() });
    assert_eq!(next.run.op, UpOp::Probe);
    assert_eq!(next.run.polls, 0);
    assert_eq!(
        next.run.addresses,
        Addresses { private_ip: "172.16.0.5".to_string(), public_ip: "52.174.3.9".to_string() }
    );
}

#[test]
fn a_descriptor_without_addresses_ends_the_run() {
    let mut run = run_at(UpOp::PortOpen);
    run.vm_descriptor = r#"{"publicIpAddress": "52.174.3.9"}"#.to_string();
    let next = step(run, UpEvent::Completed);
    assert_eq!(next.action, UpAction::Abort(PERMANENT));
    assert_eq!(next.run.op, UpOp::Failed);
    assert_eq!(next.run.error, Some(PERMANENT));
}

#[test]
fn advance_takes_the_addresses_it_is_given() {
    let found = Addresses { private_ip: "a".to_string(), public_ip: "b".to_string() };
    let next = advance(run_at(UpOp::PortOpen), UpEvent::Completed, Some(found.clone()));
    assert_eq!(next.action, UpAction::Probe { address: "b".to_string() });
    assert_eq!(next.run.addresses, found);

    let next = advance(run_at(UpOp::PortOpen), UpEvent::Completed, None);
    assert_eq!(next.action, UpAction::Abort(PERMANENT));

    let next = advance(run_at(UpOp::VmPersist), UpEvent::Completed, Some(found));
    assert_eq!(next.run.addresses, run_at(UpOp::VmPersist).addresses);
}

#[test]
fn the_fetched_kubeconfig_is_patched_and_kept_private() {
    let text = "server: https://10.0.0.4:6443 # 10.0.0.4\n".to_string();
    let next = step(run_at(UpOp::KubeconfigFetch), UpEvent::Kubeconfig(text));
    assert_eq!(
        next.action,
        UpAction::PersistKubeconfig {
            text: "server: https://20.103.45.67:6443 # 20.103.45.67\n".to_string(),
            mode: 0o600,
        }
    );
    assert_eq!(next.run, run_at(UpOp::KubeconfigPersist));

    let next = step(next.run, UpEvent::Completed);
    assert_eq!(next.action, UpAction::Switch);
    let next = step(next.run, UpEvent::Completed);
    assert_eq!(next.action, UpAction::Finish);
    assert_eq!(next.run, run_at(UpOp::Ready));
}

#[test]
fn a_transient_failure_is_retried_with_growing_waits() {
    let mut run = run_at(UpOp::GroupCreate);
    let mut waits = Vec::new();
    for failures in 1..5 {
        let next = step(run, UpEvent::Failed(TRANSIENT));
        match next.action {
            UpAction::Wait { millis } => waits.push(millis),
            other => panic!("expected a wait, got {:?}", other),
        }
        assert_eq!(next.run, UpRun { paused: true, attempts: failures, ..run_at(UpOp::GroupCreate) });

        let next = step(next.run, UpEvent::Completed);
        assert_eq!(next.action, create_group());
        assert_eq!(next.run, UpRun { attempts: failures, ..run_at(UpOp::GroupCreate) });
        run = next.run;
    }
    assert_eq!(waits, vec![1_000, 2_000, 4_000, 8_000]);

    let next = step(run, UpEvent::Failed(TRANSIENT));
    assert_eq!(next.action, UpAction::Abort(TRANSIENT));
    assert_eq!(next.run.op, UpOp::Failed);
    assert_eq!(next.run.error, Some(TRANSIENT));
}

#[test]
fn success_after_a_retry_starts_the_count_anew() {
    let mut run = run_at(UpOp::GroupCreate);
    run.attempts = 3;
    let next = step(run, UpEvent::ResourceGroup("{}".to_string()));
    assert_eq!(next.run.attempts, 0);
    assert_eq!(next.run.op, UpOp::GroupPersist);
}

#[test]
fn a_permanent_failure_ends_the_run_at_once() {
    for op in [
        UpOp::TermsQuery,
        UpOp::TermsAccept,
        UpOp::GroupCreate,
        UpOp::VmCreate,
        UpOp::PortOpen,
        UpOp::KubeconfigFetch,
    ] {
        let next = step(run_at(op), UpEvent::Failed(PERMANENT));
        assert_eq!(next, failed(run_at(op), PERMANENT));
    }
}

#[test]
fn a_failure_of_a_local_operation_is_never_retried() {
    for op in [
        UpOp::ConfigWrite,
        UpOp::ConfigRead,
        UpOp::TermsPrompt,
        UpOp::GroupPersist,
        UpOp::VmPersist,
        UpOp::KubeconfigPersist,
        UpOp::Switch,
    ] {
        assert!(!remote(op));
        assert_eq!(step(run_at(op), UpEvent::Failed(KubeLiftError::Io)), failed(run_at(op), KubeLiftError::Io));
        assert_eq!(step(run_at(op), UpEvent::Failed(TRANSIENT)), failed(run_at(op), TRANSIENT));
    }
}

#[test]
fn a_failure_after_a_create_leaves_the_record_for_teardown() {
    let mut world = World::new();
    let first = begin(true, InstanceRecord::from_id("abcde").unwrap(), config(), options(false));
    let mut at = first;
    while at.run.op != UpOp::VmCreate {
        let event = world.answer(at.action);
        at = step(at.run, event);
    }
    let next = step(at.run, UpEvent::Failed(PERMANENT));
    assert_eq!(next.action, UpAction::Abort(PERMANENT));
    assert_eq!(
        resource_group_of(&world.files["./.kubelift/resource_group.json"]),
        Some("kubelift-abcde".to_string())
    );
}

#[test]
fn the_remote_operations_are_those_that_reach_out() {
    for op in [
        UpOp::TermsQuery,
        UpOp::TermsFetch,
        UpOp::TermsAccept,
        UpOp::GroupCreate,
        UpOp::VmCreate,
        UpOp::PortOpen,
        UpOp::Probe,
        UpOp::KubeconfigFetch,
    ] {
        assert!(remote(op));
        assert!(!run_at(op).finished());
    }
    assert!(!remote(UpOp::Ready));
    assert!(!remote(UpOp::Failed));
    assert!(run_at(UpOp::Ready).finished());
    assert!(run_at(UpOp::Failed).finished());
}

#[test]
fn the_request_of_each_remote_operation() {
    assert_eq!(run_at(UpOp::TermsQuery).request(), UpAction::QueryTerms { image: "vendor:image:v1".to_string() });
    assert_eq!(run_at(UpOp::TermsFetch).request(), UpAction::FetchTerms { url: "https://terms.example/v1".to_string() });
    assert_eq!(run_at(UpOp::TermsAccept).request(), UpAction::AcceptTerms { image: "vendor:image:v1".to_string() });
    assert_eq!(run_at(UpOp::GroupCreate).request(), create_group());
    assert_eq!(run_at(UpOp::VmCreate).request(), create_vm());
    assert_eq!(run_at(UpOp::Probe).request(), UpAction::Probe { address: "20.103.45.67".to_string() });
    assert_eq!(run_at(UpOp::KubeconfigFetch).request(), UpAction::FetchKubeconfig { address: "20.103.45.67".to_string() });
    assert_eq!(run_at(UpOp::Switch).request(), UpAction::Abort(KubeLiftError::OutOfTurn));
}

#[test]
fn the_wait_for_the_appliance_is_bounded_by_the_number_of_probes() {
    let mut run = run_at(UpOp::Probe);
    run.options.rendezvous = RendezvousPolicy { interval_ms: 250, timeout_ms: 60_000, max_polls: 3 };
    let next = step(run, UpEvent::Probe(false));
    assert_eq!(next.action, UpAction::Wait { millis: 250 });
    assert!(next.run.paused);
    assert_eq!(next.run.polls, 1);
    let next = step(next.run, UpEvent::Completed);
    assert_eq!(next.action, UpAction::Probe { address: "20.103.45.67".to_string() });
    assert!(!next.run.paused);
    let next = step(next.run, UpEvent::Probe(false));
    assert_eq!(next.action, UpAction::Wait { millis: 250 });
    let next = step(next.run, UpEvent::Completed);
    let next = step(next.run, UpEvent::Probe(false));
    assert_eq!(next.action, UpAction::Abort(KubeLiftError::Timeout));
    assert_eq!(next.run.op, UpOp::Failed);
    assert_eq!(next.run.error, Some(KubeLiftError::Timeout));
    assert_eq!(next.run.polls, 2);
}

#[test]
fn the_wait_for_the_appliance_is_bounded_by_the_timeout() {
    let mut run = run_at(UpOp::Probe);
    run.options.rendezvous = RendezvousPolicy { interval_ms: 5_000, timeout_ms: 9_000, max_polls: 100 };
    let next = step(run, UpEvent::Probe(false));
    assert_eq!(next.action, UpAction::Wait { millis: 5_000 });
    let next = step(next.run, UpEvent::Completed);
    let next = step(next.run, UpEvent::Probe(false));
    assert_eq!(next.action, UpAction::Abort(KubeLiftError::Timeout));
}

#[test]
fn with_the_default_policy_the_appliance_gets_ten_minutes() {
    let mut world = World::new();
    world.probes_until_ready = 1_000;
    let first = begin(true, InstanceRecord::generate(), config(), options(false));
    let (run, outcome) = world.play(first);
    assert_eq!(outcome, Err(KubeLiftError::Timeout));
    assert_eq!(world.waited.len(), 119);
    assert_eq!(world.waited.iter().sum::<u64>(), 595_000);
    assert_eq!(run.vm_descriptor, world.files["./.kubelift/vm.json"]);
    assert!(world.files.contains_key("./.kubelift/resource_group.json"));
}

#[test]
fn a_ready_appliance_is_asked_for_its_kubeconfig() {
    let next = step(run_at(UpOp::Probe), UpEvent::Probe(true));
    assert_eq!(next.action, UpAction::FetchKubeconfig { address: "20.103.45.67".to_string() });
    assert_eq!(next.run, run_at(UpOp::KubeconfigFetch));
}

#[test]
fn an_interrupt_ends_the_run_wherever_it_is() {
    for op in [UpOp::ConfigRead, UpOp::TermsPrompt, UpOp::VmCreate, UpOp::Probe, UpOp::Switch] {
        assert_eq!(step(run_at(op), UpEvent::Cancelled), failed(run_at(op), KubeLiftError::Cancelled));
    }
    let mut waiting = run_at(UpOp::Probe);
    waiting.paused = true;
    waiting.polls = 4;
    let next = step(waiting, UpEvent::Cancelled);
    assert_eq!(next.action, UpAction::Abort(KubeLiftError::Cancelled));
    assert_eq!(next.run.vm_descriptor, run_at(UpOp::Probe).vm_descriptor);
    assert_eq!(next.run.instance, run_at(UpOp::Probe).instance);
}

#[test]
fn an_event_out_of_turn_ends_the_run() {
    assert_eq!(
        step(run_at(UpOp::GroupCreate), UpEvent::Completed),
        failed(run_at(UpOp::GroupCreate), KubeLiftError::OutOfTurn)
    );
    assert_eq!(
        step(run_at(UpOp::Probe), UpEvent::Kubeconfig("x".to_string())),
        failed(run_at(UpOp::Probe), KubeLiftError::OutOfTurn)
    );
    let mut waiting = run_at(UpOp::Probe);
    waiting.paused = true;
    let next = step(waiting, UpEvent::Probe(true));
    assert_eq!(next.action, UpAction::Abort(KubeLiftError::OutOfTurn));
}

#[test]
fn a_finished_run_stays_finished() {
    let events = || {
        vec![
            UpEvent::Completed,
            UpEvent::Probe(true),
            UpEvent::Failed(TRANSIENT),
            UpEvent::Cancelled,
            UpEvent::Kubeconfig("x".to_string()),
        ]
    };
    for event in events() {
        let next = step(run_at(UpOp::Ready), event);
        assert_eq!(next, UpStep { run: run_at(UpOp::Ready), action: UpAction::Finish });
    }
    for event in events() {
        let mut run = run_at(UpOp::Failed);
        run.error = Some(KubeLiftError::Timeout);
        let next = step(run, event);
        assert_eq!(next.action, UpAction::Abort(KubeLiftError::Timeout));
        assert_eq!(next.run.op, UpOp::Failed);
        assert_eq!(next.run.error, Some(KubeLiftError::Timeout));
    }
}

#[test]
fn a_cloud_that_always_fails_is_given_up_after_a_bounded_number_of_tries() {
    let mut at = begin(true, InstanceRecord::generate(), config(), options(false));
    at = step(at.run, UpEvent::Config(ConfigSource::Parsed(config())));
    let mut events = 0;
    while !at.run.finished() {
        let event = match at.action {
            UpAction::Wait { .. } => UpEvent::Completed,
            _ => UpEvent::Failed(TRANSIENT),
        };
        at = step(at.run, event);
        events += 1;
        assert!(events < 100);
    }
    assert_eq!(events, 9);
    assert_eq!(at.action, UpAction::Abort(TRANSIENT));
}

#[test]
fn the_backoff_doubles_up_to_its_cap() {
    let policy = RetryPolicy { max_attempts: 10, base_delay_ms: 1_000, max_delay_ms: 30_000 };
    let waits: Vec<u64> = (0..8).map(|failures| backoff_delay(&policy, failures)).collect();
    assert_eq!(waits, vec![1_000, 2_000, 4_000, 8_000, 16_000, 30_000, 30_000, 30_000]);
    assert_eq!(backoff_delay(&policy, u32::MAX), 30_000);

    let flat = RetryPolicy { max_attempts: 3, base_delay_ms: 500, max_delay_ms: 100 };
    assert_eq!(backoff_delay(&flat, 0), 100);
    assert_eq!(backoff_delay(&flat, 5), 100);

    let none = RetryPolicy { max_attempts: 3, base_delay_ms: 0, max_delay_ms: 100 };
    assert_eq!(backoff_delay(&none, 0), 0);
    assert_eq!(backoff_delay(&none, 1_000_000), 0);

    let wide = RetryPolicy { max_attempts: 3, base_delay_ms: 3, max_delay_ms: u64::MAX };
    assert_eq!(backoff_delay(&wide, 2), 12);
    assert_eq!(backoff_delay(&wide, 62), 3 << 62);
    assert_eq!(backoff_delay(&wide, 63), u64::MAX);
}

#[test]
fn the_probes_are_used_up_by_count_or_by_time() {
    let policy = RendezvousPolicy { interval_ms: 5_000, timeout_ms: 600_000, max_polls: 120 };
    assert!(!is_rendezvous_exhausted(&policy, 0));
    assert!(!is_rendezvous_exhausted(&policy, 119));
    assert!(is_rendezvous_exhausted(&policy, 120));
    assert!(is_rendezvous_exhausted(&policy, u32::MAX));

    let short = RendezvousPolicy { interval_ms: 5_000, timeout_ms: 10_000, max_polls: 120 };
    assert!(!is_rendezvous_exhausted(&short, 2));
    assert!(is_rendezvous_exhausted(&short, 3));

    let huge = RendezvousPolicy { interval_ms: u64::MAX, timeout_ms: u64::MAX, max_polls: u32::MAX };
    assert!(!is_rendezvous_exhausted(&huge, 1));
    assert!(is_rendezvous_exhausted(&huge, 2));
}

#[test]
fn the_default_policies() {
    assert_eq!(
        RetryPolicy::default(),
        RetryPolicy { max_attempts: 5, base_delay_ms: 1_000, max_delay_ms: 30_000 }
    );
    assert_eq!(
        RendezvousPolicy::default(),
        RendezvousPolicy { interval_ms: 5_000, timeout_ms: 600_000, max_polls: 120 }
    );
    assert_eq!(
        UpOptions::with_defaults(true),
        UpOptions {
            auto_accept_terms: true,
            retry: RetryPolicy::default(),
            rendezvous: RendezvousPolicy::default(),
        }
    );
}

#[test]
fn each_pause_for_the_appliance_stays_within_the_timeout() {
    let policy = RendezvousPolicy { interval_ms: 700, timeout_ms: 5_000, max_polls: 50 };
    let mut run = run_at(UpOp::Probe);
    run.options.rendezvous = policy;
    let mut waited: u64 = 0;
    let mut probes = 0;
    loop {
        let next = step(run, UpEvent::Probe(false));
        probes += 1;
        match next.action {
            UpAction::Wait { millis } => {
                waited += millis;
                assert!(waited <= policy.timeout_ms);
                assert_eq!(next.run.polls, probes);
                run = step(next.run, UpEvent::Completed).run;
            }
            UpAction::Abort(error) => {
                assert_eq!(error, KubeLiftError::Timeout);
                break;
            }
            other => panic!("expected a wait or the end, got {:?}", other),
        }
    }
    assert_eq!(probes, 8);
    assert_eq!(waited, 4_900);
}
