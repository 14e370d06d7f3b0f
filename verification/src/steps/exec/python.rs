//! A step that runs Python code in a pod: its settings, the pod that runs
//! it and the config map that carries its code.
use vstd::prelude::*;
use std::time::Duration;
use crate::collections::{entry_keys, inserted_text, views, OrderedMap};
use crate::resources::meta::{fails_with, BuildError, ObjectMeta};
use crate::resources::workload::{
    ConfigMap, ConfigMapVolumeSource, Container, EnvVar, PersistentVolumeClaimVolumeSource, Pod,
    PodSpec, PodStatus, ResourceRequirements, Volume, VolumeMount,
};
use crate::steps::exec::package_loader::PackageSource;
use crate::steps::kubernetes::sidecar::{requirements_from, requirements_of};
use crate::steps::kubernetes::types::text_is;
use crate::steps::result::{duration_from_secs, secs_duration, StepResult, StepStatus};
use crate::steps::traits::{ResourceLimits, WorkFlowStep};

verus! {

/// A step that runs Python code in a pod.
pub struct PythonStep {
    pub step_id: String,
    pub namespace: String,
    pub name: String,
    pub code: Option<String>,
    pub package_source: Option<PackageSource>,
    pub requirements: Vec<String>,
    pub entry_point: Option<String>,
    pub resource_limits: Option<ResourceLimits>,
    pub volume_mounts: OrderedMap<String>,
    pub environment_variables: OrderedMap<String>,
    pub timeout: Duration,
    pub client: kube::Client,
    pub dry_run: bool,
}

/// The name of the config map that carries the code of the pod `name`.
pub open spec fn code_map_name(name: Seq<char>) -> Seq<char> {
    name + "-code"@
}

/// `s` joined with newlines between the parts.
pub open spec fn joined_lines(s: Seq<Seq<char>>) -> Seq<char>
    decreases s.len(),
{
    if s.len() == 0 {
        Seq::empty()
    } else if s.len() == 1 {
        s[0]
    } else {
        joined_lines(s.drop_last()) + "\n"@ + s.last()
    }
}

/// The command that runs the code: `python`, then the entry point under
/// `/workspace/`, or the script when there is code and no entry point.
pub open spec fn python_command(entry_point: Option<String>, has_code: bool) -> Seq<Seq<char>> {
    match entry_point {
        Some(e) => seq!["python"@, "/workspace/"@ + e@],
        None => if has_code {
            seq!["python"@, "/workspace/script.py"@]
        } else {
            seq!["python"@]
        },
    }
}

/// The mounts of the pod: the code at `/workspace` when there is code, then
/// each claimed volume at its path, in order of the paths.
pub open spec fn mounts_built_from(m: Seq<VolumeMount>, has_code: bool, volumes: OrderedMap<String>) -> bool {
    let off: int = if has_code {
        1
    } else {
        0
    };
    &&& m.len() == off + volumes.spec_keys().len()
    &&& has_code ==> m[0].name@ == "code"@ && m[0].mount_path@ == "/workspace"@
    &&& forall|i: int|
        0 <= i < volumes.spec_keys().len() ==> #[trigger] m[off + i].mount_path@
            == volumes.spec_keys()[i] && m[off + i].name@ == volumes.spec_values()[i]@
}

/// The volumes of the pod: the config map of the code when there is code,
/// then each claimed volume, in order of the paths.
pub open spec fn volumes_built_from(
    v: Seq<Volume>,
    has_code: bool,
    map_name: Seq<char>,
    volumes: OrderedMap<String>,
) -> bool {
    let off: int = if has_code {
        1
    } else {
        0
    };
    &&& v.len() == off + volumes.spec_keys().len()
    &&& has_code ==> v[0].name@ == "code"@ && v[0].persistent_volume_claim is None
        && config_map_named(v[0].config_map, map_name)
    &&& forall|i: int|
        0 <= i < volumes.spec_keys().len() ==> #[trigger] v[off + i].name@
            == volumes.spec_values()[i]@ && v[off + i].config_map is None
            && claim_named(v[off + i].persistent_volume_claim, volumes.spec_values()[i]@)
}

/// `o` is a config map volume of the map `name`.
pub open spec fn config_map_named(o: Option<ConfigMapVolumeSource>, name: Seq<char>) -> bool {
    match o {
        Some(c) => c.name@ == name,
        None => false,
    }
}

/// `o` is a volume of the claim `name`.
pub open spec fn claim_named(o: Option<PersistentVolumeClaimVolumeSource>, name: Seq<char>) -> bool {
    match o {
        Some(p) => p.claim_name@ == name,
        None => false,
    }
}

/// `cm` carries the code of `s` as `script.py` and its requirements, one
/// per line, as `requirements.txt`, each when present.
pub open spec fn config_map_built_from(cm: ConfigMap, s: PythonStep) -> bool {
    &&& text_is(cm.metadata.name, code_map_name(s.name@))
    &&& text_is(cm.metadata.namespace, s.namespace@)
    &&& cm.metadata.labels is None
    &&& cm.metadata.annotations is None
    &&& match cm.data {
        None => false,
        Some(d) => {
            &&& d@.contains_key("script.py"@) == s.code is Some
            &&& (s.code matches Some(c) ==> d@["script.py"@]@ == c@)
            &&& d@.contains_key("requirements.txt"@) == (s.requirements@.len() > 0)
            &&& (s.requirements@.len() > 0 ==> d@["requirements.txt"@]@ == joined_lines(
                views(s.requirements@),
            ))
            &&& d@.len() == (if s.code is Some {
                1int
            } else {
                0int
            }) + (if s.requirements@.len() > 0 {
                1int
            } else {
                0int
            })
        },
    }
}

/// The environment of the pod: each variable, in order of the names.
pub open spec fn env_listed(e: Seq<EnvVar>, env: OrderedMap<String>) -> bool {
    &&& e.len() == env.spec_keys().len()
    &&& forall|i: int|
        0 <= i < e.len() ==> #[trigger] e[i].name@ == env.spec_keys()[i] && text_is(
            e[i].value,
            env.spec_values()[i]@,
        )
}

/// `c` is the container that runs the code of `s`.
pub open spec fn python_container(c: Container, s: PythonStep) -> bool {
    &&& c.name@ == "python-executor"@
    &&& text_is(c.image, "python:3.12-slim"@)
    &&& c.command matches Some(cmd) && views(cmd@) == python_command(s.entry_point, s.code is Some)
    &&& c.env matches Some(e) && env_listed(e@, s.environment_variables)
    &&& c.ports is None
    &&& c.volume_mounts matches Some(m) && mounts_built_from(m@, s.code is Some, s.volume_mounts)
    &&& c.liveness_probe is None
    &&& c.readiness_probe is None
    &&& match s.resource_limits {
        None => c.resources is None,
        Some(l) => c.resources matches Some(req) && requirements_from(req, l),
    }
}

/// `p` is the pod that runs `s`.
pub open spec fn pod_built_from(p: Pod, s: PythonStep) -> bool {
    &&& text_is(p.metadata.name, s.name@)
    &&& text_is(p.metadata.namespace, s.namespace@)
    &&& p.metadata.labels is None
    &&& p.metadata.annotations is None
    &&& p.status == Some(PodStatus { phase: None })
    &&& match p.spec {
        None => false,
        Some(spec) => spec.containers@.len() == 1 && python_container(spec.containers@[0], s)
            && text_is(spec.restart_policy, "Never"@) && match spec.volumes {
            None => false,
            Some(v) => volumes_built_from(v@, s.code is Some, code_map_name(s.name@), s.volume_mounts),
        },
    }
}

/// A copy of each environment variable, in order of the names.
fn env_list(env: &OrderedMap<String>) -> (r: Vec<EnvVar>)
    ensures
        env_listed(r@, *env),
{
    let entries = env.entries();
    let mut out: Vec<EnvVar> = Vec::new();
    let mut i: usize = 0;
    while i < entries.len()
        invariant
            i <= entries@.len(),
            entry_keys(entries@) == env.spec_keys(),
            entries@.map_values(|e: (String, String)| e.1) == env.spec_values(),
            out@.len() == i,
            forall|q: int|
                0 <= q < i ==> #[trigger] out@[q].name@ == env.spec_keys()[q] && text_is(
                    out@[q].value,
                    env.spec_values()[q]@,
                ),
        decreases entries@.len() - i,
    {
        assert(entry_keys(entries@)[i as int] == entries@[i as int].0@);
        assert(entries@.map_values(|e: (String, String)| e.1)[i as int] == entries@[i as int].1);
        out.push(EnvVar { name: entries[i].0.clone(), value: Some(entries[i].1.clone()) });
        i = i + 1;
    }
    out
}

impl PythonStep {
    pub fn builder() -> (r: PythonStepBuilder)
        ensures
            python_builder_is_new(r),
    {
        PythonStepBuilder::new()
    }

    /// The pod that runs the code.
    pub fn build_pod_spec(&self) -> (r: Result<Pod, BuildError>)
        ensures
            r matches Ok(p) && pod_built_from(p, *self),
    {
        let has_code = self.code.is_some();
        let env_vars = env_list(&self.environment_variables);
        let mut mounts: Vec<VolumeMount> = Vec::new();
        let mut volumes: Vec<Volume> = Vec::new();
        let mut map_name = self.name.clone();
        map_name.append("-code");
        if has_code {
            mounts.push(
                VolumeMount {
                    name: String::from_str("code"),
                    mount_path: String::from_str("/workspace"),
                },
            );
            volumes.push(
                Volume {
                    name: String::from_str("code"),
                    config_map: Some(ConfigMapVolumeSource { name: map_name }),
                    persistent_volume_claim: None,
                },
            );
        }
        let ghost off: int = if has_code {
            1
        } else {
            0
        };
        let entries = self.volume_mounts.entries();
        let mut i: usize = 0;
        while i < entries.len()
            invariant
                i <= entries@.len(),
                has_code == self.code is Some,
                off == (if has_code {
                    1int
                } else {
                    0int
                }),
                entry_keys(entries@) == self.volume_mounts.spec_keys(),
                entries@.map_values(|e: (String, String)| e.1) == self.volume_mounts.spec_values(),
                mounts@.len() == off + i,
                volumes@.len() == off + i,
                has_code ==> mounts@[0].name@ == "code"@ && mounts@[0].mount_path@ == "/workspace"@,
                has_code ==> volumes@[0].name@ == "code"@ && volumes@[0].persistent_volume_claim is None
                    && config_map_named(volumes@[0].config_map, code_map_name(self.name@)),
                forall|q: int|
                    0 <= q < i ==> #[trigger] mounts@[off + q].mount_path@
                        == self.volume_mounts.spec_keys()[q] && mounts@[off + q].name@
                        == self.volume_mounts.spec_values()[q]@,
                forall|q: int|
                    0 <= q < i ==> #[trigger] volumes@[off + q].name@
                        == self.volume_mounts.spec_values()[q]@ && volumes@[off + q].config_map is None
                        && claim_named(
                        volumes@[off + q].persistent_volume_claim,
                        self.volume_mounts.spec_values()[q]@,
                    ),
            decreases entries@.len() - i,
        {
            assert(entry_keys(entries@)[i as int] == entries@[i as int].0@);
            assert(entries@.map_values(|e: (String, String)| e.1)[i as int] == entries@[i as int].1);
            let path = entries[i].0.clone();
            let volume = entries[i].1.clone();
            mounts.push(VolumeMount { name: volume.clone(), mount_path: path });
            volumes.push(
                Volume {
                    name: volume.clone(),
                    config_map: None,
                    persistent_volume_claim: Some(PersistentVolumeClaimVolumeSource { claim_name: volume }),
                },
            );
            i = i + 1;
        }
        let mut command: Vec<String> = Vec::new();
        command.push(String::from_str("python"));
        match &self.entry_point {
            Some(e) => {
                let mut p = String::from_str("/workspace/");
                p.append(e.as_str());
                command.push(p);
            },
            None => {
                if has_code {
                    command.push(String::from_str("/workspace/script.py"));
                }
            },
        }
        assert(views(command@) =~= python_command(self.entry_point, has_code));
        let resources = match &self.resource_limits {
            None => None,
            Some(l) => Some(requirements_of(l)),
        };
        let container = Container {
            name: String::from_str("python-executor"),
            image: Some(String::from_str("python:3.12-slim")),
            command: Some(command),
            env: Some(env_vars),
            ports: None,
            resources,
            volume_mounts: Some(mounts),
            liveness_probe: None,
            readiness_probe: None,
        };
        Ok(
            Pod {
                metadata: ObjectMeta {
                    name: Some(self.name.clone()),
                    namespace: Some(self.namespace.clone()),
                    labels: None,
                    annotations: None,
                },
                spec: Some(
                    PodSpec {
                        containers: vec![container],
                        volumes: Some(volumes),
                        restart_policy: Some(String::from_str("Never")),
                    },
                ),
                status: Some(PodStatus { phase: None }),
            },
        )
    }

    /// The config map that carries the code (as `script.py`) and the
    /// requirements (as `requirements.txt`, one per line), each when present.
    pub fn build_config_map(&self) -> (r: Result<ConfigMap, BuildError>)
        ensures
            r matches Ok(cm) && config_map_built_from(cm, *self),
    {
        proof {
            reveal_strlit("script.py");
            reveal_strlit("requirements.txt");
            assert("script.py"@.len() != "requirements.txt"@.len());
        }
        let mut data: OrderedMap<String> = OrderedMap::new();
        match &self.code {
            Some(c) => {
                data.insert_text("script.py", c.as_str());
            },
            None => {},
        }
        if self.requirements.len() > 0 {
            let text = join_lines(&self.requirements);
            data.insert_text("requirements.txt", text.as_str());
        }
        proof {
            let has_code = self.code is Some;
            let has_reqs = self.requirements@.len() > 0;
            if has_code && has_reqs {
                assert(data@.dom() =~= set!["script.py"@, "requirements.txt"@]);
            } else if has_code {
                assert(data@.dom() =~= set!["script.py"@]);
            } else if has_reqs {
                assert(data@.dom() =~= set!["requirements.txt"@]);
            } else {
                assert(data@.dom() =~= Set::<Seq<char>>::empty());
            }
        }
        let mut name = self.name.clone();
        name.append("-code");
        Ok(
            ConfigMap {
                metadata: ObjectMeta {
                    name: Some(name),
                    namespace: Some(self.namespace.clone()),
                    labels: None,
                    annotations: None,
                },
                data: Some(data),
            },
        )
    }

    /// What waiting on the step reports, from the phase of its pod: success
    /// when it succeeded, failure in any other phase.
    pub fn wait_result(&self, phase: &str) -> (r: StepResult)
        ensures
            r.step_id@ == self.step_id@,
            r.status == (if phase@ == "Succeeded"@ {
                StepStatus::Success
            } else {
                StepStatus::Failure
            }),
            r.exit_code == -1,
            r.outputs@.len() == 0,
            r.metadata@.len() == 0,
            r.stdout@.len() == 0,
            r.stderr@.len() == 0,
    {
        if phase.to_string() == String::from_str("Succeeded") {
            StepResult::new(self.step_id.as_str()).with_status(StepStatus::Success)
        } else {
            StepResult::new(self.step_id.as_str()).with_status(StepStatus::Failure)
        }
    }

    /// Whether deleting the step's resources only pretends: when the call
    /// asks for a dry run or the step was built for one.
    pub fn skips_deletion(&self, dry_run: bool) -> (r: bool)
        ensures
            r == (dry_run || self.dry_run),
    {
        dry_run || self.dry_run
    }

    /// What running the step reports once its pod was created: success.
    pub fn started_result(&self) -> (r: StepResult)
        ensures
            r.step_id@ == self.step_id@,
            r.status == StepStatus::Success,
            r.exit_code == -1,
            r.outputs@.len() == 0,
            r.metadata@.len() == 0,
    {
        StepResult::new(self.step_id.as_str()).with_status(StepStatus::Success)
    }

    /// The name of the config map that carries the step's code.
    pub fn code_config_map_name(&self) -> (r: String)
        ensures
            r@ == code_map_name(self.name@),
    {
        let mut n = self.name.clone();
        n.append("-code");
        n
    }

    /// What running the step answers without a cluster: success when it is a
    /// dry run, nothing otherwise.
    pub fn dry_run_result(&self) -> (r: Option<StepResult>)
        ensures
            self.dry_run ==> (r matches Some(res) && res.step_id@ == self.step_id@ && res.status
                == StepStatus::Success && res.exit_code == 0),
            !self.dry_run ==> r is None,
    {
        if self.dry_run {
            Some(
                StepResult::new(self.step_id.as_str()).with_status(StepStatus::Success).with_exit_code(
                    0,
                ),
            )
        } else {
            None
        }
    }
}

/// The lines of `lines` joined with newlines.
fn join_lines(lines: &Vec<String>) -> (r: String)
    ensures
        r@ == joined_lines(views(lines@)),
{
    let mut out = String::new();
    let mut i: usize = 0;
    while i < lines.len()
        invariant
            i <= lines@.len(),
            out@ == joined_lines(views(lines@).take(i as int)),
        decreases lines@.len() - i,
    {
        let ghost before = out@;
        if i > 0 {
            out.append("\n");
        }
        out.append(lines[i].as_str());
        proof {
            let t = views(lines@).take(i + 1);
            assert(t.drop_last() =~= views(lines@).take(i as int));
            if i == 0 {
                assert(before =~= Seq::<char>::empty());
                assert(out@ =~= t[0]);
            } else {
                assert(out@ =~= before + "\n"@ + t.last());
            }
        }
        i = i + 1;
    }
    assert(views(lines@).take(lines@.len() as int) =~= views(lines@));
    out
}

impl WorkFlowStep for PythonStep {
    fn step_id(&self) -> (r: &str)
        ensures
            r@ == self.step_id@,
    {
        self.step_id.as_str()
    }
}

/// The settings of a Python step under construction.
pub struct PythonStepBuilder {
    pub step_id: Option<String>,
    pub namespace: Option<String>,
    pub name: Option<String>,
    pub code: Option<String>,
    pub package_source: Option<PackageSource>,
    pub requirements: Vec<String>,
    pub entry_point: Option<String>,
    pub resource_limits: Option<ResourceLimits>,
    pub volume_mounts: OrderedMap<String>,
    pub environment_variables: OrderedMap<String>,
    pub timeout: Duration,
    pub client: Option<kube::Client>,
    pub dry_run: bool,
}

/// `b` has no setting made but the default namespace (and a timeout).
pub open spec fn python_builder_is_new(b: PythonStepBuilder) -> bool {
    &&& b.step_id is None
    &&& b.namespace matches Some(n) && n@ == "default"@
    &&& b.name is None
    &&& b.code is None
    &&& b.package_source is None
    &&& b.requirements@.len() == 0
    &&& b.entry_point is None
    &&& b.resource_limits is None
    &&& b.volume_mounts@.len() == 0
    &&& b.environment_variables@.len() == 0
    &&& b.client is None
    &&& !b.dry_run
    &&& b.timeout == secs_duration(300)
}

impl PythonStepBuilder {
    /// No setting made yet: the default namespace, a timeout of 300 seconds.
    pub fn new() -> (r: Self)
        ensures
            python_builder_is_new(r),
    {
        PythonStepBuilder {
            step_id: None,
            namespace: Some(String::from_str("default")),
            name: None,
            code: None,
            package_source: None,
            requirements: Vec::new(),
            entry_point: None,
            resource_limits: None,
            volume_mounts: OrderedMap::new(),
            environment_variables: OrderedMap::new(),
            timeout: duration_from_secs(300),
            client: None,
            dry_run: false,
        }
    }

    /// Names the step and its pod.
    pub fn with_name(self, name: &str) -> (r: Self)
        ensures
            r.step_id matches Some(s) && s@ == name@,
            r.name matches Some(n) && n@ == name@,
            r == (PythonStepBuilder { step_id: r.step_id, name: r.name, ..self }),
    {
        PythonStepBuilder { step_id: Some(name.to_string()), name: Some(name.to_string()), ..self }
    }

    pub fn with_code(self, code: &str) -> (r: Self)
        ensures
            r.code matches Some(c) && c@ == code@,
            r == (PythonStepBuilder { code: r.code, ..self }),
    {
        PythonStepBuilder { code: Some(code.to_string()), ..self }
    }

    pub fn with_package(self, source: PackageSource) -> (r: Self)
        ensures
            r == (PythonStepBuilder { package_source: Some(source), ..self }),
    {
        PythonStepBuilder { package_source: Some(source), ..self }
    }

    /// Replaces the requirements.
    pub fn with_requirements(self, reqs: &[&str]) -> (r: Self)
        ensures
            views(r.requirements@) == reqs@.map_values(|x: &str| x@),
            r == (PythonStepBuilder { requirements: r.requirements, ..self }),
    {
        let mut v: Vec<String> = Vec::new();
        let mut i: usize = 0;
        while i < reqs.len()
            invariant
                i <= reqs@.len(),
                views(v@) == reqs@.map_values(|x: &str| x@).take(i as int),
            decreases reqs@.len() - i,
        {
            let ghost before = views(v@);
            let x: &str = reqs[i];
            v.push(x.to_string());
            assert(views(v@) =~= before.push(x@));
            assert(reqs@.map_values(|x: &str| x@).take(i + 1) =~= reqs@.map_values(|x: &str| x@).take(
                i as int,
            ).push(x@));
            i = i + 1;
        }
        assert(reqs@.map_values(|x: &str| x@).take(reqs@.len() as int) =~= reqs@.map_values(
            |x: &str| x@,
        ));
        PythonStepBuilder { requirements: v, ..self }
    }

    pub fn with_entry_point(self, entry: &str) -> (r: Self)
        ensures
            r.entry_point matches Some(e) && e@ == entry@,
            r == (PythonStepBuilder { entry_point: r.entry_point, ..self }),
    {
        PythonStepBuilder { entry_point: Some(entry.to_string()), ..self }
    }

    pub fn with_resource_limits(self, limits: ResourceLimits) -> (r: Self)
        ensures
            r == (PythonStepBuilder { resource_limits: Some(limits), ..self }),
    {
        PythonStepBuilder { resource_limits: Some(limits), ..self }
    }

    /// Mounts the claimed volume `volume_name` at `mount_path`.
    pub fn with_volume_mount(self, mount_path: &str, volume_name: &str) -> (r: Self)
        ensures
            inserted_text(r.volume_mounts, self.volume_mounts, mount_path@, volume_name@),
            r == (PythonStepBuilder { volume_mounts: r.volume_mounts, ..self }),
    {
        let mut s = self;
        s.volume_mounts.insert_text(mount_path, volume_name);
        s
    }

    /// Sets an environment variable.
    pub fn with_env(self, key: &str, value: &str) -> (r: Self)
        ensures
            inserted_text(r.environment_variables, self.environment_variables, key@, value@),
            r == (PythonStepBuilder { environment_variables: r.environment_variables, ..self }),
    {
        let mut s = self;
        s.environment_variables.insert_text(key, value);
        s
    }

    pub fn with_timeout(self, timeout: Duration) -> (r: Self)
        ensures
            r == (PythonStepBuilder { timeout, ..self }),
    {
        PythonStepBuilder { timeout, ..self }
    }

    pub fn with_namespace(self, namespace: &str) -> (r: Self)
        ensures
            r.namespace matches Some(n) && n@ == namespace@,
            r == (PythonStepBuilder { namespace: r.namespace, ..self }),
    {
        PythonStepBuilder { namespace: Some(namespace.to_string()), ..self }
    }

    pub fn with_client(self, client: kube::Client) -> (r: Self)
        ensures
            r == (PythonStepBuilder { client: Some(client), ..self }),
    {
        PythonStepBuilder { client: Some(client), ..self }
    }

    pub fn with_dry_run(self, dry_run: bool) -> (r: Self)
        ensures
            r == (PythonStepBuilder { dry_run, ..self }),
    {
        PythonStepBuilder { dry_run, ..self }
    }

    /// The step: the id and the client are required, in that order; the
    /// namespace defaults to `default` and the pod's name to `<id>-python`.
    pub fn build(self) -> (r: Result<PythonStep, BuildError>)
        ensures
            self.step_id is None ==> fails_with(r, "step_id is required"@),
            self.step_id is Some && self.client is None ==> fails_with(r, "client is required"@),
            self.step_id matches Some(id) ==> (self.client matches Some(c) ==> (r matches Ok(step)
                && step.step_id == id && step.namespace@ == (match self.namespace {
                Some(n) => n@,
                None => "default"@,
            }) && step.name@ == (match self.name {
                Some(n) => n@,
                None => id@ + "-python"@,
            }) && step.code == self.code && step.package_source == self.package_source
                && step.requirements == self.requirements && step.entry_point == self.entry_point
                && step.resource_limits == self.resource_limits && step.volume_mounts
                == self.volume_mounts && step.environment_variables == self.environment_variables
                && step.timeout == self.timeout && step.client == c && step.dry_run == self.dry_run)),
    {
        let PythonStepBuilder {
            step_id,
            namespace,
            name,
            code,
            package_source,
            requirements,
            entry_point,
            resource_limits,
            volume_mounts,
            environment_variables,
            timeout,
            client,
            dry_run,
        } = self;
        let step_id = match step_id {
            None => {
                return Err(BuildError::new("step_id is required"));
            },
            Some(s) => s,
        };
        let namespace = match namespace {
            Some(n) => n,
            None => String::from_str("default"),
        };
        let name = match name {
            Some(n) => n,
            None => {
                let mut n = step_id.clone();
                n.append("-python");
                n
            },
        };
        let client = match client {
            None => {
                return Err(BuildError::new("client is required"));
            },
            Some(c) => c,
        };
        Ok(
            PythonStep {
                step_id,
                namespace,
                name,
                code,
                package_source,
                requirements,
                entry_point,
                resource_limits,
                volume_mounts,
                environment_variables,
                timeout,
                client,
                dry_run,
            },
        )
    }
}

impl Default for PythonStepBuilder {
    fn default() -> (r: Self)
        ensures
            python_builder_is_new(r),
    {
        PythonStepBuilder::new()
    }
}

} // verus!
