//! Resolution of the role addresses from the provisioning outputs, the
//! ordered list of remote steps, and the fail-fast driver that hands the
//! steps out one at a time.

use vstd::prelude::*;
use crate::kube_manager::{
    config_header, control_plane_config, server_line, control_plane_plan, etcd_plan, rancher_plan, steps_view, KubeManager, SshCommand,
};
use crate::terraform::{lookup, render, TerraformOutput, ValueModel};

verus! {

/// The three cluster roles, in the order in which they are bootstrapped.
#[derive(Clone, Copy, Debug, PartialEq, Eq, Structural)]
pub enum Role {
    Management,
    CoordinationStore,
    ControlPlane,
}

pub open spec fn role_rank(r: Role) -> int {
    match r {
        Role::Management => 0,
        Role::CoordinationStore => 1,
        Role::ControlPlane => 2,
    }
}

/// How a node is reached: remote user, address and private-key path.
pub struct HostIdentity {
    pub user: String,
    pub address: String,
    pub key_path: String,
}

impl View for HostIdentity {
    type V = (Seq<char>, Seq<char>, Seq<char>);

    open spec fn view(&self) -> (Seq<char>, Seq<char>, Seq<char>) {
        (self.user@, self.address@, self.key_path@)
    }
}

pub open spec fn host_of(address: Seq<char>) -> (Seq<char>, Seq<char>, Seq<char>) {
    ("ubuntu"@, address, "~/.ssh/id_rsa"@)
}

impl HostIdentity {
    /// The identity used for every node: the default cloud image user and
    /// the operator's default key.
    pub fn for_address(address: &str) -> (r: HostIdentity)
        ensures
            r@ == host_of(address@),
    {
        HostIdentity {
            user: String::from_str("ubuntu"),
            address: String::from_str(address),
            key_path: String::from_str("~/.ssh/id_rsa"),
        }
    }
}

/// The names of the provisioning outputs that hold the role addresses.
pub struct OutputKeys {
    pub management: String,
    pub etcd_public: String,
    pub etcd_private: String,
    pub control_plane: String,
}

impl OutputKeys {
    /// The names that the provisioning templates use.
    pub fn standard() -> (r: OutputKeys)
        ensures
            r.management@ == "management_ip"@,
            r.etcd_public@ == "etcd_public_ip"@,
            r.etcd_private@ == "etcd_private_ip"@,
            r.control_plane@ == "control_plane_ip"@,
    {
        OutputKeys {
            management: String::from_str("management_ip"),
            etcd_public: String::from_str("etcd_public_ip"),
            etcd_private: String::from_str("etcd_private_ip"),
            control_plane: String::from_str("control_plane_ip"),
        }
    }
}

/// One command of a role's plan, bound to the node it runs on.
pub struct RemoteStep {
    pub role: Role,
    pub host: HostIdentity,
    pub command: SshCommand,
}

pub type StepView = (Role, (Seq<char>, Seq<char>, Seq<char>), (Seq<char>, Seq<char>));

impl View for RemoteStep {
    type V = StepView;

    open spec fn view(&self) -> StepView {
        (self.role, self.host@, self.command@)
    }
}

pub open spec fn remote_steps_view(v: Seq<RemoteStep>) -> Seq<StepView> {
    v.map_values(|s: RemoteStep| s@)
}

/// A role's plan bound to the address of its node.
pub open spec fn bind(role: Role, address: Seq<char>, plan: Seq<(Seq<char>, Seq<char>)>) -> Seq<StepView> {
    plan.map_values(|c: (Seq<char>, Seq<char>)| (role, host_of(address), c))
}

/// Why a remote command failed.
pub enum ExecError {
    Failed { command: String, reason: String },
}

/// Why a deployment stopped.
pub enum OrchestratorError {
    MissingOutput { key: String },
    StepFailed { description: String, command: String, reason: String },
}

/// The error names `key` as the missing output.
pub open spec fn is_missing(e: OrchestratorError, key: Seq<char>) -> bool {
    match e {
        OrchestratorError::MissingOutput { key: k } => k@ == key,
        _ => false,
    }
}

/// The address that an output gives, in its text form.
pub open spec fn address_of(out: Seq<(Seq<char>, ValueModel)>, key: Seq<char>) -> Option<Seq<char>> {
    match lookup(out, key) {
        Some(m) => Some(render(m)),
        None => None,
    }
}

/// The first of the given output names that is missing, checked in order.
pub open spec fn first_missing(out: Seq<(Seq<char>, ValueModel)>, keys: Seq<Seq<char>>) -> Option<Seq<char>>
    decreases keys.len(),
{
    if keys.len() == 0 {
        None
    } else if address_of(out, keys[0]) is None {
        Some(keys[0])
    } else {
        first_missing(out, keys.drop_first())
    }
}

pub open spec fn keys_view(k: OutputKeys) -> Seq<Seq<char>> {
    seq![k.management@, k.etcd_public@, k.etcd_private@, k.control_plane@]
}

/// Every step of the run, role after role: management, coordination store,
/// control plane. The control plane joins the store at its private address.
pub open spec fn deployment_plan(
    out: Seq<(Seq<char>, ValueModel)>,
    k: OutputKeys,
    token: Seq<char>,
) -> Seq<StepView> {
    let m = address_of(out, k.management@).unwrap();
    let ep = address_of(out, k.etcd_public@).unwrap();
    let epriv = address_of(out, k.etcd_private@).unwrap();
    let cp = address_of(out, k.control_plane@).unwrap();
    bind(Role::Management, m, rancher_plan(m, token))
        + bind(Role::CoordinationStore, ep, etcd_plan(ep, token))
        + bind(Role::ControlPlane, cp, control_plane_plan(cp, epriv, token))
}

/// Steps of an earlier role never come after steps of a later one.
pub open spec fn roles_ordered(steps: Seq<StepView>) -> bool {
    forall|i: int, j: int| 0 <= i <= j < steps.len() ==> role_rank(#[trigger] steps[i].0) <= role_rank(#[trigger] steps[j].0)
}

fn address(ips: &TerraformOutput, key: &String) -> (r: Result<String, OrchestratorError>)
    ensures
        match r {
            Ok(a) => address_of(ips@, key@) == Some(a@),
            Err(e) => address_of(ips@, key@) is None && is_missing(e, key@),
        },
{
    match ips.get(key.as_str()) {
        Some(v) => Ok(v.to_text()),
        None => Err(OrchestratorError::MissingOutput { key: key.clone() }),
    }
}

fn bind_steps(role: Role, address: &str, commands: Vec<SshCommand>) -> (r: Vec<RemoteStep>)
    ensures
        remote_steps_view(r@) == bind(role, address@, steps_view(commands@)),
{
    let ghost plan = steps_view(commands@);
    let mut out: Vec<RemoteStep> = Vec::new();
    let mut rest = commands;
    while rest.len() > 0
        invariant
            rest@.len() + out@.len() == plan.len(),
            steps_view(rest@) == plan.subrange(out@.len() as int, plan.len() as int),
            remote_steps_view(out@) == bind(role, address@, plan.subrange(0, out@.len() as int)),
        decreases rest.len(),
    {
        let ghost n: int = out@.len() as int;
        let ghost before = rest@;
        let c = rest.remove(0);
        proof {
            assert(c@ == steps_view(before)[0]);
            assert(steps_view(before)[0] == plan.subrange(n, plan.len() as int)[0]);
            assert(c@ == plan[n]);
            assert(steps_view(rest@) =~= steps_view(before).drop_first());
        }
        let ghost old_out = out@;
        out.push(RemoteStep { role, host: HostIdentity::for_address(address), command: c });
        proof {
            assert(plan.subrange(0, n + 1).drop_last() =~= plan.subrange(0, n));
            assert forall|i: int| 0 <= i < n + 1 implies #[trigger] remote_steps_view(out@)[i]
                == bind(role, address@, plan.subrange(0, n + 1))[i] by {
                if i < n {
                    assert(out@[i] == old_out[i]);
                    assert(remote_steps_view(old_out)[i] == bind(role, address@, plan.subrange(0, n))[i]);
                }
            }
            assert(remote_steps_view(out@) =~= bind(role, address@, plan.subrange(0, n + 1)));
        }
    }
    assert(plan.subrange(0, plan.len() as int) =~= plan);
    out
}

impl KubeManager {
    /// The management node's steps, bound to its address.
    pub fn setup_rancher_cluster(ips: &TerraformOutput, keys: &OutputKeys, common_token: &str) -> (r: Result<Vec<RemoteStep>, OrchestratorError>)
        ensures
            match r {
                Ok(s) => address_of(ips@, keys.management@) matches Some(a)
                    && remote_steps_view(s@) == bind(Role::Management, a, rancher_plan(a, common_token@)),
                Err(e) => address_of(ips@, keys.management@) is None
                    && is_missing(e, keys.management@),
            },
    {
        let ip = address(ips, &keys.management)?;
        let commands = KubeManager::get_rancher_commands(ip.as_str(), common_token);
        Ok(bind_steps(Role::Management, ip.as_str(), commands))
    }

    /// The coordination-store node's steps, bound to its public address.
    pub fn setup_etcd_cluster(ips: &TerraformOutput, keys: &OutputKeys, common_token: &str) -> (r: Result<Vec<RemoteStep>, OrchestratorError>)
        ensures
            match r {
                Ok(s) => address_of(ips@, keys.etcd_public@) matches Some(a)
                    && remote_steps_view(s@) == bind(Role::CoordinationStore, a, etcd_plan(a, common_token@)),
                Err(e) => address_of(ips@, keys.etcd_public@) is None
                    && is_missing(e, keys.etcd_public@),
            },
    {
        let ip = address(ips, &keys.etcd_public)?;
        let commands = KubeManager::get_etcd_commands(ip.as_str(), common_token);
        Ok(bind_steps(Role::CoordinationStore, ip.as_str(), commands))
    }

    /// The control-plane node's steps, bound to its address; it joins the
    /// coordination store at the store's private address.
    pub fn setup_control_plane_cluster(ips: &TerraformOutput, keys: &OutputKeys, common_token: &str) -> (r: Result<Vec<RemoteStep>, OrchestratorError>)
        ensures
            match r {
                Ok(s) => address_of(ips@, keys.control_plane@) matches Some(a)
                    && address_of(ips@, keys.etcd_private@) matches Some(p)
                    && remote_steps_view(s@) == bind(Role::ControlPlane, a, control_plane_plan(a, p, common_token@)),
                Err(e) => (address_of(ips@, keys.control_plane@) is None && is_missing(e, keys.control_plane@))
                    || (address_of(ips@, keys.control_plane@) is Some && address_of(ips@, keys.etcd_private@) is None
                        && is_missing(e, keys.etcd_private@)),
            },
    {
        let ip = address(ips, &keys.control_plane)?;
        let etcd_private_ip = address(ips, &keys.etcd_private)?;
        let commands = KubeManager::get_control_plane_commands(ip.as_str(), etcd_private_ip.as_str(), common_token);
        Ok(bind_steps(Role::ControlPlane, ip.as_str(), commands))
    }
}

/// A run as a mathematical value: its steps, the index of the step to run
/// next (or of the step that failed), and the reason of a failure.
pub struct DeploymentView {
    pub steps: Seq<StepView>,
    pub next: nat,
    pub failed: Option<Seq<char>>,
}

/// What a remote command reported: `None` on success, the reason otherwise.
pub open spec fn outcome_view(result: Result<(), ExecError>) -> Option<Seq<char>> {
    match result {
        Ok(_) => None,
        Err(ExecError::Failed { reason, .. }) => Some(reason@),
    }
}

/// One transition of a run on the outcome of the step it issued. A failed
/// or finished run stays as it is.
pub open spec fn advance(v: DeploymentView, outcome: Option<Seq<char>>) -> DeploymentView {
    if v.failed is Some || v.next >= v.steps.len() {
        v
    } else {
        match outcome {
            None => DeploymentView { next: v.next + 1, ..v },
            Some(reason) => DeploymentView { failed: Some(reason), ..v },
        }
    }
}

/// A run driven through a sequence of outcomes.
pub open spec fn drive(v: DeploymentView, outcomes: Seq<Option<Seq<char>>>) -> DeploymentView
    decreases outcomes.len(),
{
    if outcomes.len() == 0 {
        v
    } else {
        drive(advance(v, outcomes[0]), outcomes.drop_first())
    }
}

/// The step that a run issues next, if any.
pub open spec fn pending(v: DeploymentView) -> Option<StepView> {
    if v.failed is None && v.next < v.steps.len() {
        Some(v.steps[v.next as int])
    } else {
        None
    }
}

/// The error records the failed step's description and command and the
/// reason reported for it.
pub open spec fn reports_step(e: OrchestratorError, step: StepView, reason: Seq<char>) -> bool {
    match e {
        OrchestratorError::StepFailed { description, command, reason: r } =>
            description@ == step.2.1 && command@ == step.2.0 && r@ == reason,
        _ => false,
    }
}

/// A bootstrap run: the steps of every role in order, handed out one at a
/// time, stopping at the first failure.
pub struct Deployment {
    steps: Vec<RemoteStep>,
    next: usize,
    failure: Option<OrchestratorError>,
}

impl View for Deployment {
    type V = DeploymentView;

    closed spec fn view(&self) -> DeploymentView {
        DeploymentView {
            steps: remote_steps_view(self.steps@),
            next: self.next as nat,
            failed: match self.failure {
                Some(OrchestratorError::StepFailed { reason, .. }) => Some(reason@),
                _ => None,
            },
        }
    }
}

impl Deployment {
    pub closed spec fn wf(&self) -> bool {
        &&& self.next <= self.steps@.len()
        &&& match self.failure {
            Some(e) => self.next < self.steps@.len() && e is StepFailed
                && reports_step(e, self.steps@[self.next as int]@, self@.failed.unwrap()),
            None => true,
        }
    }

    /// Resolves the role addresses and lays out every step of the run. All
    /// four addresses are resolved before anything runs: a missing output is
    /// reported by name, the first missing in the order management,
    /// coordination-store public, coordination-store private, control plane.
    pub fn plan(ips: &TerraformOutput, keys: &OutputKeys, common_token: &str) -> (r: Result<Deployment, OrchestratorError>)
        ensures
            match first_missing(ips@, keys_view(*keys)) {
                Some(k) => r is Err && is_missing(r->Err_0, k),
                None => r is Ok && r->Ok_0.wf() && r->Ok_0@ == (DeploymentView {
                    steps: deployment_plan(ips@, *keys, common_token@),
                    next: 0,
                    failed: None,
                }),
            },
    {
        let ghost kv = keys_view(*keys);
        proof {
            reveal_with_fuel(first_missing, 5);
        }
        assert(kv.drop_first() =~= seq![keys.etcd_public@, keys.etcd_private@, keys.control_plane@]);
        assert(kv.drop_first().drop_first() =~= seq![keys.etcd_private@, keys.control_plane@]);
        assert(kv.drop_first().drop_first().drop_first() =~= seq![keys.control_plane@]);
        assert(kv.drop_first().drop_first().drop_first().drop_first() =~= Seq::<Seq<char>>::empty());
        address(ips, &keys.management)?;
        address(ips, &keys.etcd_public)?;
        address(ips, &keys.etcd_private)?;
        address(ips, &keys.control_plane)?;
        let mut steps = KubeManager::setup_rancher_cluster(ips, keys, common_token)?;
        let mut etcd = KubeManager::setup_etcd_cluster(ips, keys, common_token)?;
        let mut control_plane = KubeManager::setup_control_plane_cluster(ips, keys, common_token)?;
        let ghost (a, b, c) = (steps@, etcd@, control_plane@);
        steps.append(&mut etcd);
        steps.append(&mut control_plane);
        assert(remote_steps_view(steps@) =~= remote_steps_view(a) + remote_steps_view(b) + remote_steps_view(c));
        Ok(Deployment { steps, next: 0, failure: None })
    }

    /// The step to run now; `None` once the run has finished or failed.
    pub fn next_step(&self) -> (r: Option<&RemoteStep>)
        requires
            self.wf(),
        ensures
            match r {
                Some(s) => pending(self@) == Some(s@),
                None => pending(self@) is None,
            },
    {
        if self.failure.is_none() && self.next < self.steps.len() {
            Some(&self.steps[self.next])
        } else {
            None
        }
    }

    /// Records the outcome of the step that `next_step` handed out. The first
    /// failure ends the run.
    pub fn record(&mut self, result: Result<(), ExecError>)
        requires
            old(self).wf(),
        ensures
            final(self).wf(),
            final(self)@ == advance(old(self)@, outcome_view(result)),
    {
        if self.failure.is_some() || self.next >= self.steps.len() {
            return;
        }
        match result {
            Ok(()) => {
                self.next = self.next + 1;
            },
            Err(ExecError::Failed { reason, .. }) => {
                let step = &self.steps[self.next];
                self.failure = Some(OrchestratorError::StepFailed {
                    description: step.command.description.clone(),
                    command: step.command.command.clone(),
                    reason,
                });
            },
        }
    }

    /// The run has nothing left to issue.
    pub fn is_finished(&self) -> (r: bool)
        requires
            self.wf(),
        ensures
            r == (pending(self@) is None),
    {
        self.failure.is_some() || self.next >= self.steps.len()
    }

    /// The failure that ended the run, naming the step that failed.
    pub fn failure(&self) -> (r: Option<&OrchestratorError>)
        requires
            self.wf(),
        ensures
            match r {
                Some(e) => self@.failed matches Some(reason) && self@.next < self@.steps.len()
                    && reports_step(*e, self@.steps[self@.next as int], reason),
                None => self@.failed is None,
            },
    {
        self.failure.as_ref()
    }
}

/// Once a step has failed, no outcome makes the run issue anything more.
pub proof fn lemma_failure_is_final(v: DeploymentView, outcomes: Seq<Option<Seq<char>>>)
    requires
        v.failed is Some,
    ensures
        drive(v, outcomes) == v,
        pending(drive(v, outcomes)) is None,
    decreases outcomes.len(),
{
    if outcomes.len() > 0 {
        lemma_failure_is_final(advance(v, outcomes[0]), outcomes.drop_first());
    }
}

/// A complete plan has seven steps per role, the management node's first,
/// then the coordination store's, then the control plane's.
pub proof fn lemma_plan_layout(out: Seq<(Seq<char>, ValueModel)>, k: OutputKeys, token: Seq<char>)
    ensures
        deployment_plan(out, k, token).len() == 21,
        forall|i: int| 0 <= i < 7 ==> (#[trigger] deployment_plan(out, k, token)[i]).0 == Role::Management,
        forall|i: int| 7 <= i < 14 ==> (#[trigger] deployment_plan(out, k, token)[i]).0 == Role::CoordinationStore,
        forall|i: int| 14 <= i < 21 ==> (#[trigger] deployment_plan(out, k, token)[i]).0 == Role::ControlPlane,
        roles_ordered(deployment_plan(out, k, token)),
{
    let p = deployment_plan(out, k, token);
    assert(forall|i: int| 0 <= i < 21 ==> (#[trigger] p[i]).0 == if i < 7 {
        Role::Management
    } else if i < 14 {
        Role::CoordinationStore
    } else {
        Role::ControlPlane
    });
}

/// Fail-fast: when a step fails, whatever is reported afterwards, nothing
/// more is issued, and every step that was issued belongs to the failed
/// step's role or to an earlier one; no step of a later role has run.
pub proof fn lemma_fail_fast(v: DeploymentView, outcomes: Seq<Option<Seq<char>>>)
    requires
        roles_ordered(v.steps),
        v.failed is Some,
        v.next < v.steps.len(),
    ensures
        drive(v, outcomes) == v,
        pending(drive(v, outcomes)) is None,
        forall|i: int| 0 <= i <= v.next ==> role_rank(#[trigger] v.steps[i].0) <= role_rank(v.steps[v.next as int].0),
        forall|i: int| v.next < i < v.steps.len() ==> pending(drive(v, outcomes)) != Some(#[trigger] v.steps[i]),
{
    lemma_failure_is_final(v, outcomes);
}

/// The control-plane node's configuration names the coordination store's
/// private address as its server, on the line after the file header.
pub proof fn lemma_control_plane_joins_private(out: Seq<(Seq<char>, ValueModel)>, k: OutputKeys, token: Seq<char>)
    requires
        first_missing(out, keys_view(k)) is None,
    ensures
        ({
            let p = deployment_plan(out, k, token);
            let private = address_of(out, k.etcd_private@).unwrap();
            let h: int = config_header().len() as int;
            &&& p[16].0 == Role::ControlPlane
            &&& p[16].2.0 == control_plane_config(address_of(out, k.control_plane@).unwrap(), private, token)
            &&& p[16].2.0.subrange(h, h + server_line(private).len()) == server_line(private)
        }),
{
    let p = deployment_plan(out, k, token);
    let private = address_of(out, k.etcd_private@).unwrap();
    let cp = address_of(out, k.control_plane@).unwrap();
    let h: int = config_header().len() as int;
    let c = control_plane_config(cp, private, token);
    assert(p[16] == (Role::ControlPlane, host_of(cp), (c, "Create RKE2 config file"@)));
    assert(c.subrange(h, h + server_line(private).len()) =~= server_line(private));
}

} // verus!
