use vstd::prelude::*;

verus! {

/// One remote command together with the line shown to the operator.
pub struct SshCommand {
    pub command: String,
    pub description: String,
}

impl View for SshCommand {
    type V = (Seq<char>, Seq<char>);

    open spec fn view(&self) -> (Seq<char>, Seq<char>) {
        (self.command@, self.description@)
    }
}

/// The plan of a role as (command, description) pairs.
pub open spec fn steps_view(v: Seq<SshCommand>) -> Seq<(Seq<char>, Seq<char>)> {
    v.map_values(|s: SshCommand| s@)
}

pub open spec fn install_command() -> Seq<char> {
    "sudo sh -c 'curl -sfL https://get.rke2.io | INSTALL_RKE2_TYPE=\"server\" sh'"@
}

pub open spec fn mkdir_command() -> Seq<char> {
    "sudo mkdir -p /etc/rancher/rke2"@
}

pub open spec fn config_header() -> Seq<char> {
    "sudo tee /etc/rancher/rke2/config.yaml > /dev/null <<EOF\n"@
}

pub open spec fn enable_command() -> Seq<char> {
    "sudo systemctl enable rke2-server"@
}

pub open spec fn start_command() -> Seq<char> {
    "sudo systemctl start rke2-server"@
}

pub open spec fn symlink_command() -> Seq<char> {
    "sudo ln -s /var/lib/rancher/rke2/bin/kubectl /usr/local/bin/kubectl && sudo chmod +x /usr/local/bin/kubectl"@
}

pub open spec fn kubeconfig_command() -> Seq<char> {
    "export KUBECONFIG=/etc/rancher/rke2/rke2.yaml"@
}

/// The seven steps shared by every role; only the install description and
/// the configuration file differ.
pub open spec fn role_plan(install_description: Seq<char>, config: Seq<char>) -> Seq<(Seq<char>, Seq<char>)> {
    seq![
        (install_command(), install_description),
        (mkdir_command(), "Create RKE2 directory"@),
        (config, "Create RKE2 config file"@),
        (enable_command(), "Enable RKE2 service"@),
        (start_command(), "Start RKE2 service"@),
        (symlink_command(), "Create symlink for kubectl"@),
        (kubeconfig_command(), "Set KUBECONFIG"@),
    ]
}

/// Configuration written on the management node: its address and the
/// derived wildcard name as subject names, no taint.
pub open spec fn rancher_config(ip: Seq<char>, token: Seq<char>) -> Seq<char> {
    config_header() + "token: "@ + token + "\ntls-san:\n    - "@ + ip + "\n    - "@ + ip
        + ".sslip.io\nnode-taint: []\nEOF"@
}

/// Configuration written on the coordination-store node.
pub open spec fn etcd_config(ip: Seq<char>, token: Seq<char>) -> Seq<char> {
    config_header() + "token: "@ + token + "\ntls-san:\n    - "@ + ip
        + "\nnode-taint:\n    - \"etcd=true:NoExecute\"\nEOF"@
}

/// The line of the control-plane configuration that joins the
/// coordination-store node.
pub open spec fn server_line(etcd_private_ip: Seq<char>) -> Seq<char> {
    "server: https://"@ + etcd_private_ip + ":9345"@
}

/// Configuration written on the control-plane node.
pub open spec fn control_plane_config(ip: Seq<char>, etcd_private_ip: Seq<char>, token: Seq<char>) -> Seq<char> {
    config_header() + server_line(etcd_private_ip) + "\ntoken: "@ + token + "\ntls-san:\n    - "@ + ip
        + "\nnode-taint:\n    - \"controlplane=true:NoExecute\"\nEOF"@
}

pub open spec fn rancher_plan(ip: Seq<char>, token: Seq<char>) -> Seq<(Seq<char>, Seq<char>)> {
    role_plan("Install RKE2"@, rancher_config(ip, token))
}

pub open spec fn etcd_plan(ip: Seq<char>, token: Seq<char>) -> Seq<(Seq<char>, Seq<char>)> {
    role_plan("Install RKE2 server"@, etcd_config(ip, token))
}

pub open spec fn control_plane_plan(ip: Seq<char>, etcd_private_ip: Seq<char>, token: Seq<char>) -> Seq<(Seq<char>, Seq<char>)> {
    role_plan("Install RKE2 server"@, control_plane_config(ip, etcd_private_ip, token))
}

fn step(command: String, description: &str) -> (r: SshCommand)
    ensures
        r@ == (command@, description@),
{
    SshCommand { command, description: String::from_str(description) }
}

/// Assembles the seven steps around a rendered configuration command.
fn plan_with_config(install_description: &str, config: String) -> (r: Vec<SshCommand>)
    ensures
        steps_view(r@) == role_plan(install_description@, config@),
{
    let mut r: Vec<SshCommand> = Vec::new();
    r.push(step(String::from_str("sudo sh -c 'curl -sfL https://get.rke2.io | INSTALL_RKE2_TYPE=\"server\" sh'"), install_description));
    r.push(step(String::from_str("sudo mkdir -p /etc/rancher/rke2"), "Create RKE2 directory"));
    r.push(step(config, "Create RKE2 config file"));
    r.push(step(String::from_str("sudo systemctl enable rke2-server"), "Enable RKE2 service"));
    r.push(step(String::from_str("sudo systemctl start rke2-server"), "Start RKE2 service"));
    r.push(step(
        String::from_str("sudo ln -s /var/lib/rancher/rke2/bin/kubectl /usr/local/bin/kubectl && sudo chmod +x /usr/local/bin/kubectl"),
        "Create symlink for kubectl",
    ));
    r.push(step(String::from_str("export KUBECONFIG=/etc/rancher/rke2/rke2.yaml"), "Set KUBECONFIG"));
    assert(steps_view(r@) =~= role_plan(install_description@, config@));
    r
}

/// Builds the bootstrap plan of each cluster role.
pub struct KubeManager {}

impl KubeManager {
    /// Plan of the management node.
    pub fn get_rancher_commands(rancher_ip: &str, common_token: &str) -> (r: Vec<SshCommand>)
        ensures
            steps_view(r@) == rancher_plan(rancher_ip@, common_token@),
    {
        let mut config = String::from_str("sudo tee /etc/rancher/rke2/config.yaml > /dev/null <<EOF\n");
        config.append("token: ");
        config.append(common_token);
        config.append("\ntls-san:\n    - ");
        config.append(rancher_ip);
        config.append("\n    - ");
        config.append(rancher_ip);
        config.append(".sslip.io\nnode-taint: []\nEOF");
        plan_with_config("Install RKE2", config)
    }

    /// Plan of the coordination-store node.
    pub fn get_etcd_commands(etcd_public_ip: &str, common_token: &str) -> (r: Vec<SshCommand>)
        ensures
            steps_view(r@) == etcd_plan(etcd_public_ip@, common_token@),
    {
        let mut config = String::from_str("sudo tee /etc/rancher/rke2/config.yaml > /dev/null <<EOF\n");
        config.append("token: ");
        config.append(common_token);
        config.append("\ntls-san:\n    - ");
        config.append(etcd_public_ip);
        config.append("\nnode-taint:\n    - \"etcd=true:NoExecute\"\nEOF");
        plan_with_config("Install RKE2 server", config)
    }

    /// Plan of the control-plane node, which joins the coordination-store
    /// node at its private address.
    pub fn get_control_plane_commands(control_plane_ip: &str, etcd_private_ip: &str, common_token: &str) -> (r: Vec<SshCommand>)
        ensures
            steps_view(r@) == control_plane_plan(control_plane_ip@, etcd_private_ip@, common_token@),
    {
        let mut config = String::from_str("sudo tee /etc/rancher/rke2/config.yaml > /dev/null <<EOF\n");
        config.append("server: https://");
        config.append(etcd_private_ip);
        config.append(":9345");
        config.append("\ntoken: ");
        config.append(common_token);
        config.append("\ntls-san:\n    - ");
        config.append(control_plane_ip);
        config.append("\nnode-taint:\n    - \"controlplane=true:NoExecute\"\nEOF");
        assert(config@ =~= control_plane_config(control_plane_ip@, etcd_private_ip@, common_token@));
        plan_with_config("Install RKE2 server", config)
    }
}

/// Each role's plan is a function of its parameters alone: equal
/// parameters give identical commands and descriptions, in the same order.
pub proof fn lemma_plans_deterministic(ip1: Seq<char>, ip2: Seq<char>, peer1: Seq<char>, peer2: Seq<char>, token1: Seq<char>, token2: Seq<char>)
    requires
        ip1 == ip2,
        peer1 == peer2,
        token1 == token2,
    ensures
        rancher_plan(ip1, token1) == rancher_plan(ip2, token2),
        etcd_plan(ip1, token1) == etcd_plan(ip2, token2),
        control_plane_plan(ip1, peer1, token1) == control_plane_plan(ip2, peer2, token2),
        rancher_plan(ip1, token1).len() == 7,
{
}

} // verus!
