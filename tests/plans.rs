use smed::kube_manager::{KubeManager, SshCommand};

fn pairs(v: &[SshCommand]) -> Vec<(String, String)> {
    v.iter().map(|c| (c.command.clone(), c.description.clone())).collect()
}

const INSTALL: &str = "sudo sh -c 'curl -sfL https://get.rke2.io | INSTALL_RKE2_TYPE=\"server\" sh'";

#[test]
fn rancher_plan_exact() {
    let p = KubeManager::get_rancher_commands("1.2.3.4", "tok");
    assert_eq!(p.len(), 7);
    assert_eq!(p[0].command, INSTALL);
    assert_eq!(p[0].description, "Install RKE2");
    assert_eq!(p[1].command, "sudo mkdir -p /etc/rancher/rke2");
    assert_eq!(
        p[2].command,
        "sudo tee /etc/rancher/rke2/config.yaml > /dev/null <<EOF\ntoken: tok\ntls-san:\n    - 1.2.3.4\n    - 1.2.3.4.sslip.io\nnode-taint: []\nEOF"
    );
    assert_eq!(p[3].command, "sudo systemctl enable rke2-server");
    assert_eq!(p[4].command, "sudo systemctl start rke2-server");
    assert_eq!(p[4].description, "Start RKE2 service");
    assert_eq!(p[6].command, "export KUBECONFIG=/etc/rancher/rke2/rke2.yaml");
}

#[test]
fn etcd_plan_exact() {
    let p = KubeManager::get_etcd_commands("5.6.7.8", "tok");
    assert_eq!(p[0].description, "Install RKE2 server");
    assert_eq!(
        p[2].command,
        "sudo tee /etc/rancher/rke2/config.yaml > /dev/null <<EOF\ntoken: tok\ntls-san:\n    - 5.6.7.8\nnode-taint:\n    - \"etcd=true:NoExecute\"\nEOF"
    );
    assert!(!p[2].command.contains("server:"));
}

#[test]
fn control_plane_plan_exact() {
    let p = KubeManager::get_control_plane_commands("9.9.9.9", "10.0.1.2", "tok");
    assert_eq!(
        p[2].command,
        "sudo tee /etc/rancher/rke2/config.yaml > /dev/null <<EOF\nserver: https://10.0.1.2:9345\ntoken: tok\ntls-san:\n    - 9.9.9.9\nnode-taint:\n    - \"controlplane=true:NoExecute\"\nEOF"
    );
}

#[test]
fn plans_are_deterministic() {
    assert_eq!(pairs(&KubeManager::get_rancher_commands("a", "t")), pairs(&KubeManager::get_rancher_commands("a", "t")));
    assert_eq!(pairs(&KubeManager::get_etcd_commands("a", "t")), pairs(&KubeManager::get_etcd_commands("a", "t")));
    assert_eq!(
        pairs(&KubeManager::get_control_plane_commands("a", "b", "t")),
        pairs(&KubeManager::get_control_plane_commands("a", "b", "t"))
    );
}
