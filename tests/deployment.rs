use smed::deploy::{Deployment, ExecError, OrchestratorError, OutputKeys, Role};
use smed::terraform::{TerraformClient, TerraformOutput};

fn outputs(with_control_plane: bool) -> TerraformOutput {
    let mut raw = String::from(
        r#"{"management_ip": {"value": "10.0.0.1"}, "etcd_public_ip": {"value": "10.0.0.2"}, "etcd_private_ip": {"value": "10.0.1.2"}"#,
    );
    if with_control_plane {
        raw.push_str(r#", "control_plane_ip": {"value": "10.0.0.3"}"#);
    }
    raw.push('}');
    TerraformClient::parse_output(&raw).unwrap()
}

/// Runs the deployment, failing the step whose index is `fail_at`; returns
/// the (role, address, description, command) of every issued step.
fn run(d: &mut Deployment, fail_at: Option<usize>) -> Vec<(Role, String, String, String)> {
    let mut issued = Vec::new();
    while let Some(s) = d.next_step() {
        issued.push((s.role, s.host.address.clone(), s.command.description.clone(), s.command.command.clone()));
        let result = if Some(issued.len() - 1) == fail_at {
            Err(ExecError::Failed { command: s.command.command.clone(), reason: "exit status 1".to_string() })
        } else {
            Ok(())
        };
        d.record(result);
    }
    issued
}

#[test]
fn scenario_all_steps_in_role_order() {
    let mut d = Deployment::plan(&outputs(true), &OutputKeys::standard(), "tok123").ok().unwrap();
    let issued = run(&mut d, None);
    assert_eq!(issued.len(), 21);
    assert!(d.is_finished());
    assert!(d.failure().is_none());
    for (i, s) in issued.iter().enumerate() {
        let (role, address) = match i / 7 {
            0 => (Role::Management, "10.0.0.1"),
            1 => (Role::CoordinationStore, "10.0.0.2"),
            _ => (Role::ControlPlane, "10.0.0.3"),
        };
        assert_eq!(s.0, role);
        assert_eq!(s.1, address);
    }
    let etcd_config = &issued[9].3;
    assert!(etcd_config.contains("node-taint:\n    - \"etcd=true:NoExecute\""));
    assert!(!etcd_config.contains("server:"));
    assert!(etcd_config.contains("token: tok123"));
    assert!(issued[16].3.contains("server: https://10.0.1.2:9345"));
    assert!(!issued[16].3.contains("10.0.0.2"));
}

#[test]
fn scenario_failure_in_store_start_stops_run() {
    let mut d = Deployment::plan(&outputs(true), &OutputKeys::standard(), "tok123").ok().unwrap();
    let issued = run(&mut d, Some(11));
    assert_eq!(issued.len(), 12);
    assert_eq!(issued[11].0, Role::CoordinationStore);
    assert!(issued.iter().all(|s| s.0 != Role::ControlPlane));
    assert!(d.is_finished());
    match d.failure() {
        Some(OrchestratorError::StepFailed { description, command, reason }) => {
            assert_eq!(description, "Start RKE2 service");
            assert_eq!(command, "sudo systemctl start rke2-server");
            assert_eq!(reason, "exit status 1");
        }
        _ => panic!("expected a step failure"),
    }
    d.record(Ok(()));
    assert!(d.next_step().is_none());
}

#[test]
fn failure_in_management_runs_nothing_else() {
    let mut d = Deployment::plan(&outputs(true), &OutputKeys::standard(), "t").ok().unwrap();
    let issued = run(&mut d, Some(0));
    assert_eq!(issued.len(), 1);
    assert_eq!(issued[0].0, Role::Management);
}

#[test]
fn scenario_missing_control_plane_output() {
    match Deployment::plan(&outputs(false), &OutputKeys::standard(), "tok123") {
        Err(OrchestratorError::MissingOutput { key }) => assert_eq!(key, "control_plane_ip"),
        _ => panic!("expected a missing output"),
    }
}

#[test]
fn first_missing_output_is_reported() {
    let out = TerraformClient::parse_output(r#"{"control_plane_ip": {"value": "1"}}"#).unwrap();
    match Deployment::plan(&out, &OutputKeys::standard(), "t") {
        Err(OrchestratorError::MissingOutput { key }) => assert_eq!(key, "management_ip"),
        _ => panic!("expected a missing output"),
    }
}

#[test]
fn list_output_address_is_rendered() {
    let raw = r#"{"management_ip": {"value": ["a", "b"]}, "etcd_public_ip": {"value": "2"}, "etcd_private_ip": {"value": "3"}, "control_plane_ip": {"value": "4"}}"#;
    let out = TerraformClient::parse_output(raw).unwrap();
    let d = Deployment::plan(&out, &OutputKeys::standard(), "t").ok().unwrap();
    assert_eq!(d.next_step().unwrap().host.address, "[a, b]");
    assert_eq!(d.next_step().unwrap().host.user, "ubuntu");
    assert_eq!(d.next_step().unwrap().host.key_path, "~/.ssh/id_rsa");
}
