use smed::config::{Config, InitCommand, InitHandler, InitParams};

#[test]
fn test_init() {
    let config = Config {
        aws_access_key: "test_access_key".to_string(),
        aws_secret_key: "test_secret_key".to_string(),
    };
    let init_command = InitCommand::new(&config);

    assert_eq!(init_command.config.aws_access_key, "test_access_key");
    assert_eq!(init_command.config.aws_secret_key, "test_secret_key");
}

#[test]
fn config_new_keeps_keys() {
    let c = Config::new("a", "b");
    assert_eq!(c.aws_access_key, "a");
    assert_eq!(c.aws_secret_key, "b");
}

#[test]
fn init_handler_succeeds() {
    let h = InitHandler {};
    assert!(h.execute(InitParams { verbose: true }).is_ok());
}
