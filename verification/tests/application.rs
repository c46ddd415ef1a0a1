use summa::application::Application;
use summa::configs::{ApplicationConfig, ApplicationConfigHolder, GrpcConfig, LoggingTarget, MetricsConfig};

fn config(debug: bool) -> ApplicationConfig {
    ApplicationConfig {
        data_path: "data/bin".to_string(),
        debug,
        grpc: GrpcConfig { endpoint: "127.0.0.1:8082".to_string() },
        log_path: "data/logs".to_string(),
        metrics: MetricsConfig { endpoint: "127.0.0.1:8084".to_string() },
    }
}

#[test]
fn application_from_config_holds_it_in_memory() {
    let application = Application::from_config(config(true));
    let holder = application.config();
    assert_eq!(holder.config_filepath(), &None);
    assert_eq!(holder.read().data_path, "data/bin");
    assert_eq!(holder.read().log_path, "data/logs");
    assert!(holder.read().debug);
    assert_eq!(holder.read().grpc.endpoint, "127.0.0.1:8082");
    assert_eq!(holder.read().metrics.endpoint, "127.0.0.1:8084");
}

#[test]
fn application_from_holder_keeps_the_file() {
    let holder = ApplicationConfigHolder::with_filepath(config(false), "summa.yaml".to_string());
    let application = Application::from_application_config_holder(holder);
    assert_eq!(application.config().config_filepath(), &Some("summa.yaml".to_string()));
    assert_eq!(application.config().read().grpc.endpoint, "127.0.0.1:8082");
    assert!(!application.config().read().debug);
}

#[test]
fn debug_server_logs_to_console() {
    assert!(matches!(Application::from_config(config(true)).logging_target(), LoggingTarget::Console));
    assert!(matches!(config(true).logging_target(), LoggingTarget::Console));
}

#[test]
fn other_server_logs_to_files_under_its_log_path() {
    match Application::from_config(config(false)).logging_target() {
        LoggingTarget::File(log_path) => assert_eq!(log_path, "data/logs"),
        LoggingTarget::Console => panic!("expected a log file"),
    }
}
