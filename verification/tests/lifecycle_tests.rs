use restbed::config::{ConfigError, ConfigFile};
use restbed::lifecycle::{Coordinator, ExitReason, LifecycleAction, LifecycleError, LifecycleEvent};

fn sample() -> ConfigFile {
    ConfigFile::new(
        String::from("abc"),
        String::from("127.0.0.1:9999"),
        String::from("c.pem"),
        String::from("pw"),
    )
}

fn take(coordinator: Coordinator, event: LifecycleEvent) -> (Coordinator, LifecycleAction) {
    let (next, action) = coordinator.step(event);
    (next, action.unwrap())
}

#[test]
fn ordinary_run_goes_through_every_phase() {
    let (c, first) = Coordinator::start();
    assert_eq!(first, LifecycleAction::LoadConfig);
    assert!(!c.stop_requested());
    let (c, action) = take(c, LifecycleEvent::Loaded(Ok(sample())));
    assert_eq!(action, LifecycleAction::InitSession { identity: String::from("abc") });
    let (c, action) = take(c, LifecycleEvent::SessionReady);
    assert_eq!(
        action,
        LifecycleAction::Serve {
            listen_address: String::from("127.0.0.1:9999"),
            cert_path: String::from("c.pem"),
            cert_passphrase: String::from("pw"),
        }
    );
    assert!(!c.stop_requested());
    assert_eq!(c.exit_reason(), None);
    let (c, action) = take(c, LifecycleEvent::ServerReturned);
    assert_eq!(action, LifecycleAction::StopListener);
    assert!(c.stop_requested());
    assert_eq!(c.exit_reason(), None);
    let (c, action) = take(c, LifecycleEvent::ListenerJoined);
    assert_eq!(action, LifecycleAction::Exit(ExitReason::Completed));
    assert!(c.stop_requested());
    assert_eq!(c.exit_reason(), Some(ExitReason::Completed));
}

#[test]
fn missing_configuration_runs_the_wizard_then_loads_again() {
    let (c, _) = Coordinator::start();
    let (c, action) = take(c, LifecycleEvent::Loaded(Err(ConfigError::Missing)));
    assert_eq!(action, LifecycleAction::RunWizard);
    let (c, action) = take(c, LifecycleEvent::WizardFinished);
    assert_eq!(action, LifecycleAction::LoadConfig);
    let (_, action) = take(c, LifecycleEvent::Loaded(Ok(sample())));
    assert_eq!(action, LifecycleAction::InitSession { identity: String::from("abc") });
}

#[test]
fn aborted_wizard_ends_in_no_configuration() {
    let (c, _) = Coordinator::start();
    let (c, _) = take(c, LifecycleEvent::Loaded(Err(ConfigError::Missing)));
    let (c, _) = take(c, LifecycleEvent::WizardFinished);
    let (c, action) = take(c, LifecycleEvent::Loaded(Err(ConfigError::Missing)));
    assert_eq!(action, LifecycleAction::Exit(ExitReason::NoConfiguration));
    assert_eq!(c.exit_reason(), Some(ExitReason::NoConfiguration));
    let (c, refused) = c.step(LifecycleEvent::SessionReady);
    assert_eq!(refused, Err(LifecycleError::UnexpectedEvent));
    let (c, refused) = c.step(LifecycleEvent::Loaded(Ok(sample())));
    assert_eq!(refused, Err(LifecycleError::UnexpectedEvent));
    assert_eq!(c.exit_reason(), Some(ExitReason::NoConfiguration));
    assert!(!c.stop_requested());
}

#[test]
fn unusable_configuration_is_fatal() {
    let (c, _) = Coordinator::start();
    let (c, action) = take(c, LifecycleEvent::Loaded(Err(ConfigError::Parse)));
    assert_eq!(action, LifecycleAction::Exit(ExitReason::ConfigParseError));
    assert_eq!(c.exit_reason(), Some(ExitReason::ConfigParseError));

    let (c, _) = Coordinator::start();
    let (c, _) = take(c, LifecycleEvent::Loaded(Err(ConfigError::Missing)));
    let (c, _) = take(c, LifecycleEvent::WizardFinished);
    let (_, action) = take(c, LifecycleEvent::Loaded(Err(ConfigError::Parse)));
    assert_eq!(action, LifecycleAction::Exit(ExitReason::ConfigParseError));
}

#[test]
fn failed_session_starts_nothing() {
    let (c, _) = Coordinator::start();
    let (c, _) = take(c, LifecycleEvent::Loaded(Ok(sample())));
    let (c, action) = take(c, LifecycleEvent::SessionFailed);
    assert_eq!(action, LifecycleAction::Exit(ExitReason::InitializationError));
    let (c, refused) = c.step(LifecycleEvent::SessionReady);
    assert_eq!(refused, Err(LifecycleError::UnexpectedEvent));
    let (c, refused) = c.step(LifecycleEvent::ServerReturned);
    assert_eq!(refused, Err(LifecycleError::UnexpectedEvent));
    assert!(!c.stop_requested());
    assert_eq!(c.exit_reason(), Some(ExitReason::InitializationError));
}

#[test]
fn io_failure_before_the_session_is_fatal() {
    let (c, _) = Coordinator::start();
    let (c, action) = take(c, LifecycleEvent::IoFailed);
    assert_eq!(action, LifecycleAction::Exit(ExitReason::IoError));
    assert_eq!(c.exit_reason(), Some(ExitReason::IoError));

    let (c, _) = Coordinator::start();
    let (c, _) = take(c, LifecycleEvent::Loaded(Err(ConfigError::Missing)));
    let (_, action) = take(c, LifecycleEvent::IoFailed);
    assert_eq!(action, LifecycleAction::Exit(ExitReason::IoError));

    let (c, _) = Coordinator::start();
    let (c, _) = take(c, LifecycleEvent::Loaded(Ok(sample())));
    let (_, refused) = c.step(LifecycleEvent::IoFailed);
    assert_eq!(refused, Err(LifecycleError::UnexpectedEvent));
}

#[test]
fn stop_is_not_requested_before_the_server_returns() {
    let (c, _) = Coordinator::start();
    let (c, refused) = c.step(LifecycleEvent::ServerReturned);
    assert_eq!(refused, Err(LifecycleError::UnexpectedEvent));
    assert!(!c.stop_requested());
    let (c, _) = take(c, LifecycleEvent::Loaded(Ok(sample())));
    let (c, refused) = c.step(LifecycleEvent::ServerReturned);
    assert_eq!(refused, Err(LifecycleError::UnexpectedEvent));
    assert!(!c.stop_requested());
    let (c, refused) = c.step(LifecycleEvent::ListenerJoined);
    assert_eq!(refused, Err(LifecycleError::UnexpectedEvent));
    let (c, _) = take(c, LifecycleEvent::SessionReady);
    let (c, refused) = c.step(LifecycleEvent::ListenerJoined);
    assert_eq!(refused, Err(LifecycleError::UnexpectedEvent));
    assert!(!c.stop_requested());
    let (c, refused) = c.step(LifecycleEvent::SessionReady);
    assert_eq!(refused, Err(LifecycleError::UnexpectedEvent));
    let (c, _) = take(c, LifecycleEvent::ServerReturned);
    assert!(c.stop_requested());
    let (c, refused) = c.step(LifecycleEvent::ServerReturned);
    assert_eq!(refused, Err(LifecycleError::UnexpectedEvent));
    assert!(c.stop_requested());
}

#[test]
fn wizard_end_is_awaited_only_while_configuring() {
    let (c, _) = Coordinator::start();
    let (c, refused) = c.step(LifecycleEvent::WizardFinished);
    assert_eq!(refused, Err(LifecycleError::UnexpectedEvent));
    let (c, _) = take(c, LifecycleEvent::Loaded(Err(ConfigError::Missing)));
    let (c, refused) = c.step(LifecycleEvent::Loaded(Ok(sample())));
    assert_eq!(refused, Err(LifecycleError::UnexpectedEvent));
    let (c, _) = take(c, LifecycleEvent::WizardFinished);
    let (_, refused) = c.step(LifecycleEvent::WizardFinished);
    assert_eq!(refused, Err(LifecycleError::UnexpectedEvent));
}
