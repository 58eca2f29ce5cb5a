use dictation_core::greet;
use dictation_core::session::Platform;
use dictation_core::session::SessionController;
use dictation_core::session::StartError;
use dictation_core::session::check_microphone_permission;

#[test]
fn greet_formats_the_greeting() {
    assert_eq!(greet("World"), "Hello, World! You've been greeted from Rust!");
}

#[test]
fn permission_is_granted_on_macos_only() {
    assert!(check_microphone_permission(&Platform::MacOs).is_ok());
    let denied = check_microphone_permission(&Platform::Unsupported);
    assert_eq!(
        denied,
        Err("Microphone permission check not supported on this platform".to_string())
    );
}

#[test]
fn new_controller_is_idle() {
    let controller = SessionController::new();
    assert!(!controller.is_active());
}

#[test]
fn start_activates_and_returns_the_default_language() {
    let mut controller = SessionController::new();
    let launched = controller.start(&Platform::MacOs, None);
    assert_eq!(launched, Ok("en-US".to_string()));
    assert!(controller.is_active());
}

#[test]
fn start_keeps_the_requested_language() {
    let mut controller = SessionController::new();
    let launched = controller.start(&Platform::MacOs, Some("fr-FR".to_string()));
    assert_eq!(launched, Ok("fr-FR".to_string()));
}

#[test]
fn second_start_fails_with_already_active() {
    let mut controller = SessionController::new();
    assert!(controller.start(&Platform::MacOs, None).is_ok());
    let second = controller.start(&Platform::MacOs, None);
    assert_eq!(second, Err(StartError::AlreadyActive));
    // Only the first start may schedule a producer task; the session stays up.
    assert!(controller.is_active());
    assert_eq!(
        StartError::AlreadyActive.message(),
        "Transcription already active"
    );
}

#[test]
fn start_after_stop_succeeds_again() {
    let mut controller = SessionController::new();
    assert!(controller.start(&Platform::MacOs, None).is_ok());
    controller.stop();
    assert!(!controller.is_active());
    assert!(controller.start(&Platform::MacOs, None).is_ok());
    assert!(controller.is_active());
}

#[test]
fn start_after_natural_completion_succeeds_again() {
    let mut controller = SessionController::new();
    assert!(controller.start(&Platform::MacOs, None).is_ok());
    controller.on_producer_done();
    assert!(!controller.is_active());
    assert!(controller.start(&Platform::MacOs, None).is_ok());
}

#[test]
fn stop_on_idle_session_is_a_successful_no_op() {
    let mut controller = SessionController::new();
    controller.stop();
    assert!(!controller.is_active());
    controller.stop();
    assert!(!controller.is_active());
}

#[test]
fn denied_start_leaves_the_flag_untouched() {
    let mut controller = SessionController::new();
    let denied = controller.start(&Platform::Unsupported, None);
    match denied {
        Err(StartError::PermissionDenied { message }) => {
            assert_eq!(
                message,
                "Microphone permission check not supported on this platform"
            );
        }
        other => panic!("expected a permission rejection, got {:?}", other),
    }
    assert!(!controller.is_active());
    // An active session is also left untouched by a denied caller.
    assert!(controller.start(&Platform::MacOs, None).is_ok());
    let denied_again = controller.start(&Platform::Unsupported, None);
    assert!(matches!(denied_again, Err(StartError::PermissionDenied { .. })));
    assert!(controller.is_active());
}

#[test]
fn permission_denied_message_is_prefixed() {
    let e = StartError::PermissionDenied {
        message: "no capture device".to_string(),
    };
    assert_eq!(e.message(), "Microphone permission denied: no capture device");
}
