use countdown_timer::sleep::SleepInhibitor;

#[test]
fn allow_sleep_is_idempotent() {
    let mut inhibitor = SleepInhibitor::new();
    assert!(!inhibitor.is_active());
    inhibitor.allow_sleep();
    assert!(!inhibitor.is_active());
    inhibitor.allow_sleep();
    assert!(!inhibitor.is_active());
}

#[test]
fn prevent_sleep_holds_at_most_one_handle() {
    let mut inhibitor = SleepInhibitor::new();
    match inhibitor.prevent_sleep("Countdown running", "Timer") {
        Ok(()) => {
            // The platform granted a handle: a second call is a no-op and
            // the single handle stays held until released.
            assert!(inhibitor.is_active());
            assert!(inhibitor.prevent_sleep("Countdown running", "Timer").is_ok());
            assert!(inhibitor.is_active());
            inhibitor.allow_sleep();
            assert!(!inhibitor.is_active());
        }
        Err(message) => {
            // No handle could be acquired here: the slot is unchanged.
            assert!(!inhibitor.is_active());
            assert!(message.contains("Could not prevent sleep"));
        }
    }
}
