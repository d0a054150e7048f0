use nrf52_rust_primer::dlogger::DLogger;

#[test]
fn a_new_logger_allows_output() {
    let logger = DLogger::new();
    assert_eq!(logger.hold_count, 0);
    assert!(logger.allowed());
}

#[test]
fn a_held_logger_allows_no_output() {
    let mut logger = DLogger::new();
    logger.hold();
    assert_eq!(logger.hold_count, 1);
    assert!(!logger.allowed());
}

#[test]
fn output_comes_back_with_the_last_release() {
    let mut logger = DLogger::new();
    logger.hold();
    logger.hold();
    logger.release();
    assert!(!logger.allowed());
    logger.release();
    assert!(logger.allowed());
}

#[test]
fn release_without_hold_changes_nothing() {
    let mut logger = DLogger::new();
    logger.release();
    assert_eq!(logger.hold_count, 0);
    assert!(logger.allowed());
}

#[test]
fn the_hold_count_wraps_round() {
    let mut logger = DLogger { hold_count: u32::MAX };
    assert!(!logger.allowed());
    logger.hold();
    assert_eq!(logger.hold_count, 0);
    assert!(logger.allowed());
}
