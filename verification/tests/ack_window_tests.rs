//! The acknowledgement-window rules, scenario by scenario.

use iec104::link::receive_handler::ReceiveHandler;

#[test]
fn test_empty_buffer_valid_sequence() {
    let mut k_buffer: Vec<(u16, u64)> = Vec::new();
    let send_count = 100;
    assert!(ReceiveHandler::check_sequence_acknowledge(&mut k_buffer, 100, send_count).is_ok());
    assert!(ReceiveHandler::check_sequence_acknowledge(&mut k_buffer, 101, send_count).is_err());
}

#[test]
fn test_single_value_buffer() {
    let now = 0u64;
    let k_buffer = vec![(100u16, now)];
    assert!(
        ReceiveHandler::check_sequence_acknowledge(&mut k_buffer.clone(), 100, 101).is_ok()
    );
    assert!(
        ReceiveHandler::check_sequence_acknowledge(&mut k_buffer.clone(), 101, 101).is_err()
    );
}

#[test]
fn test_normal_range_no_overflow() {
    let now = 0u64;
    let k_buffer = vec![(100u16, now), (101, now), (102, now)];
    assert!(ReceiveHandler::check_sequence_acknowledge(&mut k_buffer.clone(), 101, 103).is_ok());
    assert!(ReceiveHandler::check_sequence_acknowledge(&mut k_buffer.clone(), 102, 103).is_ok());
    assert!(ReceiveHandler::check_sequence_acknowledge(&mut k_buffer.clone(), 98, 103).is_err());
    assert!(ReceiveHandler::check_sequence_acknowledge(&mut k_buffer.clone(), 103, 103).is_err());
}

#[test]
fn test_overflow_scenario() {
    let now = 0u64;
    let k_buffer = vec![(32766u16, now), (32767, now), (0, now), (1, now)];
    assert!(ReceiveHandler::check_sequence_acknowledge(&mut k_buffer.clone(), 32767, 2).is_ok());
    assert!(ReceiveHandler::check_sequence_acknowledge(&mut k_buffer.clone(), 0, 2).is_ok());
    assert!(ReceiveHandler::check_sequence_acknowledge(&mut k_buffer.clone(), 1, 2).is_ok());
    assert!(ReceiveHandler::check_sequence_acknowledge(&mut k_buffer.clone(), 32764, 2).is_err());
    assert!(ReceiveHandler::check_sequence_acknowledge(&mut k_buffer.clone(), 2, 2).is_err());
}

#[test]
fn test_oldest_valid_sequence_number() {
    let now = 0u64;
    let mut k_buffer = vec![(100u16, now), (101, now)];
    assert!(ReceiveHandler::check_sequence_acknowledge(&mut k_buffer, 99, 102).is_ok());
    let mut k_buffer_wrap = vec![(0u16, now), (1, now)];
    assert!(ReceiveHandler::check_sequence_acknowledge(&mut k_buffer_wrap, 32767, 2).is_ok());
}

#[test]
fn test_buffer_cleanup() {
    let now = 0u64;
    let mut k_buffer = vec![(100u16, now), (101, now), (102, now)];
    assert!(ReceiveHandler::check_sequence_acknowledge(&mut k_buffer, 101, 103).is_ok());
    assert_eq!(k_buffer, vec![(102, now)]);
}

#[test]
fn test_multiple_cleanup() {
    let now = 0u64;
    let mut k_buffer = vec![(100u16, now), (101, now), (102, now), (103, now)];
    assert!(ReceiveHandler::check_sequence_acknowledge(&mut k_buffer, 102, 104).is_ok());
    assert_eq!(k_buffer, vec![(103, now)]);
}

#[test]
fn test_overflow_cleanup() {
    let now = 0u64;
    let mut k_buffer = vec![(32766u16, now), (32767, now), (0, now), (1, now)];
    assert!(ReceiveHandler::check_sequence_acknowledge(&mut k_buffer, 32767, 2).is_ok());
    assert_eq!(k_buffer, vec![(0, now), (1, now)]);
}

#[test]
fn test_invalid_scenarios() {
    let now = 0u64;
    let k_buffer = vec![(100u16, now), (101, now)];
    assert!(ReceiveHandler::check_sequence_acknowledge(&mut k_buffer.clone(), 98, 102).is_err());
    assert!(ReceiveHandler::check_sequence_acknowledge(&mut k_buffer.clone(), 103, 102).is_err());
    assert!(ReceiveHandler::check_sequence_acknowledge(&mut k_buffer.clone(), 105, 102).is_err());
}

#[test]
fn test_edge_cases() {
    let now = 0u64;
    let mut k_buffer = vec![(0u16, now)];
    assert!(ReceiveHandler::check_sequence_acknowledge(&mut k_buffer, 0, 1).is_ok());
    let mut k_buffer_max = vec![(32767u16, now)];
    assert!(ReceiveHandler::check_sequence_acknowledge(&mut k_buffer_max, 32767, 0).is_ok());
}

#[test]
fn test_complex_overflow_scenario() {
    let now = 0u64;
    let k_buffer = vec![(32765u16, now), (32766, now), (32767, now), (0, now), (1, now)];
    assert!(ReceiveHandler::check_sequence_acknowledge(&mut k_buffer.clone(), 32764, 2).is_ok());
    assert!(ReceiveHandler::check_sequence_acknowledge(&mut k_buffer.clone(), 32765, 2).is_ok());
    assert!(ReceiveHandler::check_sequence_acknowledge(&mut k_buffer.clone(), 32767, 2).is_ok());
    assert!(ReceiveHandler::check_sequence_acknowledge(&mut k_buffer.clone(), 0, 2).is_ok());
    assert!(ReceiveHandler::check_sequence_acknowledge(&mut k_buffer.clone(), 1, 2).is_ok());
    assert!(ReceiveHandler::check_sequence_acknowledge(&mut k_buffer.clone(), 32763, 2).is_err());
    assert!(ReceiveHandler::check_sequence_acknowledge(&mut k_buffer.clone(), 2, 2).is_err());
}

#[test]
fn test_cleanup_function() {
    let now = 0u64;
    let mut k_buffer = vec![(100u16, now), (101, now), (102, now), (103, now), (104, now)];
    assert!(ReceiveHandler::check_sequence_acknowledge(&mut k_buffer, 102, 103).is_ok());
    assert_eq!(k_buffer, vec![(103, now), (104, now)]);
}

#[test]
fn test_cleanup_with_overflow() {
    let now = 0u64;
    let mut k_buffer = vec![(32766u16, now), (32767, now), (0, now), (1, now), (2, now)];
    assert!(ReceiveHandler::check_sequence_acknowledge(&mut k_buffer, 0, 1).is_ok());
    assert_eq!(k_buffer, vec![(1, now), (2, now)]);
}

#[test]
fn test_cleanup_empty_buffer() {
    let mut k_buffer: Vec<(u16, u64)> = Vec::new();
    assert!(ReceiveHandler::check_sequence_acknowledge(&mut k_buffer, 100, 101).is_err());
    assert_eq!(k_buffer, vec![]);
}

#[test]
fn test_cleanup_no_match() {
    let now = 0u64;
    let mut k_buffer = vec![(100u16, now), (101, now), (102, now)];
    assert!(ReceiveHandler::check_sequence_acknowledge(&mut k_buffer, 98, 103).is_err());
    assert_eq!(k_buffer, vec![(100, now), (101, now), (102, now)]);
}
