use std::sync::{Arc, Mutex};
use totp_engine::clock::{Clock, FixedClock, SystemClock};
use totp_engine::error::EngineError;
use totp_engine::hotp::hotp;
use totp_engine::service::CommandService;
use totp_engine::totp::TotpParams;

const PLAIN: TotpParams = TotpParams { offset_seconds: 0, offset_steps: 0 };

const SHIFTED: TotpParams = TotpParams { offset_seconds: 0, offset_steps: 60 };

fn service(secret: &str, params: TotpParams) -> CommandService {
    CommandService::new(secret, params).unwrap()
}

#[test]
fn new_service_keeps_the_initial_secret() {
    assert_eq!(service("\x30\x31\x32\x33", SHIFTED).get_secret(), "0123");
}

#[test]
fn new_service_refuses_an_empty_secret() {
    assert_eq!(CommandService::new("", PLAIN).err(), Some(EngineError::InvalidSecret));
}

#[test]
fn get_secret_gives_back_what_was_set() {
    let mut service = service("0123", PLAIN);
    for text in ["123", "JBSWY3DPEHPK3PXP", "é", "s3cr3t-κλειδί", " "] {
        assert_eq!(service.set_secret(text), Ok(()));
        assert_eq!(service.get_secret(), text);
        assert_eq!(service.get_secret().as_bytes(), text.as_bytes());
    }
}

#[test]
fn empty_secret_is_rejected_and_the_old_one_kept() {
    let mut service = service("0123", PLAIN);
    let code = service.get_code_at(1_700_000_000);
    assert_eq!(service.set_secret(""), Err(EngineError::InvalidSecret));
    assert_eq!(service.get_secret(), "0123");
    assert_eq!(service.get_code_at(1_700_000_000), code);
    assert_eq!(code, "927455");
}

#[test]
fn set_secret_changes_the_codes() {
    let mut service = service("0123", PLAIN);
    assert_eq!(service.get_code_at(1_700_000_000), "927455");
    assert_eq!(service.set_secret("123"), Ok(()));
    assert_eq!(service.get_code_at(1_700_000_000), "611857");
}

#[test]
fn known_answer_for_0123_at_counter_zero() {
    let service = service("0123", PLAIN);
    assert_eq!(service.get_code_at(0), "945283");
    assert_eq!(Ok(service.get_code_at(0)), hotp(&[0x30, 0x31, 0x32, 0x33], 0));
}

#[test]
fn code_is_the_same_when_asked_again() {
    let mut service = service("0123", SHIFTED);
    service.set_secret("s3cr3t-κλειδί").unwrap();
    for now in [0u64, 1, 59, 1_700_000_000, u64::MAX] {
        let first = service.get_code_at(now);
        let second = service.get_code_at(now);
        assert_eq!(first, second);
        let clock = FixedClock { now };
        assert_eq!(service.get_code(&clock), Ok(first));
        assert_eq!(service.get_code(&clock), Ok(second));
    }
}

#[test]
fn code_holds_within_a_window() {
    let service = service("0123", PLAIN);
    let start = 1_700_000_010u64;
    assert_eq!(start % 30, 0);
    let code = service.get_code_at(start);
    for now in start..start + 30 {
        assert_eq!(service.get_code_at(now), code);
    }
    assert_eq!(service.get_code_at(0), service.get_code_at(29));
}

#[test]
fn code_changes_across_a_step_boundary() {
    let service = service("0123", PLAIN);
    assert_eq!(service.get_code_at(29), "945283");
    assert_eq!(service.get_code_at(30), "216808");
    assert_eq!(service.get_code_at(29), hotp(b"0123", 0).unwrap());
    assert_eq!(service.get_code_at(30), hotp(b"0123", 1).unwrap());
}

#[test]
fn code_may_repeat_across_a_step_boundary() {
    let service = service("0123", PLAIN);
    assert_eq!(hotp(b"0123", 1_181_100), Ok("007666".to_string()));
    assert_eq!(hotp(b"0123", 1_181_101), Ok("007666".to_string()));
    assert_eq!(service.get_code_at(35_433_029), "007666");
    assert_eq!(service.get_code_at(35_433_030), "007666");
}

#[test]
fn offset_in_steps_moves_the_counter() {
    let service = service("0123", SHIFTED);
    assert_eq!(service.get_code_at(0), "300946");
    assert_eq!(service.get_code_at(29), "300946");
    assert_eq!(service.get_code_at(30), "701278");
    assert_eq!(service.get_code_at(1_700_000_000), "090060");
}

#[test]
fn get_code_answers_a_reading() {
    let service = service("0123", PLAIN);
    assert_eq!(service.get_code_for(Some(30)), Ok("216808".to_string()));
    assert_eq!(service.get_code_for(None), Err(EngineError::ClockUnavailable));
}

#[test]
fn get_code_reads_the_fixed_clock() {
    let service = service("0123", PLAIN);
    assert_eq!(service.get_code(&FixedClock { now: 0 }), Ok("945283".to_string()));
    assert_eq!(service.get_code(&FixedClock { now: 30 }), Ok("216808".to_string()));
    assert_eq!(FixedClock { now: 30 }.unix_seconds(), Some(30));
}

#[test]
fn get_code_reads_the_system_clock() {
    let service = service("0123", PLAIN);
    let before = SystemClock.unix_seconds().unwrap();
    let code = service.get_code(&SystemClock).unwrap();
    let after = SystemClock.unix_seconds().unwrap();
    assert!(before <= after);
    assert!((before..=after).any(|now| service.get_code_at(now) == code));
}

#[test]
fn shared_service_shows_whole_secrets() {
    let old = "0123456789".repeat(100);
    let new = "abcdefghij".repeat(100);
    let shared = Arc::new(Mutex::new(service(&old, PLAIN)));
    let old_code = shared.lock().unwrap().get_code_at(0);
    let new_code = service(&new, PLAIN).get_code_at(0);
    let readers: Vec<Arc<Mutex<CommandService>>> = (0..8).map(|_| Arc::clone(&shared)).collect();
    let mut seen = Vec::new();
    for (turn, reader) in readers.iter().enumerate() {
        if turn == 4 {
            shared.lock().unwrap().set_secret(&new).unwrap();
        }
        let service = reader.lock().unwrap();
        seen.push((service.get_secret(), service.get_code_at(0)));
    }
    for (turn, (secret, code)) in seen.iter().enumerate() {
        assert_eq!(secret, if turn < 4 { &old } else { &new });
        assert_eq!(code, if turn < 4 { &old_code } else { &new_code });
    }
    assert_ne!(old_code, new_code);
}
