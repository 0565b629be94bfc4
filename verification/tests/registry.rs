use battlesnake_server::registry::model::{AcquireError, Status};
use battlesnake_server::registry::{Expiry, Registry, EXPIRY_SECS};

#[test]
fn start_then_acquire_returns_the_initial_state() {
    let mut registry: Registry<u32> = Registry::new();
    registry.start("g1".to_string(), 7);
    assert_eq!(registry.status("g1"), Status::Idle);
    assert_eq!(registry.acquire("g1"), Ok(7));
    assert_eq!(registry.status("g1"), Status::InFlight);
}

#[test]
fn second_acquire_while_in_flight_is_busy() {
    let mut registry: Registry<u32> = Registry::new();
    registry.start("g1".to_string(), 7);
    assert_eq!(registry.acquire("g1"), Ok(7));
    assert_eq!(registry.acquire("g1"), Err(AcquireError::Busy));
    assert_eq!(registry.acquire("g1"), Err(AcquireError::Busy));
    assert_eq!(registry.status("g1"), Status::InFlight);
}

#[test]
fn acquire_of_a_game_never_started_is_not_found() {
    let mut registry: Registry<u32> = Registry::new();
    assert_eq!(registry.acquire("g9"), Err(AcquireError::NotFound));
    registry.start("g1".to_string(), 1);
    assert_eq!(registry.acquire("g9"), Err(AcquireError::NotFound));
    assert_eq!(registry.status("g9"), Status::Absent);
    assert_eq!(registry.status("g1"), Status::Idle);
}

#[test]
fn release_after_remove_does_not_resurrect() {
    let mut registry: Registry<u32> = Registry::new();
    registry.start("g1".to_string(), 0);
    assert_eq!(registry.acquire("g1"), Ok(0));
    registry.remove("g1");
    registry.release("g1", 1);
    assert_eq!(registry.status("g1"), Status::Absent);
    assert_eq!(registry.acquire("g1"), Err(AcquireError::NotFound));
}

#[test]
fn release_hands_the_new_state_to_the_next_move() {
    let mut registry: Registry<String> = Registry::new();
    registry.start("g1".to_string(), "s0".to_string());
    let state = registry.acquire("g1").unwrap();
    assert_eq!(state, "s0");
    registry.release("g1", "s1".to_string());
    assert_eq!(registry.status("g1"), Status::Idle);
    assert_eq!(registry.acquire("g1"), Ok("s1".to_string()));
}

#[test]
fn release_of_a_game_never_started_is_dropped() {
    let mut registry: Registry<u32> = Registry::new();
    registry.release("g1", 5);
    assert_eq!(registry.status("g1"), Status::Absent);
    assert_eq!(registry.acquire("g1"), Err(AcquireError::NotFound));
}

#[test]
fn remove_is_idempotent() {
    let mut registry: Registry<u32> = Registry::new();
    registry.remove("g1");
    assert_eq!(registry.status("g1"), Status::Absent);
    registry.start("g1".to_string(), 3);
    registry.start("g2".to_string(), 4);
    for _ in 0..5 {
        registry.remove("g1");
        assert_eq!(registry.status("g1"), Status::Absent);
        assert_eq!(registry.status("g2"), Status::Idle);
    }
    assert_eq!(registry.acquire("g1"), Err(AcquireError::NotFound));
    assert_eq!(registry.acquire("g2"), Ok(4));
}

#[test]
fn remove_takes_a_game_in_flight_out_of_play() {
    let mut registry: Registry<u32> = Registry::new();
    registry.start("g1".to_string(), 3);
    assert_eq!(registry.acquire("g1"), Ok(3));
    registry.remove("g1");
    assert_eq!(registry.acquire("g1"), Err(AcquireError::NotFound));
}

#[test]
fn distinct_games_do_not_interfere() {
    let mut registry: Registry<u32> = Registry::new();
    registry.start("a".to_string(), 1);
    registry.start("b".to_string(), 2);
    assert_eq!(registry.acquire("a"), Ok(1));
    assert_eq!(registry.status("b"), Status::Idle);
    assert_eq!(registry.acquire("b"), Ok(2));
    registry.release("b", 20);
    assert_eq!(registry.status("a"), Status::InFlight);
    assert_eq!(registry.acquire("a"), Err(AcquireError::Busy));
    registry.release("a", 10);
    assert_eq!(registry.acquire("b"), Ok(20));
    assert_eq!(registry.acquire("a"), Ok(10));
    registry.remove("a");
    assert_eq!(registry.status("b"), Status::InFlight);
    registry.release("b", 21);
    assert_eq!(registry.acquire("b"), Ok(21));
}

#[test]
fn start_overwrites_a_game_of_the_same_name() {
    let mut registry: Registry<u32> = Registry::new();
    registry.start("g1".to_string(), 1);
    registry.start("g1".to_string(), 2);
    assert_eq!(registry.acquire("g1"), Ok(2));
    registry.start("g1".to_string(), 3);
    assert_eq!(registry.status("g1"), Status::Idle);
    assert_eq!(registry.acquire("g1"), Ok(3));
}

#[test]
fn release_into_a_restarted_game_puts_the_state_back() {
    let mut registry: Registry<u32> = Registry::new();
    registry.start("g1".to_string(), 1);
    assert_eq!(registry.acquire("g1"), Ok(1));
    registry.start("g1".to_string(), 2);
    registry.release("g1", 11);
    assert_eq!(registry.acquire("g1"), Ok(11));
}

#[test]
fn start_returns_the_removal_to_carry_out() {
    let mut registry: Registry<u32> = Registry::new();
    let expiry = registry.start("g1".to_string(), 1);
    assert_eq!(expiry, Expiry { id: "g1".to_string(), after_secs: 180 });
    assert_eq!(EXPIRY_SECS, 180);
    registry.expire(&expiry);
    assert_eq!(registry.status("g1"), Status::Absent);
    registry.expire(&expiry);
    assert_eq!(registry.acquire("g1"), Err(AcquireError::NotFound));
}

#[test]
fn expiry_after_a_normal_end_is_harmless() {
    let mut registry: Registry<u32> = Registry::new();
    let expiry = registry.start("g1".to_string(), 1);
    registry.start("g2".to_string(), 2);
    registry.remove("g1");
    registry.expire(&expiry);
    assert_eq!(registry.status("g1"), Status::Absent);
    assert_eq!(registry.acquire("g2"), Ok(2));
}

#[test]
fn many_games_come_and_go() {
    let mut registry: Registry<usize> = Registry::new();
    for round in 0..4 {
        for i in 0..50 {
            registry.start(format!("game-{}", i), round * 100 + i);
        }
        for i in 0..50 {
            let id = format!("game-{}", i);
            assert_eq!(registry.acquire(&id), Ok(round * 100 + i));
            if i % 2 == 0 {
                registry.release(&id, i);
                assert_eq!(registry.status(&id), Status::Idle);
            }
        }
        for i in 0..50 {
            let id = format!("game-{}", i);
            if i % 3 != 0 {
                registry.remove(&id);
                assert_eq!(registry.status(&id), Status::Absent);
            }
        }
        for i in 0..50 {
            let id = format!("game-{}", i);
            let expected = if i % 3 != 0 {
                Status::Absent
            } else if i % 2 == 0 {
                Status::Idle
            } else {
                Status::InFlight
            };
            assert_eq!(registry.status(&id), expected);
        }
    }
}

#[test]
fn names_are_told_apart_character_by_character() {
    let mut registry: Registry<u32> = Registry::new();
    registry.start("g1".to_string(), 1);
    registry.start("g1 ".to_string(), 2);
    registry.start("G1".to_string(), 3);
    registry.start("".to_string(), 4);
    registry.start("spiel-\u{00e4}".to_string(), 5);
    assert_eq!(registry.acquire("g1"), Ok(1));
    assert_eq!(registry.acquire("g1 "), Ok(2));
    assert_eq!(registry.acquire("G1"), Ok(3));
    assert_eq!(registry.acquire(""), Ok(4));
    assert_eq!(registry.acquire("spiel-\u{00e4}"), Ok(5));
    assert_eq!(registry.acquire("spiel-a"), Err(AcquireError::NotFound));
}
