use battlesnake_server::api::request::{Battlesnake, Game, Turn};
use battlesnake_server::api::response::{Move, Movement};
use battlesnake_server::dispatch::{
    abandon_move, begin_move, end_game, finish_move, no_snake_reply, route, server_info, start_game,
    unknown_command_reply, unknown_snake_reply, Method, Reply, Route,
};
use battlesnake_server::error::{log_internal_errors, Error, BAD_REQUEST, INTERNAL_ERROR, NOT_FOUND};
use battlesnake_server::path::split_path;
use battlesnake_server::registry::model::Status;
use battlesnake_server::registry::Registry;
use battlesnake_server::runner::run;
use battlesnake_server::snakes::{build_snake_by_name, Snake};
use battlesnake_server::text::{around, chars_of, same_text};

fn turn(id: &str, timeout: u64, latency: &str) -> Turn {
    Turn {
        game: Game { id: id.to_string(), timeout },
        you: Battlesnake { latency: latency.to_string() },
    }
}

fn text_of(reply: Reply) -> (u16, String) {
    match reply {
        Reply::Text { status, message } => (status, message),
        other => panic!("not a text: {:?}", other),
    }
}

fn parts(path: &str) -> Option<(String, String)> {
    split_path(path).map(|t| (t.snake, t.command))
}

#[test]
fn paths_are_split_at_the_first_slash_inside() {
    assert_eq!(parts("/down/start"), Some(("down".to_string(), "start".to_string())));
    assert_eq!(parts("down/move"), Some(("down".to_string(), "move".to_string())));
    assert_eq!(parts("/down"), Some(("down".to_string(), "".to_string())));
    assert_eq!(parts("/down/"), Some(("down".to_string(), "".to_string())));
    assert_eq!(parts("///down///"), Some(("down".to_string(), "".to_string())));
    assert_eq!(parts("//down//end//"), Some(("down".to_string(), "/end".to_string())));
    assert_eq!(parts("/a/b/c/"), Some(("a".to_string(), "b/c".to_string())));
    assert_eq!(parts("/schl\u{00e4}ngel/z\u{00fc}g"), Some(("schl\u{00e4}ngel".to_string(), "z\u{00fc}g".to_string())));
    assert_eq!(parts(""), None);
    assert_eq!(parts("/"), None);
    assert_eq!(parts("////"), None);
}

#[test]
fn paths_are_split_as_the_standard_library_splits_them() {
    let alphabet = ['/', 'a', 'b'];
    let mut paths: Vec<String> = vec![String::new()];
    let mut from = 0;
    for _ in 0..6 {
        let until = paths.len();
        for i in from..until {
            for c in alphabet {
                let mut longer = paths[i].clone();
                longer.push(c);
                paths.push(longer);
            }
        }
        from = until;
    }
    assert_eq!(paths.len(), 1093);
    for path in paths {
        let trimmed = path.trim_matches('/');
        let expected = if trimmed.is_empty() {
            None
        } else {
            match trimmed.split_once('/') {
                Some((snake, command)) => Some((snake.to_string(), command.to_string())),
                None => Some((trimmed.to_string(), String::new())),
            }
        };
        assert_eq!(parts(&path), expected);
    }
}

#[test]
fn requests_are_told_apart_by_method_and_command() {
    assert_eq!(route(Method::Get, "/down"), Route::Info);
    assert_eq!(route(Method::Get, "/down/"), Route::Info);
    assert_eq!(route(Method::Get, "anything"), Route::Info);
    assert_eq!(route(Method::Post, "/down/start"), Route::Start { snake: "down".to_string() });
    assert_eq!(route(Method::Post, "/up/start/"), Route::Start { snake: "up".to_string() });
    assert_eq!(route(Method::Post, "/down/move"), Route::Move);
    assert_eq!(route(Method::Post, "/down/end"), Route::End);
}

#[test]
fn other_requests_are_unknown() {
    assert_eq!(route(Method::Get, ""), Route::NoSnake);
    assert_eq!(route(Method::Post, "/"), Route::NoSnake);
    assert_eq!(route(Method::Other, "//"), Route::NoSnake);
    assert_eq!(route(Method::Post, "/down"), Route::Unknown { command: "".to_string() });
    assert_eq!(route(Method::Other, "/down"), Route::Unknown { command: "".to_string() });
    assert_eq!(route(Method::Get, "/down/start"), Route::Unknown { command: "start".to_string() });
    assert_eq!(route(Method::Get, "/down/move"), Route::Unknown { command: "move".to_string() });
    assert_eq!(route(Method::Other, "/down/end"), Route::Unknown { command: "end".to_string() });
    assert_eq!(route(Method::Post, "/down/Start"), Route::Unknown { command: "Start".to_string() });
    assert_eq!(route(Method::Post, "/down/starts"), Route::Unknown { command: "starts".to_string() });
    assert_eq!(route(Method::Post, "/down/mov"), Route::Unknown { command: "mov".to_string() });
    assert_eq!(route(Method::Post, "/down/move/x"), Route::Unknown { command: "move/x".to_string() });
    assert_eq!(route(Method::Post, "/down//move"), Route::Unknown { command: "/move".to_string() });
}

#[test]
fn answers_to_unknown_requests_say_what_was_wrong() {
    assert_eq!(
        text_of(no_snake_reply()),
        (400, "The path must look something like ${snake_name}[/${command}]".to_string())
    );
    assert_eq!(
        text_of(unknown_command_reply("dance")),
        (404, "The command 'dance' is not recognised. expected start|move|end".to_string())
    );
    assert_eq!(
        text_of(unknown_command_reply("")),
        (404, "The command '' is not recognised. expected start|move|end".to_string())
    );
    assert_eq!(
        text_of(unknown_snake_reply("up")),
        (404, "A snake called 'up' does not exist".to_string())
    );
    assert_eq!((BAD_REQUEST, NOT_FOUND, INTERNAL_ERROR), (400, 404, 500));
}

#[test]
fn the_server_describes_its_snake() {
    let info = server_info();
    assert_eq!(info.apiversion, "1");
    assert_eq!(info.author.as_deref(), Some("jsdw"));
    assert_eq!(info.color.as_deref(), Some("#ff69b4"));
    assert_eq!(info.head, None);
    assert_eq!(info.tail, None);
    assert_eq!(info.version.as_deref(), Some("0.0.1"));
}

#[test]
fn errors_turn_into_answers() {
    assert_eq!(
        text_of(Error::Us("the disk is full".to_string()).into_response()),
        (500, "Whoops; something went wrong on my end!".to_string())
    );
    assert_eq!(
        text_of(Error::Them(400, "This snake is busy moving".to_string()).into_response()),
        (400, "This snake is busy moving".to_string())
    );
    assert_eq!(
        text_of(Error::bad_request("expected value at line 1 column 1".to_string()).into_response()),
        (400, "expected value at line 1 column 1".to_string())
    );
}

#[test]
fn only_our_own_faults_are_logged() {
    assert_eq!(
        log_internal_errors(&Error::Us("the worker died".to_string())),
        Some("Internal error: the worker died".to_string())
    );
    assert_eq!(log_internal_errors(&Error::Us(String::new())), Some("Internal error: ".to_string()));
    assert_eq!(log_internal_errors(&Error::Them(400, "This snake doesn't exist".to_string())), None);
}

#[test]
fn a_game_is_played_from_start_to_end() {
    let mut registry: Registry<Box<dyn Snake>> = Registry::new();
    let expiry = match start_game(&mut registry, "down", build_snake_by_name("down"), &turn("g1", 500, "12")) {
        Ok(expiry) => expiry,
        Err(reply) => panic!("refused: {:?}", reply),
    };
    assert_eq!(expiry.id, "g1");
    assert_eq!(expiry.after_secs, 180);
    for _ in 0..3 {
        let this = turn("g1", 500, "100");
        let (mut snake, deadline) = match begin_move(&mut registry, &this) {
            Ok(begun) => begun,
            Err(e) => panic!("refused: {:?}", e),
        };
        assert_eq!(deadline.budget_ms(), 350);
        assert_eq!(registry.status("g1"), Status::InFlight);
        let best = run(snake.iter_moves(this), &deadline);
        match finish_move(&mut registry, "g1", snake, best) {
            Reply::Move(m) => assert_eq!(
                m,
                Move { movement: Movement::Down, shout: Some("Aaaahhhhh!".to_string()) }
            ),
            other => panic!("not a move: {:?}", other),
        }
        assert_eq!(registry.status("g1"), Status::Idle);
    }
    assert!(matches!(end_game(&mut registry, &turn("g1", 500, "100")), Reply::Empty));
    assert_eq!(registry.status("g1"), Status::Absent);
    assert!(matches!(end_game(&mut registry, &turn("g1", 500, "100")), Reply::Empty));
    registry.expire(&expiry);
    assert_eq!(registry.status("g1"), Status::Absent);
}

#[test]
fn a_game_for_an_unknown_snake_does_not_start() {
    let mut registry: Registry<Box<dyn Snake>> = Registry::new();
    match start_game(&mut registry, "up", build_snake_by_name("up"), &turn("g1", 500, "100")) {
        Ok(expiry) => panic!("started: {:?}", expiry),
        Err(reply) => assert_eq!(text_of(reply), (404, "A snake called 'up' does not exist".to_string())),
    }
    assert_eq!(registry.status("g1"), Status::Absent);
}

#[test]
fn a_move_for_a_busy_or_missing_game_is_refused() {
    let mut registry: Registry<u8> = Registry::new();
    match begin_move(&mut registry, &turn("g1", 500, "100")) {
        Err(Error::Them(status, message)) => {
            assert_eq!((status, message.as_str()), (400, "This snake doesn't exist"))
        },
        other => panic!("not refused: {:?}", other.map(|b| b.0)),
    }
    assert!(start_game(&mut registry, "any", Some(9), &turn("g1", 500, "100")).is_ok());
    let (state, deadline) = begin_move(&mut registry, &turn("g1", 500, "garbage")).unwrap();
    assert_eq!(state, 9);
    assert_eq!(deadline.budget_ms(), 300);
    match begin_move(&mut registry, &turn("g1", 500, "100")) {
        Err(Error::Them(status, message)) => {
            assert_eq!((status, message.as_str()), (400, "This snake is busy moving"))
        },
        other => panic!("not refused: {:?}", other.map(|b| b.0)),
    }
    assert_eq!(registry.status("g1"), Status::InFlight);
    assert!(matches!(finish_move(&mut registry, "g1", 10, Move::default()), Reply::Move(_)));
    let (state, deadline) = begin_move(&mut registry, &turn("g1", 100, "500")).unwrap();
    assert_eq!(state, 10);
    assert_eq!(deadline.budget_ms(), 100);
}

#[test]
fn a_move_that_outlives_its_game_is_dropped() {
    let mut registry: Registry<u8> = Registry::new();
    assert!(start_game(&mut registry, "any", Some(1), &turn("g1", 500, "100")).is_ok());
    let (state, _) = begin_move(&mut registry, &turn("g1", 500, "100")).unwrap();
    assert!(matches!(end_game(&mut registry, &turn("g1", 500, "100")), Reply::Empty));
    let best = Move { movement: Movement::Left, shout: None };
    match finish_move(&mut registry, "g1", state, best) {
        Reply::Move(m) => assert_eq!(m, Move { movement: Movement::Left, shout: None }),
        other => panic!("not a move: {:?}", other),
    }
    assert_eq!(registry.status("g1"), Status::Absent);
    assert!(matches!(begin_move(&mut registry, &turn("g1", 500, "100")), Err(Error::Them(400, _))));
}

#[test]
fn a_move_whose_worker_died_ends_the_game_with_the_fallback() {
    let mut registry: Registry<u8> = Registry::new();
    assert!(start_game(&mut registry, "any", Some(1), &turn("g1", 500, "100")).is_ok());
    assert!(start_game(&mut registry, "any", Some(2), &turn("g2", 500, "100")).is_ok());
    let (_lost, _) = begin_move(&mut registry, &turn("g1", 500, "100")).unwrap();
    match abandon_move(&mut registry, "g1") {
        Reply::Move(m) => assert_eq!(m, Move { movement: Movement::Up, shout: None }),
        other => panic!("not a move: {:?}", other),
    }
    assert_eq!(registry.status("g1"), Status::Absent);
    assert_eq!(registry.status("g2"), Status::Idle);
}

#[test]
fn texts_are_compared_and_joined_by_their_characters() {
    assert!(same_text("", ""));
    assert!(same_text("down", "down"));
    assert!(same_text("z\u{00fc}g", "z\u{00fc}g"));
    assert!(!same_text("down", "dowm"));
    assert!(!same_text("down", "dow"));
    assert!(!same_text("dow", "down"));
    assert!(!same_text("", "x"));
    assert!(!same_text("Down", "down"));
    assert_eq!(chars_of("a/\u{00e4}"), vec!['a', '/', '\u{00e4}']);
    assert_eq!(chars_of(""), Vec::<char>::new());
    assert_eq!(around("<", "x", ">"), "<x>");
    assert_eq!(around("", "", ""), "");
}
