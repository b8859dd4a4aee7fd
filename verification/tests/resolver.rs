use masuk::resolver::is_reserved;
use masuk::{resolve, route, Action, Command, Failure, Route};

fn words(list: &[&str]) -> Vec<String> {
    list.iter().map(|w| w.to_string()).collect()
}

#[test]
fn reserved_names() {
    for name in ["add", "list", "ls", "remove", "rm", "help", "--help", "-h"] {
        assert!(is_reserved(name));
    }
    for name in ["", "web", "List", "lists", "l", "-H", "--h", "rmm", "connect"] {
        assert!(!is_reserved(name));
    }
}

#[test]
fn a_single_plain_word_connects() {
    assert_eq!(route(&words(&["masuk", "mybox"])), Route::Connect("mybox".to_string()));
    assert_eq!(route(&words(&["masuk", "web"])), Route::Connect("web".to_string()));
}

#[test]
fn a_single_reserved_word_is_a_command() {
    for name in ["add", "list", "ls", "remove", "rm", "help", "--help", "-h"] {
        assert_eq!(route(&words(&["masuk", name])), Route::Structured);
    }
}

#[test]
fn other_shapes_are_commands() {
    assert_eq!(route(&words(&[])), Route::Structured);
    assert_eq!(route(&words(&["masuk"])), Route::Structured);
    assert_eq!(route(&words(&["masuk", "web", "extra"])), Route::Structured);
    assert_eq!(route(&words(&["masuk", "add", "web", "-h", "10.0.0.5"])), Route::Structured);
}

#[test]
fn commands_resolve_to_their_actions() {
    assert_eq!(
        resolve(Command::Add {
            profile: "web".to_string(),
            host: "10.0.0.5".to_string(),
            user: Some("admin".to_string()),
            port: Some(2200),
        }),
        Ok(Action::Add {
            profile: "web".to_string(),
            host: "10.0.0.5".to_string(),
            user: Some("admin".to_string()),
            port: Some(2200),
        })
    );
    assert_eq!(resolve(Command::List), Ok(Action::List));
    assert_eq!(
        resolve(Command::Remove { profile: "web".to_string() }),
        Ok(Action::Remove { profile: "web".to_string() })
    );
}

#[test]
fn unknown_words_connect_to_the_first() {
    assert_eq!(
        resolve(Command::External(words(&["somehost", "extra-args"]))),
        Ok(Action::Connect { profile: "somehost".to_string() })
    );
}

#[test]
fn no_word_at_all_names_no_profile() {
    assert_eq!(resolve(Command::External(Vec::new())), Err(Failure::NoProfileSpecified));
}
