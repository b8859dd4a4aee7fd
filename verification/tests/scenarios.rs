use masuk::{resolve, route, Action, Command, Config, Failure, Found, Masuk, Route};

const EMPTY_HINT: &str = "No profiles configured yet. Use 'masuk add <profile> -h <host>' to add one.";

fn words(list: &[&str]) -> Vec<String> {
    list.iter().map(|w| w.to_string()).collect()
}

#[test]
fn fresh_environment_add_then_list() {
    let loaded = Masuk::load(Found::Missing, 100).unwrap();
    let mut file = loaded.write.unwrap();
    let mut masuk = loaded.masuk;

    assert_eq!(route(&words(&["masuk", "add", "web", "-h", "10.0.0.5", "-u", "admin", "-p", "2200"])), Route::Structured);
    let action = resolve(Command::Add {
        profile: "web".to_string(),
        host: "10.0.0.5".to_string(),
        user: Some("admin".to_string()),
        port: Some(2200),
    })
    .unwrap();
    match action {
        Action::Add { profile, host, user, port } => {
            file = masuk.add(profile.as_str(), host.as_str(), user, port, 101).unwrap().content;
        }
        other => panic!("{:?}", other),
    }

    let stored = Config::parse(file.as_str()).unwrap();
    assert_eq!(stored.profiles.len(), 1);
    let web = stored.profiles.get("web").unwrap();
    assert_eq!(web.host(), "10.0.0.5");
    assert_eq!(web.user(), Some("admin"));
    assert_eq!(web.port(), Some(2200));

    let next = Masuk::load(Found::Content(file), 102).unwrap();
    assert_eq!(route(&words(&["masuk", "list"])), Route::Structured);
    assert_eq!(resolve(Command::List), Ok(Action::List));
    let lines = next.masuk.list();
    assert!(lines.contains(&"  web \u{2192} admin@10.0.0.5:2200".to_string()));
    assert_eq!(lines.len(), 3);
}

#[test]
fn remove_then_list_shows_the_hint() {
    let mut masuk = Masuk { config: Config::new(0) };
    masuk.add("web", "10.0.0.5", Some("admin".to_string()), Some(2200), 1).unwrap();
    assert_eq!(
        resolve(Command::Remove { profile: "web".to_string() }),
        Ok(Action::Remove { profile: "web".to_string() })
    );
    let saved = masuk.remove("web", 2).unwrap();
    assert_eq!(saved.message, "\u{2713} Removed profile 'web'");
    let next = Masuk::load(Found::Content(saved.content), 3).unwrap();
    assert_eq!(next.masuk.list(), vec![EMPTY_HINT.to_string()]);
}

#[test]
fn connect_without_profiles_is_not_found() {
    let loaded = Masuk::load(Found::Missing, 1).unwrap();
    let name = match route(&words(&["masuk", "anything"])) {
        Route::Connect(name) => name,
        Route::Structured => panic!("a plain word connects"),
    };
    let failure = loaded.masuk.connect(name.as_str()).unwrap_err();
    assert_eq!(failure, Failure::ProfileNotFound("anything".to_string()));
    assert!(failure.message().contains("not found"));
    assert!(failure.message().contains("masuk ls"));
    assert!(failure.exit_code() != 0);
}

#[test]
fn list_never_connects_even_with_a_profile_of_that_name() {
    let mut masuk = Masuk { config: Config::new(0) };
    masuk.add("list", "10.0.0.5", None, None, 1).unwrap();
    assert_eq!(route(&words(&["masuk", "list"])), Route::Structured);
    assert_eq!(resolve(Command::List), Ok(Action::List));
    assert_eq!(masuk.list(), vec!["\nConfigured profiles:\n".to_string(), "  list \u{2192} 10.0.0.5".to_string(), "".to_string()]);
}

#[test]
fn an_unknown_word_is_not_found_rather_than_invalid() {
    let masuk = Masuk { config: Config::new(0) };
    assert_eq!(route(&words(&["masuk", "mybox"])), Route::Connect("mybox".to_string()));
    assert_eq!(masuk.connect("mybox").unwrap_err(), Failure::ProfileNotFound("mybox".to_string()));
}
