use crm::components::{
    BusinessComponent, Console, ConsoleMessage, Home, RepositoryConsole,
};

fn s(x: &str) -> String {
    String::from(x)
}

#[test]
fn console_keeps_both_kinds_of_messages() {
    let mut repository = RepositoryConsole::new();
    repository.write(s("connected"));
    let mut console = Console::new(repository);
    console.write(s("hello"));
    console.update(ConsoleMessage::LogMessage(s("world")));
    assert_eq!(console.get_messages(), vec![s("hello"), s("world")]);
    assert_eq!(console.get_database_messages(), vec![s("connected")]);
    console.clear_messages();
    assert!(console.get_messages().is_empty());
    assert_eq!(console.get_database_messages(), vec![s("connected")]);
    console.write(s("again"));
    console.clear_database_messages();
    assert!(console.get_database_messages().is_empty());
    assert_eq!(console.get_messages(), vec![s("again")]);
}

#[test]
fn repository_console_clears() {
    let mut repository = RepositoryConsole::new();
    repository.write(s("a"));
    repository.write(s("b"));
    assert_eq!(repository.messages, vec![s("a"), s("b")]);
    repository.clear_messages();
    assert!(repository.messages.is_empty());
}

#[test]
fn home_initialises_and_reports() {
    let mut console = Console::new(RepositoryConsole::new());
    let mut home = Home::new();
    assert_eq!(home.title, None);
    assert_eq!(home.content().title, "Home Component");
    home.initialize_component(&mut console);
    assert_eq!(home.title, Some(s("Home Component")));
    assert_eq!(console.get_messages(), vec![s("Home Component Initialized")]);
}
