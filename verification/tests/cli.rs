use rustydo::cli::{Cli, Command};

fn none() -> Cli {
    Cli {
        list: false,
        export: false,
        add: None,
        desc: None,
        topic: None,
        priority: None,
        print: false,
        delete: None,
        update_id: None,
        status: None,
        done: None,
        clear: false,
        show: false,
        owner: None,
        due: None,
        apikey: None,
        prompt: None,
        release: false,
        flush: false,
    }
}

fn words(ws: &[&str]) -> Option<Vec<String>> {
    Some(ws.iter().map(|w| w.to_string()).collect())
}

#[test]
fn no_argument_opens_the_browser() {
    assert!(matches!(none().command(true), Command::Browse));
    assert!(matches!(Cli { list: true, ..none() }.command(false), Command::Browse));
    let all = Cli { list: true, prompt: Some("x".to_string()), clear: true, ..none() };
    assert!(matches!(all.command(false), Command::Browse));
}

#[test]
fn nothing_asked_shows_the_usage() {
    assert!(matches!(none().command(false), Command::Help));
    assert!(matches!(Cli { show: true, ..none() }.command(false), Command::Help));
    assert!(matches!(Cli { release: true, ..none() }.command(false), Command::Help));
    let lone = Cli { update_id: Some(3), ..none() };
    assert!(matches!(lone.command(false), Command::Help));
    let lone = Cli { status: Some("Done".to_string()), topic: Some("x".to_string()), ..none() };
    assert!(matches!(lone.command(false), Command::Help));
}

#[test]
fn add_joins_the_words() {
    let cli = Cli {
        add: words(&["buy", "milk"]),
        desc: words(&["two", "litres"]),
        topic: Some("home".to_string()),
        priority: Some("high".to_string()),
        owner: Some("sam".to_string()),
        due: Some("friday".to_string()),
        ..none()
    };
    match cli.command(false) {
        Command::Add { text, topic, priority, owner, due, desc } => {
            assert_eq!(text, "buy milk");
            assert_eq!(desc, Some("two litres".to_string()));
            assert_eq!(topic, Some("home".to_string()));
            assert_eq!(priority, Some("high".to_string()));
            assert_eq!(owner, Some("sam".to_string()));
            assert_eq!(due, Some("friday".to_string()));
        }
        _ => panic!("not an add"),
    }
    match (Cli { add: words(&["one"]), ..none() }).command(false) {
        Command::Add { text, topic, priority, owner, due, desc } => {
            assert_eq!(text, "one");
            assert_eq!((topic, priority, owner, due, desc), (None, None, None, None, None));
        }
        _ => panic!("not an add"),
    }
}

#[test]
fn each_flag_has_its_command() {
    let cli = Cli { prompt: Some("what next?".to_string()), ..none() };
    assert!(matches!(cli.command(false), Command::Ask { prompt } if prompt == "what next?"));
    let cli = Cli { apikey: Some("k".to_string()), ..none() };
    assert!(matches!(cli.command(false), Command::SetKey { key } if key == "k"));
    let cli = Cli { delete: Some(-4), ..none() };
    assert!(matches!(cli.command(false), Command::Delete { id: -4 }));
    let cli = Cli { update_id: Some(3), status: Some("Ongoing".to_string()), ..none() };
    assert!(matches!(cli.command(false), Command::Update { id: 3, status } if status == "Ongoing"));
    let cli = Cli { done: Some(8), ..none() };
    assert!(matches!(cli.command(false), Command::Update { id: 8, status } if status == "Done"));
    assert!(matches!(Cli { clear: true, ..none() }.command(false), Command::Clear));
    assert!(matches!(Cli { print: true, ..none() }.command(false), Command::Print));
    assert!(matches!(Cli { export: true, ..none() }.command(false), Command::Export));
    assert!(matches!(Cli { flush: true, ..none() }.command(false), Command::Flush));
}

#[test]
fn earlier_commands_win() {
    let all = || Cli {
        list: false,
        export: true,
        add: words(&["a"]),
        desc: None,
        topic: None,
        priority: None,
        print: true,
        delete: Some(1),
        update_id: Some(2),
        status: Some("Done".to_string()),
        done: Some(3),
        clear: true,
        show: true,
        owner: None,
        due: None,
        apikey: Some("k".to_string()),
        prompt: Some("p".to_string()),
        release: true,
        flush: true,
    };
    assert!(matches!(all().command(false), Command::Ask { .. }));
    assert!(matches!(Cli { prompt: None, ..all() }.command(false), Command::SetKey { .. }));
    let c = Cli { prompt: None, apikey: None, ..all() };
    assert!(matches!(c.command(false), Command::Add { .. }));
    let c = Cli { prompt: None, apikey: None, add: None, ..all() };
    assert!(matches!(c.command(false), Command::Delete { id: 1 }));
    let c = Cli { prompt: None, apikey: None, add: None, delete: None, ..all() };
    assert!(matches!(c.command(false), Command::Update { id: 2, .. }));
    let c = Cli { prompt: None, apikey: None, add: None, delete: None, status: None, ..all() };
    assert!(matches!(c.command(false), Command::Update { id: 3, .. }));
    let c = Cli {
        prompt: None,
        apikey: None,
        add: None,
        delete: None,
        status: None,
        done: None,
        ..all()
    };
    assert!(matches!(c.command(false), Command::Clear));
    let c = Cli {
        prompt: None,
        apikey: None,
        add: None,
        delete: None,
        status: None,
        done: None,
        clear: false,
        ..all()
    };
    assert!(matches!(c.command(false), Command::Print));
    let c = Cli {
        prompt: None,
        apikey: None,
        add: None,
        delete: None,
        status: None,
        done: None,
        clear: false,
        print: false,
        ..all()
    };
    assert!(matches!(c.command(false), Command::Export));
    let c = Cli {
        prompt: None,
        apikey: None,
        add: None,
        delete: None,
        status: None,
        done: None,
        clear: false,
        print: false,
        export: false,
        ..all()
    };
    assert!(matches!(c.command(false), Command::Flush));
}
