use rustydo::clock::{day_now, time_now, today};
use rustydo::commands::{add_todo, add_todo_dated, compose_todo, is_valid_priority};
use rustydo::database::DBtodo;
use rustydo::error::{Invalid, TodoError};

fn some(s: &str) -> Option<String> {
    Some(s.to_string())
}

#[test]
fn compose_fills_in_the_defaults() {
    let t = compose_todo(
        &"buy milk".to_string(),
        &None,
        &None,
        &None,
        &None,
        &None,
        "05-06-25".to_string(),
    )
    .unwrap();
    assert_eq!(t.id, 0);
    assert_eq!(t.priority, "Normal");
    assert_eq!(t.topic, "General");
    assert_eq!(t.text, "Buy milk");
    assert_eq!(t.desc, "No description provided");
    assert_eq!(t.date_added, "05-06-25");
    assert_eq!(t.status, "Pending");
    assert_eq!(t.owner, "You");
    assert_eq!(t.due, "-");
}

#[test]
fn compose_capitalises_what_was_given() {
    let t = compose_todo(
        &"paint the fence".to_string(),
        &some("home"),
        &some("high"),
        &some("sam"),
        &some("friday"),
        &some("white, two coats"),
        "05-06-25".to_string(),
    )
    .unwrap();
    assert_eq!(t.priority, "High");
    assert_eq!(t.topic, "Home");
    assert_eq!(t.text, "Paint the fence");
    assert_eq!(t.desc, "White, two coats");
    assert_eq!(t.owner, "Sam");
    assert_eq!(t.due, "friday");
}

#[test]
fn compose_takes_each_of_the_four_priorities() {
    for (given, stored) in
        [("normal", "Normal"), ("high", "High"), ("low", "Low"), ("medium", "Medium")]
    {
        let t = compose_todo(
            &"a".to_string(),
            &None,
            &some(given),
            &None,
            &None,
            &None,
            String::new(),
        )
        .unwrap();
        assert_eq!(t.priority, stored);
    }
}

#[test]
fn compose_refuses_an_unknown_priority() {
    for given in ["urgent", "High", "", "norma", "normal "] {
        let r = compose_todo(
            &"a".to_string(),
            &None,
            &some(given),
            &None,
            &None,
            &None,
            String::new(),
        );
        assert_eq!(r.err(), Some(TodoError::ValidationError(Invalid::UnknownPriority)));
    }
}

#[test]
fn compose_refuses_an_empty_title() {
    let r = compose_todo(&String::new(), &None, &None, &None, &None, &None, String::new());
    assert_eq!(r.err(), Some(TodoError::ValidationError(Invalid::EmptyTitle)));
    let r = compose_todo(&String::new(), &None, &some("low"), &None, &None, &None, String::new());
    assert_eq!(r.err(), Some(TodoError::ValidationError(Invalid::EmptyTitle)));
    let r = compose_todo(&String::new(), &None, &some("soon"), &None, &None, &None, String::new());
    assert_eq!(r.err(), Some(TodoError::ValidationError(Invalid::UnknownPriority)));
}

#[test]
fn compose_keeps_empty_and_foreign_text() {
    let t = compose_todo(
        &"élan".to_string(),
        &some(""),
        &None,
        &some("ßtraße"),
        &some(""),
        &some("1st"),
        String::new(),
    )
    .unwrap();
    assert_eq!(t.text, "élan");
    assert_eq!(t.topic, "");
    assert_eq!(t.owner, "ßtraße");
    assert_eq!(t.due, "");
    assert_eq!(t.desc, "1st");
}

#[test]
fn priorities_are_told_apart() {
    assert!(is_valid_priority("normal"));
    assert!(is_valid_priority("high"));
    assert!(is_valid_priority("low"));
    assert!(is_valid_priority("medium"));
    assert!(!is_valid_priority("Medium"));
    assert!(!is_valid_priority("none"));
}

#[test]
fn invalid_add_writes_nothing() {
    let mut db = DBtodo::new();
    let r = add_todo(&mut db, "a".to_string(), None, some("urgent"), None, None, None);
    assert_eq!(r, Err(TodoError::ValidationError(Invalid::UnknownPriority)));
    assert_eq!(db.len(), 0);
    assert_eq!(db.next_id(), 1);
    let r = add_todo_dated(&mut db, String::new(), None, None, None, None, None, String::new());
    assert_eq!(r, Err(TodoError::ValidationError(Invalid::EmptyTitle)));
    assert_eq!(db.len(), 0);
    assert_eq!(db.next_id(), 1);
}

#[test]
fn add_on_a_full_store_is_unavailable() {
    let mut db = DBtodo::restore(Vec::new(), rustydo::database::ID_LIMIT, None).unwrap();
    let r = add_todo(&mut db, "a".to_string(), None, None, None, None, None);
    assert_eq!(r, Err(TodoError::StorageUnavailable));
    assert_eq!(db.len(), 0);
}

#[test]
fn add_stamps_the_record_with_a_date() {
    let mut db = DBtodo::new();
    assert_eq!(
        add_todo(&mut db, "water plants".to_string(), some("garden"), None, None, None, None),
        Ok(1)
    );
    let listed = db.get_todos();
    assert_eq!(listed[0].text, "Water plants");
    assert_eq!(listed[0].topic, "Garden");
    let date: Vec<char> = listed[0].date_added.chars().collect();
    assert_eq!(date.len(), 8);
    for (i, c) in date.iter().enumerate() {
        if i == 2 || i == 5 {
            assert_eq!(*c, '-');
        } else {
            assert!(c.is_ascii_digit());
        }
    }
}

#[test]
fn add_dated_stores_the_composed_record() {
    let mut db = DBtodo::new();
    db.add_todo(&compose_todo(
        &"first".to_string(),
        &None,
        &None,
        &None,
        &None,
        &None,
        "d".to_string(),
    )
    .unwrap())
    .unwrap();
    let r = add_todo_dated(
        &mut db,
        "second".to_string(),
        some("work"),
        some("low"),
        some("ann"),
        some("monday"),
        some("call back"),
        "07-08-25".to_string(),
    );
    assert_eq!(r, Ok(2));
    let t = &db.get_todos()[1];
    assert_eq!(
        (t.id, t.priority.as_str(), t.topic.as_str(), t.text.as_str(), t.desc.as_str()),
        (2, "Low", "Work", "Second", "Call back")
    );
    assert_eq!(
        (t.date_added.as_str(), t.status.as_str(), t.owner.as_str(), t.due.as_str()),
        ("07-08-25", "Pending", "Ann", "monday")
    );
}

#[test]
fn clock_writes_the_three_formats() {
    let d = today();
    assert_ne!(d, "%d-%m-%y");
    let d: Vec<char> = d.chars().collect();
    assert_eq!(d.len(), 8);
    for (i, c) in d.iter().enumerate() {
        assert!(if i == 2 || i == 5 { *c == '-' } else { c.is_ascii_digit() });
    }
    let t = time_now();
    assert_ne!(t, "%H:%M");
    let t: Vec<char> = t.chars().collect();
    assert_eq!(t.len(), 5);
    for (i, c) in t.iter().enumerate() {
        assert!(if i == 2 { *c == ':' } else { c.is_ascii_digit() });
    }
    let day = day_now();
    assert!(day.contains(", "));
    assert!(!day.contains('%'));
    let day: Vec<char> = day.chars().collect();
    assert!(day.len() >= 3);
    assert_eq!(day[day.len() - 3], ' ');
    assert!(day[day.len() - 2].is_ascii_digit());
    assert!(day[day.len() - 1].is_ascii_digit());
}
