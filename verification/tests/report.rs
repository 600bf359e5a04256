use rustydo::error::{Invalid, TodoError};
use rustydo::models::Todo;
use rustydo::report::{
    clear_message, error_message, flush_message, print_todos, removal_message, update_message,
};

fn sample() -> Vec<Todo> {
    vec![
        Todo {
            id: 3,
            priority: "High".to_string(),
            topic: "Home".to_string(),
            text: "Paint the fence".to_string(),
            desc: "White".to_string(),
            date_added: "03-04-25".to_string(),
            status: "Ongoing".to_string(),
            owner: "Sam".to_string(),
            due: "friday".to_string(),
        },
        Todo {
            id: 12,
            priority: "Normal".to_string(),
            topic: "General".to_string(),
            text: "Buy milk".to_string(),
            desc: "No description provided".to_string(),
            date_added: "05-04-25".to_string(),
            status: "Pending".to_string(),
            owner: "You".to_string(),
            due: "-".to_string(),
        },
    ]
}

#[test]
fn listing_of_no_records() {
    assert_eq!(print_todos(&Vec::new()), vec!["".to_string(), "Total todos: 0".to_string()]);
}

#[test]
fn listing_shows_each_record_in_a_block() {
    let lines = print_todos(&sample());
    let expected = vec![
        "",
        "Total todos: 2",
        "---------------",
        "Todo #1",
        "ID: 3",
        "Priority: High",
        "Topic: Home",
        "Text: Paint the fence",
        "Description: White",
        "Date Added: 03-04-25",
        "Due: friday",
        "Status: Ongoing",
        "Owner: Sam",
        "---------------",
        "---------------",
        "Todo #2",
        "ID: 12",
        "Priority: Normal",
        "Topic: General",
        "Text: Buy milk",
        "Description: No description provided",
        "Date Added: 05-04-25",
        "Due: -",
        "Status: Pending",
        "Owner: You",
        "---------------",
    ];
    assert_eq!(lines, expected);
}

#[test]
fn removal_is_reported() {
    assert_eq!(removal_message(Ok(true), 4), "✅ Todo deleted successfully!");
    assert_eq!(removal_message(Ok(false), 4), "❌ No todo found with id: 4");
    assert_eq!(removal_message(Ok(false), -17), "❌ No todo found with id: -17");
    assert_eq!(
        removal_message(Err(TodoError::StorageUnavailable), 4),
        "Error deleting todo: the todo store cannot be opened or written"
    );
}

#[test]
fn update_is_reported_only_where_it_did_not_happen() {
    assert_eq!(update_message(Ok(true), 4), None);
    assert_eq!(
        update_message(Ok(false), 120),
        Some("❌ No todo found with id: 120".to_string())
    );
    assert_eq!(
        update_message(Err(TodoError::StorageUnavailable), 4),
        Some("Error updating todo: the todo store cannot be opened or written".to_string())
    );
}

#[test]
fn clearing_is_reported() {
    assert_eq!(clear_message(3), "✅ All todos cleared successfully!");
    assert_eq!(clear_message(1), "✅ All todos cleared successfully!");
    assert_eq!(clear_message(0), "❌ No todos found.");
    assert_eq!(flush_message(2), vec!["", "✅ All todos cleared successfully!", ""]);
    assert_eq!(flush_message(0), vec!["", "❌ No todos found, nothing to clear", ""]);
}

#[test]
fn each_error_has_its_words() {
    assert_eq!(
        error_message(TodoError::StorageUnavailable),
        "the todo store cannot be opened or written"
    );
    assert_eq!(
        error_message(TodoError::ValidationError(Invalid::UnknownPriority)),
        "Priority must be 'normal', 'medium', 'high', or 'low'."
    );
    assert_eq!(
        error_message(TodoError::ValidationError(Invalid::EmptyTitle)),
        "A todo needs a title."
    );
    assert_eq!(error_message(TodoError::ValidationError(Invalid::NoSelection)), "No todo selected");
    assert_eq!(
        error_message(TodoError::CredentialMissing),
        "No API key found. Please set one using the -k flag first."
    );
    assert_eq!(error_message(TodoError::UpstreamError), "the request to Gemini failed");
}

#[test]
fn refused_record_is_reported_with_its_cause() {
    assert_eq!(
        removal_message(Err(TodoError::ValidationError(Invalid::NoSelection)), 1),
        "Error deleting todo: No todo selected"
    );
    assert_eq!(
        update_message(Err(TodoError::ValidationError(Invalid::NoSelection)), 1),
        Some("Error updating todo: No todo selected".to_string())
    );
}
