use rustydo::ai::{
    ask_gemini, build_prompt, checklist_entry, prepare_request, read_reply, todos_text,
    GeminiReply,
};
use rustydo::database::DBtodo;
use rustydo::error::TodoError;
use rustydo::models::Todo;

fn todo(text: &str, priority: &str, status: &str, due: &str) -> Todo {
    Todo {
        id: 0,
        priority: priority.to_string(),
        topic: "General".to_string(),
        text: text.to_string(),
        desc: "No description provided".to_string(),
        date_added: "01-02-25".to_string(),
        status: status.to_string(),
        owner: "You".to_string(),
        due: due.to_string(),
    }
}

const HEAD: &str = "ROLE: You are an AI assistant for a todo application.
RULES:
- Respond in clear markdown formatting
- Be concise and actionable
- Reference existing todos when relevant
- Today is ";

const ENDPOINT: &str =
    "https://generativelanguage.googleapis.com/v1beta/models/gemini-2.0-flash:generateContent?key=";

#[test]
fn checklist_marks_what_is_done() {
    assert_eq!(
        checklist_entry(&todo("Buy milk", "Normal", "Done", "-")),
        "- [x] Buy milk (Priority: Normal, Due: -)"
    );
    assert_eq!(
        checklist_entry(&todo("Paint", "High", "Pending", "friday")),
        "- [ ] Paint (Priority: High, Due: friday)"
    );
    assert_eq!(
        checklist_entry(&todo("Paint", "High", "done", "friday")),
        "- [ ] Paint (Priority: High, Due: friday)"
    );
}

#[test]
fn checklist_has_a_line_for_each_record() {
    assert_eq!(todos_text(&Vec::new()), "");
    assert_eq!(
        todos_text(&vec![todo("a", "Low", "Done", "-")]),
        "- [x] a (Priority: Low, Due: -)"
    );
    assert_eq!(
        todos_text(&vec![
            todo("a", "Low", "Done", "-"),
            todo("b", "High", "Ongoing", "may"),
            todo("c", "Normal", "Pending", "-"),
        ]),
        "- [x] a (Priority: Low, Due: -)\n- [ ] b (Priority: High, Due: may)\n- [ ] c (Priority: Normal, Due: -)"
    );
}

#[test]
fn prompt_holds_rules_time_list_and_request() {
    let text = build_prompt("- [ ] a (Priority: Low, Due: -)", "what next?", "Monday, May 05", "09:30");
    let expected = format!(
        "{}Monday, May 05\n- Current time: 09:30\n\nCURRENT TODOS:\n- [ ] a (Priority: Low, Due: -)\n\nUSER REQUEST: what next?",
        HEAD
    );
    assert_eq!(text, expected);
}

#[test]
fn request_needs_a_credential() {
    let mut db = DBtodo::new();
    db.add_todo(&todo("a", "Low", "Done", "-")).unwrap();
    let r = prepare_request(&db, "what next?", "Monday, May 05", "09:30");
    assert_eq!(r.err(), Some(TodoError::CredentialMissing));
    db.set_api_credentials(Some(String::new())).unwrap();
    let r = prepare_request(&db, "what next?", "Monday, May 05", "09:30");
    assert_eq!(r.err(), Some(TodoError::CredentialMissing));
    assert_eq!(ask_gemini(&db, "what next?").err(), Some(TodoError::CredentialMissing));
}

#[test]
fn request_carries_the_credential_and_the_records() {
    let mut db = DBtodo::new();
    db.add_todo(&todo("a", "Low", "Done", "-")).unwrap();
    db.add_todo(&todo("b", "High", "Pending", "may")).unwrap();
    db.set_api_credentials(Some("s3cr3t".to_string())).unwrap();
    let request = prepare_request(&db, "what next?", "Monday, May 05", "09:30").unwrap();
    assert_eq!(request.url, format!("{}s3cr3t", ENDPOINT));
    let expected = format!(
        "{}Monday, May 05\n- Current time: 09:30\n\nCURRENT TODOS:\n- [x] a (Priority: Low, Due: -)\n- [ ] b (Priority: High, Due: may)\n\nUSER REQUEST: what next?",
        HEAD
    );
    assert_eq!(request.text, expected);
}

#[test]
fn request_of_now_names_day_and_time() {
    let mut db = DBtodo::new();
    db.set_api_credentials(Some("k".to_string())).unwrap();
    let request = ask_gemini(&db, "plan my day").unwrap();
    assert_eq!(request.url, format!("{}k", ENDPOINT));
    assert!(request.text.starts_with(HEAD));
    assert!(request.text.ends_with("\n\nCURRENT TODOS:\n\n\nUSER REQUEST: plan my day"));
    let middle = &request.text[HEAD.len()..];
    let (day, rest) = middle.split_once("\n- Current time: ").unwrap();
    assert!(day.contains(", "));
    let time: Vec<char> = rest.chars().take(5).collect();
    assert_eq!(time[2], ':');
}

fn answered(status: u16, candidates: &[&[&str]]) -> GeminiReply {
    GeminiReply::Answered {
        status,
        candidates: Some(
            candidates.iter().map(|c| c.iter().map(|p| p.to_string()).collect()).collect(),
        ),
    }
}

#[test]
fn reply_gives_the_first_text() {
    let reply = answered(200, &[&["first", "second"], &["other"]]);
    assert_eq!(read_reply(&reply), Ok("first".to_string()));
    assert_eq!(read_reply(&answered(200, &[&[""]])), Ok(String::new()));
    assert_eq!(read_reply(&answered(299, &[&["late"]])), Ok("late".to_string()));
}

#[test]
fn reply_without_text_gives_the_fallback() {
    assert_eq!(read_reply(&answered(200, &[])), Ok("❌ No response from Gemini.".to_string()));
    assert_eq!(
        read_reply(&answered(200, &[&[], &["late"]])),
        Ok("❌ No response from Gemini.".to_string())
    );
}

#[test]
fn failed_reply_is_an_upstream_error() {
    assert_eq!(read_reply(&GeminiReply::Unreachable), Err(TodoError::UpstreamError));
    for status in [0, 100, 199, 300, 301, 400, 403, 404, 429, 500, 503, u16::MAX] {
        assert_eq!(read_reply(&answered(status, &[&["text"]])), Err(TodoError::UpstreamError));
    }
    let unread = GeminiReply::Answered { status: 200, candidates: None };
    assert_eq!(read_reply(&unread), Err(TodoError::UpstreamError));
    let unread = GeminiReply::Answered { status: 500, candidates: None };
    assert_eq!(read_reply(&unread), Err(TodoError::UpstreamError));
}
