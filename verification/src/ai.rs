//! The assistant: what is sent to the text-generation service, and what is
//! made of its reply. Sending is the caller's.

use vstd::prelude::*;
use crate::clock::{day_now, is_day_text, is_time_of_day, time_now};
use crate::database::DBtodo;
use crate::error::TodoError;
use crate::models::{Todo, TodoView, views};
use crate::text::joined_prefix;

verus! {

/// One request to the service.
#[derive(Debug)]
pub struct GeminiRequest {
    /// Where to post, the credential in the query.
    pub url: String,
    /// The one text part of the body.
    pub text: String,
}

/// What came back from the service.
#[derive(Debug)]
pub enum GeminiReply {
    /// Nothing: the service was not reached.
    Unreachable,
    /// An answer with its HTTP status and, where its body could be read, the
    /// candidates, each as the texts of its parts.
    Answered { status: u16, candidates: Option<Vec<Vec<String>>> },
}

/// The mark of a record in the checklist.
pub open spec fn check_mark(status: Seq<char>) -> Seq<char> {
    if status == "Done"@ {
        "x"@
    } else {
        " "@
    }
}

/// The line of one record in the checklist.
pub open spec fn checklist_line(r: TodoView) -> Seq<char> {
    "- ["@ + check_mark(r.status) + "] "@ + r.text + " (Priority: "@ + r.priority + ", Due: "@
        + r.due + ")"@
}

/// The lines of the records.
pub open spec fn checklist_lines(rows: Seq<TodoView>) -> Seq<Seq<char>> {
    rows.map_values(|r: TodoView| checklist_line(r))
}

/// The checklist: one line for each record, a line break between each two.
pub open spec fn checklist(rows: Seq<TodoView>) -> Seq<char> {
    joined_prefix(checklist_lines(rows), "\n"@, rows.len())
}

/// What stands before the day in the prompt.
pub open spec fn prompt_head() -> Seq<char> {
    "ROLE: You are an AI assistant for a todo application.\nRULES:\n- Respond in clear markdown formatting\n- Be concise and actionable\n- Reference existing todos when relevant\n- Today is "@
}

/// The prompt: the rules, the day and the time, the checklist, and what the
/// user asked.
pub open spec fn prompt_text(list: Seq<char>, request: Seq<char>, day: Seq<char>, time: Seq<char>) -> Seq<
    char,
> {
    prompt_head() + day + "\n- Current time: "@ + time + "\n\nCURRENT TODOS:\n"@ + list
        + "\n\nUSER REQUEST: "@ + request
}

/// What stands before the credential in the address.
pub open spec fn endpoint() -> Seq<char> {
    "https://generativelanguage.googleapis.com/v1beta/models/gemini-2.0-flash:generateContent?key="@
}

/// What is answered where the service offers no text.
pub open spec fn no_response() -> Seq<char> {
    "❌ No response from Gemini."@
}

/// Whether a credential is kept that can be used.
pub open spec fn usable_key(key: Option<Seq<char>>) -> bool {
    key is Some && key->0.len() > 0
}

/// The line of one record in the checklist.
pub fn checklist_entry(todo: &Todo) -> (line: String)
    ensures
        line@ == checklist_line(todo@),
{
    let mut out = String::from_str("- [");
    let done = String::from_str("Done");
    if todo.status == done {
        out.append("x");
    } else {
        out.append(" ");
    }
    out.append("] ");
    out.append(todo.text.as_str());
    out.append(" (Priority: ");
    out.append(todo.priority.as_str());
    out.append(", Due: ");
    out.append(todo.due.as_str());
    out.append(")");
    out
}

/// The checklist of `todos`.
pub fn todos_text(todos: &Vec<Todo>) -> (text: String)
    ensures
        text@ == checklist(views(todos@)),
{
    let ghost rows = views(todos@);
    let mut out = String::new();
    let mut k: usize = 0;
    while k < todos.len()
        invariant
            k <= todos.len(),
            rows == views(todos@),
            out@ == joined_prefix(checklist_lines(rows), "\n"@, k as nat),
        decreases todos.len() - k,
    {
        if k > 0 {
            out.append("\n");
        }
        let line = checklist_entry(&todos[k]);
        out.append(line.as_str());
        k += 1;
        assert(out@ =~= joined_prefix(checklist_lines(rows), "\n"@, k as nat));
    }
    out
}

/// The prompt for what the user asked, on the given day and time.
pub fn build_prompt(list: &str, request: &str, day: &str, time: &str) -> (text: String)
    ensures
        text@ == prompt_text(list@, request@, day@, time@),
{
    let mut out = String::from_str(
        "ROLE: You are an AI assistant for a todo application.\nRULES:\n- Respond in clear markdown formatting\n- Be concise and actionable\n- Reference existing todos when relevant\n- Today is ",
    );
    out.append(day);
    out.append("\n- Current time: ");
    out.append(time);
    out.append("\n\nCURRENT TODOS:\n");
    out.append(list);
    out.append("\n\nUSER REQUEST: ");
    out.append(request);
    out
}

/// The request that asks `prompt` of the service on the given day and time,
/// with the records of the store as context. Without a usable credential
/// there is no request.
pub fn prepare_request(db: &DBtodo, prompt: &str, day: &str, time: &str) -> (res: Result<
    GeminiRequest,
    TodoError,
>)
    ensures
        match res {
            Ok(request) => usable_key(db@.apikey) && request.url@ == endpoint() + db@.apikey->0
                && request.text@ == prompt_text(checklist(db@.rows), prompt@, day@, time@),
            Err(e) => !usable_key(db@.apikey) && e == TodoError::CredentialMissing,
        },
{
    let todos = db.get_todos();
    match db.get_api_credentials() {
        Ok(key) => {
            let mut url = String::from_str(
                "https://generativelanguage.googleapis.com/v1beta/models/gemini-2.0-flash:generateContent?key=",
            );
            url.append(key.as_str());
            let list = todos_text(&todos);
            let text = build_prompt(list.as_str(), prompt, day, time);
            Ok(GeminiRequest { url, text })
        },
        Err(_) => Err(TodoError::CredentialMissing),
    }
}

/// The request that asks `prompt` of the service now. Without a usable
/// credential there is no request.
pub fn ask_gemini(db: &DBtodo, prompt: &str) -> (res: Result<GeminiRequest, TodoError>)
    ensures
        match res {
            Ok(request) => usable_key(db@.apikey) && request.url@ == endpoint() + db@.apikey->0
                && exists|day: Seq<char>, time: Seq<char>|
                is_day_text(day) && is_time_of_day(time) && request.text@ == #[trigger] prompt_text(
                    checklist(db@.rows),
                    prompt@,
                    day,
                    time,
                ),
            Err(e) => !usable_key(db@.apikey) && e == TodoError::CredentialMissing,
        },
{
    let day = day_now();
    let time = time_now();
    let res = prepare_request(db, prompt, day.as_str(), time.as_str());
    proof {
        if res is Ok {
            assert(is_day_text(day@) && is_time_of_day(time@) && res->Ok_0.text@ == prompt_text(
                checklist(db@.rows),
                prompt@,
                day@,
                time@,
            ));
        }
    }
    res
}

/// Whether an HTTP status reports success.
pub open spec fn is_success(status: u16) -> bool {
    200 <= status <= 299
}

/// The answer that a reply holds: the first part of the first candidate.
pub open spec fn first_text(candidates: Seq<Vec<String>>) -> Option<Seq<char>> {
    if candidates.len() > 0 && candidates[0]@.len() > 0 {
        Some(candidates[0]@[0]@)
    } else {
        None
    }
}

/// What is made of a reply, as contracts see it.
pub open spec fn reply_text(reply: GeminiReply) -> Result<Seq<char>, TodoError> {
    match reply {
        GeminiReply::Answered { status, candidates: Some(candidates) } => if is_success(status) {
            match first_text(candidates@) {
                Some(text) => Ok(text),
                None => Ok(no_response()),
            }
        } else {
            Err(TodoError::UpstreamError)
        },
        _ => Err(TodoError::UpstreamError),
    }
}

/// What is made of the service's reply: an upstream error where the service
/// was not reached, reported no success, or sent a body that could not be
/// read; else the first part of the first candidate; else, where there is no
/// such text, the words that say so.
pub fn read_reply(reply: &GeminiReply) -> (res: Result<String, TodoError>)
    ensures
        match res {
            Ok(text) => reply_text(*reply) == Ok::<Seq<char>, TodoError>(text@),
            Err(e) => reply_text(*reply) == Err::<Seq<char>, TodoError>(e),
        },
{
    match reply {
        GeminiReply::Answered { status, candidates: Some(candidates) } => {
            if *status < 200 || *status > 299 {
                Err(TodoError::UpstreamError)
            } else if candidates.len() > 0 && candidates[0].len() > 0 {
                Ok(candidates[0][0].clone())
            } else {
                Ok(String::from_str("❌ No response from Gemini."))
            }
        },
        _ => Err(TodoError::UpstreamError),
    }
}

} // verus!
