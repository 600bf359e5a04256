//! The command line, once parsed, and the one command it asks for.

use vstd::prelude::*;
use crate::text::{join, joined, text_view, texts};

verus! {

/// The options of the command line.
#[derive(Debug)]
pub struct Cli {
    /// List all todos in a terminal UI.
    pub list: bool,
    /// Export the todos to a spreadsheet.
    pub export: bool,
    /// Add a new todo item: the words of its title.
    pub add: Option<Vec<String>>,
    /// The words of the new item's description.
    pub desc: Option<Vec<String>>,
    /// Topic of the new item.
    pub topic: Option<String>,
    /// Priority of the new item.
    pub priority: Option<String>,
    /// Print all todos to the console.
    pub print: bool,
    /// Delete a todo by identifier.
    pub delete: Option<i32>,
    /// Identifier of the todo to update.
    pub update_id: Option<i32>,
    /// New status of the todo to update.
    pub status: Option<String>,
    /// Mark a todo as done by identifier.
    pub done: Option<i32>,
    /// Clear all todos.
    pub clear: bool,
    /// Show all options.
    pub show: bool,
    /// Owner of the new item.
    pub owner: Option<String>,
    /// Due date of the new item.
    pub due: Option<String>,
    /// The credential to keep.
    pub apikey: Option<String>,
    /// The question for the assistant.
    pub prompt: Option<String>,
    /// Version check.
    pub release: bool,
    /// Flush the store.
    pub flush: bool,
}

/// The one thing that an invocation does.
#[derive(Debug)]
pub enum Command {
    /// Open the interactive browser.
    Browse,
    /// Ask the assistant.
    Ask { prompt: String },
    /// Keep a credential.
    SetKey { key: String },
    /// Add a record.
    Add {
        text: String,
        topic: Option<String>,
        priority: Option<String>,
        owner: Option<String>,
        due: Option<String>,
        desc: Option<String>,
    },
    /// Delete a record.
    Delete { id: i32 },
    /// Set a record's status.
    Update { id: i32, status: String },
    /// Delete all records.
    Clear,
    /// Print all records.
    Print,
    /// Export all records to a spreadsheet.
    Export,
    /// Delete all records, saying so at length.
    Flush,
    /// Show the usage message.
    Help,
}

/// A `Command` as contracts see it.
pub enum CommandView {
    Browse,
    Ask { prompt: Seq<char> },
    SetKey { key: Seq<char> },
    Add {
        text: Seq<char>,
        topic: Option<Seq<char>>,
        priority: Option<Seq<char>>,
        owner: Option<Seq<char>>,
        due: Option<Seq<char>>,
        desc: Option<Seq<char>>,
    },
    Delete { id: int },
    Update { id: int, status: Seq<char> },
    Clear,
    Print,
    Export,
    Flush,
    Help,
}

/// The words, where there are any, joined by single spaces.
pub open spec fn sentence(words: Option<Vec<String>>) -> Option<Seq<char>> {
    match words {
        Some(w) => Some(joined(texts(w@), " "@)),
        None => None,
    }
}

impl View for Command {
    type V = CommandView;

    open spec fn view(&self) -> CommandView {
        match *self {
            Command::Browse => CommandView::Browse,
            Command::Ask { prompt } => CommandView::Ask { prompt: prompt@ },
            Command::SetKey { key } => CommandView::SetKey { key: key@ },
            Command::Add { text, topic, priority, owner, due, desc } => CommandView::Add {
                text: text@,
                topic: text_view(topic),
                priority: text_view(priority),
                owner: text_view(owner),
                due: text_view(due),
                desc: text_view(desc),
            },
            Command::Delete { id } => CommandView::Delete { id: id as int },
            Command::Update { id, status } => CommandView::Update { id: id as int, status: status@ },
            Command::Clear => CommandView::Clear,
            Command::Print => CommandView::Print,
            Command::Export => CommandView::Export,
            Command::Flush => CommandView::Flush,
            Command::Help => CommandView::Help,
        }
    }
}

impl Cli {
    /// The command that these options ask for: the first, in this order, of
    /// the browser (asked for, or no argument given at all), a question for
    /// the assistant, a credential, a new record, a deletion, a status for a
    /// record, a record to mark done, clearing, printing, exporting,
    /// flushing. Where none is asked for, the usage message is shown.
    pub open spec fn chosen(self, no_args: bool) -> CommandView {
        if self.list || no_args {
            CommandView::Browse
        } else if self.prompt is Some {
            CommandView::Ask { prompt: self.prompt->0@ }
        } else if self.apikey is Some {
            CommandView::SetKey { key: self.apikey->0@ }
        } else if self.add is Some {
            CommandView::Add {
                text: sentence(self.add)->0,
                topic: text_view(self.topic),
                priority: text_view(self.priority),
                owner: text_view(self.owner),
                due: text_view(self.due),
                desc: sentence(self.desc),
            }
        } else if self.delete is Some {
            CommandView::Delete { id: self.delete->0 as int }
        } else if self.update_id is Some && self.status is Some {
            CommandView::Update { id: self.update_id->0 as int, status: self.status->0@ }
        } else if self.done is Some {
            CommandView::Update { id: self.done->0 as int, status: "Done"@ }
        } else if self.clear {
            CommandView::Clear
        } else if self.print {
            CommandView::Print
        } else if self.export {
            CommandView::Export
        } else if self.flush {
            CommandView::Flush
        } else {
            CommandView::Help
        }
    }

    /// Picks the one command that these options ask for.
    pub fn command(self, no_args: bool) -> (command: Command)
        ensures
            command@ == self.chosen(no_args),
    {
        if self.list || no_args {
            return Command::Browse;
        }
        if let Some(prompt) = self.prompt {
            return Command::Ask { prompt };
        }
        if let Some(key) = self.apikey {
            return Command::SetKey { key };
        }
        if let Some(words) = self.add {
            let text = join(&words, " ");
            let desc = match self.desc {
                Some(d) => Some(join(&d, " ")),
                None => None,
            };
            return Command::Add {
                text,
                topic: self.topic,
                priority: self.priority,
                owner: self.owner,
                due: self.due,
                desc,
            };
        }
        if let Some(id) = self.delete {
            return Command::Delete { id };
        }
        if let Some(id) = self.update_id {
            if let Some(status) = self.status {
                return Command::Update { id, status };
            }
        }
        if let Some(id) = self.done {
            return Command::Update { id, status: String::from_str("Done") };
        }
        if self.clear {
            Command::Clear
        } else if self.print {
            Command::Print
        } else if self.export {
            Command::Export
        } else if self.flush {
            Command::Flush
        } else {
            Command::Help
        }
    }
}

} // verus!
