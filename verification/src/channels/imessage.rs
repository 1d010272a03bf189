//! The iMessage channel: messages are read from the Messages database with
//! the query tool and replies are sent through the scripting bridge.
//!
//! The channel itself runs no process and sleeps on no clock. It says what to
//! run and decides on what came back.

use crate::channels::allow_list::{is_allowed, permits};
use crate::channels::cursor::{Record, RecordView, accepted, lemma_accepted_ascending, record_views};
use crate::channels::message::{ChannelMessage, MessageView};
use crate::channels::messages_db::{parse_rows, read_rows};
use crate::decimal::{decimal, format_i64, lemma_parse_decimal};
use crate::text::{lemma_replaced_concat, lemma_replaced_one, replace_char, replaced, views};
use vstd::prelude::*;
use vstd::string::StringExecFns;

verus! {

/// The name of the channel, which every message from it carries.
pub open spec fn channel_name() -> Seq<char> {
    "imessage"@
}

/// A message text made safe between the double quotes of a script: a
/// backslash before every backslash, then a backslash before every double
/// quote.
pub open spec fn escaped(message: Seq<char>) -> Seq<char> {
    replaced(replaced(message, '\\', seq!['\\', '\\']), '"', seq!['\\', '"'])
}

/// A character as it stands between the double quotes of a script: a
/// backslash and a double quote behind a backslash, every other character as
/// it is.
pub open spec fn escaped_char(c: char) -> Seq<char> {
    if c == '\\' {
        seq!['\\', '\\']
    } else if c == '"' {
        seq!['\\', '"']
    } else {
        seq![c]
    }
}

/// What a script reads of `s` between double quotes: a character behind a
/// backslash stands for itself. `None` where the text would end early, at a
/// double quote that no backslash guards, or ends with a backslash that
/// guards nothing.
pub open spec fn read_between_quotes(s: Seq<char>) -> Option<Seq<char>>
    decreases s.len(),
{
    if s.len() == 0 {
        Some(Seq::empty())
    } else if s[0] == '"' {
        None
    } else if s[0] == '\\' {
        if s.len() < 2 {
            None
        } else {
            match read_between_quotes(s.subrange(2, s.len() as int)) {
                Some(rest) => Some(seq![s[1]] + rest),
                None => None,
            }
        }
    } else {
        match read_between_quotes(s.subrange(1, s.len() as int)) {
            Some(rest) => Some(seq![s[0]] + rest),
            None => None,
        }
    }
}

/// The script up to the recipient.
pub open spec fn script_head() -> Seq<char> {
    "tell application \"Messages\"\n    set targetService to 1st account whose service type = iMessage\n    set targetBuddy to participant \""@
}

/// The script between the recipient and the message.
pub open spec fn script_middle() -> Seq<char> {
    "\" of targetService\n    send \""@
}

/// The script after the message.
pub open spec fn script_tail() -> Seq<char> {
    "\" to targetBuddy\nend tell"@
}

/// The script that sends `message` to `target`. The recipient stands in it
/// as given; the message is escaped.
pub open spec fn script_text(message: Seq<char>, target: Seq<char>) -> Seq<char> {
    script_head() + target + script_middle() + escaped(message) + script_tail()
}

/// What a failed send says, with what the bridge wrote.
pub open spec fn send_failed_text(diagnostic: Seq<char>) -> Seq<char> {
    "iMessage send failed: "@ + diagnostic
}

/// What a failed query says, with what the query tool wrote.
pub open spec fn query_failed_text(diagnostic: Seq<char>) -> Seq<char> {
    "sqlite3 query failed: "@ + diagnostic
}

/// What is said of an output of the query tool that is malformed.
pub open spec fn malformed_output_text() -> Seq<char> {
    "sqlite3 query returned malformed output"@
}

/// The warning for a seed query that failed.
pub open spec fn seed_failed_text() -> Seq<char> {
    "iMessage seed query failed; starting from position 0"@
}

/// The warning for a poll that failed.
pub open spec fn poll_error_text(error: Seq<char>) -> Seq<char> {
    "iMessage poll error: "@ + error
}

/// What is said where the home directory is not found.
pub open spec fn home_not_found_text() -> Seq<char> {
    "Cannot find home directory"@
}

/// What is said where no database lies at `path`.
pub open spec fn database_not_found_text(path: Seq<char>) -> Seq<char> {
    "Messages database not found at "@ + path
        + ". Ensure Messages.app is set up and Full Disk Access is granted."@
}

/// What is said of an event that came out of turn.
pub open spec fn out_of_turn_text() -> Seq<char> {
    "iMessage listen loop received an event out of turn"@
}

/// The message that the channel hands on for a record captured at `now`.
pub open spec fn message_of(record: RecordView, now: u64) -> MessageView {
    MessageView {
        id: decimal(record.position as int),
        sender: record.sender,
        content: record.text,
        channel: channel_name(),
        timestamp: now,
    }
}

/// A reply could not be sent. `text` says why, in the transport's words.
#[derive(Debug)]
pub struct SendError {
    pub text: String,
}

/// A fetch from the store failed. `text` says why.
#[derive(Debug)]
pub struct FetchError {
    pub text: String,
}

/// Why the listen loop ended with an error.
#[derive(Debug)]
pub enum ListenError {
    /// The user's home directory could not be found.
    HomeNotFound,
    /// No Messages database at the path given.
    DatabaseNotFound(String),
    /// An event came that the loop was not waiting for.
    OutOfTurn,
}

/// What a `ListenError` holds, as mathematical values.
pub ghost enum ListenErrorView {
    HomeNotFound,
    DatabaseNotFound(Seq<char>),
    OutOfTurn,
}

impl View for ListenError {
    type V = ListenErrorView;

    open spec fn view(&self) -> ListenErrorView {
        match self {
            ListenError::HomeNotFound => ListenErrorView::HomeNotFound,
            ListenError::DatabaseNotFound(path) => ListenErrorView::DatabaseNotFound(path@),
            ListenError::OutOfTurn => ListenErrorView::OutOfTurn,
        }
    }
}

impl ListenErrorView {
    /// The text of the error.
    pub open spec fn text(self) -> Seq<char> {
        match self {
            ListenErrorView::HomeNotFound => home_not_found_text(),
            ListenErrorView::DatabaseNotFound(path) => database_not_found_text(path),
            ListenErrorView::OutOfTurn => out_of_turn_text(),
        }
    }
}

impl ListenError {
    /// The text of the error.
    pub fn message(&self) -> (r: String)
        ensures
            r@ == self@.text(),
    {
        match self {
            ListenError::HomeNotFound => "Cannot find home directory".to_owned(),
            ListenError::DatabaseNotFound(path) => {
                let mut r = String::new();
                r.append("Messages database not found at ");
                r.append(path.as_str());
                r.append(". Ensure Messages.app is set up and Full Disk Access is granted.");
                r
            },
            ListenError::OutOfTurn => "iMessage listen loop received an event out of turn".to_owned(),
        }
    }
}

/// iMessage channel: polls the Messages database for new messages and sends
/// replies through the scripting bridge.
#[derive(Clone)]
pub struct IMessageChannel {
    pub allowed_contacts: Vec<String>,
    pub poll_interval_secs: u64,
}

impl IMessageChannel {
    /// A channel that lets the given contacts through and polls every three
    /// seconds.
    pub fn new(allowed_contacts: Vec<String>) -> (channel: Self)
        ensures
            channel.allowed_contacts == allowed_contacts,
            channel.poll_interval_secs == 3,
    {
        Self { allowed_contacts, poll_interval_secs: 3 }
    }

    /// Whether messages of `sender` are handed on.
    pub fn is_contact_allowed(&self, sender: &str) -> (allowed: bool)
        ensures
            allowed == permits(views(self.allowed_contacts@), sender@),
    {
        is_allowed(&self.allowed_contacts, sender)
    }

    /// The name of the channel: its routing key, and the `channel` of its
    /// messages.
    pub fn name(&self) -> (r: &'static str)
        ensures
            r@ == channel_name(),
            forall|i: int| 0 <= i < r@.len() ==> 'a' <= #[trigger] r@[i] <= 'z',
    {
        proof {
            reveal_strlit("imessage");
        }
        "imessage"
    }

    /// Whether the channel can work: only on macOS, and only where the
    /// Messages database is found.
    pub fn health_check(&self, on_macos: bool, database_exists: bool) -> (healthy: bool)
        ensures
            healthy == (on_macos && database_exists),
    {
        on_macos && database_exists
    }

    /// The script to run for sending `message` to `target`.
    pub fn send_script(&self, message: &str, target: &str) -> (script: String)
        ensures
            script@ == script_text(message@, target@),
    {
        let escaped_msg = escape(message);
        let mut script = String::new();
        script.append(
            "tell application \"Messages\"\n    set targetService to 1st account whose service type = iMessage\n    set targetBuddy to participant \"",
        );
        script.append(target);
        script.append("\" of targetService\n    send \"");
        script.append(escaped_msg.as_str());
        script.append("\" to targetBuddy\nend tell");
        script
    }

    /// What a send came to, from how the script ended and what it wrote to
    /// its error stream.
    pub fn send_outcome(&self, success: bool, stderr: &str) -> (r: Result<(), SendError>)
        ensures
            success ==> r.is_ok(),
            !success ==> r.is_err() && r.unwrap_err().text@ == send_failed_text(stderr@),
    {
        if success {
            Ok(())
        } else {
            let mut text = String::new();
            text.append("iMessage send failed: ");
            text.append(stderr);
            Err(SendError { text })
        }
    }

    /// What a fetch came to, from how the query tool ended and what it wrote.
    /// A tool that ended with an error and an output that is malformed are
    /// failures of the fetch.
    pub fn fetch_outcome(&self, success: bool, stdout: &str, stderr: &str) -> (r: Result<
        Vec<Record>,
        FetchError,
    >)
        ensures
            match r {
                Ok(records) => success && parse_rows(stdout@) == Some(record_views(records@)),
                Err(error) => if success {
                    parse_rows(stdout@).is_none() && error.text@ == malformed_output_text()
                } else {
                    error.text@ == query_failed_text(stderr@)
                },
            },
    {
        if success {
            match read_rows(stdout) {
                Some(records) => Ok(records),
                None => Err(
                    FetchError { text: "sqlite3 query returned malformed output".to_owned() },
                ),
            }
        } else {
            let mut text = String::new();
            text.append("sqlite3 query failed: ");
            text.append(stderr);
            Err(FetchError { text })
        }
    }

    /// The message to hand on for a record captured at `now`.
    pub fn message_for(&self, record: &Record, now: u64) -> (message: ChannelMessage)
        ensures
            message@ == message_of(record@, now),
    {
        ChannelMessage {
            id: format_i64(record.position),
            sender: record.sender.clone(),
            content: record.text.clone(),
            channel: "imessage".to_owned(),
            timestamp: now,
        }
    }
}

/// Within the channel, the id of a message names it: the messages handed on
/// in the course of polls have ids that differ one from another, whenever
/// they were captured.
pub proof fn lemma_ids_are_unique(
    list: Seq<Seq<char>>,
    cursor: i64,
    records: Seq<RecordView>,
    a: int,
    b: int,
    now_a: u64,
    now_b: u64,
)
    requires
        0 <= a < b < accepted(list, cursor, records).len(),
    ensures
        message_of(accepted(list, cursor, records)[a], now_a).id != message_of(
            accepted(list, cursor, records)[b],
            now_b,
        ).id,
{
    let out = accepted(list, cursor, records);
    lemma_accepted_ascending(list, cursor, records);
    assert(out[a].position < out[b].position);
    lemma_parse_decimal(out[a].position);
    lemma_parse_decimal(out[b].position);
}

/// Escaping goes character by character.
pub proof fn lemma_escaped_by_character(message: Seq<char>)
    ensures
        message.len() == 0 ==> escaped(message).len() == 0,
        message.len() > 0 ==> escaped(message) == escaped_char(message[0]) + escaped(
            message.subrange(1, message.len() as int),
        ),
{
    let guard = seq!['\\', '\\'];
    let quote = seq!['\\', '"'];
    if message.len() > 0 {
        let first = seq![message[0]];
        let rest = message.subrange(1, message.len() as int);
        assert(message == first + rest);
        lemma_replaced_concat(first, rest, '\\', guard);
        lemma_replaced_one(message[0], '\\', guard);
        let once = replaced(first, '\\', guard);
        lemma_replaced_concat(once, replaced(rest, '\\', guard), '"', quote);
        if message[0] == '\\' {
            let one = seq!['\\'];
            assert(guard == one + one);
            lemma_replaced_concat(one, one, '"', quote);
            lemma_replaced_one('\\', '"', quote);
            assert(replaced(once, '"', quote) == guard);
        } else {
            lemma_replaced_one(message[0], '"', quote);
        }
    } else {
        assert(replaced(message, '\\', guard).len() == 0);
    }
}

/// What was escaped reads back between double quotes as it was: the text does
/// not end early, and no character of it is lost or changed.
pub proof fn lemma_escaped_reads_back(message: Seq<char>)
    ensures
        read_between_quotes(escaped(message)) == Some(message),
    decreases message.len(),
{
    lemma_escaped_by_character(message);
    if message.len() > 0 {
        let rest = message.subrange(1, message.len() as int);
        lemma_escaped_reads_back(rest);
        let head = escaped_char(message[0]);
        let whole = head + escaped(rest);
        assert(whole.subrange(head.len() as int, whole.len() as int) == escaped(rest));
        assert(seq![message[0]] + rest == message);
    }
}

/// The message text made safe between the double quotes of a script.
pub fn escape(message: &str) -> (r: String)
    ensures
        r@ == escaped(message@),
{
    let once = replace_char(message, '\\', "\\\\");
    proof {
        reveal_strlit("\\\\");
        reveal_strlit("\\\"");
        assert("\\\\"@ =~= seq!['\\', '\\']);
        assert("\\\""@ =~= seq!['\\', '"']);
    }
    replace_char(once.as_str(), '"', "\\\"")
}

} // verus!
