//! The line-based event stream of Hyprland: how a line is read as an event,
//! which identity a focused window gets, and how the stream of events
//! becomes a stream of focus changes.
//!
//! A line has the form `name>>data`. Only `activewindow` carries a focus
//! change; its data are the window's class and title, separated by the first
//! comma. Every other event is passed through unread.

use crate::focus::{FocusStep, FocusStepView, FocusTracker};
use crate::lines::{after_first_line, buffered, first_line_text, next_line};
use crate::text::{
    after_first, before_first, cut, is_substring, optional_view, same_text, trim, trimmed,
};
use tokio_util::bytes::BytesMut;
use vstd::prelude::*;
use vstd::string::StringExecFns;

verus! {

/// An event of the stream.
#[derive(Debug, Clone, PartialEq, Eq)]
pub enum Event {
    /// An event that carries no focus change, with its line as it came.
    Nothing(String),
    /// Focus went to the window of this class and title.
    ActiveWindow { class: String, title: String },
}

/// An event as a mathematical value.
pub enum EventView {
    Nothing(Seq<char>),
    ActiveWindow { class: Seq<char>, title: Seq<char> },
}

impl View for Event {
    type V = EventView;

    open spec fn view(&self) -> EventView {
        match self {
            Event::Nothing(line) => EventView::Nothing(line@),
            Event::ActiveWindow { class, title } => EventView::ActiveWindow {
                class: class@,
                title: title@,
            },
        }
    }
}

/// Why a line is no event.
#[derive(Debug, Clone, PartialEq, Eq)]
pub enum EventError {
    /// The line holds no `>>`; the text is the line.
    InvalidLine(String),
    /// An `activewindow` event whose data hold no comma; the text is the
    /// data.
    InvalidActiveWindow(String),
}

/// Why a line is no event, as a mathematical value.
pub enum EventErrorView {
    InvalidLine(Seq<char>),
    InvalidActiveWindow(Seq<char>),
}

impl View for EventError {
    type V = EventErrorView;

    open spec fn view(&self) -> EventErrorView {
        match self {
            EventError::InvalidLine(line) => EventErrorView::InvalidLine(line@),
            EventError::InvalidActiveWindow(data) => EventErrorView::InvalidActiveWindow(data@),
        }
    }
}

/// What separates an event's name from its data.
pub open spec fn name_separator() -> Seq<char> {
    ">>"@
}

/// What separates a window's class from its title.
pub open spec fn field_separator() -> Seq<char> {
    ","@
}

/// The name of the event that carries a focus change.
pub open spec fn active_window_name() -> Seq<char> {
    "activewindow"@
}

/// What stands between class and title in a window's identity.
pub open spec fn identity_joint() -> Seq<char> {
    " - "@
}

/// The event that a line stands for once it is cut at `>>`: `name` is the
/// event's name without surrounding white space, `data` what follows `>>`.
pub open spec fn assemble(line: Seq<char>, name: Seq<char>, data: Seq<char>) -> Result<
    EventView,
    EventErrorView,
> {
    if name != active_window_name() {
        Ok(EventView::Nothing(line))
    } else if is_substring(field_separator(), data) {
        Ok(
            EventView::ActiveWindow {
                class: trimmed(before_first(data, field_separator())),
                title: trimmed(after_first(data, field_separator())),
            },
        )
    } else {
        Err(EventErrorView::InvalidActiveWindow(data))
    }
}

/// The event that a line stands for.
pub open spec fn parse_line(line: Seq<char>) -> Result<EventView, EventErrorView> {
    if is_substring(name_separator(), line) {
        assemble(
            line,
            trimmed(before_first(line, name_separator())),
            after_first(line, name_separator()),
        )
    } else {
        Err(EventErrorView::InvalidLine(line))
    }
}

/// The view of the result of reading a line.
pub open spec fn parsed_view(result: Result<Event, EventError>) -> Result<
    EventView,
    EventErrorView,
> {
    match result {
        Ok(event) => Ok(event@),
        Err(error) => Err(error@),
    }
}

/// The identity of the window that an event puts in focus: class and title,
/// joined by ` - `. An event without a focus change has none.
pub open spec fn identity_of(event: EventView) -> Option<Seq<char>> {
    match event {
        EventView::ActiveWindow { class, title } => Some(class + identity_joint() + title),
        EventView::Nothing(_) => None,
    }
}

impl Event {
    /// Reads one line of the stream.
    pub fn from_line(line: &str) -> (r: Result<Event, EventError>)
        ensures
            parsed_view(r) == parse_line(line@),
    {
        match cut(line, ">>") {
            Some((name, data)) => Event::from_parts(line, trim(name), data),
            None => Err(EventError::InvalidLine(line.to_owned())),
        }
    }

    /// Builds the event of a line that is already cut at `>>`: `name` is the
    /// event's name without surrounding white space, `data` what follows
    /// `>>`.
    pub fn from_parts(line: &str, name: &str, data: &str) -> (r: Result<Event, EventError>)
        ensures
            parsed_view(r) == assemble(line@, name@, data@),
    {
        if !same_text(name, "activewindow") {
            Ok(Event::Nothing(line.to_owned()))
        } else {
            match cut(data, ",") {
                Some((class, title)) => Ok(
                    Event::ActiveWindow {
                        class: trim(class).to_owned(),
                        title: trim(title).to_owned(),
                    },
                ),
                None => Err(EventError::InvalidActiveWindow(data.to_owned())),
            }
        }
    }

    /// Reads what the line framing handed over: a line, or nothing yet.
    pub fn from_frame(frame: Option<String>) -> (r: Result<Option<Event>, EventError>)
        ensures
            match frame {
                Some(line) => match parse_line(line@) {
                    Ok(event) => r matches Ok(Some(read)) && read@ == event,
                    Err(error) => r matches Err(failure) && failure@ == error,
                },
                None => r matches Ok(None),
            },
    {
        match frame {
            Some(line) => match Event::from_line(line.as_str()) {
                Ok(event) => Ok(Some(event)),
                Err(error) => Err(error),
            },
            None => Ok(None),
        }
    }

    /// The identity of the window that the event puts in focus.
    pub fn identity(&self) -> (r: Option<String>)
        ensures
            optional_view(r) == identity_of(self@),
    {
        match self {
            Event::ActiveWindow { class, title } => {
                let mut identity = class.clone();
                identity.append(" - ");
                identity.append(title.as_str());
                Some(identity)
            },
            Event::Nothing(_) => None,
        }
    }
}

impl EventError {
    /// The error in words.
    pub fn message(&self) -> (r: String)
        ensures
            r@ == match self@ {
                EventErrorView::InvalidLine(line) => "Invalid event line: "@ + line,
                EventErrorView::InvalidActiveWindow(data) => "Invalid active_window data: "@
                    + data,
            },
    {
        match self {
            EventError::InvalidLine(line) => {
                let mut message = String::from_str("Invalid event line: ");
                message.append(line.as_str());
                message
            },
            EventError::InvalidActiveWindow(data) => {
                let mut message = String::from_str("Invalid active_window data: ");
                message.append(data.as_str());
                message
            },
        }
    }
}

/// The path of the socket on which Hyprland publishes its events.
pub fn socket_path(runtime_dir: &str, signature: &str) -> (r: String)
    ensures
        r@ == runtime_dir@ + "/hypr/"@ + signature@ + "/.socket2.sock"@,
{
    let mut path = String::from_str(runtime_dir);
    path.append("/hypr/");
    path.append(signature);
    path.append("/.socket2.sock");
    path
}

/// Why the byte stream gives no event.
#[derive(Debug, Clone, PartialEq, Eq)]
pub enum DecodeError {
    /// A line of the stream is not UTF-8.
    NotUtf8,
    /// A line of the stream is no event.
    Event(EventError),
}

/// Why the byte stream gives no event, as a mathematical value.
pub enum DecodeErrorView {
    NotUtf8,
    Event(EventErrorView),
}

impl View for DecodeError {
    type V = DecodeErrorView;

    open spec fn view(&self) -> DecodeErrorView {
        match self {
            DecodeError::NotUtf8 => DecodeErrorView::NotUtf8,
            DecodeError::Event(error) => DecodeErrorView::Event(error@),
        }
    }
}

/// The event that the first line of `bytes` stands for; nothing where the
/// bytes hold no whole line yet.
pub open spec fn next_event(bytes: Seq<u8>) -> Result<Option<EventView>, DecodeErrorView> {
    match first_line_text(bytes) {
        Ok(Some(line)) => match parse_line(line) {
            Ok(event) => Ok(Some(event)),
            Err(error) => Err(DecodeErrorView::Event(error)),
        },
        Ok(None) => Ok(None),
        Err(_) => Err(DecodeErrorView::NotUtf8),
    }
}

/// The view of what the decoder returns.
pub open spec fn decoded_view(result: Result<Option<Event>, DecodeError>) -> Result<
    Option<EventView>,
    DecodeErrorView,
> {
    match result {
        Ok(Some(event)) => Ok(Some(event@)),
        Ok(None) => Ok(None),
        Err(error) => Err(error@),
    }
}

/// Takes the events out of the bytes of the stream, line by line. It keeps
/// nothing between calls: every call searches the buffer from its front.
#[derive(Debug, Clone, Copy, PartialEq, Eq)]
pub struct EventDecoder {}

impl EventDecoder {
    /// A decoder.
    pub fn new() -> EventDecoder {
        EventDecoder {  }
    }

    /// Takes the first line out of the buffer and reads it as an event.
    /// Where the buffer holds no whole line yet it stays as it is and there
    /// is no event; a line that is refused leaves the buffer all the same.
    pub fn decode(&mut self, src: &mut BytesMut) -> (r: Result<Option<Event>, DecodeError>)
        ensures
            buffered(*final(src)) == after_first_line(buffered(*old(src))),
            decoded_view(r) == next_event(buffered(*old(src))),
    {
        match next_line(src) {
            Ok(frame) => match Event::from_frame(frame) {
                Ok(event) => Ok(event),
                Err(error) => Err(DecodeError::Event(error)),
            },
            Err(_) => Err(DecodeError::NotUtf8),
        }
    }
}

/// Takes one event of the stream. An event with a focus change gives the
/// step from the window seen last to the new one, which the tracker then
/// remembers; any other event gives nothing and changes nothing.
pub fn focus_step(tracker: &mut FocusTracker, event: &Event) -> (r: Option<FocusStep>)
    ensures
        match identity_of(event@) {
            Some(identity) => r matches Some(step) && step@ == (FocusStepView {
                previous: old(tracker).last(),
                current: Some(identity),
            }) && final(tracker).last() == Some(identity),
            None => r is None && final(tracker).last() == old(tracker).last(),
        },
{
    match event.identity() {
        Some(identity) => Some(tracker.advance(Some(identity))),
        None => None,
    }
}

} // verus!
