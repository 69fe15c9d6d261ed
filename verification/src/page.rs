//! The page that shows the record: what it displays, and what it does when
//! the user acts or an operation comes back.

use vstd::prelude::*;
use crate::service::{text_reply, ServiceError, ServiceErrorView, EMPTY_DATABASE};

verus! {

/// Shown in place of the content while a read is under way.
pub const LOADING: &'static str = "Loading...";

/// The label of the write form's button where nothing is stored.
pub const ADD: &'static str = "Add";

/// The label of the write form's button where a content is stored.
pub const UPDATE: &'static str = "Update";

/// What the page has of the record.
#[derive(Debug, PartialEq, Eq)]
pub enum Shown {
    /// A read is under way; `last` is what the one before it gave, if any.
    Pending { last: Option<String> },
    /// The last read has finished and gave `content`.
    Ready { content: String },
}

/// The page's state.
#[derive(Debug, PartialEq, Eq)]
pub struct Page {
    pub shown: Shown,
    /// The text in the input field of the write form.
    pub input: String,
}

/// What happens to the page.
#[derive(Debug, PartialEq, Eq)]
pub enum PageEvent {
    /// The user changed the input field to `text`.
    Typed { text: String },
    /// The user submitted the write form.
    SaveSubmitted,
    /// The user submitted the delete form.
    DeleteSubmitted,
    /// The read that was under way came back with `reply`.
    Fetched { reply: Result<String, ServiceError> },
    /// A write or a delete came back.
    Mutated,
}

/// What the page asks for in answer to an event.
#[derive(Debug, PartialEq, Eq)]
pub enum PageAction {
    Nothing,
    /// Read the record, and hand the reply back as `PageEvent::Fetched`.
    Fetch,
    /// Write `content`, and hand back `PageEvent::Mutated` when done.
    Save { content: String },
    /// Delete the record, and hand back `PageEvent::Mutated` when done.
    Delete,
}

/// A `Shown` as a mathematical value.
pub enum ShownView {
    Pending { last: Option<Seq<char>> },
    Ready { content: Seq<char> },
}

/// A `Page` as a mathematical value.
pub struct PageView {
    pub shown: ShownView,
    pub input: Seq<char>,
}

/// A `PageEvent` as a mathematical value.
pub enum PageEventView {
    Typed { text: Seq<char> },
    SaveSubmitted,
    DeleteSubmitted,
    Fetched { reply: Result<Seq<char>, ServiceErrorView> },
    Mutated,
}

/// A `PageAction` as a mathematical value.
pub enum PageActionView {
    Nothing,
    Fetch,
    Save { content: Seq<char> },
    Delete,
}

impl View for Shown {
    type V = ShownView;

    open spec fn view(&self) -> ShownView {
        match self {
            Shown::Pending { last: Some(content) } => ShownView::Pending { last: Some(content@) },
            Shown::Pending { last: None } => ShownView::Pending { last: None },
            Shown::Ready { content } => ShownView::Ready { content: content@ },
        }
    }
}

impl View for Page {
    type V = PageView;

    open spec fn view(&self) -> PageView {
        PageView { shown: self.shown@, input: self.input@ }
    }
}

impl View for PageEvent {
    type V = PageEventView;

    open spec fn view(&self) -> PageEventView {
        match self {
            PageEvent::Typed { text } => PageEventView::Typed { text: text@ },
            PageEvent::SaveSubmitted => PageEventView::SaveSubmitted,
            PageEvent::DeleteSubmitted => PageEventView::DeleteSubmitted,
            PageEvent::Fetched { reply } => PageEventView::Fetched { reply: text_reply(*reply) },
            PageEvent::Mutated => PageEventView::Mutated,
        }
    }
}

impl View for PageAction {
    type V = PageActionView;

    open spec fn view(&self) -> PageActionView {
        match self {
            PageAction::Nothing => PageActionView::Nothing,
            PageAction::Fetch => PageActionView::Fetch,
            PageAction::Save { content } => PageActionView::Save { content: content@ },
            PageAction::Delete => PageActionView::Delete,
        }
    }
}

/// What the page shows for the reply of a read: its text, or
/// `EMPTY_DATABASE` where the read failed.
pub open spec fn displayed(reply: Result<Seq<char>, ServiceErrorView>) -> Seq<char> {
    match reply {
        Ok(content) => content,
        Err(_) => EMPTY_DATABASE@,
    }
}

impl ShownView {
    /// The content that the last finished read gave, if any has finished.
    pub open spec fn known(self) -> Option<Seq<char>> {
        match self {
            ShownView::Pending { last } => last,
            ShownView::Ready { content } => Some(content),
        }
    }

    /// Whether a content is known and is not the answer for an empty database.
    pub open spec fn holds_record(self) -> bool {
        self.known() is Some && self.known()->0 != EMPTY_DATABASE@
    }
}

impl PageView {
    /// The text in the place of the content: `LOADING` while a read is
    /// under way.
    pub open spec fn text(self) -> Seq<char> {
        match self.shown {
            ShownView::Pending { .. } => LOADING@,
            ShownView::Ready { content } => content,
        }
    }

    /// The label of the write form's button: `UPDATE` where a record is
    /// known to be stored, `ADD` where none is or nothing is known yet.
    pub open spec fn submit_label(self) -> Seq<char> {
        if self.shown.holds_record() {
            UPDATE@
        } else {
            ADD@
        }
    }

    /// Whether the delete form is shown: only where a record is known to be
    /// stored.
    pub open spec fn offers_delete(self) -> bool {
        self.shown.holds_record()
    }

    /// The page after `event`, and what it asks for.
    pub open spec fn next(self, event: PageEventView) -> (PageView, PageActionView) {
        match event {
            PageEventView::Typed { text } => (
                PageView { shown: self.shown, input: text },
                PageActionView::Nothing,
            ),
            PageEventView::SaveSubmitted => (self, PageActionView::Save { content: self.input }),
            PageEventView::DeleteSubmitted => (
                self,
                if self.offers_delete() {
                    PageActionView::Delete
                } else {
                    PageActionView::Nothing
                },
            ),
            PageEventView::Fetched { reply } => (
                PageView { shown: ShownView::Ready { content: displayed(reply) }, input: self.input },
                PageActionView::Nothing,
            ),
            PageEventView::Mutated => (
                PageView {
                    shown: ShownView::Pending { last: self.shown.known() },
                    input: Seq::empty(),
                },
                PageActionView::Fetch,
            ),
        }
    }
}

/// Whether `content` is the answer of a read where nothing is stored.
pub fn is_empty_database(content: &String) -> (b: bool)
    ensures
        b == (content@ == EMPTY_DATABASE@),
{
    let sentinel = EMPTY_DATABASE.to_owned();
    *content == sentinel
}

/// The text that the page shows for the reply of a read.
pub fn displayed_content(reply: Result<String, ServiceError>) -> (text: String)
    ensures
        text@ == displayed(text_reply(reply)),
{
    match reply {
        Ok(content) => content,
        Err(_) => EMPTY_DATABASE.to_owned(),
    }
}

impl Shown {
    /// Whether a content is known and is not the answer for an empty database.
    pub fn holds_record(&self) -> (b: bool)
        ensures
            b == self@.holds_record(),
    {
        match self {
            Shown::Pending { last: Some(content) } => !is_empty_database(content),
            Shown::Pending { last: None } => false,
            Shown::Ready { content } => !is_empty_database(content),
        }
    }

    /// Gives up the content that the last finished read gave, if any.
    fn into_known(self) -> (known: Option<String>)
        ensures
            known is Some == self@.known() is Some,
            known is Some ==> known->0@ == self@.known()->0,
    {
        match self {
            Shown::Pending { last } => last,
            Shown::Ready { content } => Some(content),
        }
    }
}

impl Page {
    /// The page as it is opened: nothing known, the input empty. The first
    /// read is to be started at once.
    pub fn new() -> (page: Page)
        ensures
            page@ == (PageView { shown: ShownView::Pending { last: None }, input: Seq::empty() }),
    {
        Page { shown: Shown::Pending { last: None }, input: String::new() }
    }

    /// The text in the place of the content.
    pub fn text(&self) -> (text: String)
        ensures
            text@ == self@.text(),
    {
        match &self.shown {
            Shown::Pending { .. } => LOADING.to_owned(),
            Shown::Ready { content } => content.clone(),
        }
    }

    /// The label of the write form's button.
    pub fn submit_label(&self) -> (label: &'static str)
        ensures
            label@ == self@.submit_label(),
    {
        if self.shown.holds_record() {
            UPDATE
        } else {
            ADD
        }
    }

    /// Whether the delete form is shown.
    pub fn offers_delete(&self) -> (b: bool)
        ensures
            b == self@.offers_delete(),
    {
        self.shown.holds_record()
    }

    /// Takes `event` in: gives the page after it and what is to be done.
    pub fn step(self, event: PageEvent) -> (next: (Page, PageAction))
        ensures
            (next.0@, next.1@) == self@.next(event@),
    {
        match event {
            PageEvent::Typed { text } => (Page { shown: self.shown, input: text }, PageAction::Nothing),
            PageEvent::SaveSubmitted => {
                let content = self.input.clone();
                (self, PageAction::Save { content })
            },
            PageEvent::DeleteSubmitted => {
                let action = if self.offers_delete() {
                    PageAction::Delete
                } else {
                    PageAction::Nothing
                };
                (self, action)
            },
            PageEvent::Fetched { reply } => (
                Page { shown: Shown::Ready { content: displayed_content(reply) }, input: self.input },
                PageAction::Nothing,
            ),
            PageEvent::Mutated => (
                Page { shown: Shown::Pending { last: self.shown.into_known() }, input: String::new() },
                PageAction::Fetch,
            ),
        }
    }
}

} // verus!
