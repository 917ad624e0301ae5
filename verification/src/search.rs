//! The search panel: a single text buffer, appended and trimmed at its end.

use vstd::prelude::*;
use crate::command::{Event, Response};

verus! {

/// A free-text search buffer. Characters append at the end; `Back` trims one
/// character off the end; `Accept` reads the buffer out as a text query.
pub struct Search {
    pub query: String,
}

/// Relies on `String::push`: appends the given character to the end of the
/// string.
#[verifier::external_body]
fn push_char(s: &mut String, c: char)
    ensures
        final(s)@ == old(s)@.push(c),
{
    s.push(c);
}

/// Relies on `String::pop`: removes the last character from the string and
/// returns it, or returns `None` and leaves the string alone when it is empty.
#[verifier::external_body]
fn pop_char(s: &mut String) -> (r: Option<char>)
    ensures
        old(s)@.len() == 0 ==> final(s)@ == old(s)@ && r is None,
        old(s)@.len() > 0 ==> final(s)@ == old(s)@.drop_last() && r == Some(old(s)@.last()),
{
    s.pop()
}

/// The buffer after one event: a character appends, `Back` drops the last
/// character (a no-op on an empty buffer), everything else leaves it alone.
pub open spec fn search_buffer_step(buf: Seq<char>, event: Event) -> Seq<char> {
    match event {
        Event::Char(c) => buf.push(c),
        Event::Back => if buf.len() > 0 {
            buf.drop_last()
        } else {
            buf
        },
        _ => buf,
    }
}

/// The response one event draws out of the panel: only `Accept` produces one,
/// carrying the buffer's contents.
pub open spec fn search_response(buf: Seq<char>, event: Event, r: Option<Response>) -> bool {
    match event {
        Event::Accept => r matches Some(Response::QueryAny(s)) && s@ == buf,
        _ => r is None,
    }
}

/// How one event relates the panel before and after: the buffer steps by
/// [`search_buffer_step`] and the response is as [`search_response`] says.
pub open spec fn search_command(pre: Search, post: Search, event: Event, r: Option<
    Response,
>) -> bool {
    &&& post.query@ == search_buffer_step(pre.query@, event)
    &&& search_response(pre.query@, event, r)
}

impl Search {
    /// Consume one event: append on `Char`, trim on `Back`, read out on
    /// `Accept`. Total over every event; `Back` on an empty buffer is a no-op.
    pub fn command(&mut self, event: &Event) -> (r: Option<Response>)
        ensures
            search_command(*old(self), *final(self), *event, r),
    {
        match event {
            Event::Char(c) => {
                push_char(&mut self.query, *c);
                None
            },
            Event::Back => {
                let _ = pop_char(&mut self.query);
                None
            },
            Event::Accept => Some(Response::QueryAny(self.query.clone())),
            _ => None,
        }
    }

    /// A fresh panel, holding the placeholder text the session starts with.
    pub fn new() -> (s: Search)
        ensures
            s.query@ == "test search query"@,
    {
        Search { query: String::from_str("test search query") }
    }
}

} // verus!
