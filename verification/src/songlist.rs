//! The song list panel: a linear browsing cursor over the last query's result
//! set.

use vstd::prelude::*;
use vstd::relations::sorted_by;
use crate::command::{Event, Response};
use crate::order::{key_class, song_order, sort_songs};
use crate::song::Song;

verus! {

/// The key a song list can be reordered by.
#[derive(Clone, Copy)]
pub enum SongOrder {
    TrackNum,
    Album,
    Artist,
    Title,
}

/// An ordered sequence of songs plus a browsing cursor. The contents are
/// replaced wholesale whenever a new query response arrives.
pub struct SongList {
    pub items: Vec<Song>,
    pub selection: usize,
}

/// Where the cursor lands after one event on a non-empty list of length `n`:
/// `Up`/`Down` step by one and wrap; `Left`/`Right` jump by ten and clamp.
pub open spec fn list_cursor_step(c: int, n: int, event: Event) -> int {
    match event {
        Event::Up => (c + n - 1) % n,
        Event::Down => (c + 1) % n,
        Event::Left => if c >= 10 {
            c - 10
        } else {
            0
        },
        Event::Right => if c + 10 < n {
            c + 10
        } else {
            n - 1
        },
        _ => c,
    }
}

/// How one event relates the panel before and after: the cursor moves by
/// [`list_cursor_step`], the contents stay, and an empty list ignores
/// everything.
pub open spec fn list_command(pre: SongList, post: SongList, event: Event) -> bool {
    &&& post.items == pre.items
    &&& (pre.items@.len() > 0 ==> post.cursor() == list_cursor_step(
        pre.cursor(),
        pre.items@.len() as int,
        event,
    ))
    &&& (pre.items@.len() == 0 ==> post.cursor() == pre.cursor())
}

impl SongList {
    /// The browsing cursor, as a mathematical index.
    pub open spec fn cursor(&self) -> int {
        self.selection as int
    }

    /// Cursor validity: within the list when it is non-empty, parked at zero
    /// when it is empty. The length bound keeps the cursor reportable as an
    /// `i32`.
    pub open spec fn wf(&self) -> bool {
        &&& self.items@.len() <= i32::MAX
        &&& (self.items@.len() > 0 ==> 0 <= self.cursor() < self.items@.len())
        &&& (self.items@.len() == 0 ==> self.cursor() == 0)
    }

    /// Consume one event: move the cursor and nothing else. On an empty list
    /// every event is a no-op. This panel never produces a response; the
    /// router reads its cursor instead.
    pub fn command(&mut self, event: &Event) -> (r: Option<Response>)
        requires
            old(self).wf(),
        ensures
            final(self).wf(),
            list_command(*old(self), *final(self), *event),
            r is None,
    {
        let n = self.items.len();
        if n == 0 {
            return None;
        }
        match event {
            Event::Up => {
                if self.selection == 0 {
                    self.selection = n - 1;
                } else {
                    self.selection = self.selection - 1;
                }
                proof {
                    lemma_wrap_step(old(self).cursor(), n as int);
                }
            },
            Event::Down => {
                if self.selection + 1 >= n {
                    self.selection = 0;
                } else {
                    self.selection = self.selection + 1;
                }
                proof {
                    lemma_wrap_step(old(self).cursor(), n as int);
                }
            },
            Event::Left => {
                if self.selection >= 10 {
                    self.selection = self.selection - 10;
                } else {
                    self.selection = 0;
                }
            },
            Event::Right => {
                if self.selection + 10 < n {
                    self.selection = self.selection + 10;
                } else {
                    self.selection = n - 1;
                }
            },
            _ => {},
        }
        None
    }

    /// Install a new result set; the cursor resets to the top. An empty
    /// sequence is valid.
    pub fn replace_items(&mut self, songs: Vec<Song>)
        requires
            songs@.len() <= i32::MAX,
        ensures
            final(self).wf(),
            final(self).items == songs,
            final(self).cursor() == 0,
    {
        self.items = songs;
        self.selection = 0;
    }

    /// A copy of the current result set, for display.
    pub fn get_items(&mut self) -> (r: Vec<Song>)
        ensures
            r@ == old(self).items@,
            *final(self) == *old(self),
    {
        let r = self.items.clone();
        proof {
            assert(r@ =~= self.items@);
        }
        r
    }

    /// The cursor, as the row index the renderer highlights.
    pub fn get_selection(&self) -> (r: i32)
        requires
            self.wf(),
        ensures
            r as int == self.cursor(),
    {
        self.selection as i32
    }

    /// Reorder the list. Only the album key is wired up: it sorts stably by
    /// album (bytewise) with the track number as tie-break; the other keys
    /// leave the list as it is. The cursor is kept as an index, not as "the
    /// same song" — browsing is by position.
    pub fn order_items(&mut self, order: SongOrder)
        requires
            old(self).wf(),
        ensures
            final(self).wf(),
            final(self).cursor() == old(self).cursor(),
            match order {
                SongOrder::Album => {
                    &&& sorted_by(final(self).items@, song_order())
                    &&& final(self).items@.to_multiset() == old(self).items@.to_multiset()
                    &&& final(self).items@.len() == old(self).items@.len()
                    &&& forall|kb: Seq<u8>, kt: i64| #[trigger] key_class(final(self).items@, kb, kt)
                        == key_class(old(self).items@, kb, kt)
                },
                _ => final(self).items == old(self).items,
            },
    {
        match order {
            SongOrder::Album => {
                sort_songs(&mut self.items);
            },
            _ => {},
        }
    }

    /// A panel over the given result set, cursor at the top.
    pub fn new(items: Vec<Song>) -> (s: SongList)
        requires
            items@.len() <= i32::MAX,
        ensures
            s.wf(),
            s.items == items,
            s.cursor() == 0,
    {
        SongList { items, selection: 0 }
    }
}

/// Stepping by one and wrapping stays inside `[0, n)` and agrees with the
/// modular formulas.
pub(crate) proof fn lemma_wrap_step(c: int, n: int)
    requires
        0 < n,
        0 <= c < n,
    ensures
        (c + n - 1) % n == if c == 0 {
            n - 1
        } else {
            c - 1
        },
        (c + 1) % n == if c + 1 >= n {
            0
        } else {
            c + 1
        },
{
    if c == 0 {
        vstd::arithmetic::div_mod::lemma_small_mod((n - 1) as nat, n as nat);
    } else {
        vstd::arithmetic::div_mod::lemma_mod_add_multiples_vanish(c - 1, n);
        vstd::arithmetic::div_mod::lemma_small_mod((c - 1) as nat, n as nat);
    }
    if c + 1 >= n {
        vstd::arithmetic::div_mod::lemma_mod_self_0(n);
    } else {
        vstd::arithmetic::div_mod::lemma_small_mod((c + 1) as nat, n as nat);
    }
}

/// Where the cursor stands after a whole sequence of events on a list of
/// length `n`.
pub open spec fn cursor_after(c: int, n: int, events: Seq<Event>) -> int
    decreases events.len(),
{
    if events.len() == 0 {
        c
    } else {
        cursor_after(list_cursor_step(c, n, events[0]), n, events.drop_first())
    }
}

/// `k` `Down` steps land the cursor on `(c + k) mod n`.
pub proof fn lemma_down_steps(c: int, n: int, k: nat)
    requires
        0 < n,
        0 <= c < n,
    ensures
        cursor_after(c, n, Seq::new(k, |i: int| Event::Down)) == (c + k) % n,
    decreases k,
{
    let events = Seq::new(k, |i: int| Event::Down);
    if k == 0 {
        vstd::arithmetic::div_mod::lemma_small_mod(c as nat, n as nat);
    } else {
        let c2 = (c + 1) % n;
        vstd::arithmetic::div_mod::lemma_mod_bound(c + 1, n);
        assert(events.drop_first() =~= Seq::new((k - 1) as nat, |i: int| Event::Down));
        lemma_down_steps(c2, n, (k - 1) as nat);
        vstd::arithmetic::div_mod::lemma_add_mod_noop_right(c2, k - 1, n);
        vstd::arithmetic::div_mod::lemma_add_mod_noop(c + 1, k - 1, n);
        vstd::arithmetic::div_mod::lemma_mod_twice(c + 1, n);
    }
}

/// `k` `Up` steps land the cursor on `(c - k) mod n`, written with the
/// nonnegative representative `(c + k (n - 1)) mod n`.
pub proof fn lemma_up_steps(c: int, n: int, k: nat)
    requires
        0 < n,
        0 <= c < n,
    ensures
        cursor_after(c, n, Seq::new(k, |i: int| Event::Up)) == (c + k * (n - 1)) % n,
    decreases k,
{
    let events = Seq::new(k, |i: int| Event::Up);
    if k == 0 {
        vstd::arithmetic::div_mod::lemma_small_mod(c as nat, n as nat);
    } else {
        let c2 = (c + n - 1) % n;
        vstd::arithmetic::div_mod::lemma_mod_bound(c + n - 1, n);
        assert(events.drop_first() =~= Seq::new((k - 1) as nat, |i: int| Event::Up));
        lemma_up_steps(c2, n, (k - 1) as nat);
        vstd::arithmetic::div_mod::lemma_add_mod_noop_right(c2, (k - 1) * (n - 1), n);
        vstd::arithmetic::div_mod::lemma_add_mod_noop(c + n - 1, (k - 1) * (n - 1), n);
        vstd::arithmetic::div_mod::lemma_mod_twice(c + n - 1, n);
        assert(c + n - 1 + (k - 1) * (n - 1) == c + k * (n - 1)) by (nonlinear_arith);
    }
}

/// No sequence of events ever moves the cursor outside `[0, n - 1]`.
pub proof fn lemma_cursor_in_range(c: int, n: int, events: Seq<Event>)
    requires
        0 < n,
        0 <= c < n,
    ensures
        0 <= cursor_after(c, n, events) < n,
    decreases events.len(),
{
    if events.len() > 0 {
        let c2 = list_cursor_step(c, n, events[0]);
        assert(0 <= c2 < n) by {
            vstd::arithmetic::div_mod::lemma_mod_bound(c + n - 1, n);
            vstd::arithmetic::div_mod::lemma_mod_bound(c + 1, n);
        }
        lemma_cursor_in_range(c2, n, events.drop_first());
    }
}

} // verus!
