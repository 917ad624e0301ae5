//! The playback queue panel: an ordered queue of songs, a selection cursor,
//! and an independent "currently playing" pointer.
//!
//! Every mutation keeps both indices valid, and keeps the currently-playing
//! pointer on the same logical song — or drops it when that song leaves the
//! queue.

use std::collections::VecDeque;
use vstd::prelude::*;
use crate::command::{Event, Response};
use crate::song::Song;

verus! {

/// The playback queue. `selection` is the row the user is highlighting;
/// `currently_playing` is the row whose song the external player is rendering.
pub struct SongQueue {
    pub queue: VecDeque<Song>,
    pub selection: Option<u32>,
    pub currently_playing: Option<u32>,
}

/// Both indices, when present, are valid rows; an empty queue has neither.
pub open spec fn queue_wf(q: SongQueue) -> bool {
    &&& q.queue@.len() <= u32::MAX
    &&& (q.selection matches Some(v) ==> (v as int) < q.queue@.len())
    &&& (q.currently_playing matches Some(v) ==> (v as int) < q.queue@.len())
    &&& (q.queue@.len() == 0 ==> q.selection is None && q.currently_playing is None)
}

/// The selection after one downward step: wraps over `[0, n-1]`, and starts
/// at the top of a non-empty queue when it was absent.
pub open spec fn spec_select_down(sel: Option<u32>, n: int) -> Option<u32> {
    match sel {
        Some(x) => if x + 1 >= n {
            Some(0u32)
        } else {
            Some((x + 1) as u32)
        },
        None => if n > 0 {
            Some(0u32)
        } else {
            None
        },
    }
}

/// The selection after one upward step: wraps over `[0, n-1]`, and starts at
/// the top of a non-empty queue when it was absent.
pub open spec fn spec_select_up(sel: Option<u32>, n: int) -> Option<u32> {
    match sel {
        Some(x) => if x == 0 {
            Some((n - 1) as u32)
        } else {
            Some((x - 1) as u32)
        },
        None => if n > 0 {
            Some(0u32)
        } else {
            None
        },
    }
}

/// The sequence with rows `i` and `j` exchanged.
pub open spec fn swapped(s: Seq<Song>, i: int, j: int) -> Seq<Song> {
    s.update(i, s[j]).update(j, s[i])
}

/// Where an index pointing into rows `i` or `j` moves when the two rows are
/// exchanged; any other index stays put.
pub open spec fn swap_follow(cp: Option<u32>, i: int, j: int) -> Option<u32> {
    match cp {
        Some(c) => if c as int == i {
            Some(j as u32)
        } else if c as int == j {
            Some(i as u32)
        } else {
            Some(c)
        },
        None => None,
    }
}

/// Where the currently-playing index moves when row `idx` is deleted: indices
/// past it slide down, the deleted row's own index is dropped.
pub open spec fn cp_after_remove(cp: Option<u32>, idx: int) -> Option<u32> {
    match cp {
        Some(c) => if c as int > idx {
            Some((c - 1) as u32)
        } else if c as int == idx {
            None
        } else {
            Some(c)
        },
        None => None,
    }
}

/// Where the selection moves when the queue shrinks to `new_len` rows: clamped
/// to the new last row, absent when the queue emptied.
pub open spec fn sel_after_remove(sel: Option<u32>, new_len: int) -> Option<u32> {
    match sel {
        Some(v) => if new_len == 0 {
            None
        } else if v as int >= new_len {
            Some((new_len - 1) as u32)
        } else {
            Some(v)
        },
        None => None,
    }
}

/// How one upward selection step relates the queue before and after.
pub open spec fn selects_up(pre: SongQueue, post: SongQueue) -> bool {
    &&& post.queue == pre.queue
    &&& post.currently_playing == pre.currently_playing
    &&& post.selection == spec_select_up(pre.selection, pre.queue@.len() as int)
}

/// How one downward selection step relates the queue before and after.
pub open spec fn selects_down(pre: SongQueue, post: SongQueue) -> bool {
    &&& post.queue == pre.queue
    &&& post.currently_playing == pre.currently_playing
    &&& post.selection == spec_select_down(pre.selection, pre.queue@.len() as int)
}

/// How exchanging the selected row with its upper neighbour relates the queue
/// before and after: clamped at the top (a no-op there), the selection follows
/// the moved song, and the currently-playing index follows whichever of the
/// two rows it named.
pub open spec fn swaps_up(pre: SongQueue, post: SongQueue) -> bool {
    match pre.selection {
        Some(x) => if x > 0 {
            &&& post.queue@ == swapped(pre.queue@, x as int - 1, x as int)
            &&& post.selection == Some((x - 1) as u32)
            &&& post.currently_playing == swap_follow(pre.currently_playing, x as int - 1, x as int)
        } else {
            post == pre
        },
        None => post == pre,
    }
}

/// How exchanging the selected row with its lower neighbour relates the queue
/// before and after: clamped at the bottom (a no-op there).
pub open spec fn swaps_down(pre: SongQueue, post: SongQueue) -> bool {
    match pre.selection {
        Some(x) => if x as int + 1 < pre.queue@.len() {
            &&& post.queue@ == swapped(pre.queue@, x as int, x as int + 1)
            &&& post.selection == Some((x + 1) as u32)
            &&& post.currently_playing == swap_follow(pre.currently_playing, x as int, x as int + 1)
        } else {
            post == pre
        },
        None => post == pre,
    }
}

/// How deleting row `idx` relates the queue before and after: out-of-range
/// deletions (an empty queue among them) change nothing.
pub open spec fn removes_at(pre: SongQueue, post: SongQueue, idx: int) -> bool {
    if 0 <= idx < pre.queue@.len() {
        &&& post.queue@ == pre.queue@.remove(idx)
        &&& post.currently_playing == cp_after_remove(pre.currently_playing, idx)
        &&& post.selection == sel_after_remove(pre.selection, pre.queue@.len() - 1)
    } else {
        post == pre
    }
}

/// How one event relates the queue before and after: `Up`/`Down` move the
/// selection, `Left`/`Right` exchange the selected row with its neighbour,
/// `Back` deletes the selected row, `Accept` commits the selection to playback
/// and asks the router to play that song, and anything else changes nothing.
pub open spec fn queue_command(pre: SongQueue, post: SongQueue, event: Event, r: Option<
    Response,
>) -> bool {
    match event {
        Event::Up => selects_up(pre, post) && r is None,
        Event::Down => selects_down(pre, post) && r is None,
        Event::Left => swaps_up(pre, post) && r is None,
        Event::Right => swaps_down(pre, post) && r is None,
        Event::Back => r is None && match pre.selection {
            Some(v) => removes_at(pre, post, v as int),
            None => post == pre,
        },
        Event::Accept => match pre.selection {
            Some(v) => {
                &&& post.queue == pre.queue
                &&& post.selection == pre.selection
                &&& post.currently_playing == Some(v)
                &&& r == Some(Response::PlaySong(pre.queue@[v as int]))
            },
            None => post == pre && r is None,
        },
        _ => post == pre && r is None,
    }
}

impl SongQueue {
    /// Shorthand for [`queue_wf`] on this value.
    pub open spec fn wf(&self) -> bool {
        queue_wf(*self)
    }

    /// A copy of the song under the selection, if any.
    pub fn get_selected_song(&self) -> (r: Option<Song>)
        requires
            self.wf(),
        ensures
            match self.selection {
                Some(v) => r == Some(self.queue@[v as int]),
                None => r is None,
            },
    {
        match self.selection {
            Some(v) => Some(self.queue[v as usize].clone()),
            None => None,
        }
    }

    /// A copy of the song under the currently-playing pointer, if any.
    pub fn get_currently_playing_song(&self) -> (r: Option<Song>)
        requires
            self.wf(),
        ensures
            match self.currently_playing {
                Some(v) => r == Some(self.queue@[v as int]),
                None => r is None,
            },
    {
        match self.currently_playing {
            Some(v) => Some(self.queue[v as usize].clone()),
            None => None,
        }
    }

    /// Move the selection one row down, wrapping at the bottom.
    pub fn select_down(&mut self)
        requires
            old(self).wf(),
        ensures
            final(self).wf(),
            selects_down(*old(self), *final(self)),
    {
        let n = self.queue.len();
        self.selection = match self.selection {
            Some(x) => {
                if x as usize + 1 >= n {
                    Some(0)
                } else {
                    Some(x + 1)
                }
            },
            None => {
                if n > 0 {
                    Some(0)
                } else {
                    None
                }
            },
        };
    }

    /// Move the selection one row up, wrapping at the top.
    pub fn select_up(&mut self)
        requires
            old(self).wf(),
        ensures
            final(self).wf(),
            selects_up(*old(self), *final(self)),
    {
        let n = self.queue.len();
        self.selection = match self.selection {
            Some(x) => {
                if x == 0 {
                    Some((n - 1) as u32)
                } else {
                    Some(x - 1)
                }
            },
            None => {
                if n > 0 {
                    Some(0)
                } else {
                    None
                }
            },
        };
    }

    /// Exchange the selected row with the one above it; a no-op at the top or
    /// without a selection. The currently-playing pointer keeps naming the
    /// same song.
    pub fn swap_up(&mut self)
        requires
            old(self).wf(),
        ensures
            final(self).wf(),
            swaps_up(*old(self), *final(self)),
            match old(self).currently_playing {
                Some(c) => final(self).currently_playing matches Some(c2)
                    && final(self).queue@[c2 as int] == old(self).queue@[c as int],
                None => true,
            },
    {
        let sel = self.selection;
        match sel {
            Some(x) => {
                if x > 0 {
                    self.swap_adjacent((x - 1) as usize);
                    self.selection = Some(x - 1);
                    self.currently_playing = match self.currently_playing {
                        Some(c) => {
                            if c == x - 1 {
                                Some(x)
                            } else if c == x {
                                Some(x - 1)
                            } else {
                                Some(c)
                            }
                        },
                        None => None,
                    };
                }
            },
            None => {},
        }
    }

    /// Exchange the selected row with the one below it; a no-op at the bottom
    /// or without a selection. The currently-playing pointer keeps naming the
    /// same song.
    pub fn swap_down(&mut self)
        requires
            old(self).wf(),
        ensures
            final(self).wf(),
            swaps_down(*old(self), *final(self)),
            match old(self).currently_playing {
                Some(c) => final(self).currently_playing matches Some(c2)
                    && final(self).queue@[c2 as int] == old(self).queue@[c as int],
                None => true,
            },
    {
        let sel = self.selection;
        match sel {
            Some(x) => {
                if (x as usize) + 1 < self.queue.len() {
                    self.swap_adjacent(x as usize);
                    self.selection = Some(x + 1);
                    self.currently_playing = match self.currently_playing {
                        Some(c) => {
                            if c == x {
                                Some(x + 1)
                            } else if c == x + 1 {
                                Some(x)
                            } else {
                                Some(c)
                            }
                        },
                        None => None,
                    };
                }
            },
            None => {},
        }
    }

    /// Exchange rows `i` and `i + 1` of the queue, moving nothing else.
    fn swap_adjacent(&mut self, i: usize)
        requires
            i + 1 < old(self).queue@.len(),
            old(self).queue@.len() <= u32::MAX,
        ensures
            final(self).queue@ == swapped(old(self).queue@, i as int, i as int + 1),
            final(self).selection == old(self).selection,
            final(self).currently_playing == old(self).currently_playing,
    {
        let moved = self.queue.remove(i).unwrap();
        self.queue.insert(i + 1, moved);
        proof {
            assert(self.queue@ =~= swapped(old(self).queue@, i as int, i as int + 1));
        }
    }

    /// Append a song at the back; neither index moves.
    pub fn push(&mut self, song: Song)
        requires
            old(self).wf(),
            old(self).queue@.len() < u32::MAX,
        ensures
            final(self).wf(),
            final(self).queue@ == old(self).queue@.push(song),
            final(self).selection == old(self).selection,
            final(self).currently_playing == old(self).currently_playing,
    {
        self.queue.push_back(song);
    }

    /// Delete the row at `idx`; out of range (an empty queue among the cases)
    /// is a no-op. The currently-playing pointer keeps naming the same song,
    /// or goes absent when that song was the one deleted; the selection clamps
    /// into the shorter queue.
    pub fn remove(&mut self, idx: usize)
        requires
            old(self).wf(),
        ensures
            final(self).wf(),
            removes_at(*old(self), *final(self), idx as int),
            match old(self).currently_playing {
                Some(c) => c as int != idx as int ==> (final(self).currently_playing
                    matches Some(c2)
                    && final(self).queue@[c2 as int] == old(self).queue@[c as int]),
                None => true,
            },
            old(self).currently_playing matches Some(c) && c as int == idx as int && idx
                < old(self).queue@.len() ==> final(self).currently_playing is None,
    {
        let n = self.queue.len();
        if idx >= n {
            return ;
        }
        let _ = self.queue.remove(idx);
        self.currently_playing = match self.currently_playing {
            Some(c) => {
                if (c as usize) > idx {
                    Some(c - 1)
                } else if (c as usize) == idx {
                    None
                } else {
                    Some(c)
                }
            },
            None => None,
        };
        let new_len = self.queue.len();
        self.selection = match self.selection {
            Some(v) => {
                if new_len == 0 {
                    None
                } else if (v as usize) >= new_len {
                    Some((new_len - 1) as u32)
                } else {
                    Some(v)
                }
            },
            None => None,
        };
    }

    /// Drop the front row. The router calls this when the player reports the
    /// current song finished; the indices move by the same rules as a deletion
    /// at row zero. A no-op on an empty queue.
    pub fn pop_front(&mut self)
        requires
            old(self).wf(),
        ensures
            final(self).wf(),
            removes_at(*old(self), *final(self), 0),
            match old(self).currently_playing {
                Some(c) => c > 0 ==> (final(self).currently_playing matches Some(c2)
                    && final(self).queue@[c2 as int] == old(self).queue@[c as int]),
                None => true,
            },
            old(self).currently_playing == Some(0u32) ==> final(self).currently_playing is None,
    {
        self.remove(0);
    }

    /// Consume one event: `Up`/`Down` move the selection, `Left`/`Right`
    /// exchange the selected row with its neighbour, `Back` deletes the
    /// selected row, and `Accept` commits the selection to playback and asks
    /// the router to play that song. Everything is a no-op on an empty queue.
    pub fn command(&mut self, event: &Event) -> (r: Option<Response>)
        requires
            old(self).wf(),
        ensures
            final(self).wf(),
            queue_command(*old(self), *final(self), *event, r),
    {
        match event {
            Event::Up => {
                self.select_up();
                None
            },
            Event::Down => {
                self.select_down();
                None
            },
            Event::Left => {
                self.swap_up();
                None
            },
            Event::Right => {
                self.swap_down();
                None
            },
            Event::Back => {
                let sel = self.selection;
                match sel {
                    Some(v) => {
                        self.remove(v as usize);
                    },
                    None => {},
                }
                None
            },
            Event::Accept => {
                let sel = self.selection;
                match sel {
                    Some(v) => {
                        self.currently_playing = Some(v);
                        Some(Response::PlaySong(self.queue[v as usize].clone()))
                    },
                    None => None,
                }
            },
            _ => None,
        }
    }

    /// The selection index, for the renderer.
    pub fn get_selection(&self) -> (r: Option<u32>)
        ensures
            r == self.selection,
    {
        self.selection
    }

    /// The currently-playing index, for the renderer.
    pub fn get_currently_playing(&self) -> (r: Option<u32>)
        ensures
            r == self.currently_playing,
    {
        self.currently_playing
    }

    /// Point the currently-playing pointer at row `idx`; out of range is a
    /// no-op.
    pub fn set_currently_playing(&mut self, idx: u32)
        requires
            old(self).wf(),
        ensures
            final(self).wf(),
            final(self).queue == old(self).queue,
            final(self).selection == old(self).selection,
            (idx as int) < old(self).queue@.len() ==> final(self).currently_playing == Some(idx),
            (idx as int) >= old(self).queue@.len()
                ==> final(self).currently_playing == old(self).currently_playing,
    {
        if (idx as usize) >= self.queue.len() {
            return ;
        }
        self.currently_playing = Some(idx);
    }

    /// An empty queue: no rows, no selection, nothing playing.
    pub fn new() -> (q: SongQueue)
        ensures
            q.wf(),
            q.queue@.len() == 0,
            q.selection is None,
            q.currently_playing is None,
    {
        SongQueue { queue: VecDeque::new(), selection: None, currently_playing: None }
    }
}

} // verus!
