//! The panel router: one focus selector over the four panels, one dispatch
//! function per input event, and one interpreter for the responses the panels
//! produce.
//!
//! Panels never call each other; every cross-panel effect flows through a
//! [`Response`] interpreted here, and everything the outside world must do
//! (play, stop, run a query) comes back as an [`EffectRequest`] for the
//! caller's collaborators.

use vstd::prelude::*;
use vstd::relations::sorted_by;
use crate::command::{Event, Response};
use crate::navigator::{nav_command, Navigator};
use crate::order::{key_class, song_order};
use crate::search::{search_command, Search};
use crate::song::Song;
use crate::songdb::Query;
use crate::songlist::{list_command, SongList, SongOrder};
use crate::songqueue::{queue_command, removes_at, SongQueue};

verus! {

/// Which panel currently has focus.
#[derive(Clone, Copy, PartialEq, Eq, Structural, Debug)]
pub enum SelectedPanel {
    SongList,
    Nav,
    Queue,
    Search,
}

/// What the router asks its external collaborators to do: the player plays a
/// file or stops, the store runs a query whose results come back through
/// [`AppState::install_results`].
pub enum EffectRequest {
    PlayFile(String),
    StopPlayback,
    RunQuery(Query),
    RunTextQuery(String),
}

/// The whole interactive state: the four panels and the focus selector. One
/// loop iteration dispatches at most one event into it and interprets at most
/// one response out of it.
pub struct AppState {
    pub songlist: SongList,
    pub navigator: Navigator,
    pub queue: SongQueue,
    pub search: Search,
    pub panel: SelectedPanel,
}

impl AppState {
    /// Every panel's own invariant holds.
    pub open spec fn wf(&self) -> bool {
        &&& self.songlist.wf()
        &&& self.navigator.wf()
        &&& self.queue.wf()
    }

    /// A fresh session: an empty song list, the fixed category tree, an empty
    /// queue, the placeholder search text, focus on the song list.
    pub fn new() -> (s: AppState)
        ensures
            s.wf(),
            s.songlist.items@.len() == 0,
            s.queue.queue@.len() == 0,
            s.queue.selection is None,
            s.queue.currently_playing is None,
            s.panel == SelectedPanel::SongList,
    {
        AppState {
            songlist: SongList::new(Vec::new()),
            navigator: Navigator::new(),
            queue: SongQueue::new(),
            search: Search::new(),
            panel: SelectedPanel::SongList,
        }
    }

    /// Move focus; no panel state changes.
    pub fn set_focus(&mut self, panel: SelectedPanel)
        requires
            old(self).wf(),
        ensures
            final(self).wf(),
            final(self).panel == panel,
            final(self).songlist == old(self).songlist,
            final(self).navigator == old(self).navigator,
            final(self).queue == old(self).queue,
            final(self).search == old(self).search,
    {
        self.panel = panel;
    }

    /// Deliver one event to the focused panel; the other three panels are
    /// untouched. The song list produces no response of its own, so on
    /// `Accept` the router reads its cursor and asks to queue the selected
    /// song.
    pub fn dispatch(&mut self, event: &Event) -> (r: Option<Response>)
        requires
            old(self).wf(),
        ensures
            final(self).wf(),
            final(self).panel == old(self).panel,
            match old(self).panel {
                SelectedPanel::SongList => {
                    &&& final(self).navigator == old(self).navigator
                    &&& final(self).queue == old(self).queue
                    &&& final(self).search == old(self).search
                    &&& list_command(old(self).songlist, final(self).songlist, *event)
                    &&& match *event {
                        Event::Accept => if old(self).songlist.items@.len() > 0 {
                            r == Some(
                                Response::QueueSong(
                                    old(self).songlist.items@[old(self).songlist.cursor()],
                                ),
                            )
                        } else {
                            r is None
                        },
                        _ => r is None,
                    }
                },
                SelectedPanel::Nav => {
                    &&& final(self).songlist == old(self).songlist
                    &&& final(self).queue == old(self).queue
                    &&& final(self).search == old(self).search
                    &&& nav_command(old(self).navigator, final(self).navigator, *event, r)
                },
                SelectedPanel::Queue => {
                    &&& final(self).songlist == old(self).songlist
                    &&& final(self).navigator == old(self).navigator
                    &&& final(self).search == old(self).search
                    &&& queue_command(old(self).queue, final(self).queue, *event, r)
                },
                SelectedPanel::Search => {
                    &&& final(self).songlist == old(self).songlist
                    &&& final(self).navigator == old(self).navigator
                    &&& final(self).queue == old(self).queue
                    &&& search_command(old(self).search, final(self).search, *event, r)
                },
            },
    {
        match self.panel {
            SelectedPanel::SongList => {
                let inner = self.songlist.command(event);
                match event {
                    Event::Accept => {
                        if self.songlist.items.len() > 0 {
                            let idx = self.songlist.get_selection() as usize;
                            Some(Response::QueueSong(self.songlist.items[idx].clone()))
                        } else {
                            inner
                        }
                    },
                    _ => inner,
                }
            },
            SelectedPanel::Nav => self.navigator.command(event),
            SelectedPanel::Queue => self.queue.command(event),
            SelectedPanel::Search => self.search.command(event),
        }
    }

    /// Interpret one response, in the same iteration it was produced: queueing
    /// a song is a panel effect applied here; everything else is handed back
    /// as a request on an external collaborator.
    pub fn apply_response(&mut self, resp: Response) -> (eff: Option<EffectRequest>)
        requires
            old(self).wf(),
            resp matches Response::QueueSong(_) ==> old(self).queue.queue@.len() < u32::MAX,
        ensures
            final(self).wf(),
            final(self).panel == old(self).panel,
            final(self).songlist == old(self).songlist,
            final(self).navigator == old(self).navigator,
            final(self).search == old(self).search,
            match resp {
                Response::QueueSong(s) => {
                    &&& final(self).queue.queue@ == old(self).queue.queue@.push(s)
                    &&& final(self).queue.selection == old(self).queue.selection
                    &&& final(self).queue.currently_playing == old(self).queue.currently_playing
                    &&& eff is None
                },
                Response::PlaySong(s) => final(self).queue == old(self).queue && eff == Some(
                    EffectRequest::PlayFile(s.path),
                ),
                Response::StopSong => final(self).queue == old(self).queue && eff == Some(
                    EffectRequest::StopPlayback,
                ),
                Response::Query(q) => final(self).queue == old(self).queue && eff == Some(
                    EffectRequest::RunQuery(q),
                ),
                Response::QueryAny(t) => final(self).queue == old(self).queue && eff == Some(
                    EffectRequest::RunTextQuery(t),
                ),
            },
    {
        match resp {
            Response::QueueSong(s) => {
                self.queue.push(s);
                None
            },
            Response::PlaySong(s) => Some(EffectRequest::PlayFile(s.path)),
            Response::StopSong => Some(EffectRequest::StopPlayback),
            Response::Query(q) => Some(EffectRequest::RunQuery(q)),
            Response::QueryAny(t) => Some(EffectRequest::RunTextQuery(t)),
        }
    }

    /// Install the results a query brought back: they replace the song list,
    /// stably ordered by album, with the cursor at the top.
    pub fn install_results(&mut self, songs: Vec<Song>)
        requires
            old(self).wf(),
            songs@.len() <= i32::MAX,
        ensures
            final(self).wf(),
            final(self).panel == old(self).panel,
            final(self).navigator == old(self).navigator,
            final(self).queue == old(self).queue,
            final(self).search == old(self).search,
            sorted_by(final(self).songlist.items@, song_order()),
            final(self).songlist.items@.to_multiset() == songs@.to_multiset(),
            forall|kb: Seq<u8>, kt: i64| #[trigger] key_class(final(self).songlist.items@, kb, kt)
                == key_class(songs@, kb, kt),
            final(self).songlist.cursor() == 0,
    {
        self.songlist.replace_items(songs);
        self.songlist.order_items(SongOrder::Album);
    }

    /// The player reported the current song finished: drop the front of the
    /// queue and hand back the song now marked playing, if any, so the caller
    /// can start it.
    pub fn song_finished(&mut self) -> (next: Option<Song>)
        requires
            old(self).wf(),
        ensures
            final(self).wf(),
            final(self).panel == old(self).panel,
            final(self).songlist == old(self).songlist,
            final(self).navigator == old(self).navigator,
            final(self).search == old(self).search,
            removes_at(old(self).queue, final(self).queue, 0),
            next == match final(self).queue.currently_playing {
                Some(c) => Some(final(self).queue.queue@[c as int]),
                None => None::<Song>,
            },
    {
        self.queue.pop_front();
        self.queue.get_currently_playing_song()
    }

    /// Start the queue from its front, as the dedicated play keystroke asks:
    /// mark row zero playing and hand its song back; a no-op on an empty
    /// queue.
    pub fn play_front(&mut self) -> (r: Option<Song>)
        requires
            old(self).wf(),
        ensures
            final(self).wf(),
            final(self).panel == old(self).panel,
            final(self).songlist == old(self).songlist,
            final(self).navigator == old(self).navigator,
            final(self).search == old(self).search,
            final(self).queue.queue == old(self).queue.queue,
            final(self).queue.selection == old(self).queue.selection,
            old(self).queue.queue@.len() > 0 ==> final(self).queue.currently_playing == Some(0u32)
                && r == Some(old(self).queue.queue@[0]),
            old(self).queue.queue@.len() == 0 ==> *final(self) == *old(self) && r is None,
    {
        if self.queue.queue.len() > 0 {
            let song = self.queue.queue[0].clone();
            self.queue.set_currently_playing(0);
            Some(song)
        } else {
            None
        }
    }
}

} // verus!
