//! The category navigator panel: a two-level hierarchical cursor over a fixed
//! category row (album / artist / genre), each with a list of subcategory
//! labels fetched once from storage.

use vstd::prelude::*;
use crate::command::{Event, Response};
use crate::songdb::Query;
use crate::songlist::lemma_wrap_step;

verus! {

/// One category row: its display name and the storage column it queries.
pub struct Category {
    pub name: String,
    pub table: String,
}

/// The navigator's focus: either a category row itself, or the `j`-th
/// subcategory row of category `i`. The two-state shape keeps an absent
/// subcategory index unrepresentable where one would be out of range.
#[derive(Clone, Copy)]
pub enum NavPos {
    OnCategory(usize),
    OnSubcategory(usize, usize),
}

/// The two-level cursor over the category tree. Each entry pairs a category
/// with an expansion flag and its subcategory labels; the categories are fixed
/// at construction, the labels are appended once from storage.
pub struct Navigator {
    pub items: Vec<(Category, bool, Vec<String>)>,
    pub selection: NavPos,
}

/// How many subcategory rows each category has.
pub open spec fn sub_counts(items: Seq<(Category, bool, Vec<String>)>) -> Seq<int> {
    items.map_values(|it: (Category, bool, Vec<String>)| it.2@.len() as int)
}

/// A focus is valid when its category index is in range and, on a subcategory
/// row, the subcategory index is in range for that category.
pub open spec fn pos_wf(pos: NavPos, counts: Seq<int>) -> bool {
    match pos {
        NavPos::OnCategory(i) => (i as int) < counts.len(),
        NavPos::OnSubcategory(i, j) => (i as int) < counts.len() && (j as int) < counts[i as int],
    }
}

/// The category index the focus sits in.
pub open spec fn cat_of(pos: NavPos) -> int {
    match pos {
        NavPos::OnCategory(i) => i as int,
        NavPos::OnSubcategory(i, _) => i as int,
    }
}

/// One upward step: from a category row, enter its first subcategory when it
/// has one; within subcategories, step back and clamp at the first (no
/// cross-category wrap).
pub open spec fn nav_step_up(pos: NavPos, counts: Seq<int>) -> NavPos {
    match pos {
        NavPos::OnCategory(i) => if counts[i as int] > 0 {
            NavPos::OnSubcategory(i, 0)
        } else {
            pos
        },
        NavPos::OnSubcategory(i, j) => if j > 0 {
            NavPos::OnSubcategory(i, (j - 1) as usize)
        } else {
            NavPos::OnSubcategory(i, 0)
        },
    }
}

/// One downward step: from a category row, enter its first subcategory when it
/// has one; within subcategories, step forward and clamp at the last (no
/// cross-category wrap).
pub open spec fn nav_step_down(pos: NavPos, counts: Seq<int>) -> NavPos {
    match pos {
        NavPos::OnCategory(i) => if counts[i as int] > 0 {
            NavPos::OnSubcategory(i, 0)
        } else {
            pos
        },
        NavPos::OnSubcategory(i, j) => if j + 1 < counts[i as int] {
            NavPos::OnSubcategory(i, (j + 1) as usize)
        } else {
            NavPos::OnSubcategory(i, j)
        },
    }
}

/// Switching to category `i2`: focus its first subcategory when it has one,
/// else its category row.
pub open spec fn enter_category(i2: int, counts: Seq<int>) -> NavPos {
    if counts[i2] > 0 {
        NavPos::OnSubcategory(i2 as usize, 0)
    } else {
        NavPos::OnCategory(i2 as usize)
    }
}

/// One step to the previous category, wrapping around the category row.
pub open spec fn nav_step_left(pos: NavPos, counts: Seq<int>) -> NavPos {
    enter_category((cat_of(pos) + counts.len() - 1) % (counts.len() as int), counts)
}

/// One step to the next category, wrapping around the category row.
pub open spec fn nav_step_right(pos: NavPos, counts: Seq<int>) -> NavPos {
    enter_category((cat_of(pos) + 1) % (counts.len() as int), counts)
}

/// Where the focus lands after one event; events other than the four arrows
/// leave it alone.
pub open spec fn nav_step(pos: NavPos, counts: Seq<int>, event: Event) -> NavPos {
    match event {
        Event::Up => nav_step_up(pos, counts),
        Event::Down => nav_step_down(pos, counts),
        Event::Left => nav_step_left(pos, counts),
        Event::Right => nav_step_right(pos, counts),
        _ => pos,
    }
}

/// The field query the focused row stands for: the focused subcategory's label
/// constrains the column its category queries; a bare category row gives the
/// unconstrained query.
pub open spec fn query_of(nav: Navigator) -> Query {
    match nav.selection {
        NavPos::OnCategory(_) => Query::spec_empty(),
        NavPos::OnSubcategory(i, j) => {
            let label = nav.items@[i as int].2@[j as int];
            let table = nav.items@[i as int].0.table;
            if table@ == "Album"@ {
                Query { album: Some(label), ..Query::spec_empty() }
            } else if table@ == "Artist"@ {
                Query { artist: Some(label), ..Query::spec_empty() }
            } else if table@ == "Genre"@ {
                Query { genre: Some(label), ..Query::spec_empty() }
            } else {
                Query::spec_empty()
            }
        },
    }
}

/// How one event relates the panel before and after: the arrows move the
/// focus by [`nav_step`], `Accept` reads the focused row out as a field query,
/// and the category tree itself never changes.
pub open spec fn nav_command(pre: Navigator, post: Navigator, event: Event, r: Option<
    Response,
>) -> bool {
    &&& post.items == pre.items
    &&& post.selection == nav_step(pre.selection, sub_counts(pre.items@), event)
    &&& match event {
        Event::Accept => r == Some(Response::Query(query_of(pre))),
        _ => r is None,
    }
}

impl Navigator {
    /// There is at least one category, every index fits a `u32`, and the focus
    /// is a valid row.
    pub open spec fn wf(&self) -> bool {
        &&& self.items@.len() >= 1
        &&& self.items@.len() <= u32::MAX
        &&& (forall|i: int|
            0 <= i < self.items@.len() ==> (#[trigger] self.items@[i]).2@.len() <= u32::MAX)
        &&& pos_wf(self.selection, sub_counts(self.items@))
    }

    /// Step the focus up; see [`nav_step_up`].
    pub fn back(&mut self)
        requires
            old(self).wf(),
        ensures
            final(self).wf(),
            final(self).items == old(self).items,
            final(self).selection == nav_step_up(old(self).selection, sub_counts(old(self).items@)),
    {
        let sel = self.selection;
        match sel {
            NavPos::OnCategory(i) => {
                let cat_size = self.items[i].2.len();
                if cat_size > 0 {
                    self.selection = NavPos::OnSubcategory(i, 0);
                }
            },
            NavPos::OnSubcategory(i, j) => {
                if j > 0 {
                    self.selection = NavPos::OnSubcategory(i, j - 1);
                } else {
                    self.selection = NavPos::OnSubcategory(i, 0);
                }
            },
        }
    }

    /// Step the focus down; see [`nav_step_down`].
    pub fn next(&mut self)
        requires
            old(self).wf(),
        ensures
            final(self).wf(),
            final(self).items == old(self).items,
            final(self).selection == nav_step_down(
                old(self).selection,
                sub_counts(old(self).items@),
            ),
    {
        let sel = self.selection;
        match sel {
            NavPos::OnCategory(i) => {
                let cat_size = self.items[i].2.len();
                if cat_size > 0 {
                    self.selection = NavPos::OnSubcategory(i, 0);
                }
            },
            NavPos::OnSubcategory(i, j) => {
                let cat_size = self.items[i].2.len();
                if j + 1 < cat_size {
                    self.selection = NavPos::OnSubcategory(i, j + 1);
                }
            },
        }
    }

    /// Switch to the previous category, wrapping; see [`nav_step_left`].
    pub fn back_category(&mut self)
        requires
            old(self).wf(),
        ensures
            final(self).wf(),
            final(self).items == old(self).items,
            final(self).selection == nav_step_left(
                old(self).selection,
                sub_counts(old(self).items@),
            ),
    {
        let n = self.items.len();
        let i = match self.selection {
            NavPos::OnCategory(i) => i,
            NavPos::OnSubcategory(i, _) => i,
        };
        let i2 = if i == 0 {
            n - 1
        } else {
            i - 1
        };
        proof {
            lemma_wrap_step(i as int, n as int);
        }
        self.enter(i2);
    }

    /// Switch to the next category, wrapping; see [`nav_step_right`].
    pub fn next_category(&mut self)
        requires
            old(self).wf(),
        ensures
            final(self).wf(),
            final(self).items == old(self).items,
            final(self).selection == nav_step_right(
                old(self).selection,
                sub_counts(old(self).items@),
            ),
    {
        let n = self.items.len();
        let i = match self.selection {
            NavPos::OnCategory(i) => i,
            NavPos::OnSubcategory(i, _) => i,
        };
        let i2 = if i + 1 >= n {
            0
        } else {
            i + 1
        };
        proof {
            lemma_wrap_step(i as int, n as int);
        }
        self.enter(i2);
    }

    /// Focus category `i2`: its first subcategory when it has one, else the
    /// category row itself.
    fn enter(&mut self, i2: usize)
        requires
            old(self).wf(),
            (i2 as int) < old(self).items@.len(),
        ensures
            final(self).wf(),
            final(self).items == old(self).items,
            final(self).selection == enter_category(i2 as int, sub_counts(old(self).items@)),
    {
        let cat_size = self.items[i2].2.len();
        if cat_size > 0 {
            self.selection = NavPos::OnSubcategory(i2, 0);
        } else {
            self.selection = NavPos::OnCategory(i2);
        }
    }

    /// Consume one event: the arrows move the focus, `Accept` asks the router
    /// to run the focused row's query, everything else is a no-op.
    pub fn command(&mut self, event: &Event) -> (r: Option<Response>)
        requires
            old(self).wf(),
        ensures
            final(self).wf(),
            nav_command(*old(self), *final(self), *event, r),
    {
        match event {
            Event::Up => {
                self.back();
                None
            },
            Event::Down => {
                self.next();
                None
            },
            Event::Right => {
                self.next_category();
                None
            },
            Event::Left => {
                self.back_category();
                None
            },
            Event::Accept => Some(Response::Query(self.query())),
            _ => None,
        }
    }

    /// Build the field query the focused row stands for; see [`query_of`].
    pub fn query(&self) -> (q: Query)
        requires
            self.wf(),
        ensures
            q == query_of(*self),
    {
        match self.selection {
            NavPos::OnCategory(_) => Query::empty(),
            NavPos::OnSubcategory(i, j) => {
                let label = self.items[i].2[j].clone();
                let mut q = Query::empty();
                if self.items[i].0.table == String::from_str("Album") {
                    q.album = Some(label);
                } else if self.items[i].0.table == String::from_str("Artist") {
                    q.artist = Some(label);
                } else if self.items[i].0.table == String::from_str("Genre") {
                    q.genre = Some(label);
                }
                q
            },
        }
    }

    /// Append labels from storage to category `idx`'s subcategory list,
    /// draining `content`; out of range is a no-op.
    pub fn fill_category(&mut self, idx: usize, content: &mut Vec<String>)
        requires
            old(self).wf(),
            (idx as int) < old(self).items@.len() ==> old(self).items@[idx as int].2@.len() + old(
                content,
            )@.len() <= u32::MAX,
        ensures
            final(self).wf(),
            final(self).selection == old(self).selection,
            (idx as int) < old(self).items@.len() ==> {
                &&& final(self).items@[idx as int].2@ == old(self).items@[idx as int].2@ + old(
                    content,
                )@
                &&& final(self).items@[idx as int].0 == old(self).items@[idx as int].0
                &&& final(self).items@[idx as int].1 == old(self).items@[idx as int].1
                &&& final(self).items@.len() == old(self).items@.len()
                &&& (forall|k: int|
                    0 <= k < old(self).items@.len() && k != idx ==> final(self).items@[k] == old(
                        self,
                    ).items@[k])
                &&& final(content)@.len() == 0
            },
            (idx as int) >= old(self).items@.len() ==> final(self).items == old(self).items
                && *final(content) == *old(content),
    {
        if idx < self.items.len() {
            self.items[idx].2.append(content);
            proof {
                assert forall|k: int|
                    0 <= k < old(self).items@.len() && k != idx implies self.items@[k] == old(
                    self,
                ).items@[k] by {}
                assert(pos_wf(self.selection, sub_counts(self.items@))) by {
                    let oldc = sub_counts(old(self).items@);
                    let newc = sub_counts(self.items@);
                    assert(forall|k: int| 0 <= k < oldc.len() ==> newc[k] >= oldc[k]);
                }
            }
        }
    }

    /// The focus as the pair the renderer reads: the category index and,
    /// when a subcategory row is focused, its index.
    pub fn get_selection(&self) -> (r: (u32, Option<u32>))
        requires
            self.wf(),
        ensures
            match self.selection {
                NavPos::OnCategory(i) => r == (i as u32, None::<u32>),
                NavPos::OnSubcategory(i, j) => r == (i as u32, Some(j as u32)),
            },
    {
        match self.selection {
            NavPos::OnCategory(i) => (i as u32, None),
            NavPos::OnSubcategory(i, j) => (i as u32, Some(j as u32)),
        }
    }

    /// The flattened display row the focus highlights, for the renderer's
    /// list state; see [`flat_row`].
    pub fn flat_selection(&self) -> (r: u64)
        requires
            self.wf(),
        ensures
            r as int == flat_row(*self),
    {
        let cat = match self.selection {
            NavPos::OnCategory(i) => i,
            NavPos::OnSubcategory(i, _) => i,
        };
        let mut acc: u64 = 1;
        let mut k: usize = 0;
        while k < cat
            invariant
                self.wf(),
                k <= cat,
                cat == cat_of(self.selection),
                cat < self.items@.len(),
                acc as int == 1 + rows_before(self.items@, k as int),
            decreases cat - k,
        {
            proof {
                lemma_rows_before_bound(self.items@, k as int);
                assert(self.items@[k as int].2@.len() <= u32::MAX);
                assert(cat as int <= u32::MAX - 1);
            }
            acc = acc + 1 + (self.items[k].2.len() as u64);
            k += 1;
        }
        match self.selection {
            NavPos::OnCategory(_) => acc,
            NavPos::OnSubcategory(i, j) => {
                proof {
                    lemma_rows_before_bound(self.items@, cat as int);
                    assert((j as int) < self.items@[i as int].2@.len());
                }
                acc + (j as u64)
            },
        }
    }

    /// The fixed category tree: Album, Artist and Genre, each with no
    /// subcategories yet, focus on the first category row.
    pub fn new() -> (nav: Navigator)
        ensures
            nav.wf(),
            nav.items@.len() == 3,
            nav.items@[0].0.name@ == "Album"@ && nav.items@[0].0.table@ == "Album"@,
            nav.items@[1].0.name@ == "Artist"@ && nav.items@[1].0.table@ == "Artist"@,
            nav.items@[2].0.name@ == "Genre"@ && nav.items@[2].0.table@ == "Genre"@,
            nav.items@[0].2@.len() == 0 && nav.items@[1].2@.len() == 0 && nav.items@[2].2@.len()
                == 0,
            nav.selection == NavPos::OnCategory(0usize),
    {
        let mut items: Vec<(Category, bool, Vec<String>)> = Vec::new();
        items.push(
            (
                Category { name: String::from_str("Album"), table: String::from_str("Album") },
                true,
                Vec::new(),
            ),
        );
        items.push(
            (
                Category { name: String::from_str("Artist"), table: String::from_str("Artist") },
                true,
                Vec::new(),
            ),
        );
        items.push(
            (
                Category { name: String::from_str("Genre"), table: String::from_str("Genre") },
                true,
                Vec::new(),
            ),
        );
        Navigator { items, selection: NavPos::OnCategory(0) }
    }
}

/// How many flattened display rows the first `k` categories occupy: one row
/// for each category header plus one per subcategory label.
pub open spec fn rows_before(items: Seq<(Category, bool, Vec<String>)>, k: int) -> int
    decreases k,
{
    if k <= 0 {
        0
    } else {
        rows_before(items, k - 1) + 1 + items[k - 1].2@.len()
    }
}

/// The flattened display row the focus highlights: the rows of all earlier
/// categories, then the focused subcategory's offset. A bare category row
/// highlights the same row its first subcategory would.
pub open spec fn flat_row(nav: Navigator) -> int {
    1 + rows_before(nav.items@, cat_of(nav.selection)) + match nav.selection {
        NavPos::OnCategory(_) => 0,
        NavPos::OnSubcategory(_, j) => j as int,
    }
}

/// With every subcategory list bounded, the flattened row count is bounded
/// too.
proof fn lemma_rows_before_bound(items: Seq<(Category, bool, Vec<String>)>, k: int)
    requires
        0 <= k <= items.len(),
        forall|i: int| 0 <= i < items.len() ==> (#[trigger] items[i]).2@.len() <= u32::MAX,
    ensures
        0 <= rows_before(items, k) <= k * 0x100000000,
    decreases k,
{
    if k > 0 {
        lemma_rows_before_bound(items, k - 1);
    }
}

/// Where the focus stands after a whole sequence of events.
pub open spec fn nav_pos_after(pos: NavPos, counts: Seq<int>, events: Seq<Event>) -> NavPos
    decreases events.len(),
{
    if events.len() == 0 {
        pos
    } else {
        nav_pos_after(nav_step(pos, counts, events[0]), counts, events.drop_first())
    }
}

/// One event keeps the focus valid.
pub proof fn lemma_nav_step_wf(pos: NavPos, counts: Seq<int>, event: Event)
    requires
        counts.len() > 0,
        counts.len() <= u32::MAX,
        pos_wf(pos, counts),
    ensures
        pos_wf(nav_step(pos, counts, event), counts),
{
    let n = counts.len() as int;
    let i = cat_of(pos);
    vstd::arithmetic::div_mod::lemma_mod_bound(i + n - 1, n);
    vstd::arithmetic::div_mod::lemma_mod_bound(i + 1, n);
}

/// The focus stays a valid pair through any finite sequence of events: the
/// navigator's selection invariant, stated over whole histories.
pub proof fn lemma_nav_pos_always_valid(pos: NavPos, counts: Seq<int>, events: Seq<Event>)
    requires
        counts.len() > 0,
        counts.len() <= u32::MAX,
        pos_wf(pos, counts),
    ensures
        pos_wf(nav_pos_after(pos, counts, events), counts),
    decreases events.len(),
{
    if events.len() > 0 {
        lemma_nav_step_wf(pos, counts, events[0]);
        lemma_nav_pos_always_valid(nav_step(pos, counts, events[0]), counts, events.drop_first());
    }
}

} // verus!
