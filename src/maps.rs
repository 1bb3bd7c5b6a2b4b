//! The list navigator and the two-screen state machine of the map browser.

use vstd::prelude::*;
use crate::record::MapRecord;
use vstd::arithmetic::div_mod::{
    lemma_add_mod_noop, lemma_fundamental_div_mod_converse, lemma_mod_self_0, lemma_small_mod, lemma_sub_mod_noop,
};

verus! {

/// Display height of one list row; the scroll position is the selected
/// index times this.
pub const ITEM_HEIGHT: usize = 4;

/// The largest snapshot whose scroll positions fit in a `usize`.
pub const MAX_ITEMS: usize = usize::MAX / ITEM_HEIGHT;

/// The record shown on the detail screen, copied when the screen opened.
pub struct MapInfo {
    pub map_id: u32,
    pub item: MapRecord,
}

/// The screen that is showing.
pub enum Screen {
    MapsList,
    MapInfo(MapInfo),
}

/// A key, as the state machine tells keys apart.
#[derive(Clone, Copy, Debug, PartialEq, Eq)]
pub enum Key {
    Char(char),
    Up,
    Down,
    Left,
    Right,
    Enter,
    Esc,
    Other,
}

/// What the driving loop is to do after a key was handled.
#[derive(Clone, Copy, Debug, PartialEq, Eq)]
pub enum Action {
    /// Keep going.
    Continue,
    /// Leave the loop with success.
    Quit,
    /// Look the map with this id up afresh and hand the outcome to
    /// `Maps::open_detail`.
    FetchById(u32),
}

/// The abstract state of the browser.
pub struct MapsModel {
    pub selected: Option<usize>,
    pub scroll: usize,
    pub items: Seq<MapRecord>,
    pub screen: Screen,
}

/// State of the map browser: the current snapshot, the selected row, the
/// scroll position that follows it, and the screen showing.
pub struct Maps {
    selected: Option<usize>,
    scroll: usize,
    items: Vec<MapRecord>,
    screen: Screen,
}

impl View for Maps {
    type V = MapsModel;

    closed spec fn view(&self) -> MapsModel {
        MapsModel {
            selected: self.selected,
            scroll: self.scroll,
            items: self.items@,
            screen: self.screen,
        }
    }
}

/// The scroll position that goes with a selection.
pub open spec fn scroll_for(sel: Option<usize>) -> int {
    match sel {
        Some(i) => i * ITEM_HEIGHT,
        None => 0,
    }
}

/// The row after `i` in a list of `len` rows, wrapping to the first.
pub open spec fn next_index(sel: Option<usize>, len: nat) -> usize {
    match sel {
        Some(i) => if i + 1 >= len {
            0
        } else {
            (i + 1) as usize
        },
        None => 0,
    }
}

/// The row before `i` in a list of `len` rows, wrapping to the last.
pub open spec fn previous_index(sel: Option<usize>, len: nat) -> usize {
    match sel {
        Some(i) => if i == 0 {
            if len == 0 {
                0
            } else {
                (len - 1) as usize
            }
        } else {
            (i - 1) as usize
        },
        None => 0,
    }
}

/// A selection brought back within a list of `len` rows.
pub open spec fn clamp_selection(sel: Option<usize>, len: nat) -> Option<usize> {
    match sel {
        Some(i) => if i < len {
            Some(i)
        } else if len == 0 {
            Some(0usize)
        } else {
            Some((len - 1) as usize)
        },
        None => None,
    }
}

impl MapsModel {
    /// The state is consistent: the snapshot is small enough for its scroll
    /// positions, the selection lies in it (or is row 0 of an empty one), and
    /// the scroll position follows the selection.
    pub open spec fn wf(self) -> bool {
        &&& self.items.len() <= MAX_ITEMS
        &&& (self.selected matches Some(i) ==> i < self.items.len() || i == 0)
        &&& self.scroll == scroll_for(self.selected)
    }

    pub open spec fn on_list(self) -> bool {
        self.screen is MapsList
    }

    /// The state with `i` selected and the scroll position moved along.
    pub open spec fn select(self, i: usize) -> MapsModel {
        MapsModel { selected: Some(i), scroll: (i * ITEM_HEIGHT) as usize, ..self }
    }

    pub open spec fn next_row(self) -> MapsModel {
        self.select(next_index(self.selected, self.items.len()))
    }

    pub open spec fn previous_row(self) -> MapsModel {
        self.select(previous_index(self.selected, self.items.len()))
    }

    /// The state after a new snapshot replaced the old one.
    pub open spec fn refresh(self, items: Seq<MapRecord>) -> MapsModel {
        let sel = clamp_selection(self.selected, items.len());
        MapsModel { selected: sel, scroll: scroll_for(sel) as usize, items, ..self }
    }

    /// The state and action after a key event; only presses count.
    pub open spec fn key(self, key: Key, pressed: bool) -> (MapsModel, Action) {
        if !pressed {
            (self, Action::Continue)
        } else {
            match self.screen {
                Screen::MapsList => match key {
                    Key::Char('q') | Key::Esc => (self, Action::Quit),
                    Key::Char('j') | Key::Down => (self.next_row(), Action::Continue),
                    Key::Char('k') | Key::Up => (self.previous_row(), Action::Continue),
                    Key::Enter => match self.selected {
                        Some(i) => if i < self.items.len() {
                            (self, Action::FetchById(self.items[i as int].id))
                        } else {
                            (self, Action::Continue)
                        },
                        None => (self, Action::Continue),
                    },
                    _ => (self, Action::Continue),
                },
                Screen::MapInfo(_) => match key {
                    Key::Char('q') | Key::Esc | Key::Char('b') => (
                        MapsModel { screen: Screen::MapsList, ..self },
                        Action::Continue,
                    ),
                    _ => (self, Action::Continue),
                },
            }
        }
    }

    /// The state after `k` moves down.
    pub open spec fn next_rows(self, k: nat) -> MapsModel
        decreases k,
    {
        if k == 0 {
            self
        } else {
            self.next_rows((k - 1) as nat).next_row()
        }
    }

    /// The state after `k` moves up.
    pub open spec fn previous_rows(self, k: nat) -> MapsModel
        decreases k,
    {
        if k == 0 {
            self
        } else {
            self.previous_rows((k - 1) as nat).previous_row()
        }
    }

    /// The state after a fresh lookup of `map_id` that confirmed a selection:
    /// the detail screen opens on the record found; where none was found, or
    /// the list screen is not showing, nothing changes.
    pub open spec fn open_detail(self, map_id: u32, found: Option<MapRecord>) -> MapsModel {
        match found {
            Some(item) => if self.on_list() {
                MapsModel { screen: Screen::MapInfo(MapInfo { map_id, item }), ..self }
            } else {
                self
            },
            None => self,
        }
    }
}

impl Maps {
    /// The state is consistent (see `MapsModel::wf`).
    pub open spec fn wf(&self) -> bool {
        self@.wf()
    }

    /// A browser over `items`, on the list screen with the first row selected.
    pub fn new(items: Vec<MapRecord>) -> (m: Maps)
        requires
            items@.len() <= MAX_ITEMS,
        ensures
            m.wf(),
            m@.selected == Some(0usize),
            m@.scroll == 0,
            m@.items == items@,
            m@.on_list(),
    {
        Maps { selected: Some(0), scroll: 0, items, screen: Screen::MapsList }
    }

    fn select(&mut self, i: usize)
        requires
            old(self).wf(),
            i < old(self)@.items.len() || i == 0,
        ensures
            final(self)@ == old(self)@.select(i),
            final(self).wf(),
    {
        self.selected = Some(i);
        self.scroll = i * ITEM_HEIGHT;
    }

    /// Moves the selection one row down, wrapping from the last row to the
    /// first; with nothing selected, selects the first row.
    pub fn next_row(&mut self)
        requires
            old(self).wf(),
        ensures
            final(self)@ == old(self)@.next_row(),
            final(self).wf(),
            final(self)@.scroll == scroll_for(final(self)@.selected),
    {
        let i: usize = match self.selected {
            Some(i) => if i >= self.items.len().saturating_sub(1) {
                0
            } else {
                i + 1
            },
            None => 0,
        };
        self.select(i);
    }

    /// Moves the selection one row up, wrapping from the first row to the
    /// last; with nothing selected, selects the first row.
    pub fn previous_row(&mut self)
        requires
            old(self).wf(),
        ensures
            final(self)@ == old(self)@.previous_row(),
            final(self).wf(),
            final(self)@.scroll == scroll_for(final(self)@.selected),
    {
        let i: usize = match self.selected {
            Some(i) => if i == 0 {
                self.items.len().saturating_sub(1)
            } else {
                i - 1
            },
            None => 0,
        };
        self.select(i);
    }

    /// Replaces the snapshot with a fresh one; a selection past its end moves
    /// to its last row, and the scroll position follows.
    pub fn refresh(&mut self, items: Vec<MapRecord>)
        requires
            old(self).wf(),
            items@.len() <= MAX_ITEMS,
        ensures
            final(self)@ == old(self)@.refresh(items@),
            final(self).wf(),
            final(self)@.scroll == scroll_for(final(self)@.selected),
    {
        let len = items.len();
        self.items = items;
        if let Some(i) = self.selected {
            if i >= len {
                let last = len.saturating_sub(1);
                self.selected = Some(last);
                self.scroll = last * ITEM_HEIGHT;
            }
        }
    }

    /// Handles one key event; key releases and repeats change nothing.
    pub fn handle_key(&mut self, key: Key, pressed: bool) -> (a: Action)
        requires
            old(self).wf(),
        ensures
            (final(self)@, a) == old(self)@.key(key, pressed),
            final(self).wf(),
    {
        if !pressed {
            return Action::Continue;
        }
        match self.screen {
            Screen::MapsList => match key {
                Key::Char('q') | Key::Esc => Action::Quit,
                Key::Char('j') | Key::Down => {
                    self.next_row();
                    Action::Continue
                },
                Key::Char('k') | Key::Up => {
                    self.previous_row();
                    Action::Continue
                },
                Key::Enter => match self.selected {
                    Some(i) => if i < self.items.len() {
                        Action::FetchById(self.items[i].id)
                    } else {
                        Action::Continue
                    },
                    None => Action::Continue,
                },
                _ => Action::Continue,
            },
            Screen::MapInfo(_) => match key {
                Key::Char('q') | Key::Esc | Key::Char('b') => {
                    self.screen = Screen::MapsList;
                    Action::Continue
                },
                _ => Action::Continue,
            },
        }
    }

    /// Takes the outcome of a fresh lookup of `map_id`: a record found opens
    /// the detail screen on a copy of it; none found leaves the list showing.
    pub fn open_detail(&mut self, map_id: u32, found: Option<MapRecord>)
        requires
            old(self).wf(),
        ensures
            final(self)@ == old(self)@.open_detail(map_id, found),
            final(self).wf(),
    {
        if let Some(item) = found {
            if let Screen::MapsList = self.screen {
                self.screen = Screen::MapInfo(MapInfo { map_id, item });
            }
        }
    }
}

/// Title line of the list screen.
pub const HEADER_TEXT: &'static str = "eBPF Maps";

/// Key prompt of the list screen.
pub const LIST_FOOTER_TEXT: &'static str = "(Esc) quit | (↑) move up | (↓) move down | (←) move left | (→) move right";

/// Key prompt of the detail screen, where the arrow keys do nothing.
pub const DETAIL_FOOTER_TEXT: &'static str = "(Esc/q/b) back | (↑/↓) n/a | (←/→) n/a";

impl Maps {
    /// The selected row, if any.
    pub fn selected(&self) -> (r: Option<usize>)
        ensures
            r == self@.selected,
    {
        self.selected
    }

    /// The scroll position, the selected index times the row height.
    pub fn scroll_position(&self) -> (r: usize)
        ensures
            r == self@.scroll,
    {
        self.scroll
    }

    /// The length of the scrolled content: the last row's scroll position.
    pub fn scroll_content_length(&self) -> (r: usize)
        requires
            self.wf(),
        ensures
            r == (if self@.items.len() == 0 {
                0
            } else {
                (self@.items.len() - 1) * ITEM_HEIGHT
            }),
    {
        self.items.len().saturating_sub(1) * ITEM_HEIGHT
    }

    /// The current snapshot.
    pub fn items(&self) -> (r: &Vec<MapRecord>)
        ensures
            r@ == self@.items,
    {
        &self.items
    }

    /// The screen showing.
    pub fn screen(&self) -> (r: &Screen)
        ensures
            *r == self@.screen,
    {
        &self.screen
    }

    /// The record at the selected row, where the selection lies in the
    /// snapshot.
    pub fn selected_record(&self) -> (r: Option<&MapRecord>)
        ensures
            r matches Some(rec) ==> self@.selected matches Some(i) && i < self@.items.len()
                && *rec == self@.items[i as int],
            r is None ==> !(self@.selected matches Some(i) && i < self@.items.len()),
    {
        match self.selected {
            Some(i) => if i < self.items.len() {
                Some(&self.items[i])
            } else {
                None
            },
            None => None,
        }
    }

    /// The key prompt for the screen showing.
    pub fn footer_text(&self) -> (r: &'static str)
        ensures
            r@ == (if self@.on_list() {
                LIST_FOOTER_TEXT@
            } else {
                DETAIL_FOOTER_TEXT@
            }),
    {
        match self.screen {
            Screen::MapsList => LIST_FOOTER_TEXT,
            Screen::MapInfo(_) => DETAIL_FOOTER_TEXT,
        }
    }
}

/// Row `x` plus one, modulo `len`, is the row after `x`.
proof fn lemma_next_index_mod(x: int, len: int)
    requires
        0 <= x < len <= usize::MAX,
    ensures
        next_index(Some(x as usize), len as nat) == (x + 1) % len,
{
    if x + 1 == len {
        lemma_mod_self_0(len);
    } else {
        lemma_small_mod((x + 1) as nat, len as nat);
    }
}

/// Row `x` minus one, modulo `len`, is the row before `x`.
proof fn lemma_previous_index_mod(x: int, len: int)
    requires
        0 <= x < len <= usize::MAX,
    ensures
        previous_index(Some(x as usize), len as nat) == (x - 1) % len,
{
    if x == 0 {
        lemma_fundamental_div_mod_converse(-1, len, -1, len - 1);
    } else {
        lemma_small_mod((x - 1) as nat, len as nat);
    }
}

proof fn lemma_next_rows_mod(m: MapsModel, i: usize, k: nat)
    requires
        m.wf(),
        m.selected == Some(i),
        i < m.items.len(),
    ensures
        m.next_rows(k).selected == Some(((i + k) % (m.items.len() as int)) as usize),
        m.next_rows(k).items == m.items,
        m.next_rows(k).wf(),
    decreases k,
{
    let len = m.items.len() as int;
    if k == 0 {
        lemma_small_mod(i as nat, len as nat);
    } else {
        lemma_next_rows_mod(m, i, (k - 1) as nat);
        let x = (i + k - 1) % len;
        lemma_next_index_mod(x, len);
        lemma_add_mod_noop(i + k - 1, 1, len);
        if len > 1 {
            lemma_small_mod(1, len as nat);
        } else {
            assert((i + k) % len == 0);
        }
    }
}

proof fn lemma_previous_rows_mod(m: MapsModel, i: usize, k: nat)
    requires
        m.wf(),
        m.selected == Some(i),
        i < m.items.len(),
    ensures
        m.previous_rows(k).selected == Some(((i - k) % (m.items.len() as int)) as usize),
        m.previous_rows(k).items == m.items,
        m.previous_rows(k).wf(),
    decreases k,
{
    let len = m.items.len() as int;
    if k == 0 {
        lemma_small_mod(i as nat, len as nat);
    } else {
        lemma_previous_rows_mod(m, i, (k - 1) as nat);
        let x = (i - (k - 1)) % len;
        lemma_previous_index_mod(x, len);
        lemma_sub_mod_noop(i - (k - 1), 1, len);
        if len > 1 {
            lemma_small_mod(1, len as nat);
        } else {
            assert((i - k) % len == 0);
        }
    }
}

/// Moving down as many times as there are rows comes back to the row where
/// it started, and so does moving up as many times.
pub proof fn lemma_moves_cycle(m: MapsModel)
    requires
        m.wf(),
        m.items.len() > 0,
        m.selected is Some,
    ensures
        m.next_rows(m.items.len()) == m,
        m.previous_rows(m.items.len()) == m,
{
    let i = m.selected->0;
    let len = m.items.len() as int;
    lemma_next_rows_mod(m, i, m.items.len());
    lemma_previous_rows_mod(m, i, m.items.len());
    lemma_add_mod_noop(i as int, len, len);
    lemma_mod_self_0(len);
    lemma_small_mod(i as nat, len as nat);
    lemma_sub_mod_noop(i as int, len, len);
    lemma_next_rows_keeps(m, m.items.len());
    lemma_previous_rows_keeps(m, m.items.len());
}

proof fn lemma_next_rows_keeps(m: MapsModel, k: nat)
    ensures
        m.next_rows(k).screen == m.screen,
        m.next_rows(k).items == m.items,
        m.next_rows(k).scroll == (match m.next_rows(k).selected {
            Some(j) => if k == 0 { m.scroll } else { (j * ITEM_HEIGHT) as usize },
            None => m.scroll,
        }),
    decreases k,
{
    if k > 0 {
        lemma_next_rows_keeps(m, (k - 1) as nat);
    }
}

proof fn lemma_previous_rows_keeps(m: MapsModel, k: nat)
    ensures
        m.previous_rows(k).screen == m.screen,
        m.previous_rows(k).items == m.items,
        m.previous_rows(k).scroll == (match m.previous_rows(k).selected {
            Some(j) => if k == 0 { m.scroll } else { (j * ITEM_HEIGHT) as usize },
            None => m.scroll,
        }),
    decreases k,
{
    if k > 0 {
        lemma_previous_rows_keeps(m, (k - 1) as nat);
    }
}

/// Every navigation step and every key keeps the scroll position equal to
/// the selected index times the row height, whatever the snapshot's size.
pub proof fn lemma_scroll_follows_selection(m: MapsModel)
    requires
        m.wf(),
    ensures
        m.next_row().wf(),
        m.next_row().scroll == scroll_for(m.next_row().selected),
        m.previous_row().wf(),
        m.previous_row().scroll == scroll_for(m.previous_row().selected),
        forall|items: Seq<MapRecord>|
            items.len() <= MAX_ITEMS ==> (#[trigger] m.refresh(items)).wf()
                && m.refresh(items).scroll == scroll_for(m.refresh(items).selected),
        forall|key: Key, pressed: bool|
            (#[trigger] m.key(key, pressed)).0.wf()
                && m.key(key, pressed).0.scroll == scroll_for(m.key(key, pressed).0.selected),
{
}

/// Opening the detail screen from the list and going back leaves the
/// selection, the scroll position and the snapshot as they were.
pub proof fn lemma_detail_round_trip(m: MapsModel, map_id: u32, found: Option<MapRecord>, back: Key)
    requires
        m.wf(),
        m.on_list(),
        back == Key::Esc || back == Key::Char('q') || back == Key::Char('b'),
    ensures
        ({
            let shown = m.key(Key::Enter, true).0.open_detail(map_id, found);
            let returned = shown.key(back, true).0;
            &&& returned.on_list()
            &&& returned.selected == m.selected
            &&& returned.scroll == m.scroll
            &&& returned.items == m.items
        }),
{
}

/// On the detail screen every key but the back keys changes nothing.
pub proof fn lemma_detail_ignores_other_keys(m: MapsModel, key: Key, pressed: bool)
    requires
        !m.on_list(),
        key != Key::Esc && key != Key::Char('q') && key != Key::Char('b'),
    ensures
        m.key(key, pressed) == (m, Action::Continue),
{
}

} // verus!
