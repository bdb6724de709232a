//! The view-model and focus state machine: which panel is focused, where the
//! selection cursors of the two list panels stand, and what the search query
//! holds, together with the dispatcher that maps key presses to transitions.

use vstd::prelude::*;

verus! {

/// The three focus targets of the interface, in their fixed cyclic order.
#[derive(Clone, Copy, PartialEq, Eq, Structural, Debug)]
pub enum Focus {
    Search,
    Countries,
    Cities,
}

/// The panel after `f` in the cycle `Search -> Countries -> Cities -> Search`.
pub open spec fn spec_next_focus(f: Focus) -> Focus {
    match f {
        Focus::Search => Focus::Countries,
        Focus::Countries => Focus::Cities,
        Focus::Cities => Focus::Search,
    }
}

/// The panel before `f` in the cycle `Search -> Countries -> Cities -> Search`.
pub open spec fn spec_prev_focus(f: Focus) -> Focus {
    match f {
        Focus::Search => Focus::Cities,
        Focus::Countries => Focus::Search,
        Focus::Cities => Focus::Countries,
    }
}

impl Focus {
    /// The next panel in the fixed cycle.
    pub fn next(self) -> (r: Focus)
        ensures
            r == spec_next_focus(self),
    {
        match self {
            Focus::Search => Focus::Countries,
            Focus::Countries => Focus::Cities,
            Focus::Cities => Focus::Search,
        }
    }

    /// The previous panel in the fixed cycle.
    pub fn prev(self) -> (r: Focus)
        ensures
            r == spec_prev_focus(self),
    {
        match self {
            Focus::Search => Focus::Cities,
            Focus::Countries => Focus::Search,
            Focus::Cities => Focus::Countries,
        }
    }
}

impl Default for Focus {
    /// The search panel is focused when the application starts.
    fn default() -> (r: Focus)
        ensures
            r == Focus::Search,
    {
        Focus::Search
    }
}

/// Stepping forward and then backward through the panel cycle returns to the
/// start, as do three consecutive forward steps: the cycle is a total
/// bijection on the three panels.
pub proof fn lemma_focus_cycle_bijection(f: Focus)
    ensures
        spec_prev_focus(spec_next_focus(f)) == f,
        spec_next_focus(spec_prev_focus(f)) == f,
        spec_next_focus(spec_next_focus(spec_next_focus(f))) == f,
{
}

/// The selection cursor of one list panel: an optional zero-based row index.
/// It is absent only before initialization; `State::new` puts both cursors
/// on row `0`.
#[derive(Clone, Copy, PartialEq, Eq, Debug)]
pub struct ListState {
    pub selected: Option<usize>,
}

impl View for ListState {
    type V = Option<int>;

    /// The cursor as an optional mathematical row index.
    open spec fn view(&self) -> Option<int> {
        match self.selected {
            Some(i) => Some(i as int),
            None => None,
        }
    }
}

impl Default for ListState {
    /// A cursor that has not selected a row yet.
    fn default() -> (r: ListState)
        ensures
            r@ is None,
    {
        ListState { selected: None }
    }
}

impl ListState {
    /// The selected row, if any.
    pub fn selected(&self) -> (r: Option<usize>)
        ensures
            r == self.selected,
    {
        self.selected
    }

    /// Selects the given row (or none).
    pub fn select(&mut self, index: Option<usize>)
        ensures
            final(self).selected == index,
    {
        self.selected = index;
    }
}

/// The row a cursor stands on: an absent cursor counts as row `0`.
pub open spec fn spec_row(selected: Option<int>) -> int {
    match selected {
        Some(i) => i,
        None => 0,
    }
}

/// One movement step: up decreases the row by one, floored at `0`; down
/// increases it by one, capped at `max_value` (the station count — the cap is
/// the count itself, not `count - 1`). A row past the cap, possible after the
/// station list was replaced by a shorter one, is clamped back to the cap by
/// a downward step: movement clamps, construction does not.
pub open spec fn spec_moved(selected: Option<int>, up: bool, max_value: int) -> int {
    let s = spec_row(selected);
    if up {
        if s > 0 {
            s - 1
        } else {
            s
        }
    } else {
        if s >= max_value {
            max_value
        } else {
            s + 1
        }
    }
}

/// The row after `n` movement steps in one fixed direction.
pub open spec fn spec_moved_n(selected: Option<int>, up: bool, max_value: int, n: nat) -> int
    decreases n,
{
    if n == 0 {
        spec_row(selected)
    } else {
        spec_moved(
            Some(spec_moved_n(selected, up, max_value, (n - 1) as nat)),
            up,
            max_value,
        )
    }
}

/// Any number of upward moves never takes the cursor below row `0`: from row
/// `s`, `n` upward moves land exactly on `s - n`, floored at `0`.
pub proof fn lemma_move_up_floor(selected: Option<int>, max_value: int, n: nat)
    requires
        spec_row(selected) >= 0,
    ensures
        spec_moved_n(selected, true, max_value, n) == if spec_row(selected) >= n {
            spec_row(selected) - n
        } else {
            0
        },
        spec_moved_n(selected, true, max_value, n) >= 0,
    decreases n,
{
    if n > 0 {
        lemma_move_up_floor(selected, max_value, (n - 1) as nat);
    }
}

/// Any number of downward moves never takes the cursor past the station
/// count: from row `s <= max_value`, `n` downward moves land exactly on
/// `s + n`, capped at `max_value`; from a stale row past the count (possible
/// after the list shrank) the first downward move clamps the cursor back to
/// the count, where further moves keep it.
pub proof fn lemma_move_down_cap(selected: Option<int>, max_value: int, n: nat)
    requires
        spec_row(selected) >= 0,
        max_value >= 0,
    ensures
        spec_row(selected) <= max_value ==> spec_moved_n(selected, false, max_value, n)
            == if spec_row(selected) + n <= max_value {
                spec_row(selected) + n
            } else {
                max_value
            },
        spec_row(selected) > max_value && n > 0 ==> spec_moved_n(selected, false, max_value, n)
            == max_value,
        spec_moved_n(selected, false, max_value, n) <= if spec_row(selected) <= max_value {
            max_value
        } else {
            spec_row(selected)
        },
    decreases n,
{
    if n > 0 {
        lemma_move_down_cap(selected, max_value, (n - 1) as nat);
    }
}

/// Moves a panel cursor one row: a cursor that was absent first initializes
/// to row `0`, then the step applies, floored at `0` going up and capped at
/// `max_value` going down — a row already at or past the cap comes to rest
/// exactly on it.
pub fn move_cursor(state: &mut ListState, up: bool, max_value: usize)
    ensures
        final(state)@ == Some(spec_moved(old(state)@, up, max_value as int)),
{
    let mut selected: usize = match state.selected {
        Some(i) => i,
        None => 0,
    };
    if up {
        if selected > 0 {
            selected = selected - 1;
        }
    } else if selected < max_value {
        selected = selected + 1;
    } else {
        selected = max_value;
    }
    state.selected = Some(selected);
}

/// One radio-station record of the remote directory, as the navigation core
/// reads it. The wire format's geographic coordinates are not kept: nothing
/// in the navigation logic reads them, and the caller that fetches the list
/// holds the full records.
#[derive(Clone, Debug)]
pub struct Place {
    pub size: u16,
    pub id: String,
    pub url: String,
    pub country: String,
    pub title: String,
}

/// The mathematical value of a `State`: the station list, the query as a
/// character sequence, the focused panel, and the two panel cursors.
#[verifier::ext_equal]
pub struct StateView {
    pub places: Seq<Place>,
    pub search: Seq<char>,
    pub focus: Focus,
    pub countries: Option<int>,
    pub cities: Option<int>,
}

impl StateView {
    /// The station count: the upper movement bound of both cursors.
    pub open spec fn count(self) -> int {
        self.places.len() as int
    }

    /// `setStations`: the list replaced wholesale; focus, query and cursors
    /// keep their values, so a cursor may point past the new count until the
    /// next movement step.
    pub open spec fn with_places(self, places: Seq<Place>) -> StateView {
        StateView { places, ..self }
    }

    /// An upward selection step. It acts on the cursor of the focused list
    /// panel; while the search panel is focused it falls to the countries
    /// cursor, the first list panel.
    pub open spec fn moved_up(self) -> StateView {
        if self.focus is Cities {
            StateView { cities: Some(spec_moved(self.cities, true, self.count())), ..self }
        } else {
            StateView { countries: Some(spec_moved(self.countries, true, self.count())), ..self }
        }
    }

    /// A downward step. While the search panel is focused it moves no cursor:
    /// it only hands focus to the countries panel, the entry point into the
    /// lists. Otherwise the focused cursor steps down, capped at the count.
    pub open spec fn moved_down(self) -> StateView {
        if self.focus is Search {
            StateView { focus: Focus::Countries, ..self }
        } else if self.focus is Cities {
            StateView { cities: Some(spec_moved(self.cities, false, self.count())), ..self }
        } else {
            StateView { countries: Some(spec_moved(self.countries, false, self.count())), ..self }
        }
    }

    /// One step through the panel cycle; everything but the focus stays.
    pub open spec fn moved_focus(self, right: bool) -> StateView {
        StateView {
            focus: if right {
                spec_next_focus(self.focus)
            } else {
                spec_prev_focus(self.focus)
            },
            ..self
        }
    }

    /// `enterSearch`: focus returns to the search panel unconditionally.
    pub open spec fn to_search(self) -> StateView {
        StateView { focus: Focus::Search, ..self }
    }

    /// `appendToQuery`: one character appended to the query.
    pub open spec fn appended(self, c: char) -> StateView {
        StateView { search: self.search.push(c), ..self }
    }

    /// `backspaceQuery`: the last query character removed; an empty query
    /// stays empty.
    pub open spec fn backspaced(self) -> StateView {
        if self.search.len() == 0 {
            self
        } else {
            StateView { search: self.search.drop_last(), ..self }
        }
    }
}

/// The view-model: the fetched station list, the search query, the focused
/// panel, and one selection cursor per list panel.
pub struct State {
    pub countries: ListState,
    pub cities: ListState,
    pub search: String,
    pub focus: Focus,
    pub places: Vec<Place>,
}

impl View for State {
    type V = StateView;

    open spec fn view(&self) -> StateView {
        StateView {
            places: self.places@,
            search: self.search@,
            focus: self.focus,
            countries: self.countries@,
            cities: self.cities@,
        }
    }
}

impl Default for State {
    /// The transient pre-initialization value: everything empty, focus on
    /// the search panel, no row selected yet.
    fn default() -> (r: State)
        ensures
            r@.places.len() == 0,
            r@.search.len() == 0,
            r@.focus == Focus::Search,
            r@.countries is None,
            r@.cities is None,
    {
        State {
            countries: ListState::default(),
            cities: ListState::default(),
            search: String::new(),
            focus: Focus::default(),
            places: Vec::new(),
        }
    }
}

impl State {
    /// The initial view-model: no stations, an empty query, focus on the
    /// search panel, and both cursors on row `0`.
    pub fn new() -> (r: State)
        ensures
            r@.places.len() == 0,
            r@.search.len() == 0,
            r@.focus == Focus::Search,
            r@.countries == Some(0int),
            r@.cities == Some(0int),
    {
        let mut state = State::default();
        state.countries.select(Some(0));
        state.cities.select(Some(0));
        state
    }

    /// `setStations`: replaces the station list wholesale. Focus, query and
    /// cursors are deliberately untouched; a cursor may point past the new
    /// count until the next movement step caps it.
    pub fn set_places(&mut self, places: Vec<Place>)
        ensures
            final(self)@ == old(self)@.with_places(places@),
    {
        self.places = places;
    }

    /// Moves the focused panel's cursor one row up, floored at row `0`.
    pub fn move_up(&mut self)
        ensures
            final(self)@ == old(self)@.moved_up(),
    {
        let num_places = self.places.len();
        match self.focus {
            Focus::Cities => move_cursor(&mut self.cities, true, num_places),
            Focus::Countries | Focus::Search => move_cursor(&mut self.countries, true, num_places),
        }
    }

    /// Moves one row down, capped at the station count — unless the search
    /// panel is focused: then no cursor moves and focus passes to the
    /// countries panel instead.
    pub fn move_down(&mut self)
        ensures
            final(self)@ == old(self)@.moved_down(),
    {
        if self.focus == Focus::Search {
            self.focus = Focus::Countries;
        } else {
            let num_places = self.places.len();
            match self.focus {
                Focus::Cities => move_cursor(&mut self.cities, false, num_places),
                Focus::Countries | Focus::Search => move_cursor(
                    &mut self.countries,
                    false,
                    num_places,
                ),
            }
        }
    }

    /// One step forward or backward through the panel cycle.
    fn move_focus(&mut self, right: bool)
        ensures
            final(self)@ == old(self)@.moved_focus(right),
    {
        self.focus = if right {
            self.focus.next()
        } else {
            self.focus.prev()
        };
    }

    /// One step forward through the panel cycle.
    pub fn move_right(&mut self)
        ensures
            final(self)@ == old(self)@.moved_focus(true),
    {
        self.move_focus(true)
    }

    /// One step backward through the panel cycle.
    pub fn move_left(&mut self)
        ensures
            final(self)@ == old(self)@.moved_focus(false),
    {
        self.move_focus(false)
    }

    /// `enterSearch`: focuses the search panel, whatever was focused before.
    pub fn move_to_search(&mut self)
        ensures
            final(self)@ == old(self)@.to_search(),
    {
        self.focus = Focus::Search;
    }

    /// `appendToQuery`: pushes one character onto the query buffer. The
    /// dispatcher calls it only while the search panel is focused.
    pub fn append_to_query(&mut self, c: char)
        ensures
            final(self)@ == old(self)@.appended(c),
    {
        self.search.push(c);
    }

    /// `backspaceQuery`: drops the last query character; an empty query is
    /// left as it is. The dispatcher calls it only while the search panel is
    /// focused.
    pub fn backspace_query(&mut self)
        ensures
            final(self)@ == old(self)@.backspaced(),
    {
        let _ = self.search.pop();
    }
}

/// A key press, reduced to what the dispatcher distinguishes. `Other` stands
/// for every key the dispatch table does not name; such a key is ignored.
#[derive(Clone, Copy, PartialEq, Eq, Debug)]
pub enum Key {
    Up,
    Down,
    Left,
    Right,
    Tab,
    Backspace,
    Esc,
    Char(char),
    Other,
}

/// The whole dispatch table as one function: the state after one key press.
/// While the search panel is focused, printable characters grow the query,
/// backspace shrinks it, and down hands focus to the countries panel; in the
/// list panels the arrow keys and their vi-style letter twins move the
/// cursor or cycle the focus, and `/` returns to the search panel. Escape
/// quits and every unrecognized key changes nothing.
pub open spec fn spec_key_event(v: StateView, key: Key) -> StateView {
    if v.focus is Search {
        match key {
            Key::Down => v.moved_down(),
            Key::Char(c) => v.appended(c),
            Key::Backspace => v.backspaced(),
            _ => v,
        }
    } else {
        match key {
            Key::Up => v.moved_up(),
            Key::Down => v.moved_down(),
            Key::Left => v.moved_focus(false),
            Key::Right | Key::Tab => v.moved_focus(true),
            Key::Char(c) => if c == 'k' || c == 'K' {
                v.moved_up()
            } else if c == 'j' || c == 'J' {
                v.moved_down()
            } else if c == 'h' || c == 'H' {
                v.moved_focus(false)
            } else if c == 'l' || c == 'L' {
                v.moved_focus(true)
            } else if c == '/' {
                v.to_search()
            } else {
                v
            },
            _ => v,
        }
    }
}

impl State {
    /// Dispatches one key press: the state becomes `spec_key_event` of the
    /// old state, and the result says whether the application should quit —
    /// exactly on escape, which leaves the state untouched.
    pub fn key_event(&mut self, key: Key) -> (quit: bool)
        ensures
            final(self)@ == spec_key_event(old(self)@, key),
            quit == (key is Esc),
    {
        if self.focus == Focus::Search {
            match key {
                Key::Down => self.move_down(),
                Key::Char(c) => self.append_to_query(c),
                Key::Backspace => self.backspace_query(),
                Key::Esc => {
                    return true;
                },
                _ => {},
            }
        } else {
            match key {
                Key::Esc => {
                    return true;
                },
                Key::Up | Key::Char('k') | Key::Char('K') => self.move_up(),
                Key::Down | Key::Char('j') | Key::Char('J') => self.move_down(),
                Key::Left | Key::Char('h') | Key::Char('H') => self.move_left(),
                Key::Right | Key::Char('l') | Key::Char('L') | Key::Tab => self.move_right(),
                Key::Char('/') => self.move_to_search(),
                _ => {},
            }
        }
        false
    }
}

/// The color a panel is drawn in: the focused panel gets the active color,
/// every other panel the default one.
#[derive(Clone, Copy, PartialEq, Eq, Structural, Debug)]
pub enum PanelColor {
    LightGreen,
    White,
}

impl Focus {
    /// The highlight color of the panel `self`, given the currently focused
    /// panel: light green exactly when `self` is the focused one, white
    /// otherwise. A pure function of the focus, recomputed at every draw.
    pub fn color_from(&self, focus: &Focus) -> (c: PanelColor)
        ensures
            c == if self == focus {
                PanelColor::LightGreen
            } else {
                PanelColor::White
            },
    {
        if self == focus {
            PanelColor::LightGreen
        } else {
            PanelColor::White
        }
    }
}

/// The focus cycle, on the whole state: one step forward then one step back
/// is the identity, in either order, and so are three consecutive forward
/// steps — no cursor and no query character moves with the focus.
pub proof fn lemma_focus_cycle_roundtrip(v: StateView)
    ensures
        v.moved_focus(true).moved_focus(false) =~= v,
        v.moved_focus(false).moved_focus(true) =~= v,
        v.moved_focus(true).moved_focus(true).moved_focus(true) =~= v,
{
}

/// While the search panel is focused, appending a character and then erasing
/// one is the identity on the whole state — the query returns to what it
/// was — and a downward move changes the focus alone: both selection cursors
/// keep their rows and the query keeps its characters.
pub proof fn lemma_search_append_backspace_roundtrip(v: StateView, c: char)
    requires
        v.focus is Search,
    ensures
        v.appended(c).backspaced() =~= v,
        v.moved_down().countries == v.countries,
        v.moved_down().cities == v.cities,
        v.moved_down().search == v.search,
{
    assert(v.search.push(c).drop_last() =~= v.search);
}

/// Relies on `String::push` of std: it appends the given character to the
/// end of the string.
pub assume_specification[ String::push ](s: &mut String, ch: char)
    ensures
        final(s)@ == old(s)@.push(ch),
;

/// Relies on `String::pop` of std: it removes and returns the last character
/// of the string, and returns `None`, changing nothing, when the string is
/// empty.
pub assume_specification[ String::pop ](s: &mut String) -> (r: Option<char>)
    ensures
        old(s)@.len() == 0 ==> r is None && final(s)@ == old(s)@,
        old(s)@.len() > 0 ==> r == Some(old(s)@.last()) && final(s)@ == old(s)@.drop_last(),
;

} // verus!
