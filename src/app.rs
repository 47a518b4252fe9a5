//! The modal state machine: which mode the application is in, which text
//! buffer a typed character goes to, and how a key press moves between
//! modes, edits the search filter and selection, and changes the store.

use vstd::prelude::*;
use vstd::string::*;
use vstd::utf8::*;

use crate::kvs::{encoded, is_key_listing, Kvs, KvsError};
use crate::list::{next_index, previous_index, sel_int, StatefulList};
use crate::search::{filter_keys, recompute};
use crate::text::{insert_at, insert_char_at, remove_at, remove_char_at, texts};

verus! {

/// The interaction context that decides how a key press is handled.
#[derive(PartialEq, Eq, Structural, Clone, Copy, Debug)]
pub enum InputMode {
    Home,
    Search,
    Select,
    Edit,
    Delete,
    AddKey,
    AddValue,
}

/// A key press, as far as the state machine tells keys apart.
#[derive(PartialEq, Eq, Structural, Clone, Copy, Debug)]
pub enum Key {
    Char(char),
    Enter,
    Esc,
    Backspace,
    Up,
    Down,
    Other,
}

/// What the caller is to do after a key press has been handled.
pub enum Outcome {
    /// Keep going.
    Continue,
    /// Leave the program.
    Quit,
    /// Put this text on the clipboard, then keep going.
    Copy(String),
}

/// The application state as mathematical values.
pub struct AppView {
    pub mode: InputMode,
    pub query: Seq<char>,
    pub key_in: Seq<char>,
    pub value_in: Seq<char>,
    pub cursor: int,
    pub keys: Seq<Seq<char>>,
    pub list: Seq<Seq<char>>,
    pub selected: Option<int>,
}

/// The modes in which typed characters edit a text buffer.
pub open spec fn accepts_text(mode: InputMode) -> bool {
    mode == InputMode::Search || mode == InputMode::AddKey || mode == InputMode::AddValue || mode
        == InputMode::Edit
}

/// The buffer that typed characters edit in the current mode: the query in
/// `Search`, the key in `AddKey`, the value in `AddValue` and `Edit`.
pub open spec fn active_text(v: AppView) -> Seq<char> {
    if v.mode == InputMode::Search {
        v.query
    } else if v.mode == InputMode::AddKey {
        v.key_in
    } else if v.mode == InputMode::AddValue || v.mode == InputMode::Edit {
        v.value_in
    } else {
        Seq::empty()
    }
}

/// `v` with the active buffer set to `t` and the cursor to `c`; in `Search`
/// the filtered list is rebuilt from the new query, with nothing selected.
pub open spec fn with_text(v: AppView, t: Seq<char>, c: int) -> AppView {
    if v.mode == InputMode::Search {
        AppView { query: t, cursor: c, list: filter_keys(v.keys, t), selected: None, ..v }
    } else if v.mode == InputMode::AddKey {
        AppView { key_in: t, cursor: c, ..v }
    } else if v.mode == InputMode::AddValue || v.mode == InputMode::Edit {
        AppView { value_in: t, cursor: c, ..v }
    } else {
        v
    }
}

/// Typing `c`: it goes in at the cursor, which moves past it.
pub open spec fn typed(v: AppView, c: char) -> AppView {
    if accepts_text(v.mode) {
        with_text(v, insert_at(active_text(v), v.cursor, c), v.cursor + 1)
    } else {
        v
    }
}

/// Backspace: the character before the cursor goes, and the cursor moves
/// back; at the start of the buffer nothing changes.
pub open spec fn erased(v: AppView) -> AppView {
    if accepts_text(v.mode) && v.cursor > 0 {
        with_text(v, remove_at(active_text(v), v.cursor - 1), v.cursor - 1)
    } else {
        v
    }
}

/// The cursor limited to the active buffer; 0 in modes without one.
pub open spec fn clamped(v: AppView, c: int) -> int {
    if !accepts_text(v.mode) || c < 0 {
        0
    } else if c < active_text(v).len() {
        c
    } else {
        active_text(v).len() as int
    }
}

/// Entering `Search` with an empty query: every key is listed, none selected.
pub open spec fn enter_search(v: AppView) -> AppView {
    AppView {
        mode: InputMode::Search,
        query: Seq::empty(),
        cursor: 0,
        list: filter_keys(v.keys, Seq::empty()),
        selected: None,
        ..v
    }
}

/// The state invariant: the cursor lies within the active buffer (and is 0
/// where there is none); in `Search` the list is the filtered key list with
/// nothing selected; in `Select`, `Edit` and `Delete` an item is selected;
/// a selection always points into the list.
pub open spec fn view_wf(v: AppView) -> bool {
    &&& if accepts_text(v.mode) {
        0 <= v.cursor <= active_text(v).len()
    } else {
        v.cursor == 0
    }
    &&& v.mode == InputMode::Search ==> v.list == filter_keys(v.keys, v.query) && v.selected
        is None
    &&& (v.mode == InputMode::Select || v.mode == InputMode::Edit || v.mode == InputMode::Delete)
        ==> v.selected is Some
    &&& v.selected matches Some(i) ==> 0 <= i < v.list.len()
}

/// The key that the selection points at.
pub open spec fn selected_key(v: AppView) -> Seq<char> {
    match v.selected {
        Some(i) => v.list[i],
        None => Seq::empty(),
    }
}

/// The key presses that read or change the store.
pub open spec fn uses_store(v: AppView, key: Key) -> bool {
    if v.mode == InputMode::Select {
        key == Key::Char('e') || key == Key::Enter
    } else if v.mode == InputMode::Edit {
        key == Key::Enter
    } else if v.mode == InputMode::Delete {
        key == Key::Char('y')
    } else if v.mode == InputMode::AddValue {
        key == Key::Enter && v.key_in.len() > 0 && v.value_in.len() > 0
    } else {
        false
    }
}

/// The one key press that ends the program: `q` at `Home`.
pub open spec fn quits(v: AppView, key: Key) -> bool {
    v.mode == InputMode::Home && key == Key::Char('q')
}

/// The state after a key press that does not touch the store. Keys that a
/// mode does not list leave the state as it is.
pub open spec fn step(v: AppView, key: Key) -> AppView {
    if v.mode == InputMode::Home {
        if key == Key::Char('a') {
            AppView { mode: InputMode::AddKey, key_in: Seq::empty(), cursor: 0, ..v }
        } else if key == Key::Char('s') {
            enter_search(v)
        } else {
            v
        }
    } else if v.mode == InputMode::Search {
        if key == Key::Esc {
            AppView { mode: InputMode::Home, query: Seq::empty(), cursor: 0, ..v }
        } else if key == Key::Enter {
            if v.list.len() > 0 {
                AppView {
                    mode: InputMode::Select,
                    selected: Some(0),
                    query: Seq::empty(),
                    cursor: 0,
                    ..v
                }
            } else {
                v
            }
        } else {
            edited(v, key)
        }
    } else if v.mode == InputMode::Select {
        if key == Key::Esc {
            enter_search(v)
        } else if key == Key::Char('j') || key == Key::Down {
            AppView { selected: next_index(v.selected, v.list.len() as int), ..v }
        } else if key == Key::Char('k') || key == Key::Up {
            AppView { selected: previous_index(v.selected, v.list.len() as int), ..v }
        } else if key == Key::Char('d') && v.selected is Some {
            AppView { mode: InputMode::Delete, ..v }
        } else {
            v
        }
    } else if v.mode == InputMode::Edit {
        if key == Key::Esc {
            AppView {
                mode: InputMode::Select,
                value_in: Seq::empty(),
                query: Seq::empty(),
                cursor: 0,
                ..v
            }
        } else {
            edited(v, key)
        }
    } else if v.mode == InputMode::Delete {
        if key == Key::Esc {
            AppView { mode: InputMode::Select, ..v }
        } else {
            v
        }
    } else if v.mode == InputMode::AddKey {
        if key == Key::Esc {
            AppView {
                mode: InputMode::Home,
                key_in: Seq::empty(),
                value_in: Seq::empty(),
                cursor: 0,
                ..v
            }
        } else if key == Key::Enter {
            if v.key_in.len() > 0 {
                AppView { mode: InputMode::AddValue, cursor: v.value_in.len() as int, ..v }
            } else {
                v
            }
        } else {
            edited(v, key)
        }
    } else {
        if key == Key::Esc {
            AppView { mode: InputMode::AddKey, cursor: v.key_in.len() as int, ..v }
        } else {
            edited(v, key)
        }
    }
}

/// A character or a backspace in a mode with a text buffer.
pub open spec fn edited(v: AppView, key: Key) -> AppView {
    match key {
        Key::Char(c) => typed(v, c),
        Key::Backspace => erased(v),
        _ => v,
    }
}

/// Reading the selected entry in `Select`: `e` loads its value into the
/// value buffer and enters `Edit`; Enter hands the value out to be copied.
/// An absent entry changes nothing; on an error the state stays as it was.
pub open spec fn read_step(
    v: AppView,
    post: AppView,
    key: Key,
    before: Map<Seq<u8>, Seq<u8>>,
    after: Map<Seq<u8>, Seq<u8>>,
    r: Result<Outcome, KvsError>,
) -> bool {
    let k = encode_utf8(selected_key(v));
    &&& after == before
    &&& match r {
        Ok(Outcome::Copy(text)) => key == Key::Enter && post == v && before.contains_key(k)
            && before[k] == encode_utf8(text@),
        Ok(Outcome::Continue) => if key == Key::Enter {
            post == v && !before.contains_key(k)
        } else if before.contains_key(k) {
            before[k] == encode_utf8(post.value_in) && post == AppView {
                mode: InputMode::Edit,
                value_in: post.value_in,
                cursor: post.value_in.len() as int,
                ..v
            }
        } else {
            post == v
        },
        Ok(Outcome::Quit) => false,
        Err(e) => post == v && (e is Decode ==> before.contains_key(k) && !valid_utf8(before[k]))
            && (before.contains_key(k) && valid_utf8(before[k]) ==> e is Storage),
    }
}

/// Enter in `Edit`: the value buffer is stored under the selected key, and
/// the machine returns to `Select` with the value buffer and query cleared.
pub open spec fn commit_step(
    v: AppView,
    post: AppView,
    before: Map<Seq<u8>, Seq<u8>>,
    after: Map<Seq<u8>, Seq<u8>>,
    r: Result<Outcome, KvsError>,
) -> bool {
    match r {
        Ok(Outcome::Continue) => after == before.insert(
            encode_utf8(selected_key(v)),
            encode_utf8(v.value_in),
        ) && post == AppView {
            mode: InputMode::Select,
            value_in: Seq::empty(),
            query: Seq::empty(),
            cursor: 0,
            ..v
        },
        Ok(_) => false,
        Err(e) => post == v && e is Storage,
    }
}

/// `y` in `Delete`: the selected entry is removed, the keys are fetched
/// afresh, and the machine returns to `Search` with an empty query, which
/// lists every key. A decode failure comes only after the removal succeeded,
/// from a key in the store that is not valid UTF-8; on an error the state
/// stays as it was.
pub open spec fn delete_step(
    v: AppView,
    post: AppView,
    before: Map<Seq<u8>, Seq<u8>>,
    after: Map<Seq<u8>, Seq<u8>>,
    r: Result<Outcome, KvsError>,
) -> bool {
    match r {
        Ok(Outcome::Continue) => after == before.remove(encode_utf8(selected_key(v)))
            && is_key_listing(after, encoded(post.keys)) && post.list == post.keys && post
            == AppView {
            mode: InputMode::Search,
            query: Seq::empty(),
            cursor: 0,
            keys: post.keys,
            list: filter_keys(post.keys, Seq::empty()),
            selected: None,
            ..v
        },
        Ok(_) => false,
        Err(e) => post == v && (e is Decode ==> after == before.remove(
            encode_utf8(selected_key(v)),
        ) && exists|k: Seq<u8>| #[trigger] after.contains_key(k) && !valid_utf8(k)),
    }
}

/// Enter in `AddValue` with both buffers filled: the entry is stored, the
/// keys are fetched afresh, both buffers are cleared and the machine returns
/// to `Home`. A decode failure comes only after the write succeeded, from a
/// key in the store that is not valid UTF-8; on an error the state stays as
/// it was.
pub open spec fn add_step(
    v: AppView,
    post: AppView,
    before: Map<Seq<u8>, Seq<u8>>,
    after: Map<Seq<u8>, Seq<u8>>,
    r: Result<Outcome, KvsError>,
) -> bool {
    match r {
        Ok(Outcome::Continue) => after == before.insert(
            encode_utf8(v.key_in),
            encode_utf8(v.value_in),
        ) && is_key_listing(after, encoded(post.keys)) && post == AppView {
            mode: InputMode::Home,
            key_in: Seq::empty(),
            value_in: Seq::empty(),
            cursor: 0,
            keys: post.keys,
            list: filter_keys(post.keys, v.query),
            selected: None,
            ..v
        },
        Ok(_) => false,
        Err(e) => post == v && (e is Decode ==> after == before.insert(
            encode_utf8(v.key_in),
            encode_utf8(v.value_in),
        ) && exists|k: Seq<u8>| #[trigger] after.contains_key(k) && !valid_utf8(k)),
    }
}

/// How one key press relates the state and the store before it to the
/// state, the store and the result after it.
pub open spec fn handled(
    v: AppView,
    post: AppView,
    key: Key,
    before: Map<Seq<u8>, Seq<u8>>,
    after: Map<Seq<u8>, Seq<u8>>,
    r: Result<Outcome, KvsError>,
) -> bool {
    if !uses_store(v, key) {
        &&& post == step(v, key)
        &&& after == before
        &&& r == if quits(v, key) {
            Ok::<Outcome, KvsError>(Outcome::Quit)
        } else {
            Ok::<Outcome, KvsError>(Outcome::Continue)
        }
    } else if v.mode == InputMode::Select {
        read_step(v, post, key, before, after, r)
    } else if v.mode == InputMode::Edit {
        commit_step(v, post, before, after, r)
    } else if v.mode == InputMode::Delete {
        delete_step(v, post, before, after, r)
    } else {
        add_step(v, post, before, after, r)
    }
}

/// The application state, owned by the event loop.
pub struct App {
    /// The search query, edited in `Search`.
    pub search_input: String,
    /// Every key in the store, as last fetched.
    pub key_list: Vec<String>,
    /// The keys that match the query, with the selection.
    pub stateful_key_list: StatefulList<String>,
    /// The key being added, edited in `AddKey`.
    pub key_input: String,
    /// The value being added or edited, in `AddValue` and `Edit`.
    pub value_input: String,
    /// The cursor, in characters, within the active buffer.
    pub cursor_position: usize,
    /// The current mode.
    pub mode: InputMode,
}

impl View for App {
    type V = AppView;

    open spec fn view(&self) -> AppView {
        AppView {
            mode: self.mode,
            query: self.search_input@,
            key_in: self.key_input@,
            value_in: self.value_input@,
            cursor: self.cursor_position as int,
            keys: texts(self.key_list@),
            list: texts(self.stateful_key_list.items@),
            selected: sel_int(self.stateful_key_list.selected),
        }
    }
}

/// A copy of a vector of strings.
fn copy_strings(v: &Vec<String>) -> (r: Vec<String>)
    ensures
        r@ == v@,
{
    let mut r: Vec<String> = Vec::new();
    let mut i: usize = 0;
    while i < v.len()
        invariant
            i <= v@.len(),
            r@ == v@.subrange(0, i as int),
        decreases v@.len() - i,
    {
        r.push(v[i].clone());
        proof {
            assert(v@.subrange(0, i as int + 1) =~= v@.subrange(0, i as int).push(v@[i as int]));
        }
        i += 1;
    }
    assert(v@.subrange(0, i as int) =~= v@);
    r
}

impl App {
    /// The state invariant, over the view.
    pub open spec fn wf(&self) -> bool {
        view_wf(self@)
    }

    /// The state at start: `Home`, with empty buffers, no keys and no selection.
    pub fn new() -> (r: Self)
        ensures
            r.wf(),
            r@.mode == InputMode::Home,
            r@.query.len() == 0,
            r@.key_in.len() == 0,
            r@.value_in.len() == 0,
            r@.cursor == 0,
            r@.keys.len() == 0,
            r@.list.len() == 0,
            r@.selected is None,
    {
        App {
            search_input: String::new(),
            key_input: String::new(),
            key_list: Vec::new(),
            stateful_key_list: StatefulList::with_items(Vec::new()),
            value_input: String::new(),
            cursor_position: 0,
            mode: InputMode::Home,
        }
    }

    /// Rebuilds the filtered list from the keys and the query, with nothing
    /// selected, and returns it.
    pub fn get_search_key_list(&mut self) -> (r: Vec<String>)
        ensures
            texts(r@) == filter_keys(texts(old(self).key_list@), old(self).search_input@),
            final(self)@ == (AppView {
                list: texts(r@),
                selected: None,
                ..old(self)@
            }),
            final(self).stateful_key_list.items@ == r@,
            old(self).search_input@.len() == 0 ==> r@ == old(self).key_list@,
    {
        let r = recompute(&self.key_list, self.search_input.as_str());
        self.stateful_key_list = StatefulList::with_items(copy_strings(&r));
        r
    }

    /// A copy of the filtered list and its selection.
    pub fn get_statefule_list(&mut self) -> (r: StatefulList<String>)
        ensures
            *final(self) == *old(self),
            r.items@ == old(self).stateful_key_list.items@,
            r.selected == old(self).stateful_key_list.selected,
    {
        StatefulList {
            selected: self.stateful_key_list.selected,
            items: copy_strings(&self.stateful_key_list.items),
        }
    }

    /// The filtered list and its selection, to change in place.
    pub fn get_mut_stateful_key_list(&mut self) -> (r: &mut StatefulList<String>)
        ensures
            *r == old(self).stateful_key_list,
            final(self).stateful_key_list == *final(r),
            final(self).search_input == old(self).search_input,
            final(self).key_list == old(self).key_list,
            final(self).key_input == old(self).key_input,
            final(self).value_input == old(self).value_input,
            final(self).cursor_position == old(self).cursor_position,
            final(self).mode == old(self).mode,
    {
        &mut self.stateful_key_list
    }

    /// Replaces the keys with a fresh listing of the store and rebuilds the
    /// filtered list from them, with nothing selected.
    pub fn sync_key_list(&mut self, key_list: Vec<String>)
        ensures
            final(self)@ == (AppView {
                keys: texts(key_list@),
                list: filter_keys(texts(key_list@), old(self).search_input@),
                selected: None,
                ..old(self)@
            }),
            old(self).search_input@.len() == 0 ==> final(self)@.list == texts(key_list@),
    {
        self.key_list = key_list;
        self.get_search_key_list();
    }

    /// The key that the selection points at, if any.
    pub fn get_selected_key(&self) -> (r: Option<String>)
        requires
            self.stateful_key_list.wf(),
        ensures
            r is Some <==> self@.selected is Some,
            r matches Some(k) ==> k@ == selected_key(self@),
    {
        match self.stateful_key_list.selected {
            Some(i) => Some(self.stateful_key_list.items[i].clone()),
            None => None,
        }
    }

    /// The length in characters of the active buffer.
    fn active_len(&self) -> (r: usize)
        ensures
            r == active_text(self@).len(),
    {
        match self.mode {
            InputMode::Search => self.search_input.as_str().unicode_len(),
            InputMode::AddKey => self.key_input.as_str().unicode_len(),
            InputMode::AddValue | InputMode::Edit => self.value_input.as_str().unicode_len(),
            _ => 0,
        }
    }

    /// `new_cursor_position` limited to the active buffer; 0 in modes
    /// without one.
    pub fn clamp_cursor_position(&self, new_cursor_position: usize) -> (r: usize)
        ensures
            r == clamped(self@, new_cursor_position as int),
    {
        let len = self.active_len();
        if !(matches!(self.mode, InputMode::Search | InputMode::AddKey | InputMode::AddValue | InputMode::Edit)) {
            0
        } else if new_cursor_position < len {
            new_cursor_position
        } else {
            len
        }
    }

    /// Moves the cursor one character right, stopping at the end of the
    /// active buffer.
    pub fn move_cursor_right(&mut self)
        requires
            old(self).wf(),
        ensures
            final(self).wf(),
            final(self)@ == (AppView {
                cursor: clamped(old(self)@, old(self)@.cursor + 1),
                ..old(self)@
            }),
    {
        let len = self.active_len();
        if self.cursor_position < len {
            self.cursor_position = self.cursor_position + 1;
        } else {
            self.cursor_position = self.clamp_cursor_position(self.cursor_position);
        }
    }

    /// Moves the cursor one character left, stopping at the start.
    pub fn move_cursor_left(&mut self)
        requires
            old(self).wf(),
        ensures
            final(self).wf(),
            final(self)@ == (AppView {
                cursor: clamped(old(self)@, old(self)@.cursor - 1),
                ..old(self)@
            }),
    {
        let moved = self.cursor_position.saturating_sub(1);
        self.cursor_position = self.clamp_cursor_position(moved);
    }

    /// Types `c` into the active buffer at the cursor and moves the cursor
    /// past it; in `Search` the filtered list follows the new query. Modes
    /// without a buffer ignore it.
    pub fn enter_char(&mut self, c: char)
        requires
            old(self).wf(),
        ensures
            final(self).wf(),
            final(self)@ == typed(old(self)@, c),
    {
        match self.mode {
            InputMode::Search => {
                self.search_input = insert_char_at(self.search_input.as_str(), self.cursor_position, c);
                let new_len = self.search_input.as_str().unicode_len();
                assert(self.cursor_position < new_len);
                self.cursor_position = self.cursor_position + 1;
                self.get_search_key_list();
            },
            InputMode::AddKey => {
                self.key_input = insert_char_at(self.key_input.as_str(), self.cursor_position, c);
                let new_len = self.key_input.as_str().unicode_len();
                assert(self.cursor_position < new_len);
                self.cursor_position = self.cursor_position + 1;
            },
            InputMode::AddValue | InputMode::Edit => {
                self.value_input = insert_char_at(self.value_input.as_str(), self.cursor_position, c);
                let new_len = self.value_input.as_str().unicode_len();
                assert(self.cursor_position < new_len);
                self.cursor_position = self.cursor_position + 1;
            },
            _ => {},
        }
    }

    /// Removes the character before the cursor from the active buffer and
    /// moves the cursor back; at the start of the buffer nothing changes.
    /// In `Search` the filtered list follows the new query.
    pub fn delete_char(&mut self)
        requires
            old(self).wf(),
        ensures
            final(self).wf(),
            final(self)@ == erased(old(self)@),
    {
        if self.cursor_position == 0 {
            return;
        }
        match self.mode {
            InputMode::Search => {
                self.search_input = remove_char_at(self.search_input.as_str(), self.cursor_position - 1);
                self.cursor_position = self.cursor_position - 1;
                self.get_search_key_list();
            },
            InputMode::AddKey => {
                self.key_input = remove_char_at(self.key_input.as_str(), self.cursor_position - 1);
                self.cursor_position = self.cursor_position - 1;
            },
            InputMode::AddValue | InputMode::Edit => {
                self.value_input = remove_char_at(self.value_input.as_str(), self.cursor_position - 1);
                self.cursor_position = self.cursor_position - 1;
            },
            _ => {},
        }
    }
    /// Deletes the selected entry, fetches the keys afresh and returns to
    /// `Search` with an empty query. On an error the state is unchanged.
    fn remove_from_kvs(&mut self, kvs: &mut Kvs) -> (r: Result<Outcome, KvsError>)
        requires
            old(self).wf(),
            old(self).mode == InputMode::Delete,
        ensures
            final(self).wf(),
            delete_step(old(self)@, final(self)@, old(kvs)@, final(kvs)@, r),
    {
        let key = self.get_selected_key().unwrap();
        match kvs.delete(key.as_str()) {
            Ok(()) => {},
            Err(e) => {
                return Err(e);
            },
        }
        let keys = match kvs.get_key_vec() {
            Ok(ks) => ks,
            Err(e) => {
                return Err(e);
            },
        };
        self.mode = InputMode::Search;
        self.search_input = String::new();
        self.cursor_position = 0;
        self.sync_key_list(keys);
        Ok(Outcome::Continue)
    }

    /// Stores the key and value buffers when both are filled, fetches the
    /// keys afresh, clears both buffers and returns to `Home`. On an error
    /// the state is unchanged.
    fn add_to_kvs(&mut self, kvs: &mut Kvs) -> (r: Result<Outcome, KvsError>)
        requires
            old(self).wf(),
            old(self).mode == InputMode::AddValue,
            old(self)@.key_in.len() > 0,
            old(self)@.value_in.len() > 0,
        ensures
            final(self).wf(),
            add_step(old(self)@, final(self)@, old(kvs)@, final(kvs)@, r),
    {
        match kvs.insert(self.key_input.as_str(), self.value_input.as_str()) {
            Ok(()) => {},
            Err(e) => {
                return Err(e);
            },
        }
        let keys = match kvs.get_key_vec() {
            Ok(ks) => ks,
            Err(e) => {
                return Err(e);
            },
        };
        self.key_input = String::new();
        self.value_input = String::new();
        self.cursor_position = 0;
        self.mode = InputMode::Home;
        self.sync_key_list(keys);
        Ok(Outcome::Continue)
    }

    /// Reads the selected entry: `e` starts editing its value, Enter hands
    /// the value out to be copied.
    fn read_selected(&mut self, key: Key, kvs: &mut Kvs) -> (r: Result<Outcome, KvsError>)
        requires
            old(self).wf(),
            old(self).mode == InputMode::Select,
            key == Key::Char('e') || key == Key::Enter,
        ensures
            final(self).wf(),
            read_step(old(self)@, final(self)@, key, old(kvs)@, final(kvs)@, r),
    {
        let selected = self.get_selected_key().unwrap();
        match kvs.get(selected.as_str()) {
            Ok(Some(value)) => {
                if key == Key::Enter {
                    Ok(Outcome::Copy(value))
                } else {
                    self.cursor_position = value.as_str().unicode_len();
                    self.value_input = value;
                    self.mode = InputMode::Edit;
                    Ok(Outcome::Continue)
                }
            },
            Ok(None) => Ok(Outcome::Continue),
            Err(e) => Err(e),
        }
    }

    /// Stores the value buffer under the selected key and returns to
    /// `Select`. On an error the state is unchanged.
    fn commit_edit(&mut self, kvs: &mut Kvs) -> (r: Result<Outcome, KvsError>)
        requires
            old(self).wf(),
            old(self).mode == InputMode::Edit,
        ensures
            final(self).wf(),
            commit_step(old(self)@, final(self)@, old(kvs)@, final(kvs)@, r),
    {
        let selected = self.get_selected_key().unwrap();
        match kvs.insert(selected.as_str(), self.value_input.as_str()) {
            Ok(()) => {
                self.mode = InputMode::Select;
                self.value_input = String::new();
                self.search_input = String::new();
                self.cursor_position = 0;
                Ok(Outcome::Continue)
            },
            Err(e) => Err(e),
        }
    }

    /// Handles one key press: dispatches on the mode and the key, edits the
    /// active buffer, moves the selection, changes mode, and reads or
    /// changes the store where the mode calls for it. A key that the mode
    /// does not list changes nothing.
    pub fn handle_key(&mut self, key: Key, kvs: &mut Kvs) -> (r: Result<Outcome, KvsError>)
        requires
            old(self).wf(),
        ensures
            final(self).wf(),
            handled(old(self)@, final(self)@, key, old(kvs)@, final(kvs)@, r),
    {
        match self.mode {
            InputMode::Home => match key {
                Key::Char('q') => Ok(Outcome::Quit),
                Key::Char('a') => {
                    self.mode = InputMode::AddKey;
                    self.key_input = String::new();
                    self.cursor_position = 0;
                    Ok(Outcome::Continue)
                },
                Key::Char('s') => {
                    self.start_search();
                    Ok(Outcome::Continue)
                },
                _ => Ok(Outcome::Continue),
            },
            InputMode::Search => match key {
                Key::Esc => {
                    self.mode = InputMode::Home;
                    self.search_input = String::new();
                    self.cursor_position = 0;
                    Ok(Outcome::Continue)
                },
                Key::Enter => {
                    if self.stateful_key_list.items.len() > 0 {
                        self.mode = InputMode::Select;
                        self.stateful_key_list.selected = Some(0);
                        self.search_input = String::new();
                        self.cursor_position = 0;
                    }
                    Ok(Outcome::Continue)
                },
                Key::Backspace => {
                    self.delete_char();
                    Ok(Outcome::Continue)
                },
                Key::Char(c) => {
                    self.enter_char(c);
                    Ok(Outcome::Continue)
                },
                _ => Ok(Outcome::Continue),
            },
            InputMode::Select => match key {
                Key::Esc => {
                    self.start_search();
                    Ok(Outcome::Continue)
                },
                Key::Char('j') | Key::Down => {
                    self.stateful_key_list.next();
                    Ok(Outcome::Continue)
                },
                Key::Char('k') | Key::Up => {
                    self.stateful_key_list.previous();
                    Ok(Outcome::Continue)
                },
                Key::Char('d') => {
                    if self.stateful_key_list.selected.is_some() {
                        self.mode = InputMode::Delete;
                    }
                    Ok(Outcome::Continue)
                },
                Key::Char('e') | Key::Enter => self.read_selected(key, kvs),
                _ => Ok(Outcome::Continue),
            },
            InputMode::Edit => match key {
                Key::Esc => {
                    self.mode = InputMode::Select;
                    self.value_input = String::new();
                    self.search_input = String::new();
                    self.cursor_position = 0;
                    Ok(Outcome::Continue)
                },
                Key::Enter => self.commit_edit(kvs),
                Key::Backspace => {
                    self.delete_char();
                    Ok(Outcome::Continue)
                },
                Key::Char(c) => {
                    self.enter_char(c);
                    Ok(Outcome::Continue)
                },
                _ => Ok(Outcome::Continue),
            },
            InputMode::Delete => match key {
                Key::Char('y') => self.remove_from_kvs(kvs),
                Key::Esc => {
                    self.mode = InputMode::Select;
                    Ok(Outcome::Continue)
                },
                _ => Ok(Outcome::Continue),
            },
            InputMode::AddKey => match key {
                Key::Esc => {
                    self.mode = InputMode::Home;
                    self.key_input = String::new();
                    self.value_input = String::new();
                    self.cursor_position = 0;
                    Ok(Outcome::Continue)
                },
                Key::Enter => {
                    if self.key_input.as_str().unicode_len() > 0 {
                        self.cursor_position = self.value_input.as_str().unicode_len();
                        self.mode = InputMode::AddValue;
                    }
                    Ok(Outcome::Continue)
                },
                Key::Backspace => {
                    self.delete_char();
                    Ok(Outcome::Continue)
                },
                Key::Char(c) => {
                    self.enter_char(c);
                    Ok(Outcome::Continue)
                },
                _ => Ok(Outcome::Continue),
            },
            InputMode::AddValue => match key {
                Key::Esc => {
                    self.cursor_position = self.key_input.as_str().unicode_len();
                    self.mode = InputMode::AddKey;
                    Ok(Outcome::Continue)
                },
                Key::Enter => {
                    if self.key_input.as_str().unicode_len() > 0
                        && self.value_input.as_str().unicode_len() > 0 {
                        self.add_to_kvs(kvs)
                    } else {
                        Ok(Outcome::Continue)
                    }
                },
                Key::Backspace => {
                    self.delete_char();
                    Ok(Outcome::Continue)
                },
                Key::Char(c) => {
                    self.enter_char(c);
                    Ok(Outcome::Continue)
                },
                _ => Ok(Outcome::Continue),
            },
        }
    }

    /// Enters `Search` with an empty query, listing every key.
    fn start_search(&mut self)
        requires
            old(self).wf(),
        ensures
            final(self).wf(),
            final(self)@ == enter_search(old(self)@),
    {
        self.mode = InputMode::Search;
        self.search_input = String::new();
        self.cursor_position = 0;
        self.get_search_key_list();
    }
}

} // verus!
