//! Menu state and platform knowledge for the application shell.
//!
//! The shell asks two things of the library: which modifier key and menu
//! identifiers belong to a platform, and a store of per-item menu state that
//! the frontend updates dynamically. The store is a map from item id to item
//! state, held as a vector of unique-key entries and specified through a
//! `Map` view.

use vstd::prelude::*;

verus! {

/// The desktop platforms the shell runs on.
#[derive(Debug, Clone, Copy, PartialEq, Eq, Structural)]
pub enum Platform {
    MacOS,
    Windows,
    Linux,
}

impl Platform {
    /// Whether this is macOS.
    pub fn is_macos(&self) -> (r: bool)
        ensures
            r == (*self is MacOS),
    {
        matches!(self, Platform::MacOS)
    }

    /// Whether this is Windows.
    pub fn is_windows(&self) -> (r: bool)
        ensures
            r == (*self is Windows),
    {
        matches!(self, Platform::Windows)
    }

    /// Whether this is Linux.
    pub fn is_linux(&self) -> (r: bool)
        ensures
            r == (*self is Linux),
    {
        matches!(self, Platform::Linux)
    }

    /// The platform's menu modifier key name: `Cmd` on macOS, `Ctrl`
    /// elsewhere.
    pub fn modifier_key(&self) -> (r: &'static str)
        ensures
            *self is MacOS ==> r@ == "Cmd"@,
            !(*self is MacOS) ==> r@ == "Ctrl"@,
    {
        match self {
            Platform::MacOS => "Cmd",
            Platform::Windows | Platform::Linux => "Ctrl",
        }
    }
}

/// One menu item's dynamic state.
pub struct MenuItemState {
    pub id: String,
    pub enabled: bool,
    pub checked: bool,
    pub title: Option<String>,
}

/// The mathematical value of a menu item state: the same fields with
/// strings as character sequences.
pub struct MenuItemStateView {
    pub id: Seq<char>,
    pub enabled: bool,
    pub checked: bool,
    pub title: Option<Seq<char>>,
}

impl View for MenuItemState {
    type V = MenuItemStateView;

    open spec fn view(&self) -> MenuItemStateView {
        MenuItemStateView {
            id: self.id@,
            enabled: self.enabled,
            checked: self.checked,
            title: match self.title {
                Some(t) => Some(t@),
                None => None,
            },
        }
    }
}

impl Clone for MenuItemState {
    /// A clone carries the same value.
    fn clone(&self) -> (r: Self)
        ensures
            r@ == self@,
    {
        MenuItemState {
            id: self.id.clone(),
            enabled: self.enabled,
            checked: self.checked,
            title: match &self.title {
                Some(t) => Some(t.clone()),
                None => None,
            },
        }
    }
}

/// A context menu item as the frontend defines it.
pub struct ContextMenuItem {
    pub id: String,
    pub label: String,
    pub enabled: bool,
    pub shortcut: Option<String>,
}

/// The map a sequence of keyed entries denotes: later entries win.
pub open spec fn entries_map(entries: Seq<(String, MenuItemState)>) -> Map<
    Seq<char>,
    MenuItemStateView,
>
    decreases entries.len(),
{
    if entries.len() == 0 {
        Map::empty()
    } else {
        entries_map(entries.drop_last()).insert(entries.last().0@, entries.last().1@)
    }
}

/// Whether the entries carry pairwise distinct keys.
pub open spec fn keys_unique(entries: Seq<(String, MenuItemState)>) -> bool {
    forall|i: int, j: int|
        0 <= i < j < entries.len() ==> (#[trigger] entries[i]).0@ != (#[trigger] entries[j]).0@
}

/// A key occurs in the denoted map exactly when some entry carries it.
proof fn lemma_entries_map_dom(entries: Seq<(String, MenuItemState)>, k: Seq<char>)
    ensures
        entries_map(entries).contains_key(k) <==> exists|i: int|
            0 <= i < entries.len() && (#[trigger] entries[i]).0@ == k,
    decreases entries.len(),
{
    if entries.len() > 0 {
        lemma_entries_map_dom(entries.drop_last(), k);
        if entries.last().0@ == k {
            assert(entries[entries.len() - 1].0@ == k);
        } else if entries_map(entries).contains_key(k) {
            let i = choose|i: int|
                0 <= i < entries.len() - 1 && (#[trigger] entries.drop_last()[i]).0@ == k;
            assert(entries[i].0@ == k);
        } else {
            assert forall|i: int| 0 <= i < entries.len() implies (#[trigger] entries[i]).0@
                != k by {
                if i < entries.len() - 1 {
                    assert(entries.drop_last()[i] == entries[i]);
                }
            }
        }
    }
}

/// Under unique keys, the denoted map sends an entry's key to that entry's
/// value.
proof fn lemma_entries_map_at(entries: Seq<(String, MenuItemState)>, j: int)
    requires
        keys_unique(entries),
        0 <= j < entries.len(),
    ensures
        entries_map(entries).contains_key(entries[j].0@),
        entries_map(entries)[entries[j].0@] == entries[j].1@,
    decreases entries.len(),
{
    if j == entries.len() - 1 {
    } else {
        assert(keys_unique(entries.drop_last()));
        assert(entries.drop_last()[j] == entries[j]);
        lemma_entries_map_at(entries.drop_last(), j);
        assert(entries[j].0@ != entries.last().0@);
    }
}

/// Replacing the entry that carries a key denotes the same map as inserting
/// the new value at that key.
proof fn lemma_entries_map_update(
    entries: Seq<(String, MenuItemState)>,
    j: int,
    x: (String, MenuItemState),
)
    requires
        keys_unique(entries),
        0 <= j < entries.len(),
        x.0@ == entries[j].0@,
    ensures
        entries_map(entries.update(j, x)) =~= entries_map(entries).insert(x.0@, x.1@),
    decreases entries.len(),
{
    let updated = entries.update(j, x);
    if j == entries.len() - 1 {
        assert(updated.drop_last() =~= entries.drop_last());
        assert(updated.last() == x);
    } else {
        assert(keys_unique(entries.drop_last()));
        assert(entries.drop_last()[j] == entries[j]);
        lemma_entries_map_update(entries.drop_last(), j, x);
        assert(updated.drop_last() =~= entries.drop_last().update(j, x));
        assert(updated.last() == entries.last());
        assert(entries[j].0@ != entries.last().0@);
    }
}

/// Appending an entry denotes inserting its key and value.
proof fn lemma_entries_map_push(entries: Seq<(String, MenuItemState)>, x: (String, MenuItemState))
    ensures
        entries_map(entries.push(x)) == entries_map(entries).insert(x.0@, x.1@),
{
    assert(entries.push(x).drop_last() =~= entries);
    assert(entries.push(x).last() == x);
}

/// What a partial update makes of a possibly missing stored state: absent
/// fields keep the stored value, and a missing state starts from the default
/// (enabled, unchecked, no title) under the updated id.
pub open spec fn spec_updated_item(
    prev: Option<MenuItemStateView>,
    id: Seq<char>,
    enabled: Option<bool>,
    checked: Option<bool>,
    title: Option<Seq<char>>,
) -> MenuItemStateView {
    let base = match prev {
        Some(s) => s,
        None => MenuItemStateView { id, enabled: true, checked: false, title: None },
    };
    MenuItemStateView {
        id: base.id,
        enabled: match enabled {
            Some(e) => e,
            None => base.enabled,
        },
        checked: match checked {
            Some(c) => c,
            None => base.checked,
        },
        title: match title {
            Some(t) => Some(t),
            None => base.title,
        },
    }
}

/// The menu state store: at most one entry per item id, read and updated by
/// id. Its view is the map from item id to item state.
pub struct MenuState {
    pub entries: Vec<(String, MenuItemState)>,
}

impl View for MenuState {
    type V = Map<Seq<char>, MenuItemStateView>;

    open spec fn view(&self) -> Map<Seq<char>, MenuItemStateView> {
        entries_map(self.entries@)
    }
}

impl MenuState {
    /// The store never holds two entries for the same id.
    pub open spec fn wf(&self) -> bool {
        keys_unique(self.entries@)
    }

    /// An empty store.
    pub fn new() -> (s: Self)
        ensures
            s.wf(),
            s@ == Map::<Seq<char>, MenuItemStateView>::empty(),
    {
        MenuState { entries: Vec::new() }
    }

    /// Store `state` under `id`, replacing whatever the id mapped to.
    pub fn update_item(&mut self, id: String, state: MenuItemState)
        requires
            old(self).wf(),
        ensures
            final(self).wf(),
            final(self)@ == old(self)@.insert(id@, state@),
    {
        let n = self.entries.len();
        let mut i: usize = 0;
        while i < n
            invariant
                self == old(self),
                keys_unique(self.entries@),
                n == self.entries@.len(),
                0 <= i <= n,
                forall|j: int| 0 <= j < i ==> (#[trigger] self.entries@[j]).0@ != id@,
            decreases n - i,
        {
            if self.entries[i].0 == id {
                proof {
                    lemma_entries_map_update(self.entries@, i as int, (id, state));
                }
                let ghost before = self.entries@;
                self.entries[i] = (id, state);
                proof {
                    assert forall|m: int| 0 <= m < self.entries@.len() implies (#[trigger] self
                        .entries@[m]).0@ == before[m].0@ by {}
                    assert(keys_unique(self.entries@));
                }
                return;
            }
            i += 1;
        }
        proof {
            lemma_entries_map_push(self.entries@, (id, state));
            assert forall|j: int| 0 <= j < self.entries@.len() implies (#[trigger] self
                .entries@[j]).0@ != id@ by {}
        }
        self.entries.push((id, state));
    }

    /// Merge a partial update into the state stored under `id`: fields that
    /// the update leaves out keep their stored value, and an id that was
    /// never stored starts from the default state (enabled, unchecked, no
    /// title).
    pub fn apply_update(
        &mut self,
        id: String,
        enabled: Option<bool>,
        checked: Option<bool>,
        title: Option<String>,
    )
        requires
            old(self).wf(),
        ensures
            final(self).wf(),
            final(self)@ == old(self)@.insert(
                id@,
                spec_updated_item(
                    if old(self)@.contains_key(id@) {
                        Some(old(self)@[id@])
                    } else {
                        None
                    },
                    id@,
                    enabled,
                    checked,
                    match title {
                        Some(t) => Some(t@),
                        None => None,
                    },
                ),
            ),
    {
        let mut item = match self.get_item(id.as_str()) {
            Some(existing) => existing,
            None => MenuItemState { id: id.clone(), enabled: true, checked: false, title: None },
        };
        match enabled {
            Some(e) => {
                item.enabled = e;
            },
            None => {},
        }
        match checked {
            Some(c) => {
                item.checked = c;
            },
            None => {},
        }
        match title {
            Some(t) => {
                item.title = Some(t);
            },
            None => {},
        }
        self.update_item(id, item);
    }

    /// Read the state stored under `id`, if any.
    pub fn get_item(&self, id: &str) -> (r: Option<MenuItemState>)
        requires
            self.wf(),
        ensures
            match r {
                Some(state) => self@.contains_key(id@) && state@ == self@[id@],
                None => !self@.contains_key(id@),
            },
    {
        let key = id.to_owned();
        let n = self.entries.len();
        let mut i: usize = 0;
        while i < n
            invariant
                self.wf(),
                key@ == id@,
                n == self.entries@.len(),
                0 <= i <= n,
                forall|j: int| 0 <= j < i ==> (#[trigger] self.entries@[j]).0@ != id@,
            decreases n - i,
        {
            if self.entries[i].0 == key {
                proof {
                    lemma_entries_map_at(self.entries@, i as int);
                }
                return Some(self.entries[i].1.clone());
            }
            i += 1;
        }
        proof {
            lemma_entries_map_dom(self.entries@, id@);
        }
        None
    }
}

/// The menu events the shell dispatches to the frontend.
pub enum MenuEvent {
    NewTab,
    CloseTab,
    Copy,
    Paste,
    Clear,
    ShowRecordingControls,
    ShowPerformanceMonitor,
    ShowAIAssistant,
    About,
    Preferences,
    Quit,
}

/// The identifier each menu event is dispatched under.
pub open spec fn spec_event_id(e: MenuEvent) -> Seq<char> {
    match e {
        MenuEvent::NewTab => "new_tab"@,
        MenuEvent::CloseTab => "close_tab"@,
        MenuEvent::Copy => "copy"@,
        MenuEvent::Paste => "paste"@,
        MenuEvent::Clear => "clear"@,
        MenuEvent::ShowRecordingControls => "show_recording_controls"@,
        MenuEvent::ShowPerformanceMonitor => "show_performance_monitor"@,
        MenuEvent::ShowAIAssistant => "show_ai_assistant"@,
        MenuEvent::About => "about"@,
        MenuEvent::Preferences => "preferences"@,
        MenuEvent::Quit => "quit"@,
    }
}

impl MenuEvent {
    /// The event's identifier string.
    pub fn id(&self) -> (r: &'static str)
        ensures
            r@ == spec_event_id(*self),
    {
        match self {
            MenuEvent::NewTab => "new_tab",
            MenuEvent::CloseTab => "close_tab",
            MenuEvent::Copy => "copy",
            MenuEvent::Paste => "paste",
            MenuEvent::Clear => "clear",
            MenuEvent::ShowRecordingControls => "show_recording_controls",
            MenuEvent::ShowPerformanceMonitor => "show_performance_monitor",
            MenuEvent::ShowAIAssistant => "show_ai_assistant",
            MenuEvent::About => "about",
            MenuEvent::Preferences => "preferences",
            MenuEvent::Quit => "quit",
        }
    }
}

} // verus!
