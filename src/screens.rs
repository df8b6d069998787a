use std::cmp::Ordering;

use vstd::prelude::*;
use vstd::string::StrSliceExecFns;

use crate::entities::Song;

verus! {

/// The screens of the client, in the order the tab keys walk through them.
#[derive(Debug, Default, Clone, Copy, PartialEq, Eq, Structural)]
pub enum Screens {
    #[default]
    Queue,
    Logs,
    Directories,
    Artists,
    Albums,
    Playlists,
}

/// The position of a screen in the tab order.
pub open spec fn screen_pos(s: Screens) -> int {
    match s {
        Screens::Queue => 0,
        Screens::Logs => 1,
        Screens::Directories => 2,
        Screens::Artists => 3,
        Screens::Albums => 4,
        Screens::Playlists => 5,
    }
}

impl Screens {
    /// The screen after this one; after the last comes the first.
    pub fn next(self) -> (r: Screens)
        ensures
            screen_pos(r) == (screen_pos(self) + 1) % 6,
    {
        match self {
            Screens::Queue => Screens::Logs,
            Screens::Logs => Screens::Directories,
            Screens::Directories => Screens::Artists,
            Screens::Artists => Screens::Albums,
            Screens::Albums => Screens::Playlists,
            Screens::Playlists => Screens::Queue,
        }
    }

    /// The screen before this one; before the first comes the last.
    pub fn prev(self) -> (r: Screens)
        ensures
            screen_pos(r) == (screen_pos(self) + 5) % 6,
    {
        match self {
            Screens::Queue => Screens::Playlists,
            Screens::Playlists => Screens::Albums,
            Screens::Albums => Screens::Artists,
            Screens::Artists => Screens::Directories,
            Screens::Directories => Screens::Logs,
            Screens::Logs => Screens::Queue,
        }
    }
}

/// `b` follows `a` exactly when `a` comes before `b`, and a screen is known
/// by its position: so stepping back after stepping forward, or forward
/// after back, returns to the screen one started from.
pub proof fn lemma_next_prev_inverse(a: Screens, b: Screens)
    ensures
        (screen_pos(b) == (screen_pos(a) + 1) % 6) == (screen_pos(a) == (screen_pos(b) + 5) % 6),
        screen_pos(a) == screen_pos(b) ==> a == b,
{
}

/// The actions that every screen understands.
#[derive(Debug, Clone, Copy, PartialEq, Eq, Structural, Hash)]
pub enum CommonAction {
    Down,
    Up,
    MoveDown,
    MoveUp,
    DownHalf,
    UpHalf,
    Right,
    Left,
    Top,
    Bottom,
    EnterSearch,
    NextResult,
    PreviousResult,
    Select,
    Add,
    Delete,
    Rename,
    Close,
    Confirm,
    FocusInput,
}

/// One thing a browsing screen does to its directory stack, or through the
/// client, while it handles an action.
#[derive(Debug, Clone, Copy, PartialEq, Eq, Structural)]
pub enum BrowserStep {
    SelectPrev,
    SelectNext,
    NextHalfViewport,
    PrevHalfViewport,
    SelectLast,
    SelectFirst,
    /// Enter the selected entry.
    Descend,
    /// Leave the current directory.
    Pop,
    /// Turn on filter input with an empty filter.
    StartFilter,
    JumpNextMatching,
    JumpPreviousMatching,
    ToggleMark,
    MoveSelectedUp,
    MoveSelectedDown,
    /// Add each marked entry, the last marked first.
    AddMarked,
    AddSelected,
    /// Delete each marked entry, the last marked first.
    DeleteMarked,
    DeleteSelected,
    RenameSelected,
    /// Prepare and show the preview of the selected entry.
    Preview,
    /// Reload the screen's data, keeping its place.
    Refresh,
}

/// Whether the screen is to be drawn again after an action.
#[derive(Debug, Clone, Copy, PartialEq, Eq, Structural)]
pub enum Outcome {
    RenderRequested,
    SkipRender,
    /// What the one step that answers for the action returns.
    FromStep,
}

/// The steps by which a browsing screen handles `action`, given whether any
/// entry is marked and whether one is selected, and what it returns.
pub open spec fn common_action_plan(action: CommonAction, marked: bool, selected: bool) -> (
    Seq<BrowserStep>,
    Outcome,
) {
    match action {
        CommonAction::Up => (seq![BrowserStep::SelectPrev, BrowserStep::Preview], Outcome::RenderRequested),
        CommonAction::Down => (seq![BrowserStep::SelectNext, BrowserStep::Preview], Outcome::RenderRequested),
        CommonAction::MoveUp => (seq![BrowserStep::MoveSelectedUp, BrowserStep::Refresh], Outcome::FromStep),
        CommonAction::MoveDown => (seq![BrowserStep::MoveSelectedDown, BrowserStep::Refresh], Outcome::FromStep),
        CommonAction::DownHalf => (seq![BrowserStep::NextHalfViewport, BrowserStep::Preview], Outcome::RenderRequested),
        CommonAction::UpHalf => (seq![BrowserStep::PrevHalfViewport, BrowserStep::Preview], Outcome::RenderRequested),
        CommonAction::Bottom => (seq![BrowserStep::SelectLast, BrowserStep::Preview], Outcome::RenderRequested),
        CommonAction::Top => (seq![BrowserStep::SelectFirst, BrowserStep::Preview], Outcome::RenderRequested),
        CommonAction::Right => (seq![BrowserStep::Descend, BrowserStep::Preview], Outcome::FromStep),
        CommonAction::Left => (seq![BrowserStep::Pop, BrowserStep::Preview], Outcome::RenderRequested),
        CommonAction::EnterSearch => (seq![BrowserStep::StartFilter], Outcome::RenderRequested),
        CommonAction::NextResult => (seq![BrowserStep::JumpNextMatching, BrowserStep::Preview], Outcome::RenderRequested),
        CommonAction::PreviousResult => (
            seq![BrowserStep::JumpPreviousMatching, BrowserStep::Preview],
            Outcome::RenderRequested,
        ),
        CommonAction::Select => (
            seq![BrowserStep::ToggleMark, BrowserStep::SelectNext, BrowserStep::Preview],
            Outcome::RenderRequested,
        ),
        CommonAction::Add => if marked {
            (seq![BrowserStep::AddMarked], Outcome::RenderRequested)
        } else if selected {
            (seq![BrowserStep::AddSelected], Outcome::FromStep)
        } else {
            (Seq::empty(), Outcome::SkipRender)
        },
        CommonAction::Delete => if marked {
            (seq![BrowserStep::DeleteMarked, BrowserStep::Refresh], Outcome::RenderRequested)
        } else if selected {
            (seq![BrowserStep::DeleteSelected, BrowserStep::Refresh], Outcome::RenderRequested)
        } else {
            (Seq::empty(), Outcome::SkipRender)
        },
        CommonAction::Rename => if selected {
            (seq![BrowserStep::RenameSelected], Outcome::FromStep)
        } else {
            (Seq::empty(), Outcome::SkipRender)
        },
        CommonAction::FocusInput | CommonAction::Close | CommonAction::Confirm => (
            Seq::empty(),
            Outcome::SkipRender,
        ),
    }
}

/// Decides how a browsing screen handles one of the common actions; the
/// screen carries the steps out in order.
pub fn plan_common_action(action: CommonAction, marked: bool, selected: bool) -> (r: (
    Vec<BrowserStep>,
    Outcome,
))
    ensures
        (r.0@, r.1) == common_action_plan(action, marked, selected),
{
    let r = match action {
        CommonAction::Up => (vec![BrowserStep::SelectPrev, BrowserStep::Preview], Outcome::RenderRequested),
        CommonAction::Down => (vec![BrowserStep::SelectNext, BrowserStep::Preview], Outcome::RenderRequested),
        CommonAction::MoveUp => (vec![BrowserStep::MoveSelectedUp, BrowserStep::Refresh], Outcome::FromStep),
        CommonAction::MoveDown => (vec![BrowserStep::MoveSelectedDown, BrowserStep::Refresh], Outcome::FromStep),
        CommonAction::DownHalf => (vec![BrowserStep::NextHalfViewport, BrowserStep::Preview], Outcome::RenderRequested),
        CommonAction::UpHalf => (vec![BrowserStep::PrevHalfViewport, BrowserStep::Preview], Outcome::RenderRequested),
        CommonAction::Bottom => (vec![BrowserStep::SelectLast, BrowserStep::Preview], Outcome::RenderRequested),
        CommonAction::Top => (vec![BrowserStep::SelectFirst, BrowserStep::Preview], Outcome::RenderRequested),
        CommonAction::Right => (vec![BrowserStep::Descend, BrowserStep::Preview], Outcome::FromStep),
        CommonAction::Left => (vec![BrowserStep::Pop, BrowserStep::Preview], Outcome::RenderRequested),
        CommonAction::EnterSearch => (vec![BrowserStep::StartFilter], Outcome::RenderRequested),
        CommonAction::NextResult => (vec![BrowserStep::JumpNextMatching, BrowserStep::Preview], Outcome::RenderRequested),
        CommonAction::PreviousResult => (
            vec![BrowserStep::JumpPreviousMatching, BrowserStep::Preview],
            Outcome::RenderRequested,
        ),
        CommonAction::Select => (
            vec![BrowserStep::ToggleMark, BrowserStep::SelectNext, BrowserStep::Preview],
            Outcome::RenderRequested,
        ),
        CommonAction::Add => if marked {
            (vec![BrowserStep::AddMarked], Outcome::RenderRequested)
        } else if selected {
            (vec![BrowserStep::AddSelected], Outcome::FromStep)
        } else {
            (Vec::new(), Outcome::SkipRender)
        },
        CommonAction::Delete => if marked {
            (vec![BrowserStep::DeleteMarked, BrowserStep::Refresh], Outcome::RenderRequested)
        } else if selected {
            (vec![BrowserStep::DeleteSelected, BrowserStep::Refresh], Outcome::RenderRequested)
        } else {
            (Vec::new(), Outcome::SkipRender)
        },
        CommonAction::Rename => if selected {
            (vec![BrowserStep::RenameSelected], Outcome::FromStep)
        } else {
            (Vec::new(), Outcome::SkipRender)
        },
        CommonAction::FocusInput | CommonAction::Close | CommonAction::Confirm => (
            Vec::new(),
            Outcome::SkipRender,
        ),
    };
    assert(r.0@ =~= common_action_plan(action, marked, selected).0);
    r
}

/// A key pressed while a browsing screen takes filter input.
#[derive(Debug, Clone, Copy, PartialEq, Eq)]
pub enum FilterKey {
    Char(char),
    Backspace,
    Enter,
    Esc,
    Other,
}

/// Edits the filter for one key: a character is appended and backspace
/// removes the last one, where a filter is set; enter ends input and asks
/// for a jump to the next match (the result); escape ends input and drops
/// the filter.
pub fn handle_filter_input(filter: &mut Option<Vec<char>>, active: &mut bool, key: FilterKey) -> (jump: bool)
    ensures
        match key {
            FilterKey::Char(c) => !jump && *final(active) == *old(active) && match *old(filter) {
                Some(f) => final(filter).is_some() && final(filter)->0@ == f@.push(c),
                None => final(filter).is_none(),
            },
            FilterKey::Backspace => !jump && *final(active) == *old(active) && match *old(filter) {
                Some(f) => final(filter).is_some() && final(filter)->0@ == if f@.len() > 0 {
                    f@.drop_last()
                } else {
                    f@
                },
                None => final(filter).is_none(),
            },
            FilterKey::Enter => jump && !*final(active) && *final(filter) == *old(filter),
            FilterKey::Esc => !jump && !*final(active) && final(filter).is_none(),
            FilterKey::Other => !jump && *final(active) == *old(active) && *final(filter) == *old(filter),
        },
{
    match key {
        FilterKey::Char(c) => {
            match filter {
                Some(f) => f.push(c),
                None => {},
            }
            false
        },
        FilterKey::Backspace => {
            match filter {
                Some(f) => {
                    f.pop();
                },
                None => {},
            }
            false
        },
        FilterKey::Enter => {
            *active = false;
            true
        },
        FilterKey::Esc => {
            *active = false;
            *filter = None;
            false
        },
        FilterKey::Other => false,
    }
}

/// An entry of a directory listing.
#[derive(Debug, Clone, PartialEq, Eq, Ord)]
pub enum DirOrSong {
    Dir(String),
    Song(String),
}

impl DirOrSong {
    /// The path of the entry, whichever kind it is.
    pub fn value(&self) -> (r: &str)
        ensures
            r@ == match self {
                DirOrSong::Dir(v) => v@,
                DirOrSong::Song(v) => v@,
            },
    {
        match self {
            DirOrSong::Dir(v) => v.as_str(),
            DirOrSong::Song(v) => v.as_str(),
        }
    }
}

/// Lexicographic order of two texts, character by character.
pub open spec fn text_order(a: Seq<char>, b: Seq<char>) -> Ordering
    decreases a.len(),
{
    if a.len() == 0 && b.len() == 0 {
        Ordering::Equal
    } else if a.len() == 0 {
        Ordering::Less
    } else if b.len() == 0 {
        Ordering::Greater
    } else if (a[0] as u32) < (b[0] as u32) {
        Ordering::Less
    } else if (a[0] as u32) > (b[0] as u32) {
        Ordering::Greater
    } else {
        text_order(a.skip(1), b.skip(1))
    }
}

fn compare_text(a: &str, b: &str) -> (r: Ordering)
    ensures
        r == text_order(a@, b@),
{
    let n = a.unicode_len();
    let m = b.unicode_len();
    let mut i: usize = 0;
    proof {
        assert(a@.skip(0) =~= a@);
        assert(b@.skip(0) =~= b@);
    }
    while i < n && i < m
        invariant
            0 <= i <= n && i <= m,
            n == a@.len() && m == b@.len(),
            text_order(a@, b@) == text_order(a@.skip(i as int), b@.skip(i as int)),
        decreases n - i,
    {
        let x = a.get_char(i) as u32;
        let y = b.get_char(i) as u32;
        proof {
            assert(a@.skip(i as int)[0] == a@[i as int]);
            assert(b@.skip(i as int)[0] == b@[i as int]);
            assert(a@.skip(i as int).skip(1) =~= a@.skip(i as int + 1));
            assert(b@.skip(i as int).skip(1) =~= b@.skip(i as int + 1));
        }
        if x < y {
            return Ordering::Less;
        } else if x > y {
            return Ordering::Greater;
        }
        i = i + 1;
    }
    if i < n {
        Ordering::Greater
    } else if i < m {
        Ordering::Less
    } else {
        Ordering::Equal
    }
}

/// Directories come before songs; entries of one kind go by their paths.
pub open spec fn entry_order(a: DirOrSong, b: DirOrSong) -> Ordering {
    match (a, b) {
        (DirOrSong::Dir(x), DirOrSong::Dir(y)) => text_order(x@, y@),
        (_, DirOrSong::Dir(_)) => Ordering::Greater,
        (DirOrSong::Dir(_), _) => Ordering::Less,
        (DirOrSong::Song(x), DirOrSong::Song(y)) => text_order(x@, y@),
    }
}

impl DirOrSong {
    /// How two entries of a listing are ordered.
    pub fn cmp(&self, other: &Self) -> (r: Ordering)
        ensures
            r == entry_order(*self, *other),
    {
        match (self, other) {
            (DirOrSong::Dir(a), DirOrSong::Dir(b)) => compare_text(a.as_str(), b.as_str()),
            (_, DirOrSong::Dir(_)) => Ordering::Greater,
            (DirOrSong::Dir(_), _) => Ordering::Less,
            (DirOrSong::Song(a), DirOrSong::Song(b)) => compare_text(a.as_str(), b.as_str()),
        }
    }
}

impl PartialOrd for DirOrSong {
    fn partial_cmp(&self, other: &Self) -> (r: Option<Ordering>)
        ensures
            r == Some(entry_order(*self, *other)),
    {
        Some(DirOrSong::cmp(self, other))
    }
}

impl vstd::std_specs::cmp::PartialOrdSpecImpl for DirOrSong {
    open spec fn obeys_partial_cmp_spec() -> bool {
        true
    }

    open spec fn partial_cmp_spec(&self, other: &Self) -> Option<Ordering> {
        Some(entry_order(*self, *other))
    }
}

/// Text of a song for display, with a fallback where a tag is missing.
pub trait SongExt {
    spec fn spec_title(&self) -> Seq<u8>;

    spec fn spec_artist(&self) -> Seq<u8>;

    fn title_str(&self) -> (r: &[u8])
        ensures
            r@ == self.spec_title(),
    ;

    fn artist_str(&self) -> (r: &[u8])
        ensures
            r@ == self.spec_artist(),
    ;
}

const UNTITLED: [u8; 8] = [85, 110, 116, 105, 116, 108, 101, 100];

/// What a song without the tag shows.
pub open spec fn untitled_text() -> Seq<u8> {
    seq![85u8, 110, 116, 105, 116, 108, 101, 100]
}

impl SongExt for Song {
    open spec fn spec_title(&self) -> Seq<u8> {
        match self.title {
            Some(t) => t@,
            None => untitled_text(),
        }
    }

    open spec fn spec_artist(&self) -> Seq<u8> {
        match self.artist {
            Some(t) => t@,
            None => untitled_text(),
        }
    }

    fn title_str(&self) -> (r: &[u8]) {
        match &self.title {
            Some(t) => t.as_slice(),
            None => {
                assert(UNTITLED@ =~= untitled_text());
                &UNTITLED
            },
        }
    }

    fn artist_str(&self) -> (r: &[u8]) {
        match &self.artist {
            Some(t) => t.as_slice(),
            None => {
                assert(UNTITLED@ =~= untitled_text());
                &UNTITLED
            },
        }
    }
}

} // verus!
