use vstd::prelude::*;
use vstd::string::StringExecFns;

verus! {

/// A song field as a theme file names it.
#[derive(Debug, PartialEq, Eq)]
pub enum SongPropertyFile {
    Filename,
    File,
    Title,
    Artist,
    Album,
    Duration,
    Track,
    Other(String),
}

/// A song field that a song format shows.
#[derive(Debug, Clone, PartialEq, Eq)]
pub enum SongProperty {
    Filename,
    File,
    Title,
    Artist,
    Album,
    Duration,
    Track,
    Other(String),
}

impl SongProperty {
    /// The property that a theme file's entry stands for.
    pub fn from_file(value: SongPropertyFile) -> (r: SongProperty)
        ensures
            match value {
                SongPropertyFile::Filename => r is Filename,
                SongPropertyFile::File => r is File,
                SongPropertyFile::Title => r is Title,
                SongPropertyFile::Artist => r is Artist,
                SongPropertyFile::Album => r is Album,
                SongPropertyFile::Duration => r is Duration,
                SongPropertyFile::Track => r is Track,
                SongPropertyFile::Other(name) => r is Other && r->Other_0@ == name@,
            },
    {
        match value {
            SongPropertyFile::Filename => SongProperty::Filename,
            SongPropertyFile::File => SongProperty::File,
            SongPropertyFile::Title => SongProperty::Title,
            SongPropertyFile::Artist => SongProperty::Artist,
            SongPropertyFile::Album => SongProperty::Album,
            SongPropertyFile::Duration => SongProperty::Duration,
            SongPropertyFile::Track => SongProperty::Track,
            SongPropertyFile::Other(name) => SongProperty::Other(name),
        }
    }
}

/// A status field as a theme file names it; the `V2` forms carry their own
/// labels, the others take the default ones.
#[derive(Debug, PartialEq, Eq)]
pub enum StatusPropertyFile {
    Volume,
    Repeat,
    Random,
    Single,
    Consume,
    State,
    RepeatV2 { on_label: String, off_label: String },
    RandomV2 { on_label: String, off_label: String },
    SingleV2 { on_label: String, off_label: String, oneshot_label: String },
    ConsumeV2 { on_label: String, off_label: String, oneshot_label: String },
    StateV2 { playing_label: String, paused_label: String, stopped_label: String },
    Elapsed,
    Duration,
    Crossfade,
    Bitrate,
}

/// A status field that a theme shows, with the labels it uses.
#[derive(Debug, Clone, PartialEq, Eq)]
pub enum StatusProperty {
    Volume,
    Repeat { on_label: String, off_label: String },
    Random { on_label: String, off_label: String },
    Single { on_label: String, off_label: String, oneshot_label: String },
    Consume { on_label: String, off_label: String, oneshot_label: String },
    State { playing_label: String, paused_label: String, stopped_label: String },
    Elapsed,
    Duration,
    Crossfade,
    Bitrate,
}

/// The on label where a theme gives none.
pub open spec fn default_on_label() -> Seq<char> {
    "On"@
}

/// The off label where a theme gives none.
pub open spec fn default_off_label() -> Seq<char> {
    "Off"@
}

/// The oneshot label where a theme gives none.
pub open spec fn default_oneshot_label() -> Seq<char> {
    "OS"@
}

/// The playing label where a theme gives none.
pub open spec fn default_playing_label() -> Seq<char> {
    "Playing"@
}

/// The paused label where a theme gives none.
pub open spec fn default_paused_label() -> Seq<char> {
    "Paused"@
}

/// The stopped label where a theme gives none.
pub open spec fn default_stopped_label() -> Seq<char> {
    "Stopped"@
}

/// Whether `r` is an on/off property of kind `kind` (0 repeat, 1 random)
/// with these labels.
pub open spec fn is_toggle(r: StatusProperty, kind: int, on: Seq<char>, off: Seq<char>) -> bool {
    match r {
        StatusProperty::Repeat { on_label, off_label } => kind == 0 && on_label@ == on
            && off_label@ == off,
        StatusProperty::Random { on_label, off_label } => kind == 1 && on_label@ == on
            && off_label@ == off,
        _ => false,
    }
}

/// Whether `r` is an on/off/oneshot property of kind `kind` (0 single,
/// 1 consume) with these labels.
pub open spec fn is_tristate(
    r: StatusProperty,
    kind: int,
    on: Seq<char>,
    off: Seq<char>,
    oneshot: Seq<char>,
) -> bool {
    match r {
        StatusProperty::Single { on_label, off_label, oneshot_label } => kind == 0 && on_label@
            == on && off_label@ == off && oneshot_label@ == oneshot,
        StatusProperty::Consume { on_label, off_label, oneshot_label } => kind == 1 && on_label@
            == on && off_label@ == off && oneshot_label@ == oneshot,
        _ => false,
    }
}

/// Whether `r` is the play state property with these labels.
pub open spec fn is_state(r: StatusProperty, playing: Seq<char>, paused: Seq<char>, stopped: Seq<char>) -> bool {
    match r {
        StatusProperty::State { playing_label, paused_label, stopped_label } => playing_label@
            == playing && paused_label@ == paused && stopped_label@ == stopped,
        _ => false,
    }
}

impl StatusProperty {
    /// The property that a theme file's entry stands for, with the default
    /// labels where the entry gives none.
    pub fn from_file(value: StatusPropertyFile) -> (r: StatusProperty)
        ensures
            match value {
                StatusPropertyFile::Volume => r is Volume,
                StatusPropertyFile::Elapsed => r is Elapsed,
                StatusPropertyFile::Duration => r is Duration,
                StatusPropertyFile::Crossfade => r is Crossfade,
                StatusPropertyFile::Bitrate => r is Bitrate,
                StatusPropertyFile::Repeat => is_toggle(r, 0, default_on_label(), default_off_label()),
                StatusPropertyFile::Random => is_toggle(r, 1, default_on_label(), default_off_label()),
                StatusPropertyFile::Single => is_tristate(
                    r,
                    0,
                    default_on_label(),
                    default_off_label(),
                    default_oneshot_label(),
                ),
                StatusPropertyFile::Consume => is_tristate(
                    r,
                    1,
                    default_on_label(),
                    default_off_label(),
                    default_oneshot_label(),
                ),
                StatusPropertyFile::State => is_state(
                    r,
                    default_playing_label(),
                    default_paused_label(),
                    default_stopped_label(),
                ),
                StatusPropertyFile::RepeatV2 { on_label, off_label } => is_toggle(r, 0, on_label@, off_label@),
                StatusPropertyFile::RandomV2 { on_label, off_label } => is_toggle(r, 1, on_label@, off_label@),
                StatusPropertyFile::SingleV2 { on_label, off_label, oneshot_label } => is_tristate(
                    r,
                    0,
                    on_label@,
                    off_label@,
                    oneshot_label@,
                ),
                StatusPropertyFile::ConsumeV2 { on_label, off_label, oneshot_label } => is_tristate(
                    r,
                    1,
                    on_label@,
                    off_label@,
                    oneshot_label@,
                ),
                StatusPropertyFile::StateV2 { playing_label, paused_label, stopped_label } => is_state(
                    r,
                    playing_label@,
                    paused_label@,
                    stopped_label@,
                ),
            },
    {
        proof {
            reveal_strlit("On");
            reveal_strlit("Off");
            reveal_strlit("OS");
            reveal_strlit("Playing");
            reveal_strlit("Paused");
            reveal_strlit("Stopped");
        }
        match value {
            StatusPropertyFile::StateV2 { playing_label, paused_label, stopped_label } => {
                StatusProperty::State { playing_label, paused_label, stopped_label }
            },
            StatusPropertyFile::State => StatusProperty::State {
                playing_label: String::from_str("Playing"),
                paused_label: String::from_str("Paused"),
                stopped_label: String::from_str("Stopped"),
            },
            StatusPropertyFile::Duration => StatusProperty::Duration,
            StatusPropertyFile::Elapsed => StatusProperty::Elapsed,
            StatusPropertyFile::Volume => StatusProperty::Volume,
            StatusPropertyFile::Bitrate => StatusProperty::Bitrate,
            StatusPropertyFile::Crossfade => StatusProperty::Crossfade,
            StatusPropertyFile::Repeat => StatusProperty::Repeat {
                on_label: String::from_str("On"),
                off_label: String::from_str("Off"),
            },
            StatusPropertyFile::Random => StatusProperty::Random {
                on_label: String::from_str("On"),
                off_label: String::from_str("Off"),
            },
            StatusPropertyFile::Consume => StatusProperty::Consume {
                on_label: String::from_str("On"),
                off_label: String::from_str("Off"),
                oneshot_label: String::from_str("OS"),
            },
            StatusPropertyFile::Single => StatusProperty::Single {
                on_label: String::from_str("On"),
                off_label: String::from_str("Off"),
                oneshot_label: String::from_str("OS"),
            },
            StatusPropertyFile::RepeatV2 { on_label, off_label } => {
                StatusProperty::Repeat { on_label, off_label }
            },
            StatusPropertyFile::RandomV2 { on_label, off_label } => {
                StatusProperty::Random { on_label, off_label }
            },
            StatusPropertyFile::ConsumeV2 { on_label, off_label, oneshot_label } => {
                StatusProperty::Consume { on_label, off_label, oneshot_label }
            },
            StatusPropertyFile::SingleV2 { on_label, off_label, oneshot_label } => {
                StatusProperty::Single { on_label, off_label, oneshot_label }
            },
        }
    }
}

/// A widget as a theme file names it.
#[derive(Debug, Clone, Copy, PartialEq, Eq, Structural)]
pub enum WidgetPropertyFile {
    States,
    Volume,
}

/// Any property a theme file can name.
#[derive(Debug, PartialEq, Eq)]
pub enum PropertyKindFile {
    Song(SongPropertyFile),
    Status(StatusPropertyFile),
    Widget(WidgetPropertyFile),
}

/// A piece of a format: fixed text, a sticker's value, a property, or a
/// group of pieces shown only when all of them have a value.
#[derive(Debug, PartialEq, Eq)]
#[verifier::reject_recursive_types(T)]
pub enum PropertyKindFileOrText<T> {
    Text(String),
    Sticker(String),
    Property(T),
    Group(Vec<PropertyFile<T>>),
}

/// A piece of a format with what to show when it has no value.
#[derive(Debug, PartialEq, Eq)]
#[verifier::reject_recursive_types(T)]
pub struct PropertyFile<T> {
    pub kind: PropertyKindFileOrText<T>,
    pub default: Option<Box<PropertyFile<T>>>,
}

/// Whether a sticker's value is shown anywhere in a piece.
pub open spec fn kind_has_stickers<T>(k: PropertyKindFileOrText<T>) -> bool
    decreases k, 0nat,
{
    match k {
        PropertyKindFileOrText::Sticker(_) => true,
        PropertyKindFileOrText::Group(g) => group_has_stickers(g, g@.len()),
        _ => false,
    }
}

/// Whether any of the first `n` pieces of a group shows a sticker.
pub open spec fn group_has_stickers<T>(g: Vec<PropertyFile<T>>, n: nat) -> bool
    decreases g, n,
{
    if n == 0 || n > g@.len() {
        false
    } else {
        group_has_stickers(g, (n - 1) as nat) || kind_has_stickers(g@[n - 1].kind)
    }
}

proof fn lemma_group_has_sticker_at<T>(g: Vec<PropertyFile<T>>, i: int, n: nat)
    requires
        0 <= i < n <= g@.len(),
        kind_has_stickers(g@[i].kind),
    ensures
        group_has_stickers(g, n),
    decreases n,
{
    if i < n - 1 {
        lemma_group_has_sticker_at(g, i, (n - 1) as nat);
    }
}

impl<T> PropertyKindFileOrText<T> {
    /// Whether the piece needs stickers fetched: it or a piece of its
    /// groups, at any depth, is a sticker. Fallbacks do not count.
    pub fn contains_stickers(&self) -> (r: bool)
        ensures
            r == kind_has_stickers(*self),
        decreases self,
    {
        match self {
            PropertyKindFileOrText::Text(_) => false,
            PropertyKindFileOrText::Sticker(_) => true,
            PropertyKindFileOrText::Property(_) => false,
            PropertyKindFileOrText::Group(group) => {
                let mut i: usize = 0;
                while i < group.len()
                    invariant
                        0 <= i <= group@.len(),
                        *self == PropertyKindFileOrText::<T>::Group(*group),
                        !group_has_stickers(*group, i as nat),
                    decreases group.len() - i,
                {
                    proof {
                        broadcast use vstd::std_specs::vec::axiom_vec_index_decreases;

                        assert(decreases_to!(*self => (*self)->Group_0));
                        assert(decreases_to!(*group => group[i as int]));
                        assert(decreases_to!(group[i as int] => group[i as int].kind));
                        assert(decreases_to!(*self => group[i as int].kind));
                    }
                    if group[i].kind.contains_stickers() {
                        proof {
                            lemma_group_has_sticker_at(*group, i as int, group@.len());
                            assert(kind_has_stickers(*self) == group_has_stickers(*group, group@.len()));
                        }
                        return true;
                    }
                    i = i + 1;
                }
                false
            },
        }
    }
}

/// How a column's text is aligned.
#[derive(Debug, Clone, Copy, PartialEq, Eq, Structural)]
pub enum Alignment {
    Left,
    Right,
    Center,
}

/// A song format as a theme file writes it.
#[derive(Debug, PartialEq, Eq)]
pub struct SongFormatFile(pub Vec<PropertyFile<SongPropertyFile>>);


/// A piece that shows property `p`, with nothing in its place when empty.
pub open spec fn is_bare_property(f: PropertyFile<SongPropertyFile>, p: SongPropertyFile) -> bool {
    f.kind == PropertyKindFileOrText::<SongPropertyFile>::Property(p) && f.default is None
}

/// A piece that shows the text `t`.
pub open spec fn is_bare_text(f: PropertyFile<SongPropertyFile>, t: Seq<char>) -> bool {
    f.kind is Text && f.kind->Text_0@ == t && f.default is None
}

/// The format songs have where the theme names none: the track number and a
/// space; then `artist - title`, or the file name where those are missing.
pub open spec fn is_default_song_format(r: SongFormatFile) -> bool {
    let first = r.0@[0];
    let second = r.0@[1];
    &&& r.0@.len() == 2
    &&& first.kind is Group && first.default is None
    &&& first.kind->Group_0@.len() == 2
    &&& is_bare_property(first.kind->Group_0@[0], SongPropertyFile::Track)
    &&& is_bare_text(first.kind->Group_0@[1], " "@)
    &&& second.kind is Group && second.kind->Group_0@.len() == 3
    &&& is_bare_property(second.kind->Group_0@[0], SongPropertyFile::Artist)
    &&& is_bare_text(second.kind->Group_0@[1], " - "@)
    &&& is_bare_property(second.kind->Group_0@[2], SongPropertyFile::Title)
    &&& second.default is Some && is_bare_property(*second.default->Some_0, SongPropertyFile::Filename)
}

fn bare_property(p: SongPropertyFile) -> (r: PropertyFile<SongPropertyFile>)
    ensures
        r.kind == PropertyKindFileOrText::<SongPropertyFile>::Property(p),
        r.default is None,
{
    PropertyFile { kind: PropertyKindFileOrText::Property(p), default: None }
}

impl Default for SongFormatFile {
    fn default() -> (r: SongFormatFile)
        ensures
            is_default_song_format(r),
    {
        proof {
            reveal_strlit(" ");
            reveal_strlit(" - ");
        }
        let space = PropertyFile { kind: PropertyKindFileOrText::Text(String::from_str(" ")), default: None };
        let dash = PropertyFile { kind: PropertyKindFileOrText::Text(String::from_str(" - ")), default: None };
        let first = PropertyFile {
            kind: PropertyKindFileOrText::Group(vec![bare_property(SongPropertyFile::Track), space]),
            default: None,
        };
        let second = PropertyFile {
            kind: PropertyKindFileOrText::Group(
                vec![
                    bare_property(SongPropertyFile::Artist),
                    dash,
                    bare_property(SongPropertyFile::Title),
                ],
            ),
            default: Some(Box::new(bare_property(SongPropertyFile::Filename))),
        };
        SongFormatFile(vec![first, second])
    }
}

} // verus!
