use vstd::prelude::*;

use crate::counter::{Bound, CurrentIndex, Volume};
use crate::decode::{id_key, FromMpd, LineHandled, StepResult};
use crate::response::{MpdError, SpecError};
use crate::wire::{
    all_digits, bytes_eq, copy_range, find_byte, find_from, is_decimal, parse_u32, spec_parse_u32,
};

verus! {

/// The bytes of `volume`.
pub open spec fn volume_text() -> Seq<u8> {
    seq![118u8, 111, 108, 117, 109, 101]
}

/// The bytes of `repeat`.
pub open spec fn repeat_text() -> Seq<u8> {
    seq![114u8, 101, 112, 101, 97, 116]
}

/// The bytes of `random`.
pub open spec fn random_text() -> Seq<u8> {
    seq![114u8, 97, 110, 100, 111, 109]
}

/// The bytes of `consume`.
pub open spec fn consume_text() -> Seq<u8> {
    seq![99u8, 111, 110, 115, 117, 109, 101]
}

/// The bytes of `state`.
pub open spec fn state_text() -> Seq<u8> {
    seq![115u8, 116, 97, 116, 101]
}

/// The bytes of `play`.
pub open spec fn play_text() -> Seq<u8> {
    seq![112u8, 108, 97, 121]
}

/// The bytes of `pause`.
pub open spec fn pause_text() -> Seq<u8> {
    seq![112u8, 97, 117, 115, 101]
}

/// The bytes of `stop`.
pub open spec fn stop_text() -> Seq<u8> {
    seq![115u8, 116, 111, 112]
}

/// The bytes of `changed`.
pub open spec fn changed_text() -> Seq<u8> {
    seq![99u8, 104, 97, 110, 103, 101, 100]
}

/// The bytes of `1`.
pub open spec fn one_text() -> Seq<u8> {
    seq![49u8]
}

/// The bytes of `0`.
pub open spec fn zero_text() -> Seq<u8> {
    seq![48u8]
}

/// `1` is on, `0` is off; nothing else is a flag.
pub open spec fn spec_flag(value: Seq<u8>) -> Option<bool> {
    if value == one_text() {
        Some(true)
    } else if value == zero_text() {
        Some(false)
    } else {
        None
    }
}

fn parse_flag(value: &[u8]) -> (r: Option<bool>)
    ensures
        r == spec_flag(value@),
{
        let one: [u8; 1] = [49];
        let zero: [u8; 1] = [48];
        proof {
            assert(one@ =~= one_text());
            assert(zero@ =~= zero_text());
        }
        if bytes_eq(value, one.as_slice()) {
            Some(true)
        } else if bytes_eq(value, zero.as_slice()) {
            Some(false)
        } else {
            None
        }
}

fn parse_error(key: &[u8], value: Vec<u8>) -> (r: MpdError)
    ensures
        r@ == SpecError::Parse(key@, value@),
{
    let k = copy_range(key, 0, key.len());
    proof {
        assert(k@ =~= key@);
    }
    MpdError::Parse { key: k, value }
}

/// Whether the daemon plays, pauses or stands still.
#[derive(Debug, Clone, Copy, PartialEq, Eq, Structural)]
pub enum PlayState {
    Play,
    Pause,
    Stop,
}

/// The play state that a `state` value names.
pub open spec fn spec_play_state(value: Seq<u8>) -> Option<PlayState> {
    if value == play_text() {
        Some(PlayState::Play)
    } else if value == pause_text() {
        Some(PlayState::Pause)
    } else if value == stop_text() {
        Some(PlayState::Stop)
    } else {
        None
    }
}

/// The player's state as the `status` command reports it; lines of keys
/// without a field of their own are kept in `others`, in the order they came.
#[derive(Debug, Clone, PartialEq, Eq)]
pub struct Status {
    pub volume: Volume,
    pub repeat: bool,
    pub random: bool,
    pub consume: bool,
    pub state: PlayState,
    pub others: Vec<(Vec<u8>, Vec<u8>)>,
}

/// The mathematical form of [`Status`].
pub struct StatusView {
    pub volume: u32,
    pub repeat: bool,
    pub random: bool,
    pub consume: bool,
    pub state: PlayState,
    pub others: Seq<(Seq<u8>, Seq<u8>)>,
}

/// A status before any line was read: volume 0, all modes off, stopped,
/// no other lines.
pub open spec fn initial_status() -> StatusView {
    StatusView {
        volume: 0,
        repeat: false,
        random: false,
        consume: false,
        state: PlayState::Stop,
        others: Seq::empty(),
    }
}

impl Status {
    /// A status before any line was read.
    pub fn new() -> (r: Status)
        ensures
            r@ == initial_status(),
    {
        let r = Status {
            volume: Volume::new(0),
            repeat: false,
            random: false,
            consume: false,
            state: PlayState::Stop,
            others: Vec::new(),
        };
        assert(r@.others =~= Seq::<(Seq<u8>, Seq<u8>)>::empty());
        r
    }
}

impl View for Status {
    type V = StatusView;

    open spec fn view(&self) -> StatusView {
        StatusView {
            volume: self.volume.0,
            repeat: self.repeat,
            random: self.random,
            consume: self.consume,
            state: self.state,
            others: lines_view(self.others@),
        }
    }
}

/// Which keys a [`Status`] takes.
pub open spec fn status_key(key: Seq<u8>) -> bool {
    key == volume_text() || key == repeat_text() || key == random_text() || key
        == consume_text() || key == state_text()
}

/// A flag field set by a status line.
pub open spec fn flag_step(v: StatusView, key: Seq<u8>, on: bool) -> StatusView {
    if key == repeat_text() {
        StatusView { repeat: on, ..v }
    } else if key == random_text() {
        StatusView { random: on, ..v }
    } else {
        StatusView { consume: on, ..v }
    }
}

impl FromMpd for Status {
    open spec fn spec_step(v: StatusView, key: Seq<u8>, value: Seq<u8>) -> StepResult<StatusView> {
        if key == volume_text() {
            match spec_parse_u32(value) {
                Some(n) => Ok((StatusView { volume: n, ..v }, None)),
                None => Err(SpecError::Parse(key, value)),
            }
        } else if key == state_text() {
            match spec_play_state(value) {
                Some(st) => Ok((StatusView { state: st, ..v }, None)),
                None => Err(SpecError::Parse(key, value)),
            }
        } else if status_key(key) {
            match spec_flag(value) {
                Some(on) => Ok((flag_step(v, key, on), None)),
                None => Err(SpecError::Parse(key, value)),
            }
        } else {
            Ok((v, Some(value)))
        }
    }

    fn next_internal(&mut self, key: &[u8], value: Vec<u8>) -> (r: Result<LineHandled, MpdError>) {
        let volume: [u8; 6] = [118, 111, 108, 117, 109, 101];
        let repeat: [u8; 6] = [114, 101, 112, 101, 97, 116];
        let random: [u8; 6] = [114, 97, 110, 100, 111, 109];
        let consume: [u8; 7] = [99, 111, 110, 115, 117, 109, 101];
        let state: [u8; 5] = [115, 116, 97, 116, 101];
        let play: [u8; 4] = [112, 108, 97, 121];
        let pause: [u8; 5] = [112, 97, 117, 115, 101];
        let stop: [u8; 4] = [115, 116, 111, 112];
        proof {
            assert(volume@ =~= volume_text());
            assert(repeat@ =~= repeat_text());
            assert(random@ =~= random_text());
            assert(consume@ =~= consume_text());
            assert(state@ =~= state_text());
            assert(play@ =~= play_text());
            assert(pause@ =~= pause_text());
            assert(stop@ =~= stop_text());
        }
        if bytes_eq(key, volume.as_slice()) {
            match parse_u32(value.as_slice()) {
                Some(n) => {
                    self.volume.set_value(n);
                    Ok(LineHandled::Yes)
                },
                None => Err(parse_error(key, value)),
            }
        } else if bytes_eq(key, state.as_slice()) {
            if bytes_eq(value.as_slice(), play.as_slice()) {
                self.state = PlayState::Play;
                Ok(LineHandled::Yes)
            } else if bytes_eq(value.as_slice(), pause.as_slice()) {
                self.state = PlayState::Pause;
                Ok(LineHandled::Yes)
            } else if bytes_eq(value.as_slice(), stop.as_slice()) {
                self.state = PlayState::Stop;
                Ok(LineHandled::Yes)
            } else {
                Err(parse_error(key, value))
            }
        } else if bytes_eq(key, repeat.as_slice()) || bytes_eq(key, random.as_slice()) || bytes_eq(
            key,
            consume.as_slice(),
        ) {
            match parse_flag(value.as_slice()) {
                Some(on) => {
                    if bytes_eq(key, repeat.as_slice()) {
                        self.repeat = on;
                    } else if bytes_eq(key, random.as_slice()) {
                        self.random = on;
                    } else {
                        self.consume = on;
                    }
                    Ok(LineHandled::Yes)
                },
                None => Err(parse_error(key, value)),
            }
        } else {
            Ok(LineHandled::No { value })
        }
    }
}

/// The subsystems that an idle request reported as changed, in the order
/// the daemon named them.
#[derive(Debug, Clone, PartialEq, Eq)]
pub struct ChangeSet {
    pub subsystems: Vec<Vec<u8>>,
}

impl ChangeSet {
    /// A change set with no subsystem in it.
    pub fn new() -> (r: ChangeSet)
        ensures
            r@ == Seq::<Seq<u8>>::empty(),
    {
        ChangeSet { subsystems: Vec::new() }
    }
}

impl View for ChangeSet {
    type V = Seq<Seq<u8>>;

    open spec fn view(&self) -> Seq<Seq<u8>> {
        self.subsystems@.map_values(|s: Vec<u8>| s@)
    }
}

impl FromMpd for ChangeSet {
    open spec fn spec_step(v: Seq<Seq<u8>>, key: Seq<u8>, value: Seq<u8>) -> StepResult<Seq<Seq<u8>>> {
        if key == changed_text() {
            Ok((v.push(value), None))
        } else {
            Ok((v, Some(value)))
        }
    }

    fn next_internal(&mut self, key: &[u8], value: Vec<u8>) -> (r: Result<LineHandled, MpdError>) {
        let changed: [u8; 7] = [99, 104, 97, 110, 103, 101, 100];
        proof {
            assert(changed@ =~= changed_text());
        }
        if bytes_eq(key, changed.as_slice()) {
            let ghost before = self@;
            let ghost pushed = value@;
            self.subsystems.push(value);
            proof {
                assert(self@ =~= before.push(pushed));
            }
            Ok(LineHandled::Yes)
        } else {
            Ok(LineHandled::No { value })
        }
    }
}

/// The bytes of `file`.
pub open spec fn file_text() -> Seq<u8> {
    seq![102u8, 105, 108, 101]
}

/// The bytes of `Title`.
pub open spec fn title_text() -> Seq<u8> {
    seq![84u8, 105, 116, 108, 101]
}

/// The bytes of `Artist`.
pub open spec fn artist_text() -> Seq<u8> {
    seq![65u8, 114, 116, 105, 115, 116]
}

/// The bytes of `Album`.
pub open spec fn album_text() -> Seq<u8> {
    seq![65u8, 108, 98, 117, 109]
}

/// A song as the daemon describes it. Tags the daemon does not send stay
/// `None`; lines of keys without a field of their own are kept in `others`,
/// in the order they came.
#[derive(Debug, Clone, PartialEq, Eq)]
pub struct Song {
    pub file: Vec<u8>,
    pub title: Option<Vec<u8>>,
    pub artist: Option<Vec<u8>>,
    pub album: Option<Vec<u8>>,
    /// Length in whole seconds.
    pub duration: Option<u32>,
    pub others: Vec<(Vec<u8>, Vec<u8>)>,
}

/// A song over views: file, title, artist, album, duration and the other
/// lines.
pub type SongView = (
    Seq<u8>,
    Option<Seq<u8>>,
    Option<Seq<u8>>,
    Option<Seq<u8>>,
    Option<u32>,
    Seq<(Seq<u8>, Seq<u8>)>,
);

/// The bytes of `duration`.
pub open spec fn duration_text() -> Seq<u8> {
    seq![100u8, 117, 114, 97, 116, 105, 111, 110]
}

/// Whole seconds of a duration written `<seconds>` or
/// `<seconds>.<fraction>`; the fraction is dropped.
pub open spec fn spec_parse_seconds(v: Seq<u8>) -> Option<u32> {
    let d = find_from(v, 46, 0);
    if d >= v.len() {
        spec_parse_u32(v)
    } else if is_decimal(v.skip(d + 1)) {
        spec_parse_u32(v.take(d))
    } else {
        None
    }
}

/// Reads a duration in seconds, dropping its fraction.
pub fn parse_seconds(v: &[u8]) -> (r: Option<u32>)
    ensures
        r == spec_parse_seconds(v@),
{
    let d = find_byte(v, 46, 0);
    if d >= v.len() {
        return parse_u32(v);
    }
    let fraction = copy_range(v, d + 1, v.len());
    let whole = copy_range(v, 0, d);
    proof {
        assert(fraction@ =~= v@.skip(d + 1));
        assert(whole@ =~= v@.take(d as int));
    }
    if all_digits(fraction.as_slice()) {
        parse_u32(whole.as_slice())
    } else {
        None
    }
}

/// The views of a song's other lines.
pub open spec fn lines_view(v: Seq<(Vec<u8>, Vec<u8>)>) -> Seq<(Seq<u8>, Seq<u8>)> {
    v.map_values(|p: (Vec<u8>, Vec<u8>)| (p.0@, p.1@))
}

/// A song before any line was read.
pub open spec fn empty_song() -> SongView {
    (Seq::empty(), None, None, None, None, Seq::empty())
}

/// The view of an optional text.
pub open spec fn opt_view(o: Option<Vec<u8>>) -> Option<Seq<u8>> {
    match o {
        Some(v) => Some(v@),
        None => None,
    }
}

impl Song {
    /// A song before any line was read.
    pub fn new() -> (r: Song)
        ensures
            r@ == empty_song(),
    {
        let r = Song {
            file: Vec::new(),
            title: None,
            artist: None,
            album: None,
            duration: None,
            others: Vec::new(),
        };
        assert(r@.0 =~= Seq::<u8>::empty());
        assert(r@.5 =~= Seq::<(Seq<u8>, Seq<u8>)>::empty());
        r
    }
}

impl View for Song {
    type V = SongView;

    open spec fn view(&self) -> SongView {
        (
            self.file@,
            opt_view(self.title),
            opt_view(self.artist),
            opt_view(self.album),
            self.duration,
            lines_view(self.others@),
        )
    }
}

impl FromMpd for Song {
    open spec fn spec_step(v: Self::V, key: Seq<u8>, value: Seq<u8>) -> StepResult<Self::V> {
        if key == file_text() {
            Ok(((value, v.1, v.2, v.3, v.4, v.5), None))
        } else if key == title_text() {
            Ok(((v.0, Some(value), v.2, v.3, v.4, v.5), None))
        } else if key == artist_text() {
            Ok(((v.0, v.1, Some(value), v.3, v.4, v.5), None))
        } else if key == album_text() {
            Ok(((v.0, v.1, v.2, Some(value), v.4, v.5), None))
        } else if key == duration_text() {
            match spec_parse_seconds(value) {
                Some(n) => Ok(((v.0, v.1, v.2, v.3, Some(n), v.5), None)),
                None => Err(SpecError::Parse(key, value)),
            }
        } else {
            Ok((v, Some(value)))
        }
    }

    fn next_internal(&mut self, key: &[u8], value: Vec<u8>) -> (r: Result<LineHandled, MpdError>) {
        let file: [u8; 4] = [102, 105, 108, 101];
        let title: [u8; 5] = [84, 105, 116, 108, 101];
        let artist: [u8; 6] = [65, 114, 116, 105, 115, 116];
        let album: [u8; 5] = [65, 108, 98, 117, 109];
        let duration: [u8; 8] = [100, 117, 114, 97, 116, 105, 111, 110];
        proof {
            assert(duration@ =~= duration_text());
            assert(file@ =~= file_text());
            assert(title@ =~= title_text());
            assert(artist@ =~= artist_text());
            assert(album@ =~= album_text());
        }
        if bytes_eq(key, file.as_slice()) {
            self.file = value;
        } else if bytes_eq(key, title.as_slice()) {
            self.title = Some(value);
        } else if bytes_eq(key, artist.as_slice()) {
            self.artist = Some(value);
        } else if bytes_eq(key, album.as_slice()) {
            self.album = Some(value);
        } else if bytes_eq(key, duration.as_slice()) {
            match parse_seconds(value.as_slice()) {
                Some(n) => {
                    self.duration = Some(n);
                },
                None => {
                    return Err(parse_error(key, value));
                },
            }
        } else {
            return Ok(LineHandled::No { value });
        }
        Ok(LineHandled::Yes)
    }
}


/// A line whose key an entity does not know leaves the entity as it was and
/// comes back with its value unchanged, byte for byte: for a queue index, a
/// status, a change set and a song alike.
pub proof fn lemma_unknown_key_handed_back(
    key: Seq<u8>,
    value: Seq<u8>,
    index: u32,
    status: StatusView,
    changes: Seq<Seq<u8>>,
    song: SongView,
)
    requires
        key != id_key(),
        !status_key(key),
        key != changed_text(),
        key != file_text() && key != title_text() && key != artist_text() && key != album_text(),
        key != duration_text(),
    ensures
        <CurrentIndex as FromMpd>::spec_step(index, key, value) == Ok::<
            (u32, Option<Seq<u8>>),
            SpecError,
        >((index, Some(value))),
        <Status as FromMpd>::spec_step(status, key, value) == Ok::<
            (StatusView, Option<Seq<u8>>),
            SpecError,
        >((status, Some(value))),
        <ChangeSet as FromMpd>::spec_step(changes, key, value) == Ok::<
            (Seq<Seq<u8>>, Option<Seq<u8>>),
            SpecError,
        >((changes, Some(value))),
        <Song as FromMpd>::spec_step(song, key, value) == Ok::<
            (SongView, Option<Seq<u8>>),
            SpecError,
        >((song, Some(value))),
{
}

} // verus!
