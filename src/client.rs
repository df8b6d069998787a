use vstd::prelude::*;

use crate::decode::{decode_frames, pairs_view, spec_decode, FromMpd};
use crate::decode::LineHandled;
use crate::entities::{
    empty_song, file_text, initial_status, lines_view, ChangeSet, Song, SongView, Status, StatusView,
};
use crate::response::{
    frames_view, read_response, spec_read_response, Frame, MpdError, SpecError, SpecFrame,
};
use crate::wire::{bytes_eq, copy_range};

verus! {

/// What reading one response from `s` and decoding it into `start` gives:
/// the entity, the lines it did not take, and where the next response
/// starts.
pub open spec fn spec_decode_response<T: FromMpd>(s: Seq<u8>, start: T::V) -> Result<
    (T::V, Seq<(Seq<u8>, Seq<u8>)>, int),
    SpecError,
> {
    match spec_read_response(s, 0) {
        Err(e) => Err(e),
        Ok(fr) => match spec_decode::<T>(start, fr.0) {
            Err(e) => Err(e),
            Ok(d) => Ok((d.0, d.1, fr.1)),
        },
    }
}

/// Reads the response at the start of `buf` into `entity`; returns the
/// finished entity, the lines it did not take and the length of the
/// response. On an error no entity is handed out.
pub fn decode_response<T: FromMpd>(buf: &[u8], entity: T) -> (r: Result<
    (T, Vec<(Vec<u8>, Vec<u8>)>, usize),
    MpdError,
>)
    ensures
        match spec_decode_response::<T>(buf@, entity@) {
            Ok(d) => r is Ok && r->Ok_0.0@ == d.0 && pairs_view(r->Ok_0.1@) == d.1
                && r->Ok_0.2 as int == d.2,
            Err(e) => r is Err && r->Err_0@ == e,
        },
{
    let (frames, end) = match read_response(buf, 0) {
        Ok(x) => x,
        Err(e) => {
            return Err(e);
        },
    };
    match decode_frames(entity, &frames) {
        Ok((done, left)) => Ok((done, left, end)),
        Err(e) => Err(e),
    }
}

/// The answer to `status`, with the lines that no field took among its
/// others.
pub fn decode_status(buf: &[u8]) -> (r: Result<Status, MpdError>)
    ensures
        match spec_decode_response::<Status>(buf@, initial_status()) {
            Ok(d) => r is Ok && r->Ok_0@ == (StatusView { others: d.1, ..d.0 }),
            Err(e) => r is Err && r->Err_0@ == e,
        },
{
    match decode_response(buf, Status::new()) {
        Ok((mut status, left, _)) => {
            status.others = left;
            Ok(status)
        },
        Err(e) => Err(e),
    }
}

/// The answer to `idle`: the subsystems that changed.
pub fn decode_changes(buf: &[u8]) -> (r: Result<ChangeSet, MpdError>)
    ensures
        match spec_decode_response::<ChangeSet>(buf@, Seq::empty()) {
            Ok(d) => r is Ok && r->Ok_0@ == d.0,
            Err(e) => r is Err && r->Err_0@ == e,
        },
{
    match decode_response(buf, ChangeSet::new()) {
        Ok((changes, _, _)) => Ok(changes),
        Err(e) => Err(e),
    }
}

/// The answer to `currentsong`: the song, with the lines that no field
/// took among its others.
pub fn decode_song(buf: &[u8]) -> (r: Result<Song, MpdError>)
    ensures
        match spec_decode_response::<Song>(buf@, empty_song()) {
            Ok(d) => r is Ok && r->Ok_0@ == (d.0.0, d.0.1, d.0.2, d.0.3, d.0.4, d.1),
            Err(e) => r is Err && r->Err_0@ == e,
        },
{
    match decode_response(buf, Song::new()) {
        Ok((mut song, left, _)) => {
            song.others = left;
            Ok(song)
        },
        Err(e) => Err(e),
    }
}

/// The songs of a listing: each `file` line starts a new song, and the
/// lines after it fill that song in, those that no field takes among its
/// others. Lines before the first `file` line belong to no song.
pub open spec fn spec_songs(frames: Seq<SpecFrame>) -> Result<Seq<SongView>, SpecError>
    decreases frames.len(),
{
    if frames.len() == 0 {
        Ok(Seq::empty())
    } else {
        match spec_songs(frames.drop_last()) {
            Err(e) => Err(e),
            Ok(list) => match frames.last() {
                SpecFrame::Pair(k, v) => if k == file_text() {
                    Ok(list.push((v, None, None, None, None, Seq::empty())))
                } else if list.len() == 0 {
                    Ok(list)
                } else {
                    match <Song as FromMpd>::spec_step(list.last(), k, v) {
                        Err(e) => Err(e),
                        Ok(st) => match st.1 {
                            None => Ok(list.update(list.len() - 1, st.0)),
                            Some(u) => {
                                let s = st.0;
                                Ok(list.update(list.len() - 1, (s.0, s.1, s.2, s.3, s.4, s.5.push((k, u)))))
                            },
                        },
                    }
                },
                _ => Ok(list),
            },
        }
    }
}

/// The views of a list of songs.
pub open spec fn songs_view(v: Seq<Song>) -> Seq<SongView> {
    v.map_values(|s: Song| s@)
}

/// Splits the frames of a listing into songs.
pub fn split_songs(frames: &Vec<Frame>) -> (r: Result<Vec<Song>, MpdError>)
    ensures
        match spec_songs(frames_view(frames@)) {
            Ok(list) => r is Ok && songs_view(r->Ok_0@) == list,
            Err(e) => r is Err && r->Err_0@ == e,
        },
{
    let file: [u8; 4] = [102, 105, 108, 101];
    proof {
        assert(file@ =~= file_text());
    }
    let ghost fv = frames_view(frames@);
    let mut songs: Vec<Song> = Vec::new();
    let mut current: Option<Song> = None;
    let mut i: usize = 0;
    proof {
        assert(fv.take(0) =~= Seq::<SpecFrame>::empty());
        assert(songs_view(songs@) =~= Seq::<SongView>::empty());
    }
    while i < frames.len()
        invariant
            0 <= i <= frames@.len(),
            fv == frames_view(frames@),
            file@ == file_text(),
            current is None ==> songs@.len() == 0,
            spec_songs(fv.take(i as int)) == Ok::<Seq<SongView>, SpecError>(
                match current {
                    Some(c) => songs_view(songs@).push(c@),
                    None => songs_view(songs@),
                },
            ),
        decreases frames.len() - i,
    {
        proof {
            assert(fv.take(i as int + 1).drop_last() =~= fv.take(i as int));
            assert(fv.take(i as int + 1).last() == fv[i as int]);
        }
        let ghost done = songs_view(songs@);
        match &frames[i] {
            Frame::Pair(k, v) => {
                proof {
                    assert(fv[i as int] == SpecFrame::Pair(k@, v@));
                }
                let value = copy_range(v.as_slice(), 0, v.len());
                assert(value@ =~= v@);
                if bytes_eq(k.as_slice(), file.as_slice()) {
                    match current {
                        Some(c) => {
                            let ghost cv = c@;
                            songs.push(c);
                            proof {
                                assert(songs_view(songs@) =~= done.push(cv));
                            }
                        },
                        None => {},
                    }
                    let mut song = Song::new();
                    song.file = value;
                    assert(song@.5 =~= Seq::<(Seq<u8>, Seq<u8>)>::empty());
                    current = Some(song);
                } else {
                    match current {
                        Some(mut c) => {
                            let ghost before = c@;
                            match c.next_internal(k.as_slice(), value) {
                                Err(e) => {
                                    proof {
                                        lemma_songs_error_stays(fv, i as int + 1, fv.len() as int);
                                        assert(fv.take(fv.len() as int) =~= fv);
                                    }
                                    return Err(e);
                                },
                                Ok(LineHandled::Yes) => {},
                                Ok(LineHandled::No { value: u }) => {
                                    let key = copy_range(k.as_slice(), 0, k.len());
                                    assert(key@ =~= k@);
                                    let ghost mid = c@;
                                    let ghost uv = u@;
                                    c.others.push((key, u));
                                    assert(lines_view(c.others@) =~= mid.5.push((k@, uv)));
                                },
                            }
                            proof {
                                let list = done.push(before);
                                assert(list.last() == before);
                                assert(list.update(list.len() - 1, c@) =~= done.push(c@));
                            }
                            current = Some(c);
                        },
                        None => {
                            current = None;
                        },
                    }
                }
            },
            _ => {},
        }
        i = i + 1;
    }
    match current {
        Some(c) => {
            let ghost done = songs_view(songs@);
            let ghost cv = c@;
            songs.push(c);
            proof {
                assert(songs_view(songs@) =~= done.push(cv));
            }
        },
        None => {},
    }
    proof {
        assert(fv.take(fv.len() as int) =~= fv);
    }
    Ok(songs)
}

proof fn lemma_songs_error_stays(fs: Seq<SpecFrame>, j: int, k: int)
    requires
        0 <= j <= k <= fs.len(),
        spec_songs(fs.take(j)) is Err,
    ensures
        spec_songs(fs.take(k)) == spec_songs(fs.take(j)),
    decreases k - j,
{
    if j < k {
        lemma_songs_error_stays(fs, j, k - 1);
        assert(fs.take(k).drop_last() =~= fs.take(k - 1));
    }
}

/// The answer to a listing command, such as `playlistinfo`: its songs.
pub fn decode_songs(buf: &[u8]) -> (r: Result<Vec<Song>, MpdError>)
    ensures
        match spec_read_response(buf@, 0) {
            Err(e) => r is Err && r->Err_0@ == e,
            Ok(fr) => match spec_songs(fr.0) {
                Ok(list) => r is Ok && songs_view(r->Ok_0@) == list,
                Err(e) => r is Err && r->Err_0@ == e,
            },
        },
{
    match read_response(buf, 0) {
        Err(e) => Err(e),
        Ok((frames, _)) => split_songs(&frames),
    }
}

} // verus!
