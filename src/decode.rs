use vstd::prelude::*;

use crate::counter::CurrentIndex;
use crate::response::{frames_view, Frame, MpdError, SpecError, SpecFrame};
use crate::wire::{copy_range, parse_u32, spec_parse_u32};

verus! {

/// Whether a decoder took a `key: value` line, or hands its value back
/// untouched for another decoder.
#[derive(Debug, PartialEq, Eq)]
pub enum LineHandled {
    Yes,
    No { value: Vec<u8> },
}

/// The outcome of one decoding step, over views: the new state of the
/// entity and `None` when it took the line, or the value it handed back.
pub type StepResult<V> = Result<(V, Option<Seq<u8>>), SpecError>;

/// An entity that is built from `key: value` lines, one at a time.
pub trait FromMpd: View + Sized {
    /// What taking the line `key: value` does to the entity `v`.
    spec fn spec_step(v: Self::V, key: Seq<u8>, value: Seq<u8>) -> StepResult<Self::V>;

    fn next_internal(&mut self, key: &[u8], value: Vec<u8>) -> (r: Result<LineHandled, MpdError>)
        ensures
            match Self::spec_step(old(self)@, key@, value@) {
                Ok(st) => r is Ok && final(self)@ == st.0 && match st.1 {
                    None => r->Ok_0 == LineHandled::Yes,
                    Some(u) => r->Ok_0 is No && r->Ok_0->No_value@ == u,
                },
                Err(e) => r is Err && r->Err_0@ == e && final(self)@ == old(self)@,
            },
    ;
}

/// The entity that the pairs among `frames` make of `start`, with the lines
/// it did not take, in order.
pub open spec fn spec_decode<T: FromMpd>(start: T::V, frames: Seq<SpecFrame>) -> Result<
    (T::V, Seq<(Seq<u8>, Seq<u8>)>),
    SpecError,
>
    decreases frames.len(),
{
    if frames.len() == 0 {
        Ok((start, Seq::empty()))
    } else {
        match spec_decode::<T>(start, frames.drop_last()) {
            Err(e) => Err(e),
            Ok(acc) => match frames.last() {
                SpecFrame::Pair(k, val) => match T::spec_step(acc.0, k, val) {
                    Err(e) => Err(e),
                    Ok(st) => match st.1 {
                        None => Ok((st.0, acc.1)),
                        Some(u) => Ok((st.0, acc.1.push((k, u)))),
                    },
                },
                _ => Ok(acc),
            },
        }
    }
}

/// A binary block, or the end of one command of a batch, is never offered
/// to an entity as a line: decoding goes on as if it were not there.
pub proof fn lemma_non_pair_frames_skipped<T: FromMpd>(start: T::V, frames: Seq<SpecFrame>, f: SpecFrame)
    requires
        !(f is Pair),
    ensures
        spec_decode::<T>(start, frames.push(f)) == spec_decode::<T>(start, frames),
{
    assert(frames.push(f).drop_last() =~= frames);
}

proof fn lemma_decode_error_stays<T: FromMpd>(start: T::V, fs: Seq<SpecFrame>, j: int, k: int)
    requires
        0 <= j <= k <= fs.len(),
        spec_decode::<T>(start, fs.take(j)) is Err,
    ensures
        spec_decode::<T>(start, fs.take(k)) == spec_decode::<T>(start, fs.take(j)),
    decreases k - j,
{
    if j < k {
        lemma_decode_error_stays::<T>(start, fs, j, k - 1);
        assert(fs.take(k).drop_last() =~= fs.take(k - 1));
    }
}

/// The views of a list of `key: value` pairs.
pub open spec fn pairs_view(v: Seq<(Vec<u8>, Vec<u8>)>) -> Seq<(Seq<u8>, Seq<u8>)> {
    v.map_values(|p: (Vec<u8>, Vec<u8>)| (p.0@, p.1@))
}

/// Feeds every `key: value` frame to `entity`, in order, and returns the
/// finished entity with the lines it did not take. On an error the entity,
/// partly filled, is dropped and never handed out.
pub fn decode_frames<T: FromMpd>(entity: T, frames: &Vec<Frame>) -> (r: Result<
    (T, Vec<(Vec<u8>, Vec<u8>)>),
    MpdError,
>)
    ensures
        match spec_decode::<T>(entity@, frames_view(frames@)) {
            Ok(d) => r is Ok && r->Ok_0.0@ == d.0 && pairs_view(r->Ok_0.1@) == d.1,
            Err(e) => r is Err && r->Err_0@ == e,
        },
{
    let ghost start = entity@;
    let mut cur = entity;
    let mut left: Vec<(Vec<u8>, Vec<u8>)> = Vec::new();
    let mut i: usize = 0;
    proof {
        assert(frames_view(frames@).take(0) =~= Seq::<SpecFrame>::empty());
        assert(pairs_view(left@) =~= Seq::<(Seq<u8>, Seq<u8>)>::empty());
    }
    while i < frames.len()
        invariant
            0 <= i <= frames@.len(),
            start == entity@,
            spec_decode::<T>(start, frames_view(frames@).take(i as int)) == Ok::<
                (T::V, Seq<(Seq<u8>, Seq<u8>)>),
                SpecError,
            >((cur@, pairs_view(left@))),
        decreases frames.len() - i,
    {
        let ghost fv = frames_view(frames@);
        proof {
            assert(fv.take(i as int + 1).drop_last() =~= fv.take(i as int));
            assert(fv.take(i as int + 1).last() == fv[i as int]);
        }
        let ghost ev = cur@;
        match &frames[i] {
            Frame::Pair(k, v) => {
                proof {
                    assert(fv[i as int] == SpecFrame::Pair(k@, v@));
                }
                let value = copy_range(v.as_slice(), 0, v.len());
                proof {
                    assert(value@ =~= v@);
                }
                match cur.next_internal(k.as_slice(), value) {
                    Err(e) => {
                        proof {
                            assert(spec_decode::<T>(start, fv.take(i as int + 1)) == Err::<
                                (T::V, Seq<(Seq<u8>, Seq<u8>)>),
                                SpecError,
                            >(e@));
                            lemma_decode_error_stays::<T>(start, fv, i as int + 1, fv.len() as int);
                            assert(fv.take(fv.len() as int) =~= fv);
                        }
                        return Err(e);
                    },
                    Ok(LineHandled::Yes) => {},
                    Ok(LineHandled::No { value: u }) => {
                        let key = copy_range(k.as_slice(), 0, k.len());
                        let ghost before = pairs_view(left@);
                        proof {
                            assert(key@ =~= k@);
                        }
                        left.push((key, u));
                        proof {
                            assert(pairs_view(left@) =~= before.push((k@, u@)));
                        }
                    },
                }
            },
            _ => {},
        }
        i = i + 1;
    }
    proof {
        assert(frames_view(frames@).take(frames@.len() as int) =~= frames_view(frames@));
    }
    Ok((cur, left))
}

/// The key of a queue entry's id.
pub open spec fn id_key() -> Seq<u8> {
    seq![105u8, 100]
}

impl View for CurrentIndex {
    type V = u32;

    open spec fn view(&self) -> u32 {
        self.0
    }
}

impl FromMpd for CurrentIndex {
    open spec fn spec_step(v: u32, key: Seq<u8>, value: Seq<u8>) -> StepResult<u32> {
        if key == id_key() {
            match spec_parse_u32(value) {
                Some(n) => Ok((n, None)),
                None => Err(SpecError::Parse(key, value)),
            }
        } else {
            Ok((v, Some(value)))
        }
    }

    fn next_internal(&mut self, key: &[u8], value: Vec<u8>) -> (r: Result<LineHandled, MpdError>) {
        let id: [u8; 2] = [105, 100];
        proof {
            assert(id@ =~= id_key());
        }
        if crate::wire::bytes_eq(key, id.as_slice()) {
            match parse_u32(value.as_slice()) {
                Some(n) => {
                    self.0 = n;
                    Ok(LineHandled::Yes)
                },
                None => {
                    let k = copy_range(key, 0, key.len());
                    proof {
                        assert(k@ =~= key@);
                    }
                    Err(MpdError::Parse { key: k, value })
                },
            }
        } else {
            Ok(LineHandled::No { value })
        }
    }
}

} // verus!
