//! Gathering the meetings in session from every source, and choosing one of them.

use vstd::prelude::*;

use crate::clock::LocalDateTime;
use crate::meeting::Meeting;

verus! {

/// Holds of the meetings that are in session at `now`, given the two buffers.
pub open spec fn in_session(now: LocalDateTime, buffer_start: int, buffer_end: int) -> spec_fn(
    Meeting,
) -> bool {
    |m: Meeting| m.active_at(now, buffer_start, buffer_end)
}

/// The meetings of `sources` that are in session at `now`: source after source, each in
/// its own order.
pub open spec fn active_pool(
    sources: Seq<Vec<Meeting>>,
    now: LocalDateTime,
    buffer_start: int,
    buffer_end: int,
) -> Seq<Meeting>
    decreases sources.len(),
{
    if sources.len() == 0 {
        Seq::empty()
    } else {
        active_pool(sources.drop_last(), now, buffer_start, buffer_end) + sources.last()@.filter(
            in_session(now, buffer_start, buffer_end),
        )
    }
}

/// The meetings of all `sources` that are in session at `now`, in source order and, within
/// a source, in the order of that source.
pub fn active_candidates(
    sources: Vec<Vec<Meeting>>,
    now: &LocalDateTime,
    buffer_start: i64,
    buffer_end: i64,
) -> (r: Vec<Meeting>)
    requires
        now.wf(),
    ensures
        r@ == active_pool(sources@, *now, buffer_start as int, buffer_end as int),
{
    let ghost all = sources@;
    let ghost bs = buffer_start as int;
    let ghost be = buffer_end as int;
    let ghost keep = in_session(*now, bs, be);
    let mut rest = sources;
    let mut pool: Vec<Meeting> = Vec::new();
    let n = rest.len();
    let mut i: usize = 0;
    while i < n
        invariant
            n == all.len(),
            i <= n,
            rest@ == all.subrange(i as int, n as int),
            pool@ == active_pool(all.subrange(0, i as int), *now, bs, be),
            now.wf(),
            keep == in_session(*now, bs, be),
            bs == buffer_start as int,
            be == buffer_end as int,
        decreases n - i,
    {
        let mut source = rest.remove(0);
        let ghost src = source@;
        let m = source.len();
        let ghost before = pool@;
        let mut j: usize = 0;
        while j < m
            invariant
                m == src.len(),
                j <= m,
                source@ == src.subrange(j as int, m as int),
                pool@ == before + src.subrange(0, j as int).filter(keep),
                now.wf(),
                keep == in_session(*now, bs, be),
                bs == buffer_start as int,
                be == buffer_end as int,
            decreases m - j,
        {
            let meeting = source.remove(0);
            proof {
                assert(src.subrange(0, j + 1) =~= src.subrange(0, j as int).push(meeting));
                src.subrange(0, j as int).lemma_filter_push(meeting, keep);
            }
            let active = meeting.is_active(now, buffer_start, buffer_end);
            if active {
                pool.push(meeting);
            }
            proof {
                assert(source@ =~= src.subrange(j + 1, m as int));
                assert(pool@ =~= before + src.subrange(0, j + 1).filter(keep));
            }
            j = j + 1;
        }
        proof {
            assert(src.subrange(0, m as int) =~= src);
            assert(all.subrange(0, i + 1).drop_last() =~= all.subrange(0, i as int));
            assert(pool@ =~= active_pool(all.subrange(0, i + 1), *now, bs, be));
            assert(rest@ =~= all.subrange(i + 1, n as int));
        }
        i = i + 1;
    }
    proof {
        assert(all.subrange(0, n as int) =~= all);
    }
    pool
}

/// How several meetings in session are resolved.
#[derive(Clone, Copy, Debug, PartialEq, Eq, Structural)]
pub enum Policy {
    /// Take the first in pool order.
    First,
    /// Let the user choose.
    Interactive,
}

/// What the selection of a meeting from a pool of candidates comes to.
#[derive(Clone, Copy, Debug, PartialEq, Eq, Structural)]
pub enum Selection {
    /// The pool is empty.
    NoneFound,
    /// The candidate at this position is chosen.
    Chosen(usize),
    /// The user is to choose among the candidates.
    Prompt,
}

/// Chooses among `count` candidates: none when there are none, the only one when there is
/// one, and otherwise as `policy` says.
pub fn select(count: usize, policy: Policy) -> (r: Selection)
    ensures
        count == 0 ==> r == Selection::NoneFound,
        count == 1 ==> r == Selection::Chosen(0),
        count > 1 && policy == Policy::First ==> r == Selection::Chosen(0),
        count > 1 && policy == Policy::Interactive ==> r == Selection::Prompt,
{
    if count == 0 {
        Selection::NoneFound
    } else if count == 1 {
        Selection::Chosen(0)
    } else {
        match policy {
            Policy::First => Selection::Chosen(0),
            Policy::Interactive => Selection::Prompt,
        }
    }
}

/// Why no meeting was chosen.
#[derive(Clone, Debug)]
pub enum SelectError {
    /// No meeting is in session.
    NoCandidates,
    /// The user declined to choose.
    Cancelled,
    /// The user's answer could not be read; the message says why.
    InputError(String),
    /// The answer names no candidate.
    OutOfRange(usize),
}

/// Resolves the user's answer to a prompt over `count` candidates: the position answered,
/// or why there is none.
pub fn resolve_choice(count: usize, answer: Result<Option<usize>, String>) -> (r: Result<
    usize,
    SelectError,
>)
    ensures
        match answer {
            Ok(Some(i)) => if i < count {
                r == Ok::<usize, SelectError>(i)
            } else {
                r matches Err(SelectError::OutOfRange(j)) && j == i
            },
            Ok(None) => r matches Err(SelectError::Cancelled),
            Err(e) => r matches Err(SelectError::InputError(m)) && m == e,
        },
{
    match answer {
        Ok(Some(i)) => {
            if i < count {
                Ok(i)
            } else {
                Err(SelectError::OutOfRange(i))
            }
        },
        Ok(None) => Err(SelectError::Cancelled),
        Err(e) => Err(SelectError::InputError(e)),
    }
}

} // verus!
