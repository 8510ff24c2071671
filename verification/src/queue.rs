//! Edits of the track queue. Index 0 is the track that is playing now;
//! the edits below never touch it.
use vstd::prelude::*;
use crate::error::BotError;
use crate::messages::message::Message;
use crate::text::{decimal, decimal_string, owned};
use vstd::string::*;

verus! {

/// `x` limited to the interval `[lo, hi]` (meant for `lo <= hi`).
pub open spec fn clamp(x: int, lo: int, hi: int) -> int {
    if x < lo { lo } else if x > hi { hi } else { x }
}

/// The queue after taking the track at `from` out and putting it back at `to`.
pub open spec fn moved<T>(s: Seq<T>, from: int, to: int) -> Seq<T> {
    s.remove(from).insert(to, s[from])
}

/// The track found at position `i` after the track at `from` was moved to
/// `to`: the moved track at `to`; the tracks between the two positions one
/// step closer to `from`; every other track where it was.
pub open spec fn shifted_entry<T>(s: Seq<T>, from: int, to: int, i: int) -> T {
    if i == to {
        s[from]
    } else if from < to && from <= i && i < to {
        s[i + 1]
    } else if to < from && to < i && i <= from {
        s[i - 1]
    } else {
        s[i]
    }
}

/// The queue after removing up to `count` tracks starting at `index`.
pub open spec fn removed_range<T>(s: Seq<T>, index: int, count: int) -> Seq<T> {
    let end = if index + count < s.len() { index + count } else { s.len() as int };
    s.take(index) + s.skip(end)
}

/// The text of the error given for an index outside `1 .. len`.
pub open spec fn invalid_index_text(len: nat) -> Seq<char> {
    "Invalid track index, allowed range 1 - "@ + decimal((len - 1) as nat)
}

fn invalid_index_error(len: usize) -> (e: BotError)
    requires
        len >= 1,
    ensures
        e matches BotError::Generic(s) && s@ == invalid_index_text(len as nat),
{
    let mut s = owned("Invalid track index, allowed range 1 - ");
    let n = decimal_string((len - 1) as u64);
    s.append(n.as_str());
    BotError::Generic(s)
}

/// Moves the track at `from` to position `to`, where `to` is first limited to
/// `1 ..= len - 1`. Returns the position the track ended up at.
///
/// An index `from` outside `1 .. len` is refused and leaves the queue unchanged.
pub fn queue_move<T>(queue: &mut Vec<T>, from: usize, to: usize) -> (r: Result<usize, BotError>)
    requires
        old(queue)@.len() >= 1,
    ensures
        (1 <= from < old(queue)@.len()) <==> r is Ok,
        r matches Ok(t) ==> {
            &&& t as int == clamp(to as int, 1, old(queue)@.len() - 1)
            &&& final(queue)@ == moved(old(queue)@, from as int, t as int)
            &&& final(queue)@.len() == old(queue)@.len()
            &&& forall|i: int| 0 <= i < old(queue)@.len() ==>
                #[trigger] final(queue)@[i] == shifted_entry(old(queue)@, from as int, t as int, i)
        },
        r matches Err(e) ==> {
            &&& e matches BotError::Generic(s) && s@ == invalid_index_text(old(queue)@.len())
            &&& final(queue)@ == old(queue)@
        },
{
    let len = queue.len();
    if from < 1 || from >= len {
        return Err(invalid_index_error(len));
    }
    let target = if to < 1 { 1 } else if to > len - 1 { len - 1 } else { to };
    let ghost before = queue@;
    let track = queue.remove(from);
    queue.insert(target, track);
    proof {
        lemma_move_shifts(before, from as int, target as int);
    }
    Ok(target)
}

/// The text of the error given for a range below one.
pub open spec fn range_too_small_text() -> Seq<char> {
    "Range has to be equal or greater than 1"@
}

/// Removes `range` tracks (one when `range` is `None`) starting at `index`;
/// tracks past the end of the queue are simply not there to remove.
///
/// Refused, with the queue unchanged: an index outside `1 .. len`, then a
/// range of zero.
pub fn remove_tracks<T>(queue: &mut Vec<T>, index: usize, range: Option<usize>) -> (r: Result<(), BotError>)
    requires
        old(queue)@.len() >= 1,
        1 <= index < old(queue)@.len() ==> match range {
            Some(n) => index + n <= usize::MAX,
            None => true,
        },
    ensures
        ({
            let count = match range { Some(n) => n as int, None => 1 };
            &&& (r is Ok <==> (1 <= index < old(queue)@.len() && count >= 1))
            &&& r is Ok ==> final(queue)@ == removed_range(old(queue)@, index as int, count)
        }),
        r matches Err(e) ==> {
            &&& final(queue)@ == old(queue)@
            &&& e matches BotError::Generic(s) && if 1 <= index < old(queue)@.len() {
                s@ == range_too_small_text()
            } else {
                s@ == invalid_index_text(old(queue)@.len())
            }
        },
{
    let len = queue.len();
    if index < 1 || index >= len {
        return Err(invalid_index_error(len));
    }
    let count = match range {
        Some(n) => n,
        None => 1,
    };
    if count < 1 {
        return Err(BotError::Generic(owned("Range has to be equal or greater than 1")));
    }
    let ghost s = queue@;
    let mut k: usize = 0;
    while k < count
        invariant
            1 <= index < s.len(),
            0 <= k <= count,
            index + count <= usize::MAX,
            s == old(queue)@,
            count as int == match range { Some(n) => n as int, None => 1 },
            queue@ == removed_range(s, index as int, k as int),
        decreases count - k,
    {
        if index >= queue.len() {
            assert(index + k >= s.len());
            assert(removed_range(s, index as int, count as int) =~= removed_range(s, index as int, k as int));
            return Ok(());
        }
        queue.remove(index);
        assert(removed_range(s, index as int, k + 1) =~= removed_range(s, index as int, k as int).remove(index as int));
        k = k + 1;
    }
    assert(k == count);
    Ok(())
}

/// Drops every queued track but the one playing and answers "Queue has been
/// successfully cleared". A queue of one track or none is refused with
/// "There's nothing to clear" and left as it is.
pub fn clear_queue<T>(queue: &mut Vec<T>) -> (r: Result<Message, Message>)
    ensures
        r is Ok <==> old(queue)@.len() > 1,
        r is Ok ==> final(queue)@ == old(queue)@.take(1),
        r matches Ok(m) ==> m matches Message::Success(s) && s@ == "Queue has been successfully cleared"@,
        r matches Err(m) ==> m matches Message::Error(s) && s@ == "There's nothing to clear"@,
        r is Err ==> final(queue)@ == old(queue)@,
{
    if queue.len() <= 1 {
        return Err(Message::Error(owned("There's nothing to clear")));
    }
    queue.truncate(1);
    Ok(Message::Success(owned("Queue has been successfully cleared")))
}

/// Moving a track from `from` to `to` keeps the queue's length, puts the
/// moved track at `to`, shifts each track strictly between the two positions
/// (and the one at `to`) one step toward `from`, and leaves every track
/// outside the stretch from `from` to `to` where it was.
pub proof fn lemma_move_shifts<T>(s: Seq<T>, from: int, to: int)
    requires
        1 <= from < s.len(),
        1 <= to < s.len(),
    ensures
        moved(s, from, to).len() == s.len(),
        moved(s, from, to)[to] == s[from],
        forall|i: int| 0 <= i < s.len() && from < to && from <= i < to ==> #[trigger] moved(s, from, to)[i] == s[i + 1],
        forall|i: int| 0 <= i < s.len() && to < from && to < i <= from ==> #[trigger] moved(s, from, to)[i] == s[i - 1],
        forall|i: int| 0 <= i < s.len() && (i < from && i < to || i > from && i > to) ==> #[trigger] moved(s, from, to)[i] == s[i],
        forall|i: int| 0 <= i < s.len() ==> #[trigger] moved(s, from, to)[i] == shifted_entry(s, from, to, i),
{
    let r = s.remove(from);
    assert forall|i: int| 0 <= i < s.len() implies #[trigger] moved(s, from, to)[i] == shifted_entry(s, from, to, i) by {
        if i < to {
            assert(moved(s, from, to)[i] == r[i]);
        } else if i > to {
            assert(moved(s, from, to)[i] == r[i - 1]);
        }
    }
}

/// Moving a track keeps every track of the queue, each as often as before,
/// leaves the playing track where it is, and puts the moved track at `to`.
pub proof fn lemma_move_keeps_tracks<T>(s: Seq<T>, from: int, to: int)
    requires
        1 <= from < s.len(),
        1 <= to < s.len(),
    ensures
        moved(s, from, to).len() == s.len(),
        moved(s, from, to).to_multiset() == s.to_multiset(),
        moved(s, from, to)[to] == s[from],
        moved(s, from, to)[0] == s[0],
{
    broadcast use vstd::seq_lib::group_to_multiset_ensures;
    broadcast use vstd::multiset::group_multiset_axioms;
    assert(s.to_multiset().remove(s[from]).insert(s[from]) =~= s.to_multiset());
}

/// Moving a track from `from` to `to` and then from `to` back to `from`
/// gives the queue that was there before.
pub proof fn lemma_move_back_restores<T>(s: Seq<T>, from: int, to: int)
    requires
        1 <= from < s.len(),
        1 <= to < s.len(),
    ensures
        moved(moved(s, from, to), to, from) == s,
{
    let m = moved(s, from, to);
    assert(m[to] == s[from]);
    assert(m.remove(to) =~= s.remove(from));
    assert(s.remove(from).insert(from, s[from]) =~= s);
}

/// Removing tracks keeps the playing track and every track before `index`,
/// keeps the tracks after the removed stretch in their order, and shortens
/// the queue by the number of tracks that were there to remove.
pub proof fn lemma_remove_keeps_rest<T>(s: Seq<T>, index: int, count: int)
    requires
        1 <= index < s.len(),
        count >= 1,
    ensures
        ({
            let r = removed_range(s, index, count);
            let end = if index + count < s.len() { index + count } else { s.len() as int };
            &&& r.len() == s.len() - (end - index)
            &&& r[0] == s[0]
            &&& forall|i: int| 0 <= i < index ==> r[i] == s[i]
            &&& forall|i: int| index <= i < r.len() ==> r[i] == s[i + (end - index)]
        }),
{
}

/// Clearing the queue keeps exactly the playing track.
pub proof fn lemma_clear_keeps_current<T>(s: Seq<T>)
    requires
        s.len() > 1,
    ensures
        s.take(1).len() == 1,
        s.take(1)[0] == s[0],
{
}

} // verus!
