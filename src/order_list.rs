use vstd::prelude::*;

use crate::error::ConsistError;

verus! {

/// The list after adding `x`: at `at` when that lies within `[0, len]`, else at the end.
pub open spec fn added<T>(s: Seq<T>, x: T, at: Option<usize>) -> Seq<T> {
    match at {
        Some(p) if p <= s.len() => s.insert(p as int, x),
        _ => s.push(x),
    }
}

/// The list with the entries at `i` and `j` exchanged.
pub open spec fn swapped<T>(s: Seq<T>, i: int, j: int) -> Seq<T> {
    s.update(i, s[j]).update(j, s[i])
}

/// The list after moving the entry at `p` one place towards the front.
pub open spec fn moved_up<T>(s: Seq<T>, p: int) -> Seq<T> {
    if p == 0 {
        s
    } else {
        swapped(s, p - 1, p)
    }
}

/// The list after moving the entry at `p` one place towards the back.
pub open spec fn moved_down<T>(s: Seq<T>, p: int) -> Seq<T> {
    if p + 1 == s.len() {
        s
    } else {
        swapped(s, p, p + 1)
    }
}

/// Where "add above row `r`" inserts: one place before `r`, but never before the start.
pub open spec fn above_position(r: usize) -> Option<usize> {
    if r == 0 {
        Some(0usize)
    } else {
        Some((r - 1) as usize)
    }
}

/// Where "add below row `r`" inserts: after `r`, or at the end when `r` is the last row.
pub open spec fn below_position(r: usize, len: nat) -> Option<usize> {
    if r + 1 >= len {
        None
    } else {
        Some((r + 1) as usize)
    }
}

/// Adds `x` at `at` when that lies within `[0, len]`, shifting later entries back;
/// otherwise appends it.
pub fn add<T>(list: &mut Vec<T>, x: T, at: Option<usize>)
    ensures
        final(list)@ == added(old(list)@, x, at),
{
    match at {
        Some(p) if p <= list.len() => list.insert(p, x),
        _ => list.push(x),
    }
}

/// Removes the entry at `p`, shifting later entries forward.
pub fn delete<T>(list: &mut Vec<T>, p: usize) -> (r: Result<T, ConsistError>)
    ensures
        p < old(list)@.len() ==> r == Ok::<T, ConsistError>(old(list)@[p as int])
            && final(list)@ == old(list)@.remove(p as int),
        p >= old(list)@.len() ==> r == Err::<T, ConsistError>(ConsistError::OutOfRange)
            && final(list)@ == old(list)@,
{
    if p < list.len() {
        Ok(list.remove(p))
    } else {
        Err(ConsistError::OutOfRange)
    }
}

/// Replaces the entry at `p` by `x`, leaving every other entry where it was.
pub fn edit<T>(list: &mut Vec<T>, p: usize, x: T) -> (r: Result<(), ConsistError>)
    ensures
        p < old(list)@.len() ==> r == Ok::<(), ConsistError>(())
            && final(list)@ == old(list)@.update(p as int, x),
        p >= old(list)@.len() ==> r == Err::<(), ConsistError>(ConsistError::OutOfRange)
            && final(list)@ == old(list)@,
{
    if p < list.len() {
        list.remove(p);
        list.insert(p, x);
        assert(list@ =~= old(list)@.update(p as int, x));
        Ok(())
    } else {
        Err(ConsistError::OutOfRange)
    }
}

/// Moves the entry at `p` one place towards the front; the first entry stays.
pub fn move_up<T>(list: &mut Vec<T>, p: usize) -> (r: Result<(), ConsistError>)
    ensures
        p < old(list)@.len() ==> r == Ok::<(), ConsistError>(())
            && final(list)@ == moved_up(old(list)@, p as int),
        p >= old(list)@.len() ==> r == Err::<(), ConsistError>(ConsistError::OutOfRange)
            && final(list)@ == old(list)@,
{
    if p >= list.len() {
        return Err(ConsistError::OutOfRange);
    }
    if p > 0 {
        let x = list.remove(p);
        list.insert(p - 1, x);
        assert(list@ =~= swapped(old(list)@, p - 1, p as int));
    }
    Ok(())
}

/// Moves the entry at `p` one place towards the back; the last entry stays.
pub fn move_down<T>(list: &mut Vec<T>, p: usize) -> (r: Result<(), ConsistError>)
    ensures
        p < old(list)@.len() ==> r == Ok::<(), ConsistError>(())
            && final(list)@ == moved_down(old(list)@, p as int),
        p >= old(list)@.len() ==> r == Err::<(), ConsistError>(ConsistError::OutOfRange)
            && final(list)@ == old(list)@,
{
    if p >= list.len() {
        return Err(ConsistError::OutOfRange);
    }
    if p + 1 < list.len() {
        let x = list.remove(p);
        list.insert(p + 1, x);
        assert(list@ =~= swapped(old(list)@, p as int, p + 1));
    }
    Ok(())
}

/// The position at which "add above row `r`" inserts.
pub fn position_above(r: usize) -> (at: Option<usize>)
    ensures
        at == above_position(r),
{
    if r == 0 {
        Some(0)
    } else {
        Some(r - 1)
    }
}

/// The position at which "add below row `r`" of a list of `len` entries inserts.
pub fn position_below(r: usize, len: usize) -> (at: Option<usize>)
    ensures
        at == below_position(r, len as nat),
{
    if r >= len || len - r == 1 {
        None
    } else {
        Some(r + 1)
    }
}

/// Moving an entry up and then the entry now before it down again gives back the
/// list as it was; at the boundaries either move leaves the list unchanged.
pub proof fn lemma_move_inverse<T>(s: Seq<T>, k: int)
    requires
        0 <= k < s.len(),
    ensures
        moved_up(s, 0) == s,
        moved_down(s, s.len() - 1) == s,
        k > 0 ==> moved_down(moved_up(s, k), k - 1) == s,
        k + 1 < s.len() ==> moved_up(moved_down(s, k), k + 1) == s,
{
    if k > 0 {
        assert(moved_down(moved_up(s, k), k - 1) =~= s);
    }
    if k + 1 < s.len() {
        assert(moved_up(moved_down(s, k), k + 1) =~= s);
    }
}

/// Deleting the entry at `p` and adding it back at `p` restores the list.
pub proof fn lemma_delete_add_round_trip<T>(s: Seq<T>, p: usize)
    requires
        p < s.len(),
    ensures
        added(s.remove(p as int), s[p as int], Some(p)) == s,
{
    assert(added(s.remove(p as int), s[p as int], Some(p)) =~= s);
}

/// Editing the entry at `p` changes that entry alone.
pub proof fn lemma_edit_local<T>(s: Seq<T>, p: int, x: T)
    requires
        0 <= p < s.len(),
    ensures
        s.update(p, x).len() == s.len(),
        s.update(p, x)[p] == x,
        forall|i: int| 0 <= i < s.len() && i != p ==> #[trigger] s.update(p, x)[i] == s[i],
{
}

} // verus!
