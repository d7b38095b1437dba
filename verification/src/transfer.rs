//! Moving bytes through streams that may take, or hand out, only a part of them at a time.
use vstd::prelude::*;
use vstd::slice::{slice_subrange, slice_to_vec};

verus! {

/// What is left to do after bytes were handed to a stream.
pub enum SendStep<'a> {
    /// These bytes are still to be sent.
    More(&'a [u8]),
    /// Everything has been sent.
    Done,
    /// The stream took nothing, so it will take nothing more.
    WroteNothing,
}

/// What to send first of `data`: all of it, or nothing where it is empty.
pub fn send_all(data: &[u8]) -> (r: SendStep)
    ensures
        data@.len() == 0 ==> r is Done,
        data@.len() > 0 ==> (r matches SendStep::More(rest) && rest@ == data@),
{
    if data.len() == 0 {
        SendStep::Done
    } else {
        SendStep::More(data)
    }
}

/// What to do after the stream took the first `n` of the bytes in `rest`.
pub fn after_send<'a>(rest: &'a [u8], n: usize) -> (r: SendStep<'a>)
    requires
        n <= rest@.len(),
        rest@.len() > 0,
    ensures
        n == 0 ==> r is WroteNothing,
        n == rest@.len() ==> r is Done,
        0 < n < rest@.len() ==> (r matches SendStep::More(left) && left@ == rest@.skip(n as int)),
{
    if n == 0 {
        SendStep::WroteNothing
    } else if n == rest.len() {
        SendStep::Done
    } else {
        let left: &[u8] = slice_subrange(rest, n, rest.len());
        assert(left@ =~= rest@.skip(n as int));
        SendStep::More(left)
    }
}

/// What to pass on after a stream has put `n` bytes into the buffer: those bytes, or nothing
/// more where there are none, which means that the stream has ended.
pub fn received(buf: &[u8], n: usize) -> (r: Option<Vec<u8>>)
    requires
        n <= buf@.len(),
    ensures
        (r is Some) == (n > 0),
        r matches Some(bytes) ==> bytes@ == buf@.take(n as int),
{
    if n == 0 {
        return None;
    }
    let bytes: Vec<u8> = slice_to_vec(slice_subrange(buf, 0, n));
    assert(bytes@ =~= buf@.take(n as int));
    Some(bytes)
}

/// The bytes that a stream was given, when it took these counts one after the other.
pub open spec fn taken(data: Seq<u8>, counts: Seq<nat>) -> Seq<u8>
    decreases counts.len(),
{
    if counts.len() == 0 {
        seq![]
    } else {
        data.take(counts[0] as int) + taken(data.skip(counts[0] as int), counts.skip(1))
    }
}

/// The bytes that are left after a stream took these counts.
pub open spec fn left(data: Seq<u8>, counts: Seq<nat>) -> Seq<u8>
    decreases counts.len(),
{
    if counts.len() == 0 {
        data
    } else {
        left(data.skip(counts[0] as int), counts.skip(1))
    }
}

/// Whether a stream can take these counts of `data`.
pub open spec fn can_take(data: Seq<u8>, counts: Seq<nat>) -> bool
    decreases counts.len(),
{
    counts.len() > 0 ==> counts[0] <= data.len() && can_take(
        data.skip(counts[0] as int),
        counts.skip(1),
    )
}

/// What was taken and what is left make up the data, in order: once nothing is left, the
/// stream was given exactly the data, however it was cut.
pub proof fn nothing_is_lost_or_repeated(data: Seq<u8>, counts: Seq<nat>)
    requires
        can_take(data, counts),
    ensures
        taken(data, counts) + left(data, counts) == data,
        left(data, counts).len() == 0 ==> taken(data, counts) == data,
    decreases counts.len(),
{
    if counts.len() > 0 {
        let n = counts[0] as int;
        nothing_is_lost_or_repeated(data.skip(n), counts.skip(1));
        assert(data.take(n) + data.skip(n) =~= data);
        assert(taken(data, counts) + left(data, counts) =~= data.take(n) + (taken(
            data.skip(n),
            counts.skip(1),
        ) + left(data.skip(n), counts.skip(1))));
    } else {
        assert(taken(data, counts) + left(data, counts) =~= data);
    }
    if left(data, counts).len() == 0 {
        assert(taken(data, counts) + left(data, counts) =~= taken(data, counts));
    }
}

} // verus!
