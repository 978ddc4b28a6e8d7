use vstd::prelude::*;

verus! {

/// The value a parser callback hands back to the parser library: `0` lets the
/// parser go on, `1` stops it after the callback (it then reports the
/// callback's error, such as [`crate::HttpErrno::CbUrl`]).
pub fn callback_return(proceed: bool) -> (r: i32)
    ensures
        r == if proceed { 0i32 } else { 1i32 },
{
    if proceed { 0 } else { 1 }
}

/// Reads the library's keep-alive answer: any value other than `0` means the
/// connection should be kept alive.
pub fn keep_alive_from(answer: i32) -> (b: bool)
    ensures
        b <==> answer != 0,
{
    answer != 0
}

/// Reads the library's final-chunk answer: the body is final exactly when the
/// answer is `1`.
pub fn final_chunk_from(answer: i32) -> (b: bool)
    ensures
        b <==> answer == 1,
{
    answer == 1
}

} // verus!
