//! Line framing of the subprocess transport: each message is one line on
//! the child's input or output stream.
use vstd::prelude::*;
use crate::error::SessionError;

verus! {

/// The byte that ends every line.
pub const NEWLINE: u8 = 10;

/// Whether `s` holds a newline anywhere.
pub open spec fn has_newline(s: Seq<u8>) -> bool {
    exists|i: int| 0 <= i < s.len() && s[i] == NEWLINE
}

/// Frames one message as a line: the message followed by a newline. A
/// message that holds a newline itself cannot be framed.
pub fn frame_line(message: &Vec<u8>) -> (r: Result<Vec<u8>, SessionError>)
    ensures
        r is Ok <==> !has_newline(message@),
        r is Ok ==> r->Ok_0@ == message@.push(NEWLINE),
        r is Err ==> r->Err_0 is MalformedMessage,
{
    let mut line: Vec<u8> = Vec::new();
    let mut i: usize = 0;
    while i < message.len()
        invariant
            i <= message@.len(),
            line@ == message@.subrange(0, i as int),
            forall|j: int| 0 <= j < i ==> message@[j] != NEWLINE,
        decreases message@.len() - i,
    {
        if message[i] == NEWLINE {
            return Err(SessionError::MalformedMessage);
        }
        line.push(message[i]);
        i = i + 1;
        assert(line@ =~= message@.subrange(0, i as int));
    }
    assert(line@ =~= message@);
    line.push(NEWLINE);
    Ok(line)
}

/// Accepts one line read from the child, as it was read, its terminating
/// newline included. An empty read means the child closed its output before
/// answering: that fails with `ChildUnexpectedEof` carrying `diagnostics`, the
/// text of its error stream.
pub fn accept_response(line: Vec<u8>, diagnostics: String) -> (r: Result<Vec<u8>, SessionError>)
    ensures
        r is Ok <==> line@.len() > 0,
        r is Ok ==> r->Ok_0@ == line@,
        r is Err ==> r->Err_0 == SessionError::ChildUnexpectedEof(diagnostics),
{
    if line.len() == 0 {
        return Err(SessionError::ChildUnexpectedEof(diagnostics));
    }
    Ok(line)
}

} // verus!
