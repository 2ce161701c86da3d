use vstd::prelude::*;

verus! {

/// The ASCII digit for `d`, which is below ten.
pub open spec fn digit_byte(d: nat) -> u8 {
    (48 + d) as u8
}

/// The decimal digits of `n`, most significant first, with no leading zero.
pub open spec fn decimal_digits(n: nat) -> Seq<u8>
    decreases n,
{
    if n < 10 {
        seq![digit_byte(n)]
    } else {
        decimal_digits(n / 10).push(digit_byte(n % 10))
    }
}

/// The decimal text of `v`: a minus sign before the digits of a negative value.
pub open spec fn decimal_text(v: int) -> Seq<u8> {
    if v < 0 {
        seq![45u8] + decimal_digits((-v) as nat)
    } else {
        decimal_digits(v as nat)
    }
}

/// The characters that ASCII bytes stand for.
pub open spec fn ascii_chars(b: Seq<u8>) -> Seq<char> {
    b.map_values(|c: u8| c as char)
}

/// Relies on String::from_utf8: a byte vector that is valid UTF-8, as ASCII
/// bytes always are, becomes the string of those characters, one per byte.
#[verifier::external_body]
fn ascii_string(bytes: Vec<u8>) -> (r: String)
    requires
        forall|i: int| 0 <= i < bytes@.len() ==> bytes@[i] < 128,
    ensures
        r@ == ascii_chars(bytes@),
{
    String::from_utf8(bytes).unwrap_or_default()
}

/// Appends the decimal digits of `n` to `out`.
fn push_digits(n: u64, out: &mut Vec<u8>)
    ensures
        final(out)@ == old(out)@ + decimal_digits(n as nat),
    decreases n,
{
    if n < 10 {
        out.push(48 + n as u8);
        assert(final(out)@ =~= old(out)@ + decimal_digits(n as nat));
    } else {
        push_digits(n / 10, out);
        out.push(48 + (n % 10) as u8);
        assert(final(out)@ =~= old(out)@ + decimal_digits(n as nat));
    }
}

proof fn lemma_digits_ascii(n: nat)
    ensures
        forall|i: int| 0 <= i < decimal_digits(n).len() ==> #[trigger] decimal_digits(n)[i] < 128,
    decreases n,
{
    if n >= 10 {
        lemma_digits_ascii(n / 10);
        let d = decimal_digits(n);
        let p = decimal_digits(n / 10);
        assert forall|i: int| 0 <= i < d.len() implies #[trigger] d[i] < 128 by {
            if i < p.len() {
                assert(d[i] == p[i]);
            } else {
                assert(d[i] == digit_byte(n % 10));
            }
        }
    }
}

/// A numeric status reported by the engine.
#[derive(Debug)]
pub struct AbsintheError(pub i32);

impl AbsintheError {
    /// The status the engine reported.
    pub fn code(&self) -> (r: i32)
        ensures
            r == self.0,
    {
        self.0
    }

    /// The status as decimal text.
    pub fn message(&self) -> (r: String)
        ensures
            r@ == ascii_chars(decimal_text(self.0 as int)),
    {
        let mut bytes: Vec<u8> = Vec::new();
        let v = self.0 as i64;
        if v < 0 {
            bytes.push(45);
            push_digits((-v) as u64, &mut bytes);
        } else {
            push_digits(v as u64, &mut bytes);
        }
        proof {
            lemma_digits_ascii(if v < 0 { (-v) as nat } else { v as nat });
            assert(bytes@ =~= decimal_text(self.0 as int));
        }
        ascii_string(bytes)
    }
}

/// What can go wrong in a validation session.
#[derive(Debug)]
pub enum SessionError {
    /// The engine image could not be loaded.
    ImageLoadFailed,
    /// The reference symbol is not exported by the engine image.
    SymbolNotFound,
    /// The engine image could not be released.
    ImageReleaseFailed,
    /// A result buffer held a pointer/length pair that cannot be decoded.
    BufferDecodeOutOfBounds,
    /// A phase was requested out of order.
    InvalidState,
    /// The child process could not be started.
    ChildSpawnFailed,
    /// The child closed its output before answering; holds its diagnostic text.
    ChildUnexpectedEof(String),
    /// A message did not have the expected shape.
    MalformedMessage,
}

} // verus!
