//! Text at the boundary with the kernel: decoding of fixed-length,
//! NUL-padded buffers, and decimal numbers for device paths and messages.

use vstd::prelude::*;
use vstd::slice::*;
use vstd::string::*;
use vstd::utf8::*;

verus! {

/// The number of bytes of `buf` before its first NUL, or its length if it
/// holds none.
pub open spec fn c_len(buf: Seq<u8>) -> nat
    decreases buf.len(),
{
    if buf.len() == 0 || buf[0] == 0 {
        0
    } else {
        1 + c_len(buf.drop_first())
    }
}

/// `pos` is where the C string in `buf` ends: no NUL stands before it, and
/// it is the place of a NUL or the end of the buffer.
pub open spec fn ends_at(buf: Seq<u8>, pos: int) -> bool {
    &&& 0 <= pos <= buf.len()
    &&& forall|i: int| 0 <= i < pos ==> buf[i] != 0
    &&& pos < buf.len() ==> buf[pos] == 0
}

/// The bytes of the C string in `buf`: those before its first NUL.
pub open spec fn c_bytes(buf: Seq<u8>) -> Seq<u8> {
    buf.subrange(0, c_len(buf) as int)
}

/// The string that a buffer decodes to: the characters of its C string
/// where those bytes are UTF-8, the empty string where they are not.
pub open spec fn decoded(buf: Seq<u8>) -> Seq<char> {
    if valid_utf8(c_bytes(buf)) {
        decode_utf8(c_bytes(buf))
    } else {
        Seq::empty()
    }
}

/// `c_len` is the one place where the C string in `buf` ends.
pub proof fn lemma_c_len(buf: Seq<u8>)
    ensures
        ends_at(buf, c_len(buf) as int),
        forall|pos: int| ends_at(buf, pos) ==> pos == c_len(buf),
    decreases buf.len(),
{
    if buf.len() == 0 || buf[0] == 0 {
        assert forall|pos: int| ends_at(buf, pos) implies pos == 0 by {
            if pos > 0 {
                assert(buf[0] != 0);
            }
        }
    } else {
        let rest = buf.drop_first();
        lemma_c_len(rest);
        let n = c_len(rest) as int;
        assert forall|i: int| 0 <= i < n + 1 implies buf[i] != 0 by {
            if i > 0 {
                assert(rest[i - 1] != 0);
            }
        }
        assert(n < rest.len() ==> rest[n] == 0);
        assert forall|pos: int| ends_at(buf, pos) implies pos == n + 1 by {
            assert(pos > 0);
            assert forall|i: int| 0 <= i < pos - 1 implies rest[i] != 0 by {
                assert(buf[i + 1] != 0);
            }
            assert(pos - 1 < rest.len() ==> rest[pos - 1] == buf[pos]);
            assert(ends_at(rest, pos - 1));
        }
    }
}

/// Decoding is idempotent. On bytes: the C string of a buffer holds no NUL,
/// so it is its own C string. On text: a decoded string, encoded again,
/// decodes to itself.
pub proof fn lemma_decode_idempotent(buf: Seq<u8>)
    ensures
        c_bytes(c_bytes(buf)) == c_bytes(buf),
        decoded(c_bytes(buf)) == decoded(buf),
        decoded(encode_utf8(decoded(buf))) == decoded(buf),
{
    broadcast use {decode_utf8_encode_utf8, encode_utf8_decode_utf8, encode_utf8_valid_utf8};

    let inner = c_bytes(buf);
    lemma_c_len(buf);
    lemma_c_len(inner);
    assert(ends_at(inner, inner.len() as int));
    assert(c_bytes(inner) =~= inner);
    if valid_utf8(inner) {
        assert(encode_utf8(decode_utf8(inner)) == inner);
    } else {
        assert(encode_utf8(Seq::<char>::empty()) =~= Seq::<u8>::empty());
        lemma_c_len(Seq::<u8>::empty());
        assert(c_bytes(Seq::<u8>::empty()) =~= Seq::<u8>::empty());
        assert(valid_utf8(Seq::<u8>::empty()));
        assert(decode_utf8(Seq::<u8>::empty()) =~= Seq::<char>::empty());
    }
}

/// A buffer that starts with a NUL decodes to the empty string, and a
/// buffer without a NUL is decoded whole.
pub proof fn lemma_decode_edges(buf: Seq<u8>)
    ensures
        buf.len() > 0 && buf[0] == 0 ==> decoded(buf) == Seq::<char>::empty(),
        (forall|i: int| 0 <= i < buf.len() ==> buf[i] != 0) ==> c_bytes(buf) == buf,
{
    lemma_c_len(buf);
    if buf.len() > 0 && buf[0] == 0 {
        assert(c_bytes(buf) =~= Seq::<u8>::empty());
        assert(valid_utf8(c_bytes(buf)));
        assert(decode_utf8(c_bytes(buf)) =~= Seq::<char>::empty());
    }
    if forall|i: int| 0 <= i < buf.len() ==> buf[i] != 0 {
        assert(ends_at(buf, buf.len() as int));
        assert(c_bytes(buf) =~= buf);
    }
}

/// Returns the length of the C string in `buf`: the index of its first
/// NUL, or the length of `buf` where it holds none.
pub fn cbuf_len(buf: &[u8]) -> (pos: usize)
    ensures
        pos == c_len(buf@),
        ends_at(buf@, pos as int),
{
    let mut pos: usize = 0;
    while pos < buf.len() && buf[pos] != 0
        invariant
            pos <= buf@.len(),
            forall|i: int| 0 <= i < pos ==> buf@[i] != 0,
        decreases buf@.len() - pos,
    {
        pos += 1;
    }
    proof {
        lemma_c_len(buf@);
    }
    pos
}

/// Decodes a fixed-length buffer that holds a string followed by NUL bytes.
/// The result holds the bytes before the first NUL, or all of them where
/// the buffer holds no NUL; where these are not UTF-8 it is empty.
pub fn cbuf_to_string(buf: &[u8]) -> (s: String)
    ensures
        s@ == decoded(buf@),
{
    let pos: usize = cbuf_len(buf);
    let bytes: Vec<u8> = slice_to_vec(slice_subrange(buf, 0, pos));
    match String::from_utf8(bytes) {
        Ok(s) => s,
        Err(_) => String::new(),
    }
}

/// The decimal digit of `d`.
pub open spec fn digit(d: nat) -> char
    recommends
        d < 10,
{
    if d == 0 {
        '0'
    } else if d == 1 {
        '1'
    } else if d == 2 {
        '2'
    } else if d == 3 {
        '3'
    } else if d == 4 {
        '4'
    } else if d == 5 {
        '5'
    } else if d == 6 {
        '6'
    } else if d == 7 {
        '7'
    } else if d == 8 {
        '8'
    } else {
        '9'
    }
}

/// The decimal numeral of `n`, without leading zeros.
pub open spec fn decimal(n: nat) -> Seq<char>
    decreases n,
{
    if n < 10 {
        seq![digit(n)]
    } else {
        decimal(n / 10).push(digit(n % 10))
    }
}

fn digit_str(d: u8) -> (s: &'static str)
    requires
        d < 10,
    ensures
        s@ == seq![digit(d as nat)],
{
    proof {
        reveal_strlit("0");
        reveal_strlit("1");
        reveal_strlit("2");
        reveal_strlit("3");
        reveal_strlit("4");
        reveal_strlit("5");
        reveal_strlit("6");
        reveal_strlit("7");
        reveal_strlit("8");
        reveal_strlit("9");
    }
    let s: &'static str = match d {
        0 => "0",
        1 => "1",
        2 => "2",
        3 => "3",
        4 => "4",
        5 => "5",
        6 => "6",
        7 => "7",
        8 => "8",
        _ => "9",
    };
    assert(s@ =~= seq![digit(d as nat)]);
    s
}

/// Appends the decimal numeral of `n` to `out`.
pub fn push_decimal(out: &mut String, n: u8)
    ensures
        final(out)@ == old(out)@ + decimal(n as nat),
{
    let ghost before = out@;
    if n >= 100 {
        out.append(digit_str(n / 100));
    }
    if n >= 10 {
        out.append(digit_str((n / 10) % 10));
    }
    out.append(digit_str(n % 10));
    proof {
        reveal_with_fuel(decimal, 3);
        if n >= 100 {
            assert((n as nat / 10) / 10 == n as nat / 100);
            assert((n as nat / 10) % 10 == ((n / 10) % 10) as nat);
        }
        assert(out@ =~= before + decimal(n as nat));
    }
}

} // verus!
