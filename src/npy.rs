//! Headers of the NumPy `.npy` format, version 1.0, for arrays of
//! little-endian doubles.
//!
//! A header is the magic string `\x93NUMPY`, the version bytes `1 0`, the
//! length of what follows as a little-endian `u16`, then a Python dictionary
//! literal describing the array, padded with spaces and ended by a newline so
//! that the whole header is 128 bytes long. The array data follows it.
use vstd::prelude::*;

verus! {

/// Length of the dictionary, its padding and the closing newline.
pub const HEADER_LEN: u16 = 118;

/// Start of the dictionary, up to the shape's first dimension.
pub const DICT_OPEN: &'static str = "{'descr': '<f8', 'fortran_order': False, 'shape': (";

/// End of the dictionary after the shape's last dimension of a 1-d array.
pub const DICT_CLOSE_1D: &'static str = ",), }";

/// End of the dictionary after the shape's last dimension of a 2-d array.
pub const DICT_CLOSE_2D: &'static str = "), }";

/// The saver context of the `.npy` format.
#[derive(PartialEq, Eq, Structural, Clone, Copy, Debug)]
pub struct Numpy;

/// The bytes of an ASCII text.
pub open spec fn ascii(s: Seq<char>) -> Seq<u8> {
    s.map_values(|c: char| c as u8)
}

/// The decimal digits of `n`, most significant first, without leading zeros.
pub open spec fn decimal(n: nat) -> Seq<u8>
    decreases n,
{
    if n < 10 {
        seq![(48 + n) as u8]
    } else {
        decimal(n / 10).push((48 + n % 10) as u8)
    }
}

pub open spec fn magic() -> Seq<u8> {
    seq![0x93u8, 78u8, 85u8, 77u8, 80u8, 89u8, 1u8, 0u8, HEADER_LEN as u8, 0u8]
}

/// The full header around the dictionary `dict`.
pub open spec fn header_of(dict: Seq<u8>) -> Seq<u8> {
    magic() + dict + Seq::new((HEADER_LEN - 1 - dict.len()) as nat, |i: int| 32u8) + seq![10u8]
}

pub open spec fn dict_1d(len: nat) -> Seq<u8> {
    ascii(DICT_OPEN@) + decimal(len) + ascii(DICT_CLOSE_1D@)
}

pub open spec fn dict_2d(rows: nat, cols: nat) -> Seq<u8> {
    ascii(DICT_OPEN@) + decimal(rows) + seq![44u8] + decimal(cols) + ascii(DICT_CLOSE_2D@)
}

pub open spec fn pow10(k: nat) -> nat
    decreases k,
{
    if k == 0 {
        1
    } else {
        10 * pow10((k - 1) as nat)
    }
}

proof fn lemma_decimal_len(n: nat, k: nat)
    requires
        n < pow10(k),
        k >= 1,
    ensures
        decimal(n).len() <= k,
    decreases n,
{
    if n >= 10 {
        assert(k >= 2) by {
            if k == 1 {
                assert(pow10(1) == 10) by {
                    reveal_with_fuel(pow10, 2);
                }
            }
        }
        assert(n / 10 < pow10((k - 1) as nat));
        lemma_decimal_len(n / 10, (k - 1) as nat);
    }
}

proof fn lemma_usize_digits(n: usize)
    ensures
        decimal(n as nat).len() <= 20,
{
    assert(pow10(20) == 100000000000000000000nat) by {
        reveal_with_fuel(pow10, 21);
    }
    lemma_decimal_len(n as nat, 20);
}

/// Appends the bytes of the ASCII text `s`.
fn push_ascii(out: &mut Vec<u8>, s: &str)
    requires
        vstd::string::is_ascii(s),
    ensures
        final(out)@ == old(out)@ + ascii(s@),
{
    proof {
        vstd::string::is_ascii_spec_bytes(s);
    }
    let bytes = s.as_bytes();
    let mut i: usize = 0;
    while i < bytes.len()
        invariant
            bytes@ == ascii(s@),
            i <= bytes@.len(),
            out@ == old(out)@ + bytes@.subrange(0, i as int),
        decreases bytes@.len() - i,
    {
        out.push(bytes[i]);
        proof {
            assert(bytes@.subrange(0, i + 1) =~= bytes@.subrange(0, i as int).push(bytes@[i as int]));
        }
        i = i + 1;
    }
    proof {
        assert(bytes@.subrange(0, bytes@.len() as int) =~= bytes@);
    }
}

/// Appends the decimal digits of `n`.
fn push_decimal(out: &mut Vec<u8>, n: usize)
    ensures
        final(out)@ == old(out)@ + decimal(n as nat),
    decreases n,
{
    if n >= 10 {
        push_decimal(out, n / 10);
    }
    out.push((48 + n % 10) as u8);
    proof {
        if n >= 10 {
            assert(decimal(n as nat) == decimal((n / 10) as nat).push((48 + n % 10) as u8));
        }
    }
    assert(final(out)@ =~= old(out)@ + decimal(n as nat)) by {
        if n < 10 {
            assert(n % 10 == n);
        }
    }
}

/// Completes the header around the dictionary already in `dict`.
fn frame(dict: Vec<u8>) -> (r: Vec<u8>)
    requires
        dict@.len() < HEADER_LEN,
    ensures
        r@ == header_of(dict@),
{
    let mut out: Vec<u8> = Vec::new();
    out.push(0x93u8);
    proof {
        reveal_strlit("NUMPY");
    }
    push_ascii(&mut out, "NUMPY");
    out.push(1u8);
    out.push(0u8);
    out.push(HEADER_LEN as u8);
    out.push(0u8);
    assert(out@ =~= magic());
    let mut i: usize = 0;
    while i < dict.len()
        invariant
            i <= dict@.len(),
            out@ == magic() + dict@.subrange(0, i as int),
        decreases dict@.len() - i,
    {
        out.push(dict[i]);
        proof {
            assert(dict@.subrange(0, i + 1) =~= dict@.subrange(0, i as int).push(dict@[i as int]));
        }
        i = i + 1;
    }
    let pad: usize = (HEADER_LEN as usize) - 1 - dict.len();
    let mut k: usize = 0;
    while k < pad
        invariant
            i == dict@.len(),
            pad == HEADER_LEN - 1 - dict@.len(),
            k <= pad,
            out@ == magic() + dict@.subrange(0, i as int) + Seq::new(k as nat, |j: int| 32u8),
        decreases pad - k,
    {
        out.push(32u8);
        proof {
            assert(Seq::new((k + 1) as nat, |j: int| 32u8) =~= Seq::new(k as nat, |j: int| 32u8).push(32u8));
        }
        k = k + 1;
    }
    out.push(10u8);
    proof {
        assert(dict@.subrange(0, i as int) =~= dict@);
        assert(out@ =~= header_of(dict@));
    }
    out
}

impl Numpy {
    /// The header of a 1-d array of `len` doubles.
    pub fn header_1d(&self, len: usize) -> (r: Vec<u8>)
        ensures
            r@ == header_of(dict_1d(len as nat)),
            r@.len() == 128,
    {
        let mut dict: Vec<u8> = Vec::new();
        proof {
            reveal_strlit("{'descr': '<f8', 'fortran_order': False, 'shape': (");
            reveal_strlit(",), }");
            lemma_usize_digits(len);
        }
        push_ascii(&mut dict, DICT_OPEN);
        push_decimal(&mut dict, len);
        push_ascii(&mut dict, DICT_CLOSE_1D);
        assert(dict@ =~= dict_1d(len as nat));
        frame(dict)
    }

    /// The header of a 2-d array of `rows` rows of `cols` doubles, stored row
    /// after row.
    pub fn header_2d(&self, rows: usize, cols: usize) -> (r: Vec<u8>)
        ensures
            r@ == header_of(dict_2d(rows as nat, cols as nat)),
            r@.len() == 128,
    {
        let mut dict: Vec<u8> = Vec::new();
        proof {
            reveal_strlit("{'descr': '<f8', 'fortran_order': False, 'shape': (");
            reveal_strlit("), }");
            lemma_usize_digits(rows);
            lemma_usize_digits(cols);
        }
        push_ascii(&mut dict, DICT_OPEN);
        push_decimal(&mut dict, rows);
        dict.push(44u8);
        push_decimal(&mut dict, cols);
        push_ascii(&mut dict, DICT_CLOSE_2D);
        assert(dict@ =~= dict_2d(rows as nat, cols as nat));
        frame(dict)
    }
}

} // verus!
