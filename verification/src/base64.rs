//! Base64 with the standard alphabet and padding.

use vstd::prelude::*;

verus! {

/// The character that stands for a group of six bits.
pub open spec fn alphabet(i: int) -> char
    recommends
        0 <= i < 64,
{
    if i < 26 {
        (i + 65) as char
    } else if i < 52 {
        (i + 71) as char
    } else if i < 62 {
        (i - 4) as char
    } else if i == 62 {
        '+'
    } else {
        '/'
    }
}

/// The encoding of a sequence of bytes: four characters for each three bytes,
/// and a last group padded with `=` where one or two bytes are left over.
pub open spec fn encoded(data: Seq<u8>) -> Seq<char>
    decreases data.len(),
{
    if data.len() == 0 {
        Seq::empty()
    } else if data.len() == 1 {
        seq![alphabet(data[0] as int / 4), alphabet((data[0] as int % 4) * 16), '=', '=']
    } else if data.len() == 2 {
        seq![
            alphabet(data[0] as int / 4),
            alphabet((data[0] as int % 4) * 16 + data[1] as int / 16),
            alphabet((data[1] as int % 16) * 4),
            '=',
        ]
    } else {
        seq![
            alphabet(data[0] as int / 4),
            alphabet((data[0] as int % 4) * 16 + data[1] as int / 16),
            alphabet((data[1] as int % 16) * 4 + data[2] as int / 64),
            alphabet(data[2] as int % 64),
        ] + encoded(data.skip(3))
    }
}

fn alphabet_char(i: u8) -> (c: char)
    requires
        i < 64,
    ensures
        c == alphabet(i as int),
{
    if i < 26 {
        (i + 65) as char
    } else if i < 52 {
        (i + 71) as char
    } else if i < 62 {
        (i - 4) as char
    } else if i == 62 {
        '+'
    } else {
        '/'
    }
}

/// Encodes bytes as base64 text.
pub fn encode(data: &[u8]) -> (r: String)
    ensures
        r@ == encoded(data@),
{
    let mut result = String::new();
    let mut i: usize = 0;
    assert(data@.skip(0) =~= data@);
    assert(result@ + encoded(data@) =~= encoded(data@));
    while i < data.len()
        invariant
            i <= data.len(),
            result@ + encoded(data@.skip(i as int)) == encoded(data@),
        decreases data.len() - i,
    {
        let ghost rest = data@.skip(i as int);
        let ghost before = result@;
        let b0: u8 = data[i];
        assert(rest[0] == b0);
        result.push(alphabet_char(b0 / 4));
        if data.len() - i == 1 {
            result.push(alphabet_char((b0 % 4) * 16));
            result.push('=');
            result.push('=');
            assert(result@ =~= before + encoded(rest));
            assert(data@.skip(data.len() as int) =~= Seq::<u8>::empty());
            assert(result@ + encoded(data@.skip(data.len() as int)) =~= result@);
            i = data.len();
        } else if data.len() - i == 2 {
            let b1: u8 = data[i + 1];
            assert(rest[1] == b1);
            result.push(alphabet_char((b0 % 4) * 16 + b1 / 16));
            result.push(alphabet_char((b1 % 16) * 4));
            result.push('=');
            assert(result@ =~= before + encoded(rest));
            assert(data@.skip(data.len() as int) =~= Seq::<u8>::empty());
            assert(result@ + encoded(data@.skip(data.len() as int)) =~= result@);
            i = data.len();
        } else {
            let b1: u8 = data[i + 1];
            let b2: u8 = data[i + 2];
            assert(rest[1] == b1);
            assert(rest[2] == b2);
            result.push(alphabet_char((b0 % 4) * 16 + b1 / 16));
            result.push(alphabet_char((b1 % 16) * 4 + b2 / 64));
            result.push(alphabet_char(b2 % 64));
            assert(rest.skip(3) =~= data@.skip(i + 3));
            assert(result@ + encoded(data@.skip(i + 3)) =~= before + encoded(rest));
            i += 3;
        }
    }
    assert(data@.skip(data.len() as int) =~= Seq::<u8>::empty());
    assert(result@ + Seq::<char>::empty() =~= result@);
    result
}

} // verus!
