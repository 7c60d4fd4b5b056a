//! The text of a memory dump: eight bytes a line, each line headed by the
//! address of its first byte.
use vstd::prelude::*;

verus! {

/// The lowercase hexadecimal digit for `d` (below 16).
pub open spec fn hex_digit(d: nat) -> char {
    if d < 10 {
        (0x30 + d) as char
    } else {
        (0x57 + d) as char
    }
}

/// `n` in lowercase hexadecimal, without leading zeros.
pub open spec fn hex_text(n: nat) -> Seq<char>
    decreases n,
{
    if n < 16 {
        seq![hex_digit(n)]
    } else {
        hex_text(n / 16).push(hex_digit(n % 16))
    }
}

/// The text of one byte: two hexadecimal digits and a space.
pub open spec fn byte_text(b: u8) -> Seq<char> {
    (if b < 0x10 { seq!['0'] } else { Seq::empty() }) + hex_text(b as nat) + seq![' ']
}

/// The text that starts a line at address `addr`.
pub open spec fn line_head(addr: int) -> Seq<char> {
    seq!['\n', '0', 'x'] + hex_text(addr as nat) + seq![' ']
}

/// The text of byte `i` of a dump from `addr`: a new line every eight bytes.
pub open spec fn entry_text(addr: int, data: Seq<u8>, i: int) -> Seq<char> {
    (if i % 8 == 0 { line_head(addr + i) } else { Seq::empty() }) + byte_text(data[i])
}

/// The text of the first `n` bytes of a dump from `addr`.
pub open spec fn dump_prefix(addr: int, data: Seq<u8>, n: nat) -> Seq<char>
    decreases n,
{
    if n == 0 {
        Seq::empty()
    } else {
        dump_prefix(addr, data, (n - 1) as nat) + entry_text(addr, data, n - 1)
    }
}

/// The whole dump of `data` read from `addr`, ending with a newline.
pub open spec fn dump_text(addr: int, data: Seq<u8>) -> Seq<char> {
    dump_prefix(addr, data, data.len()) + seq!['\n']
}

/// The hexadecimal digit for `d`.
fn hex_char(d: usize) -> (r: char)
    requires
        d < 16,
    ensures
        r == hex_digit(d as nat),
{
    if d < 10 {
        ((0x30 + d) as u8) as char
    } else {
        ((0x57 + d) as u8) as char
    }
}

/// Append `n` in hexadecimal to `out`.
fn push_hex(out: &mut Vec<char>, n: usize)
    ensures
        final(out)@ == old(out)@ + hex_text(n as nat),
    decreases n,
{
    if n >= 16 {
        push_hex(out, n / 16);
    }
    out.push(hex_char(n % 16));
    proof {
        if n >= 16 {
            assert(hex_text(n as nat) == hex_text((n / 16) as nat).push(hex_digit((n % 16) as nat)));
        }
    }
}

/// The dump of the bytes `data` read from address `addr`: for every eighth
/// byte a new line with the address, then each byte as two hexadecimal
/// digits and a space; a final newline.
pub fn memory_dump(addr: usize, data: &[u8]) -> (r: Vec<char>)
    requires
        addr + data@.len() <= usize::MAX,
    ensures
        r@ == dump_text(addr as int, data@),
{
    let mut out: Vec<char> = Vec::new();
    let mut i: usize = 0;
    while i < data.len()
        invariant
            i <= data@.len(),
            addr + data@.len() <= usize::MAX,
            out@ == dump_prefix(addr as int, data@, i as nat),
        decreases data.len() - i,
    {
        let ghost before = out@;
        if i % 8 == 0 {
            out.push('\n');
            out.push('0');
            out.push('x');
            push_hex(&mut out, addr + i);
            out.push(' ');
        }
        let b = data[i];
        if b < 0x10 {
            out.push('0');
        }
        push_hex(&mut out, b as usize);
        out.push(' ');
        proof {
            assert(out@ =~= before + entry_text(addr as int, data@, i as int));
        }
        i = i + 1;
    }
    out.push('\n');
    out
}

/// The dump of the first `n` bytes depends on those bytes only.
proof fn lemma_dump_prefix_prefix(addr: int, a: Seq<u8>, b: Seq<u8>, n: nat)
    requires
        n <= a.len(),
    ensures
        dump_prefix(addr, a + b, n) == dump_prefix(addr, a, n),
    decreases n,
{
    if n > 0 {
        lemma_dump_prefix_prefix(addr, a, b, (n - 1) as nat);
        assert((a + b)[n - 1] == a[n - 1]);
    }
}

/// Bytes after a whole number of lines are dumped as a dump of their own
/// from their own address.
proof fn lemma_dump_prefix_split(addr: int, a: Seq<u8>, b: Seq<u8>, k: nat)
    requires
        a.len() % 8 == 0,
        k <= b.len(),
    ensures
        dump_prefix(addr, a + b, a.len() + k) == dump_prefix(addr, a, a.len()) + dump_prefix(
            addr + a.len(),
            b,
            k,
        ),
    decreases k,
{
    if k == 0 {
        lemma_dump_prefix_prefix(addr, a, b, a.len());
        assert(dump_prefix(addr + a.len(), b, 0) =~= Seq::<char>::empty());
        assert(dump_prefix(addr, a, a.len()) + Seq::<char>::empty() =~= dump_prefix(addr, a, a.len()));
    } else {
        lemma_dump_prefix_split(addr, a, b, (k - 1) as nat);
        let j = k - 1;
        assert((a + b)[a.len() + j] == b[j]);
        assert((a.len() + j) % 8 == j % 8);
        assert(entry_text(addr, a + b, a.len() + j) == entry_text(addr + a.len(), b, j));
        assert(dump_prefix(addr, a + b, a.len() + k) == dump_prefix(addr, a + b, (a.len() + j) as nat)
            + entry_text(addr, a + b, a.len() + j));
        assert(dump_prefix(addr, a, a.len()) + dump_prefix(addr + a.len(), b, k) =~= dump_prefix(
            addr,
            a,
            a.len(),
        ) + dump_prefix(addr + a.len(), b, (k - 1) as nat) + entry_text(addr + a.len(), b, j));
    }
}

/// Dumping bytes that follow a whole number of lines continues with what a
/// dump of those bytes alone, from the address they were read at
/// (`addr + a.len()`), shows: the dump of `a + b` is the dump of `a`
/// without its final newline, then the dump of `b`. So every line is headed
/// by the address of its first byte, counted from `addr`.
pub proof fn lemma_dump_concat(addr: int, a: Seq<u8>, b: Seq<u8>)
    requires
        a.len() % 8 == 0,
    ensures
        dump_text(addr, a + b) == dump_text(addr, a).drop_last() + dump_text(addr + a.len(), b),
{
    lemma_dump_prefix_split(addr, a, b, b.len());
    assert((a + b).len() == a.len() + b.len());
    assert(dump_text(addr, a).drop_last() =~= dump_prefix(addr, a, a.len()));
    assert(dump_text(addr, a + b) =~= dump_text(addr, a).drop_last() + dump_text(addr + a.len(), b));
}

/// A dump of at least one byte opens with the line of its first byte:
/// a newline, `0x` and the address in hexadecimal, then a space.
pub proof fn lemma_dump_first_line(addr: int, data: Seq<u8>)
    requires
        data.len() > 0,
    ensures
        dump_text(addr, data).subrange(0, hex_text(addr as nat).len() + 4int) == seq!['\n', '0', 'x']
            + hex_text(addr as nat) + seq![' '],
    decreases data.len(),
{
    let h = seq!['\n', '0', 'x'] + hex_text(addr as nat) + seq![' '];
    lemma_dump_prefix_starts(addr, data, data.len());
    assert(dump_text(addr, data).subrange(0, h.len() as int) =~= dump_prefix(addr, data, data.len()).subrange(
        0,
        h.len() as int,
    ));
}

proof fn lemma_dump_prefix_starts(addr: int, data: Seq<u8>, n: nat)
    requires
        0 < n <= data.len(),
    ensures
        dump_prefix(addr, data, n).len() >= hex_text(addr as nat).len() + 4,
        dump_prefix(addr, data, n).subrange(0, hex_text(addr as nat).len() + 4int) == seq!['\n', '0', 'x']
            + hex_text(addr as nat) + seq![' '],
    decreases n,
{
    let h = seq!['\n', '0', 'x'] + hex_text(addr as nat) + seq![' '];
    if n == 1 {
        assert(dump_prefix(addr, data, 0) =~= Seq::<char>::empty());
        assert(entry_text(addr, data, 0) == line_head(addr) + byte_text(data[0]));
        assert(dump_prefix(addr, data, 1) =~= line_head(addr) + byte_text(data[0]));
        assert(line_head(addr) =~= h);
        assert(dump_prefix(addr, data, 1).subrange(0, h.len() as int) =~= h);
    } else {
        lemma_dump_prefix_starts(addr, data, (n - 1) as nat);
        let p = dump_prefix(addr, data, (n - 1) as nat);
        assert(dump_prefix(addr, data, n) == p + entry_text(addr, data, n - 1));
        assert((p + entry_text(addr, data, n - 1)).subrange(0, h.len() as int) =~= p.subrange(0, h.len() as int));
    }
}

/// The number a lowercase hexadecimal digit stands for.
pub open spec fn digit_value(c: char) -> int {
    if '0' <= c && c <= '9' {
        c as int - 0x30
    } else {
        c as int - 0x57
    }
}

/// Whether `c` is a lowercase hexadecimal digit.
pub open spec fn is_hex_digit(c: char) -> bool {
    ('0' <= c && c <= '9') || ('a' <= c && c <= 'f')
}

/// The number a string of hexadecimal digits stands for, most significant
/// digit first.
pub open spec fn numeral_value(s: Seq<char>) -> int
    decreases s.len(),
{
    if s.len() == 0 {
        0
    } else {
        numeral_value(s.drop_last()) * 16 + digit_value(s.last())
    }
}

/// The address and byte texts are numerals of the numbers they show: only
/// lowercase hexadecimal digits, with no leading zero, standing for `n`.
pub proof fn lemma_hex_text_numeral(n: nat)
    ensures
        hex_text(n).len() > 0,
        forall|i: int| 0 <= i < hex_text(n).len() ==> is_hex_digit(#[trigger] hex_text(n)[i]),
        numeral_value(hex_text(n)) == n,
        n > 0 ==> hex_text(n)[0] != '0',
    decreases n,
{
    if n < 16 {
        assert(numeral_value(hex_text(n).drop_last()) == 0) by {
            assert(hex_text(n).drop_last() =~= Seq::<char>::empty());
        }
    } else {
        lemma_hex_text_numeral(n / 16);
        let t = hex_text(n / 16);
        assert(hex_text(n) == t.push(hex_digit(n % 16)));
        assert(hex_text(n).drop_last() =~= t);
        assert forall|i: int| 0 <= i < hex_text(n).len() implies is_hex_digit(#[trigger] hex_text(n)[i]) by {
            if i < t.len() {
                assert(hex_text(n)[i] == t[i]);
            }
        }
        assert(hex_text(n)[0] == t[0]);
    }
}

/// Each byte shows as exactly two hexadecimal digits standing for it, then
/// a space.
pub proof fn lemma_byte_text_numeral(b: u8)
    ensures
        byte_text(b).len() == 3,
        is_hex_digit(byte_text(b)[0]) && is_hex_digit(byte_text(b)[1]),
        numeral_value(byte_text(b).subrange(0, 2)) == b,
        byte_text(b)[2] == ' ',
{
    lemma_hex_text_numeral(b as nat);
    let h = hex_text(b as nat);
    if b < 0x10 {
        assert(h =~= seq![hex_digit(b as nat)]);
        assert(byte_text(b).subrange(0, 2) =~= seq!['0', hex_digit(b as nat)]);
        assert(seq!['0', hex_digit(b as nat)].drop_last() =~= seq!['0']);
        assert(seq!['0'].drop_last() =~= Seq::<char>::empty());
        assert(h[0] == hex_digit(b as nat));
        assert(h.drop_last() =~= Seq::<char>::empty());
        assert(digit_value(hex_digit(b as nat)) == b);
        assert(numeral_value(seq!['0']) == 0);
        assert(numeral_value(seq!['0', hex_digit(b as nat)]) == b);
    } else {
        assert(h == hex_text((b / 16) as nat).push(hex_digit((b % 16) as nat)));
        assert(hex_text((b / 16) as nat) =~= seq![hex_digit((b / 16) as nat)]);
        assert(h.len() == 2);
        assert(byte_text(b).subrange(0, 2) =~= h);
    }
}

} // verus!
