//! Byte-dump rendering.
//!
//! Packet analyses are rendered as ASCII byte buffers — hexadecimal, binary
//! and decimal views, offset-prefixed multi-column dumps, and the TCP flag
//! breakdown — which the callers print.  Every renderer is specified down to
//! the exact output bytes.

use vstd::prelude::*;

use crate::scan::copy_range;

verus! {

/// The hexadecimal digit (upper case) for one digit value.
pub open spec fn hex_digit(d: nat) -> u8 {
    if d < 10 {
        (48 + d) as u8
    } else {
        (55 + d) as u8
    }
}

/// A number in fixed-width hexadecimal, zero padded.
pub open spec fn hex_fixed(n: nat, w: nat) -> Seq<u8>
    decreases w,
{
    if w == 0 {
        Seq::empty()
    } else {
        hex_fixed(n / 16, (w - 1) as nat) + seq![hex_digit(n % 16)]
    }
}

/// A number in fixed-width binary, zero padded.
pub open spec fn bin_fixed(n: nat, w: nat) -> Seq<u8>
    decreases w,
{
    if w == 0 {
        Seq::empty()
    } else {
        bin_fixed(n / 2, (w - 1) as nat) + seq![(48 + n % 2) as u8]
    }
}

/// A number in decimal, most significant digit first.
pub open spec fn dec_bytes(n: nat) -> Seq<u8>
    decreases n,
{
    if n < 10 {
        seq![(48 + n) as u8]
    } else {
        dec_bytes(n / 10) + seq![(48 + n % 10) as u8]
    }
}

/// A byte as its printable ASCII character, or a dot.
pub open spec fn printable(b: u8) -> u8 {
    if b == 32 || (33 <= b && b <= 126) {
        b
    } else {
        46
    }
}

/// The three-space column gap.
pub open spec fn gap() -> Seq<u8> {
    seq![32u8, 32u8, 32u8]
}

/// The title line of the hex view: the UTF-8 bytes of `🔢 Hexadecimal:`.
#[verifier::opaque]
pub open spec fn hex_title() -> Seq<u8> {
    seq![240u8, 159u8, 148u8, 162u8, 32u8, 72u8, 101u8, 120u8, 97u8, 100u8, 101u8, 99u8, 105u8, 109u8, 97u8, 108u8, 58u8, 10u8]
}

/// The title line of the binary view: the UTF-8 bytes of `🔣 Binário:`.
#[verifier::opaque]
pub open spec fn bin_title() -> Seq<u8> {
    seq![240u8, 159u8, 148u8, 163u8, 32u8, 66u8, 105u8, 110u8, 195u8, 161u8, 114u8, 105u8, 111u8, 58u8, 10u8]
}

/// The title line of the decimal view: the UTF-8 bytes of `🔢 Decimal:`.
#[verifier::opaque]
pub open spec fn dec_title() -> Seq<u8> {
    seq![240u8, 159u8, 148u8, 162u8, 32u8, 68u8, 101u8, 99u8, 105u8, 109u8, 97u8, 108u8, 58u8, 10u8]
}

/// The two header lines of the multi-format view: the column titles —
/// offset, hexadecimal, decimal, ASCII — each padded to its column, and a
/// dashed rule under them.
#[verifier::opaque]
pub open spec fn mf_header() -> Seq<u8> {
    seq![79u8, 102u8, 102u8, 115u8, 101u8, 116u8, 32u8, 32u8, 32u8, 32u8, 32u8, 72u8, 101u8, 120u8, 97u8, 100u8, 101u8, 99u8, 105u8, 109u8, 97u8, 108u8, 32u8, 32u8, 32u8, 32u8, 32u8, 32u8, 32u8, 32u8, 32u8, 32u8, 32u8, 32u8, 32u8, 32u8, 32u8, 32u8, 32u8, 32u8, 32u8, 32u8, 32u8, 32u8, 32u8, 32u8, 68u8, 101u8, 99u8, 105u8, 109u8, 97u8, 108u8, 32u8, 32u8, 32u8, 32u8, 32u8, 32u8, 65u8, 83u8, 67u8, 73u8, 73u8, 10u8, 45u8, 45u8, 45u8, 45u8, 45u8, 45u8, 45u8, 45u8, 32u8, 32u8, 32u8, 45u8, 45u8, 45u8, 45u8, 45u8, 45u8, 45u8, 45u8, 45u8, 45u8, 45u8, 45u8, 45u8, 45u8, 45u8, 45u8, 45u8, 45u8, 45u8, 45u8, 45u8, 45u8, 45u8, 45u8, 45u8, 45u8, 45u8, 45u8, 45u8, 45u8, 45u8, 45u8, 32u8, 32u8, 32u8, 45u8, 45u8, 45u8, 45u8, 45u8, 45u8, 45u8, 45u8, 45u8, 45u8, 32u8, 32u8, 32u8, 45u8, 45u8, 45u8, 45u8, 45u8, 45u8, 45u8, 45u8, 45u8, 45u8, 45u8, 45u8, 45u8, 45u8, 45u8, 45u8, 10u8]
}

/// The two header lines of the offset view: offset, hexadecimal and ASCII
/// column titles over a dashed rule.
#[verifier::opaque]
pub open spec fn offsets_header() -> Seq<u8> {
    seq![79u8, 102u8, 102u8, 115u8, 101u8, 116u8, 32u8, 32u8, 32u8, 32u8, 32u8, 72u8, 101u8, 120u8, 97u8, 100u8, 101u8, 99u8, 105u8, 109u8, 97u8, 108u8, 32u8, 32u8, 32u8, 32u8, 32u8, 32u8, 32u8, 32u8, 32u8, 32u8, 32u8, 32u8, 32u8, 32u8, 32u8, 32u8, 32u8, 32u8, 32u8, 32u8, 32u8, 32u8, 32u8, 32u8, 32u8, 32u8, 32u8, 32u8, 32u8, 32u8, 32u8, 32u8, 32u8, 32u8, 32u8, 32u8, 32u8, 32u8, 32u8, 32u8, 65u8, 83u8, 67u8, 73u8, 73u8, 10u8, 45u8, 45u8, 45u8, 45u8, 45u8, 45u8, 45u8, 45u8, 32u8, 32u8, 32u8, 45u8, 45u8, 45u8, 45u8, 45u8, 45u8, 45u8, 45u8, 45u8, 45u8, 45u8, 45u8, 45u8, 45u8, 45u8, 45u8, 45u8, 45u8, 45u8, 45u8, 45u8, 45u8, 45u8, 45u8, 45u8, 45u8, 45u8, 45u8, 45u8, 45u8, 45u8, 45u8, 45u8, 45u8, 45u8, 45u8, 45u8, 45u8, 45u8, 45u8, 45u8, 45u8, 45u8, 45u8, 45u8, 45u8, 45u8, 45u8, 32u8, 32u8, 32u8, 45u8, 45u8, 45u8, 45u8, 45u8, 45u8, 45u8, 45u8, 45u8, 45u8, 45u8, 45u8, 45u8, 45u8, 45u8, 45u8, 10u8]
}

/// The two header lines of the per-byte analysis: offset, binary (`Binário`),
/// hex, decimal and ASCII column titles over a dashed rule.
#[verifier::opaque]
pub open spec fn analysis_header() -> Seq<u8> {
    seq![79u8, 102u8, 102u8, 115u8, 101u8, 116u8, 32u8, 32u8, 32u8, 32u8, 32u8, 66u8, 105u8, 110u8, 195u8, 161u8, 114u8, 105u8, 111u8, 32u8, 32u8, 32u8, 32u8, 32u8, 32u8, 32u8, 32u8, 32u8, 32u8, 32u8, 32u8, 72u8, 101u8, 120u8, 32u8, 32u8, 32u8, 32u8, 32u8, 32u8, 32u8, 32u8, 68u8, 101u8, 99u8, 105u8, 109u8, 97u8, 108u8, 32u8, 32u8, 32u8, 32u8, 65u8, 83u8, 67u8, 73u8, 73u8, 10u8, 45u8, 45u8, 45u8, 45u8, 45u8, 45u8, 45u8, 45u8, 32u8, 32u8, 32u8, 45u8, 45u8, 45u8, 45u8, 45u8, 45u8, 45u8, 45u8, 45u8, 45u8, 45u8, 45u8, 45u8, 45u8, 45u8, 45u8, 32u8, 32u8, 32u8, 45u8, 45u8, 45u8, 45u8, 45u8, 45u8, 45u8, 45u8, 32u8, 32u8, 32u8, 45u8, 45u8, 45u8, 45u8, 45u8, 45u8, 45u8, 45u8, 32u8, 32u8, 32u8, 45u8, 45u8, 45u8, 45u8, 45u8, 45u8, 45u8, 45u8, 45u8, 45u8, 45u8, 45u8, 45u8, 45u8, 45u8, 45u8, 10u8]
}

/// Append a number in fixed-width hexadecimal.
pub fn push_hex_fixed(v: &mut Vec<u8>, n: u64, w: usize)
    ensures
        final(v)@ == old(v)@ + hex_fixed(n as nat, w as nat),
    decreases w,
{
    if w == 0 {
        proof {
            assert(old(v)@ + hex_fixed(n as nat, 0) =~= old(v)@);
        }
        return;
    }
    push_hex_fixed(v, n / 16, w - 1);
    let d: u8 = (n % 16) as u8;
    v.push(
        if d < 10 {
            48 + d
        } else {
            55 + d
        },
    );
    proof {
        assert(final(v)@ =~= old(v)@ + hex_fixed(n as nat, w as nat));
    }
}

/// Append a number in fixed-width binary.
pub fn push_bin_fixed(v: &mut Vec<u8>, n: u64, w: usize)
    ensures
        final(v)@ == old(v)@ + bin_fixed(n as nat, w as nat),
    decreases w,
{
    if w == 0 {
        proof {
            assert(old(v)@ + bin_fixed(n as nat, 0) =~= old(v)@);
        }
        return;
    }
    push_bin_fixed(v, n / 2, w - 1);
    v.push(48 + (n % 2) as u8);
    proof {
        assert(final(v)@ =~= old(v)@ + bin_fixed(n as nat, w as nat));
    }
}

/// Append a number in decimal.
pub fn push_dec(v: &mut Vec<u8>, n: u64)
    ensures
        final(v)@ == old(v)@ + dec_bytes(n as nat),
    decreases n,
{
    if n < 10 {
        v.push(48 + n as u8);
        proof {
            assert(final(v)@ =~= old(v)@ + dec_bytes(n as nat));
        }
    } else {
        push_dec(v, n / 10);
        v.push(48 + (n % 10) as u8);
        proof {
            assert(final(v)@ =~= old(v)@ + dec_bytes(n as nat));
        }
    }
}

fn push_gap(v: &mut Vec<u8>)
    ensures
        final(v)@ == old(v)@ + gap(),
{
    v.push(32);
    v.push(32);
    v.push(32);
    proof {
        assert(final(v)@ =~= old(v)@ + gap());
    }
}

fn push_hex_title(v: &mut Vec<u8>)
    ensures
        final(v)@ == old(v)@ + hex_title(),
{
    let mut h: Vec<u8> = vec![240, 159, 148, 162, 32, 72, 101, 120, 97, 100, 101, 99, 105, 109, 97, 108, 58, 10];
    v.append(&mut h);
    proof {
        reveal(hex_title);
        assert(final(v)@ =~= old(v)@ + hex_title());
    }
}

fn push_bin_title(v: &mut Vec<u8>)
    ensures
        final(v)@ == old(v)@ + bin_title(),
{
    let mut h: Vec<u8> = vec![240, 159, 148, 163, 32, 66, 105, 110, 195, 161, 114, 105, 111, 58, 10];
    v.append(&mut h);
    proof {
        reveal(bin_title);
        assert(final(v)@ =~= old(v)@ + bin_title());
    }
}

fn push_dec_title(v: &mut Vec<u8>)
    ensures
        final(v)@ == old(v)@ + dec_title(),
{
    let mut h: Vec<u8> = vec![240, 159, 148, 162, 32, 68, 101, 99, 105, 109, 97, 108, 58, 10];
    v.append(&mut h);
    proof {
        reveal(dec_title);
        assert(final(v)@ =~= old(v)@ + dec_title());
    }
}

fn push_mf_header(v: &mut Vec<u8>)
    ensures
        final(v)@ == old(v)@ + mf_header(),
{
    let mut h: Vec<u8> = vec![79, 102, 102, 115, 101, 116, 32, 32, 32, 32, 32, 72, 101, 120, 97, 100, 101, 99, 105, 109, 97, 108, 32, 32, 32, 32, 32, 32, 32, 32, 32, 32, 32, 32, 32, 32, 32, 32, 32, 32, 32, 32, 32, 32, 32, 32, 68, 101, 99, 105, 109, 97, 108, 32, 32, 32, 32, 32, 32, 65, 83, 67, 73, 73, 10, 45, 45, 45, 45, 45, 45, 45, 45, 32, 32, 32, 45, 45, 45, 45, 45, 45, 45, 45, 45, 45, 45, 45, 45, 45, 45, 45, 45, 45, 45, 45, 45, 45, 45, 45, 45, 45, 45, 45, 45, 45, 45, 45, 32, 32, 32, 45, 45, 45, 45, 45, 45, 45, 45, 45, 45, 32, 32, 32, 45, 45, 45, 45, 45, 45, 45, 45, 45, 45, 45, 45, 45, 45, 45, 45, 10];
    v.append(&mut h);
    proof {
        reveal(mf_header);
        assert(final(v)@ =~= old(v)@ + mf_header());
    }
}

fn push_offsets_header(v: &mut Vec<u8>)
    ensures
        final(v)@ == old(v)@ + offsets_header(),
{
    let mut h: Vec<u8> = vec![79, 102, 102, 115, 101, 116, 32, 32, 32, 32, 32, 72, 101, 120, 97, 100, 101, 99, 105, 109, 97, 108, 32, 32, 32, 32, 32, 32, 32, 32, 32, 32, 32, 32, 32, 32, 32, 32, 32, 32, 32, 32, 32, 32, 32, 32, 32, 32, 32, 32, 32, 32, 32, 32, 32, 32, 32, 32, 32, 32, 32, 32, 65, 83, 67, 73, 73, 10, 45, 45, 45, 45, 45, 45, 45, 45, 32, 32, 32, 45, 45, 45, 45, 45, 45, 45, 45, 45, 45, 45, 45, 45, 45, 45, 45, 45, 45, 45, 45, 45, 45, 45, 45, 45, 45, 45, 45, 45, 45, 45, 45, 45, 45, 45, 45, 45, 45, 45, 45, 45, 45, 45, 45, 45, 45, 45, 45, 32, 32, 32, 45, 45, 45, 45, 45, 45, 45, 45, 45, 45, 45, 45, 45, 45, 45, 45, 10];
    v.append(&mut h);
    proof {
        reveal(offsets_header);
        assert(final(v)@ =~= old(v)@ + offsets_header());
    }
}

fn push_analysis_header(v: &mut Vec<u8>)
    ensures
        final(v)@ == old(v)@ + analysis_header(),
{
    let mut h: Vec<u8> = vec![79, 102, 102, 115, 101, 116, 32, 32, 32, 32, 32, 66, 105, 110, 195, 161, 114, 105, 111, 32, 32, 32, 32, 32, 32, 32, 32, 32, 32, 32, 32, 72, 101, 120, 32, 32, 32, 32, 32, 32, 32, 32, 68, 101, 99, 105, 109, 97, 108, 32, 32, 32, 32, 65, 83, 67, 73, 73, 10, 45, 45, 45, 45, 45, 45, 45, 45, 32, 32, 32, 45, 45, 45, 45, 45, 45, 45, 45, 45, 45, 45, 45, 45, 45, 45, 45, 32, 32, 32, 45, 45, 45, 45, 45, 45, 45, 45, 32, 32, 32, 45, 45, 45, 45, 45, 45, 45, 45, 32, 32, 32, 45, 45, 45, 45, 45, 45, 45, 45, 45, 45, 45, 45, 45, 45, 45, 45, 10];
    v.append(&mut h);
    proof {
        reveal(analysis_header);
        assert(final(v)@ =~= old(v)@ + analysis_header());
    }
}

fn push_packet_title_open(v: &mut Vec<u8>)
    ensures
        final(v)@ == old(v)@ + packet_title_open(),
{
    let mut h: Vec<u8> = vec![240, 159, 148, 141, 32, 65, 110, 195, 161, 108, 105, 115, 101, 32, 68, 101, 116, 97, 108, 104, 97, 100, 97, 32, 100, 111, 32, 80, 97, 99, 111, 116, 101, 32, 40];
    v.append(&mut h);
    proof {
        reveal(packet_title_open);
        assert(final(v)@ =~= old(v)@ + packet_title_open());
    }
}

fn push_packet_title_close(v: &mut Vec<u8>)
    ensures
        final(v)@ == old(v)@ + packet_title_close(),
{
    let mut h: Vec<u8> = vec![32, 98, 121, 116, 101, 115, 41, 10, 45, 45, 45, 45, 45, 45, 45, 45, 45, 45, 45, 45, 45, 45, 45, 45, 45, 45, 45, 45, 45, 45, 45, 45, 45, 45, 45, 45, 45, 45, 45, 45, 45, 45, 45, 45, 45, 45, 45, 45, 45, 45, 45, 45, 45, 45, 45, 45, 45, 45, 45, 45, 45, 45, 45, 45, 45, 45, 45, 45, 10];
    v.append(&mut h);
    proof {
        reveal(packet_title_close);
        assert(final(v)@ =~= old(v)@ + packet_title_close());
    }
}

fn push_flags_label(v: &mut Vec<u8>)
    ensures
        final(v)@ == old(v)@ + flags_label(),
{
    let mut h: Vec<u8> = vec![240, 159, 154, 169, 32, 70, 108, 97, 103, 115, 32, 84, 67, 80, 58, 10];
    v.append(&mut h);
    proof {
        reveal(flags_label);
        assert(final(v)@ =~= old(v)@ + flags_label());
    }
}

fn push_http_label(v: &mut Vec<u8>)
    ensures
        final(v)@ == old(v)@ + http_label(),
{
    let mut h: Vec<u8> = vec![10, 240, 159, 147, 132, 32, 68, 97, 100, 111, 115, 32, 72, 84, 84, 80, 58, 10];
    v.append(&mut h);
    proof {
        reveal(http_label);
        assert(final(v)@ =~= old(v)@ + http_label());
    }
}

/// One line of the binary view: indent, eight binary digits, newline.
pub open spec fn bin_line(b: u8) -> Seq<u8> {
    gap() + bin_fixed(b as nat, 8) + seq![10u8]
}

/// The binary view of the first `k` bytes, one line each.
pub open spec fn render_binary_upto(s: Seq<u8>, k: int) -> Seq<u8>
    decreases k,
{
    if k <= 0 {
        Seq::empty()
    } else {
        render_binary_upto(s, k - 1) + bin_line(s[k - 1])
    }
}

/// The binary view of a buffer: the title line, then one line per byte.
pub open spec fn render_binary_spec(s: Seq<u8>) -> Seq<u8> {
    bin_title() + render_binary_upto(s, s.len() as int)
}

/// Render a buffer byte by byte in binary, under the title line.
pub fn render_binary(data: &[u8]) -> (v: Vec<u8>)
    ensures
        v@ == render_binary_spec(data@),
{
    let len = data.len();
    let mut v: Vec<u8> = Vec::new();
    push_bin_title(&mut v);
    let mut j: usize = 0;
    proof {
        assert(v@ =~= bin_title() + render_binary_upto(data@, 0));
    }
    while j < len
        invariant
            len == data@.len(),
            j <= len,
            v@ == bin_title() + render_binary_upto(data@, j as int),
        decreases len - j,
    {
        push_gap(&mut v);
        push_bin_fixed(&mut v, data[j] as u64, 8);
        v.push(10);
        proof {
            assert(v@ =~= bin_title() + render_binary_upto(data@, j + 1));
        }
        j += 1;
    }
    v
}

/// One line of the decimal view: indent, `Byte`, the index, a colon, the
/// value, newline.
pub open spec fn dec_line(i: int, b: u8) -> Seq<u8> {
    gap() + seq![66u8, 121u8, 116u8, 101u8, 32u8] + dec_bytes(i as nat) + seq![58u8, 32u8]
        + dec_bytes(b as nat) + seq![10u8]
}

/// The decimal view of the first `k` bytes, one line each.
pub open spec fn render_decimal_upto(s: Seq<u8>, k: int) -> Seq<u8>
    decreases k,
{
    if k <= 0 {
        Seq::empty()
    } else {
        render_decimal_upto(s, k - 1) + dec_line(k - 1, s[k - 1])
    }
}

/// The decimal view of a buffer: the title line, then one indexed line per
/// byte.
pub open spec fn render_decimal_spec(s: Seq<u8>) -> Seq<u8> {
    dec_title() + render_decimal_upto(s, s.len() as int)
}

/// Render a buffer byte by byte in decimal, with indices, under the title
/// line.
pub fn render_decimal(data: &[u8]) -> (v: Vec<u8>)
    ensures
        v@ == render_decimal_spec(data@),
{
    let len = data.len();
    let mut v: Vec<u8> = Vec::new();
    push_dec_title(&mut v);
    let mut j: usize = 0;
    proof {
        assert(v@ =~= dec_title() + render_decimal_upto(data@, 0));
    }
    while j < len
        invariant
            len == data@.len(),
            j <= len,
            v@ == dec_title() + render_decimal_upto(data@, j as int),
        decreases len - j,
    {
        push_gap(&mut v);
        v.push(66);
        v.push(121);
        v.push(116);
        v.push(101);
        v.push(32);
        push_dec(&mut v, j as u64);
        v.push(58);
        v.push(32);
        push_dec(&mut v, data[j] as u64);
        v.push(10);
        proof {
            assert(v@ =~= dec_title() + render_decimal_upto(data@, j + 1));
        }
        j += 1;
    }
    v
}

/// Hex pairs, each followed by one space.
pub open spec fn hex_pairs(c: Seq<u8>) -> Seq<u8>
    decreases c.len(),
{
    if c.len() == 0 {
        Seq::empty()
    } else {
        hex_pairs(c.drop_last()) + hex_fixed(c.last() as nat, 2) + seq![32u8]
    }
}

fn push_hex_pairs(v: &mut Vec<u8>, c: &[u8])
    ensures
        final(v)@ == old(v)@ + hex_pairs(c@),
{
    let n = c.len();
    let mut j: usize = 0;
    proof {
        assert(old(v)@ + hex_pairs(c@.subrange(0, 0)) =~= old(v)@);
    }
    while j < n
        invariant
            n == c@.len(),
            j <= n,
            v@ == old(v)@ + hex_pairs(c@.subrange(0, j as int)),
        decreases n - j,
    {
        push_hex_fixed(v, c[j] as u64, 2);
        v.push(32);
        proof {
            assert(c@.subrange(0, j + 1).drop_last() =~= c@.subrange(0, j as int));
            assert(c@.subrange(0, j + 1).last() == c@[j as int]);
            assert(v@ =~= old(v)@ + hex_pairs(c@.subrange(0, j + 1)));
        }
        j += 1;
    }
    proof {
        assert(c@.subrange(0, n as int) =~= c@);
    }
}

/// The printable-ASCII view of a chunk, dot for anything unprintable.
pub open spec fn ascii_map(c: Seq<u8>) -> Seq<u8> {
    Seq::new(c.len(), |i: int| printable(c[i]))
}

fn push_ascii(v: &mut Vec<u8>, c: &[u8])
    ensures
        final(v)@ == old(v)@ + ascii_map(c@),
{
    let n = c.len();
    let mut j: usize = 0;
    proof {
        assert(v@ =~= old(v)@ + ascii_map(c@).subrange(0, 0));
    }
    while j < n
        invariant
            n == c@.len(),
            j <= n,
            v@ == old(v)@ + ascii_map(c@).subrange(0, j as int),
        decreases n - j,
    {
        let b = c[j];
        v.push(
            if b == 32 || (33 <= b && b <= 126) {
                b
            } else {
                46
            },
        );
        proof {
            assert(v@ =~= old(v)@ + ascii_map(c@).subrange(0, j + 1));
        }
        j += 1;
    }
    proof {
        assert(ascii_map(c@).subrange(0, n as int) =~= ascii_map(c@));
    }
}

/// One line of the plain hex view: indent, the chunk's hex pairs, newline.
pub open spec fn hex_line(c: Seq<u8>) -> Seq<u8> {
    gap() + hex_pairs(c) + seq![10u8]
}

/// The chunk size of the plain hex view.
pub open spec fn hex_chunk(len: int) -> int {
    if len < 16 {
        len
    } else {
        16
    }
}

/// The rows of the plain hex view: sixteen bytes per line.
pub open spec fn hex_rows(s: Seq<u8>) -> Seq<u8>
    decreases s.len(),
{
    if s.len() == 0 {
        Seq::empty()
    } else {
        let k = hex_chunk(s.len() as int);
        hex_line(s.take(k)) + hex_rows(s.skip(k))
    }
}

/// The plain hex view: the title line, then sixteen bytes per row.
pub open spec fn render_hex_spec(s: Seq<u8>) -> Seq<u8> {
    hex_title() + hex_rows(s)
}

/// Render a buffer in hex, sixteen bytes per line, under the title line.
pub fn render_hex(data: &[u8]) -> (v: Vec<u8>)
    ensures
        v@ == render_hex_spec(data@),
{
    let len = data.len();
    let mut v: Vec<u8> = Vec::new();
    push_hex_title(&mut v);
    let mut off: usize = 0;
    proof {
        assert(data@.skip(0) =~= data@);
        assert(v@ =~= hex_title());
        assert(v@ + hex_rows(data@) =~= hex_title() + hex_rows(data@));
    }
    while off < len
        invariant
            len == data@.len(),
            off <= len,
            v@ + hex_rows(data@.skip(off as int)) == hex_title() + hex_rows(data@),
        decreases len - off,
    {
        let end = if len - off < 16 {
            len
        } else {
            off + 16
        };
        let chunk = copy_range(data, off, end);
        let ghost c = data@.subrange(off as int, end as int);
        let ghost v0 = v@;
        push_gap(&mut v);
        push_hex_pairs(&mut v, chunk.as_slice());
        v.push(10);
        proof {
            let t = data@.skip(off as int);
            assert(t.take(hex_chunk(t.len() as int)) =~= c);
            assert(t.skip(hex_chunk(t.len() as int)) =~= data@.skip(end as int));
            assert(hex_rows(t) == hex_line(c) + hex_rows(data@.skip(end as int)));
            assert(v@ =~= v0 + hex_line(c));
            assert(v@ + hex_rows(data@.skip(end as int)) =~= v0 + hex_rows(t));
        }
        off = end;
    }
    proof {
        assert(data@.skip(len as int) =~= Seq::<u8>::empty());
        assert(v@ + hex_rows(data@.skip(len as int)) =~= v@);
    }
    v
}

/// Space-separated decimal values, no trailing separator.
pub open spec fn dec_join(c: Seq<u8>) -> Seq<u8>
    decreases c.len(),
{
    if c.len() == 0 {
        Seq::empty()
    } else if c.len() == 1 {
        dec_bytes(c[0] as nat)
    } else {
        dec_join(c.drop_last()) + seq![32u8] + dec_bytes(c.last() as nat)
    }
}

fn push_dec_join(v: &mut Vec<u8>, c: &[u8])
    ensures
        final(v)@ == old(v)@ + dec_join(c@),
{
    let n = c.len();
    let mut j: usize = 0;
    proof {
        assert(old(v)@ + dec_join(c@.subrange(0, 0)) =~= old(v)@);
    }
    while j < n
        invariant
            n == c@.len(),
            j <= n,
            v@ == old(v)@ + dec_join(c@.subrange(0, j as int)),
        decreases n - j,
    {
        if j > 0 {
            v.push(32);
        }
        push_dec(v, c[j] as u64);
        proof {
            assert(c@.subrange(0, j + 1).drop_last() =~= c@.subrange(0, j as int));
            assert(c@.subrange(0, j + 1).last() == c@[j as int]);
            assert(v@ =~= old(v)@ + dec_join(c@.subrange(0, j + 1)));
        }
        j += 1;
    }
    proof {
        assert(c@.subrange(0, n as int) =~= c@);
    }
}

/// Space-separated hex pairs, no trailing separator.
pub open spec fn hex_join(c: Seq<u8>) -> Seq<u8>
    decreases c.len(),
{
    if c.len() == 0 {
        Seq::empty()
    } else if c.len() == 1 {
        hex_fixed(c[0] as nat, 2)
    } else {
        hex_join(c.drop_last()) + seq![32u8] + hex_fixed(c.last() as nat, 2)
    }
}

fn push_hex_join(v: &mut Vec<u8>, c: &[u8])
    ensures
        final(v)@ == old(v)@ + hex_join(c@),
{
    let n = c.len();
    let mut j: usize = 0;
    proof {
        assert(old(v)@ + hex_join(c@.subrange(0, 0)) =~= old(v)@);
    }
    while j < n
        invariant
            n == c@.len(),
            j <= n,
            v@ == old(v)@ + hex_join(c@.subrange(0, j as int)),
        decreases n - j,
    {
        if j > 0 {
            v.push(32);
        }
        push_hex_fixed(v, c[j] as u64, 2);
        proof {
            assert(c@.subrange(0, j + 1).drop_last() =~= c@.subrange(0, j as int));
            assert(c@.subrange(0, j + 1).last() == c@[j as int]);
            assert(v@ =~= old(v)@ + hex_join(c@.subrange(0, j + 1)));
        }
        j += 1;
    }
    proof {
        assert(c@.subrange(0, n as int) =~= c@);
    }
}

/// One line of the multi-format view: the chunk's offset in hex, then its
/// hex, decimal and ASCII views, column-gapped.
pub open spec fn mf_line(base: int, c: Seq<u8>) -> Seq<u8> {
    hex_fixed(base as nat, 8) + gap() + hex_join(c) + gap() + dec_join(c) + gap() + ascii_map(c)
        + seq![10u8]
}

/// The chunk size of the multi-format view.
pub open spec fn mf_chunk(len: int) -> int {
    if len < 8 {
        len
    } else {
        8
    }
}

/// The multi-format view of a buffer from offset `base` on.
pub open spec fn render_mf(s: Seq<u8>, base: int) -> Seq<u8>
    decreases s.len(),
{
    if s.len() == 0 {
        Seq::empty()
    } else {
        let k = mf_chunk(s.len() as int);
        mf_line(base, s.take(k)) + render_mf(s.skip(k), base + k)
    }
}

/// The multi-format view: the column header, then the rows.
pub open spec fn render_mf_spec(s: Seq<u8>) -> Seq<u8> {
    mf_header() + render_mf(s, 0)
}

/// Render a buffer eight bytes per line under the column header, each line
/// giving the offset and the hex, decimal and ASCII views of its chunk.
pub fn print_multi_format(data: &[u8]) -> (v: Vec<u8>)
    ensures
        v@ == render_mf_spec(data@),
{
    let len = data.len();
    let mut v: Vec<u8> = Vec::new();
    push_mf_header(&mut v);
    let mut off: usize = 0;
    proof {
        assert(data@.skip(0) =~= data@);
        assert(v@ =~= mf_header());
        assert(v@ + render_mf(data@, 0) =~= mf_header() + render_mf(data@, 0));
    }
    while off < len
        invariant
            len == data@.len(),
            off <= len,
            v@ + render_mf(data@.skip(off as int), off as int) == mf_header() + render_mf(
                data@,
                0,
            ),
        decreases len - off,
    {
        let end = if len - off < 8 {
            len
        } else {
            off + 8
        };
        let chunk = copy_range(data, off, end);
        let ghost c = data@.subrange(off as int, end as int);
        let ghost v0 = v@;
        push_hex_fixed(&mut v, off as u64, 8);
        push_gap(&mut v);
        push_hex_join(&mut v, chunk.as_slice());
        push_gap(&mut v);
        push_dec_join(&mut v, chunk.as_slice());
        push_gap(&mut v);
        push_ascii(&mut v, chunk.as_slice());
        v.push(10);
        proof {
            let t = data@.skip(off as int);
            assert(t.take(mf_chunk(t.len() as int)) =~= c);
            assert(t.skip(mf_chunk(t.len() as int)) =~= data@.skip(end as int));
            assert(render_mf(t, off as int) == mf_line(off as int, c) + render_mf(
                data@.skip(end as int),
                end as int,
            ));
            assert(v@ =~= v0 + mf_line(off as int, c));
            assert(v@ + render_mf(data@.skip(end as int), end as int) =~= v0 + render_mf(
                t,
                off as int,
            ));
        }
        off = end;
    }
    proof {
        assert(data@.skip(len as int) =~= Seq::<u8>::empty());
        assert(v@ + render_mf(data@.skip(len as int), len as int) =~= v@);
    }
    v
}

/// One line of the offset view: the chunk's offset in hex, its hex pairs,
/// its ASCII view, column-gapped.
pub open spec fn offsets_line(base: int, c: Seq<u8>) -> Seq<u8> {
    hex_fixed(base as nat, 8) + gap() + hex_pairs(c) + gap() + ascii_map(c) + seq![10u8]
}

/// The offset view of a buffer from offset `base` on, sixteen bytes per
/// line.
pub open spec fn render_offsets(s: Seq<u8>, base: int) -> Seq<u8>
    decreases s.len(),
{
    if s.len() == 0 {
        Seq::empty()
    } else {
        let k = hex_chunk(s.len() as int);
        offsets_line(base, s.take(k)) + render_offsets(s.skip(k), base + k)
    }
}

/// The offset view: the column header, then the rows.
pub open spec fn render_offsets_spec(s: Seq<u8>) -> Seq<u8> {
    offsets_header() + render_offsets(s, 0)
}

/// Render a buffer sixteen bytes per line under the column header, with
/// offsets, hex pairs and the ASCII view.
pub fn print_ascii_with_offsets(data: &[u8]) -> (v: Vec<u8>)
    ensures
        v@ == render_offsets_spec(data@),
{
    let len = data.len();
    let mut v: Vec<u8> = Vec::new();
    push_offsets_header(&mut v);
    let mut off: usize = 0;
    proof {
        assert(data@.skip(0) =~= data@);
        assert(v@ =~= offsets_header());
        assert(v@ + render_offsets(data@, 0) =~= offsets_header() + render_offsets(data@, 0));
    }
    while off < len
        invariant
            len == data@.len(),
            off <= len,
            v@ + render_offsets(data@.skip(off as int), off as int) == offsets_header()
                + render_offsets(data@, 0),
        decreases len - off,
    {
        let end = if len - off < 16 {
            len
        } else {
            off + 16
        };
        let chunk = copy_range(data, off, end);
        let ghost c = data@.subrange(off as int, end as int);
        let ghost v0 = v@;
        push_hex_fixed(&mut v, off as u64, 8);
        push_gap(&mut v);
        push_hex_pairs(&mut v, chunk.as_slice());
        push_gap(&mut v);
        push_ascii(&mut v, chunk.as_slice());
        v.push(10);
        proof {
            let t = data@.skip(off as int);
            assert(t.take(hex_chunk(t.len() as int)) =~= c);
            assert(t.skip(hex_chunk(t.len() as int)) =~= data@.skip(end as int));
            assert(render_offsets(t, off as int) == offsets_line(off as int, c) + render_offsets(
                data@.skip(end as int),
                end as int,
            ));
            assert(v@ =~= v0 + offsets_line(off as int, c));
            assert(v@ + render_offsets(data@.skip(end as int), end as int) =~= v0 + render_offsets(
                t,
                off as int,
            ));
        }
        off = end;
    }
    proof {
        assert(data@.skip(len as int) =~= Seq::<u8>::empty());
        assert(v@ + render_offsets(data@.skip(len as int), len as int) =~= v@);
    }
    v
}

/// One line of the per-byte analysis: offset, binary, hex, decimal and the
/// ASCII character of one byte, column-gapped.
pub open spec fn analysis_line(i: int, b: u8) -> Seq<u8> {
    hex_fixed(i as nat, 8) + gap() + bin_fixed(b as nat, 8) + gap() + hex_fixed(b as nat, 2)
        + gap() + dec_bytes(b as nat) + gap() + seq![printable(b)] + seq![10u8]
}

/// The per-byte analysis of the first `k` bytes.
pub open spec fn render_analysis_upto(s: Seq<u8>, k: int) -> Seq<u8>
    decreases k,
{
    if k <= 0 {
        Seq::empty()
    } else {
        render_analysis_upto(s, k - 1) + analysis_line(k - 1, s[k - 1])
    }
}

/// The per-byte analysis of a buffer: the column header, then one line per
/// byte.
pub open spec fn render_analysis_spec(s: Seq<u8>) -> Seq<u8> {
    analysis_header() + render_analysis_upto(s, s.len() as int)
}

/// Render every byte of a buffer on its own line under the column header:
/// offset, binary, hex, decimal and ASCII views side by side.
pub fn print_binary_analysis(data: &[u8]) -> (v: Vec<u8>)
    ensures
        v@ == render_analysis_spec(data@),
{
    let len = data.len();
    let mut v: Vec<u8> = Vec::new();
    push_analysis_header(&mut v);
    let mut j: usize = 0;
    proof {
        assert(v@ =~= analysis_header() + render_analysis_upto(data@, 0));
    }
    while j < len
        invariant
            len == data@.len(),
            j <= len,
            v@ == analysis_header() + render_analysis_upto(data@, j as int),
        decreases len - j,
    {
        let b = data[j];
        push_hex_fixed(&mut v, j as u64, 8);
        push_gap(&mut v);
        push_bin_fixed(&mut v, b as u64, 8);
        push_gap(&mut v);
        push_hex_fixed(&mut v, b as u64, 2);
        push_gap(&mut v);
        push_dec(&mut v, b as u64);
        push_gap(&mut v);
        v.push(
            if b == 32 || (33 <= b && b <= 126) {
                b
            } else {
                46
            },
        );
        v.push(10);
        proof {
            assert(v@ =~= analysis_header() + render_analysis_upto(data@, j + 1));
        }
        j += 1;
    }
    v
}

/// The six TCP header flags of a packet's flag byte.
#[derive(Clone, Copy, Debug, PartialEq, Eq, Structural)]
pub struct TcpFlags {
    pub urg: bool,
    pub ack: bool,
    pub psh: bool,
    pub rst: bool,
    pub syn: bool,
    pub fin: bool,
}

/// Break the TCP flag byte into its six flags.
pub fn tcp_flags(flags: u8) -> (r: TcpFlags)
    ensures
        r.urg == ((flags & 32) != 0),
        r.ack == ((flags & 16) != 0),
        r.psh == ((flags & 8) != 0),
        r.rst == ((flags & 4) != 0),
        r.syn == ((flags & 2) != 0),
        r.fin == ((flags & 1) != 0),
{
    TcpFlags {
        urg: (flags & 32) != 0,
        ack: (flags & 16) != 0,
        psh: (flags & 8) != 0,
        rst: (flags & 4) != 0,
        syn: (flags & 2) != 0,
        fin: (flags & 1) != 0,
    }
}

/// The bytes of `true` or `false`.
pub open spec fn bool_bytes(b: bool) -> Seq<u8> {
    if b {
        seq![116u8, 114u8, 117u8, 101u8]
    } else {
        seq![102u8, 97u8, 108u8, 115u8, 101u8]
    }
}

/// One flag line: indent, the three-letter flag name, a colon, the value,
/// newline.
pub open spec fn flag_line(name: Seq<u8>, v: bool) -> Seq<u8> {
    gap() + name + seq![58u8, 32u8] + bool_bytes(v) + seq![10u8]
}

/// The six flag lines of a flag byte, URG through FIN.
pub open spec fn flags_section(f: u8) -> Seq<u8> {
    flag_line(seq![85u8, 82u8, 71u8], (f & 32) != 0) + flag_line(
        seq![65u8, 67u8, 75u8],
        (f & 16) != 0,
    ) + flag_line(seq![80u8, 83u8, 72u8], (f & 8) != 0) + flag_line(
        seq![82u8, 83u8, 84u8],
        (f & 4) != 0,
    ) + flag_line(seq![83u8, 89u8, 78u8], (f & 2) != 0) + flag_line(
        seq![70u8, 73u8, 78u8],
        (f & 1) != 0,
    )
}

fn push_bool(v: &mut Vec<u8>, b: bool)
    ensures
        final(v)@ == old(v)@ + bool_bytes(b),
{
    if b {
        v.push(116);
        v.push(114);
        v.push(117);
        v.push(101);
    } else {
        v.push(102);
        v.push(97);
        v.push(108);
        v.push(115);
        v.push(101);
    }
    proof {
        assert(final(v)@ =~= old(v)@ + bool_bytes(b));
    }
}

fn push_flag_line(v: &mut Vec<u8>, n1: u8, n2: u8, n3: u8, b: bool)
    ensures
        final(v)@ == old(v)@ + flag_line(seq![n1, n2, n3], b),
{
    push_gap(v);
    v.push(n1);
    v.push(n2);
    v.push(n3);
    v.push(58);
    v.push(32);
    push_bool(v, b);
    v.push(10);
    proof {
        assert(final(v)@ =~= old(v)@ + flag_line(seq![n1, n2, n3], b));
    }
}

/// The opening of the packet-analysis title, up to the byte count: the
/// UTF-8 bytes of `🔍 Análise Detalhada do Pacote (`.
#[verifier::opaque]
pub open spec fn packet_title_open() -> Seq<u8> {
    seq![240u8, 159u8, 148u8, 141u8, 32u8, 65u8, 110u8, 195u8, 161u8, 108u8, 105u8, 115u8, 101u8, 32u8, 68u8, 101u8, 116u8, 97u8, 108u8, 104u8, 97u8, 100u8, 97u8, 32u8, 100u8, 111u8, 32u8, 80u8, 97u8, 99u8, 111u8, 116u8, 101u8, 32u8, 40u8]
}

/// The close of the title — ` bytes)` — and the sixty-dash rule under it.
#[verifier::opaque]
pub open spec fn packet_title_close() -> Seq<u8> {
    seq![32u8, 98u8, 121u8, 116u8, 101u8, 115u8, 41u8, 10u8, 45u8, 45u8, 45u8, 45u8, 45u8, 45u8, 45u8, 45u8, 45u8, 45u8, 45u8, 45u8, 45u8, 45u8, 45u8, 45u8, 45u8, 45u8, 45u8, 45u8, 45u8, 45u8, 45u8, 45u8, 45u8, 45u8, 45u8, 45u8, 45u8, 45u8, 45u8, 45u8, 45u8, 45u8, 45u8, 45u8, 45u8, 45u8, 45u8, 45u8, 45u8, 45u8, 45u8, 45u8, 45u8, 45u8, 45u8, 45u8, 45u8, 45u8, 45u8, 45u8, 45u8, 45u8, 45u8, 45u8, 45u8, 45u8, 45u8, 45u8, 10u8]
}

/// The label over the flag breakdown: the UTF-8 bytes of `🚩 Flags TCP:`.
#[verifier::opaque]
pub open spec fn flags_label() -> Seq<u8> {
    seq![240u8, 159u8, 154u8, 169u8, 32u8, 70u8, 108u8, 97u8, 103u8, 115u8, 32u8, 84u8, 67u8, 80u8, 58u8, 10u8]
}

/// The label over the payload dump, after a blank line: the UTF-8 bytes of
/// `📄 Dados HTTP:`.
#[verifier::opaque]
pub open spec fn http_label() -> Seq<u8> {
    seq![10u8, 240u8, 159u8, 147u8, 132u8, 32u8, 68u8, 97u8, 100u8, 111u8, 115u8, 32u8, 72u8, 84u8, 84u8, 80u8, 58u8, 10u8]
}

/// What the packet analysis renders: the title with the packet's byte count
/// and a dashed rule, the labelled TCP flag breakdown where the header
/// reaches the flag byte, then the labelled offset dump of the payload past
/// the twenty-byte header.
pub open spec fn analyze_packet_spec(p: Seq<u8>) -> Seq<u8> {
    packet_title_open() + dec_bytes(p.len()) + packet_title_close() + (if p.len() >= 14 {
        flags_label() + flags_section(p[13])
    } else {
        Seq::empty()
    }) + (if p.len() > 20 {
        http_label() + render_offsets_spec(p.skip(20))
    } else {
        Seq::empty()
    })
}

#[verifier::rlimit(60)]
fn push_flags_section(v: &mut Vec<u8>, f: u8)
    ensures
        final(v)@ == old(v)@ + flags_section(f),
{
    push_flag_line(v, 85, 82, 71, (f & 32) != 0);
    push_flag_line(v, 65, 67, 75, (f & 16) != 0);
    push_flag_line(v, 80, 83, 72, (f & 8) != 0);
    push_flag_line(v, 82, 83, 84, (f & 4) != 0);
    push_flag_line(v, 83, 89, 78, (f & 2) != 0);
    push_flag_line(v, 70, 73, 78, (f & 1) != 0);
    proof {
        assert(final(v)@ =~= old(v)@ + flags_section(f));
    }
}

/// Analyze a TCP packet: announce its size, break out the header flags, and
/// dump the payload past the header with offsets, hex and ASCII views.
pub fn analyze_packet(packet: &[u8]) -> (v: Vec<u8>)
    ensures
        v@ == analyze_packet_spec(packet@),
{
    let len = packet.len();
    let mut v: Vec<u8> = Vec::new();
    push_packet_title_open(&mut v);
    push_dec(&mut v, len as u64);
    push_packet_title_close(&mut v);
    let ghost head = packet_title_open() + dec_bytes(packet@.len()) + packet_title_close();
    proof {
        assert(v@ =~= head);
    }
    if len >= 14 {
        push_flags_label(&mut v);
        push_flags_section(&mut v, packet[13]);
    }
    let ghost mid = head + (if packet@.len() >= 14 {
        flags_label() + flags_section(packet@[13])
    } else {
        Seq::<u8>::empty()
    });
    proof {
        assert(v@ =~= mid);
    }
    if len > 20 {
        push_http_label(&mut v);
        let body = copy_range(packet, 20, len);
        let mut dump = print_ascii_with_offsets(body.as_slice());
        v.append(&mut dump);
        proof {
            assert(body@ =~= packet@.skip(20));
            assert(v@ =~= mid + (http_label() + render_offsets_spec(packet@.skip(20))));
            assert(v@ =~= analyze_packet_spec(packet@));
        }
    } else {
        proof {
            assert(v@ =~= mid + Seq::<u8>::empty());
            assert(v@ =~= analyze_packet_spec(packet@));
        }
    }
    v
}

/// The big-endian sixteen-bit checksum field of a datagram header, read
/// from its seventh and eighth bytes.
pub fn checksum_field(packet: &[u8]) -> (r: Option<u16>)
    ensures
        match r {
            Some(c) => packet@.len() >= 8 && c == packet@[6] as int * 256 + packet@[7] as int,
            None => packet@.len() < 8,
        },
{
    if packet.len() >= 8 {
        Some((packet[6] as u16) * 256 + (packet[7] as u16))
    } else {
        None
    }
}

} // verus!
