//! The two presentation modes, pure functions of the instruction data.
//!
//! Both modes share the canonicalization rule (a mnemonic beginning with the
//! two-character compressed-encoding marker `c.` displays as its unprefixed
//! base mnemonic) and the terminator rule (the last instruction's text, and
//! only it, is wrapped in a visual emphasis).
//!
//! Block mode yields one line per instruction: the zero-padded lowercase
//! `0x`-prefixed address, the raw bytes as space-separated two-digit hex
//! pairs right-aligned in a fixed field, then the instruction text.
//! Inline mode yields a single line: the first instruction's address, then
//! every instruction's text in order, a separator after each but the last
//! (`"; "` when that instruction's operand text is empty, else `" ; "`).

use vstd::prelude::*;

use crate::record::{models, InstructionRecord, RecordModel};

verus! {

/// The lowercase hexadecimal digit for `n` (0 to 15).
pub open spec fn hex_char(n: int) -> char {
    if n == 0 {
        '0'
    } else if n == 1 {
        '1'
    } else if n == 2 {
        '2'
    } else if n == 3 {
        '3'
    } else if n == 4 {
        '4'
    } else if n == 5 {
        '5'
    } else if n == 6 {
        '6'
    } else if n == 7 {
        '7'
    } else if n == 8 {
        '8'
    } else if n == 9 {
        '9'
    } else if n == 10 {
        'a'
    } else if n == 11 {
        'b'
    } else if n == 12 {
        'c'
    } else if n == 13 {
        'd'
    } else if n == 14 {
        'e'
    } else {
        'f'
    }
}

/// The hexadecimal digits of `v`, zero-padded on the left to at least
/// `width` digits.
pub open spec fn hex_digits(v: nat, width: nat) -> Seq<char>
    decreases v, width,
{
    if v < 16 && width <= 1 {
        seq![hex_char(v as int)]
    } else {
        hex_digits(v / 16, (if width == 0 {
            0
        } else {
            (width - 1) as nat
        }) as nat) + seq![hex_char((v % 16) as int)]
    }
}

/// The `0x`-prefixed address field: at least eight digits, so the whole
/// field is at least ten characters wide.
pub open spec fn addr_hex(a: u64) -> Seq<char> {
    seq!['0', 'x'] + hex_digits(a as nat, 8)
}

/// `n` spaces.
pub open spec fn spaces(n: nat) -> Seq<char>
    decreases n,
{
    if n == 0 {
        Seq::empty()
    } else {
        spaces((n - 1) as nat) + seq![' ']
    }
}

/// Two hex digits for one byte.
pub open spec fn byte_pair(b: u8) -> Seq<char> {
    seq![hex_char(b as int / 16), hex_char(b as int % 16)]
}

/// The raw bytes as two-digit hex pairs, each followed by a space.
pub open spec fn bytes_hex(bs: Seq<u8>) -> Seq<char>
    decreases bs.len(),
{
    if bs.len() == 0 {
        Seq::empty()
    } else {
        bytes_hex(bs.drop_last()) + byte_pair(bs.last()) + seq![' ']
    }
}

/// `s` right-aligned in a field of `w` characters, space-filled; a longer
/// `s` stands as it is.
pub open spec fn right_aligned(s: Seq<char>, w: nat) -> Seq<char> {
    if s.len() >= w {
        s
    } else {
        spaces((w - s.len()) as nat) + s
    }
}

/// The canonicalization rule: a mnemonic beginning with the compressed
/// marker `c.` displays without it.
pub open spec fn canonical_mnemonic(m: Seq<char>) -> Seq<char> {
    if m.len() >= 2 && m[0] == 'c' && m[1] == '.' {
        m.skip(2)
    } else {
        m
    }
}

/// One instruction's display text: canonical mnemonic, a space, operands.
pub open spec fn insn_text(r: RecordModel) -> Seq<char> {
    canonical_mnemonic(r.mnemonic) + seq![' '] + r.operands
}

/// The terminal reset sequence.
pub open spec fn reset_marker() -> Seq<char> {
    seq!['\u{1b}', '[', '0', 'm']
}

/// The escape prefix that turns the following text red.
pub open spec fn red_marker() -> Seq<char> {
    seq!['\u{1b}', '[', '3', '1', 'm']
}

/// Whether `s` holds the reset sequence somewhere.
pub open spec fn contains_reset(s: Seq<char>) -> bool {
    exists|i: int| 0 <= i && i + 4 <= s.len() && #[trigger] s.subrange(i, i + 4) == reset_marker()
}

/// `s` wrapped in red emphasis.
pub open spec fn red_wrapped(s: Seq<char>) -> Seq<char> {
    red_marker() + s + reset_marker()
}

/// What the styling collaborator may hand back for `s`: the text unchanged
/// (colors off) or wrapped in red (colors on).
pub open spec fn emphasis_of(e: Seq<char>, s: Seq<char>) -> bool {
    e == s || e == red_wrapped(s)
}

/// One block-mode line, with `text` standing for the instruction text
/// (styled or plain): address, four spaces, the byte field right-aligned
/// to fifteen characters, three spaces, the text.
pub open spec fn block_line(r: RecordModel, text: Seq<char>) -> Seq<char> {
    addr_hex(r.address) + spaces(4) + right_aligned(bytes_hex(r.bytes), 15) + spaces(3) + text
}

/// The block-mode lines of `rs`, each with its plain text and a trailing
/// line break.
pub open spec fn plain_lines(rs: Seq<RecordModel>) -> Seq<char>
    decreases rs.len(),
{
    if rs.len() == 0 {
        Seq::empty()
    } else {
        plain_lines(rs.drop_last()) + block_line(rs.last(), insn_text(rs.last())) + seq!['\n']
    }
}

/// The whole block rendering: every instruction's line with plain text,
/// except the last, whose text is `styled`.
pub open spec fn block_render(rs: Seq<RecordModel>, styled: Seq<char>) -> Seq<char>
    recommends
        rs.len() > 0,
{
    plain_lines(rs.drop_last()) + block_line(rs.last(), styled)
}

/// The separator after an instruction: `"; "` when its operand text is
/// empty, else `" ; "`.
pub open spec fn separator(operands: Seq<char>) -> Seq<char> {
    if operands.len() == 0 {
        seq![';', ' ']
    } else {
        seq![' ', ';', ' ']
    }
}

/// One non-terminator inline piece: the instruction's text, then its
/// separator.
pub open spec fn inline_piece(r: RecordModel) -> Seq<char> {
    insn_text(r) + separator(r.operands)
}

/// The inline pieces of `rs`, in order.
pub open spec fn inline_pieces(rs: Seq<RecordModel>) -> Seq<char>
    decreases rs.len(),
{
    if rs.len() == 0 {
        Seq::empty()
    } else {
        inline_pieces(rs.drop_last()) + inline_piece(rs.last())
    }
}

/// The whole inline rendering: the first instruction's address, five
/// spaces, every earlier instruction's piece, then the terminator's text
/// as `styled`, with no separator after it.
pub open spec fn inline_render(rs: Seq<RecordModel>, styled: Seq<char>) -> Seq<char>
    recommends
        rs.len() > 0,
{
    addr_hex(rs.first().address) + spaces(5) + inline_pieces(rs.drop_last()) + styled
}

/// What a block-mode rendering of `rs` must be: empty for no instructions;
/// else, for a terminator text free of the reset sequence, the block
/// rendering in which exactly the last line's text carries the emphasis.
pub open spec fn block_output_ok(rs: Seq<RecordModel>, out: Seq<char>) -> bool {
    if rs.len() == 0 {
        out == Seq::<char>::empty()
    } else {
        !contains_reset(insn_text(rs.last())) ==> exists|e: Seq<char>|
            #[trigger] emphasis_of(e, insn_text(rs.last())) && out == block_render(rs, e)
    }
}

/// What an inline rendering of `rs` must be, `rs` non-empty: the inline
/// rendering in which exactly the terminator's text carries the emphasis.
pub open spec fn inline_output_ok(rs: Seq<RecordModel>, out: Seq<char>) -> bool
    recommends
        rs.len() > 0,
{
    !contains_reset(insn_text(rs.last())) ==> exists|e: Seq<char>|
        #[trigger] emphasis_of(e, insn_text(rs.last())) && out == inline_render(rs, e)
}

/// Relies on colored's `Colorize::red` and on `ColoredString`'s `Display`:
/// with global colorization off the text comes back unchanged; with it on,
/// a text holding no reset sequence comes back wrapped in the red escape
/// prefix and the reset suffix.
#[verifier::external_body]
fn emphasize(s: &String) -> (r: String)
    ensures
        !contains_reset(s@) ==> emphasis_of(r@, s@),
{
    colored::Colorize::red(s.as_str()).to_string()
}

/// The string holding the single hex digit for `n`.
fn hex_char_str(n: u8) -> (r: &'static str)
    requires
        n < 16,
    ensures
        r@ == seq![hex_char(n as int)],
{
    if n == 0 {
        proof {
            reveal_strlit("0");
            assert("0"@ =~= seq![hex_char(0)]);
        }
        "0"
    } else if n == 1 {
        proof {
            reveal_strlit("1");
            assert("1"@ =~= seq![hex_char(1)]);
        }
        "1"
    } else if n == 2 {
        proof {
            reveal_strlit("2");
            assert("2"@ =~= seq![hex_char(2)]);
        }
        "2"
    } else if n == 3 {
        proof {
            reveal_strlit("3");
            assert("3"@ =~= seq![hex_char(3)]);
        }
        "3"
    } else if n == 4 {
        proof {
            reveal_strlit("4");
            assert("4"@ =~= seq![hex_char(4)]);
        }
        "4"
    } else if n == 5 {
        proof {
            reveal_strlit("5");
            assert("5"@ =~= seq![hex_char(5)]);
        }
        "5"
    } else if n == 6 {
        proof {
            reveal_strlit("6");
            assert("6"@ =~= seq![hex_char(6)]);
        }
        "6"
    } else if n == 7 {
        proof {
            reveal_strlit("7");
            assert("7"@ =~= seq![hex_char(7)]);
        }
        "7"
    } else if n == 8 {
        proof {
            reveal_strlit("8");
            assert("8"@ =~= seq![hex_char(8)]);
        }
        "8"
    } else if n == 9 {
        proof {
            reveal_strlit("9");
            assert("9"@ =~= seq![hex_char(9)]);
        }
        "9"
    } else if n == 10 {
        proof {
            reveal_strlit("a");
            assert("a"@ =~= seq![hex_char(10)]);
        }
        "a"
    } else if n == 11 {
        proof {
            reveal_strlit("b");
            assert("b"@ =~= seq![hex_char(11)]);
        }
        "b"
    } else if n == 12 {
        proof {
            reveal_strlit("c");
            assert("c"@ =~= seq![hex_char(12)]);
        }
        "c"
    } else if n == 13 {
        proof {
            reveal_strlit("d");
            assert("d"@ =~= seq![hex_char(13)]);
        }
        "d"
    } else if n == 14 {
        proof {
            reveal_strlit("e");
            assert("e"@ =~= seq![hex_char(14)]);
        }
        "e"
    } else {
        proof {
            reveal_strlit("f");
            assert("f"@ =~= seq![hex_char(15)]);
        }
        "f"
    }
}

/// The hex digits of `v`, zero-padded to at least `width` digits.
fn hex_u64(v: u64, width: usize) -> (r: String)
    ensures
        r@ == hex_digits(v as nat, width as nat),
    decreases v, width,
{
    if v < 16 && width <= 1 {
        let mut s = String::new();
        s.append(hex_char_str(v as u8));
        proof {
            assert(s@ =~= seq![hex_char(v as int)]);
        }
        s
    } else {
        let narrower: usize = if width == 0 {
            0
        } else {
            width - 1
        };
        let mut s = hex_u64(v / 16, narrower);
        s.append(hex_char_str((v % 16) as u8));
        s
    }
}

/// `n` spaces.
fn make_spaces(n: usize) -> (r: String)
    ensures
        r@ == spaces(n as nat),
{
    let mut s = String::new();
    let mut i: usize = 0;
    while i < n
        invariant
            i <= n,
            s@ == spaces(i as nat),
        decreases n - i,
    {
        proof {
            reveal_strlit(" ");
            assert(" "@ =~= seq![' ']);
        }
        s.append(" ");
        i = i + 1;
    }
    s
}

/// The `0x`-prefixed, zero-padded address field.
fn addr_hex_str(a: u64) -> (r: String)
    ensures
        r@ == addr_hex(a),
{
    let mut s = String::new();
    proof {
        reveal_strlit("0x");
        assert("0x"@ =~= seq!['0', 'x']);
    }
    s.append("0x");
    let digits = hex_u64(a, 8);
    s.append(digits.as_str());
    s
}

/// The raw bytes as space-separated hex pairs.
fn bytes_hex_str(bytes: &Vec<u8>) -> (r: String)
    ensures
        r@ == bytes_hex(bytes@),
{
    let mut s = String::new();
    let mut i: usize = 0;
    proof {
        assert(bytes@.take(0) =~= Seq::<u8>::empty());
    }
    while i < bytes.len()
        invariant
            i <= bytes@.len(),
            s@ == bytes_hex(bytes@.take(i as int)),
        decreases bytes@.len() - i,
    {
        let b = bytes[i];
        s.append(hex_char_str(b / 16));
        s.append(hex_char_str(b % 16));
        proof {
            reveal_strlit(" ");
            assert(" "@ =~= seq![' ']);
        }
        s.append(" ");
        proof {
            assert(bytes@.take(i + 1).drop_last() =~= bytes@.take(i as int));
            assert(bytes@.take(i + 1).last() == bytes@[i as int]);
            assert(s@ =~= bytes_hex(bytes@.take(i as int)) + byte_pair(b) + seq![' ']);
        }
        i = i + 1;
    }
    proof {
        assert(bytes@.take(bytes@.len() as int) =~= bytes@);
    }
    s
}

/// One instruction's display text, canonicalized.
pub fn insn_text_str(r: &InstructionRecord) -> (t: String)
    ensures
        t@ == insn_text(r@),
{
    let m = r.mnemonic.as_str();
    let mlen = m.unicode_len();
    let mut t = String::new();
    if mlen >= 2 && m.get_char(0) == 'c' && m.get_char(1) == '.' {
        let stripped = m.substring_char(2, mlen);
        t.append(stripped);
        proof {
            assert(stripped@ =~= r.mnemonic@.skip(2));
        }
    } else {
        t.append(m);
    }
    proof {
        reveal_strlit(" ");
        assert(" "@ =~= seq![' ']);
    }
    t.append(" ");
    t.append(r.operands.as_str());
    proof {
        assert(t@ =~= insn_text(r@));
    }
    t
}

/// One block-mode line for `rec`, with `text` as the instruction text.
fn block_line_str(rec: &InstructionRecord, text: &String) -> (r: String)
    ensures
        r@ == block_line(rec@, text@),
{
    let mut line = addr_hex_str(rec.address);
    let pad4 = make_spaces(4);
    line.append(pad4.as_str());
    let field = bytes_hex_str(&rec.bytes);
    let flen = field.as_str().unicode_len();
    if flen < 15 {
        let fill = make_spaces(15 - flen);
        line.append(fill.as_str());
    }
    line.append(field.as_str());
    let pad3 = make_spaces(3);
    line.append(pad3.as_str());
    line.append(text.as_str());
    proof {
        assert(line@ =~= block_line(rec@, text@));
    }
    line
}

/// Block-mode rendering: one line per instruction, lines joined by a line
/// break, the terminator's text emphasized, every other line plain. An
/// empty sequence renders as the empty string.
pub fn render_block(records: &Vec<InstructionRecord>) -> (out: String)
    ensures
        block_output_ok(models(records@), out@),
{
    let n = records.len();
    let mut out = String::new();
    if n == 0 {
        return out;
    }
    let mut i: usize = 0;
    proof {
        assert(models(records@).take(0) =~= Seq::<RecordModel>::empty());
    }
    while i < n - 1
        invariant
            n == records@.len(),
            1 <= n,
            i <= n - 1,
            out@ == plain_lines(models(records@).take(i as int)),
        decreases n - 1 - i,
    {
        let text = insn_text_str(&records[i]);
        let line = block_line_str(&records[i], &text);
        out.append(line.as_str());
        proof {
            reveal_strlit("\n");
            assert("\n"@ =~= seq!['\n']);
        }
        out.append("\n");
        proof {
            let ghost ms = models(records@);
            assert(ms.take(i + 1).drop_last() =~= ms.take(i as int));
            assert(ms.take(i + 1).last() == records@[i as int]@);
            assert(out@ =~= plain_lines(ms.take(i as int)) + block_line(ms[i as int], insn_text(
                ms[i as int],
            )) + seq!['\n']);
        }
        i = i + 1;
    }
    let last_text = insn_text_str(&records[n - 1]);
    let styled = emphasize(&last_text);
    let line = block_line_str(&records[n - 1], &styled);
    out.append(line.as_str());
    proof {
        let ghost ms = models(records@);
        assert(ms.take(n - 1) =~= ms.drop_last());
        assert(out@ =~= plain_lines(ms.drop_last()) + block_line(ms.last(), styled@));
        if !contains_reset(insn_text(ms.last())) {
            assert(emphasis_of(styled@, insn_text(ms.last())));
        }
    }
    out
}

/// Inline rendering: a single line for a non-empty sequence, the
/// terminator's text emphasized and followed by no separator.
pub fn render_inline(records: &Vec<InstructionRecord>) -> (out: String)
    requires
        records@.len() > 0,
    ensures
        inline_output_ok(models(records@), out@),
{
    let n = records.len();
    let mut out = addr_hex_str(records[0].address);
    let pad5 = make_spaces(5);
    out.append(pad5.as_str());
    let mut i: usize = 0;
    proof {
        assert(models(records@).take(0) =~= Seq::<RecordModel>::empty());
        assert(out@ =~= addr_hex(models(records@).first().address) + spaces(5) + inline_pieces(
            models(records@).take(0),
        ));
    }
    while i < n - 1
        invariant
            n == records@.len(),
            1 <= n,
            i <= n - 1,
            out@ == addr_hex(models(records@).first().address) + spaces(5) + inline_pieces(
                models(records@).take(i as int),
            ),
        decreases n - 1 - i,
    {
        let text = insn_text_str(&records[i]);
        out.append(text.as_str());
        proof {
            reveal_strlit("; ");
            reveal_strlit(" ; ");
            assert("; "@ =~= seq![';', ' ']);
            assert(" ; "@ =~= seq![' ', ';', ' ']);
        }
        if records[i].operands.as_str().is_empty() {
            out.append("; ");
        } else {
            out.append(" ; ");
        }
        proof {
            let ghost ms = models(records@);
            assert(ms.take(i + 1).drop_last() =~= ms.take(i as int));
            assert(ms.take(i + 1).last() == records@[i as int]@);
            assert(out@ =~= addr_hex(ms.first().address) + spaces(5) + inline_pieces(
                ms.take(i as int),
            ) + inline_piece(ms[i as int]));
        }
        i = i + 1;
    }
    let last_text = insn_text_str(&records[n - 1]);
    let styled = emphasize(&last_text);
    out.append(styled.as_str());
    proof {
        let ghost ms = models(records@);
        assert(ms.take(n - 1) =~= ms.drop_last());
        assert(out@ =~= addr_hex(ms.first().address) + spaces(5) + inline_pieces(ms.drop_last())
            + styled@);
        if !contains_reset(insn_text(ms.last())) {
            assert(emphasis_of(styled@, insn_text(ms.last())));
        }
    }
    out
}

} // verus!
