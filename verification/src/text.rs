//! Panel text: decimal numbers, `%d` substitution, and the greedy word wrap
//! the log reader, the research panel and the computer instructions use.
use vstd::prelude::*;
use vstd::string::*;

verus! {

/// Whether a character is Unicode `White_Space` (what `char::is_whitespace`
/// and `str::split_whitespace` go by).
pub open spec fn is_whitespace(c: char) -> bool {
    let v = c as u32;
    (0x9 <= v <= 0xd) || v == 0x20 || v == 0x85 || v == 0xa0 || v == 0x1680 || (0x2000 <= v
        <= 0x200a) || v == 0x2028 || v == 0x2029 || v == 0x202f || v == 0x205f || v == 0x3000
}

/// Whether a character is Unicode `White_Space`.
pub fn char_is_whitespace(c: char) -> (r: bool)
    ensures
        r == is_whitespace(c),
{
    let v = c as u32;
    (0x9 <= v && v <= 0xd) || v == 0x20 || v == 0x85 || v == 0xa0 || v == 0x1680 || (0x2000 <= v
        && v <= 0x200a) || v == 0x2028 || v == 0x2029 || v == 0x202f || v == 0x205f || v == 0x3000
}

/// The number of bytes a character takes in UTF-8.
pub open spec fn utf8_len(c: char) -> nat {
    let v = c as u32;
    if v < 0x80 {
        1
    } else if v < 0x800 {
        2
    } else if v < 0x10000 {
        3
    } else {
        4
    }
}

/// The number of bytes a string takes in UTF-8 (what `str::len` counts).
pub open spec fn byte_len(s: Seq<char>) -> nat
    decreases s.len(),
{
    if s.len() == 0 {
        0
    } else {
        byte_len(s.drop_last()) + utf8_len(s.last())
    }
}

/// Byte lengths add up over concatenation.
pub proof fn lemma_byte_len_concat(a: Seq<char>, b: Seq<char>)
    ensures
        byte_len(a + b) == byte_len(a) + byte_len(b),
    decreases b.len(),
{
    if b.len() > 0 {
        lemma_byte_len_concat(a, b.drop_last());
        assert((a + b).drop_last() =~= a + b.drop_last());
        assert((a + b).last() == b.last());
    } else {
        assert(a + b =~= a);
    }
}

/// A string's byte length is at most four bytes a character.
pub proof fn lemma_byte_len_bound(s: Seq<char>)
    ensures
        byte_len(s) <= 4 * s.len(),
    decreases s.len(),
{
    if s.len() > 0 {
        lemma_byte_len_bound(s.drop_last());
    }
}

fn char_utf8_len(c: char) -> (r: u8)
    ensures
        r == utf8_len(c),
{
    let v = c as u32;
    if v < 0x80 {
        1
    } else if v < 0x800 {
        2
    } else if v < 0x10000 {
        3
    } else {
        4
    }
}

/// The UTF-8 byte length of a string.
pub fn byte_length(s: &str) -> (r: u128)
    ensures
        r == byte_len(s@),
{
    let n = s.unicode_len();
    let mut total: u128 = 0;
    let mut i: usize = 0;
    while i < n
        invariant
            i <= n,
            n == s@.len(),
            total == byte_len(s@.take(i as int)),
            total <= 4 * i,
        decreases n - i,
    {
        let c = s.get_char(i);
        proof {
            assert(s@.take(i + 1).drop_last() =~= s@.take(i as int));
        }
        total = total + char_utf8_len(c) as u128;
        i += 1;
    }
    assert(s@.take(n as int) =~= s@);
    total
}

/// Appends a character to a string by calling `std::string::String::push`,
/// which vstd gives no specification. Trusted, not proved: the string's
/// characters afterwards are those before it followed by `c`, as std documents.
#[verifier::external_body]
pub(crate) fn push_char(s: &mut String, c: char)
    ensures
        final(s)@ == old(s)@.push(c),
{
    s.push(c)
}

/// The views of a list of strings.
pub open spec fn views(v: Seq<String>) -> Seq<Seq<char>> {
    Seq::new(v.len(), |i: int| v[i]@)
}

/// One character of a whitespace split: whitespace ends the word being read
/// (if any), anything else extends it.
pub open spec fn split_step(state: (Seq<Seq<char>>, Seq<char>), c: char) -> (Seq<Seq<char>>, Seq<char>) {
    if is_whitespace(c) {
        if state.1.len() > 0 {
            (state.0.push(state.1), seq![])
        } else {
            state
        }
    } else {
        (state.0, state.1.push(c))
    }
}

/// The words finished, and the word being read, after reading `s`.
pub open spec fn split_scan(s: Seq<char>) -> (Seq<Seq<char>>, Seq<char>)
    decreases s.len(),
{
    if s.len() == 0 {
        (seq![], seq![])
    } else {
        split_step(split_scan(s.drop_last()), s.last())
    }
}

/// The maximal runs of non-whitespace characters of `s`, in order (what
/// `str::split_whitespace` yields).
pub open spec fn words(s: Seq<char>) -> Seq<Seq<char>> {
    let (done, partial) = split_scan(s);
    if partial.len() > 0 {
        done.push(partial)
    } else {
        done
    }
}

/// The words of a string.
pub fn split_words(s: &str) -> (r: Vec<String>)
    ensures
        views(r@) == words(s@),
{
    let n = s.unicode_len();
    let mut done: Vec<String> = Vec::new();
    let mut partial = String::new();
    let mut i: usize = 0;
    while i < n
        invariant
            i <= n,
            n == s@.len(),
            (views(done@), partial@) == split_scan(s@.take(i as int)),
        decreases n - i,
    {
        let c = s.get_char(i);
        proof {
            assert(s@.take(i + 1).drop_last() =~= s@.take(i as int));
        }
        let ghost before = (views(done@), partial@);
        if char_is_whitespace(c) {
            if partial.as_str().unicode_len() > 0 {
                let word = partial;
                partial = String::new();
                done.push(word);
                assert(views(done@) =~= before.0.push(before.1));
            }
        } else {
            push_char(&mut partial, c);
        }
        i += 1;
    }
    assert(s@.take(n as int) =~= s@);
    if partial.as_str().unicode_len() > 0 {
        let ghost before = views(done@);
        done.push(partial);
        assert(views(done@) =~= before.push(partial@));
    }
    done
}

/// One word of a greedy wrap: it starts the first line, joins the current
/// line after a space while the line stays within `max` bytes, and otherwise
/// closes the line and starts the next.
pub open spec fn pack_step(state: (Seq<Seq<char>>, Seq<char>), word: Seq<char>, max: nat) -> (
    Seq<Seq<char>>,
    Seq<char>,
) {
    let (lines, current) = state;
    if current.len() == 0 {
        (lines, word)
    } else if byte_len(current) + 1 + byte_len(word) <= max {
        (lines, current + seq![' '] + word)
    } else {
        (lines.push(current), word)
    }
}

/// The closed lines and the open line after packing `words`.
pub open spec fn pack_scan(words: Seq<Seq<char>>, max: nat) -> (Seq<Seq<char>>, Seq<char>)
    decreases words.len(),
{
    if words.len() == 0 {
        (seq![], seq![])
    } else {
        pack_step(pack_scan(words.drop_last(), max), words.last(), max)
    }
}

/// The lines a greedy wrap of `words` at `max` bytes gives. A word longer
/// than `max` stays whole on a line of its own.
pub open spec fn pack(words: Seq<Seq<char>>, max: nat) -> Seq<Seq<char>> {
    let (lines, current) = pack_scan(words, max);
    if current.len() > 0 {
        lines.push(current)
    } else {
        lines
    }
}

/// Greedily packs non-empty words into lines of at most `max` bytes.
pub fn pack_words(words: &Vec<String>, max: usize) -> (r: Vec<String>)
    requires
        forall|k: int| 0 <= k < words@.len() ==> #[trigger] words@[k]@.len() > 0,
    ensures
        views(r@) == pack(views(words@), max as nat),
{
    let mut lines: Vec<String> = Vec::new();
    let mut current = String::new();
    let mut current_bytes: u128 = 0;
    let ghost ws = views(words@);
    let mut i: usize = 0;
    while i < words.len()
        invariant
            i <= words.len(),
            ws == views(words@),
            forall|k: int| 0 <= k < words@.len() ==> #[trigger] words@[k]@.len() > 0,
            (views(lines@), current@) == pack_scan(ws.take(i as int), max as nat),
            current_bytes == byte_len(current@),
            current_bytes <= 0xffff_ffff_ffff_ffff_ffff_ffff_ffff,
        decreases words.len() - i,
    {
        let word = &words[i];
        let word_chars = word.as_str().unicode_len();
        let word_bytes = byte_length(word.as_str());
        proof {
            assert(ws.take(i + 1).drop_last() =~= ws.take(i as int));
            assert(ws.take(i + 1).last() == word@);
            lemma_byte_len_bound(word@);
            assert(word@.len() == word_chars);
        }
        let ghost before = (views(lines@), current@);
        if current.as_str().unicode_len() == 0 {
            current = String::from_str(word.as_str());
            current_bytes = word_bytes;
        } else if current_bytes + 1 + word_bytes <= max as u128 {
            current.append(" ");
            current.append(word.as_str());
            proof {
                reveal_strlit(" ");
                assert(" "@ =~= seq![' ']);
                lemma_byte_len_concat(before.1, seq![' ']);
                lemma_byte_len_concat(before.1 + seq![' '], word@);
                assert(byte_len(seq![' ']) == 1) by {
                    let sp = seq![' '];
                    assert(sp.drop_last() =~= Seq::<char>::empty());
                    assert(byte_len(sp.drop_last()) == 0);
                    assert(sp.last() == ' ');
                    assert((' ' as u32) == 32);
                    assert(utf8_len(' ') == 1);
                }
            }
            current_bytes = current_bytes + 1 + word_bytes;
        } else {
            let line = current;
            current = String::from_str(word.as_str());
            current_bytes = word_bytes;
            lines.push(line);
            assert(views(lines@) =~= before.0.push(before.1));
        }
        i += 1;
    }
    assert(ws.take(words.len() as int) =~= ws);
    if current.as_str().unicode_len() > 0 {
        let ghost before = views(lines@);
        lines.push(current);
        assert(views(lines@) =~= before.push(current@));
    }
    lines
}

/// The words of a split are never empty.
pub proof fn lemma_words_nonempty(s: Seq<char>)
    ensures
        forall|k: int| 0 <= k < words(s).len() ==> #[trigger] words(s)[k].len() > 0,
{
    lemma_split_scan_nonempty(s);
}

proof fn lemma_split_scan_nonempty(s: Seq<char>)
    ensures
        forall|k: int| 0 <= k < split_scan(s).0.len() ==> #[trigger] split_scan(s).0[k].len() > 0,
    decreases s.len(),
{
    if s.len() > 0 {
        lemma_split_scan_nonempty(s.drop_last());
        let prev = split_scan(s.drop_last());
        let cur = split_scan(s);
        assert(cur == split_step(prev, s.last()));
        assert forall|k: int| 0 <= k < cur.0.len() implies #[trigger] cur.0[k].len() > 0 by {
            if k < prev.0.len() {
                if is_whitespace(s.last()) && prev.1.len() > 0 {
                    assert(cur.0[k] == prev.0[k]);
                }
            }
        }
    }
}

/// The width, in bytes, a computer's hack instructions are wrapped to.
pub const HACK_TEXT_LINE_LENGTH: usize = 25;

/// The instructions above a computer's board, wrapped to 25 bytes a line.
pub fn wrap_hack_text(text: &str) -> (lines: Vec<String>)
    ensures
        views(lines@) == pack(words(text@), HACK_TEXT_LINE_LENGTH as nat),
{
    let ws = split_words(text);
    proof {
        lemma_words_nonempty(text@);
        assert forall|k: int| 0 <= k < ws@.len() implies #[trigger] ws@[k]@.len() > 0 by {
            assert(views(ws@)[k] == ws@[k]@);
        }
    }
    pack_words(&ws, HACK_TEXT_LINE_LENGTH)
}


/// One character of a split on `'\n'`.
pub open spec fn para_step(state: (Seq<Seq<char>>, Seq<char>), c: char) -> (Seq<Seq<char>>, Seq<char>) {
    if c == '\n' {
        (state.0.push(state.1), seq![])
    } else {
        (state.0, state.1.push(c))
    }
}

/// The paragraphs finished, and the one being read, after reading `s`.
pub open spec fn para_scan(s: Seq<char>) -> (Seq<Seq<char>>, Seq<char>)
    decreases s.len(),
{
    if s.len() == 0 {
        (seq![], seq![])
    } else {
        para_step(para_scan(s.drop_last()), s.last())
    }
}

/// The pieces of `s` between `'\n'` characters (what `str::split('\n')`
/// yields): always at least one, possibly empty.
pub open spec fn paragraphs(s: Seq<char>) -> Seq<Seq<char>> {
    let (done, last) = para_scan(s);
    done.push(last)
}

/// The pieces of a string between newlines.
pub fn split_paragraphs(s: &str) -> (r: Vec<String>)
    ensures
        views(r@) == paragraphs(s@),
{
    let n = s.unicode_len();
    let mut done: Vec<String> = Vec::new();
    let mut current = String::new();
    let mut i: usize = 0;
    while i < n
        invariant
            i <= n,
            n == s@.len(),
            (views(done@), current@) == para_scan(s@.take(i as int)),
        decreases n - i,
    {
        let c = s.get_char(i);
        proof {
            assert(s@.take(i + 1).drop_last() =~= s@.take(i as int));
        }
        let ghost before = (views(done@), current@);
        if c == '\n' {
            let piece = current;
            current = String::new();
            done.push(piece);
            assert(views(done@) =~= before.0.push(before.1));
        } else {
            push_char(&mut current, c);
        }
        i += 1;
    }
    assert(s@.take(n as int) =~= s@);
    let ghost before = views(done@);
    done.push(current);
    assert(views(done@) =~= before.push(current@));
    done
}

/// A paragraph's lines: one empty line for a blank paragraph (nothing but
/// whitespace), its greedy wrap otherwise.
pub open spec fn wrap_paragraph(p: Seq<char>, max: nat) -> Seq<Seq<char>> {
    if words(p).len() == 0 {
        seq![seq![]]
    } else {
        pack(words(p), max)
    }
}

/// The lines of a list of paragraphs, paragraph after paragraph.
pub open spec fn wrap_paragraphs(ps: Seq<Seq<char>>, max: nat) -> Seq<Seq<char>>
    decreases ps.len(),
{
    if ps.len() == 0 {
        seq![]
    } else {
        wrap_paragraphs(ps.drop_last(), max) + wrap_paragraph(ps.last(), max)
    }
}

/// Greedy word wrap at `max_chars` bytes that honors `'\n'` paragraph
/// breaks: a blank paragraph keeps an empty line, and a single word longer
/// than the budget keeps a line of its own rather than being split (so codes
/// such as "45100" are never broken).
pub fn wrap_text(text: &str, max_chars: usize) -> (lines: Vec<String>)
    ensures
        views(lines@) == wrap_paragraphs(paragraphs(text@), max_chars as nat),
{
    let ps = split_paragraphs(text);
    let ghost pv = views(ps@);
    let mut lines: Vec<String> = Vec::new();
    let mut i: usize = 0;
    while i < ps.len()
        invariant
            i <= ps.len(),
            pv == views(ps@),
            views(lines@) == wrap_paragraphs(pv.take(i as int), max_chars as nat),
        decreases ps.len() - i,
    {
        let ws = split_words(ps[i].as_str());
        proof {
            assert(pv.take(i + 1).drop_last() =~= pv.take(i as int));
            assert(pv.take(i + 1).last() == ps@[i as int]@);
        }
        let ghost before = views(lines@);
        if ws.len() == 0 {
            lines.push(String::new());
            assert(views(lines@) =~= before + seq![Seq::<char>::empty()]);
        } else {
            proof {
                lemma_words_nonempty(ps@[i as int]@);
                assert forall|k: int| 0 <= k < ws@.len() implies #[trigger] ws@[k]@.len() > 0 by {
                    assert(views(ws@)[k] == ws@[k]@);
                }
            }
            let mut packed = pack_words(&ws, max_chars);
            let ghost pk = views(packed@);
            lines.append(&mut packed);
            assert(views(lines@) =~= before + pk);
        }
        i += 1;
    }
    assert(pv.take(ps.len() as int) =~= pv);
    lines
}


/// The character of a decimal digit.
pub open spec fn digit_char(d: int) -> char {
    if d == 0 {
        '0'
    } else if d == 1 {
        '1'
    } else if d == 2 {
        '2'
    } else if d == 3 {
        '3'
    } else if d == 4 {
        '4'
    } else if d == 5 {
        '5'
    } else if d == 6 {
        '6'
    } else if d == 7 {
        '7'
    } else if d == 8 {
        '8'
    } else {
        '9'
    }
}

/// The decimal digits of a natural number, most significant first, with no
/// leading zeros.
pub open spec fn nat_digits(n: nat) -> Seq<char>
    decreases n,
{
    if n < 10 {
        seq![digit_char(n as int)]
    } else {
        nat_digits(n / 10).push(digit_char((n % 10) as int))
    }
}

/// An integer in decimal, with a leading '-' when negative (what `{}`
/// formatting writes).
pub open spec fn decimal(n: int) -> Seq<char> {
    if n < 0 {
        seq!['-'] + nat_digits((-n) as nat)
    } else {
        nat_digits(n as nat)
    }
}

fn digit(d: u64) -> (c: char)
    requires
        d < 10,
    ensures
        c == digit_char(d as int),
{
    if d == 0 {
        '0'
    } else if d == 1 {
        '1'
    } else if d == 2 {
        '2'
    } else if d == 3 {
        '3'
    } else if d == 4 {
        '4'
    } else if d == 5 {
        '5'
    } else if d == 6 {
        '6'
    } else if d == 7 {
        '7'
    } else if d == 8 {
        '8'
    } else {
        '9'
    }
}

fn push_digits(s: &mut String, n: u64)
    ensures
        final(s)@ == old(s)@ + nat_digits(n as nat),
    decreases n,
{
    if n >= 10 {
        push_digits(s, n / 10);
    }
    push_char(s, digit(n % 10));
    proof {
        if n >= 10 {
            assert(old(s)@ + nat_digits(n as nat) =~= old(s)@ + nat_digits((n / 10) as nat) + seq![
                digit_char((n % 10) as int),
            ]);
        } else {
            assert(old(s)@ + nat_digits(n as nat) =~= old(s)@ + seq![digit_char((n % 10) as int)]);
        }
    }
}

/// Appends an integer in decimal.
pub fn push_decimal(s: &mut String, n: i64)
    ensures
        final(s)@ == old(s)@ + decimal(n as int),
{
    if n < 0 {
        push_char(s, '-');
        let magnitude: u64 = if n == i64::MIN {
            0x8000_0000_0000_0000u64
        } else {
            (-n) as u64
        };
        push_digits(s, magnitude);
        assert(old(s)@ + decimal(n as int) =~= old(s)@ + seq!['-'] + nat_digits(magnitude as nat));
    } else {
        push_digits(s, n as u64);
    }
}

/// An integer in decimal.
pub fn decimal_string(n: i64) -> (s: String)
    ensures
        s@ == decimal(n as int),
{
    let mut s = String::new();
    push_decimal(&mut s, n);
    assert(s@ =~= decimal(n as int));
    s
}

/// `format` with `%%` written as `%`, each `%d` replaced by the next of
/// `args` in decimal while any remain (a `%d` past the last argument stays as
/// written), and NUL written as `%`. This is what substituting the shipped
/// string tables' `%d` placeholders comes to.
pub open spec fn format_scan(f: Seq<char>, args: Seq<i32>) -> Seq<char>
    decreases f.len(),
{
    if f.len() == 0 {
        seq![]
    } else if f.len() >= 2 && f[0] == '%' && f[1] == '%' {
        seq!['%'] + format_scan(f.subrange(2, f.len() as int), args)
    } else if f.len() >= 2 && f[0] == '%' && f[1] == 'd' && args.len() > 0 {
        decimal(args[0] as int) + format_scan(f.subrange(2, f.len() as int), args.drop_first())
    } else if f[0] == '\0' {
        seq!['%'] + format_scan(f.drop_first(), args)
    } else {
        seq![f[0]] + format_scan(f.drop_first(), args)
    }
}

/// Substitutes `args` into a string-table format; see [`format_scan`].
pub fn format_numbers(format: &str, args: &[i32]) -> (r: String)
    ensures
        r@ == format_scan(format@, args@),
{
    let n = format.unicode_len();
    let mut out = String::new();
    let mut i: usize = 0;
    let mut j: usize = 0;
    assert(format@.subrange(0, n as int) =~= format@);
    assert(args@.subrange(0, args@.len() as int) =~= args@);
    assert(out@ + format_scan(format@, args@) =~= format_scan(format@, args@));
    while i < n
        invariant
            i <= n,
            j <= args@.len(),
            n == format@.len(),
            out@ + format_scan(format@.subrange(i as int, n as int), args@.subrange(j as int, args@.len() as int))
                == format_scan(format@, args@),
        decreases n - i,
    {
        let ghost rest = format@.subrange(i as int, n as int);
        let ghost rargs = args@.subrange(j as int, args@.len() as int);
        let ghost before = out@;
        let c = format.get_char(i);
        let next = if i + 1 < n {
            Some(format.get_char(i + 1))
        } else {
            None
        };
        if c == '%' && next == Some('%') {
            push_char(&mut out, '%');
            i += 2;
            assert(rest.subrange(2, rest.len() as int) =~= format@.subrange(i as int, n as int));
            assert(out@ + format_scan(format@.subrange(i as int, n as int), rargs) =~= before + format_scan(rest, rargs));
        } else if c == '%' && next == Some('d') && j < args.len() {
            push_decimal(&mut out, args[j] as i64);
            i += 2;
            j += 1;
            assert(rest.subrange(2, rest.len() as int) =~= format@.subrange(i as int, n as int));
            assert(rargs.drop_first() =~= args@.subrange(j as int, args@.len() as int));
            assert(out@ + format_scan(format@.subrange(i as int, n as int), args@.subrange(j as int, args@.len() as int))
                =~= before + format_scan(rest, rargs));
        } else if c == '\0' {
            push_char(&mut out, '%');
            i += 1;
            assert(rest.drop_first() =~= format@.subrange(i as int, n as int));
            assert(out@ + format_scan(format@.subrange(i as int, n as int), rargs) =~= before + format_scan(rest, rargs));
        } else {
            push_char(&mut out, c);
            i += 1;
            assert(rest.drop_first() =~= format@.subrange(i as int, n as int));
            assert(out@ + format_scan(format@.subrange(i as int, n as int), rargs) =~= before + format_scan(rest, rargs));
        }
    }
    assert(format@.subrange(n as int, n as int) =~= Seq::<char>::empty());
    assert(out@ + seq![] =~= out@);
    out
}

/// `template` with every `%d` replaced by `replacement`, scanning left to
/// right (what `str::replace` does with the pattern `"%d"`, which cannot
/// overlap itself).
pub open spec fn replace_percent_d(template: Seq<char>, replacement: Seq<char>) -> Seq<char>
    decreases template.len(),
{
    if template.len() == 0 {
        seq![]
    } else if template.len() >= 2 && template[0] == '%' && template[1] == 'd' {
        replacement + replace_percent_d(template.subrange(2, template.len() as int), replacement)
    } else {
        seq![template[0]] + replace_percent_d(template.drop_first(), replacement)
    }
}

/// A string-table message with its `%d` placeholders filled with `value` in
/// decimal; see [`replace_percent_d`].
pub fn fill_percent_d(template: &str, value: i32) -> (r: String)
    ensures
        r@ == replace_percent_d(template@, decimal(value as int)),
{
    let n = template.unicode_len();
    let number = decimal_string(value as i64);
    let ghost rep = number@;
    let mut out = String::new();
    let mut i: usize = 0;
    assert(template@.subrange(0, n as int) =~= template@);
    assert(out@ + replace_percent_d(template@, rep) =~= replace_percent_d(template@, rep));
    while i < n
        invariant
            i <= n,
            n == template@.len(),
            rep == number@,
            rep == decimal(value as int),
            out@ + replace_percent_d(template@.subrange(i as int, n as int), rep)
                == replace_percent_d(template@, rep),
        decreases n - i,
    {
        let ghost rest = template@.subrange(i as int, n as int);
        let ghost before = out@;
        let c = template.get_char(i);
        if c == '%' && i + 1 < n && template.get_char(i + 1) == 'd' {
            out.append(number.as_str());
            i += 2;
            assert(rest.subrange(2, rest.len() as int) =~= template@.subrange(i as int, n as int));
            assert(out@ + replace_percent_d(template@.subrange(i as int, n as int), rep)
                =~= before + replace_percent_d(rest, rep));
        } else {
            push_char(&mut out, c);
            i += 1;
            assert(rest.drop_first() =~= template@.subrange(i as int, n as int));
            assert(out@ + replace_percent_d(template@.subrange(i as int, n as int), rep)
                =~= before + replace_percent_d(rest, rep));
        }
    }
    assert(template@.subrange(n as int, n as int) =~= Seq::<char>::empty());
    assert(out@ + seq![] =~= out@);
    out
}

/// `s` without its leading whitespace.
pub open spec fn trim_start(s: Seq<char>) -> Seq<char>
    decreases s.len(),
{
    if s.len() > 0 && is_whitespace(s[0]) {
        trim_start(s.drop_first())
    } else {
        s
    }
}

/// `s` without its trailing whitespace.
pub open spec fn trim_end(s: Seq<char>) -> Seq<char>
    decreases s.len(),
{
    if s.len() > 0 && is_whitespace(s.last()) {
        trim_end(s.drop_last())
    } else {
        s
    }
}

/// `s` without leading or trailing whitespace (what `str::trim` gives).
pub open spec fn trimmed(s: Seq<char>) -> Seq<char> {
    trim_end(trim_start(s))
}

/// A copy of `s` without leading or trailing whitespace.
pub fn trim_copy(s: &str) -> (r: String)
    ensures
        r@ == trimmed(s@),
{
    let n = s.unicode_len();
    let mut i: usize = 0;
    assert(s@.subrange(0, n as int) =~= s@);
    while i < n && char_is_whitespace(s.get_char(i))
        invariant
            i <= n,
            n == s@.len(),
            trim_start(s@) == trim_start(s@.subrange(i as int, n as int)),
        decreases n - i,
    {
        assert(s@.subrange(i as int, n as int).drop_first() =~= s@.subrange(i as int + 1, n as int));
        i += 1;
    }
    assert(trim_start(s@) == s@.subrange(i as int, n as int));
    let mut j: usize = n;
    while j > i && char_is_whitespace(s.get_char(j - 1))
        invariant
            i <= j <= n,
            n == s@.len(),
            trimmed(s@) == trim_end(s@.subrange(i as int, j as int)),
        decreases j,
    {
        assert(s@.subrange(i as int, j as int).drop_last() =~= s@.subrange(i as int, j as int - 1));
        j -= 1;
    }
    assert(trimmed(s@) == s@.subrange(i as int, j as int));
    let mut out = String::new();
    let mut k: usize = i;
    while k < j
        invariant
            i <= k <= j <= n,
            n == s@.len(),
            out@ == s@.subrange(i as int, k as int),
        decreases j - k,
    {
        push_char(&mut out, s.get_char(k));
        assert(s@.subrange(i as int, k as int + 1) =~= s@.subrange(i as int, k as int).push(s@[k as int]));
        k += 1;
    }
    out
}

/// The part of `s` before the first `c` (all of it when there is none).
pub open spec fn prefix_before(s: Seq<char>, c: char) -> Seq<char>
    decreases s.len(),
{
    if s.len() == 0 || s[0] == c {
        seq![]
    } else {
        seq![s[0]] + prefix_before(s.drop_first(), c)
    }
}

/// A copy of the part of `s` before the first `c`.
pub fn copy_prefix_before(s: &str, c: char) -> (r: String)
    ensures
        r@ == prefix_before(s@, c),
{
    let n = s.unicode_len();
    let mut out = String::new();
    let mut i: usize = 0;
    assert(s@.subrange(0, n as int) =~= s@);
    while i < n
        invariant
            i <= n,
            n == s@.len(),
            out@ + prefix_before(s@.subrange(i as int, n as int), c) == prefix_before(s@, c),
        decreases n - i,
    {
        let d = s.get_char(i);
        if d == c {
            assert(out@ + seq![] =~= out@);
            return out;
        }
        let ghost before = out@;
        push_char(&mut out, d);
        assert(s@.subrange(i as int, n as int).drop_first() =~= s@.subrange(i as int + 1, n as int));
        assert(out@ + prefix_before(s@.subrange(i as int + 1, n as int), c) =~= before + prefix_before(
            s@.subrange(i as int, n as int),
            c,
        ));
        i += 1;
    }
    assert(s@.subrange(n as int, n as int) =~= Seq::<char>::empty());
    assert(out@ + seq![] =~= out@);
    out
}

/// The index of the first `c` in `s`, if any.
pub open spec fn first_index(s: Seq<char>, c: char) -> Option<int>
    decreases s.len(),
{
    if s.len() == 0 {
        None
    } else if s[0] == c {
        Some(0)
    } else {
        match first_index(s.drop_first(), c) {
            Some(i) => Some(i + 1),
            None => None,
        }
    }
}

/// The index of the last `c` in `s`, if any.
pub open spec fn last_index(s: Seq<char>, c: char) -> Option<int>
    decreases s.len(),
{
    if s.len() == 0 {
        None
    } else if s.last() == c {
        Some(s.len() - 1)
    } else {
        last_index(s.drop_last(), c)
    }
}

/// The text between the first and the last double quote of an object
/// string (`key: "text"`), or the whole string when it has no such pair.
pub open spec fn quoted_text(v: Seq<char>) -> Seq<char> {
    match first_index(v, '"') {
        Some(f) => {
            let tail = v.subrange(f + 1, v.len() as int);
            match last_index(tail, '"') {
                Some(l) => tail.subrange(0, l),
                None => v,
            }
        },
        None => v,
    }
}

/// `s` with every two-character `\n` escape turned into a newline, left to
/// right.
pub open spec fn unescape_newlines(s: Seq<char>) -> Seq<char>
    decreases s.len(),
{
    if s.len() == 0 {
        seq![]
    } else if s.len() >= 2 && s[0] == '\\' && s[1] == 'n' {
        seq!['\n'] + unescape_newlines(s.subrange(2, s.len() as int))
    } else {
        seq![s[0]] + unescape_newlines(s.drop_first())
    }
}

proof fn lemma_first_index_unique(s: Seq<char>, c: char, i: int)
    requires
        0 <= i < s.len(),
        s[i] == c,
        forall|j: int| 0 <= j < i ==> s[j] != c,
    ensures
        first_index(s, c) == Some(i),
    decreases s.len(),
{
    if i > 0 {
        assert forall|j: int| 0 <= j < i - 1 implies s.drop_first()[j] != c by {
            assert(s.drop_first()[j] == s[j + 1]);
        }
        lemma_first_index_unique(s.drop_first(), c, i - 1);
    }
}

proof fn lemma_first_index_none(s: Seq<char>, c: char)
    requires
        forall|j: int| 0 <= j < s.len() ==> s[j] != c,
    ensures
        first_index(s, c) is None,
    decreases s.len(),
{
    if s.len() > 0 {
        assert forall|j: int| 0 <= j < s.drop_first().len() implies s.drop_first()[j] != c by {
            assert(s.drop_first()[j] == s[j + 1]);
        }
        lemma_first_index_none(s.drop_first(), c);
    }
}

proof fn lemma_last_index_unique(s: Seq<char>, c: char, i: int)
    requires
        0 <= i < s.len(),
        s[i] == c,
        forall|j: int| i < j < s.len() ==> s[j] != c,
    ensures
        last_index(s, c) == Some(i),
    decreases s.len(),
{
    if i < s.len() - 1 {
        lemma_last_index_unique(s.drop_last(), c, i);
    }
}

proof fn lemma_last_index_none(s: Seq<char>, c: char)
    requires
        forall|j: int| 0 <= j < s.len() ==> s[j] != c,
    ensures
        last_index(s, c) is None,
    decreases s.len(),
{
    if s.len() > 0 {
        lemma_last_index_none(s.drop_last(), c);
    }
}

/// The English text of an object string whose key the string table does
/// not resolve: the quoted part of `key: "text"` (the whole string without
/// quotes), with `\n` escapes made newlines.
pub fn localized_fallback(value: &str) -> (r: String)
    ensures
        r@ == unescape_newlines(quoted_text(value@)),
{
    let n = value.unicode_len();
    let mut first: usize = 0;
    while first < n && value.get_char(first) != '"'
        invariant
            first <= n,
            n == value@.len(),
            forall|j: int| 0 <= j < first ==> value@[j] != '"',
        decreases n - first,
    {
        first += 1;
    }
    let mut start: usize = 0;
    let mut end: usize = n;
    if first < n {
        proof {
            lemma_first_index_unique(value@, '"', first as int);
        }
        let ghost tail = value@.subrange(first as int + 1, n as int);
        let mut last: usize = n;
        while last > first + 1 && value.get_char(last - 1) != '"'
            invariant
                first + 1 <= last <= n,
                n == value@.len(),
                forall|j: int| last <= j < n ==> value@[j] != '"',
            decreases last,
        {
            last -= 1;
        }
        if last > first + 1 {
            proof {
                assert forall|j: int| (last - 1 - (first + 1)) < j < tail.len() implies tail[j] != '"' by {
                    assert(tail[j] == value@[first + 1 + j]);
                }
                lemma_last_index_unique(tail, '"', last - 1 - (first + 1));
            }
            start = first + 1;
            end = last - 1;
            assert(value@.subrange(start as int, end as int) =~= tail.subrange(0, (last - 1 - (first + 1)) as int));
        } else {
            proof {
                assert forall|j: int| 0 <= j < tail.len() implies tail[j] != '"' by {
                    assert(tail[j] == value@[first + 1 + j]);
                }
                lemma_last_index_none(tail, '"');
            }
            assert(value@.subrange(0, n as int) =~= value@);
        }
    } else {
        proof {
            lemma_first_index_none(value@, '"');
        }
        assert(value@.subrange(0, n as int) =~= value@);
    }
    let ghost text = value@.subrange(start as int, end as int);
    assert(text == quoted_text(value@));
    let mut out = String::new();
    let mut i: usize = start;
    assert(value@.subrange(start as int, end as int) =~= text);
    assert(out@ + unescape_newlines(text) =~= unescape_newlines(text));
    while i < end
        invariant
            start <= i <= end <= n,
            n == value@.len(),
            text == value@.subrange(start as int, end as int),
            out@ + unescape_newlines(value@.subrange(i as int, end as int)) == unescape_newlines(text),
        decreases end - i,
    {
        let ghost rest = value@.subrange(i as int, end as int);
        let ghost before = out@;
        let c = value.get_char(i);
        if c == '\\' && i + 1 < end && value.get_char(i + 1) == 'n' {
            push_char(&mut out, '\n');
            i += 2;
            assert(rest.subrange(2, rest.len() as int) =~= value@.subrange(i as int, end as int));
        } else {
            push_char(&mut out, c);
            i += 1;
            assert(rest.drop_first() =~= value@.subrange(i as int, end as int));
        }
        assert(out@ + unescape_newlines(value@.subrange(i as int, end as int)) =~= before + unescape_newlines(rest));
    }
    assert(value@.subrange(end as int, end as int) =~= Seq::<char>::empty());
    assert(out@ + seq![] =~= out@);
    out
}

/// The string-table key of an object string (`key: "text"`): the part
/// before the first colon, trimmed.
pub fn object_string_key(value: &str) -> (r: String)
    ensures
        r@ == trimmed(prefix_before(value@, ':')),
{
    let prefix = copy_prefix_before(value, ':');
    trim_copy(prefix.as_str())
}

/// `n` in decimal padded with zeros after any sign to at least `width`
/// characters (`{:0width$}` formatting).
pub open spec fn zero_padded(n: int, width: nat) -> Seq<char> {
    let digits = if n < 0 {
        nat_digits((-n) as nat)
    } else {
        nat_digits(n as nat)
    };
    let sign: Seq<char> = if n < 0 {
        seq!['-']
    } else {
        seq![]
    };
    let used = sign.len() + digits.len();
    let zeros = if used < width {
        (width - used) as nat
    } else {
        0nat
    };
    sign + Seq::new(zeros, |i: int| '0') + digits
}

proof fn lemma_decimal_split(n: int)
    ensures
        decimal(n) == (if n < 0 {
            seq!['-']
        } else {
            Seq::<char>::empty()
        }) + (if n < 0 {
            nat_digits((-n) as nat)
        } else {
            nat_digits(n as nat)
        }),
{
    if n >= 0 {
        assert(Seq::<char>::empty() + nat_digits(n as nat) =~= nat_digits(n as nat));
    }
}

/// `n` in decimal, zero padded to at least `width` characters; see
/// [`zero_padded`].
pub fn zero_padded_string(n: i64, width: usize) -> (r: String)
    ensures
        r@ == zero_padded(n as int, width as nat),
{
    let digits = decimal_string(n);
    proof {
        lemma_decimal_split(n as int);
    }
    let len = digits.unicode_len();
    let mut out = String::new();
    let ghost sign: Seq<char> = if n < 0 {
        seq!['-']
    } else {
        seq![]
    };
    let ghost mag: Seq<char> = if n < 0 {
        nat_digits((-(n as int)) as nat)
    } else {
        nat_digits(n as nat)
    };
    assert(digits@ == sign + mag);
    let mut start: usize = 0;
    if n < 0 {
        push_char(&mut out, '-');
        start = 1;
    }
    assert(out@ == sign);
    let zeros: usize = if len < width {
        width - len
    } else {
        0
    };
    let mut k: usize = 0;
    while k < zeros
        invariant
            k <= zeros,
            out@ == sign + Seq::new(k as nat, |i: int| '0'),
        decreases zeros - k,
    {
        push_char(&mut out, '0');
        assert(sign + Seq::new((k + 1) as nat, |i: int| '0') =~= sign + Seq::new(k as nat, |i: int| '0') + seq!['0']);
        k += 1;
    }
    let mut i: usize = start;
    assert(digits@.subrange(start as int, start as int) =~= Seq::<char>::empty());
    assert(out@ + Seq::<char>::empty() =~= out@);
    while i < len
        invariant
            start <= i <= len,
            len == digits@.len(),
            digits@ == sign + mag,
            start == sign.len(),
            out@ == sign + Seq::new(zeros as nat, |j: int| '0') + digits@.subrange(start as int, i as int),
        decreases len - i,
    {
        push_char(&mut out, digits.get_char(i));
        assert(digits@.subrange(start as int, i as int + 1) =~= digits@.subrange(start as int, i as int).push(digits@[i as int]));
        i += 1;
    }
    assert(digits@.subrange(start as int, len as int) =~= mag);
    assert(sign.len() + mag.len() == len);
    out
}

} // verus!
