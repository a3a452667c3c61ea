//! The odds readout under an HRM board: the starting difficulty, what skill,
//! CYB and bonuses take off, the final difficulty and the mine count, one
//! line each from the `jargon.str` formats of the board's mode.
use vstd::prelude::*;

use crate::hrm::{effective_hrm_values, spec_effective_values, HackDiff, HrmContext, HrmParams, HrmTerms};
use crate::text::{decimal, format_numbers, format_scan, push_char, push_decimal, trim_end};

verus! {

/// The readout's eight line formats of one mode, as the string table gives
/// them (`None` where it lacks one).
pub struct JargonFormats {
    pub base_diff: Option<String>,
    pub skill: Option<String>,
    pub stat: Option<String>,
    pub implant: Option<String>,
    pub bonus: Option<String>,
    pub final_diff: Option<String>,
    pub mines_one: Option<String>,
    pub mines: Option<String>,
}

pub const FALLBACK_BASE_DIFF: &'static str = "Initial difficulty: %d%%.";
pub const FALLBACK_SKILL: &'static str = "Skill %d: -%d%%";
pub const FALLBACK_STAT: &'static str = "CYB stat %d: -%d%%";
pub const FALLBACK_IMPLANT: &'static str = "Exper-tech: -%d%%";
pub const FALLBACK_BONUS: &'static str = "Bonus: -%d%%";
pub const FALLBACK_FINAL_DIFF: &'static str = "Final difficulty: %d%%.";
pub const FALLBACK_MINES_ONE: &'static str = "%d node.";
pub const FALLBACK_MINES: &'static str = "%d nodes.";

/// The mode number of a board's `jargon.str` keys: 0 hack, 1 repair, 2
/// modify.
pub open spec fn jargon_mode(context: HrmContext) -> int {
    match context {
        HrmContext::Hack { .. } => 0,
        HrmContext::Repair => 1,
        HrmContext::Modify => 2,
    }
}

/// The `jargon.str` key of a line for a board's mode: the line's name and
/// the mode number, in lower case as the table is keyed (`jargonskill1`).
pub fn jargon_key(name: &str, context: HrmContext) -> (r: String)
    ensures
        r@ == name@.map_values(|c: char| crate::scripts::lower_ascii(c)) + decimal(jargon_mode(context)),
{
    let mut key = crate::scripts::to_ascii_lowercase(name);
    let mode: i64 = match context {
        HrmContext::Hack { .. } => 0,
        HrmContext::Repair => 1,
        HrmContext::Modify => 2,
    };
    push_decimal(&mut key, mode);
    key
}

/// `s` with every two-character `\n` escape removed (the shipped lines end
/// in one; the readout supplies its own breaks).
pub open spec fn strip_newline_escapes(s: Seq<char>) -> Seq<char>
    decreases s.len(),
{
    if s.len() == 0 {
        seq![]
    } else if s.len() >= 2 && s[0] == '\\' && s[1] == 'n' {
        strip_newline_escapes(s.subrange(2, s.len() as int))
    } else {
        seq![s[0]] + strip_newline_escapes(s.drop_first())
    }
}

/// One readout line: the format without its escapes, the numbers put in,
/// trailing whitespace dropped.
pub open spec fn jargon_line(format: Seq<char>, args: Seq<i32>) -> Seq<char> {
    trim_end(format_scan(strip_newline_escapes(format), args))
}

/// The format the table gives, or the English one.
pub open spec fn format_or(format: Option<String>, fallback: &str) -> Seq<char> {
    match format {
        Some(f) => f@,
        None => fallback@,
    }
}

/// Lines joined with newlines.
pub open spec fn join_lines(lines: Seq<Seq<char>>) -> Seq<char>
    decreases lines.len(),
{
    if lines.len() == 0 {
        seq![]
    } else if lines.len() == 1 {
        lines[0]
    } else {
        join_lines(lines.drop_last()) + seq!['\n'] + lines.last()
    }
}

/// Whether the readout's numbers fit in an `i32`.
pub open spec fn breakdown_fits(diff: HackDiff, terms: HrmTerms, skill_bonus: i32, stat_bonus: i32) -> bool {
    &&& 100 - diff.success_chance <= i32::MAX
    &&& i32::MIN <= terms.skill * skill_bonus <= i32::MAX
    &&& i32::MIN <= terms.stat * stat_bonus <= i32::MAX
    &&& i32::MIN <= terms.bonus_levels * skill_bonus <= i32::MAX
    &&& terms.skill + terms.bonus_levels + 1 <= i32::MAX
    &&& terms.skill + terms.bonus_levels >= i32::MIN
}

/// The readout's lines: the initial difficulty, the skill and CYB lines, the
/// implant line when the implant counts, the bonus line when there are
/// bonus levels, the final difficulty, and the mine count (singular for one).
pub open spec fn breakdown_lines(
    formats: JargonFormats,
    diff: HackDiff,
    terms: HrmTerms,
    params: Option<HrmParams>,
) -> Seq<Seq<char>> {
    let (skill_bonus, stat_bonus) = match params {
        Some(p) => (p.skill_success_bonus, p.stat_success_bonus),
        None => (0i32, 0i32),
    };
    let (chance, mines) = spec_effective_values(params, diff, terms);
    let head = seq![
        jargon_line(format_or(formats.base_diff, FALLBACK_BASE_DIFF), seq![(100 - diff.success_chance) as i32]),
        jargon_line(format_or(formats.skill, FALLBACK_SKILL), seq![terms.skill, (terms.skill * skill_bonus) as i32]),
        jargon_line(format_or(formats.stat, FALLBACK_STAT), seq![terms.stat, (terms.stat * stat_bonus) as i32]),
    ];
    let with_implant = if terms.implant {
        head.push(jargon_line(format_or(formats.implant, FALLBACK_IMPLANT), seq![skill_bonus]))
    } else {
        head
    };
    let with_bonus = if terms.bonus_levels > 0 {
        with_implant.push(
            jargon_line(format_or(formats.bonus, FALLBACK_BONUS), seq![(terms.bonus_levels * skill_bonus) as i32]),
        )
    } else {
        with_implant
    };
    with_bonus.push(jargon_line(format_or(formats.final_diff, FALLBACK_FINAL_DIFF), seq![(100 - chance) as i32])).push(
        if mines == 1 {
            jargon_line(format_or(formats.mines_one, FALLBACK_MINES_ONE), seq![mines as i32])
        } else {
            jargon_line(format_or(formats.mines, FALLBACK_MINES), seq![mines as i32])
        },
    )
}

fn strip_escapes(s: &str) -> (r: String)
    ensures
        r@ == strip_newline_escapes(s@),
{
    let n = s.unicode_len();
    let mut out = String::new();
    let mut i: usize = 0;
    assert(s@.subrange(0, n as int) =~= s@);
    assert(out@ + strip_newline_escapes(s@) =~= strip_newline_escapes(s@));
    while i < n
        invariant
            i <= n,
            n == s@.len(),
            out@ + strip_newline_escapes(s@.subrange(i as int, n as int)) == strip_newline_escapes(s@),
        decreases n - i,
    {
        let ghost rest = s@.subrange(i as int, n as int);
        let ghost before = out@;
        let c = s.get_char(i);
        if c == '\\' && i + 1 < n && s.get_char(i + 1) == 'n' {
            i += 2;
            assert(rest.subrange(2, rest.len() as int) =~= s@.subrange(i as int, n as int));
        } else {
            push_char(&mut out, c);
            i += 1;
            assert(rest.drop_first() =~= s@.subrange(i as int, n as int));
        }
        assert(out@ + strip_newline_escapes(s@.subrange(i as int, n as int)) =~= before + strip_newline_escapes(rest));
    }
    assert(s@.subrange(n as int, n as int) =~= Seq::<char>::empty());
    assert(out@ + seq![] =~= out@);
    out
}

fn trim_end_copy(s: &str) -> (r: String)
    ensures
        r@ == trim_end(s@),
{
    let n = s.unicode_len();
    let mut j: usize = n;
    assert(s@.subrange(0, n as int) =~= s@);
    while j > 0 && crate::text::char_is_whitespace(s.get_char(j - 1))
        invariant
            j <= n,
            n == s@.len(),
            trim_end(s@) == trim_end(s@.subrange(0, j as int)),
        decreases j,
    {
        assert(s@.subrange(0, j as int).drop_last() =~= s@.subrange(0, j as int - 1));
        j -= 1;
    }
    assert(trim_end(s@) == s@.subrange(0, j as int));
    let mut out = String::new();
    let mut k: usize = 0;
    while k < j
        invariant
            k <= j <= n,
            n == s@.len(),
            out@ == s@.subrange(0, k as int),
        decreases j - k,
    {
        push_char(&mut out, s.get_char(k));
        assert(s@.subrange(0, k as int + 1) =~= s@.subrange(0, k as int).push(s@[k as int]));
        k += 1;
    }
    out
}

/// One readout line; see [`jargon_line`].
fn render_line(format: &Option<String>, fallback: &str, args: &[i32]) -> (r: String)
    ensures
        r@ == jargon_line(format_or(*format, fallback), args@),
{
    let f = match format {
        Some(f) => f.as_str(),
        None => fallback,
    };
    let stripped = strip_escapes(f);
    let filled = format_numbers(stripped.as_str(), args);
    trim_end_copy(filled.as_str())
}

/// The odds readout of a board on `diff` in `context`'s mode, for a player
/// with `terms`; see [`breakdown_lines`]. Lines are joined with newlines.
pub fn hrm_breakdown(formats: &JargonFormats, diff: HackDiff, terms: HrmTerms, params: Option<HrmParams>) -> (r:
    String)
    requires
        breakdown_fits(
            diff,
            terms,
            match params {
                Some(p) => p.skill_success_bonus,
                None => 0i32,
            },
            match params {
                Some(p) => p.stat_success_bonus,
                None => 0i32,
            },
        ),
    ensures
        r@ == join_lines(breakdown_lines(*formats, diff, terms, params)),
{
    let (skill_bonus, stat_bonus) = match params {
        Some(p) => (p.skill_success_bonus, p.stat_success_bonus),
        None => (0i32, 0i32),
    };
    let (chance, mines) = effective_hrm_values(params, diff, terms);
    let ghost expected = breakdown_lines(*formats, diff, terms, params);
    let mut lines: Vec<String> = Vec::new();
    let a0 = [100 - diff.success_chance];
    lines.push(render_line(&formats.base_diff, FALLBACK_BASE_DIFF, a0.as_slice()));
    let a1 = [terms.skill, terms.skill * skill_bonus];
    lines.push(render_line(&formats.skill, FALLBACK_SKILL, a1.as_slice()));
    let a2 = [terms.stat, terms.stat * stat_bonus];
    lines.push(render_line(&formats.stat, FALLBACK_STAT, a2.as_slice()));
    if terms.implant {
        let a3 = [skill_bonus];
        lines.push(render_line(&formats.implant, FALLBACK_IMPLANT, a3.as_slice()));
        assert(a3@ =~= seq![skill_bonus]);
    }
    if terms.bonus_levels > 0 {
        let a4 = [terms.bonus_levels * skill_bonus];
        lines.push(render_line(&formats.bonus, FALLBACK_BONUS, a4.as_slice()));
        assert(a4@ =~= seq![(terms.bonus_levels * skill_bonus) as i32]);
    }
    let a5 = [100 - chance];
    lines.push(render_line(&formats.final_diff, FALLBACK_FINAL_DIFF, a5.as_slice()));
    let a6 = [mines];
    if mines == 1 {
        lines.push(render_line(&formats.mines_one, FALLBACK_MINES_ONE, a6.as_slice()));
    } else {
        lines.push(render_line(&formats.mines, FALLBACK_MINES, a6.as_slice()));
    }
    assert(a0@ =~= seq![(100 - diff.success_chance) as i32]);
    assert(a1@ =~= seq![terms.skill, (terms.skill * skill_bonus) as i32]);
    assert(a2@ =~= seq![terms.stat, (terms.stat * stat_bonus) as i32]);
    assert(a5@ =~= seq![(100 - chance) as i32]);
    assert(a6@ =~= seq![mines]);
    assert(lines@.map_values(|l: String| l@) =~= expected);
    join(&lines)
}

/// Strings joined with newlines.
pub fn join(lines: &Vec<String>) -> (r: String)
    ensures
        r@ == join_lines(lines@.map_values(|l: String| l@)),
{
    let mut out = String::new();
    let mut i: usize = 0;
    while i < lines.len()
        invariant
            i <= lines@.len(),
            out@ == join_lines(lines@.take(i as int).map_values(|l: String| l@)),
        decreases lines@.len() - i,
    {
        let ghost before = out@;
        if i > 0 {
            push_char(&mut out, '\n');
        }
        out.append(lines[i].as_str());
        proof {
            let prefix = lines@.take(i as int + 1).map_values(|l: String| l@);
            assert(prefix.drop_last() =~= lines@.take(i as int).map_values(|l: String| l@));
            assert(prefix.last() == lines@[i as int]@);
            if i == 0 {
                assert(prefix.len() == 1);
                assert(out@ =~= prefix[0]);
            } else {
                assert(out@ =~= before + seq!['\n'] + prefix.last());
            }
        }
        i += 1;
    }
    assert(lines@.take(lines@.len() as int) =~= lines@);
    out
}

/// The readout's "N%" figure: the chance a node fails.
pub fn hrm_failure_percent(params: Option<HrmParams>, diff: HackDiff, terms: HrmTerms) -> (r: i32)
    requires
        terms.skill + terms.bonus_levels + 1 <= i32::MAX,
        terms.skill + terms.bonus_levels >= i32::MIN,
    ensures
        r == 100 - spec_effective_values(params, diff, terms).0,
{
    let (chance, _) = effective_hrm_values(params, diff, terms);
    100 - chance
}

} // verus!
