//! Single-line normalization of upstream flavor text.
//!
//! The description provider returns multi-line text with embedded newline and
//! form-feed characters. The service collapses it into one clean line: the
//! text is split at newlines, every line is stripped of surrounding
//! whitespace, each remaining form feed becomes a single space, and the lines
//! are joined again with single spaces.

use vstd::prelude::*;
use vstd::string::StrSliceExecFns;

verus! {

/// The Unicode white-space characters, the set `char::is_whitespace`
/// recognizes.
pub open spec fn is_space(c: char) -> bool {
    ||| c == ' '
    ||| c == '\t'
    ||| c == '\n'
    ||| c == '\u{b}'
    ||| c == '\u{c}'
    ||| c == '\r'
    ||| c == '\u{85}'
    ||| c == '\u{a0}'
    ||| c == '\u{1680}'
    ||| (0x2000 <= c as u32 && c as u32 <= 0x200a)
    ||| c == '\u{2028}'
    ||| c == '\u{2029}'
    ||| c == '\u{202f}'
    ||| c == '\u{205f}'
    ||| c == '\u{3000}'
}

fn is_space_char(c: char) -> (r: bool)
    ensures
        r == is_space(c),
{
    let u = c as u32;
    u == 0x20 || (0x9 <= u && u <= 0xd) || u == 0x85 || u == 0xa0 || u == 0x1680 || (0x2000 <= u
        && u <= 0x200a) || u == 0x2028 || u == 0x2029 || u == 0x202f || u == 0x205f || u == 0x3000
}

/// Where the text splits at newline characters. A trailing newline opens one
/// final empty segment, exactly as the splitting loop leaves it behind.
pub open spec fn split_newlines(s: Seq<char>) -> Seq<Seq<char>>
    decreases s.len(),
{
    if s.len() == 0 {
        seq![Seq::<char>::empty()]
    } else {
        let prev = split_newlines(s.drop_last());
        if s.last() == '\n' {
            prev.push(Seq::<char>::empty())
        } else {
            prev.drop_last().push(prev.last().push(s.last()))
        }
    }
}

/// The lines of the text: a trailing newline closes the last line instead of
/// opening an empty one, and the empty text has no lines at all. A carriage
/// return travels with its line; the later trimming removes it.
pub open spec fn spec_lines(s: Seq<char>) -> Seq<Seq<char>> {
    if s.len() == 0 {
        Seq::<Seq<char>>::empty()
    } else if s.last() == '\n' {
        split_newlines(s).drop_last()
    } else {
        split_newlines(s)
    }
}

pub open spec fn trim_start_spec(s: Seq<char>) -> Seq<char>
    decreases s.len(),
{
    if s.len() > 0 && is_space(s.first()) {
        trim_start_spec(s.drop_first())
    } else {
        s
    }
}

pub open spec fn trim_end_spec(s: Seq<char>) -> Seq<char>
    decreases s.len(),
{
    if s.len() > 0 && is_space(s.last()) {
        trim_end_spec(s.drop_last())
    } else {
        s
    }
}

/// Surrounding whitespace of one line, stripped from both ends.
pub open spec fn trim_spec(s: Seq<char>) -> Seq<char> {
    trim_end_spec(trim_start_spec(s))
}

/// Every form feed becomes a single space; all other characters stay.
pub open spec fn replace_form_feeds(s: Seq<char>) -> Seq<char> {
    Seq::new(s.len(), |i: int| if s[i] == '\u{c}' { ' ' } else { s[i] })
}

/// One line, cleaned: trimmed first, remaining form feeds replaced after.
pub open spec fn clean_line(s: Seq<char>) -> Seq<char> {
    replace_form_feeds(trim_spec(s))
}

/// The segments joined back together with single spaces between them.
pub open spec fn join_spaced(segs: Seq<Seq<char>>) -> Seq<char>
    decreases segs.len(),
{
    if segs.len() == 0 {
        Seq::<char>::empty()
    } else if segs.len() == 1 {
        segs[0]
    } else {
        join_spaced(segs.drop_last()) + seq![' '] + segs.last()
    }
}

/// What normalizing a flavor text produces: its lines, each cleaned, joined
/// with single spaces.
pub open spec fn normalize_spec(s: Seq<char>) -> Seq<char> {
    join_spaced(spec_lines(s).map_values(|l: Seq<char>| clean_line(l)))
}

/// Relies on `String::push`: appends exactly the given character.
#[verifier::external_body]
pub(crate) fn push_char(s: &mut String, c: char)
    ensures
        final(s)@ == old(s)@ + seq![c],
{
    s.push(c);
}

/// The views of a sequence of character vectors, in order.
pub(crate) open spec fn views_of(vs: Seq<Vec<char>>) -> Seq<Seq<char>> {
    vs.map_values(|v: Vec<char>| v@)
}

proof fn lemma_views_of(vs: Seq<Vec<char>>)
    ensures
        views_of(vs).len() == vs.len(),
        forall|i: int| 0 <= i < vs.len() ==> #[trigger] views_of(vs)[i] == vs[i]@,
{
}

proof fn lemma_split_newlines_nonempty(s: Seq<char>)
    ensures
        split_newlines(s).len() >= 1,
    decreases s.len(),
{
    if s.len() > 0 {
        lemma_split_newlines_nonempty(s.drop_last());
    }
}

/// Copy one line into `out`, trimmed and with its form feeds replaced.
fn append_clean_line(out: &mut String, line: &Vec<char>)
    ensures
        final(out)@ == old(out)@ + clean_line(line@),
{
    let ghost s = line@;
    let mut a: usize = 0;
    proof {
        assert(s.skip(0) =~= s);
    }
    loop
        invariant
            a <= line.len(),
            s == line@,
            trim_start_spec(s) == trim_start_spec(s.skip(a as int)),
        ensures
            a <= line.len(),
            trim_start_spec(s) == s.skip(a as int),
        decreases line.len() - a,
    {
        if a == line.len() {
            proof {
                assert(s.skip(a as int) =~= Seq::<char>::empty());
            }
            break ;
        }
        if !is_space_char(line[a]) {
            proof {
                assert(s.skip(a as int).first() == s[a as int]);
            }
            break ;
        }
        proof {
            assert(s.skip(a as int).first() == s[a as int]);
            assert(s.skip(a as int).drop_first() =~= s.skip(a as int + 1));
        }
        a += 1;
    }
    let mut b: usize = line.len();
    proof {
        assert(s.skip(a as int) =~= s.subrange(a as int, s.len() as int));
    }
    loop
        invariant
            a <= b <= line.len(),
            s == line@,
            trim_start_spec(s) == s.subrange(a as int, s.len() as int),
            trim_end_spec(s.subrange(a as int, s.len() as int)) == trim_end_spec(
                s.subrange(a as int, b as int),
            ),
        ensures
            a <= b <= line.len(),
            trim_spec(s) == s.subrange(a as int, b as int),
        decreases b,
    {
        if b == a {
            proof {
                assert(s.subrange(a as int, b as int) =~= Seq::<char>::empty());
            }
            break ;
        }
        if !is_space_char(line[b - 1]) {
            proof {
                assert(s.subrange(a as int, b as int).last() == s[b - 1]);
            }
            break ;
        }
        proof {
            assert(s.subrange(a as int, b as int).last() == s[b - 1]);
            assert(s.subrange(a as int, b as int).drop_last() =~= s.subrange(
                a as int,
                b as int - 1,
            ));
        }
        b -= 1;
    }
    let ghost t = trim_spec(s);
    let mut i: usize = a;
    while i < b
        invariant
            a <= i <= b <= line.len(),
            s == line@,
            t == s.subrange(a as int, b as int),
            out@ == old(out)@ + replace_form_feeds(t).take(i - a),
        decreases b - i,
    {
        let c = line[i];
        let cleaned = if c == '\u{c}' {
            ' '
        } else {
            c
        };
        push_char(out, cleaned);
        proof {
            assert(t[i - a] == s[i as int]);
            assert(replace_form_feeds(t).take(i + 1 - a) =~= replace_form_feeds(t).take(i - a)
                + seq![if t[i - a] == '\u{c}' { ' ' } else { t[i - a] }]);
        }
        i += 1;
    }
    proof {
        assert(replace_form_feeds(t).take(b - a) =~= replace_form_feeds(t));
    }
}

/// Collapse a flavor text into one clean line: split at newlines, trim every
/// line, replace form feeds with spaces, and join with single spaces.
pub fn normalize_flavor_text(s: &str) -> (r: String)
    ensures
        r@ == normalize_spec(s@),
{
    let n = s.unicode_len();
    let mut lines: Vec<Vec<char>> = Vec::new();
    let mut cur: Vec<char> = Vec::new();
    let mut i: usize = 0;
    while i < n
        invariant
            i <= n,
            n == s@.len(),
            views_of(lines@).push(cur@) == split_newlines(s@.take(i as int)),
        decreases n - i,
    {
        let c = s.get_char(i);
        proof {
            assert(s@.take(i as int + 1).drop_last() =~= s@.take(i as int));
            assert(s@.take(i as int + 1).last() == s@[i as int]);
        }
        if c == '\n' {
            let ghost prev_lines = lines@;
            let ghost prev_cur = cur@;
            lines.push(cur);
            cur = Vec::new();
            proof {
                lemma_views_of(prev_lines);
                lemma_views_of(lines@);
                assert(views_of(lines@) =~~= views_of(prev_lines).push(prev_cur));
                assert(views_of(lines@).push(cur@) =~~= views_of(prev_lines).push(prev_cur).push(
                    Seq::<char>::empty(),
                ));
            }
        } else {
            let ghost prev = views_of(lines@).push(cur@);
            cur.push(c);
            proof {
                lemma_views_of(lines@);
                assert(prev.drop_last() =~~= views_of(lines@));
                assert(prev.last() == cur@.drop_last());
                assert(views_of(lines@).push(cur@) =~~= prev.drop_last().push(
                    prev.last().push(s@[i as int]),
                ));
            }
        }
        i += 1;
    }
    proof {
        assert(s@.take(n as int) =~= s@);
    }
    if n == 0 {
        proof {
            assert(spec_lines(s@).map_values(|l: Seq<char>| clean_line(l))
                =~~= Seq::<Seq<char>>::empty());
        }
        return String::new();
    }
    let lastc = s.get_char(n - 1);
    if lastc != '\n' {
        let ghost prev_lines = lines@;
        let ghost prev_cur = cur@;
        lines.push(cur);
        proof {
            lemma_views_of(prev_lines);
            lemma_views_of(lines@);
            assert(views_of(lines@) =~~= views_of(prev_lines).push(prev_cur));
        }
    } else {
        proof {
            assert(views_of(lines@) =~~= split_newlines(s@).drop_last());
        }
    }
    proof {
        assert(views_of(lines@) =~~= spec_lines(s@));
    }
    let ghost cl = spec_lines(s@).map_values(|l: Seq<char>| clean_line(l));
    let mut out = String::new();
    let mut k: usize = 0;
    while k < lines.len()
        invariant
            k <= lines.len(),
            views_of(lines@) == spec_lines(s@),
            cl == spec_lines(s@).map_values(|l: Seq<char>| clean_line(l)),
            out@ == join_spaced(cl.take(k as int)),
        decreases lines.len() - k,
    {
        if k > 0 {
            push_char(&mut out, ' ');
        }
        append_clean_line(&mut out, &lines[k]);
        proof {
            lemma_views_of(lines@);
            assert(spec_lines(s@)[k as int] == lines@[k as int]@);
            assert(cl[k as int] == clean_line(spec_lines(s@)[k as int]));
            assert(cl.take(k as int + 1).drop_last() =~~= cl.take(k as int));
            assert(cl.take(k as int + 1).last() == cl[k as int]);
            if k == 0 {
                assert(join_spaced(cl.take(1)) == cl[0]);
            }
        }
        k += 1;
    }
    proof {
        assert(cl.take(lines@.len() as int) =~~= cl);
    }
    out
}

/// No newline occurs in the sequence.
pub open spec fn newline_free(s: Seq<char>) -> bool {
    forall|i: int| 0 <= i < s.len() ==> s[i] != '\n'
}

/// Neither a newline nor a form feed occurs in the sequence.
pub open spec fn control_free(s: Seq<char>) -> bool {
    forall|i: int| 0 <= i < s.len() ==> s[i] != '\n' && s[i] != '\u{c}'
}

/// A sequence already in normalized form: one line, no form feed, and no
/// whitespace padding at either end.
pub open spec fn is_normalized(s: Seq<char>) -> bool {
    &&& control_free(s)
    &&& s.len() > 0 ==> !is_space(s.first()) && !is_space(s.last())
}

proof fn lemma_split_no_newline(s: Seq<char>)
    requires
        newline_free(s),
    ensures
        split_newlines(s) =~~= seq![s],
    decreases s.len(),
{
    if s.len() > 0 {
        assert(newline_free(s.drop_last()));
        lemma_split_no_newline(s.drop_last());
        assert(s.drop_last().push(s.last()) =~= s);
    }
}

/// Law: normalization is idempotent. Text that is already normalized comes
/// back from normalization unchanged.
pub proof fn lemma_normalize_idempotent(s: Seq<char>)
    requires
        is_normalized(s),
    ensures
        normalize_spec(s) == s,
{
    if s.len() == 0 {
        assert(spec_lines(s).map_values(|l: Seq<char>| clean_line(l)) =~~= Seq::<
            Seq<char>,
        >::empty());
        assert(normalize_spec(s) =~= s);
    } else {
        lemma_split_no_newline(s);
        assert(spec_lines(s) =~~= seq![s]);
        assert(trim_start_spec(s) == s);
        assert(trim_end_spec(s) == s);
        assert(clean_line(s) =~= s);
        assert(spec_lines(s).map_values(|l: Seq<char>| clean_line(l)) =~~= seq![s]);
        assert(join_spaced(seq![s]) == s);
    }
}

proof fn lemma_split_lines_newline_free(s: Seq<char>)
    ensures
        forall|k: int|
            0 <= k < split_newlines(s).len() ==> newline_free(#[trigger] split_newlines(s)[k]),
    decreases s.len(),
{
    if s.len() > 0 {
        lemma_split_lines_newline_free(s.drop_last());
        lemma_split_newlines_nonempty(s.drop_last());
    }
}

proof fn lemma_trim_start_newline_free(s: Seq<char>)
    requires
        newline_free(s),
    ensures
        newline_free(trim_start_spec(s)),
    decreases s.len(),
{
    if s.len() > 0 && is_space(s.first()) {
        assert(newline_free(s.drop_first()));
        lemma_trim_start_newline_free(s.drop_first());
    }
}

proof fn lemma_trim_end_newline_free(s: Seq<char>)
    requires
        newline_free(s),
    ensures
        newline_free(trim_end_spec(s)),
    decreases s.len(),
{
    if s.len() > 0 && is_space(s.last()) {
        assert(newline_free(s.drop_last()));
        lemma_trim_end_newline_free(s.drop_last());
    }
}

proof fn lemma_clean_line_control_free(l: Seq<char>)
    requires
        newline_free(l),
    ensures
        control_free(clean_line(l)),
{
    lemma_trim_start_newline_free(l);
    lemma_trim_end_newline_free(trim_start_spec(l));
}

proof fn lemma_join_control_free(segs: Seq<Seq<char>>)
    requires
        forall|k: int| 0 <= k < segs.len() ==> control_free(#[trigger] segs[k]),
    ensures
        control_free(join_spaced(segs)),
    decreases segs.len(),
{
    if segs.len() > 1 {
        assert(forall|k: int|
            0 <= k < segs.drop_last().len() ==> control_free(#[trigger] segs.drop_last()[k]));
        lemma_join_control_free(segs.drop_last());
        assert(control_free(segs.last()));
    }
}

/// Law: whatever the input, its normalized form is one clean line — it
/// contains neither a newline nor a form-feed character.
pub proof fn lemma_normalize_control_free(s: Seq<char>)
    ensures
        control_free(normalize_spec(s)),
{
    lemma_split_lines_newline_free(s);
    let lns = spec_lines(s);
    let cl = lns.map_values(|l: Seq<char>| clean_line(l));
    assert forall|k: int| 0 <= k < cl.len() implies control_free(#[trigger] cl[k]) by {
        assert(newline_free(lns[k]));
        lemma_clean_line_control_free(lns[k]);
    }
    lemma_join_control_free(cl);
}

proof fn lemma_trim_start_first(s: Seq<char>)
    ensures
        trim_start_spec(s).len() > 0 ==> !is_space(trim_start_spec(s).first()),
    decreases s.len(),
{
    if s.len() > 0 && is_space(s.first()) {
        lemma_trim_start_first(s.drop_first());
    }
}

proof fn lemma_trim_end_last(s: Seq<char>)
    ensures
        trim_end_spec(s).len() > 0 ==> !is_space(trim_end_spec(s).last()),
    decreases s.len(),
{
    if s.len() > 0 && is_space(s.last()) {
        lemma_trim_end_last(s.drop_last());
    }
}

proof fn lemma_trim_end_first(s: Seq<char>)
    ensures
        trim_end_spec(s).len() > 0 ==> trim_end_spec(s).first() == s.first(),
    decreases s.len(),
{
    if s.len() > 0 && is_space(s.last()) {
        lemma_trim_end_first(s.drop_last());
    }
}

/// Law: each input line contributes itself stripped of surrounding
/// whitespace — a cleaned line never starts or ends with a white-space
/// character.
pub proof fn lemma_clean_line_trimmed(l: Seq<char>)
    ensures
        clean_line(l).len() > 0 ==> !is_space(clean_line(l).first()) && !is_space(
            clean_line(l).last(),
        ),
{
    let t = trim_spec(l);
    lemma_trim_start_first(l);
    lemma_trim_end_first(trim_start_spec(l));
    lemma_trim_end_last(trim_start_spec(l));
    if clean_line(l).len() > 0 {
        assert(clean_line(l).first() == if t.first() == '\u{c}' {
            ' '
        } else {
            t.first()
        });
        assert(clean_line(l).last() == if t.last() == '\u{c}' {
            ' '
        } else {
            t.last()
        });
    }
}

} // verus!
