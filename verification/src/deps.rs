//! Parsing of the package manager's info output: the dependency field of
//! each `Depends On` line, split out of the raw captured standard output.

use vstd::prelude::*;
use vstd::string::StrSliceExecFns;

use crate::textutil::{starts_with_spec, str_starts_with};

verus! {

/// The first position of `c` in `s`, or `s.len()` when `c` does not occur.
pub open spec fn find_char(s: Seq<char>, c: char) -> int
    decreases s.len(),
{
    if s.len() == 0 {
        0
    } else if s[0] == c {
        0
    } else {
        1 + find_char(s.drop_first(), c)
    }
}

proof fn lemma_find_char_bounds(s: Seq<char>, c: char)
    ensures
        0 <= find_char(s, c) <= s.len(),
        forall|k: int| 0 <= k < find_char(s, c) ==> s[k] != c,
        find_char(s, c) < s.len() ==> s[find_char(s, c)] == c,
    decreases s.len(),
{
    if s.len() > 0 && s[0] != c {
        lemma_find_char_bounds(s.drop_first(), c);
        assert forall|k: int| 0 <= k < find_char(s, c) implies s[k] != c by {
            if k > 0 {
                assert(s[k] == s.drop_first()[k - 1]);
            }
        }
    }
}

/// A scan that saw no `c` before `i`, and `c` (or the end) at `i`, found
/// exactly the first position.
proof fn lemma_find_char_from_scan(s: Seq<char>, c: char, i: int)
    requires
        0 <= i <= s.len(),
        forall|k: int| 0 <= k < i ==> s[k] != c,
        i < s.len() ==> s[i] == c,
    ensures
        find_char(s, c) == i,
    decreases s.len(),
{
    if s.len() > 0 && s[0] != c {
        lemma_find_char_from_scan(s.drop_first(), c, i - 1);
    }
}

/// The segments of `s` between newline characters, in order. Every newline
/// separates two segments, so text ending in a newline carries a final
/// empty segment; it is harmless to the dependency scan, which ignores
/// lines without the field name.
pub open spec fn split_lines_spec(s: Seq<char>) -> Seq<Seq<char>>
    decreases s.len(),
{
    let i = find_char(s, '\n');
    if i < 0 || i >= s.len() {
        seq![s]
    } else {
        seq![s.take(i)] + split_lines_spec(s.skip(i + 1))
    }
}

/// Split text into its lines at newline characters.
pub fn split_lines(s: &str) -> (r: Vec<String>)
    ensures
        r.deep_view() == split_lines_spec(s@),
{
    let n = s.unicode_len();
    let mut r: Vec<String> = Vec::new();
    let mut start: usize = 0;
    proof {
        assert(s@.skip(0) =~= s@);
        assert(Seq::<Seq<char>>::empty() + split_lines_spec(s@) =~= split_lines_spec(s@));
    }
    loop
        invariant
            start <= n,
            n == s@.len(),
            split_lines_spec(s@) =~= r.deep_view() + split_lines_spec(s@.skip(start as int)),
        decreases n - start,
    {
        let mut j: usize = start;
        while j < n && s.get_char(j) != '\n'
            invariant
                start <= j <= n,
                n == s@.len(),
                forall|k: int| start <= k < j ==> s@[k] != '\n',
            decreases n - j,
        {
            j = j + 1;
        }
        let ghost rest = s@.skip(start as int);
        let ghost cut = j as int - start as int;
        proof {
            assert forall|k: int| 0 <= k < cut implies rest[k] != '\n' by {
                assert(rest[k] == s@[start + k]);
            }
            if j < n {
                assert(rest[cut] == s@[j as int]);
            }
            lemma_find_char_from_scan(rest, '\n', cut);
        }
        let line = s.substring_char(start, j);
        let ghost r0 = r.deep_view();
        r.push(line.to_owned());
        proof {
            assert(line@ =~= rest.take(cut));
            assert(r.deep_view() =~= r0.push(line@));
        }
        if j == n {
            proof {
                assert(line@ =~= rest);
                assert(split_lines_spec(rest) == seq![rest]);
                assert(r.deep_view() =~= r0 + seq![rest]);
                assert(split_lines_spec(s@) =~= r.deep_view());
            }
            return r;
        }
        proof {
            assert(split_lines_spec(rest) == seq![rest.take(cut)] + split_lines_spec(
                rest.skip(cut + 1),
            ));
            assert(rest.skip(cut + 1) =~= s@.skip(j + 1));
            assert(r.deep_view() + split_lines_spec(s@.skip(j + 1)) =~= r0 + split_lines_spec(
                rest,
            ));
        }
        start = j + 1;
    }
}

/// A character trimmed from the ends of a field value.
pub open spec fn is_blank(c: char) -> bool {
    c == ' ' || c == '\t' || c == '\r'
}

/// `l` without its leading blanks.
pub open spec fn trim_front(l: Seq<char>) -> Seq<char>
    decreases l.len(),
{
    if l.len() > 0 && is_blank(l[0]) {
        trim_front(l.drop_first())
    } else {
        l
    }
}

/// `l` without its trailing blanks.
pub open spec fn trim_back(l: Seq<char>) -> Seq<char>
    decreases l.len(),
{
    if l.len() > 0 && is_blank(l.last()) {
        trim_back(l.drop_last())
    } else {
        l
    }
}

/// `l` without blanks on either end.
pub open spec fn trim_spec(l: Seq<char>) -> Seq<char> {
    trim_back(trim_front(l))
}

proof fn lemma_trim_front_skip(l: Seq<char>, i: int)
    requires
        0 <= i <= l.len(),
        forall|k: int| 0 <= k < i ==> is_blank(l[k]),
        i < l.len() ==> !is_blank(l[i]),
    ensures
        trim_front(l) == l.skip(i),
    decreases i,
{
    if i == 0 {
        assert(l.skip(0) =~= l);
    } else {
        assert(forall|k: int| 0 <= k < i - 1 ==> is_blank(#[trigger] l.drop_first()[k]));
        if i - 1 < l.drop_first().len() {
            assert(l.drop_first()[i - 1] == l[i]);
        }
        lemma_trim_front_skip(l.drop_first(), i - 1);
        assert(l.drop_first().skip(i - 1) =~= l.skip(i));
    }
}

proof fn lemma_trim_back_take(l: Seq<char>, e: int)
    requires
        0 <= e <= l.len(),
        forall|k: int| e <= k < l.len() ==> is_blank(l[k]),
        e > 0 ==> !is_blank(l[e - 1]),
    ensures
        trim_back(l) == l.take(e),
    decreases l.len(),
{
    if e == l.len() {
        assert(l.take(e) =~= l);
    } else {
        assert(is_blank(l.last()));
        assert(forall|k: int| e <= k < l.drop_last().len() ==> is_blank(#[trigger] l.drop_last()[k]));
        if e > 0 {
            assert(l.drop_last()[e - 1] == l[e - 1]);
        }
        lemma_trim_back_take(l.drop_last(), e);
        assert(l.drop_last().take(e) =~= l.take(e));
    }
}

/// Whether a character is trimmed from a field value's ends.
fn is_blank_char(c: char) -> (r: bool)
    ensures
        r == is_blank(c),
{
    c == ' ' || c == '\t' || c == '\r'
}

/// The field value without blanks on either end.
pub fn trim_field(l: &str) -> (r: String)
    ensures
        r@ == trim_spec(l@),
{
    let n = l.unicode_len();
    let mut b: usize = 0;
    while b < n && is_blank_char(l.get_char(b))
        invariant
            b <= n,
            n == l@.len(),
            forall|k: int| 0 <= k < b ==> is_blank(l@[k]),
        decreases n - b,
    {
        b = b + 1;
    }
    let mut e: usize = n;
    while e > b && is_blank_char(l.get_char(e - 1))
        invariant
            b <= e <= n,
            n == l@.len(),
            forall|k: int| e <= k < n ==> is_blank(l@[k]),
        decreases e,
    {
        e = e - 1;
    }
    proof {
        lemma_trim_front_skip(l@, b as int);
        let t = l@.skip(b as int);
        assert forall|k: int| e - b <= k < t.len() implies is_blank(t[k]) by {
            assert(t[k] == l@[b + k]);
        }
        if e > b {
            assert(t[e - b - 1] == l@[e - 1]);
        }
        lemma_trim_back_take(t, e as int - b as int);
        assert(t.take(e as int - b as int) =~= l@.subrange(b as int, e as int));
    }
    l.substring_char(b, e).to_owned()
}

/// The text between the first and the second colon of a line, or between
/// the first colon and the end; empty when the line has no colon.
pub open spec fn second_field(l: Seq<char>) -> Seq<char> {
    let i = find_char(l, ':');
    if i < 0 || i >= l.len() {
        Seq::empty()
    } else {
        let rest = l.skip(i + 1);
        rest.take(find_char(rest, ':'))
    }
}

/// The value part of a `name : value [: more]` line.
fn second_field_of(l: &str) -> (r: String)
    ensures
        r@ == second_field(l@),
{
    let n = l.unicode_len();
    let mut i: usize = 0;
    while i < n && l.get_char(i) != ':'
        invariant
            i <= n,
            n == l@.len(),
            forall|k: int| 0 <= k < i ==> l@[k] != ':',
        decreases n - i,
    {
        i = i + 1;
    }
    proof {
        lemma_find_char_from_scan(l@, ':', i as int);
    }
    if i == n {
        return String::new();
    }
    let mut j: usize = i + 1;
    while j < n && l.get_char(j) != ':'
        invariant
            i + 1 <= j <= n,
            n == l@.len(),
            forall|k: int| i + 1 <= k < j ==> l@[k] != ':',
        decreases n - j,
    {
        j = j + 1;
    }
    let ghost rest = l@.skip(i + 1);
    proof {
        assert forall|k: int| 0 <= k < j - i - 1 implies rest[k] != ':' by {
            assert(rest[k] == l@[i + 1 + k]);
        }
        if j < n {
            assert(rest[j - i - 1] == l@[j as int]);
        }
        lemma_find_char_from_scan(rest, ':', j as int - i as int - 1);
        assert(rest.take(j as int - i as int - 1) =~= l@.subrange(i + 1, j as int));
    }
    l.substring_char(i + 1, j).to_owned()
}

/// The dependency field a line carries, if it is a `Depends On` line.
pub open spec fn dep_of_line(l: Seq<char>) -> Option<Seq<char>> {
    if starts_with_spec(l, "Depends On"@) {
        Some(trim_spec(second_field(l)))
    } else {
        None
    }
}

/// The dependency field of one line of the info output, if it has one.
pub fn dependency_of_line(l: &str) -> (r: Option<String>)
    ensures
        r.deep_view() == dep_of_line(l@),
{
    if str_starts_with(l, "Depends On") {
        let field = second_field_of(l);
        Some(trim_field(field.as_str()))
    } else {
        None
    }
}

/// The dependency fields of the given lines, in order.
pub open spec fn collect_deps(lines: Seq<Seq<char>>) -> Seq<Seq<char>>
    decreases lines.len(),
{
    if lines.len() == 0 {
        Seq::empty()
    } else {
        let rest = collect_deps(lines.drop_first());
        match dep_of_line(lines[0]) {
            Some(d) => seq![d] + rest,
            None => rest,
        }
    }
}

/// What the parser yields on a whole captured output.
pub open spec fn parse_deps_spec(s: Seq<char>) -> Seq<Seq<char>> {
    collect_deps(split_lines_spec(s))
}

/// Every dependency field of the package manager's info output: the value
/// of each `Depends On` line, trimmed, in the order the lines appear.
pub fn parse_dependencies(stdout: &str) -> (r: Vec<String>)
    ensures
        r.deep_view() == parse_deps_spec(stdout@),
{
    let lines = split_lines(stdout);
    let ghost lv = lines.deep_view();
    let mut r: Vec<String> = Vec::new();
    let mut i: usize = 0;
    proof {
        assert(lv.skip(0) =~= lv);
        assert(Seq::<Seq<char>>::empty() + collect_deps(lv) =~= collect_deps(lv));
    }
    while i < lines.len()
        invariant
            i <= lines@.len(),
            lv == lines.deep_view(),
            collect_deps(lv) =~= r.deep_view() + collect_deps(lv.skip(i as int)),
        decreases lines@.len() - i,
    {
        let ghost r0 = r.deep_view();
        let ghost t = lv.skip(i as int);
        proof {
            assert(t[0] == lv[i as int]);
            assert(lv[i as int] == lines@[i as int]@);
            assert(t.drop_first() =~= lv.skip(i as int + 1));
        }
        match dependency_of_line(lines[i].as_str()) {
            Some(d) => {
                r.push(d);
                proof {
                    assert(r.deep_view() =~= r0.push(d@));
                    assert(collect_deps(t) == seq![d@] + collect_deps(t.drop_first()));
                    assert(r0 + collect_deps(t) =~= r.deep_view() + collect_deps(
                        lv.skip(i as int + 1),
                    ));
                }
            }
            None => {
                proof {
                    assert(collect_deps(t) == collect_deps(t.drop_first()));
                }
            }
        }
        i = i + 1;
    }
    proof {
        assert(lv.skip(lv.len() as int).len() == 0);
    }
    r
}

} // verus!
