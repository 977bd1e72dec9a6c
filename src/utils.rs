//! Small text rules of the host's commands.
use vstd::prelude::*;

use crate::text::{chars_of, matches_at, occurs_at, push_char};

verus! {

/// `s` with every occurrence of `from` replaced by `to`, scanning from the
/// left and never looking into a replacement.
pub open spec fn replace_all(s: Seq<char>, from: Seq<char>, to: Seq<char>) -> Seq<char>
    decreases s.len(),
{
    if s.len() == 0 {
        seq![]
    } else if from.len() > 0 && occurs_at(s, from, 0) {
        to + replace_all(s.skip(from.len() as int), from, to)
    } else {
        seq![s[0]] + replace_all(s.skip(1), from, to)
    }
}

/// How many times `c` occurs in `s`.
pub open spec fn count_of(s: Seq<char>, c: char) -> nat
    decreases s.len(),
{
    if s.len() == 0 {
        0
    } else {
        count_of(s.drop_last(), c) + if s.last() == c {
            1nat
        } else {
            0nat
        }
    }
}

/// The first position at or after `i` where `pat` occurs.
pub open spec fn first_at(s: Seq<char>, pat: Seq<char>, i: int) -> Option<int>
    decreases s.len() + 1 - i,
{
    if i < 0 || i + pat.len() > s.len() {
        None
    } else if occurs_at(s, pat, i) {
        Some(i)
    } else {
        first_at(s, pat, i + 1)
    }
}

proof fn lemma_occurs_skip(s: Seq<char>, pat: Seq<char>, i: int)
    requires
        0 <= i <= s.len(),
    ensures
        occurs_at(s.skip(i), pat, 0) <==> occurs_at(s, pat, i),
{
    if i + pat.len() <= s.len() {
        assert(s.skip(i).subrange(0, pat.len() as int) =~= s.subrange(i, i + pat.len()));
    }
}

fn string_of(v: &Vec<char>) -> (r: String)
    ensures
        r@ == v@,
{
    let mut r = String::new();
    let mut i: usize = 0;
    while i < v.len()
        invariant
            i <= v@.len(),
            r@ == v@.subrange(0, i as int),
        decreases v@.len() - i,
    {
        push_char(&mut r, v[i]);
        i = i + 1;
        assert(r@ =~= v@.subrange(0, i as int));
    }
    assert(r@ =~= v@);
    r
}

fn replace_chars(s: &Vec<char>, from: &Vec<char>, to: &Vec<char>) -> (r: Vec<char>)
    requires
        from@.len() > 0,
    ensures
        r@ == replace_all(s@, from@, to@),
{
    let mut out: Vec<char> = Vec::new();
    let mut i: usize = 0;
    assert(s@.skip(0) =~= s@);
    while i < s.len()
        invariant
            from@.len() > 0,
            i <= s@.len(),
            replace_all(s@, from@, to@) == out@ + replace_all(s@.skip(i as int), from@, to@),
        decreases s@.len() - i,
    {
        let ghost rest = s@.skip(i as int);
        proof {
            lemma_occurs_skip(s@, from@, i as int);
        }
        if from.len() <= s.len() - i && matches_at(s, from, i) {
            let ghost before = out@;
            let mut k: usize = 0;
            while k < to.len()
                invariant
                    k <= to@.len(),
                    out@ == before + to@.subrange(0, k as int),
                decreases to@.len() - k,
            {
                out.push(to[k]);
                k = k + 1;
                assert(out@ =~= before + to@.subrange(0, k as int));
            }
            assert(to@.subrange(0, to@.len() as int) =~= to@);
            assert(rest.skip(from@.len() as int) =~= s@.skip(i + from@.len()));
            assert(out@ + replace_all(s@.skip(i + from@.len()), from@, to@) =~= before + (to@
                + replace_all(rest.skip(from@.len() as int), from@, to@)));
            i = i + from.len();
        } else {
            let ghost before = out@;
            out.push(s[i]);
            assert(rest.skip(1) =~= s@.skip(i + 1));
            assert(out@ + replace_all(s@.skip(i + 1), from@, to@) =~= before + (seq![rest[0]]
                + replace_all(rest.skip(1), from@, to@)));
            i = i + 1;
        }
    }
    assert(s@.skip(i as int) =~= seq![]);
    assert(out@ + seq![] =~= out@);
    out
}

fn replace_in(s: &str, from: &Vec<char>, to: &Vec<char>) -> (r: String)
    requires
        from@.len() > 0,
    ensures
        r@ == replace_all(s@, from@, to@),
{
    let c = chars_of(s);
    string_of(&replace_chars(&c, from, to))
}

fn count_char(s: &Vec<char>, c: char) -> (r: usize)
    ensures
        r == count_of(s@, c),
{
    let mut n: usize = 0;
    let mut i: usize = 0;
    assert(s@.subrange(0, 0) =~= seq![]);
    while i < s.len()
        invariant
            i <= s@.len(),
            n == count_of(s@.subrange(0, i as int), c),
            n <= i,
        decreases s@.len() - i,
    {
        assert(s@.subrange(0, i + 1).drop_last() =~= s@.subrange(0, i as int));
        if s[i] == c {
            n = n + 1;
        }
        i = i + 1;
    }
    assert(s@.subrange(0, s@.len() as int) =~= s@);
    n
}

fn first_index(s: &Vec<char>, pat: &Vec<char>, from: usize) -> (r: Option<usize>)
    ensures
        r matches Some(i) ==> first_at(s@, pat@, from as int) == Some(i as int),
        r is None ==> first_at(s@, pat@, from as int) is None,
{
    let mut i = from;
    while i <= s.len() && pat.len() <= s.len() - i
        invariant
            from <= i,
            first_at(s@, pat@, from as int) == first_at(s@, pat@, i as int),
        decreases s@.len() + 1 - i,
    {
        proof {
            if pat@.len() == 0 {
                assert(s@.subrange(i as int, i as int) =~= pat@);
            }
        }
        if matches_at(s, pat, i) {
            return Some(i);
        }
        i = i + 1;
    }
    None
}

/// The entities decoded, in this order: `&lt;`, `&gt;`, `&quot;`, `&#39;`,
/// `&apos;`, `&nbsp;`, and `&amp;` last, so that no decoded ampersand starts
/// a new entity.
pub open spec fn decoded(s: Seq<char>) -> Seq<char> {
    let a = replace_all(s, seq!['&', 'l', 't', ';'], seq!['<']);
    let b = replace_all(a, seq!['&', 'g', 't', ';'], seq!['>']);
    let c = replace_all(b, seq!['&', 'q', 'u', 'o', 't', ';'], seq!['"']);
    let d = replace_all(c, seq!['&', '#', '3', '9', ';'], seq!['\'']);
    let e = replace_all(d, seq!['&', 'a', 'p', 'o', 's', ';'], seq!['\'']);
    let f = replace_all(e, seq!['&', 'n', 'b', 's', 'p', ';'], seq![' ']);
    replace_all(f, seq!['&', 'a', 'm', 'p', ';'], seq!['&'])
}

/// Decodes the HTML entities of scraped text.
pub fn decode_html_entities(input: &str) -> (r: String)
    ensures
        r@ == decoded(input@),
{
    let s = chars_of(input);
    let lt = vec!['&', 'l', 't', ';'];
    let gt = vec!['&', 'g', 't', ';'];
    let quot = vec!['&', 'q', 'u', 'o', 't', ';'];
    let num39 = vec!['&', '#', '3', '9', ';'];
    let apos = vec!['&', 'a', 'p', 'o', 's', ';'];
    let nbsp = vec!['&', 'n', 'b', 's', 'p', ';'];
    let amp = vec!['&', 'a', 'm', 'p', ';'];
    assert(lt@ =~= seq!['&', 'l', 't', ';']);
    assert(gt@ =~= seq!['&', 'g', 't', ';']);
    assert(quot@ =~= seq!['&', 'q', 'u', 'o', 't', ';']);
    assert(num39@ =~= seq!['&', '#', '3', '9', ';']);
    assert(apos@ =~= seq!['&', 'a', 'p', 'o', 's', ';']);
    assert(nbsp@ =~= seq!['&', 'n', 'b', 's', 'p', ';']);
    assert(amp@ =~= seq!['&', 'a', 'm', 'p', ';']);
    let to_lt = vec!['<'];
    let to_gt = vec!['>'];
    let to_quot = vec!['"'];
    let to_apos = vec!['\''];
    let to_space = vec![' '];
    let to_amp = vec!['&'];
    assert(to_lt@ =~= seq!['<']);
    assert(to_gt@ =~= seq!['>']);
    assert(to_quot@ =~= seq!['"']);
    assert(to_apos@ =~= seq!['\'']);
    assert(to_space@ =~= seq![' ']);
    assert(to_amp@ =~= seq!['&']);
    let a = replace_chars(&s, &lt, &to_lt);
    let b = replace_chars(&a, &gt, &to_gt);
    let c = replace_chars(&b, &quot, &to_quot);
    let d = replace_chars(&c, &num39, &to_apos);
    let e = replace_chars(&d, &apos, &to_apos);
    let f = replace_chars(&e, &nbsp, &to_space);
    let g = replace_chars(&f, &amp, &to_amp);
    string_of(&g)
}

/// Whether a timestamp is given, non-empty, and has three `:`-separated parts.
pub fn is_valid_timestamp(ts: &Option<String>) -> (r: bool)
    ensures
        r == (ts matches Some(s) && s@.len() > 0 && count_of(s@, ':') == 2),
{
    match ts {
        Some(s) => {
            let c = chars_of(s.as_str());
            c.len() > 0 && count_char(&c, ':') == 2
        },
        None => false,
    }
}

/// Splits a bulk-rename rule `old,new` at its one comma; none where the rule
/// has no comma or more than one.
pub fn parse_replace_rule(rule: &str) -> (r: Option<(String, String)>)
    ensures
        r is Some <==> count_of(rule@, ',') == 1,
        r matches Some((a, b)) ==> a@ + seq![','] + b@ == rule@ && count_of(a@, ',') == 0,
{
    let c = chars_of(rule);
    if count_char(&c, ',') != 1 {
        return None;
    }
    let mut a: Vec<char> = Vec::new();
    let mut i: usize = 0;
    assert(c@.subrange(0, 0) =~= seq![]);
    while c[i] != ','
        invariant
            i < c@.len(),
            a@ == c@.subrange(0, i as int),
            count_of(c@.subrange(0, i as int), ',') == 0,
            count_of(c@, ',') == 1,
        decreases c@.len() - i,
    {
        a.push(c[i]);
        assert(c@.subrange(0, i + 1).drop_last() =~= c@.subrange(0, i as int));
        assert(i < c.len());
        i = i + 1;
        assert(a@ =~= c@.subrange(0, i as int));
        if i == c.len() {
            assert(c@.subrange(0, i as int) =~= c@);
            assert(false);
        }
    }
    let mut b: Vec<char> = Vec::new();
    assert(i < c.len());
    let mut j: usize = i + 1;
    while j < c.len()
        invariant
            i < j <= c@.len(),
            b@ == c@.subrange(i + 1, j as int),
        decreases c@.len() - j,
    {
        b.push(c[j]);
        j = j + 1;
        assert(b@ =~= c@.subrange(i + 1, j as int));
    }
    assert(a@ + seq![','] + b@ =~= c@);
    Some((string_of(&a), string_of(&b)))
}

/// Whether `c` may let a path reach a shell command: `;`, `&`, `|` or a
/// backquote.
pub open spec fn is_unsafe_char(c: char) -> bool {
    c == ';' || c == '&' || c == '|' || c == '`'
}

/// A path with none of the characters that could reach a shell command;
/// refused where it has one.
pub fn sanitize_path(file_path: &str) -> (r: Result<String, String>)
    ensures
        r is Ok <==> forall|i: int| 0 <= i < file_path@.len() ==> !is_unsafe_char(
            #[trigger] file_path@[i],
        ),
        r matches Ok(p) ==> p@ == file_path@,
        r matches Err(m) ==> m@ == "Unsafe characters detected in file path."@,
{
    let c = chars_of(file_path);
    let mut i: usize = 0;
    while i < c.len()
        invariant
            c@ == file_path@,
            i <= c@.len(),
            forall|k: int| 0 <= k < i ==> !is_unsafe_char(#[trigger] c@[k]),
        decreases c@.len() - i,
    {
        let x = c[i];
        if x == ';' || x == '&' || x == '|' || x == '`' {
            return Err("Unsafe characters detected in file path.".to_owned());
        }
        i = i + 1;
    }
    Ok(file_path.to_owned())
}

/// The address of the full-size image for a poster address: `/w780/`
/// becomes `/original/`.
pub fn get_original_image_sizes(poster: Option<String>) -> (r: Option<String>)
    ensures
        poster is None ==> r is None,
        poster matches Some(p) ==> (r matches Some(q) && q@ == replace_all(
            p@,
            seq!['/', 'w', '7', '8', '0', '/'],
            seq!['/', 'o', 'r', 'i', 'g', 'i', 'n', 'a', 'l', '/'],
        )),
{
    match poster {
        Some(p) => Some(
            replace_in(
                p.as_str(),
                &vec!['/', 'w', '7', '8', '0', '/'],
                &vec!['/', 'o', 'r', 'i', 'g', 'i', 'n', 'a', 'l', '/'],
            ),
        ),
        None => None,
    }
}

/// An image address without its resizing part: the text between the first
/// `@.` and the next `.` after it goes, leaving `@` and the extension.
pub open spec fn trimmed_url(url: Seq<char>) -> Seq<char> {
    match first_at(url, seq!['@', '.'], 0) {
        Some(start) => match first_at(url, seq!['.'], start + 2) {
            Some(dot) => url.subrange(0, start) + seq!['@'] + url.subrange(dot, url.len() as int),
            None => url,
        },
        None => url,
    }
}

/// Removes the resizing part of an image address.
pub fn parse_url(url: &str) -> (r: String)
    ensures
        r@ == trimmed_url(url@),
{
    let c = chars_of(url);
    let at = vec!['@', '.'];
    let dot = vec!['.'];
    assert(at@ =~= seq!['@', '.']);
    assert(dot@ =~= seq!['.']);
    if let Some(start) = first_index(&c, &at, 0) {
        proof {
            lemma_first_at_bounds(c@, at@, 0, start as int);
        }
        assert(start + 2 <= c.len());
        if let Some(d) = first_index(&c, &dot, start + 2) {
            proof {
                lemma_first_at_bounds(c@, dot@, start + 2, d as int);
            }
            let mut out: Vec<char> = Vec::new();
            let mut i: usize = 0;
            while i < start
                invariant
                    start <= c@.len(),
                    i <= start,
                    out@ == c@.subrange(0, i as int),
                decreases start - i,
            {
                out.push(c[i]);
                i = i + 1;
                assert(out@ =~= c@.subrange(0, i as int));
            }
            out.push('@');
            let ghost head = out@;
            let mut j: usize = d;
            while j < c.len()
                invariant
                    d <= j <= c@.len(),
                    out@ == head + c@.subrange(d as int, j as int),
                decreases c@.len() - j,
            {
                out.push(c[j]);
                j = j + 1;
                assert(out@ =~= head + c@.subrange(d as int, j as int));
            }
            assert(out@ =~= trimmed_url(url@));
            return string_of(&out);
        }
    }
    url.to_owned()
}

proof fn lemma_first_at_bounds(s: Seq<char>, pat: Seq<char>, i: int, found: int)
    requires
        first_at(s, pat, i) == Some(found),
    ensures
        i <= found,
        found + pat.len() <= s.len(),
        occurs_at(s, pat, found),
    decreases s.len() + 1 - i,
{
    if !(i < 0 || i + pat.len() > s.len()) && !occurs_at(s, pat, i) {
        lemma_first_at_bounds(s, pat, i + 1, found);
    }
}

} // verus!
