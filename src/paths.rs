//! Paths of a transfer: the permitted root, the temporary sibling, and the
//! parent directories to create.
use vstd::prelude::*;

use crate::text::{chars_of, push_char};
use crate::transfer::TransferFailure;

verus! {

/// Whether `c` separates path components: `/` always, `\\` where
/// `backslash` says the platform takes it as a separator too.
pub open spec fn is_separator(c: char, backslash: bool) -> bool {
    c == '/' || (backslash && c == '\\')
}

/// Adds a finished component, unless it names nothing (empty or ".").
pub open spec fn flush(parts: Seq<Seq<char>>, cur: Seq<char>) -> Seq<Seq<char>> {
    if cur.len() == 0 || cur == seq!['.'] {
        parts
    } else {
        parts.push(cur)
    }
}

/// The components finished so far, and the one being read.
pub open spec fn split_state(s: Seq<char>, backslash: bool) -> (Seq<Seq<char>>, Seq<char>)
    decreases s.len(),
{
    if s.len() == 0 {
        (seq![], seq![])
    } else {
        let (parts, cur) = split_state(s.drop_last(), backslash);
        if is_separator(s.last(), backslash) {
            (flush(parts, cur), seq![])
        } else {
            (parts, cur.push(s.last()))
        }
    }
}

/// The components of a path, without empty and "." ones.
pub open spec fn components(s: Seq<char>, backslash: bool) -> Seq<Seq<char>> {
    flush(split_state(s, backslash).0, split_state(s, backslash).1)
}

/// Whether a path starts at the root of its file system.
pub open spec fn is_absolute(s: Seq<char>, backslash: bool) -> bool {
    s.len() > 0 && is_separator(s[0], backslash)
}

/// The components with each ".." taking away the one before it; none where
/// a ".." climbs above the start of the path.
pub open spec fn resolve(parts: Seq<Seq<char>>) -> Option<Seq<Seq<char>>>
    decreases parts.len(),
{
    if parts.len() == 0 {
        Some(seq![])
    } else {
        match resolve(parts.drop_last()) {
            None => None,
            Some(st) => if parts.last() == seq!['.', '.'] {
                if st.len() == 0 {
                    None
                } else {
                    Some(st.drop_last())
                }
            } else {
                Some(st.push(parts.last()))
            },
        }
    }
}

/// Whether `dest` names something strictly below `root`: both absolute or
/// both not, and once "." and ".." are resolved, the components of `root`
/// begin those of `dest` and are fewer.
pub open spec fn within_root(dest: Seq<char>, root: Seq<char>, backslash: bool) -> bool {
    match (resolve(components(dest, backslash)), resolve(components(root, backslash))) {
        (Some(d), Some(r)) => {
            &&& is_absolute(dest, backslash) == is_absolute(root, backslash)
            &&& r.len() < d.len()
            &&& d.subrange(0, r.len() as int) == r
        },
        _ => false,
    }
}

/// The path of the temporary sibling of `dest`.
pub open spec fn temp_of(dest: Seq<char>) -> Seq<char> {
    dest + seq!['.', 't', 'e', 'm', 'p']
}

/// The directories above the file at `s`, outermost first: the text before
/// each separator that ends a component.
pub open spec fn ancestors(s: Seq<char>, backslash: bool) -> Seq<Seq<char>>
    decreases s.len(),
{
    if s.len() == 0 {
        seq![]
    } else {
        let t = s.drop_last();
        if is_separator(s.last(), backslash) && t.len() > 0 && !is_separator(t.last(), backslash) {
            ancestors(t, backslash).push(t)
        } else {
            ancestors(t, backslash)
        }
    }
}

/// The texts of a sequence of character vectors.
pub open spec fn texts(v: Seq<Vec<char>>) -> Seq<Seq<char>> {
    v.map_values(|x: Vec<char>| x@)
}

/// The texts of a sequence of strings.
pub open spec fn string_texts(v: Seq<String>) -> Seq<Seq<char>> {
    v.map_values(|x: String| x@)
}

fn is_sep(c: char, backslash: bool) -> (r: bool)
    ensures
        r == is_separator(c, backslash),
{
    c == '/' || (backslash && c == '\\')
}

fn same_chars(a: &Vec<char>, b: &Vec<char>) -> (r: bool)
    ensures
        r == (a@ == b@),
{
    if a.len() != b.len() {
        return false;
    }
    let mut i: usize = 0;
    while i < a.len()
        invariant
            a@.len() == b@.len(),
            i <= a@.len(),
            forall|k: int| 0 <= k < i ==> a@[k] == b@[k],
        decreases a@.len() - i,
    {
        if a[i] != b[i] {
            return false;
        }
        i = i + 1;
    }
    assert(a@ =~= b@);
    true
}

fn copy_chars(a: &Vec<char>) -> (r: Vec<char>)
    ensures
        r@ == a@,
{
    let mut r: Vec<char> = Vec::new();
    let mut i: usize = 0;
    while i < a.len()
        invariant
            i <= a@.len(),
            r@ == a@.subrange(0, i as int),
        decreases a@.len() - i,
    {
        r.push(a[i]);
        i = i + 1;
        assert(r@ =~= a@.subrange(0, i as int));
    }
    assert(r@ =~= a@);
    r
}

fn names_nothing(cur: &Vec<char>) -> (r: bool)
    ensures
        r == (cur@.len() == 0 || cur@ == seq!['.']),
{
    if cur.len() == 0 {
        true
    } else if cur.len() == 1 && cur[0] == '.' {
        assert(cur@ =~= seq!['.']);
        true
    } else {
        false
    }
}

fn flush_into(parts: &mut Vec<Vec<char>>, cur: Vec<char>)
    ensures
        texts(final(parts)@) == flush(texts(old(parts)@), cur@),
{
    if !names_nothing(&cur) {
        parts.push(cur);
        assert(texts(final(parts)@) =~= texts(old(parts)@).push(cur@));
    }
}

/// The components of a path.
fn components_of(s: &Vec<char>, backslash: bool) -> (r: Vec<Vec<char>>)
    ensures
        texts(r@) == components(s@, backslash),
{
    let mut parts: Vec<Vec<char>> = Vec::new();
    let mut cur: Vec<char> = Vec::new();
    let mut i: usize = 0;
    assert(texts(parts@) =~= seq![]);
    assert(s@.subrange(0, 0) =~= seq![]);
    while i < s.len()
        invariant
            i <= s@.len(),
            split_state(s@.subrange(0, i as int), backslash) == (texts(parts@), cur@),
        decreases s@.len() - i,
    {
        let c = s[i];
        assert(s@.subrange(0, i + 1).drop_last() =~= s@.subrange(0, i as int));
        if is_sep(c, backslash) {
            let done = cur;
            cur = Vec::new();
            flush_into(&mut parts, done);
        } else {
            cur.push(c);
        }
        i = i + 1;
    }
    assert(s@.subrange(0, s@.len() as int) =~= s@);
    flush_into(&mut parts, cur);
    parts
}

/// The components with "." and ".." resolved; none where a ".." climbs
/// above the start.
fn resolve_parts(parts: &Vec<Vec<char>>) -> (r: Option<Vec<Vec<char>>>)
    ensures
        r matches Some(v) ==> resolve(texts(parts@)) == Some(texts(v@)),
        r is None ==> resolve(texts(parts@)) is None,
{
    let up = vec!['.', '.'];
    assert(up@ =~= seq!['.', '.']);
    let mut st: Vec<Vec<char>> = Vec::new();
    let mut ok = true;
    let mut i: usize = 0;
    assert(texts(parts@).subrange(0, 0) =~= seq![]);
    assert(texts(st@) =~= seq![]);
    while i < parts.len()
        invariant
            up@ == seq!['.', '.'],
            i <= parts@.len(),
            ok ==> resolve(texts(parts@).subrange(0, i as int)) == Some(texts(st@)),
            !ok ==> resolve(texts(parts@).subrange(0, i as int)) is None,
        decreases parts@.len() - i,
    {
        let ghost pre = texts(parts@).subrange(0, i + 1);
        assert(pre.drop_last() =~= texts(parts@).subrange(0, i as int));
        assert(pre.last() == parts@[i as int]@);
        if ok {
            let ghost before = st@;
            if same_chars(&parts[i], &up) {
                if st.len() == 0 {
                    ok = false;
                } else {
                    st.pop();
                    assert(texts(st@) =~= texts(before).drop_last());
                }
            } else {
                let c = copy_chars(&parts[i]);
                st.push(c);
                assert(texts(st@) =~= texts(before).push(parts@[i as int]@));
            }
        }
        i = i + 1;
    }
    assert(texts(parts@).subrange(0, parts@.len() as int) =~= texts(parts@));
    if ok {
        Some(st)
    } else {
        None
    }
}

/// Whether `destination` lies strictly below `root` once "." and ".." are
/// resolved, splitting at `/`, and at `\\` where `backslash` says the
/// platform separates there too.
pub fn is_within_app_config(destination: &str, root: &str, backslash: bool) -> (r: bool)
    ensures
        r == within_root(destination@, root@, backslash),
{
    let d_chars = chars_of(destination);
    let r_chars = chars_of(root);
    let d_abs = d_chars.len() > 0 && is_sep(d_chars[0], backslash);
    let r_abs = r_chars.len() > 0 && is_sep(r_chars[0], backslash);
    let d = match resolve_parts(&components_of(&d_chars, backslash)) {
        Some(v) => v,
        None => return false,
    };
    let rp = match resolve_parts(&components_of(&r_chars, backslash)) {
        Some(v) => v,
        None => return false,
    };
    if d_abs != r_abs {
        return false;
    }
    if rp.len() >= d.len() {
        return false;
    }
    let mut i: usize = 0;
    while i < rp.len()
        invariant
            resolve(components(destination@, backslash)) == Some(texts(d@)),
            resolve(components(root@, backslash)) == Some(texts(rp@)),
            is_absolute(destination@, backslash) == is_absolute(root@, backslash),
            rp@.len() < d@.len(),
            i <= rp@.len(),
            forall|k: int| 0 <= k < i ==> texts(d@)[k] == texts(rp@)[k],
        decreases rp@.len() - i,
    {
        assert(texts(d@)[i as int] == d@[i as int]@);
        assert(texts(rp@)[i as int] == rp@[i as int]@);
        if !same_chars(&d[i], &rp[i]) {
            assert(texts(d@).subrange(0, rp@.len() as int)[i as int] != texts(rp@)[i as int]);
            assert(texts(d@).subrange(0, rp@.len() as int) != texts(rp@));
            return false;
        }
        i = i + 1;
    }
    assert(texts(d@).subrange(0, rp@.len() as int) =~= texts(rp@));
    true
}

/// The path of the temporary sibling into which `destination` is written.
pub fn temp_path_for(destination: &str) -> (r: String)
    ensures
        r@ == temp_of(destination@),
{
    let mut r = destination.to_owned();
    push_char(&mut r, '.');
    push_char(&mut r, 't');
    push_char(&mut r, 'e');
    push_char(&mut r, 'm');
    push_char(&mut r, 'p');
    assert(r@ =~= temp_of(destination@));
    r
}

fn string_of_prefix(c: &Vec<char>, n: usize) -> (r: String)
    requires
        n <= c@.len(),
    ensures
        r@ == c@.subrange(0, n as int),
{
    let mut r = String::new();
    let mut i: usize = 0;
    while i < n
        invariant
            n <= c@.len(),
            i <= n,
            r@ == c@.subrange(0, i as int),
        decreases n - i,
    {
        push_char(&mut r, c[i]);
        i = i + 1;
        assert(r@ =~= c@.subrange(0, i as int));
    }
    r
}

/// The directories above the file at `path`, outermost first.
pub fn parent_dirs(path: &str, backslash: bool) -> (r: Vec<String>)
    ensures
        string_texts(r@) == ancestors(path@, backslash),
{
    let c = chars_of(path);
    let mut r: Vec<String> = Vec::new();
    let mut i: usize = 0;
    assert(c@.subrange(0, 0) =~= seq![]);
    assert(string_texts(r@) =~= seq![]);
    while i < c.len()
        invariant
            c@ == path@,
            i <= c@.len(),
            string_texts(r@) == ancestors(c@.subrange(0, i as int), backslash),
        decreases c@.len() - i,
    {
        let ghost before = r@;
        assert(c@.subrange(0, i + 1).drop_last() =~= c@.subrange(0, i as int));
        if is_sep(c[i], backslash) && i > 0 && !is_sep(c[i - 1], backslash) {
            let p = string_of_prefix(&c, i);
            r.push(p);
            assert(string_texts(r@) =~= string_texts(before).push(c@.subrange(0, i as int)));
        }
        i = i + 1;
    }
    assert(c@.subrange(0, c@.len() as int) =~= c@);
    r
}

/// The positions of the absent entries, in order.
pub open spec fn absent_positions(present: Seq<bool>) -> Seq<int>
    decreases present.len(),
{
    if present.len() == 0 {
        seq![]
    } else if present.last() {
        absent_positions(present.drop_last())
    } else {
        absent_positions(present.drop_last()).push(present.len() - 1)
    }
}

/// Positions as integers.
pub open spec fn positions(v: Seq<usize>) -> Seq<int> {
    v.map_values(|i: usize| i as int)
}

/// Most directories a transfer may create above its destination.
pub const MAX_NEW_DIRS: usize = 3;

/// Which of the parent directories (`present[i]` tells whether the i-th
/// exists) must be created, outermost first; refused where they are more than
/// `max_new`.
pub fn dirs_to_create(present: &Vec<bool>, max_new: usize) -> (r: Result<Vec<usize>, TransferFailure>)
    ensures
        r is Ok <==> absent_positions(present@).len() <= max_new,
        r matches Ok(v) ==> positions(v@) == absent_positions(present@),
        r matches Err(e) ==> e is DirectoryDepth,
{
    let mut v: Vec<usize> = Vec::new();
    let mut i: usize = 0;
    assert(present@.subrange(0, 0) =~= seq![]);
    assert(positions(v@) =~= seq![]);
    while i < present.len()
        invariant
            i <= present@.len(),
            positions(v@) == absent_positions(present@.subrange(0, i as int)),
        decreases present@.len() - i,
    {
        assert(present@.subrange(0, i + 1).drop_last() =~= present@.subrange(0, i as int));
        if !present[i] {
            let ghost before = v@;
            v.push(i);
            assert(positions(v@) =~= positions(before).push(i as int));
        }
        i = i + 1;
    }
    assert(present@.subrange(0, present@.len() as int) =~= present@);
    if v.len() > max_new {
        Err(TransferFailure::DirectoryDepth)
    } else {
        Ok(v)
    }
}

} // verus!
