use vstd::prelude::*;

verus! {

/// The characters of a string slice, one by one.
pub fn chars_of(s: &str) -> (v: Vec<char>)
    ensures
        v@ == s@,
{
    let mut v: Vec<char> = Vec::new();
    for c in it: s.chars()
        invariant
            v.len() == it.index(),
            forall|i: int| 0 <= i < v.len() ==> v@[i] == it.seq()[i],
    {
        v.push(c);
    }
    assert(v@ =~= s@);
    v
}

/// Whether two string slices hold the same characters.
pub fn same_text(a: &str, b: &str) -> (r: bool)
    ensures
        r == (a@ == b@),
{
    let x = chars_of(a);
    let y = chars_of(b);
    if x.len() != y.len() {
        return false;
    }
    let mut i: usize = 0;
    while i < x.len()
        invariant
            x@ == a@,
            y@ == b@,
            x.len() == y.len(),
            i <= x.len(),
            forall|j: int| 0 <= j < i ==> x@[j] == y@[j],
        decreases x.len() - i,
    {
        if x[i] != y[i] {
            return false;
        }
        i = i + 1;
    }
    assert(x@ =~= y@);
    true
}

/// The path of the file `name` inside the directory `dir`, the way a relative
/// name is adjoined to a directory path: a separator is put between them
/// unless the directory is empty or already ends in one.
pub open spec fn joined_path_of(dir: Seq<char>, name: Seq<char>) -> Seq<char> {
    if dir.len() == 0 {
        name
    } else if dir.last() == '/' {
        dir + name
    } else {
        dir + seq!['/'] + name
    }
}

/// The path of the file `name` inside the directory `dir`.
pub fn joined_path(dir: &str, name: &str) -> (p: String)
    ensures
        p@ == joined_path_of(dir@, name@),
{
    let d = chars_of(dir);
    let mut p = String::from_str(dir);
    if d.len() > 0 && d[d.len() - 1] != '/' {
        p.append("/");
        proof {
            reveal_strlit("/");
        }
    }
    p.append(name);
    p
}

/// Whether `needle` occurs in `text` as a run of consecutive characters.
pub open spec fn contains_text(text: Seq<char>, needle: Seq<char>) -> bool {
    exists|i: int| 0 <= i <= text.len() - needle.len() && #[trigger] text.subrange(i, i + needle.len()) == needle
}

/// Whether `needle` occurs in `text`.
pub fn has_text(text: &str, needle: &str) -> (r: bool)
    ensures
        r == contains_text(text@, needle@),
{
    let t = chars_of(text);
    let n = chars_of(needle);
    if n.len() > t.len() {
        return false;
    }
    let last = t.len() - n.len();
    let mut i: usize = 0;
    while i <= last
        invariant
            t@ == text@,
            n@ == needle@,
            n.len() <= t.len(),
            last == t.len() - n.len(),
            i <= last + 1,
            forall|k: int| 0 <= k < i ==> #[trigger] t@.subrange(k, k + n.len()) != n@,
        decreases last + 1 - i,
    {
        let mut j: usize = 0;
        let mut same = true;
        while j < n.len()
            invariant
                t@ == text@,
                n@ == needle@,
                i <= last,
                last == t.len() - n.len(),
                j <= n.len(),
                same <==> forall|m: int| 0 <= m < j ==> t@[i + m] == n@[m],
            decreases n.len() - j,
        {
            if t[i + j] != n[j] {
                same = false;
            }
            j = j + 1;
        }
        if same {
            assert(t@.subrange(i as int, i + n.len()) =~= n@);
            return true;
        }
        assert(t@.subrange(i as int, i + n.len())[0] == t@[i as int]);
        assert(t@.subrange(i as int, i + n.len()) != n@) by {
            let m = choose|m: int| 0 <= m < n.len() && t@[i + m] != n@[m];
            assert(t@.subrange(i as int, i + n.len())[m] == t@[i + m]);
        }
        i = i + 1;
    }
    false
}

/// A file inside a directory is found under the directory's path, a single
/// separator, and the file's name: no separator is added after an empty
/// directory or one that already ends in a separator, and exactly one is
/// added otherwise, whatever the lengths.
pub proof fn lemma_joined_path_separator(dir: Seq<char>, name: Seq<char>)
    ensures
        dir.len() == 0 ==> joined_path_of(dir, name) == name,
        dir.len() > 0 && dir[dir.len() - 1] == '/' ==> joined_path_of(dir, name) == dir + name,
        dir.len() > 0 && dir[dir.len() - 1] != '/' ==> {
            let p = joined_path_of(dir, name);
            &&& p.len() == dir.len() + 1 + name.len()
            &&& p.subrange(0, dir.len() as int) == dir
            &&& p[dir.len() as int] == '/'
            &&& p.subrange(dir.len() + 1int, p.len() as int) == name
        },
{
    if dir.len() > 0 && dir[dir.len() - 1] != '/' {
        let p = joined_path_of(dir, name);
        assert(p.subrange(0, dir.len() as int) =~= dir);
        assert(p.subrange(dir.len() + 1int, p.len() as int) =~= name);
    }
}

/// A text that holds `needle` at some position contains it, and a text that
/// contains it holds it at some position.
pub proof fn lemma_contains_text_at(text: Seq<char>, needle: Seq<char>, i: int)
    ensures
        0 <= i <= text.len() - needle.len() && text.subrange(i, i + needle.len()) == needle
            ==> contains_text(text, needle),
        contains_text(text, needle) ==> exists|k: int|
            0 <= k <= text.len() - needle.len() && #[trigger] text.subrange(k, k + needle.len())
                == needle,
{
}

} // verus!
