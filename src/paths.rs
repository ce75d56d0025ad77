use vstd::prelude::*;
use vstd::string::*;

verus! {

/// A filesystem path held as its components: whether it starts at the root,
/// then the text of each component in order ("." and ".." included, no
/// separators).
#[derive(Debug)]
pub struct FsPath {
    pub absolute: bool,
    pub parts: Vec<String>,
}

/// The value of a path: root flag and component texts.
pub struct PathView {
    pub absolute: bool,
    pub parts: Seq<Seq<char>>,
}

pub open spec fn texts(v: Seq<String>) -> Seq<Seq<char>> {
    v.map_values(|s: String| s@)
}

pub open spec fn opt_text(o: Option<String>) -> Option<Seq<char>> {
    match o {
        Some(s) => Some(s@),
        None => None,
    }
}

impl View for FsPath {
    type V = PathView;

    open spec fn view(&self) -> PathView {
        PathView { absolute: self.absolute, parts: texts(self.parts@) }
    }
}

pub open spec fn dot() -> Seq<char> {
    seq!['.']
}

pub open spec fn dot_dot() -> Seq<char> {
    seq!['.', '.']
}

/// Index of the last '.' in `s`, or -1 when there is none.
pub open spec fn last_dot(s: Seq<char>) -> int
    decreases s.len(),
{
    if s.len() == 0 {
        -1
    } else if s.last() == '.' {
        s.len() - 1
    } else {
        last_dot(s.drop_last())
    }
}

/// The last '.' lies inside the text.
pub proof fn lemma_last_dot_bounds(s: Seq<char>)
    ensures
        -1 <= last_dot(s) < s.len(),
        last_dot(s) >= 0 ==> s[last_dot(s)] == '.',
    decreases s.len(),
{
    if s.len() > 0 && s.last() != '.' {
        lemma_last_dot_bounds(s.drop_last());
    }
}

/// The last component, unless the path is empty or ends in "." or "..".
pub open spec fn file_name_of(p: PathView) -> Option<Seq<char>> {
    if p.parts.len() == 0 {
        None
    } else if p.parts.last() == dot() || p.parts.last() == dot_dot() {
        None
    } else {
        Some(p.parts.last())
    }
}

/// What follows the last '.' of a file name, when that '.' is not its first
/// character.
pub open spec fn extension_of_name(n: Seq<char>) -> Option<Seq<char>> {
    if last_dot(n) > 0 {
        Some(n.subrange(last_dot(n) + 1, n.len() as int))
    } else {
        None
    }
}

/// A file name without its extension.
pub open spec fn stem_of_name(n: Seq<char>) -> Seq<char> {
    if last_dot(n) > 0 {
        n.subrange(0, last_dot(n))
    } else {
        n
    }
}

pub open spec fn extension_of(p: PathView) -> Option<Seq<char>> {
    match file_name_of(p) {
        Some(n) => extension_of_name(n),
        None => None,
    }
}

/// `p` relative to `root`, when `root` is a leading part of `p`.
pub open spec fn strip_prefix_of(p: PathView, root: PathView) -> Option<PathView> {
    if p.absolute == root.absolute && root.parts.len() <= p.parts.len()
        && p.parts.subrange(0, root.parts.len() as int) == root.parts {
        Some(PathView { absolute: false, parts: p.parts.subrange(root.parts.len() as int, p.parts.len() as int) })
    } else {
        None
    }
}

/// `rel` appended to `base`; an absolute `rel` replaces `base`.
pub open spec fn join_of(base: PathView, rel: PathView) -> PathView {
    if rel.absolute {
        rel
    } else {
        PathView { absolute: base.absolute, parts: base.parts + rel.parts }
    }
}

/// A file name with its extension replaced by `ext` (removed if `ext` is empty).
pub open spec fn renamed(n: Seq<char>, ext: Seq<char>) -> Seq<char> {
    if ext.len() == 0 {
        stem_of_name(n)
    } else {
        stem_of_name(n) + dot() + ext
    }
}

/// `p` with the extension of its file name replaced; unchanged without a file name.
pub open spec fn with_extension_of(p: PathView, ext: Seq<char>) -> PathView {
    match file_name_of(p) {
        Some(n) => PathView { absolute: p.absolute, parts: p.parts.drop_last().push(renamed(n, ext)) },
        None => p,
    }
}

/// `p` without its last component; none for an empty path or the root.
pub open spec fn parent_of(p: PathView) -> Option<PathView> {
    if p.parts.len() == 0 {
        None
    } else {
        Some(PathView { absolute: p.absolute, parts: p.parts.drop_last() })
    }
}

/// Whether two texts hold the same characters.
pub fn same_text(a: &str, b: &str) -> (r: bool)
    ensures
        r == (a@ == b@),
{
    let n = a.unicode_len();
    if n != b.unicode_len() {
        return false;
    }
    let mut i: usize = 0;
    while i < n
        invariant
            i <= n,
            n == a@.len(),
            n == b@.len(),
            forall|j: int| 0 <= j < i ==> a@[j] == b@[j],
        decreases n - i,
    {
        if a.get_char(i) != b.get_char(i) {
            return false;
        }
        i = i + 1;
    }
    assert(a@ =~= b@);
    true
}

/// Position of the last '.' in `s`.
pub fn last_dot_index(s: &str) -> (r: Option<usize>)
    ensures
        match r {
            Some(i) => last_dot(s@) == i as int,
            None => last_dot(s@) == -1,
        },
{
    let n = s.unicode_len();
    let mut i: usize = n;
    assert(s@.subrange(0, n as int) =~= s@);
    while i > 0
        invariant
            i <= n,
            n == s@.len(),
            last_dot(s@) == last_dot(s@.subrange(0, i as int)),
        decreases i,
    {
        let ghost pre = s@.subrange(0, i as int);
        assert(pre.last() == s@[i - 1]);
        assert(pre.drop_last() =~= s@.subrange(0, i - 1));
        if s.get_char(i - 1) == '.' {
            return Some(i - 1);
        }
        i = i - 1;
    }
    None
}

/// Appends to `out` the texts of `src` from index `from` on.
fn append_parts(out: &mut Vec<String>, src: &Vec<String>, from: usize)
    requires
        from <= src@.len(),
    ensures
        texts(final(out)@) == texts(old(out)@) + texts(src@).subrange(from as int, src@.len() as int),
{
    let ghost start = texts(out@);
    let mut i: usize = from;
    while i < src.len()
        invariant
            from <= i <= src@.len(),
            texts(out@) == start + texts(src@).subrange(from as int, i as int),
        decreases src@.len() - i,
    {
        let t = src[i].clone();
        let ghost before = out@;
        out.push(t);
        assert(out@ =~= before.push(src@[i as int]));
        assert(texts(out@) =~= texts(before).push(src@[i as int]@));
        assert(texts(src@).subrange(from as int, i + 1) =~= texts(src@).subrange(from as int, i as int).push(src@[i as int]@));
        assert(texts(out@) =~= start + texts(src@).subrange(from as int, i + 1));
        i = i + 1;
    }
}

impl FsPath {
    pub fn new(absolute: bool, parts: Vec<String>) -> (r: FsPath)
        ensures
            r.absolute == absolute,
            r.parts@ == parts@,
    {
        FsPath { absolute, parts }
    }

    /// A copy of this path.
    pub fn duplicate(&self) -> (r: FsPath)
        ensures
            r@ == self@,
    {
        let mut parts: Vec<String> = Vec::new();
        append_parts(&mut parts, &self.parts, 0);
        assert(texts(parts@) =~= texts(self.parts@));
        FsPath { absolute: self.absolute, parts }
    }
    /// The last component, unless the path is empty or ends in "." or "..".
    pub fn file_name(&self) -> (r: Option<String>)
        ensures
            opt_text(r) == file_name_of(self@),
    {
        let n = self.parts.len();
        if n == 0 {
            return None;
        }
        let last = &self.parts[n - 1];
        proof {
            reveal_strlit(".");
            reveal_strlit("..");
            assert(".."@ =~= dot_dot());
            assert("."@ =~= dot());
        }
        if same_text(last.as_str(), ".") || same_text(last.as_str(), "..") {
            None
        } else {
            Some(last.clone())
        }
    }

    /// The extension of the file name: what follows its last '.', when that
    /// '.' is not its first character.
    pub fn extension(&self) -> (r: Option<String>)
        ensures
            opt_text(r) == extension_of(self@),
    {
        match self.file_name() {
            None => None,
            Some(name) => {
                let text = name.as_str();
                proof {
                    lemma_last_dot_bounds(text@);
                }
                match last_dot_index(text) {
                    Some(d) => {
                        if d > 0 {
                            let n = text.unicode_len();
                            Some(String::from_str(text.substring_char(d + 1, n)))
                        } else {
                            None
                        }
                    },
                    None => None,
                }
            },
        }
    }

    /// This path relative to `root`, when `root` is a leading part of it.
    pub fn strip_prefix(&self, root: &FsPath) -> (r: Option<FsPath>)
        ensures
            match r {
                Some(rel) => strip_prefix_of(self@, root@) == Some(rel@),
                None => strip_prefix_of(self@, root@) is None,
            },
    {
        let m = root.parts.len();
        let n = self.parts.len();
        if self.absolute != root.absolute || m > n {
            return None;
        }
        let mut i: usize = 0;
        while i < m
            invariant
                i <= m <= n,
                m == root.parts@.len(),
                n == self.parts@.len(),
                forall|j: int| 0 <= j < i ==> self@.parts[j] == root@.parts[j],
            decreases m - i,
        {
            if !same_text(self.parts[i].as_str(), root.parts[i].as_str()) {
                assert(self@.parts.subrange(0, m as int)[i as int] != root@.parts[i as int]);
                return None;
            }
            i = i + 1;
        }
        assert(self@.parts.subrange(0, m as int) =~= root@.parts);
        let mut parts: Vec<String> = Vec::new();
        append_parts(&mut parts, &self.parts, m);
        assert(texts(parts@) =~= self@.parts.subrange(m as int, n as int));
        Some(FsPath { absolute: false, parts })
    }

    /// `rel` appended to this path; an absolute `rel` replaces it.
    pub fn join(&self, rel: &FsPath) -> (r: FsPath)
        ensures
            r@ == join_of(self@, rel@),
    {
        if rel.absolute {
            return rel.duplicate();
        }
        let mut parts: Vec<String> = Vec::new();
        append_parts(&mut parts, &self.parts, 0);
        append_parts(&mut parts, &rel.parts, 0);
        assert(texts(parts@) =~= self@.parts + rel@.parts);
        FsPath { absolute: self.absolute, parts }
    }

    /// This path with the extension of its file name replaced by `ext`
    /// (removed when `ext` is empty); unchanged when there is no file name.
    pub fn with_extension(&self, ext: &str) -> (r: FsPath)
        ensures
            r@ == with_extension_of(self@, ext@),
    {
        match self.file_name() {
            None => self.duplicate(),
            Some(name) => {
                let text = name.as_str();
                let n = text.unicode_len();
                proof {
                    lemma_last_dot_bounds(text@);
                }
                let stem_len = match last_dot_index(text) {
                    Some(d) => if d > 0 { d } else { n },
                    None => n,
                };
                let mut renamed_text = String::from_str(text.substring_char(0, stem_len));
                assert(renamed_text@ =~= stem_of_name(name@));
                if ext.unicode_len() > 0 {
                    proof {
                        reveal_strlit(".");
                        assert("."@ =~= dot());
                    }
                    renamed_text.append(".");
                    renamed_text.append(ext);
                }
                let mut parts: Vec<String> = Vec::new();
                append_parts(&mut parts, &self.parts, 0);
                parts.pop();
                assert(texts(parts@) =~= self@.parts.drop_last());
                let ghost kept = parts@;
                parts.push(renamed_text);
                assert(parts@ =~= kept.push(renamed_text));
                assert(texts(parts@) =~= self@.parts.drop_last().push(renamed(name@, ext@)));
                FsPath { absolute: self.absolute, parts }
            },
        }
    }

    /// This path without its last component; none for an empty path or the root.
    pub fn parent(&self) -> (r: Option<FsPath>)
        ensures
            match r {
                Some(q) => parent_of(self@) == Some(q@),
                None => parent_of(self@) is None,
            },
    {
        let n = self.parts.len();
        if n == 0 {
            return None;
        }
        let mut parts: Vec<String> = Vec::new();
        append_parts(&mut parts, &self.parts, 0);
        parts.pop();
        assert(texts(parts@) =~= self@.parts.drop_last());
        Some(FsPath { absolute: self.absolute, parts })
    }
}

} // verus!
