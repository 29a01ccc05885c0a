//! File extensions, as lookup keys for syntaxes.
use vstd::prelude::*;

verus! {

/// A file extension without its leading dot, such as `ttl`.
///
/// It is a plain token: two extensions are equal when their characters are.
#[derive(Debug, Clone, Eq, Hash)]
pub struct FileExtension(pub String);

impl View for FileExtension {
    type V = Seq<char>;

    open spec fn view(&self) -> Seq<char> {
        self.0@
    }
}

impl PartialEq for FileExtension {
    fn eq(&self, other: &FileExtension) -> (r: bool) {
        self.0 == other.0
    }
}

impl vstd::std_specs::cmp::PartialEqSpecImpl for FileExtension {
    open spec fn obeys_eq_spec() -> bool {
        true
    }

    open spec fn eq_spec(&self, other: &FileExtension) -> bool {
        self@ == other@
    }
}

/// `s[..end]` without its trailing separators: the end index that is left.
pub open spec fn trim_separators(s: Seq<char>, end: int) -> int
    decreases end,
{
    if end > 0 && s[end - 1] == '/' {
        trim_separators(s, end - 1)
    } else {
        end
    }
}

/// Start index of the last run of non-separator characters of `s[..end]`.
pub open spec fn component_start(s: Seq<char>, end: int) -> int
    decreases end,
{
    if end > 0 && s[end - 1] != '/' {
        component_start(s, end - 1)
    } else {
        end
    }
}

pub proof fn lemma_trim_separators_bounds(s: Seq<char>, end: int)
    requires
        0 <= end <= s.len(),
    ensures
        0 <= trim_separators(s, end) <= end,
        trim_separators(s, end) > 0 ==> s[trim_separators(s, end) - 1] != '/',
    decreases end,
{
    if end > 0 && s[end - 1] == '/' {
        lemma_trim_separators_bounds(s, end - 1);
    }
}

pub proof fn lemma_component_start_bounds(s: Seq<char>, end: int)
    requires
        0 <= end <= s.len(),
    ensures
        0 <= component_start(s, end) <= end,
        end > 0 && s[end - 1] != '/' ==> component_start(s, end) < end,
    decreases end,
{
    if end > 0 && s[end - 1] != '/' {
        lemma_component_start_bounds(s, end - 1);
    }
}

/// The index range of the file name of the path `s[..end]`: its last
/// component once trailing separators are dropped, where a `.` component
/// other than a leading one stands for the directory before it. There is none
/// when only separators or a leading `.` are left.
pub open spec fn last_component(s: Seq<char>, end: int) -> Option<(int, int)>
    decreases end,
{
    if 0 <= end <= s.len() {
        let e = trim_separators(s, end);
        let b = component_start(s, e);
        proof {
            lemma_trim_separators_bounds(s, end);
            lemma_component_start_bounds(s, e);
        }
        if e <= 0 {
            None
        } else if e - b == 1 && s[b] == '.' {
            if b == 0 {
                None
            } else {
                last_component(s, b)
            }
        } else {
            Some((b, e))
        }
    } else {
        None
    }
}

/// The index of the last `.` of `s[b..i]`, or `b - 1` if there is none.
pub open spec fn last_dot(s: Seq<char>, b: int, i: int) -> int
    decreases i - b,
{
    if i <= b {
        b - 1
    } else if s[i - 1] == '.' {
        i - 1
    } else {
        last_dot(s, b, i - 1)
    }
}

/// The extension of the file name `s[b..e]`: what follows its last `.`, where
/// that dot is not its first character. The name `..` has none.
pub open spec fn name_extension(s: Seq<char>, b: int, e: int) -> Option<Seq<char>> {
    let j = last_dot(s, b, e);
    if s.subrange(b, e) == seq!['.', '.'] || j <= b {
        None
    } else {
        Some(s.subrange(j + 1, e))
    }
}

/// The extension of the file named by the `/`-separated path `s`, if it has one.
pub open spec fn path_extension(s: Seq<char>) -> Option<Seq<char>> {
    match last_component(s, s.len() as int) {
        Some(range) => name_extension(s, range.0, range.1),
        None => None,
    }
}

impl FileExtension {
    /// An extension made of the given characters.
    pub fn new(s: &str) -> (r: FileExtension)
        ensures
            r@ == s@,
    {
        FileExtension(String::from_str(s))
    }

    /// The characters of this extension.
    pub fn as_str(&self) -> (r: &str)
        ensures
            r@ == self@,
    {
        self.0.as_str()
    }

    /// The characters of this extension, as an owned string.
    pub fn to_string(&self) -> (r: String)
        ensures
            r@ == self@,
    {
        self.0.clone()
    }

    /// The extension of the file that a `/`-separated path names, if any.
    ///
    /// The file name is the last component of the path; trailing separators
    /// and `.` components are skipped, and a path ending in `..` names no file.
    /// The extension is what follows the last `.` of the file name, unless that
    /// dot begins the name.
    pub fn from_path_str(path_str: &str) -> (r: Option<FileExtension>)
        ensures
            match r {
                Some(e) => path_extension(path_str@) == Some(e@),
                None => path_extension(path_str@) is None,
            },
    {
        let ghost s = path_str@;
        let n = path_str.unicode_len();
        let mut end: usize = n;
        loop
            invariant
                n == s.len(),
                s == path_str@,
                0 <= end <= n,
                last_component(s, end as int) == last_component(s, n as int),
            decreases end,
        {
            let mut e: usize = end;
            while e > 0 && path_str.get_char(e - 1) == '/'
                invariant
                    s == path_str@,
                    n == s.len(),
                    0 <= e <= end <= n,
                    trim_separators(s, e as int) == trim_separators(s, end as int),
                decreases e,
            {
                e = e - 1;
            }
            proof {
                lemma_trim_separators_bounds(s, end as int);
            }
            if e == 0 {
                return None;
            }
            let mut b: usize = e;
            while b > 0 && path_str.get_char(b - 1) != '/'
                invariant
                    s == path_str@,
                    n == s.len(),
                    0 <= b <= e <= end <= n,
                    component_start(s, b as int) == component_start(s, e as int),
                decreases b,
            {
                b = b - 1;
            }
            proof {
                lemma_component_start_bounds(s, e as int);
            }
            if e - b == 1 && path_str.get_char(b) == '.' {
                if b == 0 {
                    return None;
                }
                end = b;
            } else {
                return Self::from_file_name(path_str, b, e);
            }
        }
    }

    /// The extension of the file name `path_str[b..e]`.
    fn from_file_name(path_str: &str, b: usize, e: usize) -> (r: Option<FileExtension>)
        requires
            b < e <= path_str@.len(),
        ensures
            match r {
                Some(x) => name_extension(path_str@, b as int, e as int) == Some(x@),
                None => name_extension(path_str@, b as int, e as int) is None,
            },
    {
        let ghost s = path_str@;
        if e - b == 2 && path_str.get_char(b) == '.' && path_str.get_char(b + 1) == '.' {
            assert(s.subrange(b as int, e as int) =~= seq!['.', '.']);
            return None;
        }
        assert(s.subrange(b as int, e as int) != seq!['.', '.']) by {
            let dots = seq!['.', '.'];
            assert(dots.len() == 2 && dots[0] == '.' && dots[1] == '.');
            if s.subrange(b as int, e as int) == dots {
                assert(s.subrange(b as int, e as int)[0] == s[b as int]);
                assert(s.subrange(b as int, e as int)[1] == s[b + 1]);
            }
        }
        let mut i: usize = e;
        while i > b && path_str.get_char(i - 1) != '.'
            invariant
                s == path_str@,
                b <= i <= e <= s.len(),
                last_dot(s, b as int, i as int) == last_dot(s, b as int, e as int),
            decreases i,
        {
            i = i - 1;
        }
        if i <= b + 1 {
            None
        } else {
            let ext = path_str.substring_char(i, e);
            Some(FileExtension(String::from_str(ext)))
        }
    }
}

/// The extension `turtle`.
pub fn turtle() -> (r: FileExtension)
    ensures
        r@ == "turtle"@,
{
    FileExtension::new("turtle")
}

/// The extension `ttl`.
pub fn ttl() -> (r: FileExtension)
    ensures
        r@ == "ttl"@,
{
    FileExtension::new("ttl")
}

/// The extension `nt`.
pub fn nt() -> (r: FileExtension)
    ensures
        r@ == "nt"@,
{
    FileExtension::new("nt")
}

/// The extension `ntriples`.
pub fn ntriples() -> (r: FileExtension)
    ensures
        r@ == "ntriples"@,
{
    FileExtension::new("ntriples")
}

/// The extension `nq`.
pub fn nq() -> (r: FileExtension)
    ensures
        r@ == "nq"@,
{
    FileExtension::new("nq")
}

/// The extension `nquads`.
pub fn nquads() -> (r: FileExtension)
    ensures
        r@ == "nquads"@,
{
    FileExtension::new("nquads")
}

/// The extension `rdf`.
pub fn rdf() -> (r: FileExtension)
    ensures
        r@ == "rdf"@,
{
    FileExtension::new("rdf")
}

/// The extension `rdfxml`.
pub fn rdfxml() -> (r: FileExtension)
    ensures
        r@ == "rdfxml"@,
{
    FileExtension::new("rdfxml")
}

/// The extension `omn`.
pub fn omn() -> (r: FileExtension)
    ensures
        r@ == "omn"@,
{
    FileExtension::new("omn")
}

/// The extension `owl`.
pub fn owl() -> (r: FileExtension)
    ensures
        r@ == "owl"@,
{
    FileExtension::new("owl")
}

/// The extension `owx`.
pub fn owx() -> (r: FileExtension)
    ensures
        r@ == "owx"@,
{
    FileExtension::new("owx")
}

/// The extension `n3`.
pub fn n3() -> (r: FileExtension)
    ensures
        r@ == "n3"@,
{
    FileExtension::new("n3")
}

/// The extension `trig`.
pub fn trig() -> (r: FileExtension)
    ensures
        r@ == "trig"@,
{
    FileExtension::new("trig")
}

/// The extension `jsonld`.
pub fn jsonld() -> (r: FileExtension)
    ensures
        r@ == "jsonld"@,
{
    FileExtension::new("jsonld")
}

/// The extension `json`.
pub fn json() -> (r: FileExtension)
    ensures
        r@ == "json"@,
{
    FileExtension::new("json")
}

/// The extension `xhtml`.
pub fn xhtml() -> (r: FileExtension)
    ensures
        r@ == "xhtml"@,
{
    FileExtension::new("xhtml")
}

/// The extension `html`.
pub fn html() -> (r: FileExtension)
    ensures
        r@ == "html"@,
{
    FileExtension::new("html")
}

} // verus!
