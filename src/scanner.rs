//! The project scanner's settings and its rule for names to pass over.
use vstd::prelude::*;

verus! {

pub struct FileNode {
    pub name: String,
    pub path: String,
    pub is_dir: bool,
    pub children: Option<Vec<FileNode>>,
    pub explored: bool,
}

pub struct ProjectTree {
    pub root: String,
    pub tree: FileNode,
    pub total_files: usize,
    pub total_dirs: usize,
}

#[derive(Debug)]
pub enum ScannerError {
    PathNotFound(String),
    NotADirectory(String),
    ReadError(String),
}

pub struct ProjectScanner {
    pub ignore_patterns: Vec<String>,
    pub max_depth: usize,
}

/// A pattern `*.ext` matches names ending in `.ext`; any other pattern
/// matches the name itself.
pub open spec fn pattern_matches(p: Seq<char>, name: Seq<char>) -> bool {
    if p.len() >= 2 && p[0] == '*' && p[1] == '.' {
        let suffix = p.subrange(1, p.len() as int);
        suffix.len() <= name.len() && name.subrange(name.len() - suffix.len(), name.len() as int) == suffix
    } else {
        name == p
    }
}

fn str_eq(a: &str, b: &str) -> (r: bool)
    ensures
        r == (a@ == b@),
{
    let x = String::from_str(a);
    let y = String::from_str(b);
    x == y
}

fn matches_pattern(p: &String, name: &str) -> (r: bool)
    ensures
        r == pattern_matches(p@, name@),
{
    let plen = p.as_str().unicode_len();
    if plen >= 2 && p.as_str().get_char(0) == '*' && p.as_str().get_char(1) == '.' {
        let suffix = p.as_str().substring_char(1, plen);
        let slen = plen - 1;
        let nlen = name.unicode_len();
        if slen > nlen {
            return false;
        }
        let tail = name.substring_char(nlen - slen, nlen);
        str_eq(tail, suffix)
    } else {
        str_eq(name, p.as_str())
    }
}

impl ProjectScanner {
    /// Passes over version-control, build and editor directories, ten levels
    /// deep.
    pub fn new() -> (r: Self)
        ensures
            r.max_depth == 10,
            r.ignore_patterns@.len() == 11,
    {
        let mut ignore_patterns: Vec<String> = Vec::new();
        ignore_patterns.push(String::from_str(".git"));
        ignore_patterns.push(String::from_str("node_modules"));
        ignore_patterns.push(String::from_str("target"));
        ignore_patterns.push(String::from_str(".DS_Store"));
        ignore_patterns.push(String::from_str("dist"));
        ignore_patterns.push(String::from_str("build"));
        ignore_patterns.push(String::from_str("__pycache__"));
        ignore_patterns.push(String::from_str(".venv"));
        ignore_patterns.push(String::from_str("venv"));
        ignore_patterns.push(String::from_str(".idea"));
        ignore_patterns.push(String::from_str(".vscode"));
        ProjectScanner { ignore_patterns, max_depth: 10 }
    }

    pub fn with_ignore_patterns(self, patterns: Vec<String>) -> (r: Self)
        ensures
            r.ignore_patterns == patterns,
            r.max_depth == self.max_depth,
    {
        ProjectScanner { ignore_patterns: patterns, max_depth: self.max_depth }
    }

    pub fn with_max_depth(self, depth: usize) -> (r: Self)
        ensures
            r.max_depth == depth,
            r.ignore_patterns == self.ignore_patterns,
    {
        ProjectScanner { ignore_patterns: self.ignore_patterns, max_depth: depth }
    }

    /// Whether some pattern matches the name.
    pub fn should_ignore(&self, name: &str) -> (r: bool)
        ensures
            r == exists|i: int| 0 <= i < self.ignore_patterns@.len() && pattern_matches(#[trigger] self.ignore_patterns@[i]@, name@),
    {
        let mut i: usize = 0;
        while i < self.ignore_patterns.len()
            invariant
                i <= self.ignore_patterns@.len(),
                forall|j: int| 0 <= j < i ==> !pattern_matches(#[trigger] self.ignore_patterns@[j]@, name@),
            decreases self.ignore_patterns@.len() - i,
        {
            if matches_pattern(&self.ignore_patterns[i], name) {
                return true;
            }
            i = i + 1;
        }
        false
    }
}

} // verus!
