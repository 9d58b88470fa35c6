//! Paths as text: how directories and file names are put together, and where
//! an environment keeps its executables under each of the two layouts.

use crate::text::{from_chars, to_chars};
use vstd::prelude::*;
use vstd::string::StringExecFns;

verus! {

/// The two directory layouts an environment can have.
#[derive(Debug, Clone, Copy, PartialEq, Eq, Structural)]
pub enum Layout {
    /// Executables under `bin/`, components separated by `/`.
    Posix,
    /// Executables under `Scripts\`, components separated by `\` (or `/`).
    Windows,
}

/// Whether `c` separates path components under `layout`.
pub open spec fn is_separator(c: char, layout: Layout) -> bool {
    c == '/' || (layout == Layout::Windows && c == '\\')
}

/// The separator written between components under `layout`.
pub open spec fn separator(layout: Layout) -> char {
    match layout {
        Layout::Posix => '/',
        Layout::Windows => '\\',
    }
}

/// `name` placed inside directory `base`: a separator is written between the
/// two unless `base` is empty or already ends in one.
pub open spec fn joined(base: Seq<char>, name: Seq<char>, layout: Layout) -> Seq<char> {
    if base.len() == 0 || is_separator(base.last(), layout) {
        base + name
    } else {
        base.push(separator(layout)) + name
    }
}

/// `p` without the separators it ends in.
pub open spec fn without_trailing_separators(p: Seq<char>, layout: Layout) -> Seq<char>
    decreases p.len(),
{
    if p.len() > 0 && is_separator(p.last(), layout) {
        without_trailing_separators(p.drop_last(), layout)
    } else {
        p
    }
}

/// The characters of `p` after its last separator.
pub open spec fn last_segment(p: Seq<char>, layout: Layout) -> Seq<char>
    decreases p.len(),
{
    if p.len() == 0 || is_separator(p.last(), layout) {
        Seq::empty()
    } else {
        last_segment(p.drop_last(), layout).push(p.last())
    }
}

/// The name of the file or directory that `p` ends in: its last component,
/// trailing separators ignored. A path that ends in nothing, in `.` or in
/// `..` names no file.
pub open spec fn file_name_text(p: Seq<char>, layout: Layout) -> Option<Seq<char>> {
    let segment = last_segment(without_trailing_separators(p, layout), layout);
    if segment.len() == 0 || segment == seq!['.'] || segment == seq!['.', '.'] {
        None
    } else {
        Some(segment)
    }
}

/// The directory that holds an environment's executables.
pub open spec fn bin_dir_text(layout: Layout) -> Seq<char> {
    match layout {
        Layout::Posix => "bin"@,
        Layout::Windows => "Scripts"@,
    }
}

/// File name of the interpreter executable.
pub open spec fn interpreter_file_text(layout: Layout) -> Seq<char> {
    match layout {
        Layout::Posix => "python"@,
        Layout::Windows => "python.exe"@,
    }
}

/// File name of the activation script.
pub open spec fn activation_file_text(layout: Layout) -> Seq<char> {
    match layout {
        Layout::Posix => "activate"@,
        Layout::Windows => "activate.bat"@,
    }
}

/// File name of the package manager executable.
pub open spec fn pip_file_text(layout: Layout) -> Seq<char> {
    match layout {
        Layout::Posix => "pip"@,
        Layout::Windows => "pip.exe"@,
    }
}

/// File name of the package manager's second install name.
pub open spec fn pip3_file_text(layout: Layout) -> Seq<char> {
    match layout {
        Layout::Posix => "pip3"@,
        Layout::Windows => "pip3.exe"@,
    }
}

/// Path of a file inside the executables directory of environment `dir`.
pub open spec fn in_bin_dir(dir: Seq<char>, file: Seq<char>, layout: Layout) -> Seq<char> {
    joined(joined(dir, bin_dir_text(layout), layout), file, layout)
}

/// Where environment `dir` keeps its interpreter.
pub open spec fn interpreter_path_text(dir: Seq<char>, layout: Layout) -> Seq<char> {
    in_bin_dir(dir, interpreter_file_text(layout), layout)
}

/// Where environment `dir` keeps its activation script.
pub open spec fn activation_path_text(dir: Seq<char>, layout: Layout) -> Seq<char> {
    in_bin_dir(dir, activation_file_text(layout), layout)
}

/// The interpreter that runs the package manager as a module: the one in the
/// executables directory under the POSIX layout, the one at the root of the
/// environment under the Windows layout.
pub open spec fn module_interpreter_path_text(dir: Seq<char>, layout: Layout) -> Seq<char> {
    match layout {
        Layout::Posix => in_bin_dir(dir, interpreter_file_text(layout), layout),
        Layout::Windows => joined(dir, interpreter_file_text(layout), layout),
    }
}

impl Layout {
    /// The separator written between components.
    pub fn separator(&self) -> (r: char)
        ensures
            r == separator(*self),
    {
        match self {
            Layout::Posix => '/',
            Layout::Windows => '\\',
        }
    }

    /// Whether `c` separates components.
    pub fn is_separator(&self, c: char) -> (r: bool)
        ensures
            r == is_separator(c, *self),
    {
        match self {
            Layout::Posix => c == '/',
            Layout::Windows => c == '/' || c == '\\',
        }
    }

    /// Name of the executables directory.
    pub fn bin_dir(&self) -> (r: &'static str)
        ensures
            r@ == bin_dir_text(*self),
    {
        match self {
            Layout::Posix => "bin",
            Layout::Windows => "Scripts",
        }
    }

    /// File name of the interpreter executable.
    pub fn interpreter_file(&self) -> (r: &'static str)
        ensures
            r@ == interpreter_file_text(*self),
    {
        match self {
            Layout::Posix => "python",
            Layout::Windows => "python.exe",
        }
    }

    /// File name of the activation script.
    pub fn activation_file(&self) -> (r: &'static str)
        ensures
            r@ == activation_file_text(*self),
    {
        match self {
            Layout::Posix => "activate",
            Layout::Windows => "activate.bat",
        }
    }

    /// File name of the package manager executable.
    pub fn pip_file(&self) -> (r: &'static str)
        ensures
            r@ == pip_file_text(*self),
    {
        match self {
            Layout::Posix => "pip",
            Layout::Windows => "pip.exe",
        }
    }

    /// File name of the package manager's second install name.
    pub fn pip3_file(&self) -> (r: &'static str)
        ensures
            r@ == pip3_file_text(*self),
    {
        match self {
            Layout::Posix => "pip3",
            Layout::Windows => "pip3.exe",
        }
    }
}

/// The path of `name` inside directory `base`.
pub fn join(base: &str, name: &str, layout: Layout) -> (r: String)
    ensures
        r@ == joined(base@, name@, layout),
{
    let chars = to_chars(base);
    let mut out = base.to_owned();
    if chars.len() > 0 && !layout.is_separator(chars[chars.len() - 1]) {
        out.push(layout.separator());
    }
    out.append(name);
    out
}

/// The path of `file` inside the executables directory of environment `dir`.
pub fn bin_path(dir: &str, file: &str, layout: Layout) -> (r: String)
    ensures
        r@ == in_bin_dir(dir@, file@, layout),
{
    let bin = join(dir, layout.bin_dir(), layout);
    join(bin.as_str(), file, layout)
}

/// Where environment `dir` keeps its interpreter.
pub fn interpreter_path(dir: &str, layout: Layout) -> (r: String)
    ensures
        r@ == interpreter_path_text(dir@, layout),
{
    bin_path(dir, layout.interpreter_file(), layout)
}

/// Where environment `dir` keeps its activation script.
pub fn activation_path(dir: &str, layout: Layout) -> (r: String)
    ensures
        r@ == activation_path_text(dir@, layout),
{
    bin_path(dir, layout.activation_file(), layout)
}

/// The interpreter used to run the package manager as a module.
pub fn module_interpreter_path(dir: &str, layout: Layout) -> (r: String)
    ensures
        r@ == module_interpreter_path_text(dir@, layout),
{
    match layout {
        Layout::Posix => bin_path(dir, layout.interpreter_file(), layout),
        Layout::Windows => join(dir, layout.interpreter_file(), layout),
    }
}

proof fn lemma_strip_step(p: Seq<char>, j: int, layout: Layout)
    requires
        0 < j <= p.len(),
        is_separator(p[j - 1], layout),
    ensures
        without_trailing_separators(p.subrange(0, j), layout) == without_trailing_separators(
            p.subrange(0, j - 1),
            layout,
        ),
{
    let t = p.subrange(0, j);
    assert(t.last() == p[j - 1]);
    assert(t.drop_last() == p.subrange(0, j - 1));
}

proof fn lemma_segment_step(p: Seq<char>, i: int, j: int, layout: Layout)
    requires
        0 < i <= j <= p.len(),
        !is_separator(p[i - 1], layout),
        last_segment(p.subrange(0, j), layout) == last_segment(p.subrange(0, i), layout)
            + p.subrange(i, j),
    ensures
        last_segment(p.subrange(0, j), layout) == last_segment(p.subrange(0, i - 1), layout)
            + p.subrange(i - 1, j),
{
    let t = p.subrange(0, i);
    assert(t.last() == p[i - 1]);
    assert(t.drop_last() == p.subrange(0, i - 1));
    assert(last_segment(t, layout) == last_segment(p.subrange(0, i - 1), layout).push(p[i - 1]));
    assert(last_segment(p.subrange(0, i - 1), layout).push(p[i - 1]) + p.subrange(i, j)
        == last_segment(p.subrange(0, i - 1), layout) + p.subrange(i - 1, j));
}

/// The name of the file or directory that `path` ends in, if it names one.
pub fn file_name(path: &str, layout: Layout) -> (r: Option<String>)
    ensures
        r.deep_view() == file_name_text(path@, layout),
{
    let c = to_chars(path);
    let n = c.len();
    let mut j: usize = n;
    assert(c@ == c@.subrange(0, n as int));
    while j > 0 && layout.is_separator(c[j - 1])
        invariant
            n == c.len(),
            j <= n,
            without_trailing_separators(c@, layout) == without_trailing_separators(
                c@.subrange(0, j as int),
                layout,
            ),
        decreases j,
    {
        proof {
            lemma_strip_step(c@, j as int, layout);
        }
        j = j - 1;
    }
    let ghost stem = c@.subrange(0, j as int);
    assert(without_trailing_separators(c@, layout) == stem) by {
        if j > 0 {
            assert(stem.last() == c@[j - 1]);
        }
    }
    let mut i: usize = j;
    assert(c@.subrange(j as int, j as int) == Seq::<char>::empty());
    assert(last_segment(stem, layout) + Seq::<char>::empty() == last_segment(stem, layout));
    while i > 0 && !layout.is_separator(c[i - 1])
        invariant
            n == c.len(),
            i <= j <= n,
            stem == c@.subrange(0, j as int),
            last_segment(stem, layout) == last_segment(c@.subrange(0, i as int), layout)
                + c@.subrange(i as int, j as int),
        decreases i,
    {
        proof {
            lemma_segment_step(c@, i as int, j as int, layout);
        }
        i = i - 1;
    }
    assert(last_segment(stem, layout) == c@.subrange(i as int, j as int)) by {
        let t = c@.subrange(0, i as int);
        if i > 0 {
            assert(t.last() == c@[i - 1]);
        }
        assert(last_segment(t, layout) == Seq::<char>::empty());
        assert(Seq::<char>::empty() + c@.subrange(i as int, j as int) == c@.subrange(
            i as int,
            j as int,
        ));
    }
    let ghost segment = c@.subrange(i as int, j as int);
    if j == i {
        return None;
    }
    if j - i == 1 && c[i] == '.' {
        assert(segment == seq!['.']);
        return None;
    }
    if j - i == 2 && c[i] == '.' && c[i + 1] == '.' {
        assert(segment == seq!['.', '.']);
        return None;
    }
    assert(segment != seq!['.']) by {
        if segment == seq!['.'] {
            assert(segment.len() == 1);
            assert(segment[0] == '.');
        }
    }
    assert(segment != seq!['.', '.']) by {
        if segment == seq!['.', '.'] {
            assert(segment.len() == 2);
            assert(segment[0] == '.');
            assert(segment[1] == '.');
        }
    }
    Some(from_chars(&c, i, j))
}

} // verus!
