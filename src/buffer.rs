//! Lookup of loaded buffers by file path, and of their lines.

use vstd::prelude::*;
use crate::path::{is_absolute, is_absolute_path};

verus! {

/// What the editor reports of one buffer: whether it is loaded, its file
/// name (`None` when that query failed) and its lines (`None` when they
/// could not be read).
pub struct BufferInfo {
    pub loaded: bool,
    pub name: Option<String>,
    pub lines: Option<Vec<String>>,
}

/// Whether two path texts name the same path as std's `Path` compares
/// them, component by component (so `/a//b` and `/a/b/` are `/a/b`).
pub uninterp spec fn same_path(a: Seq<char>, b: Seq<char>) -> bool;

/// Relies on std's `PartialEq` for `Path`, which compares the paths'
/// components; being `Eq`, it holds of equal texts.
#[verifier::external_body]
fn paths_equal(a: &str, b: &str) -> (r: bool)
    ensures
        r == same_path(a@, b@),
        a@ == b@ ==> r,
{
    std::path::Path::new(a) == std::path::Path::new(b)
}

/// Whether buffer `b` is loaded and named `path`.
pub open spec fn holds_path(b: BufferInfo, path: Seq<char>) -> bool {
    b.loaded && b.name is Some && same_path(b.name->Some_0@, path)
}

/// The text of line `n` of the first loaded buffer named `path`, or the
/// empty text when there is no such buffer or line.
pub open spec fn line_content(bufs: Seq<BufferInfo>, path: Seq<char>, n: int) -> Seq<char> {
    if exists|i: int| 0 <= i < bufs.len() && holds_path(#[trigger] bufs[i], path) {
        let i = choose|i: int|
            0 <= i < bufs.len() && holds_path(#[trigger] bufs[i], path) && forall|j: int|
                0 <= j < i ==> !holds_path(#[trigger] bufs[j], path);
        let b = bufs[i];
        if b.lines is Some && 0 <= n < b.lines->Some_0@.len() {
            b.lines->Some_0@[n]@
        } else {
            Seq::empty()
        }
    } else {
        Seq::empty()
    }
}

/// The index of the first loaded buffer named `path`, if any. Names are
/// compared as paths, not as text.
pub fn find_by_path(bufs: &Vec<BufferInfo>, path: &str) -> (r: Option<usize>)
    ensures
        r matches Some(i) ==> i < bufs@.len() && holds_path(bufs@[i as int], path@) && forall|
            j: int,
        |
            0 <= j < i ==> !holds_path(#[trigger] bufs@[j], path@),
        r is None ==> forall|j: int| 0 <= j < bufs@.len() ==> !holds_path(#[trigger] bufs@[j], path@),
{
    let mut i: usize = 0;
    while i < bufs.len()
        invariant
            i <= bufs.len(),
            forall|j: int| 0 <= j < i ==> !holds_path(#[trigger] bufs@[j], path@),
        decreases bufs.len() - i,
    {
        let b = &bufs[i];
        if b.loaded {
            if let Some(name) = &b.name {
                if paths_equal(name.as_str(), path) {
                    return Some(i);
                }
            }
        }
        i = i + 1;
    }
    None
}

/// The content of line `line_num` (zero-based) of the buffer that holds
/// `path`, or the empty string when no loaded buffer holds it or the line
/// does not exist.
pub fn get_line_content(bufs: &Vec<BufferInfo>, path: &str, line_num: usize) -> (r: String)
    ensures
        r@ == line_content(bufs@, path@, line_num as int),
{
    match find_by_path(bufs, path) {
        None => String::new(),
        Some(i) => {
            match &bufs[i].lines {
                Some(lines) => {
                    if line_num < lines.len() {
                        lines[line_num].clone()
                    } else {
                        String::new()
                    }
                },
                None => String::new(),
            }
        },
    }
}

/// The path of the file of the current buffer, or `None` for an unnamed
/// or scratch buffer, whose name is not an absolute path.
pub fn current_path(name: &str) -> (r: Option<String>)
    ensures
        r is Some <==> is_absolute(name@),
        r matches Some(p) ==> p@ == name@,
{
    if is_absolute_path(name) {
        Some(name.to_string())
    } else {
        None
    }
}

} // verus!
