//! Deciding which file changes call for a reload.
//!
//! A change calls for a reload of a program if the changed file has the
//! extension of a shader stage and bears the name of the program's source
//! file for that stage. Nothing is debounced: every such change calls for a
//! reload of its own.

use crate::command::Stage;
use crate::hotloader::Hotloader;
use crate::shader::{ShaderProgram, ShaderProgramView};
use vstd::prelude::*;

verus! {

/// Whether a text ends with another.
pub open spec fn ends_with(text: Seq<char>, tail: Seq<char>) -> bool {
    text.len() >= tail.len() && text.skip(text.len() - tail.len()) == tail
}

/// The last component of a path: what follows its last `/`.
pub open spec fn file_name(path: Seq<char>) -> Seq<char>
    decreases path.len(),
{
    if path.len() == 0 || path.last() == '/' {
        Seq::empty()
    } else {
        file_name(path.drop_last()).push(path.last())
    }
}

/// The stage whose source a file holds, going by its extension.
pub open spec fn stage_of(path: Seq<char>) -> Option<Stage> {
    if ends_with(path, ".vert"@) {
        Some(Stage::Vertex)
    } else if ends_with(path, ".frag"@) {
        Some(Stage::Fragment)
    } else {
        None
    }
}

/// Whether a change to `changed` calls for a reload of the program.
pub open spec fn calls_for_reload(program: ShaderProgramView, changed: Seq<char>) -> bool {
    match stage_of(changed) {
        Some(Stage::Vertex) => file_name(changed) == file_name(program.vertex_filename),
        Some(Stage::Fragment) => file_name(changed) == file_name(program.fragment_filename),
        None => false,
    }
}

/// Tells whether a text ends with another.
pub fn has_suffix(text: &str, tail: &str) -> (found: bool)
    ensures
        found == ends_with(text@, tail@),
{
    let n = text.unicode_len();
    let m = tail.unicode_len();
    if n < m {
        return false;
    }
    let start = n - m;
    let mut i: usize = 0;
    while i < m
        invariant
            i <= m,
            n == text@.len(),
            m == tail@.len(),
            start == n - m,
            forall|j: int| 0 <= j < i ==> text@[start + j] == tail@[j],
        decreases m - i,
    {
        if text.get_char(start + i) != tail.get_char(i) {
            assert(text@.skip(start as int)[i as int] != tail@[i as int]);
            return false;
        }
        i += 1;
    }
    assert(text@.skip(start as int) =~= tail@);
    true
}

/// Finds where the last component of a path starts.
pub fn file_name_start(path: &str) -> (start: usize)
    ensures
        start <= path@.len(),
        path@.skip(start as int) == file_name(path@),
{
    let n = path.unicode_len();
    let mut start = n;
    assert(path@.take(n as int) =~= path@);
    assert(path@.skip(n as int) =~= Seq::<char>::empty());
    while start > 0 && path.get_char(start - 1) != '/'
        invariant
            start <= n,
            n == path@.len(),
            file_name(path@) == file_name(path@.take(start as int)) + path@.skip(start as int),
        decreases start,
    {
        proof {
            let head = path@.take(start as int);
            assert(head.drop_last() =~= path@.take(start - 1));
            assert(file_name(head) == file_name(path@.take(start - 1)).push(head.last()));
            assert(file_name(path@.take(start - 1)).push(head.last()) + path@.skip(start as int)
                =~= file_name(path@.take(start - 1)) + path@.skip(start - 1));
        }
        start -= 1;
    }
    proof {
        let head = path@.take(start as int);
        assert(file_name(head) =~= Seq::<char>::empty());
        assert(file_name(head) + path@.skip(start as int) =~= path@.skip(start as int));
    }
    start
}

/// Tells whether two paths end in the same file name.
pub fn same_file_name(left: &str, right: &str) -> (same: bool)
    ensures
        same == (file_name(left@) == file_name(right@)),
{
    let from_left = file_name_start(left);
    let from_right = file_name_start(right);
    let left_len = left.unicode_len();
    let right_len = right.unicode_len();
    let n = left_len - from_left;
    if right_len - from_right != n {
        assert(file_name(left@).len() != file_name(right@).len());
        return false;
    }
    let mut i: usize = 0;
    while i < n
        invariant
            i <= n,
            left_len == left@.len(),
            right_len == right@.len(),
            from_left + n == left_len,
            from_right + n == right_len,
            left@.skip(from_left as int) == file_name(left@),
            right@.skip(from_right as int) == file_name(right@),
            forall|j: int| 0 <= j < i ==> #[trigger] file_name(left@)[j] == file_name(right@)[j],
        decreases n - i,
    {
        if left.get_char(from_left + i) != right.get_char(from_right + i) {
            assert(file_name(left@)[i as int] != file_name(right@)[i as int]);
            return false;
        }
        i += 1;
    }
    assert(file_name(left@) =~= file_name(right@));
    true
}

/// The stage whose source a file holds, going by its extension.
pub fn stage_of_path(path: &str) -> (stage: Option<Stage>)
    ensures
        stage == stage_of(path@),
{
    if has_suffix(path, ".vert") {
        Some(Stage::Vertex)
    } else if has_suffix(path, ".frag") {
        Some(Stage::Fragment)
    } else {
        None
    }
}

/// Decides whether a change that the watcher let through calls for a reload
/// of the program.
pub fn should_reload(program: &ShaderProgram, changed: &str) -> (reload: bool)
    ensures
        reload == calls_for_reload(program@, changed@),
{
    match stage_of_path(changed) {
        Some(Stage::Vertex) => same_file_name(changed, program.vertex_filename()),
        Some(Stage::Fragment) => same_file_name(changed, program.fragment_filename()),
        None => false,
    }
}

/// Polls the watch once and decides whether the program is to be reloaded
/// now: it is if the poll brings up a write that calls for it.
pub fn poll_reload(hotloader: &mut Hotloader, program: &ShaderProgram) -> (reload: bool)
    ensures
        final(hotloader)@ == old(hotloader)@.poll().0,
        reload == match old(hotloader)@.poll().1 {
            Some(changed) => calls_for_reload(program@, changed),
            None => false,
        },
{
    match hotloader.has_event() {
        Some(changed) => should_reload(program, changed.as_str()),
        None => false,
    }
}

} // verus!
