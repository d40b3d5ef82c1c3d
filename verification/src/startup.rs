//! The scan of the startup arguments for a document to open.
//!
//! An argument names a document when its lower-case form ends with
//! `.mandalaya`. The first such argument decides: where its lower-case form
//! begins with `file://` it is read as a URL and turned into a path with
//! backslashes, otherwise it is the path, letter for letter. Whether the file
//! exists is for the caller to find out.

use crate::file_url::{windows_path, windows_path_of};
use crate::lowercase::{lowercase_of, to_lowercase};
use crate::text::{chars_of, ends_with, starts_with};
use vstd::prelude::*;
use vstd::slice::slice_subrange;

verus! {

/// Whether `lowered`, the lower-case form of an argument, ends as the name of
/// a document does.
pub open spec fn is_document(lowered: Seq<char>) -> bool {
    ".mandalaya"@.is_suffix_of(lowered)
}

/// Whether `lowered`, the lower-case form of an argument, begins as a file
/// URL does.
pub open spec fn is_file_url(lowered: Seq<char>) -> bool {
    "file://"@.is_prefix_of(lowered)
}

/// What one argument contributes, given its lower-case form: nothing unless
/// it names a document, else the path it stands for.
pub open spec fn resolved(arg: Seq<char>, lowered: Seq<char>) -> Option<Seq<char>> {
    if !is_document(lowered) {
        None
    } else if is_file_url(lowered) {
        Some(windows_path(arg))
    } else {
        Some(arg)
    }
}

/// Whether `arg` names a document, whatever the case of its letters.
pub open spec fn names_document(arg: Seq<char>) -> bool {
    is_document(lowercase_of(arg))
}

/// What `arg` contributes by itself: the path it stands for where it names a
/// document, else nothing.
pub open spec fn named_path(arg: Seq<char>) -> Option<Seq<char>> {
    resolved(arg, lowercase_of(arg))
}

/// The startup file among `args`: the path named by the first argument that
/// names a document, if there is one.
pub open spec fn startup_file(args: Seq<Seq<char>>) -> Option<Seq<char>>
    decreases args.len(),
{
    if args.len() == 0 {
        None
    } else if names_document(args[0]) {
        named_path(args[0])
    } else {
        startup_file(args.drop_first())
    }
}

/// Decides on one argument, given its lower-case form.
pub fn resolve_argument(arg: &str, lowered: &str) -> (path: Option<String>)
    ensures
        path.deep_view() == resolved(arg@, lowered@),
{
    let lowered_chars = chars_of(lowered);
    let suffix = chars_of(".mandalaya");
    if !ends_with(lowered_chars.as_slice(), suffix.as_slice()) {
        return None;
    }
    let scheme = chars_of("file://");
    if starts_with(lowered_chars.as_slice(), scheme.as_slice()) {
        Some(windows_path_of(arg))
    } else {
        Some(arg.to_owned())
    }
}

/// Finds the startup file among `args`, the arguments that the program was
/// started with, its own name not among them.
pub fn locate_startup_file(args: &[String]) -> (file: Option<String>)
    ensures
        file.deep_view() == startup_file(args.deep_view()),
{
    let ghost texts = args.deep_view();
    assert(texts.skip(0) == texts);
    let mut i: usize = 0;
    while i < args.len()
        invariant
            i <= args.len(),
            texts == args.deep_view(),
            startup_file(texts) == startup_file(texts.skip(i as int)),
        decreases args.len() - i,
    {
        let arg = args[i].as_str();
        let lowered = to_lowercase(arg);
        let ghost rest = texts.skip(i as int);
        assert(rest.drop_first() == texts.skip(i + 1));
        match resolve_argument(arg, lowered.as_str()) {
            Some(path) => {
                return Some(path);
            },
            None => {},
        }
        i += 1;
    }
    None
}

/// The arguments in `command_line`, which begins with the program's own name.
pub open spec fn arguments_of(command_line: Seq<Seq<char>>) -> Seq<Seq<char>> {
    if command_line.len() == 0 {
        command_line
    } else {
        command_line.drop_first()
    }
}

/// Finds the startup file in the command line of the process, as the
/// operating system handed it over: the program's own name comes first and
/// is never taken for a document.
pub fn get_startup_file(command_line: &[String]) -> (file: Option<String>)
    ensures
        file.deep_view() == startup_file(arguments_of(command_line.deep_view())),
{
    if command_line.len() == 0 {
        None
    } else {
        let args = slice_subrange(command_line, 1, command_line.len());
        assert(args.deep_view() == command_line.deep_view().drop_first());
        locate_startup_file(args)
    }
}

/// Nothing is found exactly when no argument names a document.
pub proof fn lemma_absent_iff_no_document(args: Seq<Seq<char>>)
    ensures
        startup_file(args) is None <==> forall|i: int|
            0 <= i < args.len() ==> !names_document(#[trigger] args[i]),
    decreases args.len(),
{
    if args.len() > 0 {
        let rest = args.drop_first();
        lemma_absent_iff_no_document(rest);
        if !names_document(args[0]) {
            if startup_file(rest) is None {
                assert forall|i: int| 0 <= i < args.len() implies !names_document(
                    #[trigger] args[i],
                ) by {
                    if i > 0 {
                        assert(args[i] == rest[i - 1]);
                    }
                }
            } else {
                let k = choose|k: int| 0 <= k < rest.len() && names_document(#[trigger] rest[k]);
                assert(names_document(args[k + 1]));
            }
        }
    }
}

/// The first argument that names a document decides alone: the arguments in
/// front of it name none, and whatever follows it changes nothing.
pub proof fn lemma_first_document_decides(args: Seq<Seq<char>>, first: int)
    requires
        0 <= first < args.len(),
        names_document(args[first]),
        forall|j: int| 0 <= j < first ==> !names_document(#[trigger] args[j]),
    ensures
        startup_file(args) == named_path(args[first]),
        startup_file(args) is Some,
    decreases first,
{
    if first > 0 {
        let rest = args.drop_first();
        assert(!names_document(args[0]));
        assert(rest[first - 1] == args[first]);
        assert forall|j: int| 0 <= j < first - 1 implies !names_document(#[trigger] rest[j]) by {
            assert(rest[j] == args[j + 1]);
        }
        lemma_first_document_decides(rest, first - 1);
    }
}

/// Scanning again finds the same: two answers for the same arguments do not
/// differ.
pub proof fn lemma_same_arguments_same_file(
    args: Seq<Seq<char>>,
    first: Option<String>,
    second: Option<String>,
)
    requires
        first.deep_view() == startup_file(args),
        second.deep_view() == startup_file(args),
    ensures
        first.deep_view() == second.deep_view(),
{
}

} // verus!
