use vstd::prelude::*;
use crate::document::{apply, apply_all, is_reset, save_destination, Change, DocState};

verus! {

/// After any sequence of changes, the document is dirty exactly when an edit
/// came after the last load, save or new document; or, when none of those
/// came at all, when it was dirty before or any edit came.
pub proof fn lemma_dirty_iff_edited_since_reset(s: DocState, cs: Seq<Change>)
    ensures
        apply_all(s, cs).dirty <==> ((exists|i: int|
            0 <= i < cs.len() && cs[i] is Edit && forall|j: int|
                i < j < cs.len() ==> !is_reset(#[trigger] cs[j])) || (s.dirty && forall|j: int|
            0 <= j < cs.len() ==> !is_reset(#[trigger] cs[j]))),
{
    let n = cs.len() as int;
    if n == 0 {
    } else if cs[n - 1] is Edit {
        assert(apply_all(s, cs) == apply(apply_all(s, cs.drop_last()), cs[n - 1]));
        assert(forall|j: int| n - 1 < j < n ==> !is_reset(#[trigger] cs[j]));
    } else {
        assert(apply_all(s, cs) == apply(apply_all(s, cs.drop_last()), cs[n - 1]));
        assert(is_reset(cs[n - 1]));
        assert forall|i: int| 0 <= i < n && cs[i] is Edit implies !(forall|j: int|
            i < j < n ==> !is_reset(#[trigger] cs[j])) by {
            assert(i < n - 1);
            assert(is_reset(cs[n - 1]));
        }
    }
}

/// Saving a document that is bound to no file is saving it as the path that
/// the user picks.
pub proof fn lemma_save_untitled_is_save_as(s: DocState, chosen: Seq<char>)
    requires
        s.bound_path is None,
    ensures
        apply(s, Change::Store(save_destination(s, chosen))) == apply(s, Change::Store(chosen)),
{
}

/// Saving as a path and then opening that path, when the file holds what was
/// written, gives back the same text, bound to that path and clean.
pub proof fn lemma_save_as_then_open(s: DocState, path: Seq<char>)
    ensures
        ({
            let saved = apply(s, Change::Store(path));
            let reopened = apply(saved, Change::Load(path, saved.buffer));
            reopened.buffer == s.buffer && reopened.bound_path == Some(path) && !reopened.dirty
        }),
{
}

/// Starting a new document gives the same empty, untitled, clean state from
/// every state.
pub proof fn lemma_new_document_forgets(s: DocState, t: DocState)
    ensures
        apply(s, Change::Clear) == apply(t, Change::Clear),
        apply(s, Change::Clear).buffer.len() == 0,
        apply(s, Change::Clear).bound_path is None,
        !apply(s, Change::Clear).dirty,
{
}

} // verus!
