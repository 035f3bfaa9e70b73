//! The event loop, run over keys that are already at hand.

use vstd::prelude::*;
use crate::editor::{
    editor_process_keypress, is_terminate_key, EditorState, EditorView, EventLoopState, Key,
};
use crate::render::{editor_frame, ops_text};

verus! {

/// Whether the terminate key is among `keys`.
pub open spec fn has_terminate_key(keys: Seq<Key>) -> bool {
    exists|i: int| 0 <= i < keys.len() && is_terminate_key(#[trigger] keys[i])
}

/// The number of keys that the event loop reads of `keys`: those up to the
/// first terminate key, that key included, and all of them where there is
/// none.
pub open spec fn keys_read(keys: Seq<Key>) -> nat
    decreases keys.len(),
{
    if keys.len() == 0 {
        0
    } else if is_terminate_key(keys[0]) {
        1
    } else {
        1 + keys_read(keys.drop_first())
    }
}

impl EditorView {
    /// The viewer after the keys of `keys` were pressed, in order.
    pub open spec fn press_all(self, keys: Seq<Key>) -> EditorView
        decreases keys.len(),
    {
        if keys.len() == 0 {
            self
        } else {
            self.press_all(keys.drop_last()).press(keys.last())
        }
    }
}

/// Where none of the first `i` keys is the terminate key, the loop reads
/// those `i` and then what it reads of the rest.
pub proof fn lemma_keys_read_after(keys: Seq<Key>, i: int)
    requires
        0 <= i <= keys.len(),
        forall|j: int| 0 <= j < i ==> !is_terminate_key(#[trigger] keys[j]),
    ensures
        keys_read(keys) == i + keys_read(keys.skip(i)),
    decreases i,
{
    if i == 0 {
        assert(keys.skip(0) =~= keys);
    } else {
        let rest = keys.drop_first();
        assert forall|j: int| 0 <= j < i - 1 implies !is_terminate_key(#[trigger] rest[j]) by {
            assert(rest[j] == keys[j + 1]);
        }
        lemma_keys_read_after(rest, i - 1);
        assert(rest.skip(i - 1) =~= keys.skip(i));
    }
}

/// The loop reads no more keys than there are, the last key that it reads is
/// the terminate key where there is one, and no key before that one is.
pub proof fn lemma_keys_read_bounds(keys: Seq<Key>)
    ensures
        keys_read(keys) <= keys.len(),
        forall|j: int| 0 <= j < keys_read(keys) - 1 ==> !is_terminate_key(#[trigger] keys[j]),
        has_terminate_key(keys) ==> keys_read(keys) >= 1 && is_terminate_key(
            keys[keys_read(keys) - 1],
        ),
        !has_terminate_key(keys) ==> keys_read(keys) == keys.len(),
    decreases keys.len(),
{
    if keys.len() > 0 && !is_terminate_key(keys[0]) {
        let rest = keys.drop_first();
        lemma_keys_read_bounds(rest);
        assert forall|j: int| 0 <= j < keys_read(keys) - 1 implies !is_terminate_key(
            #[trigger] keys[j],
        ) by {
            if j > 0 {
                assert(keys[j] == rest[j - 1]);
            }
        }
        if has_terminate_key(keys) {
            let i = choose|i: int| 0 <= i < keys.len() && is_terminate_key(#[trigger] keys[i]);
            assert(is_terminate_key(rest[i - 1]));
            assert(keys[keys_read(keys) - 1] == rest[keys_read(rest) - 1]);
        } else {
            assert forall|i: int| 0 <= i < rest.len() implies !is_terminate_key(
                #[trigger] rest[i],
            ) by {
                assert(rest[i] == keys[i + 1]);
            }
        }
    } else if keys.len() > 0 {
        assert(is_terminate_key(keys[0]));
    }
}

/// Once the terminate key has come, no further key is read: whatever keys
/// follow, the loop reads the same keys as without them.
pub proof fn lemma_no_key_read_after_terminate(keys: Seq<Key>, more: Seq<Key>)
    requires
        has_terminate_key(keys),
    ensures
        keys_read(keys + more) == keys_read(keys),
        (keys + more).take(keys_read(keys + more) as int) == keys.take(keys_read(keys) as int),
    decreases keys.len(),
{
    let all = keys + more;
    let i = choose|i: int| 0 <= i < keys.len() && is_terminate_key(#[trigger] keys[i]);
    assert(all[0] == keys[0]);
    if !is_terminate_key(keys[0]) {
        let rest = keys.drop_first();
        assert(is_terminate_key(rest[i - 1]));
        lemma_no_key_read_after_terminate(rest, more);
        assert(all.drop_first() =~= rest + more);
    }
    lemma_keys_read_bounds(keys);
    assert(all.take(keys_read(all) as int) =~= keys.take(keys_read(keys) as int));
}

/// Runs the event loop over `keys`: a frame is drawn, then a key is read and
/// applied, until the terminate key has been read or the keys have run out;
/// one frame is drawn after the last key that was read. Returns the state of
/// the loop at its end and the frames in the order in which they were drawn.
pub fn editor_run(editor: &mut EditorState, keys: &Vec<Key>) -> (result: (
    EventLoopState,
    Vec<String>,
))
    ensures
        result.0 == if has_terminate_key(keys@) {
            EventLoopState::Terminate
        } else {
            EventLoopState::Running
        },
        final(editor)@ == old(editor)@.press_all(keys@.take(keys_read(keys@) as int)),
        final(editor)@.valid(),
        result.1@.len() == keys_read(keys@) + 1,
        forall|i: int|
            0 <= i <= keys_read(keys@) ==> (#[trigger] result.1@[i])@ == ops_text(
                old(editor)@.press_all(keys@.take(i)).frame_ops(),
            ),
{
    let mut frames: Vec<String> = Vec::new();
    let mut state = EventLoopState::Running;
    let mut i: usize = 0;
    frames.push(editor_frame(editor));
    assert(keys@.take(0) =~= Seq::<Key>::empty());
    while state == EventLoopState::Running && i < keys.len()
        invariant
            i <= keys.len(),
            forall|j: int| 0 <= j < i - 1 ==> !is_terminate_key(#[trigger] keys@[j]),
            state == EventLoopState::Running ==> forall|j: int|
                0 <= j < i ==> !is_terminate_key(#[trigger] keys@[j]),
            state == EventLoopState::Terminate ==> i >= 1 && is_terminate_key(keys@[i - 1]),
            editor@ == old(editor)@.press_all(keys@.take(i as int)),
            frames@.len() == i + 1,
            forall|k: int|
                0 <= k <= i ==> (#[trigger] frames@[k])@ == ops_text(
                    old(editor)@.press_all(keys@.take(k)).frame_ops(),
                ),
        decreases keys.len() - i,
    {
        state = editor_process_keypress(keys[i], editor);
        assert(keys@.take(i + 1).drop_last() =~= keys@.take(i as int));
        i += 1;
        frames.push(editor_frame(editor));
    }
    proof {
        if state == EventLoopState::Terminate {
            lemma_keys_read_after(keys@, i - 1);
            assert(keys@.skip(i - 1)[0] == keys@[i - 1]);
        } else {
            lemma_keys_read_after(keys@, i as int);
            assert(keys@.skip(i as int).len() == 0);
        }
        assert(keys_read(keys@) == i);
        use_type_invariant(&*editor);
    }
    (state, frames)
}

} // verus!
