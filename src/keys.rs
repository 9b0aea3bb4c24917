//! Keyboard commands of the player.
use vstd::prelude::*;

verus! {

/// What a key press asks of the player.
#[derive(Clone, Copy, Debug, PartialEq, Eq, Structural)]
pub enum KeyCommand {
    /// Space: play when paused, pause when playing.
    TogglePlay,
    /// Left arrow: one frame back.
    PreviousFrame,
    /// Right arrow: one frame forward.
    NextFrame,
    /// Any other key.
    Ignored,
}

/// The command of the key named `key`, as a keyboard event names it.
pub open spec fn spec_key_command(key: Seq<char>) -> KeyCommand {
    if key == " "@ {
        KeyCommand::TogglePlay
    } else if key == "ArrowLeft"@ {
        KeyCommand::PreviousFrame
    } else if key == "ArrowRight"@ {
        KeyCommand::NextFrame
    } else {
        KeyCommand::Ignored
    }
}

/// Whether two strings hold the same characters.
fn same_text(a: &str, b: &str) -> (r: bool)
    ensures
        r == (a@ == b@),
{
    let n = a.unicode_len();
    if n != b.unicode_len() {
        return false;
    }
    let mut i: usize = 0;
    while i < n
        invariant
            n == a@.len() == b@.len(),
            0 <= i <= n,
            a@.subrange(0, i as int) == b@.subrange(0, i as int),
        decreases n - i,
    {
        if a.get_char(i) != b.get_char(i) {
            assert(a@[i as int] != b@[i as int]);
            return false;
        }
        assert(a@.subrange(0, i + 1) =~= a@.subrange(0, i as int).push(a@[i as int]));
        assert(b@.subrange(0, i + 1) =~= b@.subrange(0, i as int).push(b@[i as int]));
        i = i + 1;
    }
    assert(a@ =~= a@.subrange(0, n as int));
    assert(b@ =~= b@.subrange(0, n as int));
    true
}

/// The command of the key named `key`: see `spec_key_command`.
pub fn key_command(key: &str) -> (r: KeyCommand)
    ensures
        r == spec_key_command(key@),
{
    if same_text(key, " ") {
        KeyCommand::TogglePlay
    } else if same_text(key, "ArrowLeft") {
        KeyCommand::PreviousFrame
    } else if same_text(key, "ArrowRight") {
        KeyCommand::NextFrame
    } else {
        KeyCommand::Ignored
    }
}

} // verus!
