use vstd::prelude::*;
use vstd::utf8::{encode_scalar, encode_utf8};

use crate::ui::components::{ButtonState, UiButton, UiCheckbox, UiTextBox};

verus! {

/// `offset` is the byte length of the UTF-8 encoding of some prefix of `s`:
/// a character boundary of the encoded text.
pub open spec fn is_char_offset(s: Seq<char>, offset: int) -> bool {
    exists|k: int| 0 <= k <= s.len() && #[trigger] encode_utf8(s.subrange(0, k)).len() == offset
}

/// The number of characters before the character boundary at byte `offset`.
pub open spec fn char_index_at(s: Seq<char>, offset: int) -> int {
    choose|k: int| 0 <= k <= s.len() && #[trigger] encode_utf8(s.subrange(0, k)).len() == offset
}

/// Inserts `ch` into `s` at the character boundary at byte `idx`.
///
/// Calls `String::insert`, which inserts a character at a byte position and
/// panics unless the position lies on a character boundary; the contract
/// claims that the character lands before the characters that followed the
/// boundary. The capacity limit of a string is left out by the `requires`.
#[verifier::external_body]
fn string_insert(s: &mut String, idx: usize, ch: char)
    requires
        is_char_offset(old(s)@, idx as int),
        encode_utf8(old(s)@).len() + 4 <= isize::MAX,
    ensures
        final(s)@ == old(s)@.insert(char_index_at(old(s)@, idx as int), ch),
{
    s.insert(idx, ch);
}

/// Removes the character that starts at the character boundary at byte
/// `idx` of `s`.
///
/// Calls `String::remove`, which removes and returns the character at a byte
/// position and panics unless the position is a character boundary before
/// the end of the string; the contract claims that the character at that
/// position is removed and returned.
#[verifier::external_body]
fn string_remove(s: &mut String, idx: usize) -> (res: char)
    requires
        is_char_offset(old(s)@, idx as int),
        char_index_at(old(s)@, idx as int) < old(s)@.len(),
    ensures
        res == old(s)@[char_index_at(old(s)@, idx as int)],
        final(s)@ == old(s)@.remove(char_index_at(old(s)@, idx as int)),
{
    s.remove(idx)
}

/// The state a button takes for the given hover and press status: pressed
/// wins over hovered, which wins over normal.
pub open spec fn button_state_for(hovered: bool, pressed: bool) -> ButtonState {
    if pressed {
        ButtonState::Pressed
    } else if hovered {
        ButtonState::Hovered
    } else {
        ButtonState::Normal
    }
}

/// Updates the button state based on hover and press status.
pub fn update_button_state(button: &mut UiButton, hovered: bool, pressed: bool)
    ensures
        final(button).state == button_state_for(hovered, pressed),
        final(button).label@ == old(button).label@,
{
    button.state = if pressed {
        ButtonState::Pressed
    } else if hovered {
        ButtonState::Hovered
    } else {
        ButtonState::Normal
    };
}

/// Toggles the checkbox state.
pub fn toggle_checkbox(checkbox: &mut UiCheckbox)
    ensures
        final(checkbox).checked == !old(checkbox).checked,
        final(checkbox).label@ == old(checkbox).label@,
{
    checkbox.checked = !checkbox.checked;
}

proof fn lemma_encode_concat(a: Seq<char>, b: Seq<char>)
    ensures
        encode_utf8(a + b) == encode_utf8(a) + encode_utf8(b),
    decreases a.len(),
{
    if a.len() > 0 {
        assert((a + b).drop_first() =~= a.drop_first() + b);
        lemma_encode_concat(a.drop_first(), b);
        assert(encode_utf8(a + b) =~= encode_utf8(a) + encode_utf8(b));
    } else {
        assert(a + b =~= b);
        assert(encode_utf8(a) + encode_utf8(b) =~= encode_utf8(b));
    }
}

proof fn lemma_prefix_encoding_bounded(s: Seq<char>, k: int)
    requires
        0 <= k <= s.len(),
    ensures
        encode_utf8(s.subrange(0, k)).len() <= encode_utf8(s).len(),
{
    lemma_encode_concat(s.subrange(0, k), s.subrange(k, s.len() as int));
    assert(s.subrange(0, k) + s.subrange(k, s.len() as int) =~= s);
}

/// The number of bytes of the UTF-8 encoding of `c`.
fn utf8_width(c: char) -> (res: usize)
    ensures
        res == encode_scalar(c as u32).len(),
        1 <= res <= 4,
{
    let v = c as u32;
    if v <= 0x7F {
        1
    } else if v <= 0x7FF {
        2
    } else if v <= 0xFFFF {
        3
    } else {
        4
    }
}

/// The byte offset at which character `k` of `s` starts.
fn byte_offset(s: &String, k: usize) -> (res: usize)
    requires
        k <= s@.len(),
    ensures
        res == encode_utf8(s@.subrange(0, k as int)).len(),
{
    let text = s.as_str();
    let total = text.as_bytes().len();
    let mut off: usize = 0;
    let mut i: usize = 0;
    assert(s@.subrange(0, 0) =~= Seq::<char>::empty());
    while i < k
        invariant
            i <= k <= s@.len(),
            text@ == s@,
            total == encode_utf8(s@).len(),
            off == encode_utf8(s@.subrange(0, i as int)).len(),
        decreases k - i,
    {
        let c = text.get_char(i);
        let w = utf8_width(c);
        proof {
            let p = s@.subrange(0, i as int);
            let one = s@.subrange(i as int, i + 1);
            lemma_encode_concat(p, one);
            assert(p + one =~= s@.subrange(0, i + 1));
            assert(one.drop_first() =~= Seq::<char>::empty());
            assert(encode_utf8(one) == encode_scalar(one[0] as u32) + encode_utf8(one.drop_first()));
            lemma_prefix_encoding_bounded(s@, i + 1);
        }
        off = off + w;
        i = i + 1;
    }
    off
}

/// A text has no more characters than bytes in its encoding.
proof fn lemma_chars_within_bytes(s: Seq<char>)
    ensures
        s.len() <= encode_utf8(s).len(),
    decreases s.len(),
{
    if s.len() > 0 {
        lemma_chars_within_bytes(s.drop_first());
    }
}

/// Inserts a character at the cursor position (counted in characters) in a
/// text box and moves the cursor one character on.
pub fn insert_char(textbox: &mut UiTextBox, ch: char)
    requires
        old(textbox).cursor_pos <= old(textbox).value@.len(),
        encode_utf8(old(textbox).value@).len() + 4 <= isize::MAX,
    ensures
        final(textbox).value@ == old(textbox).value@.insert(old(textbox).cursor_pos as int, ch),
        final(textbox).cursor_pos == old(textbox).cursor_pos + 1,
        final(textbox).placeholder@ == old(textbox).placeholder@,
        final(textbox).focused == old(textbox).focused,
{
    let b = byte_offset(&textbox.value, textbox.cursor_pos);
    proof {
        lemma_char_index_unique(textbox.value@, b as int, textbox.cursor_pos as int);
        lemma_chars_within_bytes(textbox.value@);
    }
    string_insert(&mut textbox.value, b, ch);
    textbox.cursor_pos = textbox.cursor_pos + 1;
}

/// Deletes the character before the cursor position (counted in
/// characters) in a text box and moves the cursor back one character. With
/// the cursor at the start nothing changes.
pub fn delete_char(textbox: &mut UiTextBox)
    requires
        old(textbox).cursor_pos <= old(textbox).value@.len(),
    ensures
        old(textbox).cursor_pos > 0 ==> final(textbox).value@ == old(textbox).value@.remove(
            old(textbox).cursor_pos - 1,
        ) && final(textbox).cursor_pos == old(textbox).cursor_pos - 1,
        old(textbox).cursor_pos == 0 ==> final(textbox).value@ == old(textbox).value@
            && final(textbox).cursor_pos == 0,
        final(textbox).placeholder@ == old(textbox).placeholder@,
        final(textbox).focused == old(textbox).focused,
{
    if textbox.cursor_pos > 0 {
        textbox.cursor_pos = textbox.cursor_pos - 1;
        let b = byte_offset(&textbox.value, textbox.cursor_pos);
        proof {
            lemma_char_index_unique(textbox.value@, b as int, textbox.cursor_pos as int);
        }
        let _removed = string_remove(&mut textbox.value, b);
    }
}

/// A longer prefix of a text has a longer encoding: every character takes
/// at least one byte.
proof fn lemma_prefix_encoding_strict(s: Seq<char>, i: int, j: int)
    requires
        0 <= i < j <= s.len(),
    ensures
        encode_utf8(s.subrange(0, i)).len() < encode_utf8(s.subrange(0, j)).len(),
{
    let a = s.subrange(0, i);
    let b = s.subrange(i, j);
    lemma_encode_concat(a, b);
    assert(a + b =~= s.subrange(0, j));
    assert(encode_utf8(b) == encode_scalar(b[0] as u32) + encode_utf8(b.drop_first()));
}

/// The character boundary at a byte offset is at one character index only.
proof fn lemma_char_index_unique(s: Seq<char>, offset: int, k: int)
    requires
        0 <= k <= s.len(),
        encode_utf8(s.subrange(0, k)).len() == offset,
    ensures
        is_char_offset(s, offset),
        char_index_at(s, offset) == k,
{
    let k2 = char_index_at(s, offset);
    if k2 < k {
        lemma_prefix_encoding_strict(s, k2, k);
    } else if k < k2 {
        lemma_prefix_encoding_strict(s, k, k2);
    }
}

/// Deleting the character before the cursor right after inserting one
/// gives back the text: the inserted character is the one removed, and the
/// cursor, moved one character on by the insertion, comes back to where it
/// was.
pub proof fn delete_char_undoes_insert_char(text: Seq<char>, cursor: int, ch: char)
    requires
        0 <= cursor <= text.len(),
    ensures
        cursor + 1 <= text.insert(cursor, ch).len(),
        text.insert(cursor, ch).remove((cursor + 1) - 1) == text,
{
    assert(text.insert(cursor, ch).remove(cursor) =~= text);
}

} // verus!
