//! Case-insensitive interpretation of a response's `message` field.
//!
//! A message is terminal-success when, after ASCII-lowercasing, it equals
//! `"success"`; it signals an error when, after ASCII-lowercasing, it
//! contains `"error"` anywhere.

use vstd::prelude::*;

verus! {

/// ASCII-lowercases one character; every other character is unchanged.
pub open spec fn lower_char(c: char) -> char {
    if 'A' <= c && c <= 'Z' {
        (((c as u32) + 32) as u8) as char
    } else {
        c
    }
}

/// The message, ASCII-lowercased, equals `"success"`.
pub open spec fn is_success_message(s: Seq<char>) -> bool {
    &&& s.len() == 7
    &&& lower_char(s[0]) == 's'
    &&& lower_char(s[1]) == 'u'
    &&& lower_char(s[2]) == 'c'
    &&& lower_char(s[3]) == 'c'
    &&& lower_char(s[4]) == 'e'
    &&& lower_char(s[5]) == 's'
    &&& lower_char(s[6]) == 's'
}

/// `"error"` occurs at position `i` of the ASCII-lowercased message.
pub open spec fn error_at(s: Seq<char>, i: int) -> bool {
    &&& 0 <= i
    &&& i + 5 <= s.len()
    &&& lower_char(s[i]) == 'e'
    &&& lower_char(s[i + 1]) == 'r'
    &&& lower_char(s[i + 2]) == 'r'
    &&& lower_char(s[i + 3]) == 'o'
    &&& lower_char(s[i + 4]) == 'r'
}

/// The message, ASCII-lowercased, contains `"error"` anywhere.
pub open spec fn signals_error(s: Seq<char>) -> bool {
    exists|i: int| error_at(s, i)
}

/// A terminal-success message never signals an error: its seven
/// lowercased characters leave no room for the letters of `"error"`.
pub proof fn lemma_success_is_never_an_error(s: Seq<char>)
    requires
        is_success_message(s),
    ensures
        !signals_error(s),
{
    assert forall|i: int| !error_at(s, i) by {
        if 0 <= i && i + 5 <= s.len() {
            assert(lower_char(s[i + 1]) != 'r');
        }
    }
}

/// ASCII-lowercases one character.
fn lower_char_exec(c: char) -> (r: char)
    ensures
        r == lower_char(c),
{
    let n = c as u32;
    if 65 <= n && n <= 90 {
        ((n + 32) as u8) as char
    } else {
        c
    }
}

/// Whether the message, ASCII-lowercased, equals `"success"`.
pub fn message_is_success(m: &str) -> (r: bool)
    ensures
        r == is_success_message(m@),
{
    let len = m.unicode_len();
    if len != 7 {
        return false;
    }
    let r = lower_char_exec(m.get_char(0)) == 's' && lower_char_exec(m.get_char(1)) == 'u'
        && lower_char_exec(m.get_char(2)) == 'c' && lower_char_exec(m.get_char(3)) == 'c'
        && lower_char_exec(m.get_char(4)) == 'e' && lower_char_exec(m.get_char(5)) == 's'
        && lower_char_exec(m.get_char(6)) == 's';
    r
}

/// Whether `"error"` occurs at position `i` of the ASCII-lowercased message.
fn error_at_exec(m: &str, i: usize) -> (r: bool)
    requires
        i + 5 <= m@.len(),
        m@.len() <= usize::MAX,
    ensures
        r == error_at(m@, i as int),
{
    lower_char_exec(m.get_char(i)) == 'e' && lower_char_exec(m.get_char(i + 1)) == 'r'
        && lower_char_exec(m.get_char(i + 2)) == 'r' && lower_char_exec(m.get_char(i + 3)) == 'o'
        && lower_char_exec(m.get_char(i + 4)) == 'r'
}

/// Whether the message, ASCII-lowercased, contains `"error"` anywhere.
pub fn message_signals_error(m: &str) -> (r: bool)
    ensures
        r == signals_error(m@),
{
    let len = m.unicode_len();
    if len < 5 {
        assert(forall|i: int| !error_at(m@, i));
        return false;
    }
    let mut i: usize = 0;
    while i <= len - 5
        invariant
            len == m@.len(),
            5 <= len,
            i <= len - 4,
            forall|j: int| 0 <= j < i ==> !error_at(m@, j),
        decreases len - i,
    {
        if error_at_exec(m, i) {
            assert(error_at(m@, i as int));
            return true;
        }
        i += 1;
    }
    assert(forall|j: int| !error_at(m@, j));
    false
}

} // verus!
