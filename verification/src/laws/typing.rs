//! What is typed for a key and for a text.
use vstd::prelude::*;

use crate::command::Command;
use crate::command::FormatRequestData;
use crate::json::Json;
use crate::keys::{IntoKeyChar, IntoTyping, Key, TypingData};
use crate::request::RequestData;
use crate::types::SessionId;

verus! {

/// Every key has the code point that the WebDriver standard gives it.
pub proof fn law_code_points(k: Key, r: char)
    requires
        call_ensures(Key::value, (&k,), r),
    ensures
        k is Null ==> r == '\u{e000}',
        k is Cancel ==> r == '\u{e001}',
        k is Help ==> r == '\u{e002}',
        k is Backspace ==> r == '\u{e003}',
        k is Tab ==> r == '\u{e004}',
        k is Clear ==> r == '\u{e005}',
        k is Return ==> r == '\u{e006}',
        k is Enter ==> r == '\u{e007}',
        k is Shift ==> r == '\u{e008}',
        k is Control ==> r == '\u{e009}',
        k is Alt ==> r == '\u{e00a}',
        k is Pause ==> r == '\u{e00b}',
        k is Escape ==> r == '\u{e00c}',
        k is Space ==> r == '\u{e00d}',
        k is PageUp ==> r == '\u{e00e}',
        k is PageDown ==> r == '\u{e00f}',
        k is End ==> r == '\u{e010}',
        k is Home ==> r == '\u{e011}',
        k is Left ==> r == '\u{e012}',
        k is Up ==> r == '\u{e013}',
        k is Right ==> r == '\u{e014}',
        k is Down ==> r == '\u{e015}',
        k is Insert ==> r == '\u{e016}',
        k is Delete ==> r == '\u{e017}',
        k is Semicolon ==> r == '\u{e018}',
        k is Equals ==> r == '\u{e019}',
        k is NumPad0 ==> r == '\u{e01a}',
        k is NumPad1 ==> r == '\u{e01b}',
        k is NumPad2 ==> r == '\u{e01c}',
        k is NumPad3 ==> r == '\u{e01d}',
        k is NumPad4 ==> r == '\u{e01e}',
        k is NumPad5 ==> r == '\u{e01f}',
        k is NumPad6 ==> r == '\u{e020}',
        k is NumPad7 ==> r == '\u{e021}',
        k is NumPad8 ==> r == '\u{e022}',
        k is NumPad9 ==> r == '\u{e023}',
        k is Multiply ==> r == '\u{e024}',
        k is Add ==> r == '\u{e025}',
        k is Separator ==> r == '\u{e026}',
        k is Subtract ==> r == '\u{e027}',
        k is Decimal ==> r == '\u{e028}',
        k is Divide ==> r == '\u{e029}',
        k is F1 ==> r == '\u{e031}',
        k is F2 ==> r == '\u{e032}',
        k is F3 ==> r == '\u{e033}',
        k is F4 ==> r == '\u{e034}',
        k is F5 ==> r == '\u{e035}',
        k is F6 ==> r == '\u{e036}',
        k is F7 ==> r == '\u{e037}',
        k is F8 ==> r == '\u{e038}',
        k is F9 ==> r == '\u{e039}',
        k is F10 ==> r == '\u{e03a}',
        k is F11 ==> r == '\u{e03b}',
        k is F12 ==> r == '\u{e03c}',
        k is Meta ==> r == '\u{e03d}',
        k is Command ==> r == '\u{e03d}',
{
}

/// No two keys have one code point, but for the two names of the meta key.
pub proof fn law_keys_differ(a: Key, b: Key, x: char, y: char)
    requires
        call_ensures(Key::value, (&a,), x),
        call_ensures(Key::value, (&b,), y),
        a != b,
    ensures
        x == y <==> (a is Meta && b is Command) || (a is Command && b is Meta),
{
}

/// The keys of the number pad count upwards from `NumPad0`, and the function keys from `F1`.
pub proof fn law_numbered_keys(k: Key, r: char)
    requires
        call_ensures(Key::value, (&k,), r),
    ensures
        k is NumPad0 ==> r as u32 == 0xe01a + 0,
        k is NumPad1 ==> r as u32 == 0xe01a + 1,
        k is NumPad2 ==> r as u32 == 0xe01a + 2,
        k is NumPad3 ==> r as u32 == 0xe01a + 3,
        k is NumPad4 ==> r as u32 == 0xe01a + 4,
        k is NumPad5 ==> r as u32 == 0xe01a + 5,
        k is NumPad6 ==> r as u32 == 0xe01a + 6,
        k is NumPad7 ==> r as u32 == 0xe01a + 7,
        k is NumPad8 ==> r as u32 == 0xe01a + 8,
        k is NumPad9 ==> r as u32 == 0xe01a + 9,
        k is F1 ==> r as u32 == 0xe031 + 0,
        k is F2 ==> r as u32 == 0xe031 + 1,
        k is F3 ==> r as u32 == 0xe031 + 2,
        k is F4 ==> r as u32 == 0xe031 + 3,
        k is F5 ==> r as u32 == 0xe031 + 4,
        k is F6 ==> r as u32 == 0xe031 + 5,
        k is F7 ==> r as u32 == 0xe031 + 6,
        k is F8 ==> r as u32 == 0xe031 + 7,
        k is F9 ==> r as u32 == 0xe031 + 8,
        k is F10 ==> r as u32 == 0xe031 + 9,
        k is F11 ==> r as u32 == 0xe031 + 10,
        k is F12 ==> r as u32 == 0xe031 + 11,
{
}

/// A text is typed as its own characters, a key as its code point alone, and what was put together
/// before as it stands.
pub proof fn law_typed<'a>(
    slice: &'a str,
    text: String,
    lent: &'a String,
    key: Key,
    data: TypingData,
    from_slice: TypingData,
    from_text: TypingData,
    from_lent: TypingData,
    from_key: TypingData,
    from_data: TypingData,
    code: char,
)
    requires
        call_ensures(TypingData::from::<&'a str>, (slice,), from_slice),
        call_ensures(TypingData::from::<String>, (text,), from_text),
        call_ensures(TypingData::from::<&'a String>, (lent,), from_lent),
        call_ensures(TypingData::from::<Key>, (key,), from_key),
        call_ensures(TypingData::from::<TypingData>, (data,), from_data),
        call_ensures(Key::value, (&key,), code),
    ensures
        from_slice@ == slice@,
        from_text@ == text@,
        from_lent@ == lent@,
        from_key@ == seq![code],
        from_data@ == data@,
{
}

/// What reads as typing reads the same through `into_typing`.
pub proof fn law_into_typing<'a>(
    slice: &'a str,
    text: String,
    lent: &'a String,
    key: Key,
    data: TypingData,
    from_slice: TypingData,
    from_text: TypingData,
    from_lent: TypingData,
    from_key: TypingData,
    from_data: TypingData,
    code: char,
)
    requires
        call_ensures(<&'a str as IntoTyping>::into_typing, (slice,), from_slice),
        call_ensures(<String as IntoTyping>::into_typing, (text,), from_text),
        call_ensures(<&'a String as IntoTyping>::into_typing, (lent,), from_lent),
        call_ensures(<Key as IntoTyping>::into_typing, (key,), from_key),
        call_ensures(<TypingData as IntoTyping>::into_typing, (data,), from_data),
        call_ensures(Key::value, (&key,), code),
    ensures
        from_slice@ == slice@,
        from_text@ == text@,
        from_lent@ == lent@,
        from_key@ == seq![code],
        from_data@ == data@,
{
}

/// A sum types its left side first and then its right side: nothing is lost, and nothing comes in
/// between.
pub proof fn law_sum<S: IntoTyping>(left: TypingData, right: S, typed: TypingData, sum: TypingData)
    requires
        call_ensures(TypingData::from::<S>, (right,), typed),
        call_ensures(TypingData::plus::<S>, (left, right), sum),
    ensures
        sum@.len() == left@.len() + typed@.len(),
        forall|i: int| 0 <= i < left@.len() ==> #[trigger] sum@[i] == left@[i],
        forall|i: int|
            0 <= i < typed@.len() ==> #[trigger] typed@[i] == sum@[left@.len() + i],
{
}

/// `+` is that sum, and a key in front of it is typed first.
pub proof fn law_plus<S: IntoTyping>(
    left: TypingData,
    key: Key,
    right: S,
    code: char,
    typed: TypingData,
    sum: TypingData,
    after_key: TypingData,
)
    requires
        call_ensures(Key::value, (&key,), code),
        call_ensures(TypingData::from::<S>, (right,), typed),
        call_ensures(<TypingData as std::ops::Add<S>>::add, (left, right), sum),
        call_ensures(<Key as std::ops::Add<S>>::add, (key, right), after_key),
    ensures
        sum@ == left@ + typed@,
        after_key@.len() == typed@.len() + 1,
        after_key@[0] == code,
        after_key@.skip(1) == typed@,
{
}

/// The text and the characters of what is typed are the same characters, in order.
pub proof fn law_typing_is_read_back(data: TypingData, text: String, chars: Vec<char>)
    requires
        call_ensures(TypingData::to_text, (&data,), text),
        call_ensures(TypingData::as_vec, (&data,), chars),
    ensures
        text@ == data@,
        chars@ == text@,
{
}

/// A character is pressed as itself, and a key as its code point.
pub proof fn law_key_chars(c: char, k: Key, pressed: char, key_pressed: char, code: char)
    requires
        call_ensures(<char as IntoKeyChar>::into_char, (c,), pressed),
        call_ensures(<Key as IntoKeyChar>::into_char, (k,), key_pressed),
        call_ensures(Key::value, (&k,), code),
    ensures
        pressed == c,
        key_pressed == code,
{
}

/// Keys sent to an element or an alert stand in the request as one text and as the list of their
/// characters, one text each.
pub proof fn law_sent_keys(c: Command, s: SessionId, typing: TypingData, r: RequestData)
    requires
        call_ensures(<Command as FormatRequestData>::format_request, (&c, &s), r),
        (c matches Command::SendAlertText(t) && t == typing) || (
        c matches Command::ElementSendKeys(_, t) && t == typing),
    ensures
        types_out(r, typing@),
{
    reveal_strlit("text");
    reveal_strlit("value");
    let members = r.body->0@->Obj_0;
    assert(members.dom() =~= set!["text"@, "value"@]);
    assert("text"@.len() != "value"@.len());
}

/// The body of `r` holds `typed` as a text and as its characters.
pub open spec fn types_out(r: RequestData, typed: Seq<char>) -> bool {
    r.body matches Some(body) && body@ matches Json::Obj(members) && members.dom() == set![
        "text"@,
        "value"@,
    ] && members["text"@] == Json::Str(typed) && (members["value"@] matches Json::Arr(items)
        && items.len() == typed.len() && forall|i: int|
        0 <= i < items.len() ==> #[trigger] items[i] == Json::Str(seq![typed[i]]))
}

} // verus!
