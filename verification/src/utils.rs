//! Small rules of the application: the names of months and weekdays, the
//! colours handed to new sources, the forms of dates, and the tests a
//! credential and a database identifier have to pass.

use crate::date::{pattern_text, Date, Weekday, LONG_PATTERN, SHORT_PATTERN};
use crate::text::{
    byte_len, has_prefix, lowercase_text, lowercased, owned, replaced, utf8_len, without_char,
};
use vstd::prelude::*;

verus! {

/// What a credential has to start with.
pub const KEY_PREFIX: &'static str = "secret_";

/// The name of the month with the given number, or the word for "unknown"
/// where the number is none from 1 to 12.
pub open spec fn month_label(month: int) -> Seq<char> {
    if month == 1 {
        "一月"@
    } else if month == 2 {
        "二月"@
    } else if month == 3 {
        "三月"@
    } else if month == 4 {
        "四月"@
    } else if month == 5 {
        "五月"@
    } else if month == 6 {
        "六月"@
    } else if month == 7 {
        "七月"@
    } else if month == 8 {
        "八月"@
    } else if month == 9 {
        "九月"@
    } else if month == 10 {
        "十月"@
    } else if month == 11 {
        "十一月"@
    } else if month == 12 {
        "十二月"@
    } else {
        "未知"@
    }
}

/// The name of a month.
pub fn month_name(month: u32) -> (name: &'static str)
    ensures
        name@ == month_label(month as int),
{
    match month {
        1 => "一月",
        2 => "二月",
        3 => "三月",
        4 => "四月",
        5 => "五月",
        6 => "六月",
        7 => "七月",
        8 => "八月",
        9 => "九月",
        10 => "十月",
        11 => "十一月",
        12 => "十二月",
        _ => "未知",
    }
}

/// The name of a day of the week.
pub open spec fn weekday_label(weekday: Weekday) -> Seq<char> {
    match weekday {
        Weekday::Mon => "周一"@,
        Weekday::Tue => "周二"@,
        Weekday::Wed => "周三"@,
        Weekday::Thu => "周四"@,
        Weekday::Fri => "周五"@,
        Weekday::Sat => "周六"@,
        Weekday::Sun => "周日"@,
    }
}

/// The name of a day of the week.
pub fn weekday_name(weekday: Weekday) -> (name: &'static str)
    ensures
        name@ == weekday_label(weekday),
{
    match weekday {
        Weekday::Mon => "周一",
        Weekday::Tue => "周二",
        Weekday::Wed => "周三",
        Weekday::Thu => "周四",
        Weekday::Fri => "周五",
        Weekday::Sat => "周六",
        Weekday::Sun => "周日",
    }
}

/// The date in its long form.
pub fn format_date(date: &Date) -> (text: String)
    ensures
        text@ == pattern_text(date@, LONG_PATTERN@),
{
    date.to_long_text()
}

/// The date in its short form.
pub fn format_date_short(date: &Date) -> (text: String)
    ensures
        text@ == pattern_text(date@, SHORT_PATTERN@),
{
    date.to_short_text()
}

/// The ten colours handed out to sources, in turn.
pub open spec fn palette() -> Seq<Seq<char>> {
    seq![
        "#667eea"@,
        "#f093fb"@,
        "#4facfe"@,
        "#43e97b"@,
        "#fa709a"@,
        "#feca57"@,
        "#48dbfb"@,
        "#ff9ff3"@,
        "#54a0ff"@,
        "#5f27cd"@,
    ]
}

/// The colour of the source at the given place: the colours of the palette
/// in turn, starting over after the tenth.
pub fn generate_color(index: usize) -> (color: String)
    ensures
        color@ == palette()[index as int % 10],
{
    let turn: usize = index % 10;
    let color: &'static str = if turn == 0 {
        "#667eea"
    } else if turn == 1 {
        "#f093fb"
    } else if turn == 2 {
        "#4facfe"
    } else if turn == 3 {
        "#43e97b"
    } else if turn == 4 {
        "#fa709a"
    } else if turn == 5 {
        "#feca57"
    } else if turn == 6 {
        "#48dbfb"
    } else if turn == 7 {
        "#ff9ff3"
    } else if turn == 8 {
        "#54a0ff"
    } else {
        "#5f27cd"
    };
    owned(color)
}

/// Whether a text has the form of a credential: it starts with `secret_` and
/// is longer than 20 bytes.
pub fn is_valid_notion_key(key: &str) -> (valid: bool)
    ensures
        valid == (KEY_PREFIX@.is_prefix_of(key@) && utf8_len(key@) > 20),
{
    has_prefix(key, KEY_PREFIX) && byte_len(key) > 20
}

/// Whether a character is one of the digits of base 16, in either case.
pub open spec fn is_hex_digit(c: char) -> bool {
    ('0' <= c <= '9') || ('a' <= c <= 'f') || ('A' <= c <= 'F')
}

/// Whether every character of a text is a digit of base 16.
pub open spec fn all_hex(text: Seq<char>) -> bool {
    forall|i: int| 0 <= i < text.len() ==> is_hex_digit(#[trigger] text[i])
}

/// Whether a character is one of the digits of base 16, in either case.
pub fn is_hex_char(c: char) -> (hex: bool)
    ensures
        hex == is_hex_digit(c),
{
    ('0' <= c && c <= '9') || ('a' <= c && c <= 'f') || ('A' <= c && c <= 'F')
}

/// Whether a text has the form of a database identifier: 32 digits of base
/// 16, in either case.
pub fn is_valid_database_id(id: &str) -> (valid: bool)
    ensures
        valid == (id@.len() == 32 && all_hex(id@)),
        valid == (utf8_len(id@) == 32 && all_hex(id@)),
{
    proof {
        if all_hex(id@) {
            assert(vstd::utf8::is_ascii_chars(id@)) by {
                assert forall|i: int| 0 <= i < id@.len() implies '\0' <= #[trigger] id@[i]
                    <= '\x7f' by {
                    assert(is_hex_digit(id@[i]));
                }
            }
            vstd::utf8::is_ascii_chars_encode_utf8(id@);
        }
    }
    let n: usize = id.unicode_len();
    if n != 32 {
        return false;
    }
    let mut i: usize = 0;
    while i < n
        invariant
            i <= n,
            n == id@.len(),
            forall|k: int| 0 <= k < i ==> is_hex_digit(#[trigger] id@[k]),
        decreases n - i,
    {
        if !is_hex_char(id.get_char(i)) {
            return false;
        }
        i = i + 1;
    }
    true
}

/// The identifier as it is kept: without hyphens and in lower case.
pub open spec fn cleaned(id: Seq<char>) -> Seq<char> {
    lowercase_text(without_char(id, '-'))
}

/// A database identifier with its hyphens dropped and its letters lowered.
pub fn clean_database_id(id: &str) -> (clean: String)
    ensures
        clean@ == cleaned(id@),
{
    proof {
        reveal_strlit("-");
        reveal_strlit("");
    }
    let bare = replaced(id, "-", "");
    lowercased(bare.as_str())
}

} // verus!
