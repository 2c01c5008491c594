//! Texts of the settings window's navigation and "about" page: page titles, the build label
//! and the line about the first recorded day.

use vstd::prelude::*;
use crate::strings::str_equal;
use crate::text::{decimal, push_decimal};

verus! {

/// The navigation pages: tag and title.
pub open spec fn page_tag(i: int) -> Seq<char> {
    if i == 0 {
        "general"@
    } else if i == 1 {
        "appearance"@
    } else if i == 2 {
        "dictionaries"@
    } else if i == 3 {
        "advanced"@
    } else {
        "about"@
    }
}

/// The title of the `i`-th navigation page.
pub open spec fn page_label(i: int) -> Seq<char> {
    if i == 0 {
        "通用"@
    } else if i == 1 {
        "候选窗口"@
    } else if i == 2 {
        "词库"@
    } else if i == 3 {
        "高级"@
    } else {
        "关于"@
    }
}

fn page_tag_exec(i: usize) -> (r: &'static str)
    requires
        i < 5,
    ensures
        r@ == page_tag(i as int),
{
    if i == 0 {
        "general"
    } else if i == 1 {
        "appearance"
    } else if i == 2 {
        "dictionaries"
    } else if i == 3 {
        "advanced"
    } else {
        "about"
    }
}

fn page_label_exec(i: usize) -> (r: &'static str)
    requires
        i < 5,
    ensures
        r@ == page_label(i as int),
{
    if i == 0 {
        "通用"
    } else if i == 1 {
        "候选窗口"
    } else if i == 2 {
        "词库"
    } else if i == 3 {
        "高级"
    } else {
        "关于"
    }
}

/// The title shown for a page tag: the title of the first page with that tag, or the tag
/// itself for an unknown tag.
pub fn page_title(tag: &str) -> (r: String)
    ensures
        (exists|i: int| 0 <= i < 5 && page_tag(i) == tag@) ==> (exists|i: int|
            0 <= i < 5 && page_tag(i) == tag@ && r@ == page_label(i) && forall|j: int|
                0 <= j < i ==> page_tag(j) != tag@),
        !(exists|i: int| 0 <= i < 5 && page_tag(i) == tag@) ==> r@ == tag@,
{
    let mut i: usize = 0;
    while i < 5
        invariant
            i <= 5,
            forall|j: int| 0 <= j < i ==> page_tag(j) != tag@,
        decreases 5 - i,
    {
        if str_equal(page_tag_exec(i), tag) {
            return String::from_str(page_label_exec(i));
        }
        i = i + 1;
    }
    String::from_str(tag)
}

/// The index of the first `@` of `b` at or after `from`, or the length of `b` when none.
pub open spec fn first_at(b: Seq<char>, from: int) -> int
    decreases b.len() - from,
{
    if from >= b.len() {
        b.len() as int
    } else if b[from] == '@' {
        from
    } else {
        first_at(b, from + 1)
    }
}

/// The build shown on the "about" page: the part after the first `@` of the build stamp
/// (short hash and date, without the branch), or `本地构建` without a stamp or without `@`.
pub open spec fn build_label_spec(build: Option<Seq<char>>) -> Seq<char> {
    match build {
        Some(b) => if first_at(b, 0) < b.len() {
            b.subrange(first_at(b, 0) + 1, b.len() as int)
        } else {
            "本地构建"@
        },
        None => "本地构建"@,
    }
}

/// The build label from the build stamp `branch@hash (date)`.
pub fn build_label(build: Option<&str>) -> (r: String)
    ensures
        r@ == build_label_spec(match build {
            Some(b) => Some(b@),
            None => None,
        }),
{
    match build {
        Some(b) => {
            let n = b.unicode_len();
            let mut i: usize = 0;
            while i < n
                invariant
                    build == Some(b),
                    n == b@.len(),
                    i <= n,
                    first_at(b@, 0) == first_at(b@, i as int),
                decreases n - i,
            {
                let c = b.get_char(i);
                if c == '@' {
                    let r = String::from_str(b.substring_char(i + 1, n));
                    assert(r@ == b@.subrange(i + 1, n as int));
                    return r;
                }
                i = i + 1;
            }
            String::from_str("本地构建")
        },
        None => String::from_str("本地构建"),
    }
}

/// The line under the usage table.
pub open spec fn since_line_spec(since: Option<Seq<char>>, days: u64) -> Seq<char> {
    match since {
        Some(date) => "自 "@ + date + " 起，有输入的天数 "@ + decimal(days as nat) + "。"@,
        None => "还没有记录，打几个字再来看。"@,
    }
}

/// Since when input was recorded and on how many days; `since` is the first day, written as
/// a date.
pub fn since_line(since: Option<&str>, days: u64) -> (r: String)
    ensures
        r@ == since_line_spec(match since {
            Some(d) => Some(d@),
            None => None,
        }, days),
{
    match since {
        Some(date) => {
            let mut s = String::from_str("自 ");
            s.append(date);
            s.append(" 起，有输入的天数 ");
            push_decimal(&mut s, days);
            s.append("。");
            s
        },
        None => String::from_str("还没有记录，打几个字再来看。"),
    }
}

} // verus!
