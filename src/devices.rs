use vstd::prelude::*;
use crate::pair::matches_at;

verus! {

/// Unicode's White_Space property, which `char::is_whitespace` tests.
pub open spec fn is_white(c: char) -> bool {
    c == '\t' || c == '\n' || c == '\u{0B}' || c == '\u{0C}' || c == '\r' || c == ' '
        || c == '\u{85}' || c == '\u{A0}' || c == '\u{1680}' || ('\u{2000}' <= c && c
        <= '\u{200A}') || c == '\u{2028}' || c == '\u{2029}' || c == '\u{202F}' || c
        == '\u{205F}' || c == '\u{3000}'
}

fn white(c: char) -> (r: bool)
    ensures
        r == is_white(c),
{
    c == '\t' || c == '\n' || c == '\u{0B}' || c == '\u{0C}' || c == '\r' || c == ' '
        || c == '\u{85}' || c == '\u{A0}' || c == '\u{1680}' || ('\u{2000}' <= c && c
        <= '\u{200A}') || c == '\u{2028}' || c == '\u{2029}' || c == '\u{202F}' || c
        == '\u{205F}' || c == '\u{3000}'
}

/// The first position in `[i, hi)` that is not whitespace, or `hi`.
pub open spec fn word_start(s: Seq<char>, i: int, hi: int) -> int
    decreases hi - i,
{
    if i >= hi {
        hi
    } else if !is_white(s[i]) {
        i
    } else {
        word_start(s, i + 1, hi)
    }
}

/// The first position in `[i, hi)` that is whitespace, or `hi`.
pub open spec fn word_end(s: Seq<char>, i: int, hi: int) -> int
    decreases hi - i,
{
    if i >= hi {
        hi
    } else if is_white(s[i]) {
        i
    } else {
        word_end(s, i + 1, hi)
    }
}

/// The serial that the line `s[lo..hi]` of a device listing names: its first
/// word, where its second word is `device`.
pub open spec fn device_of_line(s: Seq<char>, lo: int, hi: int) -> Option<Seq<char>> {
    let s0 = word_start(s, lo, hi);
    let e0 = word_end(s, s0, hi);
    let s1 = word_start(s, e0, hi);
    let e1 = word_end(s, s1, hi);
    if s1 < hi && s.subrange(s1, e1) == "device"@ {
        Some(s.subrange(s0, e0))
    } else {
        None
    }
}

pub open spec fn device_of(s: Seq<char>, lo: int, hi: int) -> Seq<Seq<char>> {
    match device_of_line(s, lo, hi) {
        Some(d) => seq![d],
        None => Seq::empty(),
    }
}

/// The serials of the attached devices named by the lines of `s` from
/// position `i` on, where the current line began at `start`; the line
/// that `header` marks is skipped. Lines end at `\n`; a last line may lack it.
pub open spec fn devices_from(s: Seq<char>, i: int, start: int, header: bool) -> Seq<Seq<char>>
    decreases s.len() - i,
{
    if i >= s.len() {
        if start < s.len() && !header {
            device_of(s, start, s.len() as int)
        } else {
            Seq::empty()
        }
    } else if s[i] == '\n' {
        (if header {
            Seq::empty()
        } else {
            device_of(s, start, i)
        }) + devices_from(s, i + 1, i + 1, false)
    } else {
        devices_from(s, i + 1, start, header)
    }
}

/// The serials that the output of `adb devices` lists as attached: after its
/// header line, the first word of each line whose second word is `device`.
pub open spec fn device_list(s: Seq<char>) -> Seq<Seq<char>> {
    devices_from(s, 0, 0, true)
}

fn skip_white(s: &str, i: usize, hi: usize) -> (r: usize)
    requires
        i <= hi <= s@.len(),
    ensures
        r == word_start(s@, i as int, hi as int),
        i <= r <= hi,
{
    let mut j = i;
    while j < hi && white(s.get_char(j))
        invariant
            i <= j <= hi <= s@.len(),
            word_start(s@, j as int, hi as int) == word_start(s@, i as int, hi as int),
        decreases hi - j,
    {
        j = j + 1;
    }
    j
}

fn skip_word(s: &str, i: usize, hi: usize) -> (r: usize)
    requires
        i <= hi <= s@.len(),
    ensures
        r == word_end(s@, i as int, hi as int),
        i <= r <= hi,
{
    let mut j = i;
    while j < hi && !white(s.get_char(j))
        invariant
            i <= j <= hi <= s@.len(),
            word_end(s@, j as int, hi as int) == word_end(s@, i as int, hi as int),
        decreases hi - j,
    {
        j = j + 1;
    }
    j
}

fn line_device(s: &str, lo: usize, hi: usize) -> (r: Option<String>)
    requires
        lo <= hi <= s@.len(),
    ensures
        match (r, device_of_line(s@, lo as int, hi as int)) {
            (Some(d), Some(v)) => d@ == v,
            (None, None) => true,
            _ => false,
        },
{
    let s0 = skip_white(s, lo, hi);
    let e0 = skip_word(s, s0, hi);
    let s1 = skip_white(s, e0, hi);
    let e1 = skip_word(s, s1, hi);
    let keyword = "device";
    proof {
        reveal_strlit("device");
    }
    if s1 < hi && e1 - s1 == 6 && matches_at(s, keyword, s1) {
        Some(String::from_str(s.substring_char(s0, e0)))
    } else {
        None
    }
}

/// The serials of the devices that the output of `adb devices` lists as attached.
pub fn parse_device_list(s: &str) -> (r: Vec<String>)
    ensures
        r@.map_values(|d: String| d@) == device_list(s@),
{
    let n = s.unicode_len();
    let mut found: Vec<String> = Vec::new();
    let mut start: usize = 0;
    let mut header = true;
    let mut i: usize = 0;
    while i < n
        invariant
            n == s@.len(),
            start <= i <= n,
            found@.map_values(|d: String| d@) + devices_from(s@, i as int, start as int, header)
                == device_list(s@),
        decreases n - i,
    {
        let ghost before = found@.map_values(|d: String| d@);
        if s.get_char(i) == '\n' {
            if !header {
                if let Some(d) = line_device(s, start, i) {
                    found.push(d);
                }
            }
            assert(found@.map_values(|d: String| d@) =~= before + (if header {
                Seq::empty()
            } else {
                device_of(s@, start as int, i as int)
            }));
            start = i + 1;
            header = false;
        }
        i = i + 1;
    }
    let ghost before = found@.map_values(|d: String| d@);
    if start < n && !header {
        if let Some(d) = line_device(s, start, n) {
            found.push(d);
        }
    }
    assert(found@.map_values(|d: String| d@) =~= before + devices_from(s@, n as int, start as int, header));
    found
}

} // verus!
