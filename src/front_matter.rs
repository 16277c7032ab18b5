//! The front matter block: a `+++` line at the top of a page, TOML text, a
//! closing `+++`, and the body of the page after it.
use vstd::prelude::*;

verus! {

/// The whitespace that may surround the block markers: space, tab, line
/// feed, vertical tab, form feed and carriage return.
pub open spec fn is_space(c: char) -> bool {
    c == ' ' || c == '\t' || c == '\n' || c == '\x0B' || c == '\x0C' || c == '\r'
}

/// The end of the run of whitespace that starts at `i`.
pub open spec fn space_end(s: Seq<char>, i: int) -> int
    decreases s.len() - i,
{
    if 0 <= i < s.len() && is_space(s[i]) {
        space_end(s, i + 1)
    } else {
        i
    }
}

/// The position of the last line feed in `s[lo..hi]`, if there is one.
pub open spec fn last_line_feed(s: Seq<char>, lo: int, hi: int) -> Option<int>
    decreases hi - lo,
{
    if hi <= lo {
        None
    } else if s[hi - 1] == '\n' {
        Some(hi - 1)
    } else {
        last_line_feed(s, lo, hi - 1)
    }
}

/// `s` holds the marker `+++` at `k`.
pub open spec fn marker_at(s: Seq<char>, k: int) -> bool {
    &&& 0 <= k
    &&& k + 3 <= s.len()
    &&& s[k] == '+'
    &&& s[k + 1] == '+'
    &&& s[k + 2] == '+'
}

/// A closing marker stands at `k`: the whitespace after it runs to the end
/// of the text, or holds a line feed.
pub open spec fn closes_at(s: Seq<char>, k: int) -> bool {
    &&& marker_at(s, k)
    &&& {
        let j = space_end(s, k + 3);
        j == s.len() || last_line_feed(s, k + 3, j) is Some
    }
}

/// The first closing marker at or after `k`.
pub open spec fn first_close(s: Seq<char>, k: int) -> Option<int>
    decreases s.len() - k,
{
    if k + 3 > s.len() {
        None
    } else if closes_at(s, k) {
        Some(k)
    } else {
        first_close(s, k + 1)
    }
}

/// The length of the line break at `b`: 2 for `\r\n`, 1 for `\n`, else 0.
pub open spec fn line_break_len(s: Seq<char>, b: int) -> int {
    if 0 <= b && b + 1 < s.len() && s[b] == '\r' && s[b + 1] == '\n' {
        2
    } else if 0 <= b < s.len() && s[b] == '\n' {
        1
    } else {
        0
    }
}

/// The body that follows a closing marker at `k`: nothing where only
/// whitespace follows, else all that comes after the last line feed of the
/// whitespace.
pub open spec fn body_after(s: Seq<char>, k: int) -> Seq<char> {
    let j = space_end(s, k + 3);
    if j == s.len() {
        Seq::empty()
    } else {
        s.subrange(last_line_feed(s, k + 3, j)->0 + 1, s.len() as int)
    }
}

/// The front matter and the body of a page. The page opens, after optional
/// whitespace, with `+++` and a line break; the front matter runs from that
/// line break to the first `+++` that is followed by whitespace reaching a
/// line break or the end of the page. `None` where there is no such block.
pub open spec fn front_matter_parts(s: Seq<char>) -> Option<(Seq<char>, Seq<char>)> {
    let open = space_end(s, 0);
    let b = open + 3;
    if !marker_at(s, open) || line_break_len(s, b) == 0 {
        None
    } else {
        match first_close(s, b + line_break_len(s, b)) {
            None => None,
            Some(k) => Some((s.subrange(b, k), body_after(s, k))),
        }
    }
}

/// The page that holds `front_matter` and `body`: markers around the front
/// matter, then one blank line before a body that is not empty.
pub open spec fn rendered(front_matter: Seq<char>, body: Seq<char>) -> Seq<char> {
    let marker = seq!['+', '+', '+'];
    let gap = if body.len() > 0 {
        seq!['\n']
    } else {
        Seq::empty()
    };
    marker + front_matter + marker + seq!['\n'] + gap + body
}

fn is_space_char(c: char) -> (r: bool)
    ensures
        r == is_space(c),
{
    c == ' ' || c == '\t' || c == '\n' || c == '\x0B' || c == '\x0C' || c == '\r'
}

pub(crate) fn chars_of(text: &str) -> (r: Vec<char>)
    ensures
        r@ == text@,
{
    let mut cs: Vec<char> = Vec::new();
    for c in it: text.chars()
        invariant
            cs@ == it.seq().take(it.index() as int),
    {
        cs.push(c);
    }
    cs
}

fn space_end_from(cs: &Vec<char>, i: usize) -> (r: usize)
    requires
        i <= cs.len(),
    ensures
        r == space_end(cs@, i as int),
        i <= r <= cs.len(),
{
    let mut j = i;
    while j < cs.len() && is_space_char(cs[j])
        invariant
            i <= j <= cs.len(),
            space_end(cs@, i as int) == space_end(cs@, j as int),
        decreases cs.len() - j,
    {
        j += 1;
    }
    j
}

fn last_line_feed_in(cs: &Vec<char>, lo: usize, hi: usize) -> (r: Option<usize>)
    requires
        lo <= hi <= cs.len(),
    ensures
        last_line_feed(cs@, lo as int, hi as int) == match r {
            Some(p) => Some(p as int),
            None => None,
        },
        r matches Some(p) ==> lo <= p < hi,
{
    let mut found: Option<usize> = None;
    let mut p = lo;
    while p < hi
        invariant
            lo <= p <= hi <= cs.len(),
            last_line_feed(cs@, lo as int, p as int) == match found {
                Some(x) => Some(x as int),
                None => None,
            },
            found matches Some(x) ==> lo <= x < p,
        decreases hi - p,
    {
        if cs[p] == '\n' {
            found = Some(p);
        }
        p += 1;
    }
    found
}

fn closes_at_exec(cs: &Vec<char>, k: usize) -> (r: bool)
    requires
        k + 3 <= cs.len(),
    ensures
        r == closes_at(cs@, k as int),
{
    if cs[k] == '+' && cs[k + 1] == '+' && cs[k + 2] == '+' {
        let j = space_end_from(cs, k + 3);
        j == cs.len() || last_line_feed_in(cs, k + 3, j).is_some()
    } else {
        false
    }
}

/// Splits a page into its front matter and its body; `None` where the page
/// does not open with a front matter block.
pub fn split_front_matter(text: &str) -> (r: Option<(String, String)>)
    ensures
        match front_matter_parts(text@) {
            None => r is None,
            Some((front_matter, body)) => r matches Some((f, b)) && f@ == front_matter && b@
                == body,
        },
{
    let cs = chars_of(text);
    let n = cs.len();
    let open = space_end_from(&cs, 0);
    if !(n - open >= 3 && cs[open] == '+' && cs[open + 1] == '+' && cs[open + 2] == '+') {
        return None;
    }
    let b = open + 3;
    let line_break: usize = if n - b >= 2 && cs[b] == '\r' && cs[b + 1] == '\n' {
        2
    } else if b < n && cs[b] == '\n' {
        1
    } else {
        0
    };
    if line_break == 0 {
        return None;
    }
    let start = b + line_break;
    let mut k = start;
    while n - k >= 3
        invariant
            n == cs@.len(),
            cs@ == text@,
            b <= start <= k <= n,
            open == space_end(cs@, 0),
            marker_at(cs@, open as int),
            b == open + 3,
            start == b + line_break,
            line_break == line_break_len(cs@, b as int) > 0,
            first_close(cs@, start as int) == first_close(cs@, k as int),
        decreases n - k,
    {
        if closes_at_exec(&cs, k) {
            let j = space_end_from(&cs, k + 3);
            let body = if j == n {
                String::new()
            } else {
                let p = last_line_feed_in(&cs, k + 3, j).unwrap();
                text.substring_char(p + 1, n).to_owned()
            };
            let front_matter = text.substring_char(b, k).to_owned();
            return Some((front_matter, body));
        }
        k += 1;
    }
    None
}

/// Puts a page back together from its front matter and its body.
pub fn render_front_matter(front_matter: &str, body: &str) -> (r: String)
    ensures
        r@ == rendered(front_matter@, body@),
{
    proof {
        reveal_strlit("+++");
        reveal_strlit("+++\n");
        reveal_strlit("\n");
    }
    let mut page = "+++".to_owned();
    page.append(front_matter);
    page.append("+++\n");
    if !body.is_empty() {
        page.append("\n");
    }
    page.append(body);
    assert(page@ =~= rendered(front_matter@, body@));
    page
}

} // verus!
