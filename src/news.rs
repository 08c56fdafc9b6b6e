use vstd::prelude::*;
use crate::message::ChatMessage;
use crate::text::{
    starts_with, ends_with, join_with, slice_of, join_strings, has_prefix, has_suffix, tail_from,
};

verus! {

/// The most stories that one news request lists.
pub const TOP_STORIES: usize = 10;

/// One story of the news provider.
pub struct Story {
    pub by: Option<String>,
    pub score: i16,
    pub time: i64,
    pub title: String,
    pub url: Option<String>,
}

/// `s` with every leading copy of `p` taken off.
pub open spec fn strip_leading(s: Seq<char>, p: Seq<char>) -> Seq<char>
    decreases s.len(),
{
    if p.len() > 0 && starts_with(s, p) {
        strip_leading(s.subrange(p.len() as int, s.len() as int), p)
    } else {
        s
    }
}

/// `s` with every trailing copy of `p` taken off.
pub open spec fn strip_trailing(s: Seq<char>, p: Seq<char>) -> Seq<char>
    decreases s.len(),
{
    if p.len() > 0 && ends_with(s, p) {
        strip_trailing(s.subrange(0, s.len() - p.len()), p)
    } else {
        s
    }
}

/// The pieces of `s` between the copies of `c`, in order.
pub open spec fn split_on(s: Seq<char>, c: char) -> Seq<Seq<char>>
    decreases s.len(),
{
    if s.len() == 0 {
        seq![Seq::<char>::empty()]
    } else {
        let p = split_on(s.drop_last(), c);
        if s.last() == c {
            p.push(Seq::<char>::empty())
        } else {
            p.update(p.len() - 1, p.last().push(s.last()))
        }
    }
}

/// `c` has Unicode's White_Space property.
pub open spec fn is_white_space(c: char) -> bool {
    let u = c as u32;
    (9 <= u <= 13) || u == 0x20 || u == 0x85 || u == 0xa0 || u == 0x1680 || (0x2000 <= u <= 0x200a)
        || u == 0x2028 || u == 0x2029 || u == 0x202f || u == 0x205f || u == 0x3000
}

/// `s` without its leading white space.
pub open spec fn trim_start_white(s: Seq<char>) -> Seq<char>
    decreases s.len(),
{
    if s.len() > 0 && is_white_space(s[0]) {
        trim_start_white(s.drop_first())
    } else {
        s
    }
}

/// `s` without its trailing white space.
pub open spec fn trim_end_white(s: Seq<char>) -> Seq<char>
    decreases s.len(),
{
    if s.len() > 0 && is_white_space(s.last()) {
        trim_end_white(s.drop_last())
    } else {
        s
    }
}

/// `s` without leading and trailing white space.
pub open spec fn trimmed(s: Seq<char>) -> Seq<char> {
    trim_end_white(trim_start_white(s))
}

/// `s` with every leading copy of `p` taken off, as `str::trim_start_matches`
/// does with a string pattern.
pub fn trim_leading(s: &str, p: &str) -> (r: String)
    ensures
        r@ == strip_leading(s@, p@),
{
    let m = p.unicode_len();
    let mut cur = String::from_str(s);
    if m == 0 {
        return cur;
    }
    loop
        invariant
            m == p@.len(),
            m > 0,
            strip_leading(cur@, p@) == strip_leading(s@, p@),
        decreases cur@.len(),
    {
        if !has_prefix(cur.as_str(), p) {
            return cur;
        }
        cur = tail_from(cur.as_str(), m);
    }
}

/// `s` with every trailing copy of `p` taken off, as `str::trim_end_matches`
/// does with a string pattern.
pub fn trim_trailing(s: &str, p: &str) -> (r: String)
    ensures
        r@ == strip_trailing(s@, p@),
{
    let m = p.unicode_len();
    let mut cur = String::from_str(s);
    if m == 0 {
        return cur;
    }
    loop
        invariant
            m == p@.len(),
            m > 0,
            strip_trailing(cur@, p@) == strip_trailing(s@, p@),
        decreases cur@.len(),
    {
        if !has_suffix(cur.as_str(), p) {
            return cur;
        }
        let n = cur.unicode_len();
        cur = slice_of(cur.as_str(), 0, n - m);
    }
}

/// Relies on `str::trim`: removes leading and trailing white space, which
/// std defines by Unicode's White_Space property.
#[verifier::external_body]
fn trim(s: &str) -> (r: String)
    ensures
        r@ == trimmed(s@),
{
    s.trim().to_string()
}

/// The pieces of `s` between the copies of `c`.
pub fn split_at_char(s: &str, c: char) -> (r: Vec<String>)
    ensures
        r@.map_values(|x: String| x@) == split_on(s@, c),
{
    let n = s.unicode_len();
    let mut pieces: Vec<String> = Vec::new();
    let mut start: usize = 0;
    let mut i: usize = 0;
    assert(s@.subrange(0, 0) =~= Seq::<char>::empty());
    assert(pieces@.map_values(|x: String| x@).push(s@.subrange(0, 0)) =~= seq![
        Seq::<char>::empty(),
    ]);
    while i < n
        invariant
            n == s@.len(),
            start <= i <= n,
            pieces@.map_values(|x: String| x@).push(s@.subrange(start as int, i as int))
                == split_on(s@.subrange(0, i as int), c),
        decreases n - i,
    {
        let ghost before = pieces@.map_values(|x: String| x@);
        proof {
            let t = s@.subrange(0, i + 1);
            assert(t.drop_last() =~= s@.subrange(0, i as int));
            assert(t.last() == s@[i as int]);
        }
        if s.get_char(i) == c {
            pieces.push(slice_of(s, start, i));
            assert(pieces@.map_values(|x: String| x@) =~= before.push(
                s@.subrange(start as int, i as int),
            ));
            start = i + 1;
            assert(s@.subrange(start as int, start as int) =~= Seq::<char>::empty());
        } else {
            assert(s@.subrange(start as int, i + 1) =~= s@.subrange(start as int, i as int).push(
                s@[i as int],
            ));
            assert(before.push(s@.subrange(start as int, i + 1)) =~= before.push(
                s@.subrange(start as int, i as int),
            ).update(before.len() as int, s@.subrange(start as int, i as int).push(s@[i as int])));
        }
        i = i + 1;
    }
    let ghost before = pieces@.map_values(|x: String| x@);
    pieces.push(slice_of(s, start, n));
    assert(pieces@.map_values(|x: String| x@) =~= before.push(s@.subrange(start as int, n as int)));
    assert(s@.subrange(0, n as int) =~= s@);
    pieces
}

/// The identifiers of the top stories in a provider listing such as
/// `[ 1, 2, 3 ]`: the comma-separated pieces inside the brackets, trimmed,
/// at most the first ten.
pub fn parse_story_ids(body: &str) -> (r: Vec<String>)
    ensures
        ({
            let pieces = split_on(strip_trailing(strip_leading(body@, "[ "@), " ]"@), ',');
            &&& r@.len() == if pieces.len() < TOP_STORIES { pieces.len() } else { TOP_STORIES as nat }
            &&& forall|i: int| 0 <= i < r@.len() ==> #[trigger] r@[i]@ == trimmed(pieces[i])
        }),
{
    let inner = trim_leading(body, "[ ");
    let inner = trim_trailing(inner.as_str(), " ]");
    let pieces = split_at_char(inner.as_str(), ',');
    let ghost views = pieces@.map_values(|x: String| x@);
    let mut ids: Vec<String> = Vec::new();
    let mut i: usize = 0;
    while i < pieces.len() && i < TOP_STORIES
        invariant
            i <= pieces@.len(),
            i <= TOP_STORIES,
            ids@.len() == i,
            views == pieces@.map_values(|x: String| x@),
            forall|j: int| 0 <= j < i ==> #[trigger] ids@[j]@ == trimmed(views[j]),
        decreases pieces@.len() - i,
    {
        ids.push(trim(pieces[i].as_str()));
        i = i + 1;
    }
    ids
}

/// The decimal digit `d`.
pub open spec fn digit_text(d: nat) -> Seq<char> {
    if d == 0 { "0"@ }
    else if d == 1 { "1"@ }
    else if d == 2 { "2"@ }
    else if d == 3 { "3"@ }
    else if d == 4 { "4"@ }
    else if d == 5 { "5"@ }
    else if d == 6 { "6"@ }
    else if d == 7 { "7"@ }
    else if d == 8 { "8"@ }
    else { "9"@ }
}

/// The decimal digits of `n`, without leading zeros.
pub open spec fn digits(n: nat) -> Seq<char>
    decreases n,
{
    if n < 10 {
        digit_text(n)
    } else {
        digits(n / 10) + digit_text(n % 10)
    }
}

/// `n` in decimal, with a minus sign when negative.
pub open spec fn decimal(n: int) -> Seq<char> {
    if n < 0 {
        "-"@ + digits((-n) as nat)
    } else {
        digits(n as nat)
    }
}

fn digit_string(d: u32) -> (r: String)
    requires
        d < 10,
    ensures
        r@ == digit_text(d as nat),
{
    let s = if d == 0 { "0" }
    else if d == 1 { "1" }
    else if d == 2 { "2" }
    else if d == 3 { "3" }
    else if d == 4 { "4" }
    else if d == 5 { "5" }
    else if d == 6 { "6" }
    else if d == 7 { "7" }
    else if d == 8 { "8" }
    else { "9" };
    String::from_str(s)
}

fn digits_string(n: u32) -> (r: String)
    ensures
        r@ == digits(n as nat),
    decreases n,
{
    if n < 10 {
        digit_string(n)
    } else {
        digits_string(n / 10).concat(digit_string(n % 10).as_str())
    }
}

/// `n` in decimal.
pub fn decimal_string(n: i16) -> (r: String)
    ensures
        r@ == decimal(n as int),
{
    if n < 0 {
        let m: i32 = -(n as i32);
        String::from_str("-").concat(digits_string(m as u32).as_str())
    } else {
        digits_string(n as u32)
    }
}

/// The text of an optional field: the value, or nothing.
pub open spec fn or_empty(v: Option<String>) -> Seq<char> {
    match v {
        Some(s) => s@,
        None => Seq::empty(),
    }
}

/// How one story is listed: score, title, author, and on a second line its
/// link.
pub open spec fn story_text(s: Story) -> Seq<char> {
    "▲ "@ + decimal(s.score as int) + " \t\""@ + s.title@ + "\" by "@ + or_empty(s.by) + "\n\t"@
        + or_empty(s.url)
}

/// The news listing: the stories in the provider's order, one after the
/// other.
pub open spec fn listing_text(stories: Seq<Story>) -> Seq<char> {
    join_with(stories.map_values(|s: Story| story_text(s)), "\n"@)
}

pub open spec fn news_failed_text() -> Seq<char> {
    "Couldn't retrieve Hacker News frontpage"@
}

fn optional_text(v: &Option<String>) -> (r: String)
    ensures
        r@ == or_empty(*v),
{
    match v {
        Some(s) => s.clone(),
        None => String::new(),
    }
}

/// The listing line of one story.
pub fn format_story(s: &Story) -> (r: String)
    ensures
        r@ == story_text(*s),
{
    String::from_str("▲ ").concat(decimal_string(s.score).as_str()).concat(" \t\"").concat(
        s.title.as_str(),
    ).concat("\" by ").concat(optional_text(&s.by).as_str()).concat("\n\t").concat(
        optional_text(&s.url).as_str(),
    )
}

/// The follow-up to `!news` once the fetch has ended: the listing of the
/// stories that came back, or a notice that the fetch failed.
pub fn news_reply(pending: &ChatMessage, stories: Option<Vec<Story>>) -> (r: ChatMessage)
    ensures
        r.sender@ == pending.sender@,
        r.chatroom@ == pending.chatroom@,
        r.target@ == pending.target@,
        r.timestamp == pending.timestamp,
        r.content@ == match stories {
            Some(v) => listing_text(v@),
            None => news_failed_text(),
        },
{
    let content = match stories {
        Some(v) => {
            let mut lines: Vec<String> = Vec::new();
            let mut i: usize = 0;
            while i < v.len()
                invariant
                    i <= v@.len(),
                    lines@.len() == i,
                    forall|j: int| 0 <= j < i ==> #[trigger] lines@[j]@ == story_text(v@[j]),
                decreases v@.len() - i,
            {
                lines.push(format_story(&v[i]));
                i = i + 1;
            }
            let text = join_strings(&lines, "\n");
            assert(lines@.map_values(|x: String| x@) =~= v@.map_values(|s: Story| story_text(s)));
            text
        },
        None => String::from_str("Couldn't retrieve Hacker News frontpage"),
    };
    ChatMessage {
        sender: pending.sender.clone(),
        timestamp: pending.timestamp,
        chatroom: pending.chatroom.clone(),
        content,
        target: pending.target.clone(),
    }
}

/// The stories of the fetches that succeeded, in the order of the fetches.
pub open spec fn kept(results: Seq<Option<Story>>) -> Seq<Story>
    decreases results.len(),
{
    if results.len() == 0 {
        Seq::empty()
    } else {
        let before = kept(results.drop_last());
        match results.last() {
            Some(s) => before.push(s),
            None => before,
        }
    }
}

/// The stories that were fetched, in ranking order; a failed fetch is left
/// out.
pub fn collect_stories(results: Vec<Option<Story>>) -> (r: Vec<Story>)
    ensures
        r@ == kept(results@),
{
    let ghost all = results@;
    let mut rest = results;
    let mut out: Vec<Story> = Vec::new();
    let ghost mut k: int = 0;
    assert(all.subrange(0, 0) =~= Seq::<Option<Story>>::empty());
    assert(all.subrange(0, all.len() as int) =~= all);
    while rest.len() > 0
        invariant
            0 <= k <= all.len(),
            rest@ == all.subrange(k, all.len() as int),
            out@ == kept(all.subrange(0, k)),
        decreases rest@.len(),
    {
        let item = rest.remove(0);
        proof {
            assert(all.subrange(0, k + 1).drop_last() =~= all.subrange(0, k));
            assert(item == all[k]);
            assert(rest@ =~= all.subrange(k + 1, all.len() as int));
        }
        match item {
            Some(story) => out.push(story),
            None => {},
        }
        proof {
            k = k + 1;
        }
    }
    assert(all.subrange(0, k) =~= all);
    out
}

} // verus!
