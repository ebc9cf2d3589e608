//! Trying out a list of proxies: which lines of a list are proxies, and whether the address that a
//! service sees through a proxy shows that the proxy works.
use vstd::prelude::*;

verus! {

/// Whether `text` starts with `prefix`.
pub open spec fn has_prefix(text: Seq<char>, prefix: Seq<char>) -> bool {
    prefix.len() <= text.len() && text.take(prefix.len() as int) == prefix
}

/// Whether `part` occurs at `at` in `text`.
pub open spec fn occurs_at(text: Seq<char>, part: Seq<char>, at: int) -> bool {
    0 <= at && at + part.len() <= text.len() && text.subrange(at, at + part.len()) == part
}

/// Whether `part` occurs in `text`.
pub open spec fn has_part(text: Seq<char>, part: Seq<char>) -> bool {
    exists|at: int| occurs_at(text, part, at)
}

/// Whether `c` is white space: the characters with the Unicode property `White_Space`.
pub open spec fn white_space(c: char) -> bool {
    ||| '\u{9}' <= c && c <= '\u{d}'
    ||| c == '\u{20}'
    ||| c == '\u{85}'
    ||| c == '\u{a0}'
    ||| c == '\u{1680}'
    ||| '\u{2000}' <= c && c <= '\u{200a}'
    ||| c == '\u{2028}'
    ||| c == '\u{2029}'
    ||| c == '\u{202f}'
    ||| c == '\u{205f}'
    ||| c == '\u{3000}'
}

/// Whether `c` is white space.
pub fn is_white_space(c: char) -> (r: bool)
    ensures
        r == white_space(c),
{
    ('\u{9}' <= c && c <= '\u{d}') || c == '\u{20}' || c == '\u{85}' || c == '\u{a0}' || c
        == '\u{1680}' || ('\u{2000}' <= c && c <= '\u{200a}') || c == '\u{2028}' || c == '\u{2029}'
        || c == '\u{202f}' || c == '\u{205f}' || c == '\u{3000}'
}

/// `text` without the white space that it starts with.
pub open spec fn trimmed_start(text: Seq<char>) -> Seq<char>
    decreases text.len(),
{
    if text.len() > 0 && white_space(text[0]) {
        trimmed_start(text.drop_first())
    } else {
        text
    }
}

/// `text` without the white space that it ends with.
pub open spec fn trimmed_end(text: Seq<char>) -> Seq<char>
    decreases text.len(),
{
    if text.len() > 0 && white_space(text.last()) {
        trimmed_end(text.drop_last())
    } else {
        text
    }
}

/// `text` without the white space around it.
pub open spec fn trimmed(text: Seq<char>) -> Seq<char> {
    trimmed_end(trimmed_start(text))
}

/// The characters of `text`.
fn chars_of(text: &str) -> (r: Vec<char>)
    ensures
        r@ == text@,
{
    let mut chars: Vec<char> = Vec::new();
    for c in it: text.chars()
        invariant
            it.seq() == text@,
            chars@ == text@.take(it.index()),
    {
        chars.push(c);
    }
    chars
}

/// `text` without the white space around it.
pub fn trim(text: &str) -> (r: String)
    ensures
        r@ == trimmed(text@),
{
    let chars = chars_of(text);
    let mut start: usize = 0;
    assert(text@.skip(0) =~= text@);
    while start < chars.len() && is_white_space(chars[start])
        invariant
            chars@ == text@,
            start <= chars.len(),
            trimmed_start(text@) == trimmed_start(text@.skip(start as int)),
        ensures
            trimmed_start(text@) == text@.skip(start as int),
            start <= chars.len(),
        decreases chars.len() - start,
    {
        assert(text@.skip(start as int).drop_first() =~= text@.skip(start as int + 1));
        start = start + 1;
    }
    let mut end: usize = chars.len();
    assert(text@.skip(start as int) =~= text@.subrange(start as int, end as int));
    while start < end && is_white_space(chars[end - 1])
        invariant
            chars@ == text@,
            start <= end <= chars.len(),
            trimmed(text@) == trimmed_end(text@.subrange(start as int, end as int)),
        ensures
            start <= end <= chars.len(),
            trimmed(text@) == text@.subrange(start as int, end as int),
        decreases end,
    {
        assert(text@.subrange(start as int, end as int).drop_last() =~= text@.subrange(
            start as int,
            end as int - 1,
        ));
        end = end - 1;
    }
    text.substring_char(start, end).to_owned()
}

/// Whether `part` occurs at `at` in `text`.
fn matches_at(text: &Vec<char>, part: &Vec<char>, at: usize) -> (r: bool)
    ensures
        r == occurs_at(text@, part@, at as int),
{
    if part.len() > text.len() || at > text.len() - part.len() {
        return false;
    }
    let mut i: usize = 0;
    while i < part.len()
        invariant
            i <= part.len(),
            at + part.len() <= text.len(),
            forall|j: int| 0 <= j < i ==> text@[at + j] == part@[j],
        decreases part.len() - i,
    {
        if text[at + i] != part[i] {
            assert(text@.subrange(at as int, at + part.len())[i as int] == text@[at + i]);
            return false;
        }
        i = i + 1;
    }
    assert(text@.subrange(at as int, at + part.len()) =~= part@);
    true
}

/// Whether `part` occurs in `text`.
pub fn contains(text: &str, part: &str) -> (r: bool)
    ensures
        r == has_part(text@, part@),
{
    let text_chars = chars_of(text);
    let part_chars = chars_of(part);
    let mut at: usize = 0;
    while at < text_chars.len()
        invariant
            at <= text_chars.len(),
            text_chars@ == text@,
            part_chars@ == part@,
            forall|i: int| 0 <= i < at ==> !occurs_at(text@, part@, i),
        decreases text_chars.len() - at,
    {
        if matches_at(&text_chars, &part_chars, at) {
            return true;
        }
        at = at + 1;
    }
    matches_at(&text_chars, &part_chars, at)
}

/// Whether `text` starts with `prefix`.
pub fn starts_with(text: &str, prefix: &str) -> (r: bool)
    ensures
        r == has_prefix(text@, prefix@),
{
    let text_chars = chars_of(text);
    let prefix_chars = chars_of(prefix);
    assert(prefix@.len() <= text@.len() ==> text@.take(prefix@.len() as int) =~= text@.subrange(
        0,
        prefix@.len() as int,
    ));
    matches_at(&text_chars, &prefix_chars, 0)
}

/// The lines that are proxies: those that start with `ss://`, in their order.
pub open spec fn ss_lines(lines: Seq<Seq<char>>) -> Seq<Seq<char>> {
    lines.filter(|line: Seq<char>| has_prefix(line, "ss://"@))
}

/// The proxies in a list with one to a line. Lines that are no `ss://` URL are passed over.
pub fn proxy_ss_urls(lines: Vec<String>) -> (r: Vec<String>)
    ensures
        r.deep_view() == ss_lines(lines.deep_view()),
{
    let mut urls: Vec<String> = Vec::new();
    let mut i: usize = 0;
    let ghost all = lines.deep_view();
    proof {
        reveal(Seq::filter);
        assert(urls.deep_view() =~= ss_lines(all.take(0)));
    }
    while i < lines.len()
        invariant
            i <= lines.len(),
            all == lines.deep_view(),
            urls.deep_view() == ss_lines(all.take(i as int)),
        decreases lines.len() - i,
    {
        let ghost before = urls.deep_view();
        let ghost taken = all.take(i as int + 1);
        proof {
            reveal(Seq::filter);
            assert(taken.drop_last() =~= all.take(i as int));
            assert(taken.last() == lines@[i as int]@);
        }
        if starts_with(lines[i].as_str(), "ss://") {
            urls.push(lines[i].clone());
            assert(urls.deep_view() =~= before.push(lines@[i as int]@));
        }
        i = i + 1;
    }
    assert(all.take(i as int) =~= all);
    urls
}

/// The address that a service answered with, where the answer can be one: there is something to it
/// besides white space, and it does not speak of an `Error`.
pub open spec fn usable_ip(body: Seq<char>) -> Option<Seq<char>> {
    let ip = trimmed(body);
    if ip.len() > 0 && !has_part(ip, "Error"@) {
        Some(ip)
    } else {
        None
    }
}

/// The address in the answer of a service, where there is one.
pub fn ip_in(body: &str) -> (r: Option<String>)
    ensures
        r.deep_view() == usable_ip(body@),
{
    let ip = trim(body);
    if ip.as_str().is_empty() || contains(ip.as_str(), "Error") {
        None
    } else {
        Some(ip)
    }
}

/// What to do once a service was asked.
#[derive(Debug, PartialEq, Eq)]
pub enum Step {
    /// Ask the service at this place in the list.
    Ask(usize),
    /// Ask no more; with the address that was found, if any.
    Done(Option<String>),
}

/// Whether `r` ends with `found`, where there is something, and else goes on down the list.
pub open spec fn steps(asked: int, services: int, found: Option<Seq<char>>, r: Step) -> bool {
    match found {
        Some(ip) => r matches Step::Done(Some(text)) && text@ == ip,
        None => if asked + 1 < services {
            r == Step::Ask((asked + 1) as usize)
        } else {
            r == Step::Done(None)
        },
    }
}

/// Ends with `found`, where there is something, and else goes on down the list.
fn step(asked: usize, services: usize, found: Option<String>) -> (r: Step)
    ensures
        steps(asked as int, services as int, found.deep_view(), r),
{
    match found {
        Some(ip) => Step::Done(Some(ip)),
        None => if asked < services && asked + 1 < services {
            Step::Ask(asked + 1)
        } else {
            Step::Done(None)
        },
    }
}

/// Goes on in finding the client's own address, after the service at `asked` of `services` gave
/// `answer`, or none: the first usable answer is taken.
pub fn next_service(asked: usize, services: usize, answer: Option<&str>) -> (r: Step)
    ensures
        steps(
            asked as int,
            services as int,
            match answer.deep_view() {
                Some(body) => usable_ip(body),
                None => None,
            },
            r,
        ),
{
    let found = match answer {
        Some(body) => ip_in(body),
        None => None,
    };
    step(asked, services, found)
}

/// Goes on in trying a proxy, after the service at `asked` of `services` gave `answer` through it,
/// or none: the first answer is taken, whatever it says.
pub fn next_probe(asked: usize, services: usize, answer: Option<&str>) -> (r: Step)
    ensures
        steps(
            asked as int,
            services as int,
            match answer.deep_view() {
                Some(body) => Some(trimmed(body)),
                None => None,
            },
            r,
        ),
{
    let found = match answer {
        Some(body) => Some(trim(body)),
        None => None,
    };
    step(asked, services, found)
}

/// How a proxy did.
#[derive(Clone, Copy, Debug, PartialEq, Eq, Structural)]
pub enum Verdict {
    /// The service sees another address through the proxy.
    Working,
    /// The service sees the same address as without the proxy.
    SameIp,
    /// No service answered through the proxy.
    Unreachable,
}

/// Judges a proxy by the address that a service saw through it, if any did, and by the client's
/// own.
pub fn judge(proxy_ip: Option<&str>, real_ip: &str) -> (r: Verdict)
    ensures
        r == (match proxy_ip.deep_view() {
            Some(ip) => if ip == real_ip@ {
                Verdict::SameIp
            } else {
                Verdict::Working
            },
            None => Verdict::Unreachable,
        }),
{
    match proxy_ip {
        Some(ip) => if ip.to_owned() == real_ip.to_owned() {
            Verdict::SameIp
        } else {
            Verdict::Working
        },
        None => Verdict::Unreachable,
    }
}

/// White space is exactly the characters with these code points.
pub proof fn white_space_code_points(c: char, r: bool)
    requires
        call_ensures(is_white_space, (c,), r),
    ensures
        r <==> {
            let n = c as int;
            ||| 9 <= n <= 13
            ||| n == 32
            ||| n == 133
            ||| n == 160
            ||| n == 5760
            ||| 8192 <= n <= 8202
            ||| n == 8232
            ||| n == 8233
            ||| n == 8239
            ||| n == 8287
            ||| n == 12288
        },
        white_space(c) == r,
{
}

proof fn lemma_trimmed_start(space: Seq<char>, rest: Seq<char>)
    requires
        forall|i: int| 0 <= i < space.len() ==> white_space(#[trigger] space[i]),
        rest.len() > 0 ==> !white_space(rest[0]),
    ensures
        trimmed_start(space + rest) == rest,
    decreases space.len(),
{
    if space.len() > 0 {
        assert((space + rest)[0] == space[0]);
        assert((space + rest).drop_first() =~= space.drop_first() + rest);
        assert forall|i: int| 0 <= i < space.drop_first().len() implies white_space(
            #[trigger] space.drop_first()[i],
        ) by {
            assert(space.drop_first()[i] == space[i + 1]);
        }
        lemma_trimmed_start(space.drop_first(), rest);
    } else {
        assert(space + rest =~= rest);
    }
}

proof fn lemma_trimmed_end(rest: Seq<char>, space: Seq<char>)
    requires
        forall|i: int| 0 <= i < space.len() ==> white_space(#[trigger] space[i]),
        rest.len() > 0 ==> !white_space(rest.last()),
    ensures
        trimmed_end(rest + space) == rest,
    decreases space.len(),
{
    if space.len() > 0 {
        assert((rest + space).last() == space.last());
        assert((rest + space).drop_last() =~= rest + space.drop_last());
        lemma_trimmed_end(rest, space.drop_last());
    } else {
        assert(rest + space =~= rest);
    }
}

proof fn lemma_trimmed(before: Seq<char>, middle: Seq<char>, after: Seq<char>)
    requires
        forall|i: int| 0 <= i < before.len() ==> white_space(#[trigger] before[i]),
        forall|i: int| 0 <= i < after.len() ==> white_space(#[trigger] after[i]),
        middle.len() > 0 ==> !white_space(middle[0]) && !white_space(middle.last()),
    ensures
        trimmed(before + middle + after) == middle,
{
    if middle.len() > 0 {
        assert(before + middle + after =~= before + (middle + after));
        lemma_trimmed_start(before, middle + after);
        lemma_trimmed_end(middle, after);
    } else {
        let space = before + after;
        assert(before + middle + after =~= space + Seq::<char>::empty());
        lemma_trimmed_start(space, Seq::empty());
        assert(middle =~= Seq::<char>::empty());
    }
}

/// Trimming takes away the white space before and behind a text and nothing else: what stands
/// between, from the first character that is none to the last, is kept as it is.
pub proof fn trim_removes_the_space_around(
    text: &str,
    before: Seq<char>,
    middle: Seq<char>,
    after: Seq<char>,
    r: String,
)
    requires
        call_ensures(trim, (text,), r),
        text@ == before + middle + after,
        forall|i: int| 0 <= i < before.len() ==> white_space(#[trigger] before[i]),
        forall|i: int| 0 <= i < after.len() ==> white_space(#[trigger] after[i]),
        middle.len() > 0 ==> !white_space(middle[0]) && !white_space(middle.last()),
    ensures
        r@ == middle,
{
    lemma_trimmed(before, middle, after);
}

/// A text holds a part exactly when it is the part with something before and behind it, either of
/// which may be nothing.
pub proof fn contains_finds_every_place(text: &str, part: &str, r: bool)
    requires
        call_ensures(contains, (text, part), r),
    ensures
        forall|before: Seq<char>, after: Seq<char>|
            text@ == #[trigger] (before + part@ + after) ==> r,
        r ==> exists|before: Seq<char>, after: Seq<char>|
            text@ == #[trigger] (before + part@ + after),
{
    assert forall|before: Seq<char>, after: Seq<char>|
        text@ == #[trigger] (before + part@ + after) implies r by {
        assert(text@.subrange(before.len() as int, before.len() as int + part@.len()) =~= part@);
        assert(occurs_at(text@, part@, before.len() as int));
    }
    if r {
        let at = choose|at: int| occurs_at(text@, part@, at);
        let before = text@.take(at);
        let after = text@.skip(at + part@.len());
        assert(text@ =~= before + text@.subrange(at, at + part@.len()) + after);
        assert(text@ == before + part@ + after);
    }
}

/// A text starts with a prefix exactly when its first characters are those of the prefix.
pub proof fn starts_with_reads_the_first_characters(text: &str, prefix: &str, r: bool)
    requires
        call_ensures(starts_with, (text, prefix), r),
    ensures
        r <==> prefix@.len() <= text@.len() && forall|i: int|
            0 <= i < prefix@.len() ==> #[trigger] text@[i] == prefix@[i],
{
    if prefix@.len() <= text@.len() {
        let head = text@.take(prefix@.len() as int);
        if forall|i: int| 0 <= i < prefix@.len() ==> #[trigger] text@[i] == prefix@[i] {
            assert(head =~= prefix@);
        }
        if r {
            assert forall|i: int| 0 <= i < prefix@.len() implies #[trigger] text@[i]
                == prefix@[i] by {
                assert(head[i] == text@[i]);
            }
        }
    }
}

proof fn lemma_ss_prefix(line: Seq<char>)
    ensures
        has_prefix(line, "ss://"@) <==> line.len() >= 5 && line[0] == 's' && line[1] == 's'
            && line[2] == ':' && line[3] == '/' && line[4] == '/',
{
    reveal_strlit("ss://");
    if line.len() >= 5 {
        let head = line.take(5);
        assert(head[0] == line[0] && head[1] == line[1] && head[2] == line[2] && head[3] == line[3]
            && head[4] == line[4]);
        if line[0] == 's' && line[1] == 's' && line[2] == ':' && line[3] == '/' && line[4] == '/' {
            assert(head =~= "ss://"@);
        }
    }
}

/// One more line in a list adds that line to its proxies, in the last place, if the line's first
/// five characters are `ss://`, whatever follows them. Any other line changes nothing. An empty list
/// has no proxies.
pub proof fn each_line_counts_by_itself(
    lines: Vec<String>,
    line: String,
    longer: Vec<String>,
    urls: Vec<String>,
    more_urls: Vec<String>,
)
    requires
        call_ensures(proxy_ss_urls, (lines,), urls),
        call_ensures(proxy_ss_urls, (longer,), more_urls),
        longer.deep_view() == lines.deep_view().push(line@),
    ensures
        lines@.len() == 0 ==> urls@.len() == 0,
        line@.len() >= 5 && line@[0] == 's' && line@[1] == 's' && line@[2] == ':' && line@[3] == '/'
            && line@[4] == '/' ==> more_urls.deep_view() == urls.deep_view().push(line@),
        !(line@.len() >= 5 && line@[0] == 's' && line@[1] == 's' && line@[2] == ':' && line@[3]
            == '/' && line@[4] == '/') ==> more_urls.deep_view() == urls.deep_view(),
{
    ss_lines_of_one_more(lines.deep_view(), line@);
    if lines@.len() == 0 {
        ss_lines_of_none();
        assert(lines.deep_view() =~= Seq::empty());
    }
}

/// The same of the lists of texts themselves.
pub proof fn ss_lines_of_one_more(lines: Seq<Seq<char>>, line: Seq<char>)
    ensures
        line.len() >= 5 && line[0] == 's' && line[1] == 's' && line[2] == ':' && line[3] == '/'
            && line[4] == '/' ==> ss_lines(lines.push(line)) == ss_lines(lines).push(line),
        !(line.len() >= 5 && line[0] == 's' && line[1] == 's' && line[2] == ':' && line[3] == '/'
            && line[4] == '/') ==> ss_lines(lines.push(line)) == ss_lines(lines),
{
    reveal(Seq::filter);
    lemma_ss_prefix(line);
    assert(lines.push(line).drop_last() =~= lines);
}

/// A list without lines has no proxies.
pub proof fn ss_lines_of_none()
    ensures
        ss_lines(Seq::empty()) == Seq::<Seq<char>>::empty(),
{
    reveal(Seq::filter);
}

/// The proxies of a list are exactly those of its lines whose first five characters are `ss://`.
pub proof fn proxies_are_the_ss_lines(lines: Vec<String>, urls: Vec<String>, line: Seq<char>)
    requires
        call_ensures(proxy_ss_urls, (lines,), urls),
    ensures
        urls.deep_view().contains(line) <==> lines.deep_view().contains(line) && line.len() >= 5
            && line[0] == 's' && line[1] == 's' && line[2] == ':' && line[3] == '/' && line[4]
            == '/',
{
    lemma_ss_lines_contains(lines.deep_view(), line);
}

proof fn lemma_ss_lines_contains(lines: Seq<Seq<char>>, line: Seq<char>)
    ensures
        ss_lines(lines).contains(line) <==> lines.contains(line) && line.len() >= 5 && line[0]
            == 's' && line[1] == 's' && line[2] == ':' && line[3] == '/' && line[4] == '/',
    decreases lines.len(),
{
    if lines.len() == 0 {
        ss_lines_of_none();
        assert(lines =~= Seq::empty());
    } else {
        let shorter = lines.drop_last();
        let last = lines.last();
        assert(shorter.push(last) =~= lines);
        lemma_ss_lines_contains(shorter, line);
        ss_lines_of_one_more(shorter, last);
        lemma_contains_push(shorter, last, line);
        lemma_contains_push(ss_lines(shorter), last, line);
    }
}

proof fn lemma_contains_push(list: Seq<Seq<char>>, last: Seq<char>, item: Seq<char>)
    ensures
        list.push(last).contains(item) <==> list.contains(item) || item == last,
{
    let longer = list.push(last);
    if list.contains(item) {
        let i = choose|i: int| 0 <= i < list.len() && list[i] == item;
        assert(longer[i] == item);
    }
    if item == last {
        assert(longer[list.len() as int] == item);
    }
    if longer.contains(item) {
        let i = choose|i: int| 0 <= i < longer.len() && longer[i] == item;
        if i < list.len() {
            assert(list[i] == item);
        }
    }
}

/// The answer of a service gives an address exactly when there is something to it besides white
/// space and the letters `Error` occur nowhere in that. The address is what there is, as it stands.
pub proof fn ip_is_the_answer_without_space(
    body: &str,
    before: Seq<char>,
    middle: Seq<char>,
    after: Seq<char>,
    r: Option<String>,
)
    requires
        call_ensures(ip_in, (body,), r),
        body@ == before + middle + after,
        forall|i: int| 0 <= i < before.len() ==> white_space(#[trigger] before[i]),
        forall|i: int| 0 <= i < after.len() ==> white_space(#[trigger] after[i]),
        middle.len() > 0 ==> !white_space(middle[0]) && !white_space(middle.last()),
    ensures
        r is None <==> middle.len() == 0 || exists|i: int|
            0 <= i <= middle.len() - 5 && #[trigger] middle[i] == 'E' && middle[i + 1] == 'r'
                && middle[i + 2] == 'r' && middle[i + 3] == 'o' && middle[i + 4] == 'r',
        r matches Some(ip) ==> ip@ == middle,
{
    lemma_trimmed(before, middle, after);
    reveal_strlit("Error");
    if has_part(middle, "Error"@) {
        let at = choose|at: int| occurs_at(middle, "Error"@, at);
        let part = middle.subrange(at, at + 5);
        assert(part[0] == middle[at] && part[1] == middle[at + 1] && part[2] == middle[at + 2]
            && part[3] == middle[at + 3] && part[4] == middle[at + 4]);
    }
    assert forall|i: int|
        0 <= i <= middle.len() - 5 && #[trigger] middle[i] == 'E' && middle[i + 1] == 'r'
            && middle[i + 2] == 'r' && middle[i + 3] == 'o' && middle[i + 4] == 'r' implies has_part(
        middle,
        "Error"@,
    ) by {
        assert(middle.subrange(i, i + 5) =~= "Error"@);
        assert(occurs_at(middle, "Error"@, i));
    }
}

/// The first answer through a proxy ends the trial with that answer, trimmed, whichever service
/// gave it and however many there are. Without an answer the next service down the list is asked,
/// and after the last one the trial ends with nothing.
pub proof fn probe_ends_with_the_first_answer(
    asked: usize,
    services: usize,
    answer: Option<&str>,
    r: Step,
)
    requires
        call_ensures(next_probe, (asked, services, answer), r),
    ensures
        answer matches Some(body) ==> (r matches Step::Done(Some(text)) && text@ == trimmed(body@)),
        answer is None && asked + 1 < services ==> (r matches Step::Ask(next) && next == asked + 1),
        answer is None && asked + 1 >= services ==> r == Step::Done(None),
{
}

/// The search for the client's own address ends with the first answer that gives one, whichever
/// service gave it and however many there are. After an answer that gives none, or no answer, the
/// next service down the list is asked, and after the last one the search ends with nothing.
pub proof fn search_ends_with_the_first_address(
    asked: usize,
    services: usize,
    answer: Option<&str>,
    address: Option<String>,
    r: Step,
)
    requires
        call_ensures(next_service, (asked, services, answer), r),
        match answer {
            Some(body) => call_ensures(ip_in, (body,), address),
            None => address is None,
        },
    ensures
        address matches Some(ip) ==> (r matches Step::Done(Some(text)) && text@ == ip@),
        address is None && asked + 1 < services ==> (r matches Step::Ask(next) && next == asked
            + 1),
        address is None && asked + 1 >= services ==> r == Step::Done(None),
{
}

/// Over a whole trial, in which the services are asked from the first on and `results` are the
/// steps that follow their answers: if the service at `first` is the first to answer, all steps
/// before it lead to the next service and its own ends the trial with its answer, trimmed. If none
/// answers, the step after the last service ends the trial with nothing.
pub proof fn whole_probe(services: usize, answers: Seq<Option<&str>>, results: Seq<Step>, first: int)
    requires
        0 < services,
        answers.len() == services,
        results.len() == services,
        forall|i: usize|
            i < services ==> call_ensures(
                next_probe,
                (i, services, #[trigger] answers[i as int]),
                results[i as int],
            ),
        0 <= first <= services,
        forall|i: int| 0 <= i < first ==> #[trigger] answers[i] is None,
        first < services ==> answers[first] is Some,
    ensures
        forall|i: int|
            0 <= i < first && i + 1 < services ==> (#[trigger] results[i] matches Step::Ask(next)
                && next == i + 1),
        first < services ==> (results[first] matches Step::Done(Some(text)) && text@ == trimmed(
            answers[first]->0@,
        )),
        first == services ==> results[services - 1] == Step::Done(None),
{
    assert forall|i: int| 0 <= i < services implies call_ensures(
        next_probe,
        (i as usize, services, answers[i]),
        #[trigger] results[i],
    ) by {
        assert(i as usize as int == i);
        assert(answers[(i as usize) as int] == answers[i]);
    }
    if first < services {
        assert(call_ensures(next_probe, (first as usize, services, answers[first]), results[first]));
    } else {
        assert(call_ensures(
            next_probe,
            ((services - 1) as usize, services, answers[services - 1]),
            results[services - 1],
        ));
    }
}

/// A proxy is unreachable exactly when no address came back through it, and has the client's own
/// address exactly when the two are the same text.
pub proof fn verdict_compares_the_addresses(proxy_ip: Option<&str>, real_ip: &str, r: Verdict)
    requires
        call_ensures(judge, (proxy_ip, real_ip), r),
    ensures
        r == Verdict::Unreachable <==> proxy_ip is None,
        r == Verdict::SameIp <==> (proxy_ip matches Some(ip) && ip@ == real_ip@),
        r == Verdict::Working <==> (proxy_ip matches Some(ip) && ip@ != real_ip@),
{
}

} // verus!
