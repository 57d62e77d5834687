use vstd::prelude::*;


verus! {

/// The first position in `[from, until)` at which `text` holds `a` or `b`,
/// or `until` where it holds neither of them there.
pub open spec fn first_of(text: Seq<char>, from: int, until: int, a: char, b: char) -> int
    decreases until - from,
{
    if from >= until {
        until
    } else if text[from] == a || text[from] == b {
        from
    } else {
        first_of(text, from + 1, until, a, b)
    }
}

/// The end of `text[low, high)` once the slashes at its end are left off.
pub open spec fn trim_slashes(text: Seq<char>, low: int, high: int) -> int
    decreases high - low,
{
    if high > low && text[high - 1] == '/' {
        trim_slashes(text, low, high - 1)
    } else {
        high
    }
}

/// The start of the last run without a slash in `text[low, high)`.
pub open spec fn segment_start(text: Seq<char>, low: int, high: int) -> int
    decreases high - low,
{
    if high > low && text[high - 1] != '/' {
        segment_start(text, low, high - 1)
    } else {
        high
    }
}

/// Where the path of a URL ends: at its query or fragment, which `?` or `#`
/// opens, or at the end of the text.
pub open spec fn path_end(url: Seq<char>) -> int {
    first_of(url, 0, url.len() as int, '?', '#')
}

/// Where the path of a URL starts: behind its scheme, the text before the
/// first `:` unless a `/` comes earlier, and behind its authority, which `//`
/// opens and the next `/` ends.
pub open spec fn path_start(url: Seq<char>) -> int {
    let end = path_end(url);
    let colon = first_of(url, 0, end, ':', '/');
    let rest = if 0 < colon < end && url[colon] == ':' {
        colon + 1
    } else {
        0
    };
    if rest + 2 <= end && url[rest] == '/' && url[rest + 1] == '/' {
        first_of(url, rest + 2, end, '/', '/')
    } else {
        rest
    }
}

/// The last segment that is not empty of the path of a URL, which is the URL
/// without scheme, authority, query and fragment: the last run without a
/// slash, slashes at the end of the path left off. It is empty where the
/// path holds nothing but slashes.
pub open spec fn path_segment(url: Seq<char>) -> Seq<char> {
    let low = path_start(url);
    let high = trim_slashes(url, low, path_end(url));
    url.subrange(segment_start(url, low, high), high)
}

/// The characters of a string, one by one.
pub fn chars_of(text: &str) -> (chars: Vec<char>)
    ensures
        chars@ == text@,
{
    let mut chars: Vec<char> = Vec::new();
    for c in it: text.chars()
        invariant
            it.seq() == text@,
            chars@ == it.seq().take(it.index() as int),
    {
        chars.push(c);
        assert(it.seq().take(it.index() + 1) =~= it.seq().take(it.index() as int).push(c));
    }
    assert(chars@ =~= text@);
    chars
}

fn find_first(text: &Vec<char>, from: usize, until: usize, a: char, b: char) -> (at: usize)
    requires
        from <= until <= text@.len(),
    ensures
        at == first_of(text@, from as int, until as int, a, b),
        from <= at <= until,
{
    let mut at: usize = from;
    while at < until && text[at] != a && text[at] != b
        invariant
            from <= at <= until <= text@.len(),
            first_of(text@, from as int, until as int, a, b) == first_of(
                text@,
                at as int,
                until as int,
                a,
                b,
            ),
        decreases until - at,
    {
        at += 1;
    }
    at
}

/// The bounds `(start, end)` of the last non-empty segment of the URL's path.
fn segment_bounds(url: &Vec<char>) -> (bounds: (usize, usize))
    ensures
        bounds.0 <= bounds.1 <= url@.len(),
        url@.subrange(bounds.0 as int, bounds.1 as int) == path_segment(url@),
        forall|i: int| bounds.0 <= i < bounds.1 ==> url@[i] != '/',
{
    let end = find_first(url, 0, url.len(), '?', '#');
    let colon = find_first(url, 0, end, ':', '/');
    let rest: usize = if 0 < colon && colon < end && url[colon] == ':' {
        colon + 1
    } else {
        0
    };
    let low = if end >= 2 && rest <= end - 2 && url[rest] == '/' && url[rest + 1] == '/' {
        find_first(url, rest + 2, end, '/', '/')
    } else {
        rest
    };
    let mut high: usize = end;
    while high > low && url[high - 1] == '/'
        invariant
            low <= high <= end <= url@.len(),
            trim_slashes(url@, low as int, end as int) == trim_slashes(url@, low as int, high as int),
        decreases high - low,
    {
        high -= 1;
    }
    let mut start: usize = high;
    while start > low && url[start - 1] != '/'
        invariant
            low <= start <= high <= url@.len(),
            segment_start(url@, low as int, high as int) == segment_start(
                url@,
                low as int,
                start as int,
            ),
            forall|i: int| start <= i < high ==> url@[i] != '/',
        decreases start - low,
    {
        start -= 1;
    }
    (start, high)
}

/// The last non-empty segment of the path of `url`.
pub fn url_path_segment(url: &str) -> (segment: String)
    ensures
        segment@ == path_segment(url@),
        forall|i: int| 0 <= i < segment@.len() ==> segment@[i] != '/',
{
    let chars = chars_of(url);
    let (start, end) = segment_bounds(&chars);
    let mut segment = String::new();
    let mut i: usize = start;
    while i < end
        invariant
            start <= i <= end <= chars@.len(),
            segment@ == chars@.subrange(start as int, i as int),
        decreases end - i,
    {
        segment.push(chars[i]);
        assert(chars@.subrange(start as int, i + 1) =~= chars@.subrange(start as int, i as int).push(
            chars@[i as int],
        ));
        i += 1;
    }
    segment
}

} // verus!
