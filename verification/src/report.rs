//! The shape of a verbose version report, and where its release string lies.
//!
//! A report is a text of several lines. Its release line is the first line
//! that begins with `release: `; what follows the prefix on that line is the
//! release string, `major.minor.patch` with an optional `-extra` behind it.

use crate::error::{Component, FormatError};
use crate::number::{number_of, parse_number};
use crate::scan::{find_char, first_index, matches_at};
use vstd::prelude::*;

verus! {

/// What a `Version` stands for: the three numeric fields and the optional tag.
pub struct Release {
    pub major: usize,
    pub minor: usize,
    pub patch: usize,
    pub extra: Option<Seq<char>>,
}

/// The text with which the release line begins.
pub open spec fn release_prefix() -> Seq<char> {
    seq!['r', 'e', 'l', 'e', 'a', 's', 'e', ':', ' ']
}

/// A line starts at `p`, and it begins with the release prefix. The prefix
/// holds no line break, so it lies within that one line.
pub open spec fn release_line_at(s: Seq<char>, p: int) -> bool {
    &&& 0 <= p
    &&& p + release_prefix().len() <= s.len()
    &&& p == 0 || s[p - 1] == '\n'
    &&& s.subrange(p, p + release_prefix().len()) == release_prefix()
}

/// Whether some line of `s` begins with the release prefix.
pub open spec fn has_release_line(s: Seq<char>) -> bool {
    exists|p: int| release_line_at(s, p)
}

/// The first line that begins with the release prefix starts at `p`.
pub open spec fn is_release_start(s: Seq<char>, p: int) -> bool {
    &&& release_line_at(s, p)
    &&& forall|q: int| 0 <= q < p ==> !release_line_at(s, q)
}

/// Where the first line that begins with the release prefix starts.
pub open spec fn release_start(s: Seq<char>) -> int
    recommends
        has_release_line(s),
{
    choose|p: int| is_release_start(s, p)
}

/// The rest of the line from `from` on: up to the next line feed or the end
/// of the text, without the carriage return that may stand before the line
/// feed.
pub open spec fn rest_of_line(s: Seq<char>, from: int) -> Seq<char>
    recommends
        0 <= from <= s.len(),
{
    let rest = s.skip(from);
    let len = first_index(rest, '\n');
    let line = rest.take(len);
    if len < rest.len() && len > 0 && line.last() == '\r' {
        line.drop_last()
    } else {
        line
    }
}

/// The release string of a report: what follows the prefix on the release line.
pub open spec fn release_text(s: Seq<char>) -> Seq<char>
    recommends
        has_release_line(s),
{
    rest_of_line(s, release_start(s) + release_prefix().len())
}

/// What stands before and behind the first `c` in `s`, if `c` occurs in `s`.
pub open spec fn split_once(s: Seq<char>, c: char) -> Option<(Seq<char>, Seq<char>)> {
    let i = first_index(s, c);
    if i < s.len() {
        Some((s.take(i), s.skip(i + 1)))
    } else {
        None
    }
}

/// The three numeric fields of `numeric`, which the first two dots separate.
/// Further dots belong to the patch field, which is then no number.
pub open spec fn parse_fields(numeric: Seq<char>) -> Result<(usize, usize, usize), FormatError> {
    match split_once(numeric, '.') {
        None => Err(FormatError::Missing(Component::Minor)),
        Some((major, rest)) => match split_once(rest, '.') {
            None => Err(FormatError::Missing(Component::Patch)),
            Some((minor, patch)) => match number_of(major) {
                None => Err(FormatError::Invalid(Component::Major)),
                Some(a) => match number_of(minor) {
                    None => Err(FormatError::Invalid(Component::Minor)),
                    Some(b) => match number_of(patch) {
                        None => Err(FormatError::Invalid(Component::Patch)),
                        Some(c) => Ok((a, b, c)),
                    },
                },
            },
        },
    }
}

/// The numeric part of a release string: what stands before its first hyphen.
pub open spec fn numeric_part(release: Seq<char>) -> Seq<char> {
    match split_once(release, '-') {
        Some((numeric, _)) => numeric,
        None => release,
    }
}

/// The tag of a release string: what stands behind its first hyphen.
pub open spec fn tag_of(release: Seq<char>) -> Option<Seq<char>> {
    match split_once(release, '-') {
        Some((_, tag)) => Some(tag),
        None => None,
    }
}

/// What a release string says.
pub open spec fn parse_release(release: Seq<char>) -> Result<Release, FormatError> {
    match parse_fields(numeric_part(release)) {
        Ok((major, minor, patch)) => Ok(Release { major, minor, patch, extra: tag_of(release) }),
        Err(e) => Err(e),
    }
}

/// What a report says of the release.
pub open spec fn parse_report(s: Seq<char>) -> Result<Release, FormatError> {
    if has_release_line(s) {
        parse_release(release_text(s))
    } else {
        Err(FormatError::ReleaseLineNotFound)
    }
}

/// The first release line starts in one place only.
pub proof fn lemma_release_start(s: Seq<char>, p: int)
    requires
        is_release_start(s, p),
    ensures
        has_release_line(s),
        release_start(s) == p,
{
    let k = release_start(s);
    assert(is_release_start(s, k));
    if k < p {
        assert(!release_line_at(s, k));
    } else if p < k {
        assert(!release_line_at(s, p));
    }
}

/// Finds the release string of a report: it is `chars[from..to]`.
pub(crate) fn locate_release(chars: &[char]) -> (found: Option<(usize, usize)>)
    ensures
        found is Some <==> has_release_line(chars@),
        found matches Some((from, to)) ==> from <= to <= chars@.len() && chars@.subrange(
            from as int,
            to as int,
        ) == release_text(chars@),
{
    let prefix: [char; 9] = ['r', 'e', 'l', 'e', 'a', 's', 'e', ':', ' '];
    assert(prefix@ =~= release_prefix());
    let n: usize = chars.len();
    let mut p: usize = 0;
    while p < n
        invariant
            n == chars@.len(),
            p <= n,
            prefix@ == release_prefix(),
            p == 0 || chars@[p - 1] == '\n',
            forall|q: int| 0 <= q < p ==> !release_line_at(chars@, q),
        decreases n - p,
    {
        if matches_at(chars, p, prefix.as_slice()) {
            let from: usize = p + 9;
            let end: usize = find_char(chars, from, n, '\n');
            let to: usize = if end < n && end > from && chars[end - 1] == '\r' {
                end - 1
            } else {
                end
            };
            proof {
                lemma_release_start(chars@, p as int);
                let rest = chars@.skip(from as int);
                assert(rest =~= chars@.subrange(from as int, n as int));
                assert(rest.take(end - from) =~= chars@.subrange(from as int, end as int));
                if end > from {
                    assert(rest.take(end - from).drop_last() =~= chars@.subrange(
                        from as int,
                        end - 1,
                    ));
                }
                assert(chars@.subrange(from as int, to as int) =~= rest_of_line(
                    chars@,
                    from as int,
                ));
            }
            return Some((from, to));
        }
        let end: usize = find_char(chars, p, n, '\n');
        assert forall|q: int| p < q <= end implies !release_line_at(chars@, q) by {
            assert(chars@.subrange(p as int, n as int)[q - 1 - p] != '\n');
        }
        if end == n {
            return None;
        }
        assert(chars@.subrange(p as int, n as int)[end - p] == '\n');
        p = end + 1;
    }
    None
}

/// Reads the three numeric fields of `chars[from..to]`.
pub(crate) fn read_fields(chars: &[char], from: usize, to: usize) -> (fields: Result<
    (usize, usize, usize),
    FormatError,
>)
    requires
        from <= to <= chars@.len(),
    ensures
        fields == parse_fields(chars@.subrange(from as int, to as int)),
{
    let ghost numeric = chars@.subrange(from as int, to as int);
    let first: usize = find_char(chars, from, to, '.');
    if first == to {
        return Err(FormatError::Missing(Component::Minor));
    }
    let ghost rest = chars@.subrange(first + 1, to as int);
    assert(numeric.take(first - from) =~= chars@.subrange(from as int, first as int));
    assert(numeric.skip(first - from + 1) =~= rest);
    let second: usize = find_char(chars, first + 1, to, '.');
    if second == to {
        return Err(FormatError::Missing(Component::Patch));
    }
    assert(rest.take(second - first - 1) =~= chars@.subrange(first + 1, second as int));
    assert(rest.skip(second - first) =~= chars@.subrange(second + 1, to as int));
    let major: usize = match parse_number(chars, from, first) {
        Some(n) => n,
        None => return Err(FormatError::Invalid(Component::Major)),
    };
    let minor: usize = match parse_number(chars, first + 1, second) {
        Some(n) => n,
        None => return Err(FormatError::Invalid(Component::Minor)),
    };
    let patch: usize = match parse_number(chars, second + 1, to) {
        Some(n) => n,
        None => return Err(FormatError::Invalid(Component::Patch)),
    };
    Ok((major, minor, patch))
}

} // verus!
