//! The `Version` value: how it is made, read from a report, and ordered.

use crate::error::{Error, FormatError};
use crate::report::{has_release_line, locate_release, parse_report, read_fields, Release};
use crate::scan::{find_char, to_chars};
use std::cmp::Ordering;
use vstd::prelude::*;
use vstd::utf8::{decode_utf8, encode_utf8, valid_utf8};

verus! {

/// A toolchain release, `major.minor.patch` with an optional opaque tag.
///
/// Versions are ordered by their three numbers alone. Two versions that
/// differ only in the tag are neither less nor greater than each other, yet
/// they are not equal: equality looks at the tag too.
#[derive(Debug)]
pub struct Version {
    major: usize,
    minor: usize,
    patch: usize,
    extra: Option<String>,
}

impl View for Version {
    type V = Release;

    closed spec fn view(&self) -> Release {
        Release {
            major: self.major,
            minor: self.minor,
            patch: self.patch,
            extra: match self.extra {
                Some(tag) => Some(tag@),
                None => None,
            },
        }
    }
}

/// `a` comes before `b`: its numbers are less, major first, then minor, then patch.
pub open spec fn precedes(a: Release, b: Release) -> bool {
    ||| a.major < b.major
    ||| a.major == b.major && a.minor < b.minor
    ||| a.major == b.major && a.minor == b.minor && a.patch < b.patch
}

/// How `a` stands to `b` in the order of releases. The tags have no part in it.
pub open spec fn release_order(a: Release, b: Release) -> Ordering {
    if precedes(a, b) {
        Ordering::Less
    } else if precedes(b, a) {
        Ordering::Greater
    } else {
        Ordering::Equal
    }
}

/// `res` is what reading the report `text` has to give: the version that the
/// report states, or the reason why it states none.
pub open spec fn is_reading_of(res: Result<Version, Error>, text: Seq<char>) -> bool {
    match parse_report(text) {
        Ok(release) => res matches Ok(v) && v@ == release,
        Err(e) => res == Err::<Version, Error>(Error::Format(e)),
    }
}

/// `res` is what a finished toolchain run has to give, `success` saying
/// whether it exited with status zero and `stdout` being what it printed.
/// The exit status is looked at first, then the encoding, then the text.
pub open spec fn is_outcome_of(res: Result<Version, Error>, success: bool, stdout: Seq<u8>) -> bool {
    if !success {
        res == Err::<Version, Error>(Error::Toolchain)
    } else if !valid_utf8(stdout) {
        res == Err::<Version, Error>(Error::Encoding)
    } else {
        is_reading_of(res, decode_utf8(stdout))
    }
}

/// Decodes `bytes` with `std::str::from_utf8`. Trusted: the call succeeds
/// exactly on well-formed UTF-8, and the text it gives is made of those bytes.
#[verifier::external_body]
fn text_of<'a>(bytes: &'a [u8]) -> (text: Option<&'a str>)
    ensures
        text is Some <==> valid_utf8(bytes@),
        text matches Some(t) ==> encode_utf8(t@) == bytes@,
{
    std::str::from_utf8(bytes).ok()
}

impl Version {
    /// Creates the version `major.minor.patch`, without a tag.
    pub fn new(major: usize, minor: usize, patch: usize) -> (v: Self)
        ensures
            v@ == (Release { major, minor, patch, extra: None }),
    {
        Version { major, minor, patch, extra: None }
    }

    /// The tag that followed the hyphen in the release string, if there was one.
    pub fn extra(&self) -> (tag: Option<&str>)
        ensures
            tag is Some <==> self@.extra is Some,
            tag matches Some(t) ==> self@.extra == Some(t@),
    {
        match &self.extra {
            Some(tag) => Some(tag.as_str()),
            None => None,
        }
    }

    /// Reads the version from the text of a verbose version report.
    ///
    /// The first line that begins with `release: ` decides. What follows the
    /// prefix is cut at its first hyphen: the part before it holds the three
    /// numbers, the part behind it is kept as the tag, as it stands.
    pub fn parse(text: &str) -> (res: Result<Self, Error>)
        ensures
            is_reading_of(res, text@),
            res is Ok <==> parse_report(text@) is Ok,
            !has_release_line(text@) ==> res == Err::<Version, Error>(
                Error::Format(FormatError::ReleaseLineNotFound),
            ),
    {
        let chars: Vec<char> = to_chars(text);
        let (from, to) = match locate_release(chars.as_slice()) {
            Some(bounds) => bounds,
            None => return Err(Error::Format(FormatError::ReleaseLineNotFound)),
        };
        let ghost release = chars@.subrange(from as int, to as int);
        let hyphen: usize = find_char(chars.as_slice(), from, to, '-');
        assert(release.take(hyphen - from) =~= chars@.subrange(from as int, hyphen as int));
        assert(hyphen == to ==> chars@.subrange(from as int, hyphen as int) =~= release);
        let (major, minor, patch) = match read_fields(chars.as_slice(), from, hyphen) {
            Ok(fields) => fields,
            Err(e) => return Err(Error::Format(e)),
        };
        let extra: Option<String> = if hyphen < to {
            assert(release.skip(hyphen - from + 1) =~= text@.subrange(hyphen + 1, to as int));
            Some(text.substring_char(hyphen + 1, to).to_owned())
        } else {
            None
        };
        Ok(Version { major, minor, patch, extra })
    }

    /// Reads the version from what a finished toolchain run left behind:
    /// `success` says whether it exited with status zero, `stdout` is what it
    /// printed. A run that failed gives no version, whatever it printed.
    pub fn from_output(success: bool, stdout: &[u8]) -> (res: Result<Self, Error>)
        ensures
            is_outcome_of(res, success, stdout@),
            !success ==> res == Err::<Version, Error>(Error::Toolchain),
            success && !valid_utf8(stdout@) ==> res == Err::<Version, Error>(Error::Encoding),
            res is Ok <==> success && valid_utf8(stdout@) && parse_report(decode_utf8(stdout@)) is Ok,
    {
        if !success {
            return Err(Error::Toolchain);
        }
        match text_of(stdout) {
            Some(text) => {
                proof {
                    vstd::utf8::encode_utf8_decode_utf8(text@);
                }
                Version::parse(text)
            },
            None => Err(Error::Encoding),
        }
    }

    /// How `self` stands to `other` by the three numbers, major first.
    pub fn compare(&self, other: &Self) -> (order: Ordering)
        ensures
            order == release_order(self@, other@),
    {
        if self.major != other.major {
            if self.major < other.major {
                Ordering::Less
            } else {
                Ordering::Greater
            }
        } else if self.minor != other.minor {
            if self.minor < other.minor {
                Ordering::Less
            } else {
                Ordering::Greater
            }
        } else if self.patch != other.patch {
            if self.patch < other.patch {
                Ordering::Less
            } else {
                Ordering::Greater
            }
        } else {
            Ordering::Equal
        }
    }
}

impl Clone for Version {
    /// The copy agrees with `self` in all four fields.
    fn clone(&self) -> (copy: Self)
        ensures
            copy@ == self@,
    {
        let extra: Option<String> = match &self.extra {
            Some(tag) => Some(tag.clone()),
            None => None,
        };
        Version { major: self.major, minor: self.minor, patch: self.patch, extra }
    }
}

impl PartialEq for Version {
    /// Two versions are equal when all four fields are, the tag included.
    fn eq(&self, other: &Self) -> (equal: bool) {
        let same_tag: bool = match (&self.extra, &other.extra) {
            (Some(a), Some(b)) => *a == *b,
            (None, None) => true,
            _ => false,
        };
        assert(same_tag <==> self@.extra == other@.extra);
        let equal: bool = self.major == other.major && self.minor == other.minor && self.patch
            == other.patch && same_tag;
        assert(equal <==> self@ == other@);
        equal
    }
}

impl Eq for Version {

}

impl vstd::std_specs::cmp::PartialEqSpecImpl for Version {
    open spec fn obeys_eq_spec() -> bool {
        true
    }

    open spec fn eq_spec(&self, other: &Self) -> bool {
        self@ == other@
    }
}

impl PartialOrd for Version {
    /// Versions are always comparable: by the three numbers, major first.
    fn partial_cmp(&self, other: &Self) -> (order: Option<Ordering>) {
        Some(self.compare(other))
    }
}

impl vstd::std_specs::cmp::PartialOrdSpecImpl for Version {
    open spec fn obeys_partial_cmp_spec() -> bool {
        true
    }

    open spec fn partial_cmp_spec(&self, other: &Self) -> Option<Ordering> {
        Some(release_order(self@, other@))
    }
}

} // verus!
