//! Extracting a version from the banner that a service sent.

use vstd::prelude::*;
use vstd::slice::slice_subrange;

use crate::text::{
    chars_of, find, find_in, index_of_char, index_of_char_in, is_digit, is_digit_char, lemma_find,
    line_at, lines, opt_view, string_of, trim, trim_slice,
};

verus! {

/// A character that a version number is made of: a digit or a dot.
pub open spec fn is_version_char(c: char) -> bool {
    is_digit(c) || c == '.'
}

/// Length of the run of version characters that `s` starts with.
pub open spec fn version_run_len(s: Seq<char>) -> nat
    decreases s.len(),
{
    if s.len() > 0 && is_version_char(s[0]) {
        1 + version_run_len(s.drop_first())
    } else {
        0
    }
}

/// Number of dots in `s`.
pub open spec fn count_dots(s: Seq<char>) -> nat
    decreases s.len(),
{
    if s.len() == 0 {
        0
    } else {
        count_dots(s.drop_last()) + if s.last() == '.' {
            1nat
        } else {
            0nat
        }
    }
}

/// The version that follows the first `marker` in `line`: the run of digits
/// and dots directly behind it, if that run is not empty and holds at most
/// two dots.
pub open spec fn version_after(line: Seq<char>, marker: Seq<char>) -> Option<Seq<char>> {
    match find(line, marker) {
        Some(pos) => {
            let rest = line.skip(pos + marker.len());
            let run = rest.take(version_run_len(rest) as int);
            if run.len() > 0 && count_dots(run) <= 2 {
                Some(run)
            } else {
                None
            }
        },
        None => None,
    }
}

/// The version that a single line gives: that of the first of the markers
/// `Server: `, `version `, ` v` and `/`, in this order, that is followed by
/// one.
pub open spec fn line_version(line: Seq<char>) -> Option<Seq<char>> {
    if version_after(line, "Server: "@) is Some {
        version_after(line, "Server: "@)
    } else if version_after(line, "version "@) is Some {
        version_after(line, "version "@)
    } else if version_after(line, " v"@) is Some {
        version_after(line, " v"@)
    } else {
        version_after(line, "/"@)
    }
}

/// The version of the first of `ls` that gives one.
pub open spec fn first_line_version(ls: Seq<Seq<char>>) -> Option<Seq<char>>
    decreases ls.len(),
{
    if ls.len() == 0 {
        None
    } else if line_version(ls[0]) is Some {
        line_version(ls[0])
    } else {
        first_line_version(ls.drop_first())
    }
}

/// Where the line that `s` starts with ends: the index of its first
/// carriage return or line feed, or its length where it has neither.
pub open spec fn line_end(s: Seq<char>) -> int {
    let cr = index_of_char(s, '\r');
    let lf = index_of_char(s, '\n');
    if cr <= lf {
        cr
    } else {
        lf
    }
}

/// The value of the first `Server:` header in `banner`: the rest of its
/// line, trimmed. The line ends at the first carriage return or line feed
/// behind the header's name, or with the banner. `None` for a banner
/// without such a header.
pub open spec fn server_header(banner: Seq<char>) -> Option<Seq<char>> {
    match find(banner, "Server:"@) {
        Some(pos) => {
            let rest = banner.skip(pos + "Server:"@.len());
            Some(trim(rest.take(line_end(rest))))
        },
        None => None,
    }
}

/// The version that a banner gives: that of its first line with a version
/// behind a marker, else the value of its `Server:` header.
pub open spec fn banner_version(banner: Seq<char>) -> Option<Seq<char>> {
    if first_line_version(lines(banner)) is Some {
        first_line_version(lines(banner))
    } else {
        server_header(banner)
    }
}

/// Length of the run of version characters that `s` starts with, and the
/// number of dots in that run.
fn version_run(s: &[char]) -> (r: (usize, usize))
    ensures
        r.0 == version_run_len(s@),
        r.0 <= s.len(),
        r.1 == count_dots(s@.take(r.0 as int)),
{
    let mut k: usize = 0;
    let mut dots: usize = 0;
    assert(s@.skip(0) =~= s@);
    while k < s.len() && (is_digit_char(s[k]) || s[k] == '.')
        invariant
            k <= s.len(),
            dots <= k,
            version_run_len(s@) == k + version_run_len(s@.skip(k as int)),
            dots == count_dots(s@.take(k as int)),
        decreases s.len() - k,
    {
        assert(s@.skip(k as int).drop_first() =~= s@.skip(k + 1));
        assert(s@.take(k + 1).drop_last() =~= s@.take(k as int));
        if s[k] == '.' {
            dots += 1;
        }
        k += 1;
    }
    (k, dots)
}

/// The version that follows the first `marker` in `line`.
fn version_after_in(line: &[char], marker: &[char]) -> (r: Option<String>)
    ensures
        opt_view(r) == version_after(line@, marker@),
{
    proof {
        lemma_find(line@, marker@);
    }
    match find_in(line, marker) {
        Some(pos) => {
            let total = line.len();
            let rest = slice_subrange(line, pos + marker.len(), total);
            let (len, dots) = version_run(rest);
            if len > 0 && dots <= 2 {
                Some(string_of(slice_subrange(rest, 0, len)))
            } else {
                None
            }
        },
        None => None,
    }
}

/// The version that a single line gives.
fn line_version_in(line: &[char]) -> (r: Option<String>)
    ensures
        opt_view(r) == line_version(line@),
{
    let server = chars_of("Server: ");
    let found = version_after_in(line, server.as_slice());
    if found.is_some() {
        return found;
    }
    let version = chars_of("version ");
    let found = version_after_in(line, version.as_slice());
    if found.is_some() {
        return found;
    }
    let v = chars_of(" v");
    let found = version_after_in(line, v.as_slice());
    if found.is_some() {
        return found;
    }
    let slash = chars_of("/");
    version_after_in(line, slash.as_slice())
}

/// The value of the first `Server:` header in `banner`.
fn server_header_in(banner: &[char]) -> (r: Option<String>)
    ensures
        opt_view(r) == server_header(banner@),
{
    let name = chars_of("Server:");
    proof {
        lemma_find(banner@, name@);
    }
    match find_in(banner, name.as_slice()) {
        Some(pos) => {
            let total = banner.len();
            let rest = slice_subrange(banner, pos + name.len(), total);
            let cr = index_of_char_in(rest, 0, '\r');
            let lf = index_of_char_in(rest, 0, '\n');
            assert(rest@.skip(0) =~= rest@);
            let end = if cr <= lf {
                cr
            } else {
                lf
            };
            let value = trim_slice(slice_subrange(rest, 0, end));
            Some(string_of(value))
        },
        None => None,
    }
}

/// Extracts a version from a service banner.
///
/// The banner is read line by line. In each line the markers `Server: `,
/// `version `, ` v` and `/` are tried in this order; the first marker that is
/// directly followed by a run of digits and dots with at most two dots gives
/// the version. If no line gives one, the value of a `Server:` header is
/// returned, if the banner has one.
pub fn parse_version_from_banner(banner: &str) -> (r: Option<String>)
    ensures
        opt_view(r) == banner_version(banner@),
{
    let text = chars_of(banner);
    let s = text.as_slice();
    let mut pos: usize = 0;
    assert(s@.skip(0) =~= s@);
    while pos < s.len()
        invariant
            pos <= s.len(),
            s@ == banner@,
            first_line_version(lines(banner@)) == first_line_version(lines(s@.skip(pos as int))),
        decreases s.len() - pos,
    {
        let (end, next) = line_at(s, pos);
        let line = slice_subrange(s, pos, end);
        let found = line_version_in(line);
        proof {
            let ls = lines(s@.skip(pos as int));
            assert(ls.drop_first() =~= lines(s@.skip(next as int)));
        }
        if found.is_some() {
            return found;
        }
        pos = next;
    }
    server_header_in(s)
}

} // verus!
