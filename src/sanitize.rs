//! Making untrusted names safe to use as file names, path segments and shell
//! literals.

use vstd::prelude::*;
use vstd::string::*;
use crate::text::{
    trim_of, trim_text, chars_of, digits_of, is_alnum, is_alnum_char, is_digit_char, lemma_prefix_step, push_char,
    string_of_range,
};

verus! {

/// The character that stands for `c` in a sanitized name: itself when it is
/// an ASCII letter or digit, `-`, `_`, or a space where spaces are allowed;
/// `_` otherwise.
pub open spec fn safe_char(c: char, allow_spaces: bool) -> char {
    if is_alnum(c) || c == '-' || c == '_' || (allow_spaces && c == ' ') {
        c
    } else {
        '_'
    }
}

/// `s` without its leading and trailing spaces.
pub open spec fn strip_spaces(s: Seq<char>) -> Seq<char>
    decreases s.len(),
{
    if s.len() == 0 {
        s
    } else if s[0] == ' ' {
        strip_spaces(s.drop_first())
    } else if s.last() == ' ' {
        strip_spaces(s.drop_last())
    } else {
        s
    }
}

/// Every character replaced by its safe stand-in, then the surrounding white
/// space removed (of the stand-ins, only the space is white space).
pub open spec fn sanitized_segment(s: Seq<char>, allow_spaces: bool) -> Seq<char> {
    strip_spaces(s.map_values(|c: char| safe_char(c, allow_spaces)))
}

/// A sanitized segment, or `fallback` where nothing is left of it.
pub open spec fn sanitized_component(s: Seq<char>, allow_spaces: bool, fallback: Seq<char>) -> Seq<char> {
    if sanitized_segment(s, allow_spaces).len() == 0 {
        fallback
    } else {
        sanitized_segment(s, allow_spaces)
    }
}

/// The ASCII letters and digits of `s`, in order.
pub open spec fn alnum_of(s: Seq<char>) -> Seq<char> {
    s.filter(|c: char| is_alnum(c))
}

/// A phone number shown with its last four digits only.
pub open spec fn masked_phone(s: Seq<char>) -> Seq<char> {
    let d = digits_of(s);
    if d.len() <= 4 {
        "***"@
    } else {
        "***"@ + d.subrange(d.len() - 4, d.len() as int)
    }
}

/// `s` with every single quote replaced by `with`.
pub open spec fn replace_quotes(s: Seq<char>, with: Seq<char>) -> Seq<char>
    decreases s.len(),
{
    if s.len() == 0 {
        s
    } else if s.last() == '\'' {
        replace_quotes(s.drop_last(), with) + with
    } else {
        replace_quotes(s.drop_last(), with).push(s.last())
    }
}

fn safe_char_of(c: char, allow_spaces: bool) -> (r: char)
    ensures
        r == safe_char(c, allow_spaces),
{
    if is_alnum_char(c) || c == '-' || c == '_' || (allow_spaces && c == ' ') {
        c
    } else {
        '_'
    }
}

/// The bounds `lo..hi` of `v` without its leading and trailing spaces.
fn space_bounds(v: &Vec<char>) -> (r: (usize, usize))
    ensures
        r.0 <= r.1 <= v@.len(),
        v@.subrange(r.0 as int, r.1 as int) == strip_spaces(v@),
{
    let n = v.len();
    let mut lo: usize = 0;
    proof {
        assert(v@.subrange(0, n as int) =~= v@);
    }
    while lo < n && v[lo] == ' '
        invariant
            n == v@.len(),
            lo <= n,
            strip_spaces(v@) == strip_spaces(v@.subrange(lo as int, n as int)),
        decreases n - lo,
    {
        proof {
            assert(v@.subrange(lo as int, n as int).drop_first() =~= v@.subrange(
                lo + 1,
                n as int,
            ));
        }
        lo = lo + 1;
    }
    let mut hi: usize = n;
    while hi > lo && v[hi - 1] == ' '
        invariant
            n == v@.len(),
            lo <= hi <= n,
            lo < n ==> v@[lo as int] != ' ',
            strip_spaces(v@) == strip_spaces(v@.subrange(lo as int, hi as int)),
        decreases hi - lo,
    {
        proof {
            assert(v@.subrange(lo as int, hi as int).drop_last() =~= v@.subrange(
                lo as int,
                hi - 1,
            ));
        }
        hi = hi - 1;
    }
    (lo, hi)
}

/// Replaces every character of `input` that is not an ASCII letter or digit,
/// `-`, `_` or (where `allow_spaces` holds) a space by `_`, then trims.
pub fn sanitize_segment(input: &str, allow_spaces: bool) -> (r: String)
    ensures
        r@ == sanitized_segment(input@, allow_spaces),
{
    let chars = chars_of(input);
    let n = chars.len();
    let mut mapped: Vec<char> = Vec::new();
    let mut i: usize = 0;
    while i < n
        invariant
            n == chars@.len(),
            chars@ == input@,
            i <= n,
            mapped@ == input@.subrange(0, i as int).map_values(
                |c: char| safe_char(c, allow_spaces),
            ),
        decreases n - i,
    {
        mapped.push(safe_char_of(chars[i], allow_spaces));
        i = i + 1;
        proof {
            assert(mapped@ =~= input@.subrange(0, i as int).map_values(
                |c: char| safe_char(c, allow_spaces),
            ));
        }
    }
    proof {
        assert(input@.subrange(0, n as int) =~= input@);
    }
    let (lo, hi) = space_bounds(&mapped);
    string_of_range(&mapped, lo, hi)
}

/// A sanitized segment of `input`, or `fallback` when that is empty.
pub fn sanitize_component(input: &str, allow_spaces: bool, fallback: &str) -> (r: String)
    ensures
        r@ == sanitized_component(input@, allow_spaces, fallback@),
{
    let cleaned = sanitize_segment(input, allow_spaces);
    if cleaned.unicode_len() == 0 {
        String::from_str(fallback)
    } else {
        cleaned
    }
}

/// The file-name-safe id of a workflow name.
pub fn sanitize_workflow_id(input: &str) -> (r: String)
    ensures
        r@ == sanitized_component(input@, true, "workflow"@),
{
    sanitize_component(input, true, "workflow")
}

/// Keeps the ASCII letters and digits of a file extension.
pub fn sanitize_extension(input: &str) -> (r: String)
    ensures
        r@ == alnum_of(input@),
{
    let chars = chars_of(input);
    let n = chars.len();
    let mut out = String::new();
    let mut i: usize = 0;
    while i < n
        invariant
            n == chars@.len(),
            chars@ == input@,
            i <= n,
            out@ == alnum_of(input@.subrange(0, i as int)),
        decreases n - i,
    {
        let c = chars[i];
        proof {
            lemma_prefix_step(input@, i as int);
            reveal(Seq::filter);
        }
        if is_alnum_char(c) {
            push_char(&mut out, c);
        }
        i = i + 1;
    }
    proof {
        assert(input@.subrange(0, n as int) =~= input@);
    }
    out
}

/// Shows a phone number as `***` followed by its last four digits; only
/// `***` when it has four digits or fewer.
pub fn mask_phone_number(input: &str) -> (r: String)
    ensures
        r@ == masked_phone(input@),
{
    let chars = chars_of(input);
    let n = chars.len();
    let mut digits: Vec<char> = Vec::new();
    let mut i: usize = 0;
    while i < n
        invariant
            n == chars@.len(),
            chars@ == input@,
            i <= n,
            digits@ == digits_of(input@.subrange(0, i as int)),
        decreases n - i,
    {
        let c = chars[i];
        proof {
            lemma_prefix_step(input@, i as int);
            reveal(Seq::filter);
        }
        if is_digit_char(c) {
            digits.push(c);
        }
        i = i + 1;
    }
    proof {
        assert(input@.subrange(0, n as int) =~= input@);
    }
    let len = digits.len();
    let mut r = String::from_str("***");
    if len > 4 {
        let tail = string_of_range(&digits, len - 4, len);
        r.append(tail.as_str());
    }
    r
}

fn replace_quote_with(value: &str, with: &str) -> (r: String)
    ensures
        r@ == replace_quotes(value@, with@),
{
    let chars = chars_of(value);
    let n = chars.len();
    let mut out = String::new();
    let mut i: usize = 0;
    while i < n
        invariant
            n == chars@.len(),
            chars@ == value@,
            i <= n,
            out@ == replace_quotes(value@.subrange(0, i as int), with@),
        decreases n - i,
    {
        let c = chars[i];
        proof {
            lemma_prefix_step(value@, i as int);
        }
        if c == '\'' {
            out.append(with);
        } else {
            push_char(&mut out, c);
        }
        i = i + 1;
    }
    proof {
        assert(value@.subrange(0, n as int) =~= value@);
    }
    out
}

/// Escapes a value for a single-quoted PowerShell literal: each `'` doubled.
pub fn escape_powershell_literal(value: &str) -> (r: String)
    ensures
        r@ == replace_quotes(value@, "''"@),
{
    replace_quote_with(value, "''")
}

/// Escapes a value for a single-quoted Bash literal: each `'` becomes `'\''`.
pub fn escape_bash_literal(value: &str) -> (r: String)
    ensures
        r@ == replace_quotes(value@, "'\\''"@),
{
    replace_quote_with(value, "'\\''")
}

/// What `Path::file_stem` gives for the path `s`, read as text; empty where
/// it gives nothing.
pub uninterp spec fn path_stem_of(s: Seq<char>) -> Seq<char>;

/// What `Path::extension` gives for the path `s`, read as text; empty where
/// it gives nothing.
pub uninterp spec fn path_extension_of(s: Seq<char>) -> Seq<char>;

/// Relies on `std::path::Path::file_stem`: the file name without its last
/// extension.
#[verifier::external_body]
fn file_stem_text(path: &str) -> (r: String)
    ensures
        r@ == path_stem_of(path@),
{
    std::path::Path::new(path).file_stem().and_then(|s| s.to_str()).unwrap_or("").to_string()
}

/// Relies on `std::path::Path::extension`: the file name's last extension.
#[verifier::external_body]
pub(crate) fn extension_of(path: &str) -> (r: String)
    ensures
        r@ == path_extension_of(path@),
{
    std::path::Path::new(path).extension().and_then(|s| s.to_str()).unwrap_or("").to_string()
}

/// A safe file name for `s`: its sanitized stem (`file` where nothing is
/// left), then a dot and the letters and digits of its extension, if any.
pub open spec fn sanitized_filename(s: Seq<char>) -> Seq<char> {
    let stem = sanitized_component(path_stem_of(s), true, "file"@);
    let ext = alnum_of(path_extension_of(s));
    if ext.len() == 0 {
        stem
    } else {
        stem + "."@ + ext
    }
}

/// Makes a file name safe to create in a directory of the application.
pub fn sanitize_filename(input: &str) -> (r: String)
    ensures
        r@ == sanitized_filename(input@),
{
    let stem = file_stem_text(input);
    let ext = extension_of(input);
    let safe_stem = sanitize_component(stem.as_str(), true, "file");
    let safe_ext = sanitize_extension(ext.as_str());
    if safe_ext.unicode_len() == 0 {
        safe_stem
    } else {
        let mut r = safe_stem;
        r.append(".");
        r.append(safe_ext.as_str());
        r
    }
}

/// A path separator: `/` or `\`.
pub open spec fn is_separator(c: char) -> bool {
    c == '/' || c == '\\'
}

/// The pieces of `s` between separators, empty ones included, as
/// `str::split` gives them.
pub open spec fn split_path(s: Seq<char>) -> Seq<Seq<char>>
    decreases s.len(),
{
    if s.len() == 0 {
        seq![Seq::<char>::empty()]
    } else {
        let prev = split_path(s.drop_last());
        if is_separator(s.last()) {
            prev.push(Seq::<char>::empty())
        } else {
            prev.drop_last().push(prev.last().push(s.last()))
        }
    }
}

/// What is kept of one piece of a relative path: nothing for an empty piece,
/// `.` or `..` (after trimming), else its sanitized form, if not empty.
pub open spec fn clean_segment(raw: Seq<char>) -> Option<Seq<char>> {
    let t = trim_of(raw);
    if t.len() == 0 || t == "."@ || t == ".."@ {
        None
    } else if sanitized_segment(t, true).len() == 0 {
        None
    } else {
        Some(sanitized_segment(t, true))
    }
}

/// The kept pieces, in order.
pub open spec fn clean_segments(raws: Seq<Seq<char>>) -> Seq<Seq<char>>
    decreases raws.len(),
{
    if raws.len() == 0 {
        Seq::empty()
    } else {
        let prev = clean_segments(raws.drop_last());
        match clean_segment(raws.last()) {
            Some(c) => prev.push(c),
            None => prev,
        }
    }
}

proof fn lemma_split_nonempty(s: Seq<char>)
    ensures
        split_path(s).len() >= 1,
    decreases s.len(),
{
    if s.len() > 0 {
        lemma_split_nonempty(s.drop_last());
    }
}

fn clean_segment_of(raw: &str) -> (r: Option<String>)
    ensures
        r.deep_view() == clean_segment(raw@),
{
    let trimmed = trim_text(raw);
    let tc = chars_of(trimmed.as_str());
    let n = tc.len();
    let dots = (n == 1 && tc[0] == '.') || (n == 2 && tc[0] == '.' && tc[1] == '.');
    proof {
        reveal_strlit(".");
        reveal_strlit("..");
        if dots {
            assert(trimmed@ =~= "."@ || trimmed@ =~= ".."@);
        }
        if trimmed@ == "."@ {
            assert(n == 1 && tc@[0] == '.');
        }
        if trimmed@ == ".."@ {
            assert(n == 2 && tc@[0] == '.' && tc@[1] == '.');
        }
    }
    if n == 0 || dots {
        return None;
    }
    let sanitized = sanitize_segment(trimmed.as_str(), true);
    if sanitized.unicode_len() == 0 {
        None
    } else {
        Some(sanitized)
    }
}

/// The safe segments of a relative path: split at `/` and `\`, empty,
/// `.` and `..` pieces dropped, the rest sanitized. The segments are joined
/// by the caller.
pub fn sanitize_relative_path(input: &str) -> (r: Vec<String>)
    ensures
        r.deep_view() == clean_segments(split_path(input@)),
{
    let chars = chars_of(input);
    let n = chars.len();
    let mut out: Vec<String> = Vec::new();
    let mut start: usize = 0;
    let mut i: usize = 0;
    proof {
        assert(input@.subrange(0, 0) =~= Seq::<char>::empty());
        assert(chars@.subrange(0, 0) =~= Seq::<char>::empty());
    }
    while i < n
        invariant
            n == chars@.len(),
            chars@ == input@,
            start <= i <= n,
            out.deep_view() == clean_segments(split_path(input@.subrange(0, i as int)).drop_last()),
            split_path(input@.subrange(0, i as int)).last() == input@.subrange(
                start as int,
                i as int,
            ),
        decreases n - i,
    {
        let c = chars[i];
        let ghost prefix = input@.subrange(0, i as int);
        let ghost next = input@.subrange(0, i + 1);
        proof {
            lemma_prefix_step(input@, i as int);
            lemma_split_nonempty(prefix);
            assert(split_path(prefix).drop_last().push(split_path(prefix).last()) =~= split_path(
                prefix,
            ));
        }
        if c == '/' || c == '\\' {
            let raw = string_of_range(&chars, start, i);
            let cleaned = clean_segment_of(raw.as_str());
            match cleaned {
                Some(seg) => {
                    out.push(seg);
                },
                None => {},
            }
            proof {
                assert(split_path(next).drop_last() == split_path(prefix));
                assert(out.deep_view() =~= clean_segments(split_path(prefix)));
                assert(input@.subrange(i + 1, i + 1) =~= Seq::<char>::empty());
            }
            start = i + 1;
        } else {
            proof {
                assert(split_path(next).drop_last() =~= split_path(prefix).drop_last());
                assert(input@.subrange(start as int, i + 1) =~= input@.subrange(
                    start as int,
                    i as int,
                ).push(c));
            }
        }
        i = i + 1;
    }
    proof {
        assert(input@.subrange(0, n as int) =~= input@);
        lemma_split_nonempty(input@);
        assert(split_path(input@).drop_last().push(split_path(input@).last()) =~= split_path(
            input@,
        ));
    }
    let raw = string_of_range(&chars, start, n);
    let cleaned = clean_segment_of(raw.as_str());
    match cleaned {
        Some(seg) => {
            out.push(seg);
        },
        None => {},
    }
    proof {
        assert(out.deep_view() =~= clean_segments(split_path(input@)));
    }
    out
}

} // verus!
