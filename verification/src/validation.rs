//! Validation of user-supplied URLs and browser profile names, and
//! escaping for AppleScript string contexts.
//!
//! These checks gate every task before any external action is
//! attempted: a URL must be a plain http(s) URL (never `javascript:`,
//! `data:` or similar), and a profile name may not smuggle path
//! separators or shell metacharacters.

use vstd::prelude::*;
use vstd::string::StringExecFns;

use crate::errors::AppError;
use crate::text::contains_char;
use crate::text::push_char;
use crate::text::starts_with_ci;
use crate::text::starts_with_ci_exec;
use crate::text::to_char_vec;
use crate::text::trim_chars;
use crate::text::trimmed_spec;
use crate::text::utf8_len;
use crate::text::utf8_len_capped;

verus! {

/// Whether `char::is_alphanumeric` holds of the character: a Unicode
/// letter or a Unicode numeric character.
pub uninterp spec fn char_alphanumeric(c: char) -> bool;

/// Relies on `char::is_alphanumeric`: whether the character is a
/// Unicode letter or numeric character.  On the ASCII range the
/// letter and number categories are exactly the digits and the
/// upper- and lowercase letters, as the documentation of the ASCII
/// classifiers spells out.
#[verifier::external_body]
fn is_alphanumeric_char(c: char) -> (r: bool)
    ensures
        r == char_alphanumeric(c),
        (c as u32) < 128 ==> (r <==> (48 <= c as u32 <= 57 || 65 <= c as u32 <= 90 || 97 <= c
            as u32 <= 122)),
{
    c.is_alphanumeric()
}

/// A valid URL, after trimming: it starts with `http://` or `https://`
/// (case-insensitively), is at least ten bytes long, and contains a
/// dot.  Dangerous schemes such as `javascript:` cannot satisfy the
/// prefix requirement.
pub open spec fn url_valid(s: Seq<char>) -> bool {
    let t = trimmed_spec(s);
    &&& starts_with_ci(t, "http://"@) || starts_with_ci(t, "https://"@)
    &&& utf8_len(t) >= 10
    &&& t.contains('.')
}

/// A character permitted in a browser profile name.
pub open spec fn profile_char_ok(c: char) -> bool {
    char_alphanumeric(c) || c == '-' || c == '_' || c == ' '
}

/// A valid browser profile name, after trimming: empty (the default
/// profile), or at most 100 bytes, each character a Unicode letter or
/// number, hyphen, underscore or space.  Path separators, dots and
/// shell metacharacters are never permitted.
pub open spec fn profile_valid(s: Seq<char>) -> bool {
    let t = trimmed_spec(s);
    ||| t.len() == 0
    ||| (utf8_len(t) <= 100 && forall|i: int|
        0 <= i < t.len() ==> profile_char_ok(#[trigger] t[i]))
}

/// Validates a URL: accepts exactly the URLs satisfying `url_valid`,
/// and rejects everything else as an invalid task configuration.
pub fn validate_url(url: &str) -> (r: Result<(), AppError>)
    ensures
        r is Ok <==> url_valid(url@),
        r is Err ==> r matches Err(AppError::InvalidTask(_)),
{
    let v = to_char_vec(url);
    let t = trim_chars(&v);
    if t.len() == 0 {
        assert(!starts_with_ci(t@, "http://"@) && !starts_with_ci(t@, "https://"@)) by {
            assert("http://"@.len() == 7 && "https://"@.len() == 8) by {
                reveal_strlit("http://");
                reveal_strlit("https://");
            }
        }
        return Err(AppError::InvalidTask(String::from_str("URL cannot be empty")));
    }
    if starts_with_ci_exec(&t, &to_char_vec("javascript:")) || starts_with_ci_exec(
        &t,
        &to_char_vec("data:"),
    ) || starts_with_ci_exec(&t, &to_char_vec("vbscript:")) || starts_with_ci_exec(
        &t,
        &to_char_vec("file:"),
    ) || starts_with_ci_exec(&t, &to_char_vec("about:")) {
        proof {
            lemma_scheme_prefixes_exclude_http(t@);
        }
        return Err(AppError::InvalidTask(String::from_str("Dangerous URL scheme not allowed")));
    }
    if !(starts_with_ci_exec(&t, &to_char_vec("http://")) || starts_with_ci_exec(
        &t,
        &to_char_vec("https://"),
    )) {
        return Err(
            AppError::InvalidTask(String::from_str("URL must start with http:// or https://")),
        );
    }
    if utf8_len_capped(&t, 10) < 10 || !contains_char(&t, '.') {
        return Err(AppError::InvalidTask(String::from_str("Invalid URL format")));
    }
    Ok(())
}

/// A string starting (case-insensitively) with one of the dangerous
/// schemes cannot also start with `http://` or `https://`.
proof fn lemma_scheme_prefixes_exclude_http(t: Seq<char>)
    requires
        starts_with_ci(t, "javascript:"@) || starts_with_ci(t, "data:"@) || starts_with_ci(
            t,
            "vbscript:"@,
        ) || starts_with_ci(t, "file:"@) || starts_with_ci(t, "about:"@),
    ensures
        !starts_with_ci(t, "http://"@),
        !starts_with_ci(t, "https://"@),
{
    reveal_strlit("javascript:");
    reveal_strlit("data:");
    reveal_strlit("vbscript:");
    reveal_strlit("file:");
    reveal_strlit("about:");
    reveal_strlit("http://");
    reveal_strlit("https://");
    if starts_with_ci(t, "javascript:"@) {
        assert(t.subrange(0, 11)[0] == t[0]);
        assert(crate::text::ascii_lower_seq(t.subrange(0, 11))[0] == crate::text::ascii_lower_seq(
            "javascript:"@,
        )[0]);
        assert(crate::text::ascii_lower_char(t[0]) == 'j');
    } else if starts_with_ci(t, "data:"@) {
        assert(t.subrange(0, 5)[0] == t[0]);
        assert(crate::text::ascii_lower_seq(t.subrange(0, 5))[0] == crate::text::ascii_lower_seq(
            "data:"@,
        )[0]);
        assert(crate::text::ascii_lower_char(t[0]) == 'd');
    } else if starts_with_ci(t, "vbscript:"@) {
        assert(t.subrange(0, 9)[0] == t[0]);
        assert(crate::text::ascii_lower_seq(t.subrange(0, 9))[0] == crate::text::ascii_lower_seq(
            "vbscript:"@,
        )[0]);
        assert(crate::text::ascii_lower_char(t[0]) == 'v');
    } else if starts_with_ci(t, "file:"@) {
        assert(t.subrange(0, 5)[0] == t[0]);
        assert(crate::text::ascii_lower_seq(t.subrange(0, 5))[0] == crate::text::ascii_lower_seq(
            "file:"@,
        )[0]);
        assert(crate::text::ascii_lower_char(t[0]) == 'f');
    } else {
        assert(t.subrange(0, 6)[0] == t[0]);
        assert(crate::text::ascii_lower_seq(t.subrange(0, 6))[0] == crate::text::ascii_lower_seq(
            "about:"@,
        )[0]);
        assert(crate::text::ascii_lower_char(t[0]) == 'a');
    }
    if starts_with_ci(t, "http://"@) {
        assert(t.subrange(0, 7)[0] == t[0]);
        assert(crate::text::ascii_lower_seq(t.subrange(0, 7))[0] == crate::text::ascii_lower_seq(
            "http://"@,
        )[0]);
        assert(crate::text::ascii_lower_char(t[0]) == 'h');
        assert(false);
    }
    if starts_with_ci(t, "https://"@) {
        assert(t.subrange(0, 8)[0] == t[0]);
        assert(crate::text::ascii_lower_seq(t.subrange(0, 8))[0] == crate::text::ascii_lower_seq(
            "https://"@,
        )[0]);
        assert(crate::text::ascii_lower_char(t[0]) == 'h');
        assert(false);
    }
}

/// Validates a browser profile name: accepts exactly the names
/// satisfying `profile_valid`, and rejects everything else as an
/// invalid task configuration.
pub fn validate_browser_profile(profile: &str) -> (r: Result<(), AppError>)
    ensures
        r is Ok <==> profile_valid(profile@),
        r is Err ==> r matches Err(AppError::InvalidTask(_)),
{
    let v = to_char_vec(profile);
    let t = trim_chars(&v);
    if t.len() == 0 {
        return Ok(());
    }
    if utf8_len_capped(&t, 101) > 100 {
        return Err(AppError::InvalidTask(String::from_str("Browser profile name too long")));
    }
    let n = t.len();
    let mut i: usize = 0;
    while i < n
        invariant
            i <= n,
            n == t.len(),
            t@ == trimmed_spec(profile@),
            1 <= n,
            utf8_len(t@) <= 100,
            forall|k: int| 0 <= k < i ==> profile_char_ok(#[trigger] t@[k]),
        decreases n - i,
    {
        let c = t[i];
        if !(is_alphanumeric_char(c) || c == '-' || c == '_' || c == ' ') {
            proof {
                assert(!profile_char_ok(trimmed_spec(profile@)[i as int]));
            }
            return Err(
                AppError::InvalidTask(
                    String::from_str("Browser profile name contains invalid character"),
                ),
            );
        }
        i = i + 1;
    }
    Ok(())
}

/// What a character contributes to the AppleScript-escaped form:
/// backslashes and double quotes gain a leading backslash.
pub open spec fn escape_char(c: char) -> Seq<char> {
    if c == '\\' {
        seq!['\\', '\\']
    } else if c == '"' {
        seq!['\\', '"']
    } else {
        seq![c]
    }
}

/// The AppleScript-escaped form of a character sequence.
pub open spec fn applescript_escaped(s: Seq<char>) -> Seq<char>
    decreases s.len(),
{
    if s.len() == 0 {
        Seq::empty()
    } else {
        escape_char(s[0]) + applescript_escaped(s.drop_first())
    }
}

proof fn lemma_escaped_push(s: Seq<char>, c: char)
    ensures
        applescript_escaped(s.push(c)) == applescript_escaped(s) + escape_char(c),
    decreases s.len(),
{
    if s.len() == 0 {
        assert(s.push(c)[0] == c);
        assert(s.push(c).drop_first() =~= Seq::<char>::empty());
        assert(applescript_escaped(s.push(c)) == escape_char(c) + applescript_escaped(
            Seq::<char>::empty(),
        ));
        assert(escape_char(c) + Seq::<char>::empty() =~= escape_char(c));
        assert(applescript_escaped(s) + escape_char(c) =~= escape_char(c));
    } else {
        assert(s.push(c).drop_first() =~= s.drop_first().push(c));
        lemma_escaped_push(s.drop_first(), c);
        assert(applescript_escaped(s.push(c)) == escape_char(s[0]) + (applescript_escaped(
            s.drop_first(),
        ) + escape_char(c)));
        assert(escape_char(s[0]) + (applescript_escaped(s.drop_first()) + escape_char(c)) =~= (
        escape_char(s[0]) + applescript_escaped(s.drop_first())) + escape_char(c));
    }
}

/// Escapes a string for safe interpolation into an AppleScript string
/// literal: every backslash and double quote gains a leading
/// backslash, and nothing else changes.
pub fn escape_applescript_string(input: &str) -> (r: String)
    ensures
        r@ == applescript_escaped(input@),
{
    let v = to_char_vec(input);
    let n = v.len();
    let mut out = String::new();
    let mut i: usize = 0;
    proof {
        assert(v@.take(0) =~= Seq::<char>::empty());
    }
    while i < n
        invariant
            i <= n,
            n == v.len(),
            out@ == applescript_escaped(v@.take(i as int)),
        decreases n - i,
    {
        let c = v[i];
        proof {
            assert(v@.take(i as int + 1) =~= v@.take(i as int).push(v@[i as int]));
            lemma_escaped_push(v@.take(i as int), v@[i as int]);
        }
        if c == '\\' {
            push_char(&mut out, '\\');
            push_char(&mut out, '\\');
            assert(out@ =~= applescript_escaped(v@.take(i as int)) + escape_char(c));
        } else if c == '"' {
            push_char(&mut out, '\\');
            push_char(&mut out, '"');
            assert(out@ =~= applescript_escaped(v@.take(i as int)) + escape_char(c));
        } else {
            push_char(&mut out, c);
            assert(out@ =~= applescript_escaped(v@.take(i as int)) + escape_char(c));
        }
        i = i + 1;
    }
    proof {
        assert(v@.take(n as int) =~= v@);
    }
    out
}

} // verus!
