use vstd::prelude::*;
use vstd::string::*;
use crate::diagnostics::{error_view, Error, Loc};
use crate::text::{chars_of, push_char, string_with_capacity};

verus! {

/// Printable characters: ASCII space through tilde, and tab.
pub open spec fn permitted_printable(c: char) -> bool {
    (0x20 <= c as u32 && c as u32 <= 0x7E) || c as u32 == 0x09
}

/// The single permitted line ending, `\n`.
pub open spec fn permitted_newline(c: char) -> bool {
    c as u32 == 0x0A
}

pub open spec fn permitted(c: char) -> bool {
    permitted_printable(c) || permitted_newline(c)
}

/// Determine if a character is an allowed eye-visible (printable) character.
pub fn is_permitted_printable_char(c: char) -> (r: bool)
    ensures
        r == permitted_printable(c),
{
    let x = c as u32;
    let is_above_space = x >= 0x20;
    let is_below_tilde = x <= 0x7E;
    let is_tab = x == 0x09;
    (is_above_space && is_below_tilde) || is_tab
}

/// Determine if a character is the permitted newline character.
pub fn is_permitted_newline_char(c: char) -> (r: bool)
    ensures
        r == permitted_newline(c),
{
    let x = c as u32;
    x == 0x0A
}

/// Determine if a character may appear in a source file at all.
pub fn is_permitted_char(c: char) -> (r: bool)
    ensures
        r == permitted(c),
{
    is_permitted_printable_char(c) || is_permitted_newline_char(c)
}

} // verus!

verus! {

/// A `//` comment opens at `i`: a slash followed by another slash.
pub open spec fn opens_comment(s: Seq<char>, i: int) -> bool {
    0 <= i && i + 1 < s.len() && s[i] == '/' && s[i + 1] == '/'
}

/// Whether the character at `i` lies inside a line comment: the scan is in a comment
/// after reading it. A newline always ends the comment and is never part of it.
pub open spec fn in_comment(s: Seq<char>, i: int) -> bool
    decreases i + 1,
{
    if i < 0 {
        false
    } else {
        s[i] != '\n' && (in_comment(s, i - 1) || opens_comment(s, i))
    }
}

/// The text with every character inside a comment replaced by a space.
pub open spec fn stripped(s: Seq<char>) -> Seq<char> {
    Seq::new(s.len(), |i: int| if in_comment(s, i) { ' ' } else { s[i] })
}

/// Replace every `//` line comment by spaces, keeping each character position.
pub fn strip_comments(source: &str) -> (r: String)
    ensures
        r@ == stripped(source@),
{
    let chars = chars_of(source);
    let n = chars.len();
    let mut in_comment_now = false;
    let mut acc = string_with_capacity(source.len());
    let mut i: usize = 0;
    while i < n
        invariant
            n == chars@.len(),
            chars@ == source@,
            i <= n,
            acc@.len() == i,
            in_comment_now == in_comment(source@, i - 1),
            forall|k: int| 0 <= k < i ==> acc@[k] == stripped(source@)[k],
        decreases n - i,
    {
        let chr = chars[i];
        let at_newline = chr == '\n';
        let next_is_slash = i + 1 < n && chars[i + 1] == '/';
        let at_or_after_slash_slash = in_comment_now || (chr == '/' && next_is_slash);
        in_comment_now = !at_newline && at_or_after_slash_slash;
        proof {
            assert(in_comment(source@, i as int) == (source@[i as int] != '\n' && (in_comment(
                source@,
                i - 1,
            ) || opens_comment(source@, i as int))));
        }
        push_char(&mut acc, if in_comment_now { ' ' } else { chr });
        i = i + 1;
    }
    assert(acc@ =~= stripped(source@));
    acc
}

/// Stripping comments keeps the number of characters.
pub proof fn lemma_strip_keeps_length(s: Seq<char>)
    ensures
        stripped(s).len() == s.len(),
{
}

/// Text that holds no `//` is left as it is.
pub proof fn lemma_strip_without_comment(s: Seq<char>)
    requires
        forall|i: int| 0 <= i < s.len() ==> !opens_comment(s, i),
    ensures
        stripped(s) == s,
{
    assert forall|i: int| 0 <= i < s.len() implies !in_comment(s, i) by {
        lemma_no_comment_upto(s, i);
    }
    assert(stripped(s) =~= s);
}

proof fn lemma_no_comment_upto(s: Seq<char>, i: int)
    requires
        i < s.len(),
        forall|k: int| 0 <= k < s.len() ==> !opens_comment(s, k),
    ensures
        !in_comment(s, i),
    decreases i + 1,
{
    if i >= 0 {
        lemma_no_comment_upto(s, i - 1);
    }
}

/// From a `//` up to the next newline (or the end), every character of the stripped text
/// is a space; the newline itself is kept.
pub proof fn lemma_comment_runs_to_newline(s: Seq<char>, j: int, k: int)
    requires
        opens_comment(s, j),
        j <= k < s.len(),
        forall|m: int| j <= m <= k ==> s[m] != '\n',
    ensures
        stripped(s)[k] == ' ',
{
    lemma_in_comment_after_open(s, j, k);
}

proof fn lemma_in_comment_after_open(s: Seq<char>, j: int, k: int)
    requires
        opens_comment(s, j),
        j <= k < s.len(),
        forall|m: int| j <= m <= k ==> s[m] != '\n',
    ensures
        in_comment(s, k),
    decreases k - j,
{
    if k > j {
        lemma_in_comment_after_open(s, j, k - 1);
    }
}

/// A newline is kept in place by stripping.
pub proof fn lemma_strip_keeps_newline(s: Seq<char>, k: int)
    requires
        0 <= k < s.len(),
        s[k] == '\n',
    ensures
        stripped(s)[k] == '\n',
{
}

} // verus!

verus! {

/// `i` is the index of the first character of `s` that is not permitted.
pub open spec fn first_forbidden(s: Seq<char>, i: int) -> bool {
    0 <= i < s.len() && !permitted(s[i]) && forall|j: int| 0 <= j < i ==> permitted(s[j])
}

pub open spec fn all_permitted(s: Seq<char>) -> bool {
    forall|i: int| 0 <= i < s.len() ==> permitted(s[i])
}

pub open spec fn invalid_char_message(c: char) -> Seq<char> {
    "Parser Error: invalid character "@.push(c)
        + " found when reading file.Only ascii printable, tabs (\\t), and \\n line ending characters are permitted."@
}

/// The diagnostic reporting forbidden character `i` of the text of `file`: one entry,
/// zero width at character index `i`.
pub open spec fn invalid_char_view(file: Seq<char>, s: Seq<char>, i: int) -> Seq<
    (Seq<char>, u32, u32, Seq<char>),
> {
    seq![(file, i as u32, i as u32, invalid_char_message(s[i]))]
}

/// Check that every character of `string` is permitted, reporting the first one that is not.
pub fn verify_string(file: &str, string: &str) -> (r: Result<(), Error>)
    ensures
        r is Ok <==> all_permitted(string@),
        r matches Err(e) ==> exists|i: int|
            first_forbidden(string@, i) && error_view(e) == invalid_char_view(file@, string@, i),
{
    let chars = chars_of(string);
    let mut idx: usize = 0;
    while idx < chars.len()
        invariant
            chars@ == string@,
            idx <= chars@.len(),
            forall|j: int| 0 <= j < idx ==> permitted(string@[j]),
        decreases chars@.len() - idx,
    {
        let chr = chars[idx];
        if !is_permitted_char(chr) {
            let loc = Loc::new(file, idx as u32, idx as u32);
            let mut msg = "Parser Error: invalid character ".to_owned();
            push_char(&mut msg, chr);
            msg.append(
                " found when reading file.Only ascii printable, tabs (\\t), and \\n line ending characters are permitted.",
            );
            let e = vec![(loc, msg)];
            assert(first_forbidden(string@, idx as int));
            assert(error_view(e) =~= invalid_char_view(file@, string@, idx as int));
            return Err(e);
        }
        idx = idx + 1;
    }
    Ok(())
}

/// Validate the characters of `string`, then strip its comments.
pub fn strip_comments_and_verify(file: &str, string: &str) -> (r: Result<String, Error>)
    ensures
        r is Ok <==> all_permitted(string@),
        r matches Ok(t) ==> t@ == stripped(string@),
        r matches Err(e) ==> exists|i: int|
            first_forbidden(string@, i) && error_view(e) == invalid_char_view(file@, string@, i),
{
    verify_string(file, string)?;
    Ok(strip_comments(string))
}

/// With exactly one forbidden character, at `i`, validation fails (so nothing is stripped)
/// and the diagnostic it reports is the zero-width one at character index `i`.
pub proof fn lemma_single_forbidden(file: Seq<char>, s: Seq<char>, i: int)
    requires
        0 <= i < s.len(),
        !permitted(s[i]),
        forall|j: int| 0 <= j < s.len() && j != i ==> permitted(s[j]),
    ensures
        !all_permitted(s),
        first_forbidden(s, i),
        forall|k: int| first_forbidden(s, k) ==> k == i,
        invalid_char_view(file, s, i)[0].1 == i as u32,
        invalid_char_view(file, s, i)[0].2 == i as u32,
{
}

} // verus!
