//! How a version is written between the quotes of the template: every
//! double quote and every backslash of it gets a backslash in front, so that
//! no version can close the string literal round it or leave it open.

use vstd::prelude::*;

verus! {

/// `String::push` of std, which appends one character to the string.
///
/// Trusted: the string afterwards is the string before with the character
/// at its end.
pub assume_specification[ String::push ](text: &mut String, c: char)
    ensures
        final(text)@ == old(text)@.push(c),
;

/// Whether a character must be escaped inside a string literal: the double
/// quote, which would close the literal, and the backslash, which would
/// escape what follows it.
pub open spec fn is_special(c: char) -> bool {
    c == '"' || c == '\\'
}

/// One character as it is written inside a string literal.
pub open spec fn escaped_char(c: char) -> Seq<char> {
    if is_special(c) {
        seq!['\\', c]
    } else {
        seq![c]
    }
}

/// A version as it is written inside a string literal: its characters in
/// their order, each special one with a backslash in front.
pub open spec fn escaped(version: Seq<char>) -> Seq<char>
    decreases version.len(),
{
    if version.len() == 0 {
        Seq::empty()
    } else {
        escaped_char(version[0]) + escaped(version.drop_first())
    }
}

/// Whether a version holds no character that must be escaped.
pub open spec fn is_plain(version: Seq<char>) -> bool {
    forall|i: int| 0 <= i < version.len() ==> !is_special(#[trigger] version[i])
}

/// Whether a text can stand between two double quotes as the body of a
/// string literal: read from the left, every backslash is followed by a
/// character that it escapes, and no double quote stands unescaped.
pub open spec fn stays_in_literal(body: Seq<char>) -> bool
    decreases body.len(),
{
    if body.len() == 0 {
        true
    } else if body[0] == '\\' {
        body.len() >= 2 && stays_in_literal(body.skip(2))
    } else if body[0] == '"' {
        false
    } else {
        stays_in_literal(body.skip(1))
    }
}

/// Escaping goes character by character: a text in two parts is escaped
/// part by part.
pub proof fn lemma_escaped_concat(first: Seq<char>, second: Seq<char>)
    ensures
        escaped(first + second) == escaped(first) + escaped(second),
    decreases first.len(),
{
    if first.len() == 0 {
        assert(first + second =~= second);
        assert(escaped(first) + escaped(second) =~= escaped(second));
    } else {
        let whole = first + second;
        assert(whole[0] == first[0]);
        assert(whole.drop_first() =~= first.drop_first() + second);
        lemma_escaped_concat(first.drop_first(), second);
        assert(escaped(whole) =~= escaped(first) + escaped(second));
    }
}

/// A version without a double quote and without a backslash is written as
/// it is.
pub proof fn lemma_escaped_of_plain(version: Seq<char>)
    requires
        is_plain(version),
    ensures
        escaped(version) == version,
    decreases version.len(),
{
    if version.len() > 0 {
        lemma_escaped_of_plain(version.drop_first());
        assert(escaped(version) =~= version);
    }
}

/// Whatever the version, its escaped form stays inside the literal: it
/// cannot close the quotes round it, nor escape the quote that closes them.
pub proof fn lemma_escaped_stays_in_literal(version: Seq<char>)
    ensures
        stays_in_literal(escaped(version)),
    decreases version.len(),
{
    if version.len() > 0 {
        let rest = escaped(version.drop_first());
        let body = escaped(version);
        lemma_escaped_stays_in_literal(version.drop_first());
        if is_special(version[0]) {
            assert(body[0] == '\\');
            assert(body.skip(2) =~= rest);
        } else {
            assert(body[0] == version[0]);
            assert(body.skip(1) =~= rest);
        }
    }
}

/// Writes a version as it stands inside a string literal.
pub fn escape_version(version: &str) -> (text: String)
    ensures
        text@ == escaped(version@),
{
    let mut text = String::new();
    for c in chars: version.chars()
        invariant
            chars.seq() == version@,
            text@ == escaped(version@.take(chars.index() as int)),
    {
        proof {
            let done = version@.take(chars.index() as int);
            assert(version@.take(chars.index() + 1) =~= done + seq![c]);
            lemma_escaped_concat(done, seq![c]);
            assert(seq![c].drop_first() =~= Seq::<char>::empty());
            assert(escaped(seq![c].drop_first()) =~= Seq::<char>::empty());
            assert(escaped(seq![c]) =~= escaped_char(c));
        }
        if c == '"' || c == '\\' {
            text.push('\\');
        }
        text.push(c);
        assert(text@ =~= escaped(version@.take(chars.index() as int)) + escaped_char(c));
    }
    assert(version@.take(version@.len() as int) =~= version@);
    text
}

} // verus!
