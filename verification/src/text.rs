//! Text handling: trimming newlines and decoding UTF-8.
use crate::model;
use vstd::prelude::*;
use vstd::string::*;
use vstd::utf8::*;

verus! {

/// If `text` starts with `count` newlines and the character after them, if
/// there is one, is no newline, then trimming the start removes exactly these.
pub proof fn lemma_trim_start(text: Seq<char>, count: int)
    requires
        0 <= count <= text.len(),
        forall|i: int| 0 <= i < count ==> text[i] == '\n',
        count < text.len() ==> text[count] != '\n',
    ensures
        model::trim_start(text) == text.subrange(count, text.len() as int),
    decreases count,
{
    if count > 0 {
        lemma_trim_start(text.drop_first(), count - 1);
    }
}

/// If all of `text` from `keep` on is newlines and the character before them,
/// if there is one, is no newline, then trimming the end keeps exactly the
/// first `keep` characters.
pub proof fn lemma_trim_end(text: Seq<char>, keep: int)
    requires
        0 <= keep <= text.len(),
        forall|i: int| keep <= i < text.len() ==> text[i] == '\n',
        keep > 0 ==> text[keep - 1] != '\n',
    ensures
        model::trim_end(text) == text.subrange(0, keep),
    decreases text.len() - keep,
{
    if keep < text.len() {
        lemma_trim_end(text.drop_last(), keep);
    }
}

/// Trimming gives the one part of the text that `kept_between` describes:
/// whatever bounds fit a text, what lies between them is the trimmed text.
pub proof fn lemma_trim_newlines_between(text: Seq<char>, from: int, to: int)
    requires
        model::kept_between(text, from, to),
    ensures
        model::trim_newlines(text) == text.subrange(from, to),
{
    if from == to {
        lemma_trim_start(text, text.len() as int);
    } else {
        lemma_trim_start(text, from);
        lemma_trim_end(text.subrange(from, text.len() as int), to - from);
    }
}

/// Trimming cuts off newlines only, and all of them: every text has bounds
/// as `kept_between` describes them, and the trimmed text is what lies
/// between.
pub proof fn lemma_trim_newlines_cuts_newlines_only(text: Seq<char>)
    ensures
        exists|from: int, to: int|
            #[trigger] model::kept_between(text, from, to) && model::trim_newlines(text)
                == text.subrange(from, to),
    decreases text.len(),
{
    if text.len() == 0 {
        lemma_trim_newlines_between(text, 0, 0);
    } else {
        let shorter = text.drop_last();
        let last = text.len() - 1;
        lemma_trim_newlines_cuts_newlines_only(shorter);
        let (from, to) = choose|from: int, to: int| #[trigger]
            model::kept_between(shorter, from, to);
        assert forall|i: int| 0 <= i < last implies shorter[i] == text[i] by {}
        if text[last] == '\n' {
            assert(model::kept_between(text, from, to));
            lemma_trim_newlines_between(text, from, to);
        } else if from == to {
            assert(model::kept_between(text, last, last + 1));
            lemma_trim_newlines_between(text, last, last + 1);
        } else {
            lemma_trim_newlines_between(text, from, last + 1);
        }
    }
}

/// A text that is put together from three parts contains the middle one.
pub proof fn lemma_contains_middle(before: Seq<char>, part: Seq<char>, after: Seq<char>)
    ensures
        model::contains_text(before + part + after, part),
{
    let at = before.len() as int;
    assert((before + part + after).subrange(at, at + part.len()) =~= part);
}

/// The part of `text` between its leading and its trailing newlines.
pub fn trim_newlines<'a>(text: &'a str) -> (trimmed: &'a str)
    ensures
        trimmed@ == model::trim_newlines(text@),
{
    let len: usize = text.unicode_len();
    let mut at: usize = 0;
    let mut from: usize = 0;
    let mut to: usize = 0;
    for character in chars: text.chars()
        invariant
            len == text@.len(),
            chars.seq() == text@,
            at == chars.index(),
            model::kept_between(text@.subrange(0, at as int), from as int, to as int),
            from < to || to == 0,
    {
        if character != '\n' {
            if to == 0 {
                from = at;
            }
            to = at + 1;
        }
        at += 1;
    }
    proof {
        assert(text@.subrange(0, at as int) =~= text@);
        lemma_trim_newlines_between(text@, from as int, to as int);
    }
    text.substring_char(from, to)
}

/// The text with which the standard library reports that `bytes` are not
/// UTF-8: it names the place of the first offending byte sequence.
pub uninterp spec fn utf8_error_text(bytes: Seq<u8>) -> Seq<char>;

/// Decodes `bytes` with `String::from_utf8`; on failure the error is given as
/// the text that its `Display` writes.
///
/// Trusted: the call succeeds exactly on valid UTF-8 and then yields the
/// characters that the bytes encode; the error's text depends on the bytes
/// alone.
#[verifier::external_body]
pub(crate) fn decode_text(bytes: Vec<u8>) -> (decoded: Result<String, String>)
    ensures
        match decoded {
            Ok(text) => valid_utf8(bytes@) && text@ == decode_utf8(bytes@),
            Err(message) => !valid_utf8(bytes@) && message@ == utf8_error_text(bytes@),
        },
{
    match String::from_utf8(bytes) {
        Ok(text) => Ok(text),
        Err(error) => Err(error.to_string()),
    }
}

} // verus!
