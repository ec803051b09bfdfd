//! Extraction of the emotion marker from a chat reply.
//!
//! A reply is expected to carry at most one marker of the form
//! `[EMOTION:<name>]` from a fixed closed set.  The set is scanned in a
//! fixed order; the first name whose exact marker occurs anywhere in the
//! text wins, every occurrence of that marker is removed, and the remainder
//! is trimmed.  With no marker the text is returned unmodified with the
//! neutral emotion.

use vstd::prelude::*;

use crate::strutil::{contains, contains_seq, push_str_chars, remove_all, remove_all_occurrences,
    str_chars, trim, trim_spaces, chars_to_string};

verus! {

/// The marker substring of an emotion name.
pub open spec fn tag_of(name: Seq<char>) -> Seq<char> {
    "[EMOTION:"@ + name + "]"@
}

/// The extraction result on a text: the cleaned text and the emotion name,
/// scanning the closed set in its fixed order.
pub open spec fn spec_extract_emotion(t: Seq<char>) -> (Seq<char>, Seq<char>) {
    if contains_seq(t, tag_of("happy"@)) {
        (trim(remove_all(t, tag_of("happy"@))), "happy"@)
    } else if contains_seq(t, tag_of("sad"@)) {
        (trim(remove_all(t, tag_of("sad"@))), "sad"@)
    } else if contains_seq(t, tag_of("surprised"@)) {
        (trim(remove_all(t, tag_of("surprised"@))), "surprised"@)
    } else if contains_seq(t, tag_of("thinking"@)) {
        (trim(remove_all(t, tag_of("thinking"@))), "thinking"@)
    } else if contains_seq(t, tag_of("excited"@)) {
        (trim(remove_all(t, tag_of("excited"@))), "excited"@)
    } else if contains_seq(t, tag_of("neutral"@)) {
        (trim(remove_all(t, tag_of("neutral"@))), "neutral"@)
    } else {
        (t, "neutral"@)
    }
}

/// If `name`'s marker occurs in `text`, hands back the text with every
/// occurrence of the marker removed and the ends trimmed.
fn try_emotion(text: &Vec<char>, name: &str) -> (r: Option<Vec<char>>)
    ensures
        match r {
            Some(clean) => contains_seq(text@, tag_of(name@)) && clean@ == trim(
                remove_all(text@, tag_of(name@)),
            ),
            None => !contains_seq(text@, tag_of(name@)),
        },
{
    let mut tag: Vec<char> = Vec::new();
    push_str_chars(&mut tag, "[EMOTION:");
    push_str_chars(&mut tag, name);
    push_str_chars(&mut tag, "]");
    proof {
        reveal_strlit("[EMOTION:");
        assert(tag@ == tag_of(name@));
        assert(tag@.len() >= 1);
    }
    if contains(text, &tag) {
        let removed = remove_all_occurrences(text, &tag);
        Some(trim_spaces(&removed))
    } else {
        None
    }
}

/// Scans the reply for its emotion marker: the cleaned text and the emotion
/// found, or the unmodified text and the neutral emotion.
pub fn extract_emotion(text: &str) -> (r: (String, String))
    ensures
        r.0@ == spec_extract_emotion(text@).0,
        r.1@ == spec_extract_emotion(text@).1,
{
    let chars = str_chars(text);
    if let Some(clean) = try_emotion(&chars, "happy") {
        return (chars_to_string(&clean), String::from_str("happy"));
    }
    if let Some(clean) = try_emotion(&chars, "sad") {
        return (chars_to_string(&clean), String::from_str("sad"));
    }
    if let Some(clean) = try_emotion(&chars, "surprised") {
        return (chars_to_string(&clean), String::from_str("surprised"));
    }
    if let Some(clean) = try_emotion(&chars, "thinking") {
        return (chars_to_string(&clean), String::from_str("thinking"));
    }
    if let Some(clean) = try_emotion(&chars, "excited") {
        return (chars_to_string(&clean), String::from_str("excited"));
    }
    if let Some(clean) = try_emotion(&chars, "neutral") {
        return (chars_to_string(&clean), String::from_str("neutral"));
    }
    (text.to_owned(), String::from_str("neutral"))
}

} // verus!
