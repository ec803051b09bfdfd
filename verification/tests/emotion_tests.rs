use companion_core::emotion::extract_emotion;

#[test]
fn marker_at_the_end_is_stripped() {
    let (text, emotion) = extract_emotion("Nice! [EMOTION:happy]");
    assert_eq!(text, "Nice!");
    assert_eq!(emotion, "happy");
}

#[test]
fn no_marker_keeps_text_and_defaults_to_neutral() {
    let (text, emotion) = extract_emotion("Just a plain sentence.");
    assert_eq!(text, "Just a plain sentence.");
    assert_eq!(emotion, "neutral");
}

#[test]
fn marker_in_the_middle_is_removed_and_ends_trimmed() {
    let (text, emotion) = extract_emotion("Well [EMOTION:thinking] let me see");
    assert_eq!(text, "Well  let me see");
    assert_eq!(emotion, "thinking");
}

#[test]
fn marker_with_no_surrounding_text() {
    let (text, emotion) = extract_emotion("[EMOTION:sad]");
    assert_eq!(text, "");
    assert_eq!(emotion, "sad");
}

#[test]
fn repeated_marker_is_removed_everywhere() {
    let (text, emotion) = extract_emotion("[EMOTION:excited]Go![EMOTION:excited]");
    assert_eq!(text, "Go!");
    assert_eq!(emotion, "excited");
}

#[test]
fn scan_order_decides_between_two_markers() {
    // `sad` stands first in the text, but `happy` comes first in the fixed
    // scan order, so it wins and only its marker is removed
    let (text, emotion) = extract_emotion("[EMOTION:sad] hello [EMOTION:happy]");
    assert_eq!(text, "[EMOTION:sad] hello");
    assert_eq!(emotion, "happy");
}

#[test]
fn explicit_neutral_marker_is_stripped() {
    let (text, emotion) = extract_emotion("Fine. [EMOTION:neutral]");
    assert_eq!(text, "Fine.");
    assert_eq!(emotion, "neutral");
}

#[test]
fn surrounding_whitespace_is_trimmed() {
    let (text, emotion) = extract_emotion("  spaced out [EMOTION:surprised]  ");
    assert_eq!(text, "spaced out");
    assert_eq!(emotion, "surprised");
}
