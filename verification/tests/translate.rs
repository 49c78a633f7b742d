use vertere::translate::{system_prompt, Reply, SEPARATOR};

fn reply_of(deltas: &[&str]) -> Reply {
    let mut reply = Reply::new();
    for delta in deltas {
        reply.push(delta);
    }
    reply
}

#[test]
fn collects_translation_before_the_separator() {
    let reply = reply_of(&["你好", "，", "世界"]);
    assert_eq!(reply.translation(), "你好，世界");
    assert_eq!(reply.source(), "");
    assert!(!reply.has_source());
}

#[test]
fn splits_translation_from_source() {
    let reply = reply_of(&["你好\n⁂\nHello"]);
    assert_eq!(reply.translation(), "你好");
    assert_eq!(reply.source(), "Hello");
    assert!(reply.has_source());
}

#[test]
fn splits_when_separator_arrives_in_its_own_delta() {
    let reply = reply_of(&["你好\n", "⁂", "\nHello"]);
    assert_eq!(reply.translation(), "你好");
    assert_eq!(reply.source(), "Hello");
}

#[test]
fn splits_when_separator_is_glued_to_neighbouring_text() {
    let reply = reply_of(&["你好⁂Hel", "lo"]);
    assert_eq!(reply.translation(), "你好");
    assert_eq!(reply.source(), "Hello");
}

#[test]
fn keeps_a_second_separator_as_source_text() {
    let reply = reply_of(&["你好\n⁂\nHello ⁂ world"]);
    assert_eq!(reply.translation(), "你好");
    assert_eq!(reply.source(), "Hello ⁂ world");
}

#[test]
fn keeps_newlines_inside_each_part() {
    let reply = reply_of(&["第一行\n第二行\n⁂\nline one\nline two"]);
    assert_eq!(reply.translation(), "第一行\n第二行");
    assert_eq!(reply.source(), "line one\nline two");
}

#[test]
fn tolerates_a_missing_source_section() {
    let reply = reply_of(&["你好"]);
    assert_eq!(reply.translation(), "你好");
    assert!(!reply.has_source());
    assert!(!reply.is_empty());
}

#[test]
fn tolerates_an_empty_source_section() {
    let reply = reply_of(&["你好\n⁂\n"]);
    assert_eq!(reply.translation(), "你好");
    assert_eq!(reply.source(), "");
    assert!(reply.has_source());
}

#[test]
fn ignores_empty_deltas() {
    let reply = reply_of(&["", "你好", "", "⁂", "", "Hello", ""]);
    assert_eq!(reply.translation(), "你好");
    assert_eq!(reply.source(), "Hello");
}

#[test]
fn a_reply_with_only_whitespace_is_empty() {
    assert!(reply_of(&["  \n ", "\t"]).is_empty());
    assert!(Reply::new().is_empty());
}

#[test]
fn names_the_target_language_and_the_separator() {
    let prompt = system_prompt("Simplified Chinese", "");
    assert!(prompt.contains("Simplified Chinese"));
    assert!(prompt.contains(SEPARATOR));
}

#[test]
fn without_a_fallback_the_source_is_repeated_unchanged() {
    let prompt = system_prompt("English", "");
    assert!(prompt.contains("repeat it unchanged"));
    assert!(!prompt.contains("instead"));
}

#[test]
fn a_fallback_replaces_the_repeat_rule_rather_than_adding_to_it() {
    let prompt = system_prompt("Simplified Chinese", "English");
    assert!(prompt.contains("translate it into English instead"));
    assert!(
        !prompt.contains("repeat it unchanged"),
        "the two rules would contradict each other"
    );
}

#[test]
fn a_blank_fallback_counts_as_none() {
    assert_eq!(system_prompt("English", "   "), system_prompt("English", ""));
}

#[test]
fn the_split_does_not_depend_on_how_the_reply_is_chunked() {
    let whole = "译文\n⁂\n原文 ⁂ 更多";
    let at_once = reply_of(&[whole]);
    let chars: Vec<String> = whole.chars().map(|c| c.to_string()).collect();
    let refs: Vec<&str> = chars.iter().map(String::as_str).collect();
    let one_by_one = reply_of(&refs);
    assert_eq!(at_once.translation(), one_by_one.translation());
    assert_eq!(at_once.source(), one_by_one.source());
    assert_eq!(one_by_one.translation(), "译文");
    assert_eq!(one_by_one.source(), "原文 ⁂ 更多");
}

#[test]
fn the_translation_settles_once_the_separator_arrives() {
    let mut reply = reply_of(&["Bonjour ⁂"]);
    assert_eq!(reply.translation(), "Bonjour");
    reply.push("Hello ⁂ again");
    assert_eq!(reply.translation(), "Bonjour");
    assert_eq!(reply.source(), "Hello ⁂ again");
}

#[test]
fn trims_unicode_whitespace_around_each_part() {
    let reply = reply_of(&["\u{3000}你好\u{a0}\n⁂\u{2003}Hello\u{85}"]);
    assert_eq!(reply.translation(), "你好");
    assert_eq!(reply.source(), "Hello");
}

#[test]
fn a_separator_alone_is_an_empty_reply_with_a_source() {
    let reply = reply_of(&["⁂"]);
    assert!(reply.has_source());
    assert!(reply.is_empty());
}

#[test]
fn the_prompt_is_exact_without_a_fallback() {
    let prompt = system_prompt("German", "");
    assert!(prompt.starts_with(
        "You translate text into German, unless the source is already written in German — judged by its grammar, not merely by sharing characters with it — in which case you repeat it unchanged. The text reaches you"
    ));
    assert!(prompt.contains("separated by a line containing only ⁂:\n\n<the translation>\n⁂\n<the source text, transcribed exactly as it appears>\n\nRules:\n"));
    assert!(prompt.ends_with("and leave the source section empty."));
}

#[test]
fn the_fallback_is_trimmed_into_the_prompt() {
    let prompt = system_prompt("Simplified Chinese", "  English \n");
    assert!(prompt.contains("in which case you translate it into English instead. The text"));
}

#[test]
fn the_translation_only_grows_until_the_separator() {
    let mut reply = Reply::new();
    let mut shown = String::new();
    for delta in ["Guten", " Tag", ", Welt", "⁂", "Hello"] {
        reply.push(delta);
        assert!(reply.translation().starts_with(shown.as_str()));
        shown = reply.translation().to_string();
    }
    assert_eq!(shown, "Guten Tag, Welt");
}
