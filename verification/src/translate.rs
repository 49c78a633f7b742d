//! The translation prompt and the model's streamed reply.

use vstd::prelude::*;
use vstd::string::*;

use crate::text::{is_blank, lemma_trim_empty_iff_blank, trim, trimmed};

verus! {

/// Marks the end of the translation and the start of the source text.
///
/// A single character with no plausible reason to appear in ordinary prose,
/// which keeps the split unambiguous without escaping. Being a single character
/// also means it can never straddle two streamed deltas.
pub const SEPARATOR: char = '⁂';

/// The text before the first separator, or all of it when there is none.
pub open spec fn before_separator(s: Seq<char>) -> Seq<char>
    decreases s.len(),
{
    if s.len() == 0 {
        s
    } else if s[0] == SEPARATOR {
        Seq::empty()
    } else {
        seq![s[0]] + before_separator(s.drop_first())
    }
}

/// The text after the first separator, or nothing when there is none.
pub open spec fn after_separator(s: Seq<char>) -> Seq<char>
    decreases s.len(),
{
    if s.len() == 0 {
        s
    } else if s[0] == SEPARATOR {
        s.drop_first()
    } else {
        after_separator(s.drop_first())
    }
}

/// Opening of the directive, up to the target language.
pub const DIRECTIVE_OPENING: &'static str = "You translate text into ";
/// Between the two mentions of the target language.
pub const DIRECTIVE_UNLESS: &'static str = ", unless the source is already written in ";
/// After the second mention of the target language, before the exception.
pub const DIRECTIVE_JUDGED: &'static str = " — judged by its grammar, not merely by sharing characters with it — in which case you ";
/// The exception when no fallback language is set.
pub const REPEAT_UNCHANGED: &'static str = "repeat it unchanged";
/// The exception when a fallback language is set, before its name.
pub const TRANSLATE_INTO: &'static str = "translate it into ";
/// The exception when a fallback language is set, after its name.
pub const INSTEAD: &'static str = " instead";
/// From the end of the directive to the first separator.
pub const LAYOUT_OPENING: &'static str = ". The text reaches you either as an image of a screen region or as plain text.\n\nReply with exactly two sections, separated by a line containing only ";
/// Between the first and the second separator.
pub const LAYOUT_TRANSLATION: &'static str = ":\n\n<the translation>\n";
/// After the second separator: the source placeholder and the rules.
pub const LAYOUT_RULES: &'static str = "\n<the source text, transcribed exactly as it appears>\n\nRules:\n- Output nothing else. No preamble, no commentary, no markdown code fences.\n- Preserve line breaks and paragraph structure in both sections.\n- Transcribe the source in its original language, keeping its spelling and punctuation. Do not correct it.\n- Give only the translation; do not mention which language it ended up in or why.\n- If there is no readable text at all, write a single hyphen as the translation and leave the source section empty.";

/// What the model is told to do when the source is already in the target
/// language: repeat it, or translate it into `fallback` when one is set.
pub open spec fn exception_text(fallback: Seq<char>) -> Seq<char> {
    if fallback.len() == 0 {
        REPEAT_UNCHANGED@
    } else {
        TRANSLATE_INTO@ + fallback + INSTEAD@
    }
}

/// The system prompt for translating into `target`, with `fallback` (already
/// trimmed) as the language to use when the source is in `target` already.
pub open spec fn prompt_text(target: Seq<char>, fallback: Seq<char>) -> Seq<char> {
    DIRECTIVE_OPENING@ + target + DIRECTIVE_UNLESS@ + target + DIRECTIVE_JUDGED@
        + exception_text(fallback) + LAYOUT_OPENING@.push(SEPARATOR) + LAYOUT_TRANSLATION@.push(
        SEPARATOR,
    ) + LAYOUT_RULES@
}

/// Builds the system prompt for translating into `target_lang`.
///
/// `fallback_lang`, when set, is what to use if the source is already in
/// `target_lang`. A fallback of only whitespace counts as none.
pub fn system_prompt(target_lang: &str, fallback_lang: &str) -> (res: String)
    ensures
        res@ == prompt_text(target_lang@, trim(fallback_lang@)),
        res@.take(directive_head(target_lang@).len() as int) == directive_head(target_lang@),
{
    let fallback = trimmed(fallback_lang);
    let mut prompt = String::new();
    prompt.push_str(DIRECTIVE_OPENING);
    prompt.push_str(target_lang);
    prompt.push_str(DIRECTIVE_UNLESS);
    prompt.push_str(target_lang);
    prompt.push_str(DIRECTIVE_JUDGED);
    if fallback.is_empty() {
        prompt.push_str(REPEAT_UNCHANGED);
    } else {
        prompt.push_str(TRANSLATE_INTO);
        prompt.push_str(fallback);
        prompt.push_str(INSTEAD);
    }
    prompt.push_str(LAYOUT_OPENING);
    prompt.push(SEPARATOR);
    prompt.push_str(LAYOUT_TRANSLATION);
    prompt.push(SEPARATOR);
    prompt.push_str(LAYOUT_RULES);
    proof {
        assert(prompt@ =~= prompt_text(target_lang@, trim(fallback_lang@)));
        prompt_checks_the_source_against_the_target(target_lang@, trim(fallback_lang@));
    }
    prompt
}

/// The opening of the directive: translate into `target`, unless the source
/// is already written in `target`.
pub open spec fn directive_head(target: Seq<char>) -> Seq<char> {
    DIRECTIVE_OPENING@ + target + DIRECTIVE_UNLESS@ + target + DIRECTIVE_JUDGED@
}

/// Whatever the fallback, the prompt opens by naming the target twice: as the
/// language to translate into and as the one the source is checked against.
/// The fallback changes only the exception that follows, so the prompts with
/// and without one agree on that opening.
pub proof fn prompt_checks_the_source_against_the_target(target: Seq<char>, fallback: Seq<char>)
    ensures
        prompt_text(target, fallback).take(directive_head(target).len() as int) == directive_head(
            target,
        ),
        prompt_text(target, fallback).take(directive_head(target).len() as int) == prompt_text(
            target,
            Seq::empty(),
        ).take(directive_head(target).len() as int),
{
    let head = directive_head(target);
    let k = head.len() as int;
    assert(prompt_text(target, fallback).take(k) =~= head);
    assert(prompt_text(target, Seq::empty()).take(k) =~= head);
}

/// A fallback of only whitespace counts as no fallback: the prompt is the one
/// built with an empty fallback.
pub proof fn blank_fallback_counts_as_none(target: Seq<char>, fallback: Seq<char>)
    requires
        is_blank(fallback),
    ensures
        prompt_text(target, trim(fallback)) == prompt_text(target, trim(Seq::<char>::empty())),
{
    lemma_trim_empty_iff_blank(fallback);
    lemma_trim_empty_iff_blank(Seq::<char>::empty());
    assert(trim(fallback) =~= trim(Seq::<char>::empty()));
}

/// Once the separator has arrived, later text never changes the translation:
/// it all belongs to the source.
pub proof fn settled_translation(received: Seq<char>, later: Seq<char>)
    requires
        received.contains(SEPARATOR),
    ensures
        before_separator(received + later) == before_separator(received),
        after_separator(received + later) == after_separator(received) + later,
    decreases received.len(),
{
    let whole = received + later;
    assert(whole.drop_first() =~= received.drop_first() + later);
    assert(whole[0] == received[0]);
    if received[0] != SEPARATOR {
        let k = choose|k: int| 0 <= k < received.len() && received[k] == SEPARATOR;
        assert(received.drop_first()[k - 1] == SEPARATOR);
        settled_translation(received.drop_first(), later);
    }
}

/// While the separator has not arrived, the translation only grows: what is
/// shown is never taken back by a later delta.
pub proof fn translation_only_grows(received: Seq<char>, later: Seq<char>)
    ensures
        before_separator(received).len() <= before_separator(received + later).len(),
        before_separator(received) =~= before_separator(received + later).take(
            before_separator(received).len() as int,
        ),
    decreases received.len(),
{
    let whole = received + later;
    if received.len() == 0 {
        assert(whole =~= later);
    } else {
        assert(whole.drop_first() =~= received.drop_first() + later);
        assert(whole[0] == received[0]);
        if received[0] != SEPARATOR {
            translation_only_grows(received.drop_first(), later);
        }
    }
}

/// The translation never holds the separator, and a reply that has one is
/// exactly its translation, the separator and its source, so a second
/// separator is kept as source text.
pub proof fn split_reassembles(received: Seq<char>)
    ensures
        !before_separator(received).contains(SEPARATOR),
        received.contains(SEPARATOR) ==> received == before_separator(received).push(SEPARATOR)
            + after_separator(received),
        !received.contains(SEPARATOR) ==> before_separator(received) == received
            && after_separator(received).len() == 0,
    decreases received.len(),
{
    if received.len() > 0 {
        let rest = received.drop_first();
        split_reassembles(rest);
        if received[0] == SEPARATOR {
            assert(received.contains(SEPARATOR));
            assert(received =~= Seq::<char>::empty().push(SEPARATOR) + rest);
        } else {
            let b = before_separator(rest);
            assert(before_separator(received) =~= seq![received[0]] + b);
            if before_separator(received).contains(SEPARATOR) {
                let k = choose|k: int|
                    0 <= k < before_separator(received).len() && before_separator(received)[k]
                        == SEPARATOR;
                assert(b[k - 1] == SEPARATOR);
            }
            if received.contains(SEPARATOR) {
                let k = choose|k: int| 0 <= k < received.len() && received[k] == SEPARATOR;
                assert(rest[k - 1] == SEPARATOR);
                assert(received =~= seq![received[0]] + rest);
            } else {
                if rest.contains(SEPARATOR) {
                    let k = choose|k: int| 0 <= k < rest.len() && rest[k] == SEPARATOR;
                    assert(received[k + 1] == SEPARATOR);
                }
                assert(received =~= seq![received[0]] + rest);
            }
        }
    }
}

/// A reply being streamed in.
///
/// The model answers with the translation first and the transcribed source
/// after the separator, so that the part the user is waiting for arrives first.
#[derive(Debug)]
pub struct Reply {
    translation: String,
    source: String,
    past_separator: bool,
}

impl View for Reply {
    /// Everything received so far, separator included.
    type V = Seq<char>;

    closed spec fn view(&self) -> Seq<char> {
        if self.past_separator {
            self.translation@.push(SEPARATOR) + self.source@
        } else {
            self.translation@
        }
    }
}

proof fn lemma_split_of_parts(t: Seq<char>, s: Seq<char>)
    requires
        !t.contains(SEPARATOR),
    ensures
        before_separator(t.push(SEPARATOR) + s) == t,
        after_separator(t.push(SEPARATOR) + s) == s,
        before_separator(t) == t,
        after_separator(t) == Seq::<char>::empty(),
    decreases t.len(),
{
    let whole = t.push(SEPARATOR) + s;
    if t.len() == 0 {
        assert(whole[0] == SEPARATOR);
        assert(whole.drop_first() =~= s);
    } else {
        assert(t[0] != SEPARATOR) by {
            assert(t.contains(t[0]) ==> t[0] != SEPARATOR);
        }
        let u = t.drop_first();
        assert(!u.contains(SEPARATOR)) by {
            if u.contains(SEPARATOR) {
                let k = choose|k: int| 0 <= k < u.len() && u[k] == SEPARATOR;
                assert(t[k + 1] == SEPARATOR);
            }
        }
        lemma_split_of_parts(u, s);
        assert(whole.drop_first() =~= u.push(SEPARATOR) + s);
        assert(whole[0] == t[0]);
        assert(seq![t[0]] + u =~= t);
    }
}

impl Default for Reply {
    fn default() -> (res: Self)
        ensures
            res.wf(),
            res@ == Seq::<char>::empty(),
    {
        Reply::new()
    }
}

impl Reply {
    /// The translation collected so far never holds the separator.
    pub closed spec fn wf(&self) -> bool {
        &&& !self.translation@.contains(SEPARATOR)
        &&& !self.past_separator ==> self.source@.len() == 0
    }

    /// An empty reply.
    pub fn new() -> (res: Self)
        ensures
            res.wf(),
            res@ == Seq::<char>::empty(),
    {
        Reply { translation: String::new(), source: String::new(), past_separator: false }
    }

    /// Appends one streamed delta.
    pub fn push(&mut self, delta: &str)
        requires
            old(self).wf(),
        ensures
            final(self).wf(),
            final(self)@ == old(self)@ + delta@,
    {
        let ghost start = self@;
        broadcast use vstd::string::group_string_axioms;

        for c in it: delta.chars()
            invariant
                it.seq() == delta@,
                self.wf(),
                self@ == start + delta@.take(it.index() as int),
        {
            proof {
                assert(c == delta@[it.index() as int]);
                assert(delta@.take(it.index() + 1) =~= delta@.take(it.index() as int).push(c));
            }
            let ghost before = self@;
            if self.past_separator {
                self.source.push(c);
                proof {
                    assert(self@ =~= before.push(c));
                }
            } else if c == SEPARATOR {
                self.past_separator = true;
                proof {
                    assert(self@ =~= before.push(c));
                }
            } else {
                proof {
                    assert(!self.translation@.push(c).contains(SEPARATOR)) by {
                        let t = self.translation@.push(c);
                        if t.contains(SEPARATOR) {
                            let k = choose|k: int| 0 <= k < t.len() && t[k] == SEPARATOR;
                            if k < self.translation@.len() {
                                assert(self.translation@[k] == SEPARATOR);
                            }
                        }
                    }
                }
                self.translation.push(c);
                proof {
                    assert(self@ =~= before.push(c));
                }
            }
            proof {
                assert(self@ =~= start + delta@.take(it.index() + 1));
            }
        }
        proof {
            assert(delta@.take(delta@.len() as int) =~= delta@);
        }
    }

    /// The translation received so far.
    pub fn translation(&self) -> (res: &str)
        requires
            self.wf(),
        ensures
            res@ == trim(before_separator(self@)),
    {
        proof {
            lemma_split_of_parts(self.translation@, self.source@);
        }
        trimmed(self.translation.as_str())
    }

    /// The transcribed source text, empty until the separator arrives.
    pub fn source(&self) -> (res: &str)
        requires
            self.wf(),
        ensures
            res@ == trim(after_separator(self@)),
    {
        proof {
            lemma_split_of_parts(self.translation@, self.source@);
        }
        if self.past_separator {
            trimmed(self.source.as_str())
        } else {
            proof {
                reveal_strlit("");
                assert(trim(Seq::<char>::empty()) =~= Seq::<char>::empty());
            }
            ""
        }
    }

    /// Whether the separator has been seen.
    pub fn has_source(&self) -> (res: bool)
        requires
            self.wf(),
        ensures
            res == self@.contains(SEPARATOR),
    {
        proof {
            if self.past_separator {
                let t = self.translation@;
                assert(self@[t.len() as int] == SEPARATOR);
            }
        }
        self.past_separator
    }

    /// Whether anything usable arrived at all.
    pub fn is_empty(&self) -> (res: bool)
        requires
            self.wf(),
        ensures
            res == (is_blank(before_separator(self@)) && is_blank(after_separator(self@))),
    {
        proof {
            lemma_trim_empty_iff_blank(before_separator(self@));
            lemma_trim_empty_iff_blank(after_separator(self@));
        }
        self.translation().is_empty() && self.source().is_empty()
    }
}

} // verus!
