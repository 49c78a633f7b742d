//! What is sent to an OpenAI-compatible chat endpoint, OpenRouter by default,
//! and how its answers are read: the model check, the request texts and the
//! streamed chunks.

use vstd::prelude::*;
use vstd::string::*;

use base64::Engine;

use crate::store::{or_default, Settings, DEFAULT_BASE_URL, DEFAULT_FALLBACK_LANG, DEFAULT_TARGET_LANG};
use crate::text::{chars_of, contains_text, contains_text_exec, same_text, trim};
use crate::translate::{prompt_text, system_prompt};

verus! {

/// The user message that goes with a screenshot.
pub const IMAGE_REQUEST: &'static str = "Translate the text in this image.";

/// What precedes the text in the user message for a text translation.
pub const TEXT_REQUEST: &'static str = "Translate the following text.\n\n";

/// What precedes the base64 of a screenshot in its data URL.
pub const PNG_DATA_URL: &'static str = "data:image/png;base64,";

/// What the endpoint says about a model, as far as choosing one goes.
#[derive(Debug, Clone, PartialEq, Eq)]
pub struct ModelInfo {
    /// The model's slug.
    pub id: String,
    /// The kinds of input it takes, e.g. `text` and `image`, where listed.
    pub input_modalities: Option<Vec<String>>,
    /// The older combined form, e.g. `text+image->text`.
    pub modality: Option<String>,
}

/// Whether `c` is an ASCII capital letter.
pub open spec fn is_ascii_upper(c: char) -> bool {
    'A' <= c && c <= 'Z'
}

/// Whether `a` and `b` are the same letter up to ASCII case.
pub open spec fn same_letter(a: char, b: char) -> bool {
    ||| a == b
    ||| is_ascii_upper(a) && (a as u32) + 32 == (b as u32)
    ||| is_ascii_upper(b) && (b as u32) + 32 == (a as u32)
}

/// Whether `a` and `b` are equal up to ASCII case.
pub open spec fn same_ignoring_ascii_case(a: Seq<char>, b: Seq<char>) -> bool {
    a.len() == b.len() && forall|i: int| 0 <= i < a.len() ==> same_letter(#[trigger] a[i], b[i])
}

/// Whether `s` has the arrow `->` starting at `i`.
pub open spec fn arrow_at(s: Seq<char>, i: int) -> bool {
    0 <= i && i + 1 < s.len() && s[i] == '-' && s[i + 1] == '>'
}

/// Whether `i` is where the first arrow in `s` starts.
pub open spec fn first_arrow(s: Seq<char>, i: int) -> bool {
    arrow_at(s, i) && forall|j: int| 0 <= j < i ==> !arrow_at(s, j)
}

/// The input side of a combined modality such as `text+image->text`: what
/// precedes the first `->`, or all of it.
pub open spec fn input_side(s: Seq<char>) -> Seq<char> {
    if exists|i: int| first_arrow(s, i) {
        s.take(choose|i: int| first_arrow(s, i))
    } else {
        s
    }
}

/// Whether the model takes images: by its list of input kinds where it has
/// one, else by the input side of its combined modality.
pub open spec fn takes_images(model: ModelInfo) -> bool {
    match model.input_modalities {
        Some(kinds) => exists|i: int|
            0 <= i < kinds.len() && same_ignoring_ascii_case(#[trigger] kinds@[i]@, "image"@),
        None => match model.modality {
            Some(modality) => contains_text(input_side(modality@), "image"@),
            None => false,
        },
    }
}

fn same_ignoring_case(a: &str, b: &str) -> (res: bool)
    ensures
        res == same_ignoring_ascii_case(a@, b@),
{
    let x = chars_of(a);
    let y = chars_of(b);
    if x.len() != y.len() {
        return false;
    }
    let mut i: usize = 0;
    while i < x.len()
        invariant
            x@ == a@,
            y@ == b@,
            x.len() == y.len(),
            i <= x.len(),
            forall|j: int| 0 <= j < i ==> same_letter(#[trigger] x@[j], y@[j]),
        decreases x.len() - i,
    {
        let c = x[i];
        let d = y[i];
        let same = c == d || ('A' <= c && c <= 'Z' && (c as u32) + 32 == d as u32) || ('A' <= d
            && d <= 'Z' && (d as u32) + 32 == c as u32);
        if !same {
            return false;
        }
        proof {
            assert(x@[i as int] == c && y@[i as int] == d);
            assert(same_letter(c, d));
        }
        i = i + 1;
    }
    true
}

fn input_side_of(modality: &str) -> (res: Vec<char>)
    ensures
        res@ == input_side(modality@),
{
    let s = chars_of(modality);
    let mut i: usize = 0;
    while s.len() > 1 && i < s.len() - 1
        invariant
            s@ == modality@,
            forall|j: int| 0 <= j < i ==> !arrow_at(s@, j),
        decreases s.len() - i,
    {
        if s[i] == '-' && s[i + 1] == '>' {
            let mut side: Vec<char> = Vec::new();
            let mut k: usize = 0;
            while k < i
                invariant
                    s@ == modality@,
                    k <= i < s.len(),
                    side@ == s@.take(k as int),
                decreases i - k,
            {
                side.push(s[k]);
                k = k + 1;
                proof {
                    assert(side@ =~= s@.take(k as int));
                }
            }
            proof {
                assert(first_arrow(s@, i as int));
                let c = choose|c: int| first_arrow(s@, c);
                assert(c == i) by {
                    if c < i {
                        assert(!arrow_at(s@, c));
                    } else if c > i {
                        assert(!arrow_at(s@, i as int));
                    }
                }
            }
            return side;
        }
        i = i + 1;
    }
    proof {
        assert forall|j: int| !first_arrow(s@, j) by {
            if 0 <= j && j < i {
            }
        }
    }
    s
}

/// With a list of input kinds, a model takes images exactly when some entry
/// of the list, wherever it stands, reads `image` up to ASCII case: the first
/// entry counts like any other, and the order of the list does not matter.
pub proof fn listed_image_input_is_found_anywhere(model: ModelInfo, i: int)
    requires
        model.input_modalities is Some,
        0 <= i < model.input_modalities->0@.len(),
        same_ignoring_ascii_case(model.input_modalities->0@[i]@, "image"@),
    ensures
        takes_images(model),
{
    let kinds = model.input_modalities->0;
    assert(same_ignoring_ascii_case(kinds@[i]@, "image"@));
}

/// Two models whose lists of input kinds hold the same entries, in whatever
/// order, agree on whether they take images.
pub proof fn listed_order_does_not_matter(a: ModelInfo, b: ModelInfo)
    requires
        a.input_modalities is Some,
        b.input_modalities is Some,
        forall|i: int|
            0 <= i < a.input_modalities->0@.len() ==> exists|j: int|
                0 <= j < b.input_modalities->0@.len() && #[trigger] a.input_modalities->0@[i]@
                    == #[trigger] b.input_modalities->0@[j]@,
        forall|j: int|
            0 <= j < b.input_modalities->0@.len() ==> exists|i: int|
                0 <= i < a.input_modalities->0@.len() && #[trigger] a.input_modalities->0@[i]@
                    == #[trigger] b.input_modalities->0@[j]@,
    ensures
        takes_images(a) == takes_images(b),
{
    let ka = a.input_modalities->0;
    let kb = b.input_modalities->0;
    if takes_images(a) {
        let i = choose|i: int| 0 <= i < ka.len() && same_ignoring_ascii_case(#[trigger] ka@[i]@, "image"@);
        let j = choose|j: int| 0 <= j < kb@.len() && ka@[i]@ == kb@[j]@;
        listed_image_input_is_found_anywhere(b, j);
    }
    if takes_images(b) {
        let j = choose|j: int| 0 <= j < kb.len() && same_ignoring_ascii_case(#[trigger] kb@[j]@, "image"@);
        let i = choose|i: int| 0 <= i < ka@.len() && ka@[i]@ == kb@[j]@;
        listed_image_input_is_found_anywhere(a, i);
    }
}

/// Whether `model` accepts image input.
pub fn accepts_images(model: &ModelInfo) -> (res: bool)
    ensures
        res == takes_images(*model),
        model.input_modalities is Some ==> (res <==> exists|i: int|
            0 <= i < model.input_modalities->0@.len() && same_ignoring_ascii_case(
                #[trigger] model.input_modalities->0@[i]@,
                "image"@,
            )),
{
    match &model.input_modalities {
        Some(kinds) => {
            let mut i: usize = 0;
            while i < kinds.len()
                invariant
                    model.input_modalities == Some(*kinds),
                    i <= kinds.len(),
                    forall|j: int|
                        0 <= j < i ==> !same_ignoring_ascii_case(#[trigger] kinds@[j]@, "image"@),
                decreases kinds.len() - i,
            {
                if same_ignoring_case(kinds[i].as_str(), "image") {
                    proof {
                        assert(same_ignoring_ascii_case(kinds@[i as int]@, "image"@));
                        let ks = model.input_modalities->0;
                        assert(ks@[i as int]@ == kinds@[i as int]@);
                        assert(exists|j: int|
                            0 <= j < ks.len() && same_ignoring_ascii_case(
                                #[trigger] ks@[j]@,
                                "image"@,
                            ));
                    }
                    return true;
                }
                i = i + 1;
            }
            false
        },
        None => match &model.modality {
            Some(modality) => {
                let side = input_side_of(modality.as_str());
                let image = chars_of("image");
                contains_text_exec(&side, &image)
            },
            None => false,
        },
    }
}

/// Why the configured model cannot be used.
#[derive(Debug, Clone, PartialEq, Eq)]
pub enum ModelProblem {
    /// The endpoint does not list it.
    NoSuchModel(String),
    /// It is listed, but does not take images.
    NoImageInput(String),
}

impl ModelProblem {
    /// The message this problem is shown with.
    pub fn message(&self) -> (res: String)
        ensures
            res@ == match self {
                ModelProblem::NoSuchModel(m) => "no such model: "@ + m@,
                ModelProblem::NoImageInput(m) => "model "@ + m@ + " does not accept image input"@,
            },
    {
        match self {
            ModelProblem::NoSuchModel(m) => {
                let mut text = String::from_str("no such model: ");
                text.push_str(m.as_str());
                text
            },
            ModelProblem::NoImageInput(m) => {
                let mut text = String::from_str("model ");
                text.push_str(m.as_str());
                text.push_str(" does not accept image input");
                text
            },
        }
    }
}

/// Whether the first listed model with the slug `model` sits at index `i`.
pub open spec fn first_listed(models: Seq<ModelInfo>, model: Seq<char>, i: int) -> bool {
    0 <= i < models.len() && models[i].id@ == model && forall|j: int|
        0 <= j < i ==> models[j].id@ != model
}

/// Fails unless the configured `model` is among the listed `models` and
/// accepts images, judged by the first listing of it.
///
/// Run at startup: a model that cannot see is otherwise only discovered on
/// the first screenshot, long after the mistake was made.
pub fn check_model(models: &Vec<ModelInfo>, model: &str) -> (res: Result<(), ModelProblem>)
    ensures
        match res {
            Ok(()) => exists|i: int| first_listed(models@, model@, i) && takes_images(models@[i]),
            Err(ModelProblem::NoSuchModel(m)) => m@ == model@ && forall|i: int|
                0 <= i < models@.len() ==> models@[i].id@ != model@,
            Err(ModelProblem::NoImageInput(m)) => m@ == model@ && exists|i: int|
                first_listed(models@, model@, i) && !takes_images(models@[i]),
        },
{
    let mut i: usize = 0;
    while i < models.len()
        invariant
            i <= models.len(),
            forall|j: int| 0 <= j < i ==> models@[j].id@ != model@,
        decreases models.len() - i,
    {
        if same_text(models[i].id.as_str(), model) {
            proof {
                assert(first_listed(models@, model@, i as int));
            }
            if accepts_images(&models[i]) {
                return Ok(());
            } else {
                return Err(ModelProblem::NoImageInput(String::from_str(model)));
            }
        }
        i = i + 1;
    }
    Err(ModelProblem::NoSuchModel(String::from_str(model)))
}

/// The letter standing for the six bits `n` in the standard base64 alphabet.
pub open spec fn base64_letter(n: int) -> char {
    if n < 26 {
        ('A' as int + n) as char
    } else if n < 52 {
        ('a' as int + (n - 26)) as char
    } else if n < 62 {
        ('0' as int + (n - 52)) as char
    } else if n == 62 {
        '+'
    } else {
        '/'
    }
}

/// The four letters for the 24 bits `n`, the last `pad` of them replaced by
/// `=`.
pub open spec fn base64_quad(n: int, pad: int) -> Seq<char> {
    seq![
        base64_letter(n / 262144),
        base64_letter((n / 4096) % 64),
        if pad >= 2 { '=' } else { base64_letter((n / 64) % 64) },
        if pad >= 1 { '=' } else { base64_letter(n % 64) },
    ]
}

/// `bytes` in standard base64 with padding, as RFC 4648 section 4 defines it.
pub open spec fn base64(bytes: Seq<u8>) -> Seq<char>
    decreases bytes.len(),
{
    if bytes.len() >= 3 {
        base64_quad(bytes[0] * 65536 + bytes[1] * 256 + bytes[2], 0) + base64(
            bytes.subrange(3, bytes.len() as int),
        )
    } else if bytes.len() == 2 {
        base64_quad(bytes[0] * 65536 + bytes[1] * 256, 1)
    } else if bytes.len() == 1 {
        base64_quad(bytes[0] * 65536, 2)
    } else {
        Seq::empty()
    }
}

/// Encodes `bytes` with the `base64` crate's `STANDARD` engine, which its
/// documentation describes as the standard alphabet of RFC 4648 with padding.
#[verifier::external_body]
fn encode_base64(bytes: &[u8]) -> (res: String)
    ensures
        res@ == base64(bytes@),
{
    base64::engine::general_purpose::STANDARD.encode(bytes)
}

/// The data URL a PNG screenshot is sent as.
pub fn image_data_url(png: &[u8]) -> (res: String)
    ensures
        res@ == PNG_DATA_URL@ + base64(png@),
{
    let mut url = String::from_str(PNG_DATA_URL);
    let encoded = encode_base64(png);
    url.push_str(encoded.as_str());
    url
}

/// The user message for translating plain text.
///
/// The caller already has the exact source, so the reply is the translation.
pub fn text_request(text: &str) -> (res: String)
    ensures
        res@ == TEXT_REQUEST@ + text@,
{
    let mut request = String::from_str(TEXT_REQUEST);
    request.push_str(text);
    request
}

/// The translation fragment a streamed chunk carries, given the content of
/// its first choice: chunks with no content or an empty one are skipped.
pub fn delta(content: Option<&str>) -> (res: Option<String>)
    ensures
        match content {
            Some(text) => if text@.len() > 0 {
                res is Some && res->0@ == text@
            } else {
                res is None
            },
            None => res is None,
        },
{
    match content {
        Some(text) => if text.is_empty() {
            None
        } else {
            Some(String::from_str(text))
        },
        None => None,
    }
}

/// What a provider is built with for one set of settings.
#[derive(Debug, Clone, PartialEq, Eq)]
pub struct ProviderConfig {
    /// The model slug, as configured.
    pub model: String,
    /// The endpoint, defaulted.
    pub base_url: String,
    /// The system prompt, for the defaulted target and fallback languages.
    pub system_prompt: String,
}

impl ProviderConfig {
    /// The provider setup for `settings`: the prompt bakes in the defaulted
    /// languages, so a settings change needs a new one.
    pub fn new(settings: &Settings) -> (res: ProviderConfig)
        ensures
            res.model@ == settings.model@,
            res.base_url@ == or_default(settings.base_url@, DEFAULT_BASE_URL@),
            res.system_prompt@ == prompt_text(
                or_default(settings.target_lang@, DEFAULT_TARGET_LANG@),
                trim(or_default(settings.fallback_lang@, DEFAULT_FALLBACK_LANG@)),
            ),
    {
        ProviderConfig {
            model: settings.model.clone(),
            base_url: String::from_str(settings.base_url()),
            system_prompt: system_prompt(settings.target(), settings.fallback()),
        }
    }
}

} // verus!
