//! The AI assistant: the models offered for each provider, the addresses
//! and headers of its requests, the prompt sent, and how its answers and
//! errors are read.
use vstd::prelude::*;

use crate::config::{ai_available, ai_is_available, is_local, is_local_endpoint, Config};
use crate::logging::{text_le, text_le_exec};
use crate::text::{
    chars_of, contains, contains_seq, ends_with, find, find_seq, has_prefix, has_suffix,
    lowercase, owned, push_chars, push_str, split_once, string_of, string_of_range, text_eq,
    to_lowercase, after_char, before_char,
};

verus! {

/// What the assistant is asked about.
pub struct AiRequest {
    /// What happened: a package and its error, or a file and why it is listed.
    pub context: String,
    /// "update_error", "cleanup_advice" or "general".
    pub context_type: String,
}

/// A model the user can choose.
pub struct AiModelInfo {
    pub id: String,
    pub name: String,
}

/// The models of a list.
pub open spec fn model_views(v: Seq<AiModelInfo>) -> Seq<(Seq<char>, Seq<char>)> {
    v.map_values(|m: AiModelInfo| (m.id@, m.name@))
}

/// The models offered for a provider when its list cannot be read.
pub open spec fn fallback_models(provider: Seq<char>) -> Seq<(Seq<char>, Seq<char>)> {
    if provider == "gemini"@ {
        seq![
            ("gemini-2.5-flash"@, "Gemini 2.5 Flash"@),
            ("gemini-2.5-pro"@, "Gemini 2.5 Pro"@),
            ("gemini-2.0-flash-lite"@, "Gemini 2.0 Flash Lite"@),
        ]
    } else if provider == "openai"@ {
        seq![
            ("gpt-4o-mini"@, "GPT-4o Mini"@),
            ("gpt-4o"@, "GPT-4o"@),
            ("gpt-4.1-mini"@, "GPT-4.1 Mini"@),
            ("gpt-4.1-nano"@, "GPT-4.1 Nano"@),
            ("gpt-3.5-turbo"@, "GPT-3.5 Turbo"@),
        ]
    } else if provider == "grok"@ {
        seq![
            ("grok-4-1-fast-non-reasoning"@, "Grok 4.1 Fast"@),
            ("grok-4-1-fast-reasoning"@, "Grok 4.1 Fast (Reasoning)"@),
            ("grok-4.20-0309-non-reasoning"@, "Grok 4.20"@),
        ]
    } else if provider == "ollama"@ {
        seq![
            ("llama3"@, "Llama 3"@),
            ("mistral"@, "Mistral"@),
            ("neural-chat"@, "Neural Chat"@),
            ("codellama"@, "Code Llama"@),
            ("phi3"@, "Phi-3"@),
        ]
    } else {
        Seq::<(Seq<char>, Seq<char>)>::empty()
    }
}

fn model(id: &str, name: &str) -> (m: AiModelInfo)
    ensures
        m.id@ == id@,
        m.name@ == name@,
{
    AiModelInfo { id: owned(id), name: owned(name) }
}

/// The models offered for a provider when its list cannot be read.
pub fn get_fallback_models(provider: &str) -> (v: Vec<AiModelInfo>)
    ensures
        model_views(v@) == fallback_models(provider@),
{
    let mut v: Vec<AiModelInfo> = Vec::new();
    if text_eq(provider, "gemini") {
        v.push(model("gemini-2.5-flash", "Gemini 2.5 Flash"));
        v.push(model("gemini-2.5-pro", "Gemini 2.5 Pro"));
        v.push(model("gemini-2.0-flash-lite", "Gemini 2.0 Flash Lite"));
    } else if text_eq(provider, "openai") {
        v.push(model("gpt-4o-mini", "GPT-4o Mini"));
        v.push(model("gpt-4o", "GPT-4o"));
        v.push(model("gpt-4.1-mini", "GPT-4.1 Mini"));
        v.push(model("gpt-4.1-nano", "GPT-4.1 Nano"));
        v.push(model("gpt-3.5-turbo", "GPT-3.5 Turbo"));
    } else if text_eq(provider, "grok") {
        v.push(model("grok-4-1-fast-non-reasoning", "Grok 4.1 Fast"));
        v.push(model("grok-4-1-fast-reasoning", "Grok 4.1 Fast (Reasoning)"));
        v.push(model("grok-4.20-0309-non-reasoning", "Grok 4.20"));
    } else if text_eq(provider, "ollama") {
        v.push(model("llama3", "Llama 3"));
        v.push(model("mistral", "Mistral"));
        v.push(model("neural-chat", "Neural Chat"));
        v.push(model("codellama", "Code Llama"));
        v.push(model("phi3", "Phi-3"));
    }
    assert(model_views(v@) =~= fallback_models(provider@));
    v
}

/// The Aura-IA modes offered when its list cannot be read.
pub open spec fn default_modes() -> Seq<(Seq<char>, Seq<char>)> {
    seq![
        ("rapide"@, "Rapide (Qwen 7B)"@),
        ("reflexions"@, "Réflexions (Qwen 7B)"@),
        ("intelligent"@, "Intelligent (DeepSeek 7B)"@),
    ]
}

/// The Aura-IA modes offered when its list cannot be read.
pub fn default_aura_modes() -> (v: Vec<AiModelInfo>)
    ensures
        model_views(v@) == default_modes(),
{
    let mut v: Vec<AiModelInfo> = Vec::new();
    v.push(model("rapide", "Rapide (Qwen 7B)"));
    v.push(model("reflexions", "Réflexions (Qwen 7B)"));
    v.push(model("intelligent", "Intelligent (DeepSeek 7B)"));
    assert(model_views(v@) =~= default_modes());
    v
}

// ─────────────────────────────── addresses ────────────────────────────────

/// A text without its trailing `c`s (`trim_end_matches(c)`).
pub open spec fn trim_end_char(s: Seq<char>, c: char) -> Seq<char>
    decreases s.len(),
{
    if s.len() > 0 && s.last() == c {
        trim_end_char(s.drop_last(), c)
    } else {
        s
    }
}

/// Removes the trailing `c`s of a text.
pub fn trim_end_char_exec(s: &[char], c: char) -> (r: Vec<char>)
    ensures
        r@ == trim_end_char(s@, c),
{
    let mut n = s.len();
    assert(s@.subrange(0, n as int) =~= s@);
    while n > 0 && s[n - 1] == c
        invariant
            n <= s@.len(),
            trim_end_char(s@, c) == trim_end_char(s@.subrange(0, n as int), c),
        decreases n,
    {
        assert(s@.subrange(0, n as int).drop_last() =~= s@.subrange(0, n - 1));
        n = n - 1;
    }
    let mut r: Vec<char> = Vec::new();
    let mut i: usize = 0;
    while i < n
        invariant
            i <= n <= s@.len(),
            r@ == s@.subrange(0, i as int),
        decreases n - i,
    {
        r.push(s[i]);
        assert(r@ =~= s@.subrange(0, i + 1));
        i = i + 1;
    }
    r
}

/// Whether requests to an endpoint accept invalid certificates: for a local
/// server or Aura-IA.
pub open spec fn lenient_tls(provider: Seq<char>, endpoint: Seq<char>) -> bool {
    is_local_endpoint(endpoint) || contains_seq(endpoint, "auraneo.fr"@) || provider == "auraneo"@
}

/// Whether the model list request accepts invalid certificates.
pub fn accepts_invalid_certs(provider: &str, endpoint: &str) -> (b: bool)
    ensures
        b == lenient_tls(provider@, endpoint@),
{
    let e = chars_of(endpoint);
    let a = chars_of("auraneo.fr");
    is_local(endpoint) || contains(e.as_slice(), a.as_slice()) || text_eq(provider, "auraneo")
}

/// The address of Ollama's model list.
pub fn ollama_tags_url(endpoint: &str) -> (r: String)
    ensures
        r@ == trim_end_char(endpoint@, '/') + "/api/tags"@,
{
    let e = chars_of(endpoint);
    let base = trim_end_char_exec(e.as_slice(), '/');
    let mut r = string_of(base.as_slice());
    push_str(&mut r, "/api/tags");
    r
}

/// The base of the Aura-IA gateway: the endpoint without trailing `/` nor a
/// final `/chat` after `/api/agents`.
pub open spec fn aura_base(endpoint: Seq<char>) -> Seq<char> {
    let b = trim_end_char(endpoint, '/');
    if has_suffix(b, "/api/agents/chat"@) {
        b.subrange(0, b.len() - 5)
    } else {
        b
    }
}

/// The address of the Aura-IA modes.
pub fn aura_modes_url(endpoint: &str) -> (r: String)
    ensures
        r@ == aura_base(endpoint@) + "/api/agents/modes"@,
{
    let e = chars_of(endpoint);
    let b = trim_end_char_exec(e.as_slice(), '/');
    let suffix = chars_of("/api/agents/chat");
    proof {
        reveal_strlit("/api/agents/chat");
    }
    let mut r = if ends_with(b.as_slice(), suffix.as_slice()) {
        string_of_range(b.as_slice(), 0, b.len() - 5)
    } else {
        string_of(b.as_slice())
    };
    push_str(&mut r, "/api/agents/modes");
    r
}

/// The text before the first occurrence of `n` (all of it when there is none).
pub open spec fn before_text(s: Seq<char>, n: Seq<char>) -> Seq<char> {
    match find_seq(s, n) {
        Some(i) => s.subrange(0, i),
        None => s,
    }
}

/// The address of an OpenAI-compatible model list.
pub open spec fn models_url_of(endpoint: Seq<char>) -> Seq<char> {
    let base = trim_end_char(endpoint, '/');
    if contains_seq(base, "/v1beta/"@) || contains_seq(base, "/v2beta/"@) {
        before_text(base, "/openai"@) + "/models"@
    } else if has_suffix(base, "/v1"@) {
        base + "/models"@
    } else if contains_seq(base, "/v1/"@) {
        before_text(base, "/v1/"@) + "/v1"@ + "/models"@
    } else {
        base + "/v1/models"@
    }
}

fn before_text_exec(s: &[char], n: &str) -> (r: Vec<char>)
    ensures
        r@ == before_text(s@, n@),
{
    let nv = chars_of(n);
    match find(s, nv.as_slice()) {
        Some(i) => {
            let mut r: Vec<char> = Vec::new();
            let mut k: usize = 0;
            while k < i
                invariant
                    k <= i <= s@.len(),
                    r@ == s@.subrange(0, k as int),
                decreases i - k,
            {
                r.push(s[k]);
                assert(r@ =~= s@.subrange(0, k + 1));
                k = k + 1;
            }
            r
        },
        None => {
            let mut r: Vec<char> = Vec::new();
            let mut k: usize = 0;
            while k < s.len()
                invariant
                    k <= s@.len(),
                    r@ == s@.subrange(0, k as int),
                decreases s@.len() - k,
            {
                r.push(s[k]);
                assert(r@ =~= s@.subrange(0, k + 1));
                k = k + 1;
            }
            assert(r@ =~= s@);
            r
        },
    }
}

/// Builds the address of an OpenAI-compatible model list.
pub fn models_url(endpoint: &str) -> (r: String)
    ensures
        r@ == models_url_of(endpoint@),
{
    let e = chars_of(endpoint);
    let base = trim_end_char_exec(e.as_slice(), '/');
    let v1beta = chars_of("/v1beta/");
    let v2beta = chars_of("/v2beta/");
    let v1 = chars_of("/v1");
    let v1s = chars_of("/v1/");
    if contains(base.as_slice(), v1beta.as_slice()) || contains(base.as_slice(), v2beta.as_slice()) {
        let b = before_text_exec(base.as_slice(), "/openai");
        let mut r = string_of(b.as_slice());
        push_str(&mut r, "/models");
        r
    } else if ends_with(base.as_slice(), v1.as_slice()) {
        let mut r = string_of(base.as_slice());
        push_str(&mut r, "/models");
        r
    } else if contains(base.as_slice(), v1s.as_slice()) {
        let b = before_text_exec(base.as_slice(), "/v1/");
        let mut r = string_of(b.as_slice());
        push_str(&mut r, "/v1");
        push_str(&mut r, "/models");
        r
    } else {
        let mut r = string_of(base.as_slice());
        push_str(&mut r, "/v1/models");
        r
    }
}

/// The headers that carry an API key: none without a key; a key of the form
/// `id:secret` sent to Aura-IA as `X-Api-Key` and `X-Api-Secret`; any other key
/// as a bearer token.
pub open spec fn key_headers(api_key: Seq<char>, aura: bool) -> Seq<(Seq<char>, Seq<char>)> {
    if api_key.len() == 0 {
        Seq::<(Seq<char>, Seq<char>)>::empty()
    } else if aura && contains_seq(api_key, seq![':']) {
        seq![
            ("X-Api-Key"@, before_char(api_key, ':')),
            ("X-Api-Secret"@, after_char(api_key, ':').unwrap()),
        ]
    } else {
        seq![("Authorization"@, "Bearer "@ + api_key)]
    }
}

/// The models of a list of (name, value) pairs.
pub open spec fn pair_views(v: Seq<(String, String)>) -> Seq<(Seq<char>, Seq<char>)> {
    v.map_values(|p: (String, String)| (p.0@, p.1@))
}

/// Builds the headers that carry an API key.
#[verifier::spinoff_prover]
#[verifier::rlimit(50)]
pub fn api_key_headers(api_key: &str, aura: bool) -> (r: Vec<(String, String)>)
    ensures
        pair_views(r@) == key_headers(api_key@, aura),
{
    let k = chars_of(api_key);
    let mut r: Vec<(String, String)> = Vec::new();
    if k.len() == 0 {
        assert(pair_views(r@) =~= key_headers(api_key@, aura));
        return r;
    }
    let colon = chars_of(":");
    proof {
        reveal_strlit(":");
    }
    assert(colon@ =~= seq![':']);
    if aura && contains(k.as_slice(), colon.as_slice()) {
        let (id, secret) = split_once(k.as_slice(), ':');
        proof {
            assert(crate::text::contains_seq(api_key@, seq![':']));
        }
        match secret {
            Some(s) => {
                let a = string_of(id.as_slice());
                let b = string_of(s.as_slice());
                r.push((owned("X-Api-Key"), a));
                r.push((owned("X-Api-Secret"), b));
                assert(pair_views(r@) =~= key_headers(api_key@, aura));
            },
            None => {},
        }
        return r;
    } else {
        let mut b = owned("Bearer ");
        push_str(&mut b, api_key);
        r.push((owned("Authorization"), b));
    }
    assert(pair_views(r@) =~= key_headers(api_key@, aura));
    r
}

// ───────────────────────────── model lists ────────────────────────────────

/// A field of a JSON object as the lists read it.
pub enum JsonField {
    Absent,
    Text(String),
    Other,
}

/// The text a field holds, if it holds one.
pub open spec fn field_text(f: JsonField) -> Option<Seq<char>> {
    match f {
        JsonField::Text(t) => Some(t@),
        _ => None,
    }
}

/// The first of two fields that is present (`a.or(b)`).
pub open spec fn first_present(a: JsonField, b: JsonField) -> JsonField {
    if a is Absent {
        b
    } else {
        a
    }
}

fn field_text_exec(f: &JsonField) -> (r: Option<String>)
    ensures
        match field_text(*f) {
            Some(t) => r matches Some(x) && x@ == t,
            None => r is None,
        },
{
    match f {
        JsonField::Text(t) => Some(t.clone()),
        _ => None,
    }
}

fn first_present_text(a: &JsonField, b: &JsonField) -> (r: Option<String>)
    ensures
        match field_text(first_present(*a, *b)) {
            Some(t) => r matches Some(x) && x@ == t,
            None => r is None,
        },
{
    match a {
        JsonField::Absent => field_text_exec(b),
        _ => field_text_exec(a),
    }
}

/// A mode listed by Aura-IA.
pub struct ModeEntry {
    pub agent_id: JsonField,
    pub id: JsonField,
    pub name: JsonField,
    pub label: JsonField,
}

/// The model a mode describes: its id (`agentId`, else `id`) must be text;
/// its name is `name`, else `label`, else the id.
pub open spec fn mode_model(m: ModeEntry) -> Option<(Seq<char>, Seq<char>)> {
    match field_text(first_present(m.agent_id, m.id)) {
        Some(id) => Some(
            (
                id,
                match field_text(first_present(m.name, m.label)) {
                    Some(n) => n,
                    None => id,
                },
            ),
        ),
        None => None,
    }
}

/// The models of a list of modes, skipping those without an id.
pub open spec fn mode_models(v: Seq<ModeEntry>) -> Seq<(Seq<char>, Seq<char>)> {
    crate::text::filter_map(v, |m: ModeEntry| mode_model(m))
}

/// The models Aura-IA lists: the modes of its answer (an array, or an array
/// under `modes`), or the default modes when it gives neither.
pub fn aura_models(modes: Option<&Vec<ModeEntry>>) -> (r: Vec<AiModelInfo>)
    ensures
        model_views(r@) == match modes {
            Some(v) => mode_models(v@),
            None => default_modes(),
        },
{
    match modes {
        None => default_aura_modes(),
        Some(v) => {
            let mut r: Vec<AiModelInfo> = Vec::new();
            let mut i: usize = 0;
            while i < v.len()
                invariant
                    i <= v@.len(),
                    model_views(r@) == mode_models(v@.subrange(0, i as int)),
                decreases v@.len() - i,
            {
                let m = &v[i];
                assert(v@.subrange(0, i + 1).drop_last() =~= v@.subrange(0, i as int));
                match first_present_text(&m.agent_id, &m.id) {
                    Some(id) => {
                        let name = match first_present_text(&m.name, &m.label) {
                            Some(n) => n,
                            None => id.clone(),
                        };
                        r.push(AiModelInfo { id, name });
                        assert(model_views(r@) =~= mode_models(v@.subrange(0, i + 1)));
                    },
                    None => {},
                }
                i = i + 1;
            }
            assert(v@.subrange(0, v@.len() as int) =~= v@);
            r
        },
    }
}

/// The models Ollama lists: each entry whose `name` is text, under that name.
pub open spec fn ollama_model_list(names: Seq<JsonField>) -> Seq<(Seq<char>, Seq<char>)> {
    crate::text::filter_map(
        names,
        |f: JsonField|
            match field_text(f) {
                Some(n) => Some((n, n)),
                None => None,
            },
    )
}

/// Reads Ollama's model list (the `name` of each entry under `models`;
/// nothing when `models` is not an array).
pub fn ollama_models(names: Option<&Vec<JsonField>>) -> (r: Vec<AiModelInfo>)
    ensures
        model_views(r@) == match names {
            Some(v) => ollama_model_list(v@),
            None => Seq::<(Seq<char>, Seq<char>)>::empty(),
        },
{
    let mut r: Vec<AiModelInfo> = Vec::new();
    match names {
        None => {
            assert(model_views(r@) =~= Seq::<(Seq<char>, Seq<char>)>::empty());
            r
        },
        Some(v) => {
            let mut i: usize = 0;
            while i < v.len()
                invariant
                    i <= v@.len(),
                    model_views(r@) == ollama_model_list(v@.subrange(0, i as int)),
                decreases v@.len() - i,
            {
                assert(v@.subrange(0, i + 1).drop_last() =~= v@.subrange(0, i as int));
                match field_text_exec(&v[i]) {
                    Some(n) => {
                        r.push(AiModelInfo { id: n.clone(), name: n });
                        assert(model_views(r@) =~= ollama_model_list(v@.subrange(0, i + 1)));
                    },
                    None => {},
                }
                i = i + 1;
            }
            assert(v@.subrange(0, v@.len() as int) =~= v@);
            r
        },
    }
}

/// An OpenAI-compatible answer, as far as the list reads it.
pub enum ModelListing {
    /// `data`: the `id` of each entry.
    Data { ids: Vec<JsonField> },
    /// `models` (Gemini): the `name` and `displayName` of each entry.
    Models { entries: Vec<(JsonField, JsonField)> },
    /// Neither.
    Neither,
}

/// A Gemini model: its id is its name without `models/`; its name is its
/// display name, else the id.
pub open spec fn gemini_model(e: (JsonField, JsonField)) -> Option<(Seq<char>, Seq<char>)> {
    match field_text(e.0) {
        Some(full) => {
            let id = crate::text::strip_prefix_or_self(full, "models/"@);
            Some(
                (
                    id,
                    match field_text(e.1) {
                        Some(d) => d,
                        None => id,
                    },
                ),
            )
        },
        None => None,
    }
}

/// The models an OpenAI-compatible answer lists, before filtering; the
/// provider's fallback list when it has neither shape.
pub open spec fn listed_models(l: ModelListing, provider: Seq<char>) -> Seq<(Seq<char>, Seq<char>)> {
    match l {
        ModelListing::Data { ids } => crate::text::filter_map(
            ids@,
            |f: JsonField|
                match field_text(f) {
                    Some(i) => Some((i, i)),
                    None => None,
                },
        ),
        ModelListing::Models { entries } => crate::text::filter_map(
            entries@,
            |e: (JsonField, JsonField)| gemini_model(e),
        ),
        ModelListing::Neither => fallback_models(provider),
    }
}

/// Reads the models of an OpenAI-compatible answer.
pub fn listed_model_infos(l: &ModelListing, provider: &str) -> (r: Vec<AiModelInfo>)
    ensures
        model_views(r@) == listed_models(*l, provider@),
{
    match l {
        ModelListing::Neither => get_fallback_models(provider),
        ModelListing::Data { ids } => {
            let mut r: Vec<AiModelInfo> = Vec::new();
            let mut i: usize = 0;
            while i < ids.len()
                invariant
                    i <= ids@.len(),
                    model_views(r@) == crate::text::filter_map(
                        ids@.subrange(0, i as int),
                        |f: JsonField|
                            match field_text(f) {
                                Some(i) => Some((i, i)),
                                None => None,
                            },
                    ),
                decreases ids@.len() - i,
            {
                assert(ids@.subrange(0, i + 1).drop_last() =~= ids@.subrange(0, i as int));
                match field_text_exec(&ids[i]) {
                    Some(x) => {
                        r.push(AiModelInfo { id: x.clone(), name: x });
                        assert(model_views(r@) =~= crate::text::filter_map(
                            ids@.subrange(0, i + 1),
                            |f: JsonField|
                                match field_text(f) {
                                    Some(i) => Some((i, i)),
                                    None => None,
                                },
                        ));
                    },
                    None => {},
                }
                i = i + 1;
            }
            assert(ids@.subrange(0, ids@.len() as int) =~= ids@);
            r
        },
        ModelListing::Models { entries } => {
            let mut r: Vec<AiModelInfo> = Vec::new();
            let mut i: usize = 0;
            while i < entries.len()
                invariant
                    i <= entries@.len(),
                    model_views(r@) == crate::text::filter_map(
                        entries@.subrange(0, i as int),
                        |e: (JsonField, JsonField)| gemini_model(e),
                    ),
                decreases entries@.len() - i,
            {
                assert(entries@.subrange(0, i + 1).drop_last() =~= entries@.subrange(0, i as int));
                match field_text_exec(&entries[i].0) {
                    Some(full) => {
                        let fv = chars_of(full.as_str());
                        let idv = crate::text::strip_prefix_exec(fv.as_slice(), "models/");
                        let id = string_of(idv.as_slice());
                        let name = match field_text_exec(&entries[i].1) {
                            Some(d) => d,
                            None => id.clone(),
                        };
                        r.push(AiModelInfo { id, name });
                        assert(model_views(r@) =~= crate::text::filter_map(
                            entries@.subrange(0, i + 1),
                            |e: (JsonField, JsonField)| gemini_model(e),
                        ));
                    },
                    None => {},
                }
                i = i + 1;
            }
            assert(entries@.subrange(0, entries@.len() as int) =~= entries@);
            r
        },
    }
}

// ─────────────────────────── filtering, sorting ───────────────────────────

/// A model made for chat: its lower-cased id names no embedding, speech,
/// transcription, image, video or moderation model.
pub open spec fn is_chat_model(id: Seq<char>) -> bool {
    let l = lowercase(id);
    !contains_seq(l, "embed"@) && !contains_seq(l, "tts"@) && !contains_seq(l, "whisper"@)
        && !contains_seq(l, "dall"@) && !contains_seq(l, "image"@) && !contains_seq(l, "video"@)
        && !contains_seq(l, "moderation"@)
}

/// The chat models of a list, in order.
pub open spec fn chat_models(v: Seq<(Seq<char>, Seq<char>)>) -> Seq<(Seq<char>, Seq<char>)> {
    crate::text::filter_map(
        v,
        |m: (Seq<char>, Seq<char>)|
            if is_chat_model(m.0) {
                Some(m)
            } else {
                None
            },
    )
}

/// `x` placed in a list after every entry whose name does not come after its own.
pub open spec fn insert_by_name(s: Seq<(Seq<char>, Seq<char>)>, x: (Seq<char>, Seq<char>)) -> Seq<(Seq<char>, Seq<char>)>
    decreases s.len(),
{
    if s.len() == 0 {
        seq![x]
    } else if !text_le(s[0].1, x.1) {
        seq![x] + s
    } else {
        seq![s[0]] + insert_by_name(s.drop_first(), x)
    }
}

/// A list sorted by name, entries with equal names keeping their order.
pub open spec fn sort_by_name(s: Seq<(Seq<char>, Seq<char>)>) -> Seq<(Seq<char>, Seq<char>)>
    decreases s.len(),
{
    if s.len() == 0 {
        s
    } else {
        insert_by_name(sort_by_name(s.drop_last()), s.last())
    }
}

proof fn lemma_insert_at_first_greater(s: Seq<(Seq<char>, Seq<char>)>, x: (Seq<char>, Seq<char>), k: int)
    requires
        0 <= k <= s.len(),
        forall|j: int| 0 <= j < k ==> text_le(#[trigger] s[j].1, x.1),
        k < s.len() ==> !text_le(s[k].1, x.1),
    ensures
        insert_by_name(s, x) == s.insert(k, x),
    decreases s.len(),
{
    if s.len() == 0 {
        assert(s.insert(k, x) =~= seq![x]);
    } else if k == 0 {
        assert(s.insert(0, x) =~= seq![x] + s);
    } else {
        let t = s.drop_first();
        assert forall|j: int| 0 <= j < k - 1 implies text_le(#[trigger] t[j].1, x.1) by {
            assert(t[j] == s[j + 1]);
        }
        lemma_insert_at_first_greater(t, x, k - 1);
        assert(s.insert(k, x) =~= seq![s[0]] + t.insert(k - 1, x));
    }
}

/// The models a provider's list offers: its chat models sorted by name, or
/// its fallback list when none is left.
pub open spec fn offered_models(listed: Seq<(Seq<char>, Seq<char>)>, provider: Seq<char>) -> Seq<(Seq<char>, Seq<char>)> {
    let kept = sort_by_name(chat_models(listed));
    if kept.len() == 0 {
        fallback_models(provider)
    } else {
        kept
    }
}

fn is_chat_model_exec(id: &str) -> (b: bool)
    ensures
        b == is_chat_model(id@),
{
    let l = to_lowercase(id);
    let lv = chars_of(l.as_str());
    let w1 = chars_of("embed");
    let w2 = chars_of("tts");
    let w3 = chars_of("whisper");
    let w4 = chars_of("dall");
    let w5 = chars_of("image");
    let w6 = chars_of("video");
    let w7 = chars_of("moderation");
    !contains(lv.as_slice(), w1.as_slice()) && !contains(lv.as_slice(), w2.as_slice()) && !contains(
        lv.as_slice(),
        w3.as_slice(),
    ) && !contains(lv.as_slice(), w4.as_slice()) && !contains(lv.as_slice(), w5.as_slice())
        && !contains(lv.as_slice(), w6.as_slice()) && !contains(lv.as_slice(), w7.as_slice())
}

/// Keeps the chat models, sorts them by name, and falls back to the
/// provider's list when none is left.
pub fn finish_model_list(models: Vec<AiModelInfo>, provider: &str) -> (r: Vec<AiModelInfo>)
    ensures
        model_views(r@) == offered_models(model_views(models@), provider@),
        !has_chat_model(model_views(models@)) ==> model_views(r@) == fallback_models(provider@),
        has_chat_model(model_views(models@)) ==> sorted_chat_subset(model_views(models@), model_views(r@)),
{
    proof {
        lemma_offered_models(model_views(models@), provider@);
    }
    let ghost mv = model_views(models@);
    let mut sorted: Vec<AiModelInfo> = Vec::new();
    let mut i: usize = 0;
    while i < models.len()
        invariant
            i <= models@.len(),
            mv == model_views(models@),
            model_views(sorted@) == sort_by_name(chat_models(mv.subrange(0, i as int))),
        decreases models@.len() - i,
    {
        assert(mv.subrange(0, i + 1).drop_last() =~= mv.subrange(0, i as int));
        if is_chat_model_exec(models[i].id.as_str()) {
            let x = AiModelInfo { id: models[i].id.clone(), name: models[i].name.clone() };
            let xn = chars_of(x.name.as_str());
            let mut pos: usize = 0;
            while pos < sorted.len()
                invariant
                    pos <= sorted@.len(),
                    xn@ == x.name@,
                    forall|j: int| 0 <= j < pos ==> text_le(#[trigger] model_views(sorted@)[j].1, x.name@),
                ensures
                    pos <= sorted@.len(),
                    forall|j: int| 0 <= j < pos ==> text_le(#[trigger] model_views(sorted@)[j].1, x.name@),
                    pos < sorted@.len() ==> !text_le(model_views(sorted@)[pos as int].1, x.name@),
                decreases sorted@.len() - pos,
            {
                let cn = chars_of(sorted[pos].name.as_str());
                if !text_le_exec(cn.as_slice(), xn.as_slice()) {
                    break;
                }
                pos = pos + 1;
            }
            let ghost before = model_views(sorted@);
            let ghost xv = (x.id@, x.name@);
            proof {
                lemma_insert_at_first_greater(before, xv, pos as int);
            }
            sorted.insert(pos, x);
            assert(model_views(sorted@) =~= before.insert(pos as int, xv));
            assert(xv == mv[i as int]);
            let ghost c = chat_models(mv.subrange(0, i + 1));
            assert(c =~= chat_models(mv.subrange(0, i as int)).push(mv[i as int]));
            assert(c.drop_last() =~= chat_models(mv.subrange(0, i as int)));
            assert(sort_by_name(c) == insert_by_name(sort_by_name(c.drop_last()), c.last()));
        } else {
            assert(chat_models(mv.subrange(0, i + 1)) =~= chat_models(mv.subrange(0, i as int)));
        }
        i = i + 1;
    }
    assert(mv.subrange(0, mv.len() as int) =~= mv);
    if sorted.len() == 0 {
        get_fallback_models(provider)
    } else {
        sorted
    }
}

/// Sorting by name yields a list in name order holding the same entries.
pub proof fn lemma_sort_by_name_sorted(s: Seq<(Seq<char>, Seq<char>)>)
    ensures
        sort_by_name(s).len() == s.len(),
        sort_by_name(s).to_multiset() == s.to_multiset(),
        forall|i: int, j: int|
            0 <= i < j < sort_by_name(s).len() ==> text_le(
                #[trigger] sort_by_name(s)[i].1,
                #[trigger] sort_by_name(s)[j].1,
            ),
    decreases s.len(),
{
    broadcast use vstd::seq_lib::group_to_multiset_ensures;
    if s.len() > 0 {
        lemma_sort_by_name_sorted(s.drop_last());
        let t = sort_by_name(s.drop_last());
        let x = s.last();
        lemma_insert_sorted(t, x);
        assert(s.drop_last().push(x) =~= s);
    }
}

proof fn lemma_chat_models_kept(v: Seq<(Seq<char>, Seq<char>)>)
    ensures
        chat_models(v).len() == 0 <==> forall|k: int| 0 <= k < v.len() ==> !is_chat_model(#[trigger] v[k].0),
        forall|k: int| 0 <= k < chat_models(v).len() ==> is_chat_model(#[trigger] chat_models(v)[k].0)
            && v.contains(chat_models(v)[k]),
    decreases v.len(),
{
    if v.len() > 0 {
        let w = v.drop_last();
        lemma_chat_models_kept(w);
        assert forall|k: int| 0 <= k < w.len() implies v[k] == #[trigger] w[k] by {}
        assert forall|k: int| 0 <= k < chat_models(w).len() implies v.contains(#[trigger] chat_models(w)[k]) by {
            let x = chat_models(w)[k];
            assert(is_chat_model(chat_models(w)[k].0));
            assert(w.contains(x));
            let j = choose|j: int| 0 <= j < w.len() && w[j] == x;
            assert(v[j] == x);
        }
        if is_chat_model(v.last().0) {
            assert(v[v.len() - 1] == v.last());
        }
        if chat_models(v).len() == 0 {
            assert(!is_chat_model(v.last().0));
            assert forall|k: int| 0 <= k < v.len() implies !is_chat_model(#[trigger] v[k].0) by {
                if k < w.len() {
                    assert(v[k] == w[k]);
                }
            }
        }
    }
}

/// An id that names no embedding, speech, image, video or moderation model:
/// its lowercase holds none of these fragments.
pub open spec fn names_no_special_model(id: Seq<char>) -> bool {
    let l = lowercase(id);
    &&& !contains_seq(l, "embed"@)
    &&& !contains_seq(l, "tts"@)
    &&& !contains_seq(l, "whisper"@)
    &&& !contains_seq(l, "dall"@)
    &&& !contains_seq(l, "image"@)
    &&& !contains_seq(l, "video"@)
    &&& !contains_seq(l, "moderation"@)
}

/// The models offered once a provider listed its models are either its
/// fallback list, or models it listed whose lowercase ids hold none of
/// `embed`, `tts`, `whisper`, `dall`, `image`, `video` and `moderation`,
/// sorted by name; the fallback list comes only when every listed id holds
/// one of them, and a listed model whose id holds none is always offered.
pub proof fn lemma_offered_models_filter(listed: Seq<(Seq<char>, Seq<char>)>, provider: Seq<char>)
    ensures
        (forall|k: int| 0 <= k < listed.len() ==> !names_no_special_model(#[trigger] listed[k].0))
            ==> offered_models(listed, provider) == fallback_models(provider),
        (exists|k: int| 0 <= k < listed.len() && names_no_special_model(#[trigger] listed[k].0)) ==> {
            let o = offered_models(listed, provider);
            &&& o.len() > 0
            &&& forall|i: int| 0 <= i < o.len() ==> names_no_special_model(#[trigger] o[i].0) && listed.contains(o[i])
            &&& forall|i: int, j: int| 0 <= i < j < o.len() ==> text_le(#[trigger] o[i].1, #[trigger] o[j].1)
            &&& forall|k: int| 0 <= k < listed.len() && names_no_special_model(#[trigger] listed[k].0)
                ==> o.contains(listed[k])
        },
{
    broadcast use vstd::seq_lib::group_to_multiset_ensures;
    lemma_offered_models(listed, provider);
    assert forall|k: int| 0 <= k < listed.len() implies names_no_special_model(#[trigger] listed[k].0)
        == is_chat_model(listed[k].0) by {}
    if exists|k: int| 0 <= k < listed.len() && names_no_special_model(#[trigger] listed[k].0) {
        let k0 = choose|k: int| 0 <= k < listed.len() && names_no_special_model(#[trigger] listed[k].0);
        assert(is_chat_model(listed[k0].0));
        assert(has_chat_model(listed));
        let o = offered_models(listed, provider);
        let c = chat_models(listed);
        lemma_chat_models_complete(listed);
        lemma_sort_by_name_sorted(c);
        assert forall|i: int| 0 <= i < o.len() implies names_no_special_model(#[trigger] o[i].0) && listed.contains(o[i]) by {
            assert(is_chat_model(o[i].0) && listed.contains(o[i]));
        }
        assert forall|k: int| 0 <= k < listed.len() && names_no_special_model(#[trigger] listed[k].0)
            implies o.contains(listed[k]) by {
            assert(is_chat_model(listed[k].0));
            assert(c.contains(listed[k]));
            assert(c.to_multiset().count(listed[k]) > 0);
            assert(o.to_multiset().count(listed[k]) > 0);
        }
    } else {
        assert forall|k: int| 0 <= k < listed.len() implies !is_chat_model(#[trigger] listed[k].0) by {
            assert(!names_no_special_model(listed[k].0));
        }
        assert(!has_chat_model(listed));
    }
}

proof fn lemma_chat_models_complete(v: Seq<(Seq<char>, Seq<char>)>)
    ensures
        forall|k: int| 0 <= k < v.len() && is_chat_model(#[trigger] v[k].0) ==> chat_models(v).contains(v[k]),
    decreases v.len(),
{
    if v.len() > 0 {
        let w = v.drop_last();
        lemma_chat_models_complete(w);
        assert forall|k: int| 0 <= k < v.len() && is_chat_model(#[trigger] v[k].0) implies chat_models(v).contains(v[k]) by {
            if k < w.len() {
                assert(v[k] == w[k]);
                assert(is_chat_model(w[k].0));
                assert(chat_models(w).contains(w[k]));
                let j = choose|j: int| 0 <= j < chat_models(w).len() && chat_models(w)[j] == w[k];
                if is_chat_model(v.last().0) {
                    assert(chat_models(v) == chat_models(w).push(v.last()));
                    assert(chat_models(v)[j] == w[k]);
                } else {
                    assert(chat_models(v) == chat_models(w));
                }
            } else {
                assert(v[k] == v.last());
                assert(chat_models(v) == chat_models(w).push(v.last()));
                assert(chat_models(v)[chat_models(w).len() as int] == v.last());
            }
        }
    }
}

/// A list made of chat models of `listed`, at least one, whose names come in
/// order.
pub open spec fn sorted_chat_subset(listed: Seq<(Seq<char>, Seq<char>)>, o: Seq<(Seq<char>, Seq<char>)>) -> bool {
    &&& o.len() > 0
    &&& forall|i: int| 0 <= i < o.len() ==> is_chat_model(#[trigger] o[i].0) && listed.contains(o[i])
    &&& forall|i: int, j: int| 0 <= i < j < o.len() ==> text_le(#[trigger] o[i].1, #[trigger] o[j].1)
}

/// Whether a list holds a chat model.
pub open spec fn has_chat_model(listed: Seq<(Seq<char>, Seq<char>)>) -> bool {
    exists|k: int| 0 <= k < listed.len() && is_chat_model(#[trigger] listed[k].0)
}

/// The models offered for a provider are its chat models sorted by name, or,
/// when the list it gave holds none, its fallback list: every offered model
/// was listed and is a chat model, and the names come in order.
pub proof fn lemma_offered_models(listed: Seq<(Seq<char>, Seq<char>)>, provider: Seq<char>)
    ensures
        !has_chat_model(listed) ==> offered_models(listed, provider) == fallback_models(provider),
        has_chat_model(listed) ==> sorted_chat_subset(listed, offered_models(listed, provider)),
{
    broadcast use vstd::seq_lib::group_to_multiset_ensures;
    let c = chat_models(listed);
    lemma_chat_models_kept(listed);
    lemma_sort_by_name_sorted(c);
    let o = sort_by_name(c);
    if has_chat_model(listed) {
        assert(c.len() > 0);
        assert forall|i: int| 0 <= i < o.len() implies is_chat_model(#[trigger] o[i].0) && listed.contains(o[i]) by {
            assert(o.contains(o[i]));
            assert(o.to_multiset().count(o[i]) > 0);
            assert(c.to_multiset().count(o[i]) > 0);
            assert(c.contains(o[i]));
            let j = choose|j: int| 0 <= j < c.len() && c[j] == o[i];
            assert(is_chat_model(c[j].0) && listed.contains(c[j]));
        }
    }
}

proof fn lemma_insert_sorted(t: Seq<(Seq<char>, Seq<char>)>, x: (Seq<char>, Seq<char>))
    requires
        forall|i: int, j: int| 0 <= i < j < t.len() ==> text_le(#[trigger] t[i].1, #[trigger] t[j].1),
    ensures
        insert_by_name(t, x).len() == t.len() + 1,
        insert_by_name(t, x).to_multiset() == t.to_multiset().insert(x),
        forall|i: int, j: int|
            0 <= i < j < insert_by_name(t, x).len() ==> text_le(
                #[trigger] insert_by_name(t, x)[i].1,
                #[trigger] insert_by_name(t, x)[j].1,
            ),
    decreases t.len(),
{
    broadcast use vstd::seq_lib::group_to_multiset_ensures;
    broadcast use vstd::multiset::group_multiset_axioms;
    let r = insert_by_name(t, x);
    if t.len() == 0 {
        assert(r =~= seq![x]);
        assert(seq![x] =~= Seq::<(Seq<char>, Seq<char>)>::empty().push(x));
    } else if !text_le(t[0].1, x.1) {
        crate::logging::lemma_text_le_total(t[0].1, x.1);
        assert(r =~= t.insert(0, x));
        assert forall|i: int, j: int| 0 <= i < j < r.len() implies text_le(#[trigger] r[i].1, #[trigger] r[j].1) by {
            if i == 0 {
                if j > 1 {
                    assert(text_le(t[0].1, t[j - 1].1));
                    crate::logging::lemma_text_le_trans(x.1, t[0].1, t[j - 1].1);
                }
            } else {
                assert(text_le(t[i - 1].1, t[j - 1].1));
            }
        }
    } else {
        let u = t.drop_first();
        assert forall|i: int, j: int| 0 <= i < j < u.len() implies text_le(#[trigger] u[i].1, #[trigger] u[j].1) by {
            assert(text_le(t[i + 1].1, t[j + 1].1));
        }
        lemma_insert_sorted(u, x);
        let w = insert_by_name(u, x);
        assert(r =~= seq![t[0]] + w);
        assert(r =~= w.insert(0, t[0]));
        assert(t =~= u.insert(0, t[0]));
        assert forall|i: int, j: int| 0 <= i < j < r.len() implies text_le(#[trigger] r[i].1, #[trigger] r[j].1) by {
            if i == 0 {
                assert(r[j] == w[j - 1]);
                let wm = w.to_multiset();
                assert(wm.contains(w[j - 1]));
                assert(w.contains(w[j - 1]));
                if w[j - 1] == x {
                } else {
                    assert(u.to_multiset().contains(w[j - 1]));
                    assert(u.contains(w[j - 1]));
                    let k = choose|k: int| 0 <= k < u.len() && u[k] == w[j - 1];
                    assert(text_le(t[0].1, t[k + 1].1));
                }
            } else {
                assert(r[i] == w[i - 1]);
                assert(r[j] == w[j - 1]);
            }
        }
    }
}

// ────────────────────────────── the prompt ────────────────────────────────

/// Whether the assistant may be asked: it is configured (`ai_is_available`).
pub open spec fn analysis_allowed(c: crate::config::ConfigView) -> bool {
    ai_available(c)
}

/// The instruction that sets the answer's language.
pub open spec fn language_instruction(lang: Seq<char>) -> Seq<char> {
    if lang == "fr"@ {
        "IMPORTANT: Always answer in French."@
    } else {
        "IMPORTANT: Always answer in English."@
    }
}

/// The role the assistant is given for a kind of question.
pub open spec fn base_prompt(context_type: Seq<char>) -> Seq<char> {
    if context_type == "update_error"@ {
        "You are a system update assistant. The user has an update error. Explain the problem simply and suggest solutions. Be concise (3-5 lines max). No personal data is shared with you."@
    } else if context_type == "cleanup_advice"@ {
        "You are a system cleanup advisor. Explain in one simple sentence why this file/folder can be safely deleted. Be reassuring and concise."@
    } else {
        "You are Aura-IA, a helpful PC health assistant. Be concise and clear."@
    }
}

/// Builds the system prompt.
pub fn system_prompt(context_type: &str, lang: &str) -> (r: String)
    ensures
        r@ == base_prompt(context_type@) + seq![' '] + language_instruction(lang@),
{
    let mut r = if text_eq(context_type, "update_error") {
        owned(
            "You are a system update assistant. The user has an update error. Explain the problem simply and suggest solutions. Be concise (3-5 lines max). No personal data is shared with you.",
        )
    } else if text_eq(context_type, "cleanup_advice") {
        owned(
            "You are a system cleanup advisor. Explain in one simple sentence why this file/folder can be safely deleted. Be reassuring and concise.",
        )
    } else {
        owned("You are Aura-IA, a helpful PC health assistant. Be concise and clear.")
    };
    crate::text::push_char(&mut r, ' ');
    if text_eq(lang, "fr") {
        push_str(&mut r, "IMPORTANT: Always answer in French.");
    } else {
        push_str(&mut r, "IMPORTANT: Always answer in English.");
    }
    r
}

/// The address a question is sent to.
pub open spec fn chat_endpoint_of(e: Seq<char>) -> Seq<char> {
    if contains_seq(e, "auraneo.fr"@) {
        let b = trim_end_char(e, '/');
        if has_suffix(b, "/api/agents/chat"@) {
            b
        } else {
            b + "/api/agents/chat"@
        }
    } else if e.len() == 0 {
        "https://ia.auraneo.fr/api/agents/chat"@
    } else if has_suffix(e, "/chat/completions"@) || has_suffix(e, "/chat/completions/"@) {
        e
    } else if contains_seq(e, "/v1beta/"@) || contains_seq(e, "/v2beta/"@) {
        trim_end_char(e, '/') + "/chat/completions"@
    } else {
        trim_end_char(e, '/') + "/v1/chat/completions"@
    }
}

/// Builds the address a question is sent to.
pub fn chat_endpoint(endpoint: &str) -> (r: String)
    ensures
        r@ == chat_endpoint_of(endpoint@),
{
    let e = chars_of(endpoint);
    let aura = chars_of("auraneo.fr");
    if contains(e.as_slice(), aura.as_slice()) {
        let b = trim_end_char_exec(e.as_slice(), '/');
        let suffix = chars_of("/api/agents/chat");
        let mut r = string_of(b.as_slice());
        if !ends_with(b.as_slice(), suffix.as_slice()) {
            push_str(&mut r, "/api/agents/chat");
        }
        return r;
    }
    if e.len() == 0 {
        return owned("https://ia.auraneo.fr/api/agents/chat");
    }
    let c1 = chars_of("/chat/completions");
    let c2 = chars_of("/chat/completions/");
    if ends_with(e.as_slice(), c1.as_slice()) || ends_with(e.as_slice(), c2.as_slice()) {
        return owned(endpoint);
    }
    let b1 = chars_of("/v1beta/");
    let b2 = chars_of("/v2beta/");
    let base = trim_end_char_exec(e.as_slice(), '/');
    let mut r = string_of(base.as_slice());
    if contains(e.as_slice(), b1.as_slice()) || contains(e.as_slice(), b2.as_slice()) {
        push_str(&mut r, "/chat/completions");
    } else {
        push_str(&mut r, "/v1/chat/completions");
    }
    r
}

/// The request timeout, in seconds: two minutes for a local server, ninety
/// seconds for Aura-IA, one minute otherwise.
pub fn chat_timeout_secs(endpoint: &str, aura: bool) -> (t: u64)
    ensures
        t == if is_local_endpoint(endpoint@) {
            120u64
        } else if aura {
            90u64
        } else {
            60u64
        },
{
    if is_local(endpoint) {
        120
    } else if aura {
        90
    } else {
        60
    }
}

/// The hint added to an API error without details, by status code.
pub open spec fn status_hint(code: u16) -> Seq<char> {
    if code == 400 {
        " — Vérifiez le nom du modèle et le format de la requête"@
    } else if code == 401 {
        " — Clé API invalide ou expirée"@
    } else if code == 403 {
        " — Accès refusé. Vérifiez votre clé API et votre abonnement"@
    } else if code == 404 {
        " — Modèle ou endpoint introuvable"@
    } else if code == 429 {
        " — Quota dépassé. Vérifiez votre facturation"@
    } else if 500 <= code <= 599 {
        " — Erreur serveur du fournisseur IA"@
    } else {
        Seq::<char>::empty()
    }
}

/// The error of a refused question: the status and the provider's message
/// when it gave one, else the status and a hint. `status` is the status as
/// displayed (code and reason).
pub fn api_error_message(status: &str, code: u16, detail: Option<&str>) -> (r: String)
    ensures
        match detail {
            Some(d) => if d@.len() > 0 {
                r@ == "API error "@ + status@ + ": "@ + d@
            } else {
                r@ == "API error "@ + status@ + status_hint(code)
            },
            None => r@ == "API error "@ + status@ + status_hint(code),
        },
{
    let mut r = owned("API error ");
    push_str(&mut r, status);
    match detail {
        Some(d) => {
            if !d.is_empty() {
                push_str(&mut r, ": ");
                push_str(&mut r, d);
                return r;
            }
        },
        None => {},
    }
    let hint = if code == 400 {
        " — Vérifiez le nom du modèle et le format de la requête"
    } else if code == 401 {
        " — Clé API invalide ou expirée"
    } else if code == 403 {
        " — Accès refusé. Vérifiez votre clé API et votre abonnement"
    } else if code == 404 {
        " — Modèle ou endpoint introuvable"
    } else if code == 429 {
        " — Quota dépassé. Vérifiez votre facturation"
    } else if 500 <= code && code <= 599 {
        " — Erreur serveur du fournisseur IA"
    } else {
        ""
    };
    proof {
        reveal_strlit("");
    }
    push_str(&mut r, hint);
    r
}

/// What a failed attempt to send a question leads to.
pub enum SendFailure {
    /// The connection failed or timed out: the question is sent once more.
    Retry,
    /// Another network error: the question fails with this message.
    Fail { message: String },
}

/// Decides what a failed first attempt leads to.
pub fn on_send_failure(connect_or_timeout: bool, reason: &str) -> (r: SendFailure)
    ensures
        connect_or_timeout ==> r is Retry,
        !connect_or_timeout ==> (r matches SendFailure::Fail { message } && message@
            == "Erreur réseau: "@ + reason@),
{
    if connect_or_timeout {
        SendFailure::Retry
    } else {
        let mut m = owned("Erreur réseau: ");
        push_str(&mut m, reason);
        SendFailure::Fail { message: m }
    }
}

/// The error when the second attempt fails too.
pub fn retry_failure_message(reason: &str) -> (r: String)
    ensures
        r@ == "Connexion impossible après 2 tentatives: "@ + reason@,
{
    let mut m = owned("Connexion impossible après 2 tentatives: ");
    push_str(&mut m, reason);
    m
}

/// The answer read from the provider's reply, or the default text when it
/// holds none.
pub fn answer_text(aura: bool, content: Option<String>) -> (r: String)
    ensures
        match content {
            Some(c) => r@ == c@,
            None => r@ == if aura { "No response from Aura-IA"@ } else { "No response from AI"@ },
        },
{
    match content {
        Some(c) => c,
        None => if aura {
            owned("No response from Aura-IA")
        } else {
            owned("No response from AI")
        },
    }
}

/// Checks that the assistant may be asked, before any question is sent.
pub fn check_analysis_allowed(cfg: &Config) -> (r: Result<(), String>)
    ensures
        analysis_allowed(cfg@) ==> r is Ok,
        !analysis_allowed(cfg@) ==> (r matches Err(e) && e@ == "AI not configured"@),
{
    if ai_is_available(cfg) {
        Ok(())
    } else {
        Err(owned("AI not configured"))
    }
}

/// The models offered once a provider has answered the list request: its
/// fallback list when the request could not be sent or its status was not a
/// success (`None`), else the chat models of the listing its body holds,
/// sorted by name, or the fallback list when there are none.
pub fn models_after_reply(listing: Option<&ModelListing>, provider: &str) -> (r: Vec<AiModelInfo>)
    ensures
        match listing {
            None => model_views(r@) == fallback_models(provider@),
            Some(l) => model_views(r@) == offered_models(listed_models(*l, provider@), provider@)
                && (!has_chat_model(listed_models(*l, provider@)) ==> model_views(r@) == fallback_models(provider@))
                && (has_chat_model(listed_models(*l, provider@)) ==> sorted_chat_subset(
                    listed_models(*l, provider@),
                    model_views(r@),
                )),
        },
{
    match listing {
        None => get_fallback_models(provider),
        Some(l) => finish_model_list(listed_model_infos(l, provider), provider),
    }
}

/// Whether the assistant is the Auraneo agent service (its endpoint names
/// `auraneo.fr`).
pub open spec fn is_aura_endpoint_of(endpoint: Seq<char>) -> bool {
    contains_seq(endpoint, "auraneo.fr"@)
}

/// Tests whether the assistant is the Auraneo agent service.
pub fn is_aura_endpoint(endpoint: &str) -> (b: bool)
    ensures
        b == is_aura_endpoint_of(endpoint@),
{
    let e = chars_of(endpoint);
    let a = chars_of("auraneo.fr");
    contains(e.as_slice(), a.as_slice())
}

/// The body of a question to the assistant.
pub enum ChatBody {
    /// To an Auraneo agent: the agent, the user's message and the language,
    /// with an empty conversation history.
    Agent { agent_id: String, user_message: String, language: String },
    /// A chat completion: the model, the system prompt, the user's message,
    /// the temperature in tenths, and the cap on the answer's tokens.
    Chat { model: String, system: String, user: String, temperature_tenths: u8, max_tokens: u32 },
}

/// Builds the body of a question to the assistant: for the Auraneo service the
/// agent chosen as model and the user's context; otherwise the model, the
/// system prompt of the question's kind and language, the context as the
/// user's message, a temperature of 0.4 and at most 300 tokens.
pub fn chat_body(cfg: &Config, request: &AiRequest) -> (b: ChatBody)
    ensures
        is_aura_endpoint_of(cfg.ai_endpoint@) ==> (b matches ChatBody::Agent { agent_id, user_message, language }
            && agent_id@ == cfg.ai_model@ && user_message@ == request.context@ && language@ == cfg.language@),
        !is_aura_endpoint_of(cfg.ai_endpoint@) ==> (b matches ChatBody::Chat { model, system, user, temperature_tenths, max_tokens }
            && model@ == cfg.ai_model@
            && system@ == base_prompt(request.context_type@) + seq![' '] + language_instruction(cfg.language@)
            && user@ == request.context@ && temperature_tenths == 4 && max_tokens == 300),
{
    if is_aura_endpoint(cfg.ai_endpoint.as_str()) {
        ChatBody::Agent {
            agent_id: owned(cfg.ai_model.as_str()),
            user_message: owned(request.context.as_str()),
            language: owned(cfg.language.as_str()),
        }
    } else {
        ChatBody::Chat {
            model: owned(cfg.ai_model.as_str()),
            system: system_prompt(request.context_type.as_str(), cfg.language.as_str()),
            user: owned(request.context.as_str()),
            temperature_tenths: 4,
            max_tokens: 300,
        }
    }
}

} // verus!
