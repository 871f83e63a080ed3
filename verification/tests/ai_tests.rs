use aura_update::ai::{
    accepts_invalid_certs, answer_text, api_error_message, api_key_headers, aura_models,
    aura_modes_url, chat_endpoint, chat_timeout_secs, check_analysis_allowed, default_aura_modes,
    finish_model_list, get_fallback_models, listed_model_infos, models_url, ollama_models,
    ollama_tags_url, on_send_failure, retry_failure_message, system_prompt, trim_end_char_exec,
    AiModelInfo, JsonField, ModeEntry, ModelListing, SendFailure, chat_body, is_aura_endpoint,
    models_after_reply, AiRequest, ChatBody,
};
use aura_update::config::{configure_ai, Config};

fn ids(v: &[AiModelInfo]) -> Vec<String> {
    v.iter().map(|m| m.id.clone()).collect()
}

fn text(s: &str) -> JsonField {
    JsonField::Text(s.to_string())
}

#[test]
fn fallback_lists() {
    let g = get_fallback_models("gemini");
    assert_eq!(ids(&g), vec!["gemini-2.5-flash", "gemini-2.5-pro", "gemini-2.0-flash-lite"]);
    assert_eq!(g[0].name, "Gemini 2.5 Flash");
    assert_eq!(get_fallback_models("openai").len(), 5);
    assert_eq!(get_fallback_models("grok")[0].id, "grok-4-1-fast-non-reasoning");
    let d = default_aura_modes();
    assert_eq!(ids(&d), vec!["rapide", "reflexions", "intelligent"]);
}

#[test]
fn addresses() {
    let v: Vec<char> = "http://x//".chars().collect();
    assert_eq!(trim_end_char_exec(&v, '/').iter().collect::<String>(), "http://x");
    assert_eq!(ollama_tags_url("http://localhost:11434/"), "http://localhost:11434/api/tags");
    assert_eq!(
        aura_modes_url("https://ia.auraneo.fr/api/agents/chat/"),
        "https://ia.auraneo.fr/api/agents/api/agents/modes"
    );
    assert_eq!(aura_modes_url("https://ia.auraneo.fr"), "https://ia.auraneo.fr/api/agents/modes");
    assert_eq!(models_url("https://api.openai.com/v1"), "https://api.openai.com/v1/models");
    assert_eq!(models_url("https://api.x.ai"), "https://api.x.ai/v1/models");
    assert_eq!(models_url("https://h/v1/chat/completions"), "https://h/v1/models");
    assert_eq!(
        models_url("https://generativelanguage.googleapis.com/v1beta/openai/"),
        "https://generativelanguage.googleapis.com/v1beta/models"
    );
    assert!(accepts_invalid_certs("openai", "http://127.0.0.1:8080"));
    assert!(accepts_invalid_certs("auraneo", "https://x"));
    assert!(!accepts_invalid_certs("openai", "https://api.openai.com"));
}

#[test]
fn key_headers() {
    assert!(api_key_headers("", false).is_empty());
    assert_eq!(
        api_key_headers("id:secret", true),
        vec![("X-Api-Key".to_string(), "id".to_string()), ("X-Api-Secret".to_string(), "secret".to_string())]
    );
    assert_eq!(api_key_headers("id:secret", false), vec![("Authorization".to_string(), "Bearer id:secret".to_string())]);
}

#[test]
fn model_lists_from_answers() {
    let modes = vec![
        ModeEntry { agent_id: text("fast"), id: JsonField::Absent, name: JsonField::Absent, label: text("Fast") },
        ModeEntry { agent_id: JsonField::Absent, id: JsonField::Other, name: JsonField::Absent, label: JsonField::Absent },
        ModeEntry { agent_id: JsonField::Absent, id: text("deep"), name: JsonField::Absent, label: JsonField::Absent },
    ];
    let m = aura_models(Some(&modes));
    assert_eq!(ids(&m), vec!["fast", "deep"]);
    assert_eq!(m[0].name, "Fast");
    assert_eq!(m[1].name, "deep");
    assert_eq!(aura_models(None).len(), 3);
    let o = ollama_models(Some(&vec![text("llama3"), JsonField::Other]));
    assert_eq!(ids(&o), vec!["llama3"]);
    assert!(ollama_models(None).is_empty());
    let data = ModelListing::Data { ids: vec![text("gpt-4o"), text("whisper-1"), JsonField::Other] };
    assert_eq!(ids(&listed_model_infos(&data, "openai")), vec!["gpt-4o", "whisper-1"]);
    let gem = ModelListing::Models { entries: vec![(text("models/gemini-pro"), text("Gemini Pro"))] };
    let g = listed_model_infos(&gem, "gemini");
    assert_eq!(g[0].id, "gemini-pro");
    assert_eq!(g[0].name, "Gemini Pro");
    assert_eq!(listed_model_infos(&ModelListing::Neither, "grok").len(), 3);
}

#[test]
fn offered_models_are_chat_models_sorted_by_name() {
    let listed = vec![
        AiModelInfo { id: "text-embedding-3".into(), name: "Embed".into() },
        AiModelInfo { id: "gpt-4o".into(), name: "b".into() },
        AiModelInfo { id: "DALL-E-3".into(), name: "a".into() },
        AiModelInfo { id: "gpt-4o-mini".into(), name: "a".into() },
    ];
    let r = finish_model_list(listed, "openai");
    assert_eq!(ids(&r), vec!["gpt-4o-mini", "gpt-4o"]);
    let none = finish_model_list(vec![AiModelInfo { id: "tts-1".into(), name: "t".into() }], "grok");
    assert_eq!(none.len(), 3);
}

#[test]
fn prompts_and_endpoints() {
    let p = system_prompt("cleanup_advice", "fr");
    assert!(p.starts_with("You are a system cleanup advisor."));
    assert!(p.ends_with(" IMPORTANT: Always answer in French."));
    assert!(system_prompt("general", "en").ends_with("Always answer in English."));
    assert_eq!(chat_endpoint(""), "https://ia.auraneo.fr/api/agents/chat");
    assert_eq!(chat_endpoint("https://ia.auraneo.fr/"), "https://ia.auraneo.fr/api/agents/chat");
    assert_eq!(chat_endpoint("https://api.openai.com"), "https://api.openai.com/v1/chat/completions");
    assert_eq!(chat_endpoint("https://x/v1/chat/completions"), "https://x/v1/chat/completions");
    assert_eq!(chat_timeout_secs("http://localhost:11434", true), 120);
    assert_eq!(chat_timeout_secs("https://ia.auraneo.fr", true), 90);
    assert_eq!(chat_timeout_secs("https://api.openai.com", false), 60);
}

#[test]
fn errors_and_answers() {
    assert_eq!(api_error_message("401 Unauthorized", 401, None), "API error 401 Unauthorized — Clé API invalide ou expirée");
    assert_eq!(api_error_message("400 Bad Request", 400, Some("bad model")), "API error 400 Bad Request: bad model");
    assert_eq!(api_error_message("418", 418, Some("")), "API error 418");
    assert!(matches!(on_send_failure(true, "x"), SendFailure::Retry));
    assert!(matches!(on_send_failure(false, "dns"), SendFailure::Fail { ref message } if message == "Erreur réseau: dns"));
    assert_eq!(retry_failure_message("refused"), "Connexion impossible après 2 tentatives: refused");
    assert_eq!(answer_text(true, None), "No response from Aura-IA");
    assert_eq!(answer_text(false, None), "No response from AI");
    assert_eq!(answer_text(false, Some("hello".into())), "hello");
}

#[test]
fn analysis_needs_configuration() {
    let mut c = Config::default();
    assert_eq!(check_analysis_allowed(&c), Err("AI not configured".to_string()));
    configure_ai(&mut c, true, "https://ia.auraneo.fr".into(), "k".into(), true);
    assert_eq!(check_analysis_allowed(&c), Ok(()));
}

#[test]
fn model_list_after_a_reply() {
    let none = models_after_reply(None, "openai");
    assert_eq!(ids(&none), ids(&get_fallback_models("openai")));
    let listing = ModelListing::Data {
        ids: vec![
            JsonField::Text("gpt-b".into()),
            JsonField::Text("text-embedding-3".into()),
            JsonField::Text("gpt-a".into()),
        ],
    };
    assert_eq!(ids(&models_after_reply(Some(&listing), "openai")), vec!["gpt-a", "gpt-b"]);
    let only_embed = ModelListing::Data { ids: vec![JsonField::Text("embed-x".into())] };
    assert_eq!(ids(&models_after_reply(Some(&only_embed), "grok")), ids(&get_fallback_models("grok")));
}

#[test]
fn chat_request_bodies() {
    let mut c = Config::default();
    c.ai_model = "gpt-4o-mini".into();
    c.ai_endpoint = "https://api.openai.com/v1".into();
    c.language = "en".into();
    let q = AiRequest { context: "apt failed".into(), context_type: "update_error".into() };
    assert!(!is_aura_endpoint(&c.ai_endpoint));
    match chat_body(&c, &q) {
        ChatBody::Chat { model, system, user, temperature_tenths, max_tokens } => {
            assert_eq!(model, "gpt-4o-mini");
            assert_eq!(system, system_prompt("update_error", "en"));
            assert_eq!(user, "apt failed");
            assert_eq!((temperature_tenths, max_tokens), (4, 300));
        }
        ChatBody::Agent { .. } => panic!("expected a chat completion"),
    }
    c.ai_endpoint = "https://ia.auraneo.fr".into();
    assert!(is_aura_endpoint(&c.ai_endpoint));
    match chat_body(&c, &q) {
        ChatBody::Agent { agent_id, user_message, language } => {
            assert_eq!((agent_id.as_str(), user_message.as_str(), language.as_str()), ("gpt-4o-mini", "apt failed", "en"));
        }
        ChatBody::Chat { .. } => panic!("expected an agent request"),
    }
}
