//! The mapping from the saved settings to the engine's configuration, the
//! hotkey mode and the shortcut to register.
use vstd::prelude::*;
use vstd::string::*;
use crate::state::{HotkeyMode, opt_view};
use crate::text::same_text;

verus! {

/// The saved settings as strings: each field is the setting's value when it
/// is present and a string, `None` otherwise.
#[derive(Debug)]
pub struct SettingsConfig {
    pub stt_provider: Option<String>,
    pub stt_api_key: Option<String>,
    pub llm_provider: Option<String>,
    pub llm_api_key: Option<String>,
    pub language: Option<String>,
    pub llm_base_url: Option<String>,
    pub llm_model: Option<String>,
    pub stt_model: Option<String>,
    pub system_prompt: Option<String>,
    pub hotkey_mode: Option<String>,
    pub hotkey: Option<String>,
}

/// The configuration sent to the speech engine; `None` fields are sent as
/// `null`.
#[derive(Debug)]
pub struct ConfigureRequest {
    pub stt_provider: String,
    pub stt_model: Option<String>,
    pub llm_provider: String,
    pub openai_api_key: Option<String>,
    pub aliyun_dashscope_api_key: Option<String>,
    pub deepseek_api_key: Option<String>,
    pub llm_base_url: Option<String>,
    pub llm_model: Option<String>,
    pub system_prompt: Option<String>,
    pub language: String,
}

/// A setting's value, or `default` when it is absent.
pub open spec fn setting_or(o: Option<String>, default: Seq<char>) -> Seq<char> {
    match o {
        Some(s) => s@,
        None => default,
    }
}

/// A text sent as `null` when empty.
pub open spec fn null_if_empty(s: Seq<char>) -> Option<Seq<char>> {
    if s.len() == 0 { None } else { Some(s) }
}

/// The engine configuration for the saved settings: providers default to
/// DashScope and DeepSeek, the language to `auto`; the speech key goes to
/// DashScope only when DashScope is the speech provider; the LLM key goes to
/// the OpenAI or DeepSeek slot that the LLM provider names (to neither for
/// another provider); every optional text that is empty is sent as `null`.
pub open spec fn configure_spec(c: SettingsConfig, r: ConfigureRequest) -> bool {
    let stt_provider = setting_or(c.stt_provider, "aliyun_dashscope"@);
    let stt_key = setting_or(c.stt_api_key, ""@);
    let llm_provider = setting_or(c.llm_provider, "deepseek"@);
    let llm_key = setting_or(c.llm_api_key, ""@);
    &&& r.stt_provider@ == stt_provider
    &&& opt_view(r.stt_model) == null_if_empty(setting_or(c.stt_model, ""@))
    &&& r.llm_provider@ == llm_provider
    &&& opt_view(r.aliyun_dashscope_api_key) == (if stt_provider == "aliyun_dashscope"@ { null_if_empty(stt_key) } else { None })
    &&& opt_view(r.openai_api_key) == (if llm_provider == "openai"@ { null_if_empty(llm_key) } else { None })
    &&& opt_view(r.deepseek_api_key) == (if llm_provider == "deepseek"@ { null_if_empty(llm_key) } else { None })
    &&& opt_view(r.llm_base_url) == null_if_empty(setting_or(c.llm_base_url, ""@))
    &&& opt_view(r.llm_model) == null_if_empty(setting_or(c.llm_model, ""@))
    &&& opt_view(r.system_prompt) == null_if_empty(setting_or(c.system_prompt, ""@))
    &&& r.language@ == setting_or(c.language, "auto"@)
}

fn value_or(o: &Option<String>, default: &str) -> (r: String)
    ensures
        r@ == setting_or(*o, default@),
{
    match o {
        Some(s) => s.clone(),
        None => String::from_str(default),
    }
}

fn nonempty(s: String) -> (r: Option<String>)
    ensures
        opt_view(r) == null_if_empty(s@),
{
    if s.as_str().unicode_len() == 0 {
        None
    } else {
        Some(s)
    }
}

/// Build the engine configuration from the saved settings.
pub fn configure_request(c: &SettingsConfig) -> (r: ConfigureRequest)
    ensures
        configure_spec(*c, r),
{
    let stt_provider = value_or(&c.stt_provider, "aliyun_dashscope");
    let stt_api_key = value_or(&c.stt_api_key, "");
    let llm_provider = value_or(&c.llm_provider, "deepseek");
    let llm_api_key = value_or(&c.llm_api_key, "");
    let language = value_or(&c.language, "auto");
    let llm_base_url = value_or(&c.llm_base_url, "");
    let llm_model = value_or(&c.llm_model, "");
    let stt_model = value_or(&c.stt_model, "");
    let system_prompt = value_or(&c.system_prompt, "");

    let mut openai_api_key = String::new();
    let mut aliyun_dashscope_api_key = String::new();
    let mut deepseek_api_key = String::new();

    if same_text(stt_provider.as_str(), "aliyun_dashscope") {
        aliyun_dashscope_api_key = stt_api_key.clone();
    }
    proof { lemma_provider_names_differ(); }
    if same_text(llm_provider.as_str(), "openai") {
        openai_api_key = llm_api_key.clone();
    } else if same_text(llm_provider.as_str(), "deepseek") {
        deepseek_api_key = llm_api_key.clone();
    }

    ConfigureRequest {
        stt_provider,
        stt_model: nonempty(stt_model),
        llm_provider,
        openai_api_key: nonempty(openai_api_key),
        aliyun_dashscope_api_key: nonempty(aliyun_dashscope_api_key),
        deepseek_api_key: nonempty(deepseek_api_key),
        llm_base_url: nonempty(llm_base_url),
        llm_model: nonempty(llm_model),
        system_prompt: nonempty(system_prompt),
        language,
    }
}

/// At most one LLM key slot is filled, and an API key is never sent to a
/// provider other than the one configured for it.
pub proof fn law_keys_go_to_their_provider(c: SettingsConfig, r: ConfigureRequest)
    requires
        configure_spec(c, r),
    ensures
        !(r.openai_api_key is Some && r.deepseek_api_key is Some),
        r.openai_api_key is Some ==> r.llm_provider@ == "openai"@,
        r.deepseek_api_key is Some ==> r.llm_provider@ == "deepseek"@,
        r.aliyun_dashscope_api_key is Some ==> r.stt_provider@ == "aliyun_dashscope"@,
{
    lemma_provider_names_differ();
}

proof fn lemma_provider_names_differ()
    ensures
        "openai"@ != "deepseek"@,
{
    reveal_strlit("openai");
    reveal_strlit("deepseek");
    assert("openai"@[0] != "deepseek"@[0]);
}

/// Each API key goes to the slot of the provider it was configured for: the
/// DeepSeek and OpenAI slots only ever hold the LLM key, the DashScope slot
/// only the speech key; and when DeepSeek (or OpenAI) is the LLM provider
/// and the LLM key is non-empty, that provider's slot holds exactly the LLM
/// key, as the DashScope slot does the speech key when DashScope is the
/// speech provider.
pub proof fn law_each_key_reaches_its_own_slot(c: SettingsConfig, r: ConfigureRequest)
    requires
        configure_spec(c, r),
    ensures
        r.deepseek_api_key matches Some(d) ==> (c.llm_api_key matches Some(k) && d@ == k@),
        r.openai_api_key matches Some(o) ==> (c.llm_api_key matches Some(k) && o@ == k@),
        r.aliyun_dashscope_api_key matches Some(a) ==> (c.stt_api_key matches Some(k) && a@ == k@),
        c.llm_provider is Some && c.llm_provider.unwrap()@ == "deepseek"@ && c.llm_api_key is Some
            && c.llm_api_key.unwrap()@.len() > 0
            ==> opt_view(r.deepseek_api_key) == Some(c.llm_api_key.unwrap()@),
        c.llm_provider is Some && c.llm_provider.unwrap()@ == "openai"@ && c.llm_api_key is Some
            && c.llm_api_key.unwrap()@.len() > 0
            ==> opt_view(r.openai_api_key) == Some(c.llm_api_key.unwrap()@),
        c.stt_provider is None && c.stt_api_key is Some && c.stt_api_key.unwrap()@.len() > 0
            ==> opt_view(r.aliyun_dashscope_api_key) == Some(c.stt_api_key.unwrap()@),
{
    reveal_strlit("");
    assert(""@.len() == 0);
}

/// The hotkey mode a setting names: no setting means toggle mode (the
/// default); an explicit `toggle` is toggle mode; any other value is
/// hold-to-record.
pub open spec fn hotkey_mode_spec(setting: Option<String>) -> HotkeyMode {
    match setting {
        None => HotkeyMode::Toggle,
        Some(m) => if m@ == "toggle"@ { HotkeyMode::Toggle } else { HotkeyMode::HoldToRecord },
    }
}

/// The hotkey mode the saved settings ask for.
pub fn hotkey_mode_setting(c: &SettingsConfig) -> (r: HotkeyMode)
    ensures
        r == hotkey_mode_spec(c.hotkey_mode),
{
    match &c.hotkey_mode {
        None => HotkeyMode::Toggle,
        Some(mode) => if same_text(mode.as_str(), "toggle") { HotkeyMode::Toggle } else { HotkeyMode::HoldToRecord },
    }
}

/// The saved shortcut to register, if any: an empty setting and the
/// deprecated `Alt+Space` (reserved by Windows) are skipped.
pub open spec fn hotkey_setting_spec(setting: Option<String>) -> Option<Seq<char>> {
    match setting {
        Some(h) => if h@.len() != 0 && h@ != "Alt+Space"@ { Some(h@) } else { None },
        None => None,
    }
}

/// A saved shortcut is either skipped or applied unchanged, and it is skipped
/// exactly when it is empty or is `Alt+Space`: every other saved shortcut,
/// whatever keys it names, is applied.
pub proof fn law_saved_shortcut_applied_unless_empty_or_alt_space(setting: Option<String>)
    ensures
        hotkey_setting_spec(setting) matches Some(t) ==> (setting matches Some(h) && t == h@),
        setting is None ==> hotkey_setting_spec(setting) is None,
        setting matches Some(h) ==> (hotkey_setting_spec(setting) is None <==> (h@.len() == 0 || h@ == "Alt+Space"@)),
{
}

/// The saved shortcut that should replace the current one, if any.
pub fn hotkey_setting(c: &SettingsConfig) -> (r: Option<String>)
    ensures
        opt_view(r) == hotkey_setting_spec(c.hotkey),
{
    match &c.hotkey {
        Some(h) => {
            if h.as_str().unicode_len() != 0 && !same_text(h.as_str(), "Alt+Space") {
                Some(h.clone())
            } else {
                None
            }
        },
        None => None,
    }
}

} // verus!
