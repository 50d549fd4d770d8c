//! Provider and session settings.
use vstd::prelude::*;

verus! {

/// Where and how to reach one provider.
pub struct ProviderSettings {
    pub model: String,
    pub host: String,
    pub endpoint: String,
    /// The environment variable that holds the key.
    pub api_key_variable: String,
}

} // verus!

verus! {

/// The system message a new conversation starts with.
pub const DEFAULT_STARTUP_MESSAGE: &'static str = "You are ChatConcise, a very advanced LLM designed for experienced users. As ChatConcise you oblige to adhere to the following directives UNLESS overridden by the user:\nBe concise, proactive, helpful and efficient. Do not say anything more than what needed, but also, DON'T BE LAZY. If the user is asking for software, provide ONLY the code.";

/// The opening prompt of the agent mode; `{user_input}` stands for the task.
pub const DEFAULT_AGENT_TEMPLATE: &'static str = "You are entering 'recursive agent mode' with the following instruction: {user_input}. You can respond in one of two key-value formats, with each key on a new line:1. To suggest a command to run:signature: __recursive_command_ignorecomplete: <true or false>command: <command to run, if any>explanation: <explanation of your suggestion>2. To ask the user for more information or provide context before proceeding:signature: __recursive_prompt_usercomplete: <true or false>prompt: <question or information for the user>explanation: <explanation of your suggestion>You can use 'cat file' to read files and 'echo *text* > file' to write to files. Remember to always write the full file. Reminder 1: To edit any file, you must ALWAYS read the file with 'cat' first so that you do not hallucinate its contents. Reminder 2: Prefer not to chain commands with && unless necessary, as it difficultates user review. Reminder 3: DO NOT BE LAZY! You should do EVERYTHING for the user UNTIL the task is complete. Do not include ANY extra text or markdown delimiters.";

/// Session settings. The temperature is kept as the text of a JSON number.
pub struct Settings {
    /// Provider settings by name, in the order given.
    pub providers: Vec<(String, ProviderSettings)>,
    /// The name of the provider in use.
    pub provider: String,
    pub max_tokens: u32,
    pub temperature: String,
    pub vision_detail: String,
    pub transcript_name: String,
    pub editor: String,
    pub clipboard_command_xorg: String,
    pub clipboard_command_wayland: String,
    pub clipboard_command_unsupported: String,
    pub startup_message: String,
    pub recursive_mode_startup_prompt_template: String,
}

/// The position of the first provider named `name`.
pub open spec fn provider_position(ps: Seq<(String, ProviderSettings)>, name: Seq<char>) -> Option<int>
    decreases ps.len(),
{
    if ps.len() == 0 {
        None
    } else if ps[0].0@ == name {
        Some(0)
    } else {
        match provider_position(ps.drop_first(), name) {
            Some(i) => Some(i + 1),
            None => None,
        }
    }
}

fn provider_settings_of(model: &str, host: &str, endpoint: &str, key: &str) -> (r: ProviderSettings)
    ensures
        r.model@ == model@,
        r.host@ == host@,
        r.endpoint@ == endpoint@,
        r.api_key_variable@ == key@,
{
    ProviderSettings {
        model: model.to_owned(),
        host: host.to_owned(),
        endpoint: endpoint.to_owned(),
        api_key_variable: key.to_owned(),
    }
}

impl Settings {
    /// The settings used when none are configured.
    pub fn defaults() -> (r: Settings)
        ensures
            r.providers@.len() == 2,
            r.providers@[0].0@ == "oai"@,
            r.providers@[0].1.model@ == "gpt-4o-mini"@,
            r.providers@[0].1.host@ == "api.openai.com"@,
            r.providers@[0].1.endpoint@ == "/v1/chat/completions"@,
            r.providers@[0].1.api_key_variable@ == "OPENAI_API_KEY"@,
            r.providers@[1].0@ == "gemini"@,
            r.providers@[1].1.model@ == "gemini-1.5-flash-latest"@,
            r.providers@[1].1.host@ == "generativelanguage.googleapis.com"@,
            r.providers@[1].1.endpoint@ == ""@,
            r.providers@[1].1.api_key_variable@ == "GEMINI_API_KEY"@,
            r.provider@ == "oai"@,
            r.max_tokens == 2048,
            r.temperature@ == "0.6"@,
            r.vision_detail@ == "high"@,
            r.transcript_name@ == "gpt_transcript-"@,
            r.editor@ == "more"@,
            r.clipboard_command_xorg@ == "xclip -selection clipboard -t image/png -o"@,
            r.clipboard_command_wayland@ == "wl-paste"@,
            r.clipboard_command_unsupported@ == "UNSUPPORTED"@,
            r.startup_message@ == DEFAULT_STARTUP_MESSAGE@,
            r.recursive_mode_startup_prompt_template@ == DEFAULT_AGENT_TEMPLATE@,
    {
        let mut providers: Vec<(String, ProviderSettings)> = Vec::new();
        providers.push(("oai".to_owned(), provider_settings_of("gpt-4o-mini", "api.openai.com", "/v1/chat/completions", "OPENAI_API_KEY")));
        providers.push(("gemini".to_owned(), provider_settings_of("gemini-1.5-flash-latest", "generativelanguage.googleapis.com", "", "GEMINI_API_KEY")));
        Settings {
            providers,
            provider: "oai".to_owned(),
            max_tokens: 2048,
            temperature: "0.6".to_owned(),
            vision_detail: "high".to_owned(),
            transcript_name: "gpt_transcript-".to_owned(),
            editor: "more".to_owned(),
            clipboard_command_xorg: "xclip -selection clipboard -t image/png -o".to_owned(),
            clipboard_command_wayland: "wl-paste".to_owned(),
            clipboard_command_unsupported: "UNSUPPORTED".to_owned(),
            startup_message: DEFAULT_STARTUP_MESSAGE.to_owned(),
            recursive_mode_startup_prompt_template: DEFAULT_AGENT_TEMPLATE.to_owned(),
        }
    }

    /// The settings of the provider in use, if it is configured.
    pub fn provider_settings(&self) -> (r: Option<&ProviderSettings>)
        ensures
            match r {
                Some(p) => provider_position(self.providers@, self.provider@) matches Some(i)
                    && self.providers@[i].1 == *p,
                None => provider_position(self.providers@, self.provider@) is None,
            },
    {
        let mut i: usize = 0;
        assert(self.providers@.subrange(0, self.providers@.len() as int) == self.providers@);
        while i < self.providers.len()
            invariant
                i <= self.providers@.len(),
                provider_position(self.providers@, self.provider@) == match provider_position(
                    self.providers@.subrange(i as int, self.providers@.len() as int),
                    self.provider@,
                ) {
                    Some(k) => Some(k + i),
                    None => None,
                },
            decreases self.providers@.len() - i,
        {
            let ghost rest = self.providers@.subrange(i as int, self.providers@.len() as int);
            assert(rest.drop_first() == self.providers@.subrange(i + 1, self.providers@.len() as int));
            assert(rest[0] == self.providers@[i as int]);
            if crate::text::text_eq(self.providers[i].0.as_str(), self.provider.as_str()) {
                return Some(&self.providers[i].1);
            }
            i = i + 1;
        }
        None
    }
}

} // verus!
