use vstd::prelude::*;
use crate::error::{ModelError, ProviderError};
use vstd::string::*;
use crate::util::{str_eq, strip_trailing_slash, without_trailing_slash};

verus! {

/// Chat models offered by OpenAI; any other name is kept as a custom id.
#[derive(Debug, PartialEq, Eq)]
pub enum OpenAIChatModelId {
    O1,
    O12024_12_17,
    O1Mini,
    O1Mini2024_09_12,
    O1Preview,
    O1Preview2024_09_12,
    O3Mini,
    O3Mini2025_01_31,
    O3,
    O32025_04_16,
    O4Mini,
    O4Mini2025_04_16,
    GPT41,
    GPT412025_04_14,
    GPT41Mini,
    GPT41Mini2025_04_14,
    GPT41Nano,
    GPT41Nano2025_04_14,
    GPT4o,
    GPT4o2024_05_13,
    GPT4o2024_08_06,
    GPT4o2024_11_20,
    GPT4oAudioPreview,
    GPT4oAudioPreview2024_10_01,
    GPT4oAudioPreview2024_12_17,
    GPT4oSearchPreview,
    GPT4oSearchPreview2025_03_11,
    GPT4oMiniSearchPreview,
    GPT4oMiniSearchPreview2025_03_11,
    GPT4oMini,
    GPT4oMini2024_07_18,
    ChatGPT4oLatest,
    GPT4Turbo,
    GPT4Turbo2024_04_09,
    GPT4TurboPreview,
    GPT40125Preview,
    GPT41106Preview,
    GPT4,
    GPT40613,
    GPT45Preview,
    GPT45Preview2025_02_27,
    GPT35Turbo0125,
    GPT35Turbo,
    GPT35Turbo1106,
    Custom(String),
}

/// The name under which the API knows a model.
pub open spec fn model_id_name(id: OpenAIChatModelId) -> Seq<char> {
    match id {
        OpenAIChatModelId::O1 => "o1"@,
        OpenAIChatModelId::O12024_12_17 => "o1-2024-12-17"@,
        OpenAIChatModelId::O1Mini => "o1-mini"@,
        OpenAIChatModelId::O1Mini2024_09_12 => "o1-mini-2024-09-12"@,
        OpenAIChatModelId::O1Preview => "o1-preview"@,
        OpenAIChatModelId::O1Preview2024_09_12 => "o1-preview-2024-09-12"@,
        OpenAIChatModelId::O3Mini => "o3-mini"@,
        OpenAIChatModelId::O3Mini2025_01_31 => "o3-mini-2025-01-31"@,
        OpenAIChatModelId::O3 => "o3"@,
        OpenAIChatModelId::O32025_04_16 => "o3-2025-04-16"@,
        OpenAIChatModelId::O4Mini => "o4-mini"@,
        OpenAIChatModelId::O4Mini2025_04_16 => "o4-mini-2025-04-16"@,
        OpenAIChatModelId::GPT41 => "gpt-4.1"@,
        OpenAIChatModelId::GPT412025_04_14 => "gpt-4.1-2025-04-14"@,
        OpenAIChatModelId::GPT41Mini => "gpt-4.1-mini"@,
        OpenAIChatModelId::GPT41Mini2025_04_14 => "gpt-4.1-mini-2025-04-14"@,
        OpenAIChatModelId::GPT41Nano => "gpt-4.1-nano"@,
        OpenAIChatModelId::GPT41Nano2025_04_14 => "gpt-4.1-nano-2025-04-14"@,
        OpenAIChatModelId::GPT4o => "gpt-4o"@,
        OpenAIChatModelId::GPT4o2024_05_13 => "gpt-4o-2024-05-13"@,
        OpenAIChatModelId::GPT4o2024_08_06 => "gpt-4o-2024-08-06"@,
        OpenAIChatModelId::GPT4o2024_11_20 => "gpt-4o-2024-11-20"@,
        OpenAIChatModelId::GPT4oAudioPreview => "gpt-4o-audio-preview"@,
        OpenAIChatModelId::GPT4oAudioPreview2024_10_01 => "gpt-4o-audio-preview-2024-10-01"@,
        OpenAIChatModelId::GPT4oAudioPreview2024_12_17 => "gpt-4o-audio-preview-2024-12-17"@,
        OpenAIChatModelId::GPT4oSearchPreview => "gpt-4o-search-preview"@,
        OpenAIChatModelId::GPT4oSearchPreview2025_03_11 => "gpt-4o-search-preview-2025-03-11"@,
        OpenAIChatModelId::GPT4oMiniSearchPreview => "gpt-4o-mini-search-preview"@,
        OpenAIChatModelId::GPT4oMiniSearchPreview2025_03_11 => "gpt-4o-mini-search-preview-2025-03-11"@,
        OpenAIChatModelId::GPT4oMini => "gpt-4o-mini"@,
        OpenAIChatModelId::GPT4oMini2024_07_18 => "gpt-4o-mini-2024-07-18"@,
        OpenAIChatModelId::ChatGPT4oLatest => "chatgpt-4o-latest"@,
        OpenAIChatModelId::GPT4Turbo => "gpt-4-turbo"@,
        OpenAIChatModelId::GPT4Turbo2024_04_09 => "gpt-4-turbo-2024-04-09"@,
        OpenAIChatModelId::GPT4TurboPreview => "gpt-4-turbo-preview"@,
        OpenAIChatModelId::GPT40125Preview => "gpt-4-0125-preview"@,
        OpenAIChatModelId::GPT41106Preview => "gpt-4-1106-preview"@,
        OpenAIChatModelId::GPT4 => "gpt-4"@,
        OpenAIChatModelId::GPT40613 => "gpt-4-0613"@,
        OpenAIChatModelId::GPT45Preview => "gpt-4.5-preview"@,
        OpenAIChatModelId::GPT45Preview2025_02_27 => "gpt-4.5-preview-2025-02-27"@,
        OpenAIChatModelId::GPT35Turbo0125 => "gpt-3.5-turbo-0125"@,
        OpenAIChatModelId::GPT35Turbo => "gpt-3.5-turbo"@,
        OpenAIChatModelId::GPT35Turbo1106 => "gpt-3.5-turbo-1106"@,
        OpenAIChatModelId::Custom(s) => s@,
    }
}

/// The listed model of a name, if there is one.
pub open spec fn listed_model(s: Seq<char>) -> Option<OpenAIChatModelId> {
    if s == "o1"@ {
        Some(OpenAIChatModelId::O1)
    } else if s == "o1-2024-12-17"@ {
        Some(OpenAIChatModelId::O12024_12_17)
    } else if s == "o1-mini"@ {
        Some(OpenAIChatModelId::O1Mini)
    } else if s == "o1-mini-2024-09-12"@ {
        Some(OpenAIChatModelId::O1Mini2024_09_12)
    } else if s == "o1-preview"@ {
        Some(OpenAIChatModelId::O1Preview)
    } else if s == "o1-preview-2024-09-12"@ {
        Some(OpenAIChatModelId::O1Preview2024_09_12)
    } else if s == "o3-mini"@ {
        Some(OpenAIChatModelId::O3Mini)
    } else if s == "o3-mini-2025-01-31"@ {
        Some(OpenAIChatModelId::O3Mini2025_01_31)
    } else if s == "o3"@ {
        Some(OpenAIChatModelId::O3)
    } else if s == "o3-2025-04-16"@ {
        Some(OpenAIChatModelId::O32025_04_16)
    } else if s == "o4-mini"@ {
        Some(OpenAIChatModelId::O4Mini)
    } else if s == "o4-mini-2025-04-16"@ {
        Some(OpenAIChatModelId::O4Mini2025_04_16)
    } else if s == "gpt-4.1"@ {
        Some(OpenAIChatModelId::GPT41)
    } else if s == "gpt-4.1-2025-04-14"@ {
        Some(OpenAIChatModelId::GPT412025_04_14)
    } else if s == "gpt-4.1-mini"@ {
        Some(OpenAIChatModelId::GPT41Mini)
    } else if s == "gpt-4.1-mini-2025-04-14"@ {
        Some(OpenAIChatModelId::GPT41Mini2025_04_14)
    } else if s == "gpt-4.1-nano"@ {
        Some(OpenAIChatModelId::GPT41Nano)
    } else if s == "gpt-4.1-nano-2025-04-14"@ {
        Some(OpenAIChatModelId::GPT41Nano2025_04_14)
    } else if s == "gpt-4o"@ {
        Some(OpenAIChatModelId::GPT4o)
    } else if s == "gpt-4o-2024-05-13"@ {
        Some(OpenAIChatModelId::GPT4o2024_05_13)
    } else if s == "gpt-4o-2024-08-06"@ {
        Some(OpenAIChatModelId::GPT4o2024_08_06)
    } else if s == "gpt-4o-2024-11-20"@ {
        Some(OpenAIChatModelId::GPT4o2024_11_20)
    } else if s == "gpt-4o-audio-preview"@ {
        Some(OpenAIChatModelId::GPT4oAudioPreview)
    } else if s == "gpt-4o-audio-preview-2024-10-01"@ {
        Some(OpenAIChatModelId::GPT4oAudioPreview2024_10_01)
    } else if s == "gpt-4o-audio-preview-2024-12-17"@ {
        Some(OpenAIChatModelId::GPT4oAudioPreview2024_12_17)
    } else if s == "gpt-4o-search-preview"@ {
        Some(OpenAIChatModelId::GPT4oSearchPreview)
    } else if s == "gpt-4o-search-preview-2025-03-11"@ {
        Some(OpenAIChatModelId::GPT4oSearchPreview2025_03_11)
    } else if s == "gpt-4o-mini-search-preview"@ {
        Some(OpenAIChatModelId::GPT4oMiniSearchPreview)
    } else if s == "gpt-4o-mini-search-preview-2025-03-11"@ {
        Some(OpenAIChatModelId::GPT4oMiniSearchPreview2025_03_11)
    } else if s == "gpt-4o-mini"@ {
        Some(OpenAIChatModelId::GPT4oMini)
    } else if s == "gpt-4o-mini-2024-07-18"@ {
        Some(OpenAIChatModelId::GPT4oMini2024_07_18)
    } else if s == "gpt-4-turbo"@ {
        Some(OpenAIChatModelId::GPT4Turbo)
    } else if s == "gpt-4-turbo-2024-04-09"@ {
        Some(OpenAIChatModelId::GPT4Turbo2024_04_09)
    } else if s == "gpt-4-turbo-preview"@ {
        Some(OpenAIChatModelId::GPT4TurboPreview)
    } else if s == "gpt-4-0125-preview"@ {
        Some(OpenAIChatModelId::GPT40125Preview)
    } else if s == "gpt-4-1106-preview"@ {
        Some(OpenAIChatModelId::GPT41106Preview)
    } else if s == "gpt-4"@ {
        Some(OpenAIChatModelId::GPT4)
    } else if s == "gpt-4-0613"@ {
        Some(OpenAIChatModelId::GPT40613)
    } else if s == "gpt-4.5-preview"@ {
        Some(OpenAIChatModelId::GPT45Preview)
    } else if s == "gpt-4.5-preview-2025-02-27"@ {
        Some(OpenAIChatModelId::GPT45Preview2025_02_27)
    } else if s == "gpt-3.5-turbo-0125"@ {
        Some(OpenAIChatModelId::GPT35Turbo0125)
    } else if s == "gpt-3.5-turbo"@ {
        Some(OpenAIChatModelId::GPT35Turbo)
    } else if s == "gpt-3.5-turbo-1106"@ {
        Some(OpenAIChatModelId::GPT35Turbo1106)
    } else if s == "chatgpt-4o-latest"@ {
        Some(OpenAIChatModelId::ChatGPT4oLatest)
    } else {
        None
    }
}

impl OpenAIChatModelId {
    /// The model a name stands for; a name that is not listed becomes a
    /// custom id holding it.
    pub fn parse(s: &str) -> (r: OpenAIChatModelId)
        ensures
            listed_model(s@) is Some ==> r == listed_model(s@)->Some_0,
            listed_model(s@) is None ==> r is Custom && r->Custom_0@ == s@,
            model_id_name(r) == s@,
    {
        if str_eq(s, "o1") {
            OpenAIChatModelId::O1
        } else if str_eq(s, "o1-2024-12-17") {
            OpenAIChatModelId::O12024_12_17
        } else if str_eq(s, "o1-mini") {
            OpenAIChatModelId::O1Mini
        } else if str_eq(s, "o1-mini-2024-09-12") {
            OpenAIChatModelId::O1Mini2024_09_12
        } else if str_eq(s, "o1-preview") {
            OpenAIChatModelId::O1Preview
        } else if str_eq(s, "o1-preview-2024-09-12") {
            OpenAIChatModelId::O1Preview2024_09_12
        } else if str_eq(s, "o3-mini") {
            OpenAIChatModelId::O3Mini
        } else if str_eq(s, "o3-mini-2025-01-31") {
            OpenAIChatModelId::O3Mini2025_01_31
        } else if str_eq(s, "o3") {
            OpenAIChatModelId::O3
        } else if str_eq(s, "o3-2025-04-16") {
            OpenAIChatModelId::O32025_04_16
        } else if str_eq(s, "o4-mini") {
            OpenAIChatModelId::O4Mini
        } else if str_eq(s, "o4-mini-2025-04-16") {
            OpenAIChatModelId::O4Mini2025_04_16
        } else if str_eq(s, "gpt-4.1") {
            OpenAIChatModelId::GPT41
        } else if str_eq(s, "gpt-4.1-2025-04-14") {
            OpenAIChatModelId::GPT412025_04_14
        } else if str_eq(s, "gpt-4.1-mini") {
            OpenAIChatModelId::GPT41Mini
        } else if str_eq(s, "gpt-4.1-mini-2025-04-14") {
            OpenAIChatModelId::GPT41Mini2025_04_14
        } else if str_eq(s, "gpt-4.1-nano") {
            OpenAIChatModelId::GPT41Nano
        } else if str_eq(s, "gpt-4.1-nano-2025-04-14") {
            OpenAIChatModelId::GPT41Nano2025_04_14
        } else if str_eq(s, "gpt-4o") {
            OpenAIChatModelId::GPT4o
        } else if str_eq(s, "gpt-4o-2024-05-13") {
            OpenAIChatModelId::GPT4o2024_05_13
        } else if str_eq(s, "gpt-4o-2024-08-06") {
            OpenAIChatModelId::GPT4o2024_08_06
        } else if str_eq(s, "gpt-4o-2024-11-20") {
            OpenAIChatModelId::GPT4o2024_11_20
        } else if str_eq(s, "gpt-4o-audio-preview") {
            OpenAIChatModelId::GPT4oAudioPreview
        } else if str_eq(s, "gpt-4o-audio-preview-2024-10-01") {
            OpenAIChatModelId::GPT4oAudioPreview2024_10_01
        } else if str_eq(s, "gpt-4o-audio-preview-2024-12-17") {
            OpenAIChatModelId::GPT4oAudioPreview2024_12_17
        } else if str_eq(s, "gpt-4o-search-preview") {
            OpenAIChatModelId::GPT4oSearchPreview
        } else if str_eq(s, "gpt-4o-search-preview-2025-03-11") {
            OpenAIChatModelId::GPT4oSearchPreview2025_03_11
        } else if str_eq(s, "gpt-4o-mini-search-preview") {
            OpenAIChatModelId::GPT4oMiniSearchPreview
        } else if str_eq(s, "gpt-4o-mini-search-preview-2025-03-11") {
            OpenAIChatModelId::GPT4oMiniSearchPreview2025_03_11
        } else if str_eq(s, "gpt-4o-mini") {
            OpenAIChatModelId::GPT4oMini
        } else if str_eq(s, "gpt-4o-mini-2024-07-18") {
            OpenAIChatModelId::GPT4oMini2024_07_18
        } else if str_eq(s, "gpt-4-turbo") {
            OpenAIChatModelId::GPT4Turbo
        } else if str_eq(s, "gpt-4-turbo-2024-04-09") {
            OpenAIChatModelId::GPT4Turbo2024_04_09
        } else if str_eq(s, "gpt-4-turbo-preview") {
            OpenAIChatModelId::GPT4TurboPreview
        } else if str_eq(s, "gpt-4-0125-preview") {
            OpenAIChatModelId::GPT40125Preview
        } else if str_eq(s, "gpt-4-1106-preview") {
            OpenAIChatModelId::GPT41106Preview
        } else if str_eq(s, "gpt-4") {
            OpenAIChatModelId::GPT4
        } else if str_eq(s, "gpt-4-0613") {
            OpenAIChatModelId::GPT40613
        } else if str_eq(s, "gpt-4.5-preview") {
            OpenAIChatModelId::GPT45Preview
        } else if str_eq(s, "gpt-4.5-preview-2025-02-27") {
            OpenAIChatModelId::GPT45Preview2025_02_27
        } else if str_eq(s, "gpt-3.5-turbo-0125") {
            OpenAIChatModelId::GPT35Turbo0125
        } else if str_eq(s, "gpt-3.5-turbo") {
            OpenAIChatModelId::GPT35Turbo
        } else if str_eq(s, "gpt-3.5-turbo-1106") {
            OpenAIChatModelId::GPT35Turbo1106
        } else if str_eq(s, "chatgpt-4o-latest") {
            OpenAIChatModelId::ChatGPT4oLatest
        } else {
            OpenAIChatModelId::Custom(s.to_owned())
        }
    }

    /// The name under which the API knows the model.
    pub fn as_string(&self) -> (r: String)
        ensures
            r@ == model_id_name(*self),
    {
        match self {
            OpenAIChatModelId::O1 => "o1".to_owned(),
            OpenAIChatModelId::O12024_12_17 => "o1-2024-12-17".to_owned(),
            OpenAIChatModelId::O1Mini => "o1-mini".to_owned(),
            OpenAIChatModelId::O1Mini2024_09_12 => "o1-mini-2024-09-12".to_owned(),
            OpenAIChatModelId::O1Preview => "o1-preview".to_owned(),
            OpenAIChatModelId::O1Preview2024_09_12 => "o1-preview-2024-09-12".to_owned(),
            OpenAIChatModelId::O3Mini => "o3-mini".to_owned(),
            OpenAIChatModelId::O3Mini2025_01_31 => "o3-mini-2025-01-31".to_owned(),
            OpenAIChatModelId::O3 => "o3".to_owned(),
            OpenAIChatModelId::O32025_04_16 => "o3-2025-04-16".to_owned(),
            OpenAIChatModelId::O4Mini => "o4-mini".to_owned(),
            OpenAIChatModelId::O4Mini2025_04_16 => "o4-mini-2025-04-16".to_owned(),
            OpenAIChatModelId::GPT41 => "gpt-4.1".to_owned(),
            OpenAIChatModelId::GPT412025_04_14 => "gpt-4.1-2025-04-14".to_owned(),
            OpenAIChatModelId::GPT41Mini => "gpt-4.1-mini".to_owned(),
            OpenAIChatModelId::GPT41Mini2025_04_14 => "gpt-4.1-mini-2025-04-14".to_owned(),
            OpenAIChatModelId::GPT41Nano => "gpt-4.1-nano".to_owned(),
            OpenAIChatModelId::GPT41Nano2025_04_14 => "gpt-4.1-nano-2025-04-14".to_owned(),
            OpenAIChatModelId::GPT4o => "gpt-4o".to_owned(),
            OpenAIChatModelId::GPT4o2024_05_13 => "gpt-4o-2024-05-13".to_owned(),
            OpenAIChatModelId::GPT4o2024_08_06 => "gpt-4o-2024-08-06".to_owned(),
            OpenAIChatModelId::GPT4o2024_11_20 => "gpt-4o-2024-11-20".to_owned(),
            OpenAIChatModelId::GPT4oAudioPreview => "gpt-4o-audio-preview".to_owned(),
            OpenAIChatModelId::GPT4oAudioPreview2024_10_01 => "gpt-4o-audio-preview-2024-10-01".to_owned(),
            OpenAIChatModelId::GPT4oAudioPreview2024_12_17 => "gpt-4o-audio-preview-2024-12-17".to_owned(),
            OpenAIChatModelId::GPT4oSearchPreview => "gpt-4o-search-preview".to_owned(),
            OpenAIChatModelId::GPT4oSearchPreview2025_03_11 => "gpt-4o-search-preview-2025-03-11".to_owned(),
            OpenAIChatModelId::GPT4oMiniSearchPreview => "gpt-4o-mini-search-preview".to_owned(),
            OpenAIChatModelId::GPT4oMiniSearchPreview2025_03_11 => "gpt-4o-mini-search-preview-2025-03-11".to_owned(),
            OpenAIChatModelId::GPT4oMini => "gpt-4o-mini".to_owned(),
            OpenAIChatModelId::GPT4oMini2024_07_18 => "gpt-4o-mini-2024-07-18".to_owned(),
            OpenAIChatModelId::ChatGPT4oLatest => "chatgpt-4o-latest".to_owned(),
            OpenAIChatModelId::GPT4Turbo => "gpt-4-turbo".to_owned(),
            OpenAIChatModelId::GPT4Turbo2024_04_09 => "gpt-4-turbo-2024-04-09".to_owned(),
            OpenAIChatModelId::GPT4TurboPreview => "gpt-4-turbo-preview".to_owned(),
            OpenAIChatModelId::GPT40125Preview => "gpt-4-0125-preview".to_owned(),
            OpenAIChatModelId::GPT41106Preview => "gpt-4-1106-preview".to_owned(),
            OpenAIChatModelId::GPT4 => "gpt-4".to_owned(),
            OpenAIChatModelId::GPT40613 => "gpt-4-0613".to_owned(),
            OpenAIChatModelId::GPT45Preview => "gpt-4.5-preview".to_owned(),
            OpenAIChatModelId::GPT45Preview2025_02_27 => "gpt-4.5-preview-2025-02-27".to_owned(),
            OpenAIChatModelId::GPT35Turbo0125 => "gpt-3.5-turbo-0125".to_owned(),
            OpenAIChatModelId::GPT35Turbo => "gpt-3.5-turbo".to_owned(),
            OpenAIChatModelId::GPT35Turbo1106 => "gpt-3.5-turbo-1106".to_owned(),
            OpenAIChatModelId::Custom(s) => s.clone(),
        }
    }
}

impl std::str::FromStr for OpenAIChatModelId {
    type Err = String;

    fn from_str(s: &str) -> Result<Self, Self::Err> {
        Ok(OpenAIChatModelId::parse(s))
    }
}

/// Whether std's `char::is_whitespace` holds of a character.
pub uninterp spec fn is_white_space(c: char) -> bool;

/// Relies on std's `char::is_whitespace`.
#[verifier::external_body]
fn is_whitespace(c: char) -> (r: bool)
    ensures
        r == is_white_space(c),
{
    c.is_whitespace()
}

/// The text without its leading and trailing whitespace.
pub open spec fn trimmed(s: Seq<char>) -> Seq<char>
    decreases s.len(),
{
    if s.len() == 0 {
        s
    } else if is_white_space(s[0]) {
        trimmed(s.drop_first())
    } else if is_white_space(s.last()) {
        trimmed(s.drop_last())
    } else {
        s
    }
}

/// Drops leading and trailing whitespace.
pub fn trim_whitespace(s: &str) -> (r: &str)
    ensures
        r@ == trimmed(s@),
{
    let n = s.unicode_len();
    let mut i: usize = 0;
    let mut j: usize = n;
    proof {
        assert(s@.subrange(0, n as int) == s@);
    }
    while i < j && (is_whitespace(s.get_char(i)) || is_whitespace(s.get_char(j - 1)))
        invariant
            n == s@.len(),
            0 <= i <= j <= n,
            trimmed(s@.subrange(i as int, j as int)) == trimmed(s@),
        decreases j - i,
    {
        let ghost t = s@.subrange(i as int, j as int);
        if is_whitespace(s.get_char(i)) {
            proof {
                assert(t.drop_first() == s@.subrange(i + 1, j as int));
            }
            i = i + 1;
        } else {
            proof {
                assert(t.drop_last() == s@.subrange(i as int, j - 1));
            }
            j = j - 1;
        }
    }
    proof {
        let t = s@.subrange(i as int, j as int);
        if i < j {
            assert(t[0] == s@[i as int]);
            assert(t.last() == s@[j - 1]);
        }
        assert(trimmed(t) == t);
    }
    s.substring_char(i, j)
}

/// How much a reasoning model reasons before it answers.
#[derive(Debug, Clone, Copy, PartialEq, Eq, Structural)]
pub enum OpenAIChatSettingsReasoningEffort {
    /// No reasoning.
    Disabled,
    /// Minimal reasoning.
    Low,
    /// Moderate reasoning.
    Medium,
    /// Extensive reasoning.
    High,
}

/// Settings of an OpenAI chat model. Token biases, which are fractional, are
/// set on the transport.
#[derive(Debug)]
pub struct OpenAIChatModel {
    /// Return the log probabilities of the top n tokens.
    pub log_probs: Option<u32>,
    /// Whether tools may be called in parallel.
    pub parallel_calls: bool,
    /// Whether tool calls and objects follow the given schema strictly.
    pub structured_output: bool,
    /// An identifier of the end user.
    pub user: Option<String>,
    /// Whether images are downloaded and passed as data.
    pub download_images: bool,
    /// Reasoning effort of reasoning models.
    pub reasoning_effort: OpenAIChatSettingsReasoningEffort,
}

impl Default for OpenAIChatModel {
    fn default() -> (r: Self)
        ensures
            r.log_probs is None,
            r.parallel_calls,
            !r.structured_output,
            r.user is None,
            !r.download_images,
            r.reasoning_effort == OpenAIChatSettingsReasoningEffort::Medium,
    {
        OpenAIChatModel {
            log_probs: None,
            parallel_calls: true,
            structured_output: false,
            user: None,
            download_images: false,
            reasoning_effort: OpenAIChatSettingsReasoningEffort::Medium,
        }
    }
}

impl OpenAIChatModel {
    pub fn new() -> (r: Self)
        ensures
            r.log_probs is None,
            r.parallel_calls,
            !r.structured_output,
            r.user is None,
            !r.download_images,
            r.reasoning_effort == OpenAIChatSettingsReasoningEffort::Medium,
    {
        OpenAIChatModel::default()
    }

    /// Plain generation is not offered by chat models.
    pub fn generate() -> (r: Result<(), ModelError>)
        ensures
            r is Err && r->Err_0 is NotSupported,
    {
        Err(ModelError::NotSupported("OpenAIChatModel does not support generate operation".to_owned()))
    }

    pub fn with_log_probs(self, log_probs: u32) -> (r: Self)
        ensures
            r == (OpenAIChatModel { log_probs: Some(log_probs), ..self }),
    {
        OpenAIChatModel { log_probs: Some(log_probs), ..self }
    }

    pub fn with_parallel_calls(self, parallel_calls: bool) -> (r: Self)
        ensures
            r == (OpenAIChatModel { parallel_calls, ..self }),
    {
        OpenAIChatModel { parallel_calls, ..self }
    }

    pub fn with_structured_output(self, structured_output: bool) -> (r: Self)
        ensures
            r == (OpenAIChatModel { structured_output, ..self }),
    {
        OpenAIChatModel { structured_output, ..self }
    }

    pub fn with_user(self, user: String) -> (r: Self)
        ensures
            r == (OpenAIChatModel { user: Some(user), ..self }),
    {
        OpenAIChatModel { user: Some(user), ..self }
    }

    pub fn with_download_images(self, download_images: bool) -> (r: Self)
        ensures
            r == (OpenAIChatModel { download_images, ..self }),
    {
        OpenAIChatModel { download_images, ..self }
    }

    pub fn with_reasoning_effort(self, reasoning_effort: OpenAIChatSettingsReasoningEffort) -> (r: Self)
        ensures
            r == (OpenAIChatModel { reasoning_effort, ..self }),
    {
        OpenAIChatModel { reasoning_effort, ..self }
    }
}

/// `STRICT` for the OpenAI API itself, `COMPATIBLE` for third-party providers
/// that do not take the newest request fields.
#[derive(Debug, Clone, Copy, PartialEq, Eq, Structural)]
pub enum OpenAIProviderSettingsCompatibility {
    STRICT,
    COMPATIBLE,
}

pub const OPENAI_DEFAULT_BASE_URL: &'static str = "https://api.openai.com/v1";

/// Connection settings of the OpenAI provider.
#[derive(Debug)]
pub struct OpenAIProviderSettings {
    /// Base URL of the API calls, without a trailing slash.
    pub base_url: String,
    /// Key that authenticates the requests.
    pub api_key: String,
    pub organization_id: Option<String>,
    pub project_id: Option<String>,
    /// Headers added to the requests.
    pub headers: Option<Vec<(String, String)>>,
    pub compatibility: OpenAIProviderSettingsCompatibility,
    /// Provider name; third-party providers override `openai`.
    pub name: String,
}

impl Default for OpenAIProviderSettings {
    fn default() -> (r: Self)
        ensures
            r.base_url@ == OPENAI_DEFAULT_BASE_URL@,
            r.api_key@.len() == 0,
            r.organization_id is None,
            r.project_id is None,
            r.headers is None,
            r.compatibility == OpenAIProviderSettingsCompatibility::STRICT,
            r.name@ == "openai"@,
    {
        OpenAIProviderSettings {
            base_url: OPENAI_DEFAULT_BASE_URL.to_owned(),
            api_key: String::new(),
            organization_id: None,
            project_id: None,
            headers: None,
            compatibility: OpenAIProviderSettingsCompatibility::STRICT,
            name: "openai".to_owned(),
        }
    }
}

impl OpenAIProviderSettings {
    /// Default settings with the given API key.
    pub fn new(api_key: String) -> (r: Self)
        ensures
            r.api_key == api_key,
            r.base_url@ == OPENAI_DEFAULT_BASE_URL@,
            r.organization_id is None,
            r.project_id is None,
            r.headers is None,
            r.compatibility == OpenAIProviderSettingsCompatibility::STRICT,
            r.name@ == "openai"@,
    {
        OpenAIProviderSettings { api_key, ..Default::default() }
    }

    /// Sets the base URL, dropping a trailing slash.
    pub fn base_url(self, base_url: &str) -> (r: Self)
        ensures
            r.base_url@ == strip_trailing_slash(base_url@),
            r.api_key == self.api_key,
            r.organization_id == self.organization_id,
            r.project_id == self.project_id,
            r.headers == self.headers,
            r.compatibility == self.compatibility,
            r.name == self.name,
    {
        OpenAIProviderSettings { base_url: without_trailing_slash(base_url), ..self }
    }

    pub fn organization_id(self, organization_id: String) -> (r: Self)
        ensures
            r == (OpenAIProviderSettings { organization_id: Some(organization_id), ..self }),
    {
        OpenAIProviderSettings { organization_id: Some(organization_id), ..self }
    }

    pub fn project_id(self, project_id: String) -> (r: Self)
        ensures
            r == (OpenAIProviderSettings { project_id: Some(project_id), ..self }),
    {
        OpenAIProviderSettings { project_id: Some(project_id), ..self }
    }

    pub fn headers(self, headers: Vec<(String, String)>) -> (r: Self)
        ensures
            r == (OpenAIProviderSettings { headers: Some(headers), ..self }),
    {
        OpenAIProviderSettings { headers: Some(headers), ..self }
    }

    pub fn compatibility(self, compatibility: OpenAIProviderSettingsCompatibility) -> (r: Self)
        ensures
            r == (OpenAIProviderSettings { compatibility, ..self }),
    {
        OpenAIProviderSettings { compatibility, ..self }
    }

    pub fn name(self, name: &str) -> (r: Self)
        ensures
            r.name@ == name@,
            r.base_url == self.base_url,
            r.api_key == self.api_key,
            r.organization_id == self.organization_id,
            r.project_id == self.project_id,
            r.headers == self.headers,
            r.compatibility == self.compatibility,
    {
        OpenAIProviderSettings { name: name.to_owned(), ..self }
    }
}

/// The OpenAI provider: makes chat models and the headers of their requests.
#[derive(Debug)]
pub struct OpenAIProvider {
    pub settings: OpenAIProviderSettings,
}

/// One request header.
pub open spec fn header_view(h: (String, String)) -> (Seq<char>, Seq<char>) {
    (h.0@, h.1@)
}

/// The headers of every request: the bearer key, the content type, and the
/// organization and project when they are set.
pub open spec fn request_headers(s: OpenAIProviderSettings) -> Seq<(Seq<char>, Seq<char>)> {
    let base = seq![
        ("Authorization"@, "Bearer "@ + s.api_key@),
        ("Content-Type"@, "application/json"@),
    ];
    let with_org = match s.organization_id {
        Some(o) => base.push(("OpenAI-Organization"@, o@)),
        None => base,
    };
    match s.project_id {
        Some(p) => with_org.push(("OpenAI-Project"@, p@)),
        None => with_org,
    }
}

impl OpenAIProvider {
    pub fn new(settings: OpenAIProviderSettings) -> (r: Self)
        ensures
            r.settings == settings,
    {
        OpenAIProvider { settings }
    }

    pub fn default() -> (r: Self)
        ensures
            r.settings.base_url@ == OPENAI_DEFAULT_BASE_URL@,
            r.settings.api_key@.len() == 0,
            r.settings.organization_id is None,
            r.settings.project_id is None,
            r.settings.headers is None,
            r.settings.compatibility == OpenAIProviderSettingsCompatibility::STRICT,
            r.settings.name@ == "openai"@,
    {
        OpenAIProvider { settings: OpenAIProviderSettings::default() }
    }

    /// Chat models are not offered yet: every id is refused as not supported.
    pub fn create_chat_model(&self, model_id: OpenAIChatModelId) -> (r: Result<OpenAIChatModel, ModelError>)
        ensures
            r is Err,
            r->Err_0 is NotSupported,
            r->Err_0->NotSupported_0@ == "OpenAIProvider::create_chat_model is not implemented yet. Model ID: "@
                + model_id_name(model_id),
    {
        let name = model_id.as_string();
        Err(
            ModelError::NotSupported(
                "OpenAIProvider::create_chat_model is not implemented yet. Model ID: ".to_owned().concat(
                    name.as_str(),
                ),
            ),
        )
    }

    /// The chat model of the given id. An empty id is refused; otherwise the
    /// id, without surrounding whitespace, is handed to `create_chat_model`.
    pub fn language_model(&self, model_id: &str) -> (r: Result<OpenAIChatModel, ProviderError>)
        ensures
            model_id@.len() == 0 ==> r is Err && r->Err_0 is InvalidModelId,
            model_id@.len() > 0 ==> {
                &&& r is Err
                &&& r->Err_0 is ModelError
                &&& r->Err_0->ModelError_0 is NotSupported
                &&& r->Err_0->ModelError_0->NotSupported_0@
                    == "OpenAIProvider::create_chat_model is not implemented yet. Model ID: "@ + trimmed(model_id@)
            },
    {
        if model_id.unicode_len() == 0 {
            return Err(ProviderError::InvalidModelId("Provided an empty OpenAI model id".to_owned()));
        }
        let trimmed = trim_whitespace(model_id);
        let id = OpenAIChatModelId::parse(trimmed);
        match self.create_chat_model(id) {
            Ok(m) => Ok(m),
            Err(e) => Err(ProviderError::ModelError(e)),
        }
    }

    /// The headers of every request to the API.
    pub fn get_headers(&self) -> (r: Result<Vec<(String, String)>, ProviderError>)
        ensures
            r is Ok,
            r->Ok_0@.map_values(|h: (String, String)| header_view(h)) == request_headers(self.settings),
    {
        let mut headers: Vec<(String, String)> = Vec::new();
        headers.push(("Authorization".to_owned(), "Bearer ".to_owned().concat(self.settings.api_key.as_str())));
        headers.push(("Content-Type".to_owned(), "application/json".to_owned()));
        match &self.settings.organization_id {
            Some(org_id) => headers.push(("OpenAI-Organization".to_owned(), org_id.clone())),
            None => {},
        }
        match &self.settings.project_id {
            Some(project_id) => headers.push(("OpenAI-Project".to_owned(), project_id.clone())),
            None => {},
        }
        proof {
            assert(headers@.map_values(|h: (String, String)| header_view(h)) =~= request_headers(self.settings));
        }
        Ok(headers)
    }
}

} // verus!
