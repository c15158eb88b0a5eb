//! LLM provider names and the model name each provider is sent.

use vstd::prelude::*;
use crate::text;

verus! {

/// The LLM providers the engine knows.
#[derive(Debug, Clone, Copy, PartialEq, Eq, Structural)]
pub enum ApiProvider {
    Deepseek,
    DeepseekCN,
    NvidiaNim,
    Openai,
    Atlascloud,
    WanjieArk,
    Volcengine,
    Openrouter,
    XiaomiMimo,
    Novita,
    Fireworks,
    Siliconflow,
    SiliconflowCn,
    Arcee,
    Moonshot,
    Sglang,
    Vllm,
    Ollama,
    Huggingface,
}

/// The provider a (trimmed, ASCII-lowercased) name or alias denotes.
pub open spec fn provider_for_key(k: Seq<char>) -> Option<ApiProvider> {
    if k == "deepseek"@ || k == "deep-seek"@ {
        Some(ApiProvider::Deepseek)
    } else if k == "easybits"@ || k == "easy-bits"@ || k == "easy_bits"@ || k == "eb"@ {
        Some(ApiProvider::Deepseek)
    } else if k == "deepseek-cn"@ || k == "deepseek_china"@ || k == "deepseekcn"@ || k == "deepseek-china"@ {
        Some(ApiProvider::DeepseekCN)
    } else if k == "nvidia"@ || k == "nvidia-nim"@ || k == "nvidia_nim"@ || k == "nim"@ {
        Some(ApiProvider::NvidiaNim)
    } else if k == "openai"@ || k == "open-ai"@ {
        Some(ApiProvider::Openai)
    } else if k == "atlascloud"@ || k == "atlas-cloud"@ || k == "atlas_cloud"@ || k == "atlas"@ {
        Some(ApiProvider::Atlascloud)
    } else if k == "wanjie"@ || k == "wanjie-ark"@ || k == "wanjie_ark"@ || k == "ark-wanjie"@ || k == "ark_wanjie"@ || k == "wanjieark"@ || k == "wanjie-maas"@ || k == "wanjie_maas"@ || k == "wanjiemaas"@ {
        Some(ApiProvider::WanjieArk)
    } else if k == "volcengine"@ || k == "volcengine-ark"@ || k == "volcengine_ark"@ || k == "ark"@ || k == "volc-ark"@ || k == "volcengineark"@ {
        Some(ApiProvider::Volcengine)
    } else if k == "openrouter"@ || k == "open_router"@ {
        Some(ApiProvider::Openrouter)
    } else if k == "xiaomi-mimo"@ || k == "xiaomi_mimo"@ || k == "xiaomimimo"@ || k == "mimo"@ || k == "xiaomi"@ {
        Some(ApiProvider::XiaomiMimo)
    } else if k == "novita"@ {
        Some(ApiProvider::Novita)
    } else if k == "fireworks"@ || k == "fireworks-ai"@ {
        Some(ApiProvider::Fireworks)
    } else if k == "siliconflow"@ || k == "silicon-flow"@ || k == "silicon_flow"@ {
        Some(ApiProvider::Siliconflow)
    } else if k == "siliconflow-cn"@ || k == "siliconflow-CN"@ || k == "silicon-flow-cn"@ || k == "silicon-flow-CN"@ || k == "silicon_flow_cn"@ || k == "silicon_flow_CN"@ || k == "siliconflow-china"@ {
        Some(ApiProvider::SiliconflowCn)
    } else if k == "arcee"@ || k == "arcee-ai"@ || k == "arcee_ai"@ {
        Some(ApiProvider::Arcee)
    } else if k == "moonshot"@ || k == "moonshot-ai"@ || k == "kimi"@ || k == "kimi-k2"@ {
        Some(ApiProvider::Moonshot)
    } else if k == "sglang"@ || k == "sg-lang"@ {
        Some(ApiProvider::Sglang)
    } else if k == "vllm"@ || k == "v-llm"@ {
        Some(ApiProvider::Vllm)
    } else if k == "ollama"@ || k == "ollama-local"@ {
        Some(ApiProvider::Ollama)
    } else if k == "huggingface"@ || k == "hugging-face"@ || k == "hugging_face"@ || k == "hf"@ {
        Some(ApiProvider::Huggingface)
    } else {
        None
    }
}

/// What `ApiProvider::parse` gives for `s`.
pub open spec fn parse_provider(s: Seq<char>) -> Option<ApiProvider> {
    provider_for_key(text::lower(text::trim(s)))
}

fn provider_for_chars(k: &Vec<char>) -> (r: Option<ApiProvider>)
    ensures
        r == provider_for_key(k@),
{
    if text::vec_eq_str(k, "deepseek") || text::vec_eq_str(k, "deep-seek") {
        Some(ApiProvider::Deepseek)
    } else if text::vec_eq_str(k, "easybits") || text::vec_eq_str(k, "easy-bits") || text::vec_eq_str(k, "easy_bits") || text::vec_eq_str(k, "eb") {
        Some(ApiProvider::Deepseek)
    } else if text::vec_eq_str(k, "deepseek-cn") || text::vec_eq_str(k, "deepseek_china") || text::vec_eq_str(k, "deepseekcn") || text::vec_eq_str(k, "deepseek-china") {
        Some(ApiProvider::DeepseekCN)
    } else if text::vec_eq_str(k, "nvidia") || text::vec_eq_str(k, "nvidia-nim") || text::vec_eq_str(k, "nvidia_nim") || text::vec_eq_str(k, "nim") {
        Some(ApiProvider::NvidiaNim)
    } else if text::vec_eq_str(k, "openai") || text::vec_eq_str(k, "open-ai") {
        Some(ApiProvider::Openai)
    } else if text::vec_eq_str(k, "atlascloud") || text::vec_eq_str(k, "atlas-cloud") || text::vec_eq_str(k, "atlas_cloud") || text::vec_eq_str(k, "atlas") {
        Some(ApiProvider::Atlascloud)
    } else if text::vec_eq_str(k, "wanjie") || text::vec_eq_str(k, "wanjie-ark") || text::vec_eq_str(k, "wanjie_ark") || text::vec_eq_str(k, "ark-wanjie") || text::vec_eq_str(k, "ark_wanjie") || text::vec_eq_str(k, "wanjieark") || text::vec_eq_str(k, "wanjie-maas") || text::vec_eq_str(k, "wanjie_maas") || text::vec_eq_str(k, "wanjiemaas") {
        Some(ApiProvider::WanjieArk)
    } else if text::vec_eq_str(k, "volcengine") || text::vec_eq_str(k, "volcengine-ark") || text::vec_eq_str(k, "volcengine_ark") || text::vec_eq_str(k, "ark") || text::vec_eq_str(k, "volc-ark") || text::vec_eq_str(k, "volcengineark") {
        Some(ApiProvider::Volcengine)
    } else if text::vec_eq_str(k, "openrouter") || text::vec_eq_str(k, "open_router") {
        Some(ApiProvider::Openrouter)
    } else if text::vec_eq_str(k, "xiaomi-mimo") || text::vec_eq_str(k, "xiaomi_mimo") || text::vec_eq_str(k, "xiaomimimo") || text::vec_eq_str(k, "mimo") || text::vec_eq_str(k, "xiaomi") {
        Some(ApiProvider::XiaomiMimo)
    } else if text::vec_eq_str(k, "novita") {
        Some(ApiProvider::Novita)
    } else if text::vec_eq_str(k, "fireworks") || text::vec_eq_str(k, "fireworks-ai") {
        Some(ApiProvider::Fireworks)
    } else if text::vec_eq_str(k, "siliconflow") || text::vec_eq_str(k, "silicon-flow") || text::vec_eq_str(k, "silicon_flow") {
        Some(ApiProvider::Siliconflow)
    } else if text::vec_eq_str(k, "siliconflow-cn") || text::vec_eq_str(k, "siliconflow-CN") || text::vec_eq_str(k, "silicon-flow-cn") || text::vec_eq_str(k, "silicon-flow-CN") || text::vec_eq_str(k, "silicon_flow_cn") || text::vec_eq_str(k, "silicon_flow_CN") || text::vec_eq_str(k, "siliconflow-china") {
        Some(ApiProvider::SiliconflowCn)
    } else if text::vec_eq_str(k, "arcee") || text::vec_eq_str(k, "arcee-ai") || text::vec_eq_str(k, "arcee_ai") {
        Some(ApiProvider::Arcee)
    } else if text::vec_eq_str(k, "moonshot") || text::vec_eq_str(k, "moonshot-ai") || text::vec_eq_str(k, "kimi") || text::vec_eq_str(k, "kimi-k2") {
        Some(ApiProvider::Moonshot)
    } else if text::vec_eq_str(k, "sglang") || text::vec_eq_str(k, "sg-lang") {
        Some(ApiProvider::Sglang)
    } else if text::vec_eq_str(k, "vllm") || text::vec_eq_str(k, "v-llm") {
        Some(ApiProvider::Vllm)
    } else if text::vec_eq_str(k, "ollama") || text::vec_eq_str(k, "ollama-local") {
        Some(ApiProvider::Ollama)
    } else if text::vec_eq_str(k, "huggingface") || text::vec_eq_str(k, "hugging-face") || text::vec_eq_str(k, "hugging_face") || text::vec_eq_str(k, "hf") {
        Some(ApiProvider::Huggingface)
    } else {
        None
    }
}

/// The canonical name of each provider.
pub open spec fn provider_name(p: ApiProvider) -> Seq<char> {
    match p {
        ApiProvider::Deepseek => "deepseek"@,
        ApiProvider::DeepseekCN => "deepseek-cn"@,
        ApiProvider::NvidiaNim => "nvidia-nim"@,
        ApiProvider::Openai => "openai"@,
        ApiProvider::Atlascloud => "atlascloud"@,
        ApiProvider::WanjieArk => "wanjie-ark"@,
        ApiProvider::Volcengine => "volcengine"@,
        ApiProvider::Openrouter => "openrouter"@,
        ApiProvider::XiaomiMimo => "xiaomi-mimo"@,
        ApiProvider::Novita => "novita"@,
        ApiProvider::Fireworks => "fireworks"@,
        ApiProvider::Siliconflow => "siliconflow"@,
        ApiProvider::SiliconflowCn => "siliconflow-CN"@,
        ApiProvider::Arcee => "arcee"@,
        ApiProvider::Moonshot => "moonshot"@,
        ApiProvider::Sglang => "sglang"@,
        ApiProvider::Vllm => "vllm"@,
        ApiProvider::Ollama => "ollama"@,
        ApiProvider::Huggingface => "huggingface"@,
    }
}

/// The label shown in pickers and status chips.
pub open spec fn provider_label(p: ApiProvider) -> Seq<char> {
    match p {
        ApiProvider::Deepseek => "DeepSeek"@,
        ApiProvider::DeepseekCN => "DeepSeek (legacy alias)"@,
        ApiProvider::NvidiaNim => "NVIDIA NIM"@,
        ApiProvider::Openai => "OpenAI-compatible"@,
        ApiProvider::Atlascloud => "AtlasCloud"@,
        ApiProvider::WanjieArk => "Wanjie Ark"@,
        ApiProvider::Volcengine => "Volcengine Ark"@,
        ApiProvider::Openrouter => "OpenRouter"@,
        ApiProvider::XiaomiMimo => "Xiaomi MiMo"@,
        ApiProvider::Novita => "Novita AI"@,
        ApiProvider::Fireworks => "Fireworks AI"@,
        ApiProvider::Siliconflow => "SiliconFlow"@,
        ApiProvider::SiliconflowCn => "SiliconFlow (China)"@,
        ApiProvider::Arcee => "Arcee AI"@,
        ApiProvider::Moonshot => "Moonshot/Kimi"@,
        ApiProvider::Sglang => "SGLang"@,
        ApiProvider::Vllm => "vLLM"@,
        ApiProvider::Ollama => "Ollama"@,
        ApiProvider::Huggingface => "Hugging Face"@,
    }
}

/// Every provider, in declaration order.
pub open spec fn all_providers() -> Seq<ApiProvider> {
    seq![
        ApiProvider::Deepseek,
        ApiProvider::DeepseekCN,
        ApiProvider::NvidiaNim,
        ApiProvider::Openai,
        ApiProvider::Atlascloud,
        ApiProvider::WanjieArk,
        ApiProvider::Volcengine,
        ApiProvider::Openrouter,
        ApiProvider::XiaomiMimo,
        ApiProvider::Novita,
        ApiProvider::Fireworks,
        ApiProvider::Siliconflow,
        ApiProvider::SiliconflowCn,
        ApiProvider::Arcee,
        ApiProvider::Moonshot,
        ApiProvider::Sglang,
        ApiProvider::Vllm,
        ApiProvider::Ollama,
        ApiProvider::Huggingface,
    ]
}

impl ApiProvider {
    /// Reads a provider name or alias (surrounding white space and ASCII case
    /// are ignored); `None` for an unknown name.
    pub fn parse(value: &str) -> (r: Option<Self>)
        ensures
            r == parse_provider(value@),
    {
        let v = text::chars_of(value);
        let t = text::trim_vec(&v);
        let k = text::lower_vec(&t);
        provider_for_chars(&k)
    }

    /// The provider's canonical name.
    pub fn as_str(self) -> (r: &'static str)
        ensures
            r@ == provider_name(self),
    {
        match self {
            ApiProvider::Deepseek => "deepseek",
            ApiProvider::DeepseekCN => "deepseek-cn",
            ApiProvider::NvidiaNim => "nvidia-nim",
            ApiProvider::Openai => "openai",
            ApiProvider::Atlascloud => "atlascloud",
            ApiProvider::WanjieArk => "wanjie-ark",
            ApiProvider::Volcengine => "volcengine",
            ApiProvider::Openrouter => "openrouter",
            ApiProvider::XiaomiMimo => "xiaomi-mimo",
            ApiProvider::Novita => "novita",
            ApiProvider::Fireworks => "fireworks",
            ApiProvider::Siliconflow => "siliconflow",
            ApiProvider::SiliconflowCn => "siliconflow-CN",
            ApiProvider::Arcee => "arcee",
            ApiProvider::Moonshot => "moonshot",
            ApiProvider::Sglang => "sglang",
            ApiProvider::Vllm => "vllm",
            ApiProvider::Ollama => "ollama",
            ApiProvider::Huggingface => "huggingface",
        }
    }

    /// Human-friendly label for picker UIs / status chips.
    pub fn display_name(self) -> (r: &'static str)
        ensures
            r@ == provider_label(self),
    {
        match self {
            ApiProvider::Deepseek => "DeepSeek",
            ApiProvider::DeepseekCN => "DeepSeek (legacy alias)",
            ApiProvider::NvidiaNim => "NVIDIA NIM",
            ApiProvider::Openai => "OpenAI-compatible",
            ApiProvider::Atlascloud => "AtlasCloud",
            ApiProvider::WanjieArk => "Wanjie Ark",
            ApiProvider::Volcengine => "Volcengine Ark",
            ApiProvider::Openrouter => "OpenRouter",
            ApiProvider::XiaomiMimo => "Xiaomi MiMo",
            ApiProvider::Novita => "Novita AI",
            ApiProvider::Fireworks => "Fireworks AI",
            ApiProvider::Siliconflow => "SiliconFlow",
            ApiProvider::SiliconflowCn => "SiliconFlow (China)",
            ApiProvider::Arcee => "Arcee AI",
            ApiProvider::Moonshot => "Moonshot/Kimi",
            ApiProvider::Sglang => "SGLang",
            ApiProvider::Vllm => "vLLM",
            ApiProvider::Ollama => "Ollama",
            ApiProvider::Huggingface => "Hugging Face",
        }
    }

    /// All providers, in declaration order.
    pub fn all() -> (r: &'static [Self])
        ensures
            r@ == all_providers(),
    {
        let a: &'static [Self] = &[
            ApiProvider::Deepseek,
            ApiProvider::DeepseekCN,
            ApiProvider::NvidiaNim,
            ApiProvider::Openai,
            ApiProvider::Atlascloud,
            ApiProvider::WanjieArk,
            ApiProvider::Volcengine,
            ApiProvider::Openrouter,
            ApiProvider::XiaomiMimo,
            ApiProvider::Novita,
            ApiProvider::Fireworks,
            ApiProvider::Siliconflow,
            ApiProvider::SiliconflowCn,
            ApiProvider::Arcee,
            ApiProvider::Moonshot,
            ApiProvider::Sglang,
            ApiProvider::Vllm,
            ApiProvider::Ollama,
            ApiProvider::Huggingface,
        ];
        assert(a@ =~= all_providers());
        a
    }
}

/// Providers that receive the model name unchanged.
pub open spec fn passes_model_through(p: ApiProvider) -> bool {
    match p {
        ApiProvider::Openai | ApiProvider::Atlascloud | ApiProvider::WanjieArk
        | ApiProvider::Volcengine | ApiProvider::XiaomiMimo | ApiProvider::Moonshot
        | ApiProvider::Ollama | ApiProvider::Huggingface => true,
        _ => false,
    }
}

pub fn provider_passes_model_through(provider: ApiProvider) -> (r: bool)
    ensures
        r == passes_model_through(provider),
{
    match provider {
        ApiProvider::Openai | ApiProvider::Atlascloud | ApiProvider::WanjieArk
        | ApiProvider::Volcengine | ApiProvider::XiaomiMimo | ApiProvider::Moonshot
        | ApiProvider::Ollama | ApiProvider::Huggingface => true,
        _ => false,
    }
}

/// The official DeepSeek model id a name denotes (white space and ASCII case
/// ignored, vendor prefixes and compact spellings accepted).
pub open spec fn canonical_deepseek_id(model: Seq<char>) -> Option<Seq<char>> {
    let k = text::lower(text::trim(model));
    if k == "deepseek-v4-pro"@ || k == "deepseek-v4pro"@ || k == "deepseek-ai/deepseek-v4-pro"@ || k == "deepseek-ai/deepseek-v4pro"@ || k == "deepseek/deepseek-v4-pro"@ || k == "deepseek/deepseek-v4pro"@ {
        Some("deepseek-v4-pro"@)
    } else if k == "deepseek-v4-flash"@ || k == "deepseek-v4flash"@ || k == "deepseek-ai/deepseek-v4-flash"@ || k == "deepseek-ai/deepseek-v4flash"@ || k == "deepseek/deepseek-v4-flash"@ || k == "deepseek/deepseek-v4flash"@ {
        Some("deepseek-v4-flash"@)
    } else {
        None
    }
}

fn canonical_official_deepseek_model_id(model: &Vec<char>) -> (r: Option<&'static str>)
    ensures
        match r {
            Some(c) => canonical_deepseek_id(model@) == Some(c@),
            None => canonical_deepseek_id(model@) is None,
        },
{
    let t = text::trim_vec(model);
    let k = text::lower_vec(&t);
    if text::vec_eq_str(&k, "deepseek-v4-pro") || text::vec_eq_str(&k, "deepseek-v4pro") || text::vec_eq_str(&k, "deepseek-ai/deepseek-v4-pro") || text::vec_eq_str(&k, "deepseek-ai/deepseek-v4pro") || text::vec_eq_str(&k, "deepseek/deepseek-v4-pro") || text::vec_eq_str(&k, "deepseek/deepseek-v4pro") {
        Some("deepseek-v4-pro")
    } else if text::vec_eq_str(&k, "deepseek-v4-flash") || text::vec_eq_str(&k, "deepseek-v4flash") || text::vec_eq_str(&k, "deepseek-ai/deepseek-v4-flash") || text::vec_eq_str(&k, "deepseek-ai/deepseek-v4flash") || text::vec_eq_str(&k, "deepseek/deepseek-v4-flash") || text::vec_eq_str(&k, "deepseek/deepseek-v4flash") {
        Some("deepseek-v4-flash")
    } else {
        None
    }
}

/// `str::eq_ignore_ascii_case`.
pub open spec fn eq_ignore_ascii_case(a: Seq<char>, b: Seq<char>) -> bool {
    a.len() == b.len() && text::lower(a) == text::lower(b)
}

/// The model name sent on the wire to `p` for the configured name `model`.
pub open spec fn wire_model(p: ApiProvider, model: Seq<char>) -> Seq<char> {
    let t = text::trim(model);
    if t.len() == 0 || passes_model_through(p) {
        t
    } else {
        match canonical_deepseek_id(t) {
            Some(c) => if eq_ignore_ascii_case(c, t) {
                t
            } else {
                c
            },
            None => t,
        }
    }
}

pub(crate) fn eq_ignore_case_vec(a: &Vec<char>, b: &Vec<char>) -> (r: bool)
    ensures
        r == eq_ignore_ascii_case(a@, b@),
{
    if a.len() != b.len() {
        return false;
    }
    let mut i: usize = 0;
    while i < a.len()
        invariant
            a@.len() == b@.len(),
            i <= a@.len(),
            forall|j: int| 0 <= j < i ==> text::lower_char(a@[j]) == text::lower_char(b@[j]),
        decreases a@.len() - i,
    {
        if text::to_lower_char(a[i]) != text::to_lower_char(b[i]) {
            assert(text::lower(a@)[i as int] != text::lower(b@)[i as int]);
            return false;
        }
        i = i + 1;
    }
    assert(text::lower(a@) =~= text::lower(b@));
    true
}

/// Resolves the model name a provider is sent: pass-through providers get the
/// trimmed name; otherwise the official DeepSeek ids are canonicalized, keeping
/// the caller's spelling when it differs from the canonical id only in case.
pub fn wire_model_for_provider(provider: ApiProvider, model: &str) -> (r: String)
    ensures
        r@ == wire_model(provider, model@),
{
    let v = text::chars_of(model);
    let t = text::trim_vec(&v);
    if t.len() == 0 || provider_passes_model_through(provider) {
        return text::string_of(&t);
    }
    match canonical_official_deepseek_model_id(&t) {
        Some(c) => {
            let cv = text::chars_of(c);
            if eq_ignore_case_vec(&cv, &t) {
                text::string_of(&t)
            } else {
                text::string_of(&cv)
            }
        },
        None => text::string_of(&t),
    }
}

/// Connection settings for one provider.
#[derive(Debug, Clone)]
pub struct ProviderConfig {
    pub path_suffix: Option<String>,
}

impl Default for ProviderConfig {
    fn default() -> (r: Self)
        ensures
            r.path_suffix is None,
    {
        ProviderConfig { path_suffix: None }
    }
}


proof fn lemma_parse_name_deepseek()
    ensures
        parse_provider(provider_name(ApiProvider::Deepseek)) == Some(ApiProvider::Deepseek),
{
    reveal_strlit("deepseek");
    reveal_strlit("deep-seek");
    let n = provider_name(ApiProvider::Deepseek);
    text::lemma_trim_fixed(n);
    assert(text::lower(text::trim(n)) =~= "deepseek"@);
}

proof fn lemma_parse_name_deepseek_c_n()
    ensures
        parse_provider(provider_name(ApiProvider::DeepseekCN)) == Some(ApiProvider::DeepseekCN),
{
    reveal_strlit("deepseek-cn");
    reveal_strlit("deepseek");
    reveal_strlit("deep-seek");
    reveal_strlit("easybits");
    reveal_strlit("easy-bits");
    reveal_strlit("easy_bits");
    reveal_strlit("eb");
    reveal_strlit("deepseek_china");
    reveal_strlit("deepseekcn");
    reveal_strlit("deepseek-china");
    let n = provider_name(ApiProvider::DeepseekCN);
    text::lemma_trim_fixed(n);
    assert(text::lower(text::trim(n)) =~= "deepseek-cn"@);
}

proof fn lemma_parse_name_nvidia_nim()
    ensures
        parse_provider(provider_name(ApiProvider::NvidiaNim)) == Some(ApiProvider::NvidiaNim),
{
    reveal_strlit("nvidia-nim");
    reveal_strlit("deepseek");
    reveal_strlit("deep-seek");
    reveal_strlit("easybits");
    reveal_strlit("easy-bits");
    reveal_strlit("easy_bits");
    reveal_strlit("eb");
    reveal_strlit("deepseek-cn");
    reveal_strlit("deepseek_china");
    reveal_strlit("deepseekcn");
    reveal_strlit("deepseek-china");
    reveal_strlit("nvidia");
    reveal_strlit("nvidia_nim");
    reveal_strlit("nim");
    let n = provider_name(ApiProvider::NvidiaNim);
    text::lemma_trim_fixed(n);
    assert(text::lower(text::trim(n)) =~= "nvidia-nim"@);
    assert("nvidia-nim"@[0] != "deepseekcn"@[0]);
}

proof fn lemma_parse_name_openai()
    ensures
        parse_provider(provider_name(ApiProvider::Openai)) == Some(ApiProvider::Openai),
{
    reveal_strlit("openai");
    reveal_strlit("deepseek");
    reveal_strlit("deep-seek");
    reveal_strlit("easybits");
    reveal_strlit("easy-bits");
    reveal_strlit("easy_bits");
    reveal_strlit("eb");
    reveal_strlit("deepseek-cn");
    reveal_strlit("deepseek_china");
    reveal_strlit("deepseekcn");
    reveal_strlit("deepseek-china");
    reveal_strlit("nvidia");
    reveal_strlit("nvidia-nim");
    reveal_strlit("nvidia_nim");
    reveal_strlit("nim");
    reveal_strlit("open-ai");
    let n = provider_name(ApiProvider::Openai);
    text::lemma_trim_fixed(n);
    assert(text::lower(text::trim(n)) =~= "openai"@);
    assert("openai"@[0] != "nvidia"@[0]);
}

proof fn lemma_parse_name_atlascloud()
    ensures
        parse_provider(provider_name(ApiProvider::Atlascloud)) == Some(ApiProvider::Atlascloud),
{
    reveal_strlit("atlascloud");
    reveal_strlit("deepseek");
    reveal_strlit("deep-seek");
    reveal_strlit("easybits");
    reveal_strlit("easy-bits");
    reveal_strlit("easy_bits");
    reveal_strlit("eb");
    reveal_strlit("deepseek-cn");
    reveal_strlit("deepseek_china");
    reveal_strlit("deepseekcn");
    reveal_strlit("deepseek-china");
    reveal_strlit("nvidia");
    reveal_strlit("nvidia-nim");
    reveal_strlit("nvidia_nim");
    reveal_strlit("nim");
    reveal_strlit("openai");
    reveal_strlit("open-ai");
    reveal_strlit("atlas-cloud");
    reveal_strlit("atlas_cloud");
    reveal_strlit("atlas");
    let n = provider_name(ApiProvider::Atlascloud);
    text::lemma_trim_fixed(n);
    assert(text::lower(text::trim(n)) =~= "atlascloud"@);
    assert("atlascloud"@[0] != "deepseekcn"@[0]);
    assert("atlascloud"@[0] != "nvidia-nim"@[0]);
    assert("atlascloud"@[0] != "nvidia_nim"@[0]);
}

proof fn lemma_parse_name_wanjie_ark()
    ensures
        parse_provider(provider_name(ApiProvider::WanjieArk)) == Some(ApiProvider::WanjieArk),
{
    reveal_strlit("wanjie-ark");
    reveal_strlit("deepseek");
    reveal_strlit("deep-seek");
    reveal_strlit("easybits");
    reveal_strlit("easy-bits");
    reveal_strlit("easy_bits");
    reveal_strlit("eb");
    reveal_strlit("deepseek-cn");
    reveal_strlit("deepseek_china");
    reveal_strlit("deepseekcn");
    reveal_strlit("deepseek-china");
    reveal_strlit("nvidia");
    reveal_strlit("nvidia-nim");
    reveal_strlit("nvidia_nim");
    reveal_strlit("nim");
    reveal_strlit("openai");
    reveal_strlit("open-ai");
    reveal_strlit("atlascloud");
    reveal_strlit("atlas-cloud");
    reveal_strlit("atlas_cloud");
    reveal_strlit("atlas");
    reveal_strlit("wanjie");
    reveal_strlit("wanjie_ark");
    reveal_strlit("ark-wanjie");
    reveal_strlit("ark_wanjie");
    reveal_strlit("wanjieark");
    reveal_strlit("wanjie-maas");
    reveal_strlit("wanjie_maas");
    reveal_strlit("wanjiemaas");
    let n = provider_name(ApiProvider::WanjieArk);
    text::lemma_trim_fixed(n);
    assert(text::lower(text::trim(n)) =~= "wanjie-ark"@);
    assert("wanjie-ark"@[0] != "deepseekcn"@[0]);
    assert("wanjie-ark"@[0] != "nvidia-nim"@[0]);
    assert("wanjie-ark"@[0] != "nvidia_nim"@[0]);
    assert("wanjie-ark"@[0] != "atlascloud"@[0]);
}

proof fn lemma_parse_name_volcengine()
    ensures
        parse_provider(provider_name(ApiProvider::Volcengine)) == Some(ApiProvider::Volcengine),
{
    reveal_strlit("volcengine");
    reveal_strlit("deepseek");
    reveal_strlit("deep-seek");
    reveal_strlit("easybits");
    reveal_strlit("easy-bits");
    reveal_strlit("easy_bits");
    reveal_strlit("eb");
    reveal_strlit("deepseek-cn");
    reveal_strlit("deepseek_china");
    reveal_strlit("deepseekcn");
    reveal_strlit("deepseek-china");
    reveal_strlit("nvidia");
    reveal_strlit("nvidia-nim");
    reveal_strlit("nvidia_nim");
    reveal_strlit("nim");
    reveal_strlit("openai");
    reveal_strlit("open-ai");
    reveal_strlit("atlascloud");
    reveal_strlit("atlas-cloud");
    reveal_strlit("atlas_cloud");
    reveal_strlit("atlas");
    reveal_strlit("wanjie");
    reveal_strlit("wanjie-ark");
    reveal_strlit("wanjie_ark");
    reveal_strlit("ark-wanjie");
    reveal_strlit("ark_wanjie");
    reveal_strlit("wanjieark");
    reveal_strlit("wanjie-maas");
    reveal_strlit("wanjie_maas");
    reveal_strlit("wanjiemaas");
    reveal_strlit("volcengine-ark");
    reveal_strlit("volcengine_ark");
    reveal_strlit("ark");
    reveal_strlit("volc-ark");
    reveal_strlit("volcengineark");
    let n = provider_name(ApiProvider::Volcengine);
    text::lemma_trim_fixed(n);
    assert(text::lower(text::trim(n)) =~= "volcengine"@);
    assert("volcengine"@[0] != "deepseekcn"@[0]);
    assert("volcengine"@[0] != "nvidia-nim"@[0]);
    assert("volcengine"@[0] != "nvidia_nim"@[0]);
    assert("volcengine"@[0] != "atlascloud"@[0]);
    assert("volcengine"@[0] != "wanjie-ark"@[0]);
    assert("volcengine"@[0] != "wanjie_ark"@[0]);
    assert("volcengine"@[0] != "ark-wanjie"@[0]);
    assert("volcengine"@[0] != "ark_wanjie"@[0]);
    assert("volcengine"@[0] != "wanjiemaas"@[0]);
}

proof fn lemma_parse_name_openrouter()
    ensures
        parse_provider(provider_name(ApiProvider::Openrouter)) == Some(ApiProvider::Openrouter),
{
    reveal_strlit("openrouter");
    reveal_strlit("deepseek");
    reveal_strlit("deep-seek");
    reveal_strlit("easybits");
    reveal_strlit("easy-bits");
    reveal_strlit("easy_bits");
    reveal_strlit("eb");
    reveal_strlit("deepseek-cn");
    reveal_strlit("deepseek_china");
    reveal_strlit("deepseekcn");
    reveal_strlit("deepseek-china");
    reveal_strlit("nvidia");
    reveal_strlit("nvidia-nim");
    reveal_strlit("nvidia_nim");
    reveal_strlit("nim");
    reveal_strlit("openai");
    reveal_strlit("open-ai");
    reveal_strlit("atlascloud");
    reveal_strlit("atlas-cloud");
    reveal_strlit("atlas_cloud");
    reveal_strlit("atlas");
    reveal_strlit("wanjie");
    reveal_strlit("wanjie-ark");
    reveal_strlit("wanjie_ark");
    reveal_strlit("ark-wanjie");
    reveal_strlit("ark_wanjie");
    reveal_strlit("wanjieark");
    reveal_strlit("wanjie-maas");
    reveal_strlit("wanjie_maas");
    reveal_strlit("wanjiemaas");
    reveal_strlit("volcengine");
    reveal_strlit("volcengine-ark");
    reveal_strlit("volcengine_ark");
    reveal_strlit("ark");
    reveal_strlit("volc-ark");
    reveal_strlit("volcengineark");
    reveal_strlit("open_router");
    let n = provider_name(ApiProvider::Openrouter);
    text::lemma_trim_fixed(n);
    assert(text::lower(text::trim(n)) =~= "openrouter"@);
    assert("openrouter"@[0] != "deepseekcn"@[0]);
    assert("openrouter"@[0] != "nvidia-nim"@[0]);
    assert("openrouter"@[0] != "nvidia_nim"@[0]);
    assert("openrouter"@[0] != "atlascloud"@[0]);
    assert("openrouter"@[0] != "wanjie-ark"@[0]);
    assert("openrouter"@[0] != "wanjie_ark"@[0]);
    assert("openrouter"@[0] != "ark-wanjie"@[0]);
    assert("openrouter"@[0] != "ark_wanjie"@[0]);
    assert("openrouter"@[0] != "wanjiemaas"@[0]);
    assert("openrouter"@[0] != "volcengine"@[0]);
}

proof fn lemma_parse_name_xiaomi_mimo()
    ensures
        parse_provider(provider_name(ApiProvider::XiaomiMimo)) == Some(ApiProvider::XiaomiMimo),
{
    reveal_strlit("xiaomi-mimo");
    reveal_strlit("deepseek");
    reveal_strlit("deep-seek");
    reveal_strlit("easybits");
    reveal_strlit("easy-bits");
    reveal_strlit("easy_bits");
    reveal_strlit("eb");
    reveal_strlit("deepseek-cn");
    reveal_strlit("deepseek_china");
    reveal_strlit("deepseekcn");
    reveal_strlit("deepseek-china");
    reveal_strlit("nvidia");
    reveal_strlit("nvidia-nim");
    reveal_strlit("nvidia_nim");
    reveal_strlit("nim");
    reveal_strlit("openai");
    reveal_strlit("open-ai");
    reveal_strlit("atlascloud");
    reveal_strlit("atlas-cloud");
    reveal_strlit("atlas_cloud");
    reveal_strlit("atlas");
    reveal_strlit("wanjie");
    reveal_strlit("wanjie-ark");
    reveal_strlit("wanjie_ark");
    reveal_strlit("ark-wanjie");
    reveal_strlit("ark_wanjie");
    reveal_strlit("wanjieark");
    reveal_strlit("wanjie-maas");
    reveal_strlit("wanjie_maas");
    reveal_strlit("wanjiemaas");
    reveal_strlit("volcengine");
    reveal_strlit("volcengine-ark");
    reveal_strlit("volcengine_ark");
    reveal_strlit("ark");
    reveal_strlit("volc-ark");
    reveal_strlit("volcengineark");
    reveal_strlit("openrouter");
    reveal_strlit("open_router");
    reveal_strlit("xiaomi_mimo");
    reveal_strlit("xiaomimimo");
    reveal_strlit("mimo");
    reveal_strlit("xiaomi");
    let n = provider_name(ApiProvider::XiaomiMimo);
    text::lemma_trim_fixed(n);
    assert(text::lower(text::trim(n)) =~= "xiaomi-mimo"@);
    assert("xiaomi-mimo"@[0] != "deepseek-cn"@[0]);
    assert("xiaomi-mimo"@[0] != "atlas-cloud"@[0]);
    assert("xiaomi-mimo"@[0] != "atlas_cloud"@[0]);
    assert("xiaomi-mimo"@[0] != "wanjie-maas"@[0]);
    assert("xiaomi-mimo"@[0] != "wanjie_maas"@[0]);
    assert("xiaomi-mimo"@[0] != "open_router"@[0]);
}

proof fn lemma_parse_name_novita()
    ensures
        parse_provider(provider_name(ApiProvider::Novita)) == Some(ApiProvider::Novita),
{
    reveal_strlit("novita");
    reveal_strlit("deepseek");
    reveal_strlit("deep-seek");
    reveal_strlit("easybits");
    reveal_strlit("easy-bits");
    reveal_strlit("easy_bits");
    reveal_strlit("eb");
    reveal_strlit("deepseek-cn");
    reveal_strlit("deepseek_china");
    reveal_strlit("deepseekcn");
    reveal_strlit("deepseek-china");
    reveal_strlit("nvidia");
    reveal_strlit("nvidia-nim");
    reveal_strlit("nvidia_nim");
    reveal_strlit("nim");
    reveal_strlit("openai");
    reveal_strlit("open-ai");
    reveal_strlit("atlascloud");
    reveal_strlit("atlas-cloud");
    reveal_strlit("atlas_cloud");
    reveal_strlit("atlas");
    reveal_strlit("wanjie");
    reveal_strlit("wanjie-ark");
    reveal_strlit("wanjie_ark");
    reveal_strlit("ark-wanjie");
    reveal_strlit("ark_wanjie");
    reveal_strlit("wanjieark");
    reveal_strlit("wanjie-maas");
    reveal_strlit("wanjie_maas");
    reveal_strlit("wanjiemaas");
    reveal_strlit("volcengine");
    reveal_strlit("volcengine-ark");
    reveal_strlit("volcengine_ark");
    reveal_strlit("ark");
    reveal_strlit("volc-ark");
    reveal_strlit("volcengineark");
    reveal_strlit("openrouter");
    reveal_strlit("open_router");
    reveal_strlit("xiaomi-mimo");
    reveal_strlit("xiaomi_mimo");
    reveal_strlit("xiaomimimo");
    reveal_strlit("mimo");
    reveal_strlit("xiaomi");
    let n = provider_name(ApiProvider::Novita);
    text::lemma_trim_fixed(n);
    assert(text::lower(text::trim(n)) =~= "novita"@);
    assert("novita"@[1] != "nvidia"@[1]);
    assert("novita"@[0] != "openai"@[0]);
    assert("novita"@[0] != "wanjie"@[0]);
    assert("novita"@[0] != "xiaomi"@[0]);
}

proof fn lemma_parse_name_fireworks()
    ensures
        parse_provider(provider_name(ApiProvider::Fireworks)) == Some(ApiProvider::Fireworks),
{
    reveal_strlit("fireworks");
    reveal_strlit("deepseek");
    reveal_strlit("deep-seek");
    reveal_strlit("easybits");
    reveal_strlit("easy-bits");
    reveal_strlit("easy_bits");
    reveal_strlit("eb");
    reveal_strlit("deepseek-cn");
    reveal_strlit("deepseek_china");
    reveal_strlit("deepseekcn");
    reveal_strlit("deepseek-china");
    reveal_strlit("nvidia");
    reveal_strlit("nvidia-nim");
    reveal_strlit("nvidia_nim");
    reveal_strlit("nim");
    reveal_strlit("openai");
    reveal_strlit("open-ai");
    reveal_strlit("atlascloud");
    reveal_strlit("atlas-cloud");
    reveal_strlit("atlas_cloud");
    reveal_strlit("atlas");
    reveal_strlit("wanjie");
    reveal_strlit("wanjie-ark");
    reveal_strlit("wanjie_ark");
    reveal_strlit("ark-wanjie");
    reveal_strlit("ark_wanjie");
    reveal_strlit("wanjieark");
    reveal_strlit("wanjie-maas");
    reveal_strlit("wanjie_maas");
    reveal_strlit("wanjiemaas");
    reveal_strlit("volcengine");
    reveal_strlit("volcengine-ark");
    reveal_strlit("volcengine_ark");
    reveal_strlit("ark");
    reveal_strlit("volc-ark");
    reveal_strlit("volcengineark");
    reveal_strlit("openrouter");
    reveal_strlit("open_router");
    reveal_strlit("xiaomi-mimo");
    reveal_strlit("xiaomi_mimo");
    reveal_strlit("xiaomimimo");
    reveal_strlit("mimo");
    reveal_strlit("xiaomi");
    reveal_strlit("novita");
    reveal_strlit("fireworks-ai");
    let n = provider_name(ApiProvider::Fireworks);
    text::lemma_trim_fixed(n);
    assert(text::lower(text::trim(n)) =~= "fireworks"@);
    assert("fireworks"@[0] != "deep-seek"@[0]);
    assert("fireworks"@[0] != "easy-bits"@[0]);
    assert("fireworks"@[0] != "easy_bits"@[0]);
    assert("fireworks"@[0] != "wanjieark"@[0]);
}

proof fn lemma_parse_name_siliconflow()
    ensures
        parse_provider(provider_name(ApiProvider::Siliconflow)) == Some(ApiProvider::Siliconflow),
{
    reveal_strlit("siliconflow");
    reveal_strlit("deepseek");
    reveal_strlit("deep-seek");
    reveal_strlit("easybits");
    reveal_strlit("easy-bits");
    reveal_strlit("easy_bits");
    reveal_strlit("eb");
    reveal_strlit("deepseek-cn");
    reveal_strlit("deepseek_china");
    reveal_strlit("deepseekcn");
    reveal_strlit("deepseek-china");
    reveal_strlit("nvidia");
    reveal_strlit("nvidia-nim");
    reveal_strlit("nvidia_nim");
    reveal_strlit("nim");
    reveal_strlit("openai");
    reveal_strlit("open-ai");
    reveal_strlit("atlascloud");
    reveal_strlit("atlas-cloud");
    reveal_strlit("atlas_cloud");
    reveal_strlit("atlas");
    reveal_strlit("wanjie");
    reveal_strlit("wanjie-ark");
    reveal_strlit("wanjie_ark");
    reveal_strlit("ark-wanjie");
    reveal_strlit("ark_wanjie");
    reveal_strlit("wanjieark");
    reveal_strlit("wanjie-maas");
    reveal_strlit("wanjie_maas");
    reveal_strlit("wanjiemaas");
    reveal_strlit("volcengine");
    reveal_strlit("volcengine-ark");
    reveal_strlit("volcengine_ark");
    reveal_strlit("ark");
    reveal_strlit("volc-ark");
    reveal_strlit("volcengineark");
    reveal_strlit("openrouter");
    reveal_strlit("open_router");
    reveal_strlit("xiaomi-mimo");
    reveal_strlit("xiaomi_mimo");
    reveal_strlit("xiaomimimo");
    reveal_strlit("mimo");
    reveal_strlit("xiaomi");
    reveal_strlit("novita");
    reveal_strlit("fireworks");
    reveal_strlit("fireworks-ai");
    reveal_strlit("silicon-flow");
    reveal_strlit("silicon_flow");
    let n = provider_name(ApiProvider::Siliconflow);
    text::lemma_trim_fixed(n);
    assert(text::lower(text::trim(n)) =~= "siliconflow"@);
    assert("siliconflow"@[0] != "deepseek-cn"@[0]);
    assert("siliconflow"@[0] != "atlas-cloud"@[0]);
    assert("siliconflow"@[0] != "atlas_cloud"@[0]);
    assert("siliconflow"@[0] != "wanjie-maas"@[0]);
    assert("siliconflow"@[0] != "wanjie_maas"@[0]);
    assert("siliconflow"@[0] != "open_router"@[0]);
    assert("siliconflow"@[0] != "xiaomi-mimo"@[0]);
    assert("siliconflow"@[0] != "xiaomi_mimo"@[0]);
}

proof fn lemma_parse_name_siliconflow_cn()
    ensures
        parse_provider(provider_name(ApiProvider::SiliconflowCn)) == Some(ApiProvider::SiliconflowCn),
{
    reveal_strlit("siliconflow-CN");
    reveal_strlit("deepseek");
    reveal_strlit("deep-seek");
    reveal_strlit("easybits");
    reveal_strlit("easy-bits");
    reveal_strlit("easy_bits");
    reveal_strlit("eb");
    reveal_strlit("deepseek-cn");
    reveal_strlit("deepseek_china");
    reveal_strlit("deepseekcn");
    reveal_strlit("deepseek-china");
    reveal_strlit("nvidia");
    reveal_strlit("nvidia-nim");
    reveal_strlit("nvidia_nim");
    reveal_strlit("nim");
    reveal_strlit("openai");
    reveal_strlit("open-ai");
    reveal_strlit("atlascloud");
    reveal_strlit("atlas-cloud");
    reveal_strlit("atlas_cloud");
    reveal_strlit("atlas");
    reveal_strlit("wanjie");
    reveal_strlit("wanjie-ark");
    reveal_strlit("wanjie_ark");
    reveal_strlit("ark-wanjie");
    reveal_strlit("ark_wanjie");
    reveal_strlit("wanjieark");
    reveal_strlit("wanjie-maas");
    reveal_strlit("wanjie_maas");
    reveal_strlit("wanjiemaas");
    reveal_strlit("volcengine");
    reveal_strlit("volcengine-ark");
    reveal_strlit("volcengine_ark");
    reveal_strlit("ark");
    reveal_strlit("volc-ark");
    reveal_strlit("volcengineark");
    reveal_strlit("openrouter");
    reveal_strlit("open_router");
    reveal_strlit("xiaomi-mimo");
    reveal_strlit("xiaomi_mimo");
    reveal_strlit("xiaomimimo");
    reveal_strlit("mimo");
    reveal_strlit("xiaomi");
    reveal_strlit("novita");
    reveal_strlit("fireworks");
    reveal_strlit("fireworks-ai");
    reveal_strlit("siliconflow");
    reveal_strlit("silicon-flow");
    reveal_strlit("silicon_flow");
    reveal_strlit("siliconflow-cn");
    reveal_strlit("silicon-flow-cn");
    reveal_strlit("silicon-flow-CN");
    reveal_strlit("silicon_flow_cn");
    reveal_strlit("silicon_flow_CN");
    reveal_strlit("siliconflow-china");
    let n = provider_name(ApiProvider::SiliconflowCn);
    text::lemma_trim_fixed(n);
    assert(text::lower(text::trim(n)) =~= "siliconflow-cn"@);
    assert("siliconflow-cn"@[0] != "deepseek_china"@[0]);
    assert("siliconflow-cn"@[0] != "deepseek-china"@[0]);
    assert("siliconflow-cn"@[0] != "volcengine-ark"@[0]);
    assert("siliconflow-cn"@[0] != "volcengine_ark"@[0]);
}

proof fn lemma_parse_name_arcee()
    ensures
        parse_provider(provider_name(ApiProvider::Arcee)) == Some(ApiProvider::Arcee),
{
    reveal_strlit("arcee");
    reveal_strlit("deepseek");
    reveal_strlit("deep-seek");
    reveal_strlit("easybits");
    reveal_strlit("easy-bits");
    reveal_strlit("easy_bits");
    reveal_strlit("eb");
    reveal_strlit("deepseek-cn");
    reveal_strlit("deepseek_china");
    reveal_strlit("deepseekcn");
    reveal_strlit("deepseek-china");
    reveal_strlit("nvidia");
    reveal_strlit("nvidia-nim");
    reveal_strlit("nvidia_nim");
    reveal_strlit("nim");
    reveal_strlit("openai");
    reveal_strlit("open-ai");
    reveal_strlit("atlascloud");
    reveal_strlit("atlas-cloud");
    reveal_strlit("atlas_cloud");
    reveal_strlit("atlas");
    reveal_strlit("wanjie");
    reveal_strlit("wanjie-ark");
    reveal_strlit("wanjie_ark");
    reveal_strlit("ark-wanjie");
    reveal_strlit("ark_wanjie");
    reveal_strlit("wanjieark");
    reveal_strlit("wanjie-maas");
    reveal_strlit("wanjie_maas");
    reveal_strlit("wanjiemaas");
    reveal_strlit("volcengine");
    reveal_strlit("volcengine-ark");
    reveal_strlit("volcengine_ark");
    reveal_strlit("ark");
    reveal_strlit("volc-ark");
    reveal_strlit("volcengineark");
    reveal_strlit("openrouter");
    reveal_strlit("open_router");
    reveal_strlit("xiaomi-mimo");
    reveal_strlit("xiaomi_mimo");
    reveal_strlit("xiaomimimo");
    reveal_strlit("mimo");
    reveal_strlit("xiaomi");
    reveal_strlit("novita");
    reveal_strlit("fireworks");
    reveal_strlit("fireworks-ai");
    reveal_strlit("siliconflow");
    reveal_strlit("silicon-flow");
    reveal_strlit("silicon_flow");
    reveal_strlit("siliconflow-cn");
    reveal_strlit("siliconflow-CN");
    reveal_strlit("silicon-flow-cn");
    reveal_strlit("silicon-flow-CN");
    reveal_strlit("silicon_flow_cn");
    reveal_strlit("silicon_flow_CN");
    reveal_strlit("siliconflow-china");
    reveal_strlit("arcee-ai");
    reveal_strlit("arcee_ai");
    let n = provider_name(ApiProvider::Arcee);
    text::lemma_trim_fixed(n);
    assert(text::lower(text::trim(n)) =~= "arcee"@);
    assert("arcee"@[1] != "atlas"@[1]);
}

proof fn lemma_parse_name_moonshot()
    ensures
        parse_provider(provider_name(ApiProvider::Moonshot)) == Some(ApiProvider::Moonshot),
{
    reveal_strlit("moonshot");
    reveal_strlit("deepseek");
    reveal_strlit("deep-seek");
    reveal_strlit("easybits");
    reveal_strlit("easy-bits");
    reveal_strlit("easy_bits");
    reveal_strlit("eb");
    reveal_strlit("deepseek-cn");
    reveal_strlit("deepseek_china");
    reveal_strlit("deepseekcn");
    reveal_strlit("deepseek-china");
    reveal_strlit("nvidia");
    reveal_strlit("nvidia-nim");
    reveal_strlit("nvidia_nim");
    reveal_strlit("nim");
    reveal_strlit("openai");
    reveal_strlit("open-ai");
    reveal_strlit("atlascloud");
    reveal_strlit("atlas-cloud");
    reveal_strlit("atlas_cloud");
    reveal_strlit("atlas");
    reveal_strlit("wanjie");
    reveal_strlit("wanjie-ark");
    reveal_strlit("wanjie_ark");
    reveal_strlit("ark-wanjie");
    reveal_strlit("ark_wanjie");
    reveal_strlit("wanjieark");
    reveal_strlit("wanjie-maas");
    reveal_strlit("wanjie_maas");
    reveal_strlit("wanjiemaas");
    reveal_strlit("volcengine");
    reveal_strlit("volcengine-ark");
    reveal_strlit("volcengine_ark");
    reveal_strlit("ark");
    reveal_strlit("volc-ark");
    reveal_strlit("volcengineark");
    reveal_strlit("openrouter");
    reveal_strlit("open_router");
    reveal_strlit("xiaomi-mimo");
    reveal_strlit("xiaomi_mimo");
    reveal_strlit("xiaomimimo");
    reveal_strlit("mimo");
    reveal_strlit("xiaomi");
    reveal_strlit("novita");
    reveal_strlit("fireworks");
    reveal_strlit("fireworks-ai");
    reveal_strlit("siliconflow");
    reveal_strlit("silicon-flow");
    reveal_strlit("silicon_flow");
    reveal_strlit("siliconflow-cn");
    reveal_strlit("siliconflow-CN");
    reveal_strlit("silicon-flow-cn");
    reveal_strlit("silicon-flow-CN");
    reveal_strlit("silicon_flow_cn");
    reveal_strlit("silicon_flow_CN");
    reveal_strlit("siliconflow-china");
    reveal_strlit("arcee");
    reveal_strlit("arcee-ai");
    reveal_strlit("arcee_ai");
    reveal_strlit("moonshot-ai");
    reveal_strlit("kimi");
    reveal_strlit("kimi-k2");
    let n = provider_name(ApiProvider::Moonshot);
    text::lemma_trim_fixed(n);
    assert(text::lower(text::trim(n)) =~= "moonshot"@);
    assert("moonshot"@[0] != "deepseek"@[0]);
    assert("moonshot"@[0] != "easybits"@[0]);
    assert("moonshot"@[0] != "volc-ark"@[0]);
    assert("moonshot"@[0] != "arcee-ai"@[0]);
    assert("moonshot"@[0] != "arcee_ai"@[0]);
}

proof fn lemma_parse_name_sglang()
    ensures
        parse_provider(provider_name(ApiProvider::Sglang)) == Some(ApiProvider::Sglang),
{
    reveal_strlit("sglang");
    reveal_strlit("deepseek");
    reveal_strlit("deep-seek");
    reveal_strlit("easybits");
    reveal_strlit("easy-bits");
    reveal_strlit("easy_bits");
    reveal_strlit("eb");
    reveal_strlit("deepseek-cn");
    reveal_strlit("deepseek_china");
    reveal_strlit("deepseekcn");
    reveal_strlit("deepseek-china");
    reveal_strlit("nvidia");
    reveal_strlit("nvidia-nim");
    reveal_strlit("nvidia_nim");
    reveal_strlit("nim");
    reveal_strlit("openai");
    reveal_strlit("open-ai");
    reveal_strlit("atlascloud");
    reveal_strlit("atlas-cloud");
    reveal_strlit("atlas_cloud");
    reveal_strlit("atlas");
    reveal_strlit("wanjie");
    reveal_strlit("wanjie-ark");
    reveal_strlit("wanjie_ark");
    reveal_strlit("ark-wanjie");
    reveal_strlit("ark_wanjie");
    reveal_strlit("wanjieark");
    reveal_strlit("wanjie-maas");
    reveal_strlit("wanjie_maas");
    reveal_strlit("wanjiemaas");
    reveal_strlit("volcengine");
    reveal_strlit("volcengine-ark");
    reveal_strlit("volcengine_ark");
    reveal_strlit("ark");
    reveal_strlit("volc-ark");
    reveal_strlit("volcengineark");
    reveal_strlit("openrouter");
    reveal_strlit("open_router");
    reveal_strlit("xiaomi-mimo");
    reveal_strlit("xiaomi_mimo");
    reveal_strlit("xiaomimimo");
    reveal_strlit("mimo");
    reveal_strlit("xiaomi");
    reveal_strlit("novita");
    reveal_strlit("fireworks");
    reveal_strlit("fireworks-ai");
    reveal_strlit("siliconflow");
    reveal_strlit("silicon-flow");
    reveal_strlit("silicon_flow");
    reveal_strlit("siliconflow-cn");
    reveal_strlit("siliconflow-CN");
    reveal_strlit("silicon-flow-cn");
    reveal_strlit("silicon-flow-CN");
    reveal_strlit("silicon_flow_cn");
    reveal_strlit("silicon_flow_CN");
    reveal_strlit("siliconflow-china");
    reveal_strlit("arcee");
    reveal_strlit("arcee-ai");
    reveal_strlit("arcee_ai");
    reveal_strlit("moonshot");
    reveal_strlit("moonshot-ai");
    reveal_strlit("kimi");
    reveal_strlit("kimi-k2");
    reveal_strlit("sg-lang");
    let n = provider_name(ApiProvider::Sglang);
    text::lemma_trim_fixed(n);
    assert(text::lower(text::trim(n)) =~= "sglang"@);
    assert("sglang"@[0] != "nvidia"@[0]);
    assert("sglang"@[0] != "openai"@[0]);
    assert("sglang"@[0] != "wanjie"@[0]);
    assert("sglang"@[0] != "xiaomi"@[0]);
    assert("sglang"@[0] != "novita"@[0]);
}

proof fn lemma_parse_name_vllm()
    ensures
        parse_provider(provider_name(ApiProvider::Vllm)) == Some(ApiProvider::Vllm),
{
    reveal_strlit("vllm");
    reveal_strlit("deepseek");
    reveal_strlit("deep-seek");
    reveal_strlit("easybits");
    reveal_strlit("easy-bits");
    reveal_strlit("easy_bits");
    reveal_strlit("eb");
    reveal_strlit("deepseek-cn");
    reveal_strlit("deepseek_china");
    reveal_strlit("deepseekcn");
    reveal_strlit("deepseek-china");
    reveal_strlit("nvidia");
    reveal_strlit("nvidia-nim");
    reveal_strlit("nvidia_nim");
    reveal_strlit("nim");
    reveal_strlit("openai");
    reveal_strlit("open-ai");
    reveal_strlit("atlascloud");
    reveal_strlit("atlas-cloud");
    reveal_strlit("atlas_cloud");
    reveal_strlit("atlas");
    reveal_strlit("wanjie");
    reveal_strlit("wanjie-ark");
    reveal_strlit("wanjie_ark");
    reveal_strlit("ark-wanjie");
    reveal_strlit("ark_wanjie");
    reveal_strlit("wanjieark");
    reveal_strlit("wanjie-maas");
    reveal_strlit("wanjie_maas");
    reveal_strlit("wanjiemaas");
    reveal_strlit("volcengine");
    reveal_strlit("volcengine-ark");
    reveal_strlit("volcengine_ark");
    reveal_strlit("ark");
    reveal_strlit("volc-ark");
    reveal_strlit("volcengineark");
    reveal_strlit("openrouter");
    reveal_strlit("open_router");
    reveal_strlit("xiaomi-mimo");
    reveal_strlit("xiaomi_mimo");
    reveal_strlit("xiaomimimo");
    reveal_strlit("mimo");
    reveal_strlit("xiaomi");
    reveal_strlit("novita");
    reveal_strlit("fireworks");
    reveal_strlit("fireworks-ai");
    reveal_strlit("siliconflow");
    reveal_strlit("silicon-flow");
    reveal_strlit("silicon_flow");
    reveal_strlit("siliconflow-cn");
    reveal_strlit("siliconflow-CN");
    reveal_strlit("silicon-flow-cn");
    reveal_strlit("silicon-flow-CN");
    reveal_strlit("silicon_flow_cn");
    reveal_strlit("silicon_flow_CN");
    reveal_strlit("siliconflow-china");
    reveal_strlit("arcee");
    reveal_strlit("arcee-ai");
    reveal_strlit("arcee_ai");
    reveal_strlit("moonshot");
    reveal_strlit("moonshot-ai");
    reveal_strlit("kimi");
    reveal_strlit("kimi-k2");
    reveal_strlit("sglang");
    reveal_strlit("sg-lang");
    reveal_strlit("v-llm");
    let n = provider_name(ApiProvider::Vllm);
    text::lemma_trim_fixed(n);
    assert(text::lower(text::trim(n)) =~= "vllm"@);
    assert("vllm"@[0] != "mimo"@[0]);
    assert("vllm"@[0] != "kimi"@[0]);
}

proof fn lemma_parse_name_ollama()
    ensures
        parse_provider(provider_name(ApiProvider::Ollama)) == Some(ApiProvider::Ollama),
{
    reveal_strlit("ollama");
    reveal_strlit("deepseek");
    reveal_strlit("deep-seek");
    reveal_strlit("easybits");
    reveal_strlit("easy-bits");
    reveal_strlit("easy_bits");
    reveal_strlit("eb");
    reveal_strlit("deepseek-cn");
    reveal_strlit("deepseek_china");
    reveal_strlit("deepseekcn");
    reveal_strlit("deepseek-china");
    reveal_strlit("nvidia");
    reveal_strlit("nvidia-nim");
    reveal_strlit("nvidia_nim");
    reveal_strlit("nim");
    reveal_strlit("openai");
    reveal_strlit("open-ai");
    reveal_strlit("atlascloud");
    reveal_strlit("atlas-cloud");
    reveal_strlit("atlas_cloud");
    reveal_strlit("atlas");
    reveal_strlit("wanjie");
    reveal_strlit("wanjie-ark");
    reveal_strlit("wanjie_ark");
    reveal_strlit("ark-wanjie");
    reveal_strlit("ark_wanjie");
    reveal_strlit("wanjieark");
    reveal_strlit("wanjie-maas");
    reveal_strlit("wanjie_maas");
    reveal_strlit("wanjiemaas");
    reveal_strlit("volcengine");
    reveal_strlit("volcengine-ark");
    reveal_strlit("volcengine_ark");
    reveal_strlit("ark");
    reveal_strlit("volc-ark");
    reveal_strlit("volcengineark");
    reveal_strlit("openrouter");
    reveal_strlit("open_router");
    reveal_strlit("xiaomi-mimo");
    reveal_strlit("xiaomi_mimo");
    reveal_strlit("xiaomimimo");
    reveal_strlit("mimo");
    reveal_strlit("xiaomi");
    reveal_strlit("novita");
    reveal_strlit("fireworks");
    reveal_strlit("fireworks-ai");
    reveal_strlit("siliconflow");
    reveal_strlit("silicon-flow");
    reveal_strlit("silicon_flow");
    reveal_strlit("siliconflow-cn");
    reveal_strlit("siliconflow-CN");
    reveal_strlit("silicon-flow-cn");
    reveal_strlit("silicon-flow-CN");
    reveal_strlit("silicon_flow_cn");
    reveal_strlit("silicon_flow_CN");
    reveal_strlit("siliconflow-china");
    reveal_strlit("arcee");
    reveal_strlit("arcee-ai");
    reveal_strlit("arcee_ai");
    reveal_strlit("moonshot");
    reveal_strlit("moonshot-ai");
    reveal_strlit("kimi");
    reveal_strlit("kimi-k2");
    reveal_strlit("sglang");
    reveal_strlit("sg-lang");
    reveal_strlit("vllm");
    reveal_strlit("v-llm");
    reveal_strlit("ollama-local");
    let n = provider_name(ApiProvider::Ollama);
    text::lemma_trim_fixed(n);
    assert(text::lower(text::trim(n)) =~= "ollama"@);
    assert("ollama"@[0] != "nvidia"@[0]);
    assert("ollama"@[1] != "openai"@[1]);
    assert("ollama"@[0] != "wanjie"@[0]);
    assert("ollama"@[0] != "xiaomi"@[0]);
    assert("ollama"@[0] != "novita"@[0]);
    assert("ollama"@[0] != "sglang"@[0]);
}

proof fn lemma_parse_name_huggingface()
    ensures
        parse_provider(provider_name(ApiProvider::Huggingface)) == Some(ApiProvider::Huggingface),
{
    reveal_strlit("huggingface");
    reveal_strlit("deepseek");
    reveal_strlit("deep-seek");
    reveal_strlit("easybits");
    reveal_strlit("easy-bits");
    reveal_strlit("easy_bits");
    reveal_strlit("eb");
    reveal_strlit("deepseek-cn");
    reveal_strlit("deepseek_china");
    reveal_strlit("deepseekcn");
    reveal_strlit("deepseek-china");
    reveal_strlit("nvidia");
    reveal_strlit("nvidia-nim");
    reveal_strlit("nvidia_nim");
    reveal_strlit("nim");
    reveal_strlit("openai");
    reveal_strlit("open-ai");
    reveal_strlit("atlascloud");
    reveal_strlit("atlas-cloud");
    reveal_strlit("atlas_cloud");
    reveal_strlit("atlas");
    reveal_strlit("wanjie");
    reveal_strlit("wanjie-ark");
    reveal_strlit("wanjie_ark");
    reveal_strlit("ark-wanjie");
    reveal_strlit("ark_wanjie");
    reveal_strlit("wanjieark");
    reveal_strlit("wanjie-maas");
    reveal_strlit("wanjie_maas");
    reveal_strlit("wanjiemaas");
    reveal_strlit("volcengine");
    reveal_strlit("volcengine-ark");
    reveal_strlit("volcengine_ark");
    reveal_strlit("ark");
    reveal_strlit("volc-ark");
    reveal_strlit("volcengineark");
    reveal_strlit("openrouter");
    reveal_strlit("open_router");
    reveal_strlit("xiaomi-mimo");
    reveal_strlit("xiaomi_mimo");
    reveal_strlit("xiaomimimo");
    reveal_strlit("mimo");
    reveal_strlit("xiaomi");
    reveal_strlit("novita");
    reveal_strlit("fireworks");
    reveal_strlit("fireworks-ai");
    reveal_strlit("siliconflow");
    reveal_strlit("silicon-flow");
    reveal_strlit("silicon_flow");
    reveal_strlit("siliconflow-cn");
    reveal_strlit("siliconflow-CN");
    reveal_strlit("silicon-flow-cn");
    reveal_strlit("silicon-flow-CN");
    reveal_strlit("silicon_flow_cn");
    reveal_strlit("silicon_flow_CN");
    reveal_strlit("siliconflow-china");
    reveal_strlit("arcee");
    reveal_strlit("arcee-ai");
    reveal_strlit("arcee_ai");
    reveal_strlit("moonshot");
    reveal_strlit("moonshot-ai");
    reveal_strlit("kimi");
    reveal_strlit("kimi-k2");
    reveal_strlit("sglang");
    reveal_strlit("sg-lang");
    reveal_strlit("vllm");
    reveal_strlit("v-llm");
    reveal_strlit("ollama");
    reveal_strlit("ollama-local");
    reveal_strlit("hugging-face");
    reveal_strlit("hugging_face");
    reveal_strlit("hf");
    let n = provider_name(ApiProvider::Huggingface);
    text::lemma_trim_fixed(n);
    assert(text::lower(text::trim(n)) =~= "huggingface"@);
    assert("huggingface"@[0] != "deepseek-cn"@[0]);
    assert("huggingface"@[0] != "atlas-cloud"@[0]);
    assert("huggingface"@[0] != "atlas_cloud"@[0]);
    assert("huggingface"@[0] != "wanjie-maas"@[0]);
    assert("huggingface"@[0] != "wanjie_maas"@[0]);
    assert("huggingface"@[0] != "open_router"@[0]);
    assert("huggingface"@[0] != "xiaomi-mimo"@[0]);
    assert("huggingface"@[0] != "xiaomi_mimo"@[0]);
    assert("huggingface"@[0] != "siliconflow"@[0]);
    assert("huggingface"@[0] != "moonshot-ai"@[0]);
}

/// Reading a provider's own name gives the provider back: `parse` undoes
/// `as_str` for every provider.
pub proof fn lemma_parse_as_str(p: ApiProvider)
    ensures
        parse_provider(provider_name(p)) == Some(p),
{
    match p {
        ApiProvider::Deepseek => lemma_parse_name_deepseek(),
        ApiProvider::DeepseekCN => lemma_parse_name_deepseek_c_n(),
        ApiProvider::NvidiaNim => lemma_parse_name_nvidia_nim(),
        ApiProvider::Openai => lemma_parse_name_openai(),
        ApiProvider::Atlascloud => lemma_parse_name_atlascloud(),
        ApiProvider::WanjieArk => lemma_parse_name_wanjie_ark(),
        ApiProvider::Volcengine => lemma_parse_name_volcengine(),
        ApiProvider::Openrouter => lemma_parse_name_openrouter(),
        ApiProvider::XiaomiMimo => lemma_parse_name_xiaomi_mimo(),
        ApiProvider::Novita => lemma_parse_name_novita(),
        ApiProvider::Fireworks => lemma_parse_name_fireworks(),
        ApiProvider::Siliconflow => lemma_parse_name_siliconflow(),
        ApiProvider::SiliconflowCn => lemma_parse_name_siliconflow_cn(),
        ApiProvider::Arcee => lemma_parse_name_arcee(),
        ApiProvider::Moonshot => lemma_parse_name_moonshot(),
        ApiProvider::Sglang => lemma_parse_name_sglang(),
        ApiProvider::Vllm => lemma_parse_name_vllm(),
        ApiProvider::Ollama => lemma_parse_name_ollama(),
        ApiProvider::Huggingface => lemma_parse_name_huggingface(),
    }
}


proof fn lemma_canonical_is_fixed(c: Seq<char>)
    requires
        c == "deepseek-v4-pro"@ || c == "deepseek-v4-flash"@,
    ensures
        text::trim(c) == c,
        c.len() > 0,
        canonical_deepseek_id(c) == Some(c),
        eq_ignore_ascii_case(c, c),
{
    reveal_strlit("deepseek-v4-pro");
    reveal_strlit("deepseek-v4-flash");
    reveal_strlit("deepseek-v4pro");
    reveal_strlit("deepseek-ai/deepseek-v4-pro");
    reveal_strlit("deepseek-ai/deepseek-v4pro");
    reveal_strlit("deepseek/deepseek-v4-pro");
    reveal_strlit("deepseek/deepseek-v4pro");
    text::lemma_trim_fixed(c);
    assert(text::lower(c) =~= c);
}

/// Wiring is idempotent: the name a provider is sent, wired again, stays
/// the same.
pub proof fn lemma_wire_model_idempotent(p: ApiProvider, model: Seq<char>)
    ensures
        wire_model(p, wire_model(p, model)) == wire_model(p, model),
{
    let t = text::trim(model);
    text::lemma_trim_idempotent(model);
    assert(canonical_deepseek_id(t) == canonical_deepseek_id(model));
    if t.len() == 0 || passes_model_through(p) {
    } else {
        match canonical_deepseek_id(t) {
            Some(c) => {
                if !eq_ignore_ascii_case(c, t) {
                    lemma_canonical_is_fixed(c);
                }
            },
            None => {},
        }
    }
}

} // verus!
