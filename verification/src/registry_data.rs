//! The built-in OpenAI-compatible providers and their typed names.

use vstd::prelude::*;

use crate::provider::{ProviderProfile, ProviderRegistry, RegistryEntry};
use crate::text::str_eq;

verus! {

/// A built-in provider name.
#[derive(Debug, Clone, Copy, PartialEq, Eq, Structural)]
pub enum ProviderName {
    Groq,
    Openrouter,
    Siliconflow,
    Snowflake,
    Tencent,
    Togetherai,
    Vercel,
    Abacus,
    Cloudflare,
    Deepseek,
    MoonshotaiCn,
    Stepfun,
    TheGridAi,
    Xpersona,
    ZhipuaiCodingPlan,
}

/// The registry name of a provider.
pub open spec fn provider_name_str(n: ProviderName) -> Seq<char> {
    match n {
        ProviderName::Groq => "groq"@,
        ProviderName::Openrouter => "openrouter"@,
        ProviderName::Siliconflow => "siliconflow"@,
        ProviderName::Snowflake => "snowflake"@,
        ProviderName::Tencent => "tencent"@,
        ProviderName::Togetherai => "togetherai"@,
        ProviderName::Vercel => "vercel"@,
        ProviderName::Abacus => "abacus"@,
        ProviderName::Cloudflare => "cloudflare"@,
        ProviderName::Deepseek => "deepseek"@,
        ProviderName::MoonshotaiCn => "moonshotai_cn"@,
        ProviderName::Stepfun => "stepfun"@,
        ProviderName::TheGridAi => "the_grid_ai"@,
        ProviderName::Xpersona => "xpersona"@,
        ProviderName::ZhipuaiCodingPlan => "zhipuai_coding_plan"@,
    }
}

impl ProviderName {
    /// The registry name.
    pub fn as_str(&self) -> (s: &'static str)
        ensures
            s@ == provider_name_str(*self),
    {
        match self {
            ProviderName::Groq => "groq",
            ProviderName::Openrouter => "openrouter",
            ProviderName::Siliconflow => "siliconflow",
            ProviderName::Snowflake => "snowflake",
            ProviderName::Tencent => "tencent",
            ProviderName::Togetherai => "togetherai",
            ProviderName::Vercel => "vercel",
            ProviderName::Abacus => "abacus",
            ProviderName::Cloudflare => "cloudflare",
            ProviderName::Deepseek => "deepseek",
            ProviderName::MoonshotaiCn => "moonshotai_cn",
            ProviderName::Stepfun => "stepfun",
            ProviderName::TheGridAi => "the_grid_ai",
            ProviderName::Xpersona => "xpersona",
            ProviderName::ZhipuaiCodingPlan => "zhipuai_coding_plan",
        }
    }

    /// The provider of a registry name, if it is built in.
    pub fn from_name(s: &str) -> (r: Option<ProviderName>)
        ensures
            match r {
                Some(n) => provider_name_str(n) == s@,
                None => forall|n: ProviderName| provider_name_str(n) != s@,
            },
    {
        if str_eq(s, "groq") {
            Some(ProviderName::Groq)
        } else if str_eq(s, "openrouter") {
            Some(ProviderName::Openrouter)
        } else if str_eq(s, "siliconflow") {
            Some(ProviderName::Siliconflow)
        } else if str_eq(s, "snowflake") {
            Some(ProviderName::Snowflake)
        } else if str_eq(s, "tencent") {
            Some(ProviderName::Tencent)
        } else if str_eq(s, "togetherai") {
            Some(ProviderName::Togetherai)
        } else if str_eq(s, "vercel") {
            Some(ProviderName::Vercel)
        } else if str_eq(s, "abacus") {
            Some(ProviderName::Abacus)
        } else if str_eq(s, "cloudflare") {
            Some(ProviderName::Cloudflare)
        } else if str_eq(s, "deepseek") {
            Some(ProviderName::Deepseek)
        } else if str_eq(s, "moonshotai_cn") {
            Some(ProviderName::MoonshotaiCn)
        } else if str_eq(s, "stepfun") {
            Some(ProviderName::Stepfun)
        } else if str_eq(s, "the_grid_ai") {
            Some(ProviderName::TheGridAi)
        } else if str_eq(s, "xpersona") {
            Some(ProviderName::Xpersona)
        } else if str_eq(s, "zhipuai_coding_plan") {
            Some(ProviderName::ZhipuaiCodingPlan)
        } else {
            None
        }
    }

    /// Every built-in provider, in registry order.
    pub fn all() -> (v: Vec<ProviderName>)
        ensures
            v@.len() == 15,
            forall|n: ProviderName| v@.contains(n),
    {
        let mut v: Vec<ProviderName> = Vec::new();
        v.push(ProviderName::Groq);
        v.push(ProviderName::Openrouter);
        v.push(ProviderName::Siliconflow);
        v.push(ProviderName::Snowflake);
        v.push(ProviderName::Tencent);
        v.push(ProviderName::Togetherai);
        v.push(ProviderName::Vercel);
        v.push(ProviderName::Abacus);
        v.push(ProviderName::Cloudflare);
        v.push(ProviderName::Deepseek);
        v.push(ProviderName::MoonshotaiCn);
        v.push(ProviderName::Stepfun);
        v.push(ProviderName::TheGridAi);
        v.push(ProviderName::Xpersona);
        v.push(ProviderName::ZhipuaiCodingPlan);
        assert forall|n: ProviderName| v@.contains(n) by {
            match n {
                ProviderName::Groq => assert(v@[0] == n),
                ProviderName::Openrouter => assert(v@[1] == n),
                ProviderName::Siliconflow => assert(v@[2] == n),
                ProviderName::Snowflake => assert(v@[3] == n),
                ProviderName::Tencent => assert(v@[4] == n),
                ProviderName::Togetherai => assert(v@[5] == n),
                ProviderName::Vercel => assert(v@[6] == n),
                ProviderName::Abacus => assert(v@[7] == n),
                ProviderName::Cloudflare => assert(v@[8] == n),
                ProviderName::Deepseek => assert(v@[9] == n),
                ProviderName::MoonshotaiCn => assert(v@[10] == n),
                ProviderName::Stepfun => assert(v@[11] == n),
                ProviderName::TheGridAi => assert(v@[12] == n),
                ProviderName::Xpersona => assert(v@[13] == n),
                ProviderName::ZhipuaiCodingPlan => assert(v@[14] == n),
            }
        }
        v
    }
}

/// An entry with these names, URL and variable.
pub open spec fn entry_is(e: RegistryEntry, name: Seq<char>, display: Seq<char>, base_url: Seq<char>, env_var: Seq<char>) -> bool {
    e.name@ == name && e.display@ == display && e.base_url@ == base_url && e.env_var@ == env_var
}

/// The full-capability profile.
pub open spec fn is_full_profile(p: ProviderProfile) -> bool {
    p.supports_top_k && p.supports_tools && p.supports_response_format && p.stream_usage_key is None
        && p.max_tokens_key is None
}

/// The built-in entries: Groq (no `top_k`, usage under `x_groq`, only
/// `max_completion_tokens`), StepFun (only `max_tokens`) and the others with
/// full capability.
pub open spec fn builtin_entries_spec(v: Seq<RegistryEntry>) -> bool {
    &&& v.len() == 15
    &&& entry_is(v[0], "groq"@, "Groq"@, "https://api.groq.com/openai/v1"@, "GROQ_API_KEY"@)
    &&& entry_is(v[1], "openrouter"@, "OpenRouter"@, "https://openrouter.ai/api/v1"@, "OPENROUTER_API_KEY"@)
    &&& entry_is(v[2], "siliconflow"@, "SiliconFlow"@, "https://api.siliconflow.cn/v1"@, "SILICONFLOW_API_KEY"@)
    &&& entry_is(v[3], "snowflake"@, "Snowflake"@, "https://<account-identifier>.snowflakecomputing.com/api/v2/cortex/v1"@, "SNOWFLAKE_PAT"@)
    &&& entry_is(v[4], "tencent"@, "Tencent (混元/Hunyuan)"@, "https://api.hunyuan.cloud.tencent.com/v1"@, "TENCENT_API_KEY"@)
    &&& entry_is(v[5], "togetherai"@, "Together AI"@, "https://api.together.xyz/v1"@, "TOGETHER_API_KEY"@)
    &&& entry_is(v[6], "vercel"@, "Vercel"@, "https://api.v0.dev/v1"@, "VERCEL_API_KEY"@)
    &&& entry_is(v[7], "abacus"@, "Abacus"@, "https://routellm.abacus.ai/v1"@, "ABACUS_API_KEY"@)
    &&& entry_is(v[8], "cloudflare"@, "Cloudflare Workers AI"@, "https://api.cloudflare.com/client/v4/accounts/{CLOUDFLARE_ACCOUNT_ID}/ai/v1"@, "CLOUDFLARE_API_KEY"@)
    &&& entry_is(v[9], "deepseek"@, "DeepSeek"@, "https://api.deepseek.com"@, "DEEPSEEK_API_KEY"@)
    &&& entry_is(v[10], "moonshotai_cn"@, "Moonshot AI (China)"@, "https://api.moonshot.cn/anthropic/v1"@, "MOONSHOT_API_KEY"@)
    &&& entry_is(v[11], "stepfun"@, "StepFun"@, "https://api.stepfun.com/v1"@, "STEPFUN_API_KEY"@)
    &&& entry_is(v[12], "the_grid_ai"@, "The Grid AI"@, "https://api.thegrid.ai/v1"@, "THEGRID_API_KEY"@)
    &&& entry_is(v[13], "xpersona"@, "Xpersona"@, "https://www.xpersona.co/v1"@, "XPERSONA_API_KEY"@)
    &&& entry_is(v[14], "zhipuai_coding_plan"@, "Zhipu AI Coding Plan"@, "https://open.bigmodel.cn/api/coding/paas/v4"@, "ZHIPU_API_KEY"@)
    &&& !v[0].profile.supports_top_k && v[0].profile.supports_tools && v[0].profile.supports_response_format
    &&& v[0].profile.stream_usage_key matches Some(k) && k@ == "x_groq"@
    &&& v[0].profile.max_tokens_key matches Some(k) && k@ == "max_completion_tokens"@
    &&& v[11].profile.supports_top_k && v[11].profile.supports_tools && v[11].profile.supports_response_format
    &&& v[11].profile.stream_usage_key is None
    &&& v[11].profile.max_tokens_key matches Some(k) && k@ == "max_tokens"@
    &&& forall|i: int| 1 <= i < 15 && i != 11 ==> is_full_profile(#[trigger] v[i].profile)
}

fn entry(name: &str, display: &str, base_url: &str, env_var: &str, profile: ProviderProfile) -> (e: RegistryEntry)
    ensures
        e.name@ == name@ && e.display@ == display@ && e.base_url@ == base_url@ && e.env_var@ == env_var@,
        e.profile == profile,
{
    RegistryEntry {
        name: String::from_str(name),
        display: String::from_str(display),
        base_url: String::from_str(base_url),
        env_var: String::from_str(env_var),
        profile,
    }
}

/// The built-in entries.
pub fn builtin_entries() -> (v: Vec<RegistryEntry>)
    ensures
        builtin_entries_spec(v@),
{
    let groq = ProviderProfile {
        supports_top_k: false,
        supports_tools: true,
        supports_response_format: true,
        stream_usage_key: Some(String::from_str("x_groq")),
        max_tokens_key: Some(String::from_str("max_completion_tokens")),
    };
    let stepfun = ProviderProfile {
        supports_top_k: true,
        supports_tools: true,
        supports_response_format: true,
        stream_usage_key: None,
        max_tokens_key: Some(String::from_str("max_tokens")),
    };
    let mut v: Vec<RegistryEntry> = Vec::new();
    v.push(entry("groq", "Groq", "https://api.groq.com/openai/v1", "GROQ_API_KEY", groq));
    v.push(entry("openrouter", "OpenRouter", "https://openrouter.ai/api/v1", "OPENROUTER_API_KEY", ProviderProfile::default()));
    v.push(entry("siliconflow", "SiliconFlow", "https://api.siliconflow.cn/v1", "SILICONFLOW_API_KEY", ProviderProfile::default()));
    v.push(entry("snowflake", "Snowflake", "https://<account-identifier>.snowflakecomputing.com/api/v2/cortex/v1", "SNOWFLAKE_PAT", ProviderProfile::default()));
    v.push(entry("tencent", "Tencent (混元/Hunyuan)", "https://api.hunyuan.cloud.tencent.com/v1", "TENCENT_API_KEY", ProviderProfile::default()));
    v.push(entry("togetherai", "Together AI", "https://api.together.xyz/v1", "TOGETHER_API_KEY", ProviderProfile::default()));
    v.push(entry("vercel", "Vercel", "https://api.v0.dev/v1", "VERCEL_API_KEY", ProviderProfile::default()));
    v.push(entry("abacus", "Abacus", "https://routellm.abacus.ai/v1", "ABACUS_API_KEY", ProviderProfile::default()));
    v.push(entry("cloudflare", "Cloudflare Workers AI", "https://api.cloudflare.com/client/v4/accounts/{CLOUDFLARE_ACCOUNT_ID}/ai/v1", "CLOUDFLARE_API_KEY", ProviderProfile::default()));
    v.push(entry("deepseek", "DeepSeek", "https://api.deepseek.com", "DEEPSEEK_API_KEY", ProviderProfile::default()));
    v.push(entry("moonshotai_cn", "Moonshot AI (China)", "https://api.moonshot.cn/anthropic/v1", "MOONSHOT_API_KEY", ProviderProfile::default()));
    v.push(entry("stepfun", "StepFun", "https://api.stepfun.com/v1", "STEPFUN_API_KEY", stepfun));
    v.push(entry("the_grid_ai", "The Grid AI", "https://api.thegrid.ai/v1", "THEGRID_API_KEY", ProviderProfile::default()));
    v.push(entry("xpersona", "Xpersona", "https://www.xpersona.co/v1", "XPERSONA_API_KEY", ProviderProfile::default()));
    v.push(entry("zhipuai_coding_plan", "Zhipu AI Coding Plan", "https://open.bigmodel.cn/api/coding/paas/v4", "ZHIPU_API_KEY", ProviderProfile::default()));
    v
}

/// A registry of the built-in entries with an empty overlay.
pub fn builtin_registry() -> (r: ProviderRegistry)
    ensures
        builtin_entries_spec(r.builtin_entries()),
        r.overlay_entries() == Map::<Seq<char>, crate::provider::ExternalProviderEntry>::empty(),
{
    ProviderRegistry::new(builtin_entries())
}

} // verus!
