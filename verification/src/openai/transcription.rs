//! The OpenAI transcription (speech-to-text) model (`/audio/transcriptions`).

use vstd::prelude::*;

use crate::headers::HeaderMap;
use crate::http::opt_headers_ref;
use crate::openai::model::{endpoint_url, openai_auth_headers, openai_request_headers};
use crate::openai::OpenAIConfig;
use crate::text::{is_prefix, str_eq, str_starts_with};

use crate::json::{opt_json_view, Json, JsonValue};
use crate::keyed::KeyedVec;
use crate::multipart::{
    closing_bytes, file_disposition, file_part_bytes, text_field_bytes, write_closing, write_file_field,
    write_text_field,
};
use crate::openai::request::{namespace_option, openai_option, opts_map};
use crate::openai::stream::ochars;

verus! {

/// The ISO 639-1 code of a language name as the transcription endpoint
/// reports it (e.g. `english` is `en`).
pub open spec fn language_code_spec(name: Seq<char>) -> Option<Seq<char>> {
    if name == "afrikaans"@ {
        Some("af"@)
    } else if name == "arabic"@ {
        Some("ar"@)
    } else if name == "armenian"@ {
        Some("hy"@)
    } else if name == "azerbaijani"@ {
        Some("az"@)
    } else if name == "belarusian"@ {
        Some("be"@)
    } else if name == "bosnian"@ {
        Some("bs"@)
    } else if name == "bulgarian"@ {
        Some("bg"@)
    } else if name == "catalan"@ {
        Some("ca"@)
    } else if name == "chinese"@ {
        Some("zh"@)
    } else if name == "croatian"@ {
        Some("hr"@)
    } else if name == "czech"@ {
        Some("cs"@)
    } else if name == "danish"@ {
        Some("da"@)
    } else if name == "dutch"@ {
        Some("nl"@)
    } else if name == "english"@ {
        Some("en"@)
    } else if name == "estonian"@ {
        Some("et"@)
    } else if name == "finnish"@ {
        Some("fi"@)
    } else if name == "french"@ {
        Some("fr"@)
    } else if name == "galician"@ {
        Some("gl"@)
    } else if name == "german"@ {
        Some("de"@)
    } else if name == "greek"@ {
        Some("el"@)
    } else if name == "hebrew"@ {
        Some("he"@)
    } else if name == "hindi"@ {
        Some("hi"@)
    } else if name == "hungarian"@ {
        Some("hu"@)
    } else if name == "icelandic"@ {
        Some("is"@)
    } else if name == "indonesian"@ {
        Some("id"@)
    } else if name == "italian"@ {
        Some("it"@)
    } else if name == "japanese"@ {
        Some("ja"@)
    } else if name == "kannada"@ {
        Some("kn"@)
    } else if name == "kazakh"@ {
        Some("kk"@)
    } else if name == "korean"@ {
        Some("ko"@)
    } else if name == "latvian"@ {
        Some("lv"@)
    } else if name == "lithuanian"@ {
        Some("lt"@)
    } else if name == "macedonian"@ {
        Some("mk"@)
    } else if name == "malay"@ {
        Some("ms"@)
    } else if name == "marathi"@ {
        Some("mr"@)
    } else if name == "maori"@ {
        Some("mi"@)
    } else if name == "nepali"@ {
        Some("ne"@)
    } else if name == "norwegian"@ {
        Some("no"@)
    } else if name == "persian"@ {
        Some("fa"@)
    } else if name == "polish"@ {
        Some("pl"@)
    } else if name == "portuguese"@ {
        Some("pt"@)
    } else if name == "romanian"@ {
        Some("ro"@)
    } else if name == "russian"@ {
        Some("ru"@)
    } else if name == "serbian"@ {
        Some("sr"@)
    } else if name == "slovak"@ {
        Some("sk"@)
    } else if name == "slovenian"@ {
        Some("sl"@)
    } else if name == "spanish"@ {
        Some("es"@)
    } else if name == "swahili"@ {
        Some("sw"@)
    } else if name == "swedish"@ {
        Some("sv"@)
    } else if name == "tagalog"@ {
        Some("tl"@)
    } else if name == "tamil"@ {
        Some("ta"@)
    } else if name == "thai"@ {
        Some("th"@)
    } else if name == "turkish"@ {
        Some("tr"@)
    } else if name == "ukrainian"@ {
        Some("uk"@)
    } else if name == "urdu"@ {
        Some("ur"@)
    } else if name == "vietnamese"@ {
        Some("vi"@)
    } else if name == "welsh"@ {
        Some("cy"@)
    } else {
        None
    }
}

/// The language name of an ISO 639-1 code, the inverse of
/// [`language_code_spec`].
pub open spec fn language_name_spec(code: Seq<char>) -> Option<Seq<char>> {
    if code == "af"@ {
        Some("afrikaans"@)
    } else if code == "ar"@ {
        Some("arabic"@)
    } else if code == "hy"@ {
        Some("armenian"@)
    } else if code == "az"@ {
        Some("azerbaijani"@)
    } else if code == "be"@ {
        Some("belarusian"@)
    } else if code == "bs"@ {
        Some("bosnian"@)
    } else if code == "bg"@ {
        Some("bulgarian"@)
    } else if code == "ca"@ {
        Some("catalan"@)
    } else if code == "zh"@ {
        Some("chinese"@)
    } else if code == "hr"@ {
        Some("croatian"@)
    } else if code == "cs"@ {
        Some("czech"@)
    } else if code == "da"@ {
        Some("danish"@)
    } else if code == "nl"@ {
        Some("dutch"@)
    } else if code == "en"@ {
        Some("english"@)
    } else if code == "et"@ {
        Some("estonian"@)
    } else if code == "fi"@ {
        Some("finnish"@)
    } else if code == "fr"@ {
        Some("french"@)
    } else if code == "gl"@ {
        Some("galician"@)
    } else if code == "de"@ {
        Some("german"@)
    } else if code == "el"@ {
        Some("greek"@)
    } else if code == "he"@ {
        Some("hebrew"@)
    } else if code == "hi"@ {
        Some("hindi"@)
    } else if code == "hu"@ {
        Some("hungarian"@)
    } else if code == "is"@ {
        Some("icelandic"@)
    } else if code == "id"@ {
        Some("indonesian"@)
    } else if code == "it"@ {
        Some("italian"@)
    } else if code == "ja"@ {
        Some("japanese"@)
    } else if code == "kn"@ {
        Some("kannada"@)
    } else if code == "kk"@ {
        Some("kazakh"@)
    } else if code == "ko"@ {
        Some("korean"@)
    } else if code == "lv"@ {
        Some("latvian"@)
    } else if code == "lt"@ {
        Some("lithuanian"@)
    } else if code == "mk"@ {
        Some("macedonian"@)
    } else if code == "ms"@ {
        Some("malay"@)
    } else if code == "mr"@ {
        Some("marathi"@)
    } else if code == "mi"@ {
        Some("maori"@)
    } else if code == "ne"@ {
        Some("nepali"@)
    } else if code == "no"@ {
        Some("norwegian"@)
    } else if code == "fa"@ {
        Some("persian"@)
    } else if code == "pl"@ {
        Some("polish"@)
    } else if code == "pt"@ {
        Some("portuguese"@)
    } else if code == "ro"@ {
        Some("romanian"@)
    } else if code == "ru"@ {
        Some("russian"@)
    } else if code == "sr"@ {
        Some("serbian"@)
    } else if code == "sk"@ {
        Some("slovak"@)
    } else if code == "sl"@ {
        Some("slovenian"@)
    } else if code == "es"@ {
        Some("spanish"@)
    } else if code == "sw"@ {
        Some("swahili"@)
    } else if code == "sv"@ {
        Some("swedish"@)
    } else if code == "tl"@ {
        Some("tagalog"@)
    } else if code == "ta"@ {
        Some("tamil"@)
    } else if code == "th"@ {
        Some("thai"@)
    } else if code == "tr"@ {
        Some("turkish"@)
    } else if code == "uk"@ {
        Some("ukrainian"@)
    } else if code == "ur"@ {
        Some("urdu"@)
    } else if code == "vi"@ {
        Some("vietnamese"@)
    } else if code == "cy"@ {
        Some("welsh"@)
    } else {
        None
    }
}

/// A two-letter lowercase code.
pub open spec fn is_lowercase_code(c: Seq<char>) -> bool {
    c.len() == 2 && 'a' <= c[0] <= 'z' && 'a' <= c[1] <= 'z'
}

/// Every language code is two lowercase letters, and each belongs to one
/// language name only: the code leads back to its name.
#[verifier::rlimit(100)]
pub proof fn law_language_codes(name: Seq<char>)
    ensures
        language_code_spec(name) matches Some(c) ==> is_lowercase_code(c) && language_name_spec(c) == Some(name),
{
    reveal_strlit("afrikaans");
    reveal_strlit("af");
    reveal_strlit("arabic");
    reveal_strlit("ar");
    reveal_strlit("armenian");
    reveal_strlit("hy");
    reveal_strlit("azerbaijani");
    reveal_strlit("az");
    reveal_strlit("belarusian");
    reveal_strlit("be");
    reveal_strlit("bosnian");
    reveal_strlit("bs");
    reveal_strlit("bulgarian");
    reveal_strlit("bg");
    reveal_strlit("catalan");
    reveal_strlit("ca");
    reveal_strlit("chinese");
    reveal_strlit("zh");
    reveal_strlit("croatian");
    reveal_strlit("hr");
    reveal_strlit("czech");
    reveal_strlit("cs");
    reveal_strlit("danish");
    reveal_strlit("da");
    reveal_strlit("dutch");
    reveal_strlit("nl");
    reveal_strlit("english");
    reveal_strlit("en");
    reveal_strlit("estonian");
    reveal_strlit("et");
    reveal_strlit("finnish");
    reveal_strlit("fi");
    reveal_strlit("french");
    reveal_strlit("fr");
    reveal_strlit("galician");
    reveal_strlit("gl");
    reveal_strlit("german");
    reveal_strlit("de");
    reveal_strlit("greek");
    reveal_strlit("el");
    reveal_strlit("hebrew");
    reveal_strlit("he");
    reveal_strlit("hindi");
    reveal_strlit("hi");
    reveal_strlit("hungarian");
    reveal_strlit("hu");
    reveal_strlit("icelandic");
    reveal_strlit("is");
    reveal_strlit("indonesian");
    reveal_strlit("id");
    reveal_strlit("italian");
    reveal_strlit("it");
    reveal_strlit("japanese");
    reveal_strlit("ja");
    reveal_strlit("kannada");
    reveal_strlit("kn");
    reveal_strlit("kazakh");
    reveal_strlit("kk");
    reveal_strlit("korean");
    reveal_strlit("ko");
    reveal_strlit("latvian");
    reveal_strlit("lv");
    reveal_strlit("lithuanian");
    reveal_strlit("lt");
    reveal_strlit("macedonian");
    reveal_strlit("mk");
    reveal_strlit("malay");
    reveal_strlit("ms");
    reveal_strlit("marathi");
    reveal_strlit("mr");
    reveal_strlit("maori");
    reveal_strlit("mi");
    reveal_strlit("nepali");
    reveal_strlit("ne");
    reveal_strlit("norwegian");
    reveal_strlit("no");
    reveal_strlit("persian");
    reveal_strlit("fa");
    reveal_strlit("polish");
    reveal_strlit("pl");
    reveal_strlit("portuguese");
    reveal_strlit("pt");
    reveal_strlit("romanian");
    reveal_strlit("ro");
    reveal_strlit("russian");
    reveal_strlit("ru");
    reveal_strlit("serbian");
    reveal_strlit("sr");
    reveal_strlit("slovak");
    reveal_strlit("sk");
    reveal_strlit("slovenian");
    reveal_strlit("sl");
    reveal_strlit("spanish");
    reveal_strlit("es");
    reveal_strlit("swahili");
    reveal_strlit("sw");
    reveal_strlit("swedish");
    reveal_strlit("sv");
    reveal_strlit("tagalog");
    reveal_strlit("tl");
    reveal_strlit("tamil");
    reveal_strlit("ta");
    reveal_strlit("thai");
    reveal_strlit("th");
    reveal_strlit("turkish");
    reveal_strlit("tr");
    reveal_strlit("ukrainian");
    reveal_strlit("uk");
    reveal_strlit("urdu");
    reveal_strlit("ur");
    reveal_strlit("vietnamese");
    reveal_strlit("vi");
    reveal_strlit("welsh");
    reveal_strlit("cy");
    if name == "afrikaans"@ {
        assert(language_code_spec(name) == Some("af"@));
        assert(is_lowercase_code("af"@));
        assert(language_name_spec("af"@) == Some(name));
    } else if name == "arabic"@ {
        assert(language_code_spec(name) == Some("ar"@));
        assert(is_lowercase_code("ar"@));
        assert(language_name_spec("ar"@) == Some(name));
    } else if name == "armenian"@ {
        assert(language_code_spec(name) == Some("hy"@));
        assert(is_lowercase_code("hy"@));
        assert(language_name_spec("hy"@) == Some(name));
    } else if name == "azerbaijani"@ {
        assert(language_code_spec(name) == Some("az"@));
        assert(is_lowercase_code("az"@));
        assert(language_name_spec("az"@) == Some(name));
    } else if name == "belarusian"@ {
        assert(language_code_spec(name) == Some("be"@));
        assert(is_lowercase_code("be"@));
        assert(language_name_spec("be"@) == Some(name));
    } else if name == "bosnian"@ {
        assert(language_code_spec(name) == Some("bs"@));
        assert(is_lowercase_code("bs"@));
        assert(language_name_spec("bs"@) == Some(name));
    } else if name == "bulgarian"@ {
        assert(language_code_spec(name) == Some("bg"@));
        assert(is_lowercase_code("bg"@));
        assert(language_name_spec("bg"@) == Some(name));
    } else if name == "catalan"@ {
        assert(language_code_spec(name) == Some("ca"@));
        assert(is_lowercase_code("ca"@));
        assert(language_name_spec("ca"@) == Some(name));
    } else if name == "chinese"@ {
        assert(language_code_spec(name) == Some("zh"@));
        assert(is_lowercase_code("zh"@));
        assert(language_name_spec("zh"@) == Some(name));
    } else if name == "croatian"@ {
        assert(language_code_spec(name) == Some("hr"@));
        assert(is_lowercase_code("hr"@));
        assert(language_name_spec("hr"@) == Some(name));
    } else if name == "czech"@ {
        assert(language_code_spec(name) == Some("cs"@));
        assert(is_lowercase_code("cs"@));
        assert(language_name_spec("cs"@) == Some(name));
    } else if name == "danish"@ {
        assert(language_code_spec(name) == Some("da"@));
        assert(is_lowercase_code("da"@));
        assert(language_name_spec("da"@) == Some(name));
    } else if name == "dutch"@ {
        assert(language_code_spec(name) == Some("nl"@));
        assert(is_lowercase_code("nl"@));
        assert(language_name_spec("nl"@) == Some(name));
    } else if name == "english"@ {
        assert(language_code_spec(name) == Some("en"@));
        assert(is_lowercase_code("en"@));
        assert(language_name_spec("en"@) == Some(name));
    } else if name == "estonian"@ {
        assert(language_code_spec(name) == Some("et"@));
        assert(is_lowercase_code("et"@));
        assert(language_name_spec("et"@) == Some(name));
    } else if name == "finnish"@ {
        assert(language_code_spec(name) == Some("fi"@));
        assert(is_lowercase_code("fi"@));
        assert(language_name_spec("fi"@) == Some(name));
    } else if name == "french"@ {
        assert(language_code_spec(name) == Some("fr"@));
        assert(is_lowercase_code("fr"@));
        assert(language_name_spec("fr"@) == Some(name));
    } else if name == "galician"@ {
        assert(language_code_spec(name) == Some("gl"@));
        assert(is_lowercase_code("gl"@));
        assert(language_name_spec("gl"@) == Some(name));
    } else if name == "german"@ {
        assert(language_code_spec(name) == Some("de"@));
        assert(is_lowercase_code("de"@));
        assert(language_name_spec("de"@) == Some(name));
    } else if name == "greek"@ {
        assert(language_code_spec(name) == Some("el"@));
        assert(is_lowercase_code("el"@));
        assert(language_name_spec("el"@) == Some(name));
    } else if name == "hebrew"@ {
        assert(language_code_spec(name) == Some("he"@));
        assert(is_lowercase_code("he"@));
        assert(language_name_spec("he"@) == Some(name));
    } else if name == "hindi"@ {
        assert(language_code_spec(name) == Some("hi"@));
        assert(is_lowercase_code("hi"@));
        assert(language_name_spec("hi"@) == Some(name));
    } else if name == "hungarian"@ {
        assert(language_code_spec(name) == Some("hu"@));
        assert(is_lowercase_code("hu"@));
        assert(language_name_spec("hu"@) == Some(name));
    } else if name == "icelandic"@ {
        assert(language_code_spec(name) == Some("is"@));
        assert(is_lowercase_code("is"@));
        assert(language_name_spec("is"@) == Some(name));
    } else if name == "indonesian"@ {
        assert(language_code_spec(name) == Some("id"@));
        assert(is_lowercase_code("id"@));
        assert(language_name_spec("id"@) == Some(name));
    } else if name == "italian"@ {
        assert(language_code_spec(name) == Some("it"@));
        assert(is_lowercase_code("it"@));
        assert(language_name_spec("it"@) == Some(name));
    } else if name == "japanese"@ {
        assert(language_code_spec(name) == Some("ja"@));
        assert(is_lowercase_code("ja"@));
        assert(language_name_spec("ja"@) == Some(name));
    } else if name == "kannada"@ {
        assert(language_code_spec(name) == Some("kn"@));
        assert(is_lowercase_code("kn"@));
        assert(language_name_spec("kn"@) == Some(name));
    } else if name == "kazakh"@ {
        assert(language_code_spec(name) == Some("kk"@));
        assert(is_lowercase_code("kk"@));
        assert(language_name_spec("kk"@) == Some(name));
    } else if name == "korean"@ {
        assert(language_code_spec(name) == Some("ko"@));
        assert(is_lowercase_code("ko"@));
        assert(language_name_spec("ko"@) == Some(name));
    } else if name == "latvian"@ {
        assert(language_code_spec(name) == Some("lv"@));
        assert(is_lowercase_code("lv"@));
        assert(language_name_spec("lv"@) == Some(name));
    } else if name == "lithuanian"@ {
        assert(language_code_spec(name) == Some("lt"@));
        assert(is_lowercase_code("lt"@));
        assert(language_name_spec("lt"@) == Some(name));
    } else if name == "macedonian"@ {
        assert(language_code_spec(name) == Some("mk"@));
        assert(is_lowercase_code("mk"@));
        assert(language_name_spec("mk"@) == Some(name));
    } else if name == "malay"@ {
        assert(language_code_spec(name) == Some("ms"@));
        assert(is_lowercase_code("ms"@));
        assert(language_name_spec("ms"@) == Some(name));
    } else if name == "marathi"@ {
        assert(language_code_spec(name) == Some("mr"@));
        assert(is_lowercase_code("mr"@));
        assert(language_name_spec("mr"@) == Some(name));
    } else if name == "maori"@ {
        assert(language_code_spec(name) == Some("mi"@));
        assert(is_lowercase_code("mi"@));
        assert(language_name_spec("mi"@) == Some(name));
    } else if name == "nepali"@ {
        assert(language_code_spec(name) == Some("ne"@));
        assert(is_lowercase_code("ne"@));
        assert(language_name_spec("ne"@) == Some(name));
    } else if name == "norwegian"@ {
        assert(language_code_spec(name) == Some("no"@));
        assert(is_lowercase_code("no"@));
        assert(language_name_spec("no"@) == Some(name));
    } else if name == "persian"@ {
        assert(language_code_spec(name) == Some("fa"@));
        assert(is_lowercase_code("fa"@));
        assert(language_name_spec("fa"@) == Some(name));
    } else if name == "polish"@ {
        assert(language_code_spec(name) == Some("pl"@));
        assert(is_lowercase_code("pl"@));
        assert(language_name_spec("pl"@) == Some(name));
    } else if name == "portuguese"@ {
        assert(language_code_spec(name) == Some("pt"@));
        assert(is_lowercase_code("pt"@));
        assert(language_name_spec("pt"@) == Some(name));
    } else if name == "romanian"@ {
        assert(language_code_spec(name) == Some("ro"@));
        assert(is_lowercase_code("ro"@));
        assert(language_name_spec("ro"@) == Some(name));
    } else if name == "russian"@ {
        assert(language_code_spec(name) == Some("ru"@));
        assert(is_lowercase_code("ru"@));
        assert(language_name_spec("ru"@) == Some(name));
    } else if name == "serbian"@ {
        assert(language_code_spec(name) == Some("sr"@));
        assert(is_lowercase_code("sr"@));
        assert(language_name_spec("sr"@) == Some(name));
    } else if name == "slovak"@ {
        assert(language_code_spec(name) == Some("sk"@));
        assert(is_lowercase_code("sk"@));
        assert(language_name_spec("sk"@) == Some(name));
    } else if name == "slovenian"@ {
        assert(language_code_spec(name) == Some("sl"@));
        assert(is_lowercase_code("sl"@));
        assert(language_name_spec("sl"@) == Some(name));
    } else if name == "spanish"@ {
        assert(language_code_spec(name) == Some("es"@));
        assert(is_lowercase_code("es"@));
        assert(language_name_spec("es"@) == Some(name));
    } else if name == "swahili"@ {
        assert(language_code_spec(name) == Some("sw"@));
        assert(is_lowercase_code("sw"@));
        assert(language_name_spec("sw"@) == Some(name));
    } else if name == "swedish"@ {
        assert(language_code_spec(name) == Some("sv"@));
        assert(is_lowercase_code("sv"@));
        assert(language_name_spec("sv"@) == Some(name));
    } else if name == "tagalog"@ {
        assert(language_code_spec(name) == Some("tl"@));
        assert(is_lowercase_code("tl"@));
        assert(language_name_spec("tl"@) == Some(name));
    } else if name == "tamil"@ {
        assert(language_code_spec(name) == Some("ta"@));
        assert(is_lowercase_code("ta"@));
        assert(language_name_spec("ta"@) == Some(name));
    } else if name == "thai"@ {
        assert(language_code_spec(name) == Some("th"@));
        assert(is_lowercase_code("th"@));
        assert(language_name_spec("th"@) == Some(name));
    } else if name == "turkish"@ {
        assert(language_code_spec(name) == Some("tr"@));
        assert(is_lowercase_code("tr"@));
        assert(language_name_spec("tr"@) == Some(name));
    } else if name == "ukrainian"@ {
        assert(language_code_spec(name) == Some("uk"@));
        assert(is_lowercase_code("uk"@));
        assert(language_name_spec("uk"@) == Some(name));
    } else if name == "urdu"@ {
        assert(language_code_spec(name) == Some("ur"@));
        assert(is_lowercase_code("ur"@));
        assert(language_name_spec("ur"@) == Some(name));
    } else if name == "vietnamese"@ {
        assert(language_code_spec(name) == Some("vi"@));
        assert(is_lowercase_code("vi"@));
        assert(language_name_spec("vi"@) == Some(name));
    } else if name == "welsh"@ {
        assert(language_code_spec(name) == Some("cy"@));
        assert(is_lowercase_code("cy"@));
        assert(language_name_spec("cy"@) == Some(name));
    } else {
        assert(language_code_spec(name) is None);
    }
}

/// Two names with the same code are the same name.
pub proof fn law_language_codes_injective(a: Seq<char>, b: Seq<char>)
    requires
        language_code_spec(a) is Some,
        language_code_spec(a) == language_code_spec(b),
    ensures
        a == b,
{
    law_language_codes(a);
    law_language_codes(b);
}


/// Maps a full language name to its ISO 639-1 code.
pub fn language_name_to_code(name: &str) -> (r: Option<&'static str>)
    ensures
        match r {
            Some(c) => language_code_spec(name@) == Some(c@),
            None => language_code_spec(name@) is None,
        },
{
    if str_eq(name, "afrikaans") {
        Some("af")
    } else if str_eq(name, "arabic") {
        Some("ar")
    } else if str_eq(name, "armenian") {
        Some("hy")
    } else if str_eq(name, "azerbaijani") {
        Some("az")
    } else if str_eq(name, "belarusian") {
        Some("be")
    } else if str_eq(name, "bosnian") {
        Some("bs")
    } else if str_eq(name, "bulgarian") {
        Some("bg")
    } else if str_eq(name, "catalan") {
        Some("ca")
    } else if str_eq(name, "chinese") {
        Some("zh")
    } else if str_eq(name, "croatian") {
        Some("hr")
    } else if str_eq(name, "czech") {
        Some("cs")
    } else if str_eq(name, "danish") {
        Some("da")
    } else if str_eq(name, "dutch") {
        Some("nl")
    } else if str_eq(name, "english") {
        Some("en")
    } else if str_eq(name, "estonian") {
        Some("et")
    } else if str_eq(name, "finnish") {
        Some("fi")
    } else if str_eq(name, "french") {
        Some("fr")
    } else if str_eq(name, "galician") {
        Some("gl")
    } else if str_eq(name, "german") {
        Some("de")
    } else if str_eq(name, "greek") {
        Some("el")
    } else if str_eq(name, "hebrew") {
        Some("he")
    } else if str_eq(name, "hindi") {
        Some("hi")
    } else if str_eq(name, "hungarian") {
        Some("hu")
    } else if str_eq(name, "icelandic") {
        Some("is")
    } else if str_eq(name, "indonesian") {
        Some("id")
    } else if str_eq(name, "italian") {
        Some("it")
    } else if str_eq(name, "japanese") {
        Some("ja")
    } else if str_eq(name, "kannada") {
        Some("kn")
    } else if str_eq(name, "kazakh") {
        Some("kk")
    } else if str_eq(name, "korean") {
        Some("ko")
    } else if str_eq(name, "latvian") {
        Some("lv")
    } else if str_eq(name, "lithuanian") {
        Some("lt")
    } else if str_eq(name, "macedonian") {
        Some("mk")
    } else if str_eq(name, "malay") {
        Some("ms")
    } else if str_eq(name, "marathi") {
        Some("mr")
    } else if str_eq(name, "maori") {
        Some("mi")
    } else if str_eq(name, "nepali") {
        Some("ne")
    } else if str_eq(name, "norwegian") {
        Some("no")
    } else if str_eq(name, "persian") {
        Some("fa")
    } else if str_eq(name, "polish") {
        Some("pl")
    } else if str_eq(name, "portuguese") {
        Some("pt")
    } else if str_eq(name, "romanian") {
        Some("ro")
    } else if str_eq(name, "russian") {
        Some("ru")
    } else if str_eq(name, "serbian") {
        Some("sr")
    } else if str_eq(name, "slovak") {
        Some("sk")
    } else if str_eq(name, "slovenian") {
        Some("sl")
    } else if str_eq(name, "spanish") {
        Some("es")
    } else if str_eq(name, "swahili") {
        Some("sw")
    } else if str_eq(name, "swedish") {
        Some("sv")
    } else if str_eq(name, "tagalog") {
        Some("tl")
    } else if str_eq(name, "tamil") {
        Some("ta")
    } else if str_eq(name, "thai") {
        Some("th")
    } else if str_eq(name, "turkish") {
        Some("tr")
    } else if str_eq(name, "ukrainian") {
        Some("uk")
    } else if str_eq(name, "urdu") {
        Some("ur")
    } else if str_eq(name, "vietnamese") {
        Some("vi")
    } else if str_eq(name, "welsh") {
        Some("cy")
    } else {
        None
    }
}

/// Realtime transcription models (`gpt-realtime-whisper` and its dated
/// snapshots), which do not serve the REST endpoint.
pub open spec fn is_realtime_transcription_spec(model_id: Seq<char>) -> bool {
    model_id == "gpt-realtime-whisper"@ || is_prefix("gpt-realtime-whisper-"@, model_id)
}

/// Whether a model id names a realtime transcription model.
pub fn is_realtime_transcription_model_id(model_id: &str) -> (b: bool)
    ensures
        b == is_realtime_transcription_spec(model_id@),
{
    str_eq(model_id, "gpt-realtime-whisper") || str_starts_with(model_id, "gpt-realtime-whisper-")
}

/// An OpenAI-compatible transcription (speech-to-text) model.
#[derive(Debug)]
pub struct OpenAITranscriptionModel {
    model_id: String,
    config: OpenAIConfig,
}

impl OpenAITranscriptionModel {
    pub fn new(model_id: String, config: OpenAIConfig) -> (m: Self)
        ensures
            m.model_id_spec() == model_id@,
            m.config_spec() == config,
    {
        OpenAITranscriptionModel { model_id, config }
    }

    /// The model id.
    pub closed spec fn model_id_spec(&self) -> Seq<char> {
        self.model_id@
    }

    /// The configuration.
    pub closed spec fn config_spec(&self) -> OpenAIConfig {
        self.config
    }

    /// The provider name of the configuration.
    pub fn provider(&self) -> (s: &str)
        ensures
            s@ == self.config_spec().provider@,
    {
        self.config.provider.as_str()
    }

    /// The model id.
    pub fn model_id(&self) -> (s: &str)
        ensures
            s@ == self.model_id_spec(),
    {
        self.model_id.as_str()
    }

    /// Request headers: the configuration's, then the per-call ones.
    pub fn build_headers(&self, extra: Option<&HeaderMap>) -> (h: HeaderMap)
        ensures
            h@ == openai_auth_headers(self.config_spec()).union_prefer_right(opt_headers_ref(extra)),
    {
        openai_request_headers(&self.config, extra)
    }

    /// `{base_url}/audio/transcriptions`.
    pub fn endpoint(&self) -> (r: String)
        ensures
            r@ == self.config_spec().base_url@ + "/audio/transcriptions"@,
    {
        endpoint_url(self.config.base_url.as_str(), "/audio/transcriptions")
    }
}

// ── Provider options and the form ────────────────────────────────────────

/// Transcription options read from `providerOptions.openai`.
#[derive(Debug)]
pub struct OpenAITranscriptionOptions {
    /// The extras to include in the response.
    pub extras: Option<Vec<String>>,
    pub language: Option<String>,
    pub prompt: Option<String>,
    /// The temperature, as the JSON number it was given as.
    pub temperature: Option<JsonValue>,
    pub timestamp_granularities: Option<Vec<String>>,
}

/// The strings among a list of values, in order.
pub open spec fn strings_among(vs: Seq<Json>) -> Seq<Seq<char>>
    decreases vs.len(),
{
    if vs.len() == 0 {
        Seq::empty()
    } else {
        let r = strings_among(vs.drop_last());
        match vs.last() {
            Json::String(s) => r.push(s),
            _ => r,
        }
    }
}

/// The strings of an array option.
pub open spec fn string_list_option(o: Option<Json>) -> Option<Seq<Seq<char>>> {
    match o {
        Some(Json::Array(vs)) => Some(strings_among(vs)),
        _ => None,
    }
}

/// A string option.
pub open spec fn string_opt(o: Option<Json>) -> Option<Seq<char>> {
    match o {
        Some(Json::String(s)) => Some(s),
        _ => None,
    }
}

/// A list of strings by their characters.
pub open spec fn strings_view(o: Option<Vec<String>>) -> Option<Seq<Seq<char>>> {
    match o {
        Some(v) => Some(v@.map_values(|s: String| s@)),
        None => None,
    }
}

/// The strings among a list of values.
fn strings_of(vs: &Vec<JsonValue>) -> (r: Vec<String>)
    ensures
        r@.map_values(|s: String| s@) == strings_among(crate::openai::messages::values_view(vs@)),
{
    let ghost vv = crate::openai::messages::values_view(vs@);
    let mut r: Vec<String> = Vec::new();
    assert(r@.map_values(|s: String| s@) =~= Seq::<Seq<char>>::empty());
    let mut k: usize = 0;
    while k < vs.len()
        invariant
            0 <= k <= vs@.len(),
            vv == crate::openai::messages::values_view(vs@),
            r@.map_values(|s: String| s@) == strings_among(vv.subrange(0, k as int)),
        decreases vs@.len() - k,
    {
        proof {
            let sub = vv.subrange(0, k + 1);
            assert(sub.drop_last() =~= vv.subrange(0, k as int));
            assert(sub.last() == vv[k as int]);
        }
        match &vs[k] {
            JsonValue::String(s) => {
                let ghost before = r@;
                r.push(s.clone());
                assert(r@.map_values(|x: String| x@) =~= before.map_values(|x: String| x@).push(s@));
            },
            _ => {},
        }
        k += 1;
    }
    assert(vv.subrange(0, vv.len() as int) =~= vv);
    r
}

/// The strings of an array option.
fn string_list_of(o: Option<JsonValue>) -> (r: Option<Vec<String>>)
    ensures
        strings_view(r) == string_list_option(opt_json_view(o)),
{
    match o {
        Some(JsonValue::Array(vs)) => {
            proof {
                crate::json::lemma_items_view(vs@);
                assert(crate::json::items_view(vs@) =~= crate::openai::messages::values_view(vs@));
            }
            Some(strings_of(&vs))
        },
        _ => None,
    }
}

/// Reads the transcription options from `providerOptions.openai`: the
/// string lists `include` and `timestampGranularities`, the strings
/// `language` and `prompt`, and a numeric `temperature`.
pub fn parse_openai_options(provider_options: Option<&KeyedVec<JsonValue>>) -> (r: OpenAITranscriptionOptions)
    ensures
        strings_view(r.extras) == string_list_option(namespace_option(opts_map(provider_options), "openai"@, "include"@)),
        ochars(r.language) == string_opt(namespace_option(opts_map(provider_options), "openai"@, "language"@)),
        ochars(r.prompt) == string_opt(namespace_option(opts_map(provider_options), "openai"@, "prompt"@)),
        opt_json_view(r.temperature) == match namespace_option(opts_map(provider_options), "openai"@, "temperature"@) {
            Some(Json::Number(n)) => Some(Json::Number(n)),
            _ => None,
        },
        strings_view(r.timestamp_granularities) == string_list_option(
            namespace_option(opts_map(provider_options), "openai"@, "timestampGranularities"@),
        ),
{
    let extras = string_list_of(openai_option(provider_options, "include"));
    let language = match openai_option(provider_options, "language") {
        Some(JsonValue::String(s)) => Some(s),
        _ => None,
    };
    let prompt = match openai_option(provider_options, "prompt") {
        Some(JsonValue::String(s)) => Some(s),
        _ => None,
    };
    let temperature = match openai_option(provider_options, "temperature") {
        Some(JsonValue::Number(n)) => Some(JsonValue::Number(n)),
        _ => None,
    };
    let timestamp_granularities = string_list_of(openai_option(provider_options, "timestampGranularities"));
    OpenAITranscriptionOptions { extras, language, prompt, temperature, timestamp_granularities }
}

/// Repeated form fields, one per value.
pub open spec fn repeated(name: Seq<char>, values: Option<Seq<Seq<char>>>) -> Seq<(Seq<char>, Seq<char>)> {
    match values {
        Some(vs) => Seq::new(vs.len(), |i: int| (name, vs[i])),
        None => Seq::empty(),
    }
}

/// An optional form field.
pub open spec fn optional_field(name: Seq<char>, value: Option<Seq<char>>) -> Seq<(Seq<char>, Seq<char>)> {
    match value {
        Some(v) => seq![(name, v)],
        None => Seq::empty(),
    }
}

/// The text fields sent after the audio file: the response format
/// (`json` for the GPT-4o transcribe models, else `verbose_json`), the
/// included extras, language, prompt, temperature and timestamp
/// granularities; a temperature of `0` when provider options were given
/// without one.
pub open spec fn transcription_fields_spec(
    model_id: Seq<char>,
    o: OpenAITranscriptionOptions,
    has_provider_options: bool,
    temperature_text: Option<Seq<char>>,
) -> Seq<(Seq<char>, Seq<char>)> {
    let format = if model_id == "gpt-4o-transcribe"@ || model_id == "gpt-4o-mini-transcribe"@ {
        "json"@
    } else {
        "verbose_json"@
    };
    seq![("response_format"@, format)] + repeated("include[]"@, strings_view(o.extras)) + optional_field(
        "language"@,
        ochars(o.language),
    ) + optional_field("prompt"@, ochars(o.prompt)) + optional_field("temperature"@, temperature_text) + repeated(
        "timestamp_granularities[]"@,
        strings_view(o.timestamp_granularities),
    ) + if has_provider_options && temperature_text is None {
        seq![("temperature"@, "0"@)]
    } else {
        Seq::empty()
    }
}

/// The bytes of text fields, in order.
pub open spec fn fields_bytes(boundary: Seq<char>, fields: Seq<(Seq<char>, Seq<char>)>) -> Seq<u8>
    decreases fields.len(),
{
    if fields.len() == 0 {
        Seq::empty()
    } else {
        fields_bytes(boundary, fields.drop_last()) + text_field_bytes(boundary, fields.last().0, fields.last().1)
    }
}

/// Appends the text fields.
fn write_fields(body: &mut Vec<u8>, boundary: &str, fields: &Vec<(String, String)>)
    ensures
        final(body)@ == old(body)@ + fields_bytes(boundary@, fields@.map_values(|f: (String, String)| (f.0@, f.1@))),
{
    let ghost fv = fields@.map_values(|f: (String, String)| (f.0@, f.1@));
    let ghost b0 = body@;
    assert(b0 + Seq::<u8>::empty() =~= b0);
    let mut k: usize = 0;
    while k < fields.len()
        invariant
            0 <= k <= fields@.len(),
            fv == fields@.map_values(|f: (String, String)| (f.0@, f.1@)),
            body@ == b0 + fields_bytes(boundary@, fv.subrange(0, k as int)),
        decreases fields@.len() - k,
    {
        proof {
            let sub = fv.subrange(0, k + 1);
            assert(sub.drop_last() =~= fv.subrange(0, k as int));
            assert(sub.last() == fv[k as int]);
        }
        let ghost before = body@;
        write_text_field(body, boundary, fields[k].0.as_str(), fields[k].1.as_str());
        assert(b0 + fields_bytes(boundary@, fv.subrange(0, k + 1)) =~= before + text_field_bytes(
            boundary@,
            fv[k as int].0,
            fv[k as int].1,
        ));
        k += 1;
    }
    assert(fv.subrange(0, fv.len() as int) =~= fv);
}

/// Appends a field to a list.
fn push_field(fields: &mut Vec<(String, String)>, name: &str, value: String)
    ensures
        final(fields)@.map_values(|f: (String, String)| (f.0@, f.1@)) == old(fields)@.map_values(
            |f: (String, String)| (f.0@, f.1@),
        ).push((name@, value@)),
{
    let ghost before = fields@;
    let ghost vv = value@;
    fields.push((String::from_str(name), value));
    assert(fields@.map_values(|f: (String, String)| (f.0@, f.1@)) =~= before.map_values(
        |f: (String, String)| (f.0@, f.1@),
    ).push((name@, vv)));
}

/// Appends one field per value.
fn push_repeated(fields: &mut Vec<(String, String)>, name: &str, values: &Option<Vec<String>>)
    ensures
        final(fields)@.map_values(|f: (String, String)| (f.0@, f.1@)) == old(fields)@.map_values(
            |f: (String, String)| (f.0@, f.1@),
        ) + repeated(name@, strings_view(*values)),
{
    let ghost f0 = fields@.map_values(|f: (String, String)| (f.0@, f.1@));
    match values {
        Some(vs) => {
            let ghost sv = vs@.map_values(|s: String| s@);
            let mut k: usize = 0;
            while k < vs.len()
                invariant
                    0 <= k <= vs@.len(),
                    sv == vs@.map_values(|s: String| s@),
                    fields@.map_values(|f: (String, String)| (f.0@, f.1@)) == f0 + Seq::new(
                        k as nat,
                        |i: int| (name@, sv[i]),
                    ),
                decreases vs@.len() - k,
            {
                push_field(fields, name, vs[k].clone());
                assert(f0 + Seq::new((k + 1) as nat, |i: int| (name@, sv[i])) =~= (f0 + Seq::new(
                    k as nat,
                    |i: int| (name@, sv[i]),
                )).push((name@, sv[k as int])));
                k += 1;
            }
        },
        None => {
            assert(f0 + Seq::<(Seq<char>, Seq<char>)>::empty() =~= f0);
        },
    }
}

/// The text fields sent after the audio file (see
/// [`transcription_fields_spec`]); the temperature is given as the text of
/// its floating-point value.
pub fn transcription_fields(
    model_id: &str,
    options: &OpenAITranscriptionOptions,
    has_provider_options: bool,
    temperature_text: Option<String>,
) -> (r: Vec<(String, String)>)
    ensures
        r@.map_values(|f: (String, String)| (f.0@, f.1@)) == transcription_fields_spec(
            model_id@,
            *options,
            has_provider_options,
            ochars(temperature_text),
        ),
{
    let mut fields: Vec<(String, String)> = Vec::new();
    assert(fields@.map_values(|f: (String, String)| (f.0@, f.1@)) =~= Seq::<(Seq<char>, Seq<char>)>::empty());
    let gpt4o = str_eq(model_id, "gpt-4o-transcribe") || str_eq(model_id, "gpt-4o-mini-transcribe");
    let format = if gpt4o {
        String::from_str("json")
    } else {
        String::from_str("verbose_json")
    };
    push_field(&mut fields, "response_format", format);
    push_repeated(&mut fields, "include[]", &options.extras);
    let ghost f1 = fields@.map_values(|f: (String, String)| (f.0@, f.1@));
    match &options.language {
        Some(l) => push_field(&mut fields, "language", l.clone()),
        None => {},
    }
    let ghost f2 = fields@.map_values(|f: (String, String)| (f.0@, f.1@));
    assert(f2 =~= f1 + optional_field("language"@, ochars(options.language)));
    match &options.prompt {
        Some(p) => push_field(&mut fields, "prompt", p.clone()),
        None => {},
    }
    let ghost f3 = fields@.map_values(|f: (String, String)| (f.0@, f.1@));
    assert(f3 =~= f2 + optional_field("prompt"@, ochars(options.prompt)));
    let no_temperature = temperature_text.is_none();
    let ghost tt = ochars(temperature_text);
    match temperature_text {
        Some(t) => push_field(&mut fields, "temperature", t),
        None => {},
    }
    let ghost f4 = fields@.map_values(|f: (String, String)| (f.0@, f.1@));
    assert(f4 =~= f3 + optional_field("temperature"@, tt));
    push_repeated(&mut fields, "timestamp_granularities[]", &options.timestamp_granularities);
    let ghost f5 = fields@.map_values(|f: (String, String)| (f.0@, f.1@));
    if has_provider_options && no_temperature {
        push_field(&mut fields, "temperature", String::from_str("0"));
    }
    proof {
        let extra = if has_provider_options && tt is None {
            seq![("temperature"@, "0"@)]
        } else {
            Seq::<(Seq<char>, Seq<char>)>::empty()
        };
        assert(fields@.map_values(|f: (String, String)| (f.0@, f.1@)) =~= f5 + extra);
    }
    fields
}

/// The transcription request form: the model, the audio file under
/// `file`, the text fields, and the closing delimiter.
pub open spec fn transcription_form_spec(
    boundary: Seq<char>,
    model_id: Seq<char>,
    filename: Seq<char>,
    media_type: Seq<char>,
    audio: Seq<u8>,
    fields: Seq<(Seq<char>, Seq<char>)>,
) -> Seq<u8> {
    text_field_bytes(boundary, "model"@, model_id) + file_part_bytes(
        boundary,
        file_disposition("file"@, filename),
        media_type,
        audio,
    ) + fields_bytes(boundary, fields) + closing_bytes(boundary)
}

/// Builds the transcription request form (see [`transcription_form_spec`]).
pub fn build_transcription_form(
    boundary: &str,
    model_id: &str,
    filename: &str,
    media_type: &str,
    audio: &[u8],
    fields: &Vec<(String, String)>,
) -> (r: Vec<u8>)
    ensures
        r@ == transcription_form_spec(
            boundary@,
            model_id@,
            filename@,
            media_type@,
            audio@,
            fields@.map_values(|f: (String, String)| (f.0@, f.1@)),
        ),
{
    let mut body: Vec<u8> = Vec::new();
    assert(body@ =~= Seq::<u8>::empty());
    write_text_field(&mut body, boundary, "model", model_id);
    write_file_field(&mut body, boundary, "file", filename, media_type, audio);
    write_fields(&mut body, boundary, fields);
    write_closing(&mut body, boundary);
    assert(body@ =~= transcription_form_spec(
        boundary@,
        model_id@,
        filename@,
        media_type@,
        audio@,
        fields@.map_values(|f: (String, String)| (f.0@, f.1@)),
    ));
    body
}

} // verus!
