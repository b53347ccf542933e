//! Assistant personality profiles: plain data describing how the assistant answers.
use vstd::prelude::*;

verus! {

#[derive(Debug, Clone, Copy, PartialEq, Eq, Structural)]
pub enum KnowledgeLevel {
    Beginner,
    Intermediate,
    Advanced,
    Expert,
}

#[derive(Debug, Clone, Copy, PartialEq, Eq, Structural)]
pub enum ResponseStyle {
    Concise,
    Detailed,
    Poetic,
    Technical,
}

#[derive(Debug, Clone, Copy, PartialEq, Eq, Structural)]
pub enum LanguageStyle {
    ClassicalArabic,
    ModernArabic,
    ModernTechnical,
    Mixed,
}

#[derive(Debug, Clone, Copy, PartialEq, Eq, Structural)]
pub enum ResponseLength {
    Short,
    Medium,
    Long,
}

#[derive(Debug)]
pub struct Preferences {
    pub preferred_language: String,
    pub technical_level: KnowledgeLevel,
    pub interests: Vec<String>,
    pub response_length: ResponseLength,
}

#[derive(Debug)]
pub struct Personality {
    pub name: String,
    pub traits: Vec<String>,
    pub knowledge_level: KnowledgeLevel,
    pub response_style: ResponseStyle,
    pub language_style: LanguageStyle,
}

fn strings(items: [&str; 5]) -> (r: Vec<String>)
    ensures
        r@.len() == 5,
        forall|i: int| 0 <= i < 5 ==> (#[trigger] r@[i])@ == items@[i]@,
{
    let mut out: Vec<String> = Vec::new();
    let mut i: usize = 0;
    while i < 5
        invariant
            0 <= i <= 5,
            out@.len() == i,
            forall|j: int| 0 <= j < i ==> (#[trigger] out@[j])@ == items@[j]@,
        decreases 5 - i,
    {
        out.push(items[i].to_string());
        i = i + 1;
    }
    out
}

impl Personality {
    /// The scholar: expert knowledge, detailed answers in classical Arabic.
    pub fn islamic_scholar() -> (r: Self)
        ensures
            r.name@ == "العالم الإسلامي"@,
            r.traits@.len() == 5,
            r.traits@[0]@ == "حكيم"@,
            r.traits@[1]@ == "صبور"@,
            r.traits@[2]@ == "متعلم"@,
            r.traits@[3]@ == "متواضع"@,
            r.traits@[4]@ == "مبدع"@,
            r.knowledge_level == KnowledgeLevel::Expert,
            r.response_style == ResponseStyle::Detailed,
            r.language_style == LanguageStyle::ClassicalArabic,
    {
        Personality {
            name: "العالم الإسلامي".to_string(),
            traits: strings(["حكيم", "صبور", "متعلم", "متواضع", "مبدع"]),
            knowledge_level: KnowledgeLevel::Expert,
            response_style: ResponseStyle::Detailed,
            language_style: LanguageStyle::ClassicalArabic,
        }
    }

    /// The engineer: advanced knowledge, concise answers in modern technical language.
    pub fn technical_expert() -> (r: Self)
        ensures
            r.name@ == "الخبير التقني"@,
            r.traits@.len() == 5,
            r.traits@[0]@ == "دقيق"@,
            r.traits@[1]@ == "منطقي"@,
            r.traits@[2]@ == "مبتكر"@,
            r.traits@[3]@ == "سريع"@,
            r.traits@[4]@ == "عملي"@,
            r.knowledge_level == KnowledgeLevel::Advanced,
            r.response_style == ResponseStyle::Concise,
            r.language_style == LanguageStyle::ModernTechnical,
    {
        Personality {
            name: "الخبير التقني".to_string(),
            traits: strings(["دقيق", "منطقي", "مبتكر", "سريع", "عملي"]),
            knowledge_level: KnowledgeLevel::Advanced,
            response_style: ResponseStyle::Concise,
            language_style: LanguageStyle::ModernTechnical,
        }
    }
}

} // verus!
