//! A skill: what it is, how well it is mastered, and the rules it obeys.

use vstd::prelude::*;
use crate::errors::{fails_name, fails_with, DescriptionRule, DomainError, NameRule, RuleViolation};
use crate::outside::{is_hyphenated_uuid_char, new_uuid_string, parses_as_uuid, uuid_text};
use crate::text::{
    all_white_space, all_white_space_chars, chars_of, has_forbidden, has_forbidden_chars, trim_chars,
    trimmed, utf8_len, utf8_len_exceeds,
};
use crate::timestamps::CreateUp;
use crate::types::{level_for_years, ContentVisibility, ImageSource, SkillCategory, SkillLevel};
use crate::validators::{check_name, name_rule};

verus! {

/// Longest identifier of a skill, in UTF-8 bytes.
pub const MAX_SKILL_ID_LEN: usize = 36;

/// Longest skill description, in UTF-8 bytes, after trimming.
pub const MAX_SKILL_DESCRIPTION_LEN: usize = 1000;

/// Shortest non-empty skill description, in UTF-8 bytes, after trimming.
pub const MIN_SKILL_DESCRIPTION_LEN: usize = 10;

/// Most years of experience a skill may record.
pub const MAX_YEARS_OF_EXPERIENCE: u8 = 50;

/// The content of a skill.
pub struct SkillView {
    pub id: Seq<char>,
    pub name: Seq<char>,
    pub category: SkillCategory,
    pub level: SkillLevel,
    pub description: Seq<char>,
    pub years_of_experience: u8,
    pub visibility: ContentVisibility,
    pub image: Option<ImageSource>,
    pub created_updated: CreateUp,
}

/// What is wrong with the identifier of a skill, if anything: empty; not
/// a UUID; over 36 bytes.
pub open spec fn skill_id_problem(id: Seq<char>) -> Option<RuleViolation> {
    if id.len() == 0 {
        Some(RuleViolation::EmptyId)
    } else if !uuid_text(id) {
        Some(RuleViolation::IdNotUuid)
    } else if utf8_len(id) > 36 {
        Some(RuleViolation::IdTooLong)
    } else {
        None
    }
}

/// The first rule that a skill description breaks, if any, tested on the
/// description trimmed: over 1000 bytes; non-empty and under 10 bytes;
/// only white space (which an empty description is too); one of
/// `< > & " '`.
pub open spec fn skill_description_rule(d: Seq<char>) -> Option<DescriptionRule> {
    let t = trimmed(d);
    if utf8_len(t) > 1000 {
        Some(DescriptionRule::TooLong)
    } else if t.len() > 0 && utf8_len(t) < 10 {
        Some(DescriptionRule::TooShort)
    } else if all_white_space(t) {
        Some(DescriptionRule::OnlyWhitespace)
    } else if has_forbidden(t) {
        Some(DescriptionRule::InvalidCharacters)
    } else {
        None
    }
}

/// A skill passes every rule.
pub open spec fn skill_valid(v: SkillView) -> bool {
    &&& skill_id_problem(v.id) is None
    &&& name_rule(v.name) is None
    &&& skill_description_rule(v.description) is None
    &&& v.years_of_experience <= 50
}

/// `r` is what checking the skill `v` gives: the first rule broken, in the
/// order identifier, name, description, experience; else success.
pub open spec fn skill_check(v: SkillView, r: Result<(), DomainError>) -> bool {
    if skill_id_problem(v.id) is Some {
        fails_with(r, skill_id_problem(v.id).unwrap())
    } else if name_rule(v.name) is Some {
        fails_name(r, "Skill"@, name_rule(v.name).unwrap())
    } else if skill_description_rule(v.description) is Some {
        fails_with(r, RuleViolation::InvalidSkillDescription(skill_description_rule(v.description).unwrap()))
    } else if v.years_of_experience > 50 {
        fails_with(r, RuleViolation::TooManyYears)
    } else {
        r is Ok
    }
}

/// A skill of a portfolio.
#[derive(Debug)]
pub struct Skill {
    id: String,
    name: String,
    category: SkillCategory,
    level: SkillLevel,
    description: String,
    years_of_experience: u8,
    visibility: ContentVisibility,
    image: Option<ImageSource>,
    created_updated: CreateUp,
}

impl Clone for Skill {
    fn clone(&self) -> (r: Skill)
        ensures
            r@ == self@,
    {
        let image = match &self.image {
            Some(i) => Some(i.clone()),
            None => None,
        };
        Skill {
            id: self.id.clone(),
            name: self.name.clone(),
            category: self.category,
            level: self.level,
            description: self.description.clone(),
            years_of_experience: self.years_of_experience,
            visibility: self.visibility,
            image,
            created_updated: self.created_updated,
        }
    }
}

impl View for Skill {
    type V = SkillView;

    closed spec fn view(&self) -> SkillView {
        SkillView {
            id: self.id@,
            name: self.name@,
            category: self.category,
            level: self.level,
            description: self.description@,
            years_of_experience: self.years_of_experience,
            visibility: self.visibility,
            image: self.image,
            created_updated: self.created_updated,
        }
    }
}

/// A skill's check succeeds exactly when it is valid.
pub proof fn lemma_skill_check_ok(v: SkillView, r: Result<(), DomainError>)
    requires
        skill_check(v, r),
    ensures
        r is Ok <==> skill_valid(v),
{
}

/// A freshly made skill — a fresh hyphenated UUID, a level derived from its
/// experience — passes its check whenever its name and description pass
/// theirs and its experience is at most 50 years.
pub proof fn lemma_new_skill_valid(v: SkillView)
    requires
        v.id.len() == 36,
        forall|i: int| 0 <= i < 36 ==> is_hyphenated_uuid_char(#[trigger] v.id[i]),
        uuid_text(v.id),
        name_rule(v.name) is None,
        skill_description_rule(v.description) is None,
        v.years_of_experience <= 50,
    ensures
        skill_valid(v),
{
    lemma_ascii_utf8_len(v.id);
}

/// Text of hex digits and hyphens takes one byte a character.
proof fn lemma_ascii_utf8_len(s: Seq<char>)
    requires
        forall|i: int| 0 <= i < s.len() ==> is_hyphenated_uuid_char(#[trigger] s[i]),
    ensures
        utf8_len(s) == s.len(),
    decreases s.len(),
{
    if s.len() > 0 {
        assert forall|i: int| 0 <= i < s.drop_last().len() implies is_hyphenated_uuid_char(#[trigger] s.drop_last()[i]) by {
            assert(s.drop_last()[i] == s[i]);
        }
        lemma_ascii_utf8_len(s.drop_last());
        assert(is_hyphenated_uuid_char(s[s.len() - 1]));
    }
}

/// What is wrong with the identifier of a skill, if anything.
fn check_skill_id(id: &str) -> (r: Option<RuleViolation>)
    ensures
        r == skill_id_problem(id@),
{
    if id.is_empty() {
        return Some(RuleViolation::EmptyId);
    }
    if !parses_as_uuid(id) {
        return Some(RuleViolation::IdNotUuid);
    }
    if utf8_len_exceeds(&chars_of(id), MAX_SKILL_ID_LEN) {
        return Some(RuleViolation::IdTooLong);
    }
    None
}

/// The first rule that a skill description breaks, if any.
pub fn check_skill_description(d: &str) -> (r: Option<DescriptionRule>)
    ensures
        r == skill_description_rule(d@),
{
    let t = trim_chars(&chars_of(d));
    if utf8_len_exceeds(&t, MAX_SKILL_DESCRIPTION_LEN) {
        Some(DescriptionRule::TooLong)
    } else if t.len() > 0 && !utf8_len_exceeds(&t, MIN_SKILL_DESCRIPTION_LEN - 1) {
        Some(DescriptionRule::TooShort)
    } else if all_white_space_chars(&t) {
        Some(DescriptionRule::OnlyWhitespace)
    } else if has_forbidden_chars(&t) {
        Some(DescriptionRule::InvalidCharacters)
    } else {
        None
    }
}

/// A name failure of the field "Skill".
fn skill_name_error(rule: NameRule) -> (r: DomainError)
    ensures
        fails_name(Err::<(), DomainError>(r), "Skill"@, rule),
{
    let field = "Skill".to_string();
    DomainError::BusinessRule(RuleViolation::InvalidName { field, rule })
}

impl Skill {
    /// A new public skill without image: a fresh UUID, the level that its
    /// experience gives, both instants set to now.
    pub fn new(name: String, category: SkillCategory, description: String, years_of_experience: u8) -> (r: Skill)
        ensures
            r@.id.len() == 36,
            forall|i: int| 0 <= i < 36 ==> is_hyphenated_uuid_char(#[trigger] r@.id[i]),
            uuid_text(r@.id),
            r@.name == name@,
            r@.category == category,
            r@.level == level_for_years(years_of_experience),
            r@.description == description@,
            r@.years_of_experience == years_of_experience,
            r@.visibility == ContentVisibility::Public,
            r@.image is None,
            r@.created_updated.spec_created_at() == r@.created_updated.spec_updated_at(),
    {
        Skill {
            id: new_uuid_string(),
            name,
            category,
            level: SkillLevel::from_experience(years_of_experience),
            description,
            years_of_experience,
            visibility: ContentVisibility::Public,
            image: None,
            created_updated: CreateUp::new(),
        }
    }

    /// A skill rebuilt from stored values; its level is derived from its experience.
    pub fn with_dates(
        id: String,
        name: String,
        category: SkillCategory,
        description: String,
        years_of_experience: u8,
        visibility: ContentVisibility,
        image: Option<ImageSource>,
        created_at: i64,
        updated_at: i64,
    ) -> (r: Skill)
        ensures
            r@.id == id@,
            r@.name == name@,
            r@.category == category,
            r@.level == level_for_years(years_of_experience),
            r@.description == description@,
            r@.years_of_experience == years_of_experience,
            r@.visibility == visibility,
            r@.image == image,
            r@.created_updated.spec_created_at() == created_at,
            r@.created_updated.spec_updated_at() == updated_at,
    {
        Skill {
            id,
            name,
            category,
            level: SkillLevel::from_experience(years_of_experience),
            description,
            years_of_experience,
            visibility,
            image,
            created_updated: CreateUp::with_dates(created_at, updated_at),
        }
    }

    pub fn id(&self) -> (r: &str)
        ensures
            r@ == self@.id,
    {
        self.id.as_str()
    }

    pub fn name(&self) -> (r: &str)
        ensures
            r@ == self@.name,
    {
        self.name.as_str()
    }

    pub fn category(&self) -> (r: &SkillCategory)
        ensures
            *r == self@.category,
    {
        &self.category
    }

    pub fn level(&self) -> (r: &SkillLevel)
        ensures
            *r == self@.level,
    {
        &self.level
    }

    pub fn description(&self) -> (r: &str)
        ensures
            r@ == self@.description,
    {
        self.description.as_str()
    }

    pub fn years_of_experience(&self) -> (r: u8)
        ensures
            r == self@.years_of_experience,
    {
        self.years_of_experience
    }

    pub fn image(&self) -> (r: Option<&ImageSource>)
        ensures
            match r {
                Some(i) => self@.image == Some(*i),
                None => self@.image is None,
            },
    {
        match &self.image {
            Some(i) => Some(i),
            None => None,
        }
    }

    pub fn visibility(&self) -> (r: &ContentVisibility)
        ensures
            *r == self@.visibility,
    {
        &self.visibility
    }

    pub fn created_updated(&self) -> (r: &CreateUp)
        ensures
            *r == self@.created_updated,
    {
        &self.created_updated
    }

    /// Renames the skill; fails, changing nothing, when the name is blank.
    /// Only `validate` applies the full name rules.
    pub fn set_name(&mut self, name: String) -> (r: Result<(), DomainError>)
        ensures
            trimmed(name@).len() == 0 ==> fails_name(r, "Skill"@, NameRule::Empty)
                && final(self)@ == old(self)@,
            trimmed(name@).len() > 0 ==> r is Ok && final(self)@ == (SkillView {
                name: name@,
                created_updated: final(self)@.created_updated,
                ..old(self)@
            }),
            final(self)@.created_updated.spec_created_at() == old(self)@.created_updated.spec_created_at(),
    {
        if trim_chars(&chars_of(name.as_str())).len() == 0 {
            return Err(skill_name_error(NameRule::Empty));
        }
        self.name = name;
        self.created_updated.update();
        Ok(())
    }

    /// Replaces the image.
    pub fn set_image(&mut self, image: Option<ImageSource>) -> (r: Result<(), DomainError>)
        ensures
            r is Ok,
            final(self)@ == (SkillView {
                image: image,
                created_updated: final(self)@.created_updated,
                ..old(self)@
            }),
            final(self)@.created_updated.spec_created_at() == old(self)@.created_updated.spec_created_at(),
    {
        self.image = image;
        self.created_updated.update();
        Ok(())
    }

    /// Sets the level; fails, changing nothing, when it is below the
    /// current one: a level is never lowered.
    pub fn set_level(&mut self, new_level: SkillLevel) -> (r: Result<(), DomainError>)
        ensures
            old(self)@.level.spec_rank() > new_level.spec_rank() ==> fails_with(
                r,
                RuleViolation::LevelDowngrade,
            ) && final(self)@ == old(self)@,
            old(self)@.level.spec_rank() <= new_level.spec_rank() ==> r is Ok && final(self)@ == (
            SkillView { level: new_level, created_updated: final(self)@.created_updated, ..old(self)@ }),
            final(self)@.created_updated.spec_created_at() == old(self)@.created_updated.spec_created_at(),
    {
        if self.level.rank() > new_level.rank() {
            return Err(DomainError::BusinessRule(RuleViolation::LevelDowngrade));
        }
        self.level = new_level;
        self.created_updated.update();
        Ok(())
    }

    /// Replaces the description, then checks the whole skill; the
    /// description is replaced whether or not the check passes.
    pub fn update_description(&mut self, description: String) -> (r: Result<(), DomainError>)
        ensures
            final(self)@ == (SkillView {
                description: description@,
                created_updated: final(self)@.created_updated,
                ..old(self)@
            }),
            final(self)@.created_updated.spec_created_at() == old(self)@.created_updated.spec_created_at(),
            skill_check(final(self)@, r),
    {
        self.description = description;
        self.created_updated.update();
        self.validate()
    }

    /// Replaces the category.
    pub fn set_category(&mut self, category: SkillCategory) -> (r: Result<(), DomainError>)
        ensures
            r is Ok,
            final(self)@ == (SkillView {
                category: category,
                created_updated: final(self)@.created_updated,
                ..old(self)@
            }),
            final(self)@.created_updated.spec_created_at() == old(self)@.created_updated.spec_created_at(),
    {
        self.category = category;
        self.created_updated.update();
        Ok(())
    }

    /// Replaces the visibility, then checks the whole skill; the
    /// visibility is replaced whether or not the check passes.
    pub fn set_visibility(&mut self, visibility: ContentVisibility) -> (r: Result<(), DomainError>)
        ensures
            final(self)@ == (SkillView {
                visibility: visibility,
                created_updated: final(self)@.created_updated,
                ..old(self)@
            }),
            final(self)@.created_updated.spec_created_at() == old(self)@.created_updated.spec_created_at(),
            skill_check(final(self)@, r),
    {
        self.visibility = visibility;
        self.created_updated.update();
        self.validate()
    }

    /// Records `years` of experience and derives the level from them
    /// again. Years are unsigned, so none is ever refused.
    pub fn set_years_of_experience(&mut self, years: u8) -> (r: Result<(), DomainError>)
        ensures
            r is Ok,
            final(self)@ == (SkillView {
                years_of_experience: years,
                level: level_for_years(years),
                created_updated: final(self)@.created_updated,
                ..old(self)@
            }),
            final(self)@.created_updated.spec_created_at() == old(self)@.created_updated.spec_created_at(),
    {
        self.years_of_experience = years;
        self.calculate_level_auto();
        self.created_updated.update();
        Ok(())
    }

    fn calculate_level_auto(&mut self)
        ensures
            final(self)@ == (SkillView { level: level_for_years(old(self)@.years_of_experience), ..old(self)@ }),
    {
        self.level = SkillLevel::from_experience(self.years_of_experience);
    }

    /// Whether the skill is public.
    pub fn is_visible(&self) -> (r: bool)
        ensures
            r == (self@.visibility == ContentVisibility::Public),
    {
        matches!(self.visibility, ContentVisibility::Public)
    }

    /// Checks, in order, the identifier, the name, the description and the
    /// experience, and reports the first rule broken.
    pub fn validate(&self) -> (r: Result<(), DomainError>)
        ensures
            skill_check(self@, r),
    {
        match check_skill_id(self.id.as_str()) {
            Some(v) => {
                return Err(DomainError::BusinessRule(v));
            },
            None => {},
        }
        match check_name(self.name.as_str()) {
            Some(rule) => {
                return Err(skill_name_error(rule));
            },
            None => {},
        }
        match check_skill_description(self.description.as_str()) {
            Some(d) => {
                return Err(DomainError::BusinessRule(RuleViolation::InvalidSkillDescription(d)));
            },
            None => {},
        }
        if self.years_of_experience > MAX_YEARS_OF_EXPERIENCE {
            return Err(DomainError::BusinessRule(RuleViolation::TooManyYears));
        }
        Ok(())
    }
}

} // verus!
