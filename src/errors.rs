//! Errors of the domain: one tagged variant per business rule.

use vstd::prelude::*;

verus! {

/// The rule of the name check that a name breaks.
#[derive(Clone, Copy, Debug, PartialEq, Eq, Structural)]
pub enum NameRule {
    Empty,
    TooLong,
    OnlyWhitespace,
    InvalidCharacters,
    RepeatedSpaces,
}

/// The rule of the skill description check that a description breaks.
#[derive(Clone, Copy, Debug, PartialEq, Eq, Structural)]
pub enum DescriptionRule {
    TooLong,
    TooShort,
    OnlyWhitespace,
    InvalidCharacters,
}

/// A business rule that an operation or an entity breaks.
#[derive(Debug, PartialEq)]
pub enum RuleViolation {
    EmptyId,
    IdNotUuid,
    IdTooLong,
    InvalidName { field: String, rule: NameRule },
    DescriptionTooLong { max_length: usize },
    InvalidSkillDescription(DescriptionRule),
    TooManyYears,
    LevelDowngrade,
    StartAfterEnd,
    CompletedWithoutDates,
    PlanningWithStartDate,
    ActiveWithoutStartDate,
    FeaturedNotPublic,
    FeaturedNotFinished,
    FeaturedWithoutLongDescription,
    FeaturedWithoutTechnology,
    FeaturedWithoutLink,
    TooManyTechnologies,
    TechnologyLimitReached,
    NoTechnologyToRemove,
    TooManyUrls,
    UrlLimitReached,
    NoUrlToRemove,
    EmptyUrl,
    GitHubUrlWithoutHost,
    LiveDemoNotHttp,
}

/// Errors raised by skills.
#[derive(Debug, PartialEq)]
pub enum SkillError {
    InvalidLevel,
    NameTooShort(String),
    AlreadyExists(String),
}

/// Errors raised by projects.
#[derive(Debug, PartialEq)]
pub enum ProjectError {
    InvalidStatusTransition,
    InvalidDates { start: String, end: String },
    InvalidUrl { url: String, reason: String },
    NotVisible,
}

/// Any failure of the domain.
#[derive(Debug, PartialEq)]
pub enum DomainError {
    Skill(SkillError),
    Project(ProjectError),
    BusinessRule(RuleViolation),
}

/// `r` is the failure that breaks rule `v`, one without a payload.
pub open spec fn fails_with<T>(r: Result<T, DomainError>, v: RuleViolation) -> bool {
    r == Err::<T, DomainError>(DomainError::BusinessRule(v))
}

/// `r` is the failure of a name check on field `field` that breaks `rule`.
pub open spec fn fails_name<T>(r: Result<T, DomainError>, field: Seq<char>, rule: NameRule) -> bool {
    r matches Err(DomainError::BusinessRule(RuleViolation::InvalidName { field: f, rule: k }))
        && f@ == field && k == rule
}

} // verus!
