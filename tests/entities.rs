use portfolio_core::errors::{DescriptionRule, DomainError, NameRule, RuleViolation};
use portfolio_core::project::Project;
use portfolio_core::skill::Skill;
use portfolio_core::types::{
    ContentVisibility, ProjectDate, ProjectStatus, ProjectUrl, SkillCategory, SkillLevel, UrlType,
};
use portfolio_core::values::{ProjectUrls, UniqueTechnologies};

const ID: &str = "550e8400-e29b-41d4-a716-446655440000";

fn rule(v: RuleViolation) -> Result<(), DomainError> {
    Err(DomainError::BusinessRule(v))
}

fn name_err(field: &str, rule: NameRule) -> Result<(), DomainError> {
    Err(DomainError::BusinessRule(RuleViolation::InvalidName { field: field.to_string(), rule }))
}

fn techs(names: &[&str]) -> UniqueTechnologies {
    UniqueTechnologies::from_vec(names.iter().map(|s| s.to_string()).collect()).unwrap()
}

fn date(y: i32, m: u32, d: u32) -> Option<ProjectDate> {
    Some(ProjectDate::from_ymd(y, m, d).unwrap())
}

fn skill(name: &str, description: &str, years: u8) -> Skill {
    Skill::with_dates(
        ID.to_string(),
        name.to_string(),
        SkillCategory::Backend,
        description.to_string(),
        years,
        ContentVisibility::Public,
        None,
        0,
        0,
    )
}

#[allow(clippy::too_many_arguments)]
fn project(
    name: &str,
    long: &str,
    status: ProjectStatus,
    technologies: UniqueTechnologies,
    urls: ProjectUrls,
    visibility: ContentVisibility,
    featured: bool,
    start: Option<ProjectDate>,
    end: Option<ProjectDate>,
) -> Project {
    Project::with_dates(
        ID.to_string(),
        name.to_string(),
        "A portfolio site".to_string(),
        long.to_string(),
        status,
        technologies,
        urls,
        None,
        visibility,
        featured,
        start,
        end,
        0,
        0,
    )
}

fn featured_done(urls: ProjectUrls) -> Project {
    project(
        "Portfolio",
        "x",
        ProjectStatus::Completed,
        techs(&["Rust"]),
        urls,
        ContentVisibility::Public,
        true,
        date(2023, 1, 1),
        date(2023, 6, 1),
    )
}

fn github_urls() -> ProjectUrls {
    ProjectUrls::from_vec(vec![ProjectUrl::github("https://github.com/user/repo".to_string())]).unwrap()
}

#[test]
fn new_skill_is_valid() {
    let s = Skill::new("Rust".to_string(), SkillCategory::Languages, "Systems programming language".to_string(), 3);
    assert_eq!(s.id().len(), 36);
    assert_eq!(s.validate(), Ok(()));
    assert_eq!(*s.level(), SkillLevel::Intermediate);
    assert!(s.is_visible());
    assert!(s.image().is_none());
    assert_eq!(s.created_updated().created_at(), s.created_updated().updated_at());
}

#[test]
fn new_project_is_valid() {
    let p = Project::new(
        "Portfolio".to_string(),
        "Personal developer portfolio".to_string(),
        "Built with Rust".to_string(),
        ProjectStatus::Planning,
        techs(&["Rust", "Leptos"]),
    );
    assert_eq!(p.id().len(), 36);
    assert_eq!(p.validate(), Ok(()));
    assert!(!p.featured());
    assert!(p.is_visible());
    assert_eq!(p.urls().len(), 0);
    let q = Project::with_creation_date(
        "Portfolio".to_string(),
        "d".to_string(),
        "".to_string(),
        ProjectStatus::Planning,
        UniqueTechnologies::new(),
        1_000,
    );
    assert_eq!(q.validate(), Ok(()));
    assert_eq!(q.created_updated().created_at(), 1_000);
    assert_eq!(q.created_updated().updated_at(), 1_000);
}

#[test]
fn skill_level_bands() {
    assert_eq!(SkillLevel::from_experience(0), SkillLevel::Beginner);
    assert_eq!(SkillLevel::from_experience(1), SkillLevel::Beginner);
    assert_eq!(SkillLevel::from_experience(2), SkillLevel::Intermediate);
    assert_eq!(SkillLevel::from_experience(3), SkillLevel::Intermediate);
    assert_eq!(SkillLevel::from_experience(4), SkillLevel::Advanced);
    assert_eq!(SkillLevel::from_experience(6), SkillLevel::Advanced);
    assert_eq!(SkillLevel::from_experience(7), SkillLevel::Expert);
    assert_eq!(SkillLevel::from_experience(10), SkillLevel::Expert);
    assert_eq!(SkillLevel::from_experience(255), SkillLevel::Expert);
    assert!(SkillLevel::Beginner.rank() < SkillLevel::Expert.rank());
}

#[test]
fn set_level_never_lowers() {
    let mut s = skill("Rust", "Systems programming language", 5);
    assert_eq!(*s.level(), SkillLevel::Advanced);
    assert_eq!(s.set_level(SkillLevel::Beginner), rule(RuleViolation::LevelDowngrade));
    assert_eq!(*s.level(), SkillLevel::Advanced);
    assert_eq!(s.created_updated().updated_at(), 0);
    assert_eq!(s.set_level(SkillLevel::Expert), Ok(()));
    assert_eq!(*s.level(), SkillLevel::Expert);
    assert!(s.created_updated().updated_at() > 0);
    assert_eq!(s.created_updated().created_at(), 0);
    assert_eq!(s.set_level(SkillLevel::Expert), Ok(()));
}

#[test]
fn set_years_derives_level_again() {
    let mut s = skill("Rust", "Systems programming language", 0);
    assert_eq!(s.set_years_of_experience(10), Ok(()));
    assert_eq!(s.years_of_experience(), 10);
    assert_eq!(*s.level(), SkillLevel::Expert);
    assert_eq!(s.set_years_of_experience(2), Ok(()));
    assert_eq!(*s.level(), SkillLevel::Intermediate);
}

#[test]
fn skill_rules_in_order() {
    assert_eq!(skill("Rust", "Systems programming language", 50).validate(), Ok(()));
    assert_eq!(skill("Rust", "Systems programming language", 51).validate(), rule(RuleViolation::TooManyYears));
    assert_eq!(
        skill("Rust", "short", 1).validate(),
        rule(RuleViolation::InvalidSkillDescription(DescriptionRule::TooShort))
    );
    assert_eq!(
        skill("Rust", "   ", 1).validate(),
        rule(RuleViolation::InvalidSkillDescription(DescriptionRule::OnlyWhitespace))
    );
    assert_eq!(
        skill("Rust", "<b>bold text</b>", 1).validate(),
        rule(RuleViolation::InvalidSkillDescription(DescriptionRule::InvalidCharacters))
    );
    assert_eq!(
        skill("Rust", &"d".repeat(1001), 1).validate(),
        rule(RuleViolation::InvalidSkillDescription(DescriptionRule::TooLong))
    );
    assert_eq!(skill("Rust", &"d".repeat(1000), 1).validate(), Ok(()));
    assert_eq!(skill("", "Systems programming language", 1).validate(), name_err("Skill", NameRule::Empty));
}

#[test]
fn skill_identifier_rules() {
    let mut s = skill("Rust", "Systems programming language", 1);
    assert_eq!(s.validate(), Ok(()));
    s = Skill::with_dates(
        "".to_string(),
        "Rust".to_string(),
        SkillCategory::Tools,
        "Systems programming language".to_string(),
        1,
        ContentVisibility::Draft,
        None,
        0,
        0,
    );
    assert_eq!(s.validate(), rule(RuleViolation::EmptyId));
    s = Skill::with_dates(
        "not-a-uuid".to_string(),
        "Rust".to_string(),
        SkillCategory::Tools,
        "Systems programming language".to_string(),
        1,
        ContentVisibility::Draft,
        None,
        0,
        0,
    );
    assert_eq!(s.validate(), rule(RuleViolation::IdNotUuid));
    s = Skill::with_dates(
        "urn:uuid:550e8400-e29b-41d4-a716-446655440000".to_string(),
        "Rust".to_string(),
        SkillCategory::Tools,
        "Systems programming language".to_string(),
        1,
        ContentVisibility::Draft,
        None,
        0,
        0,
    );
    assert_eq!(s.validate(), rule(RuleViolation::IdTooLong));
}

#[test]
fn names_reject_double_space_markup_and_blank() {
    for field in ["Skill", "Project"] {
        let check = |n: &str| {
            if field == "Skill" {
                skill(n, "Systems programming language", 1).validate()
            } else {
                project(n, "", ProjectStatus::Planning, UniqueTechnologies::new(), ProjectUrls::new(),
                    ContentVisibility::Public, false, None, None).validate()
            }
        };
        assert_eq!(check("a  b"), name_err(field, NameRule::RepeatedSpaces));
        assert_eq!(check("<script>"), name_err(field, NameRule::InvalidCharacters));
        assert_eq!(check("   "), name_err(field, NameRule::Empty));
        assert_eq!(check("  a b  "), Ok(()));
    }
}

#[test]
fn skill_set_name_only_refuses_blank() {
    let mut s = skill("Rust", "Systems programming language", 1);
    assert_eq!(s.set_name(" \t ".to_string()), name_err("Skill", NameRule::Empty));
    assert_eq!(s.name(), "Rust");
    assert_eq!(s.set_name("a  b".to_string()), Ok(()));
    assert_eq!(s.name(), "a  b");
    assert_eq!(s.validate(), name_err("Skill", NameRule::RepeatedSpaces));
}

#[test]
fn skill_setters_mutate_then_check() {
    let mut s = skill("Rust", "Systems programming language", 1);
    assert_eq!(
        s.update_description("tiny".to_string()),
        rule(RuleViolation::InvalidSkillDescription(DescriptionRule::TooShort))
    );
    assert_eq!(s.description(), "tiny");
    assert_eq!(s.set_visibility(ContentVisibility::Private), rule(RuleViolation::InvalidSkillDescription(DescriptionRule::TooShort)));
    assert_eq!(*s.visibility(), ContentVisibility::Private);
    assert!(!s.is_visible());
    assert_eq!(s.update_description("A longer description".to_string()), Ok(()));
    assert_eq!(s.set_category(SkillCategory::DevOps), Ok(()));
    assert_eq!(*s.category(), SkillCategory::DevOps);
    assert_eq!(s.created_updated().created_at(), 0);
}

#[test]
fn completed_without_start_fails() {
    let p = project("Portfolio", "", ProjectStatus::Completed, UniqueTechnologies::new(), ProjectUrls::new(),
        ContentVisibility::Public, false, None, date(2023, 6, 1));
    assert_eq!(p.validate(), rule(RuleViolation::CompletedWithoutDates));
    let q = project("Portfolio", "", ProjectStatus::Completed, UniqueTechnologies::new(), ProjectUrls::new(),
        ContentVisibility::Public, false, date(2023, 1, 1), None);
    assert_eq!(q.validate(), rule(RuleViolation::CompletedWithoutDates));
}

#[test]
fn status_and_date_rules() {
    let mk = |status, start, end| {
        project("Portfolio", "", status, UniqueTechnologies::new(), ProjectUrls::new(),
            ContentVisibility::Public, false, start, end).validate()
    };
    assert_eq!(mk(ProjectStatus::Planning, date(2023, 1, 1), None), rule(RuleViolation::PlanningWithStartDate));
    assert_eq!(mk(ProjectStatus::InProgress, None, None), rule(RuleViolation::ActiveWithoutStartDate));
    assert_eq!(mk(ProjectStatus::Maintenance, None, None), rule(RuleViolation::ActiveWithoutStartDate));
    assert_eq!(mk(ProjectStatus::InProgress, date(2023, 1, 1), None), Ok(()));
    assert_eq!(mk(ProjectStatus::Completed, date(2023, 2, 1), date(2023, 1, 31)), rule(RuleViolation::StartAfterEnd));
    assert_eq!(mk(ProjectStatus::Completed, date(2023, 1, 31), date(2023, 1, 31)), Ok(()));
}

#[test]
fn featured_planning_fails() {
    let mut p = Project::new(
        "Portfolio".to_string(),
        "Personal developer portfolio".to_string(),
        "Built with Rust".to_string(),
        ProjectStatus::Planning,
        techs(&["Rust"]),
    );
    assert_eq!(p.add_url(ProjectUrl::github("https://github.com/user/repo".to_string())), Ok(()));
    assert_eq!(p.set_featured(true), rule(RuleViolation::FeaturedNotFinished));
    assert!(p.featured());
}

#[test]
fn featured_completed_with_github_passes() {
    let p = featured_done(github_urls());
    assert_eq!(p.validate(), Ok(()));
    assert!(p.has_github_repo());
    assert!(!p.has_live_demo());
}

#[test]
fn featured_rules_in_order() {
    let mut p = featured_done(github_urls());
    assert_eq!(p.set_visibility(ContentVisibility::Draft), rule(RuleViolation::FeaturedNotPublic));
    let p2 = project("Portfolio", "   ", ProjectStatus::Maintenance, techs(&["Rust"]), github_urls(),
        ContentVisibility::Public, true, date(2023, 1, 1), None);
    assert_eq!(p2.validate(), rule(RuleViolation::FeaturedWithoutLongDescription));
    let p3 = project("Portfolio", "x", ProjectStatus::Maintenance, UniqueTechnologies::new(), github_urls(),
        ContentVisibility::Public, true, date(2023, 1, 1), None);
    assert_eq!(p3.validate(), rule(RuleViolation::FeaturedWithoutTechnology));
    let docs = ProjectUrls::from_vec(vec![ProjectUrl::new(UrlType::Documentation, "https://docs.rs/x".to_string(), None)]).unwrap();
    let p4 = featured_done(docs);
    assert_eq!(p4.validate(), rule(RuleViolation::FeaturedWithoutLink));
    let demo = ProjectUrls::from_vec(vec![ProjectUrl::live_demo("https://example.com".to_string(), Some("Demo".to_string()))]).unwrap();
    let p5 = featured_done(demo);
    assert_eq!(p5.validate(), Ok(()));
    assert!(p5.has_live_demo());
}

#[test]
fn project_descriptions_bounded() {
    let mut p = project("Portfolio", "", ProjectStatus::Planning, UniqueTechnologies::new(), ProjectUrls::new(),
        ContentVisibility::Public, false, None, None);
    assert_eq!(
        p.set_description("d".repeat(151)),
        rule(RuleViolation::DescriptionTooLong { max_length: 150 })
    );
    assert_eq!(p.description().len(), 151);
    assert_eq!(p.created_updated().updated_at(), 0);
    assert_eq!(p.set_description(format!("  {}  ", "d".repeat(150))), Ok(()));
    assert_eq!(
        p.set_long_description("l".repeat(301)),
        rule(RuleViolation::DescriptionTooLong { max_length: 300 })
    );
    assert_eq!(p.long_description().len(), 301);
    assert_eq!(p.set_long_description("l".repeat(300)), Ok(()));
}

#[test]
fn project_set_name_and_status() {
    let mut p = project("Portfolio", "", ProjectStatus::Planning, UniqueTechnologies::new(), ProjectUrls::new(),
        ContentVisibility::Public, false, None, None);
    assert_eq!(p.set_name("  ".to_string()), name_err("Project", NameRule::Empty));
    assert_eq!(p.name(), "Portfolio");
    assert_eq!(p.set_name("Site".to_string()), Ok(()));
    assert_eq!(p.set_status(ProjectStatus::InProgress), rule(RuleViolation::ActiveWithoutStartDate));
    assert_eq!(*p.status(), ProjectStatus::InProgress);
    assert_eq!(p.set_dates(date(2024, 2, 29), None), Ok(()));
    assert_eq!(p.start_date(), date(2024, 2, 29));
    assert_eq!(p.end_date(), None);
}

#[test]
fn project_technologies_and_links() {
    let mut p = project("Portfolio", "", ProjectStatus::Planning, techs(&["Rust"]), ProjectUrls::new(),
        ContentVisibility::Public, false, None, None);
    assert_eq!(p.add_technology("Leptos".to_string()), Ok(()));
    assert_eq!(p.add_technology("Rust".to_string()), Ok(()));
    assert_eq!(p.technologies().as_vec(), vec!["Rust".to_string(), "Leptos".to_string()]);
    assert_eq!(p.remove_technology("Rust"), Ok(()));
    assert_eq!(p.technologies().as_vec(), vec!["Leptos".to_string()]);
    assert_eq!(p.add_url(ProjectUrl::github("https://github.com/a/b".to_string())), Ok(()));
    assert_eq!(p.add_url(ProjectUrl::live_demo("https://a.dev".to_string(), None)), Ok(()));
    assert_eq!(p.add_url(ProjectUrl::github("https://github.com/c/d".to_string())), Ok(()));
    let gh = p.find_urls_by_type(UrlType::GitHub);
    assert_eq!(gh.len(), 2);
    assert_eq!(gh[0].url(), "https://github.com/a/b");
    assert_eq!(gh[1].url(), "https://github.com/c/d");
    assert_eq!(p.find_urls_by_type(UrlType::Other("blog".to_string())).len(), 0);
    assert_eq!(p.remove_url(ProjectUrl::github("https://github.com/a/b".to_string())), Ok(()));
    assert!(p.has_github_repo());
    assert_eq!(p.urls().len(), 2);
    assert_eq!(p.urls().iter()[0].url(), "https://a.dev");
    assert_eq!(p.urls().iter()[1].url(), "https://github.com/c/d");
    p.set_image(Some(portfolio_core::types::ImageSource::path("img/p.png".to_string())));
    assert_eq!(p.image().unwrap().as_path(), Some("img/p.png"));
}

#[test]
fn calendar_days() {
    assert!(ProjectDate::from_ymd(2023, 2, 29).is_none());
    assert!(ProjectDate::from_ymd(2024, 2, 29).is_some());
    assert!(ProjectDate::from_ymd(1900, 2, 29).is_none());
    assert!(ProjectDate::from_ymd(2000, 2, 29).is_some());
    assert!(ProjectDate::from_ymd(2023, 4, 31).is_none());
    assert!(ProjectDate::from_ymd(2023, 13, 1).is_none());
    assert!(ProjectDate::from_ymd(400000, 1, 1).is_none());
    let d = ProjectDate::from_ymd(2023, 5, 17).unwrap();
    assert_eq!((d.year(), d.month(), d.day()), (2023, 5, 17));
    assert!(d.is_after(&ProjectDate::from_ymd(2023, 5, 16).unwrap()));
    assert!(!d.is_after(&ProjectDate::from_ymd(2024, 1, 1).unwrap()));
}

#[test]
fn entity_copies_are_equal() {
    let p = featured_done(github_urls());
    let q = p.clone();
    assert_eq!(q.id(), p.id());
    assert_eq!(q.urls().len(), 1);
    assert_eq!(q.validate(), Ok(()));
    let s = skill("Rust", "Systems programming language", 4);
    let t = s.clone();
    assert_eq!(t.name(), "Rust");
    assert_eq!(*t.level(), SkillLevel::Advanced);
}

#[test]
fn link_changes_check_the_project() {
    let mut p = project("a  b", "", ProjectStatus::Planning, UniqueTechnologies::new(), ProjectUrls::new(),
        ContentVisibility::Public, false, None, None);
    assert_eq!(
        p.add_url(ProjectUrl::github("https://github.com/a/b".to_string())),
        name_err("Project", NameRule::RepeatedSpaces)
    );
    assert_eq!(p.urls().len(), 1);
    assert_eq!(
        p.remove_url(ProjectUrl::github("https://github.com/a/b".to_string())),
        name_err("Project", NameRule::RepeatedSpaces)
    );
    assert_eq!(p.urls().len(), 0);
    let mut q = featured_done(github_urls());
    assert_eq!(
        q.remove_url(ProjectUrl::github("https://github.com/user/repo".to_string())),
        rule(RuleViolation::FeaturedWithoutLink)
    );
}
