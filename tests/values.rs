use portfolio_core::errors::{DomainError, RuleViolation};
use portfolio_core::types::{ImageSource, ProjectUrl, UrlType};
use portfolio_core::values::{ProjectUrls, UniqueTechnologies};

fn rule(v: RuleViolation) -> Result<(), DomainError> {
    Err(DomainError::BusinessRule(v))
}

#[test]
fn same_technology_twice_is_one() {
    let mut t = UniqueTechnologies::new();
    assert_eq!(t.add("Rust".to_string()), Ok(()));
    assert_eq!(t.add("Rust".to_string()), Ok(()));
    assert_eq!(t.len(), 1);
    assert_eq!(t.as_slice(), vec!["Rust"]);
}

#[test]
fn twenty_first_technology_fails() {
    let mut t = UniqueTechnologies::new();
    for i in 0..20 {
        assert_eq!(t.add(format!("tech{}", i)), Ok(()));
    }
    assert_eq!(t.len(), 20);
    assert_eq!(t.add("tech20".to_string()), rule(RuleViolation::TechnologyLimitReached));
    assert_eq!(t.add("tech0".to_string()), rule(RuleViolation::TechnologyLimitReached));
    assert_eq!(t.len(), 20);
}

#[test]
fn removing_from_empty_technologies_fails() {
    let mut t = UniqueTechnologies::new();
    assert_eq!(t.remove("Rust"), rule(RuleViolation::NoTechnologyToRemove));
    t.add("Rust".to_string()).unwrap();
    assert_eq!(t.remove("Go"), Ok(()));
    assert_eq!(t.len(), 1);
}

#[test]
fn technology_removal_keeps_order() {
    let mut t = UniqueTechnologies::from_vec(vec!["a".to_string(), "b".to_string(), "c".to_string()]).unwrap();
    t.remove("a").unwrap();
    assert_eq!(t.as_vec(), vec!["b".to_string(), "c".to_string()]);
    let iter: Vec<&String> = t.iter();
    assert_eq!(iter.len(), 2);
}

#[test]
fn technologies_from_list() {
    let t = UniqueTechnologies::from_vec(vec!["Rust".to_string(), "Go".to_string(), "Rust".to_string()]).unwrap();
    assert_eq!(t.as_vec(), vec!["Rust".to_string(), "Go".to_string()]);
    let many: Vec<String> = (0..21).map(|i| format!("t{}", i)).collect();
    assert!(matches!(
        UniqueTechnologies::from_vec(many),
        Err(DomainError::BusinessRule(RuleViolation::TooManyTechnologies))
    ));
    let repeated: Vec<String> = (0..25).map(|i| format!("t{}", i % 20)).collect();
    assert_eq!(UniqueTechnologies::from_vec(repeated).unwrap().len(), 20);
}

#[test]
fn links_with_one_address_are_one() {
    let mut u = ProjectUrls::new();
    assert_eq!(u.add(ProjectUrl::github("https://github.com/a/b".to_string())), Ok(()));
    assert_eq!(
        u.add(ProjectUrl::new(UrlType::Other("mirror".to_string()), "https://github.com/a/b".to_string(), Some("Mirror".to_string()))),
        Ok(())
    );
    assert_eq!(u.len(), 1);
    assert_eq!(*u.iter()[0].url_type(), UrlType::GitHub);
    assert_eq!(u.iter()[0].label(), None);
    assert!(ProjectUrl::github("x".to_string()) == ProjectUrl::live_demo("x".to_string(), Some("l".to_string())));
}

#[test]
fn eleventh_link_fails() {
    let mut u = ProjectUrls::new();
    assert!(u.is_empty());
    for i in 0..10 {
        assert_eq!(u.add(ProjectUrl::new(UrlType::Docker, format!("https://hub.docker.com/{}", i), None)), Ok(()));
    }
    assert_eq!(
        u.add(ProjectUrl::new(UrlType::Docker, "https://hub.docker.com/10".to_string(), None)),
        rule(RuleViolation::UrlLimitReached)
    );
    assert_eq!(u.len(), 10);
    let many: Vec<ProjectUrl> = (0..11).map(|i| ProjectUrl::new(UrlType::CratesIo, format!("https://crates.io/{}", i), None)).collect();
    assert!(matches!(ProjectUrls::from_vec(many), Err(DomainError::BusinessRule(RuleViolation::TooManyUrls))));
}

#[test]
fn removing_links() {
    let mut u = ProjectUrls::new();
    assert_eq!(u.remove(ProjectUrl::github("https://github.com/a/b".to_string())), rule(RuleViolation::NoUrlToRemove));
    u.add(ProjectUrl::github("https://github.com/a/b".to_string())).unwrap();
    u.add(ProjectUrl::live_demo("https://a.dev".to_string(), None)).unwrap();
    assert_eq!(u.remove(ProjectUrl::new(UrlType::Docker, "https://github.com/a/b".to_string(), None)), Ok(()));
    assert_eq!(u.len(), 1);
    assert_eq!(u.iter()[0].url(), "https://a.dev");
    assert_eq!(u.find_by_type(UrlType::LiveDemo).len(), 1);
}

#[test]
fn link_list_checks_each_link() {
    let err = |v: Vec<ProjectUrl>| match ProjectUrls::from_vec(v) {
        Err(DomainError::BusinessRule(r)) => Some(r),
        _ => None,
    };
    assert_eq!(err(vec![ProjectUrl::new(UrlType::Docker, "   ".to_string(), None)]), Some(RuleViolation::EmptyUrl));
    assert_eq!(err(vec![ProjectUrl::github("https://gitlab.com/a/b".to_string())]), Some(RuleViolation::GitHubUrlWithoutHost));
    assert_eq!(err(vec![ProjectUrl::live_demo("ftp://a.dev".to_string(), None)]), Some(RuleViolation::LiveDemoNotHttp));
    let ok = ProjectUrls::from_vec(vec![
        ProjectUrl::github("https://github.com/a/b".to_string()),
        ProjectUrl::live_demo("http://a.dev".to_string(), None),
        ProjectUrl::github("https://github.com/a/b".to_string()),
    ])
    .unwrap();
    assert_eq!(ok.len(), 2);
}

#[test]
fn image_sources() {
    let u = ImageSource::url("https://example.com/i.png".to_string());
    assert_eq!(u.as_url(), Some("https://example.com/i.png"));
    assert_eq!(u.as_path(), None);
    let p = ImageSource::path("img/i.png".to_string());
    assert_eq!(p.as_path(), Some("img/i.png"));
    assert_eq!(p.as_url(), None);
}

#[test]
fn link_accessors() {
    let l = ProjectUrl::live_demo("https://a.dev".to_string(), Some("Demo".to_string()));
    assert_eq!(*l.url_type(), UrlType::LiveDemo);
    assert_eq!(l.url(), "https://a.dev");
    assert_eq!(l.label(), Some("Demo"));
    assert!(UrlType::Other("a".to_string()) != UrlType::Other("b".to_string()));
    assert!(UrlType::Other("a".to_string()) == UrlType::Other("a".to_string()));
}

#[test]
fn copies_keep_entries_in_order() {
    let t = UniqueTechnologies::from_vec(vec!["b".to_string(), "a".to_string()]).unwrap();
    let c = t.clone();
    assert_eq!(c.as_vec(), vec!["b".to_string(), "a".to_string()]);
    let u = ProjectUrls::from_vec(vec![
        ProjectUrl::live_demo("https://z.dev".to_string(), None),
        ProjectUrl::github("https://github.com/a/b".to_string()),
    ])
    .unwrap();
    let v = u.clone();
    assert_eq!(v.len(), 2);
    assert_eq!(v.iter()[0].url(), "https://z.dev");
    assert_eq!(v.iter()[1].url(), "https://github.com/a/b");
}

#[test]
fn link_removal_keeps_order() {
    let mut u = ProjectUrls::new();
    u.add(ProjectUrl::github("https://github.com/a/b".to_string())).unwrap();
    u.add(ProjectUrl::live_demo("https://b.dev".to_string(), None)).unwrap();
    u.add(ProjectUrl::new(UrlType::Docker, "https://hub.docker.com/c".to_string(), None)).unwrap();
    assert_eq!(u.remove(ProjectUrl::github("https://github.com/a/b".to_string())), Ok(()));
    let left: Vec<&str> = u.iter().iter().map(|l| l.url()).collect();
    assert_eq!(left, vec!["https://b.dev", "https://hub.docker.com/c"]);
}
