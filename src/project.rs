//! A project: its description, status, dates, technologies and links, and
//! the cross-field rules that tie them together.

use vstd::prelude::*;
use crate::errors::{fails_name, fails_with, DomainError, NameRule, RuleViolation};
use crate::outside::{is_hyphenated_uuid_char, new_uuid_string, uuid_text};
use crate::text::{chars_of, trim_chars, trimmed, utf8_len};
use crate::timestamps::CreateUp;
use crate::types::{date_after, ContentVisibility, ImageSource, ProjectDate, ProjectStatus, ProjectUrl, UrlType};
use crate::validators::{name_rule, CommonValidator};
use crate::values::{seq_without, url_insert, url_without, urls_of_kind, ProjectUrls, UniqueTechnologies};
use crate::indexed::seq_insert;

verus! {

/// Longest project description, in UTF-8 bytes, after trimming.
pub const MAX_DESCRIPTION_LEN: usize = 150;

/// Longest long project description, in UTF-8 bytes, after trimming.
pub const MAX_LONG_DESCRIPTION_LEN: usize = 300;

/// The content of a project.
pub struct ProjectView {
    pub id: Seq<char>,
    pub name: Seq<char>,
    pub description: Seq<char>,
    pub long_description: Seq<char>,
    pub status: ProjectStatus,
    pub technologies: Seq<Seq<char>>,
    pub urls: Seq<ProjectUrl>,
    pub image: Option<ImageSource>,
    pub visibility: ContentVisibility,
    pub featured: bool,
    pub start_date: Option<ProjectDate>,
    pub end_date: Option<ProjectDate>,
    pub created_updated: CreateUp,
}

/// Some link of `s` is of kind `k`.
pub open spec fn has_link_kind(s: Seq<ProjectUrl>, k: UrlType) -> bool {
    exists|i: int| 0 <= i < s.len() && (#[trigger] s[i]).spec_url_type().same_kind(k)
}

/// What is wrong with a project identifier, if anything: empty; not a UUID.
pub open spec fn project_id_problem(id: Seq<char>) -> Option<RuleViolation> {
    if id.len() == 0 {
        Some(RuleViolation::EmptyId)
    } else if !uuid_text(id) {
        Some(RuleViolation::IdNotUuid)
    } else {
        None
    }
}

/// Description at most 150 bytes, long description at most 300, both trimmed.
pub open spec fn descriptions_problem(v: ProjectView) -> Option<RuleViolation> {
    if utf8_len(trimmed(v.description)) > 150 {
        Some(RuleViolation::DescriptionTooLong { max_length: 150 })
    } else if utf8_len(trimmed(v.long_description)) > 300 {
        Some(RuleViolation::DescriptionTooLong { max_length: 300 })
    } else {
        None
    }
}

/// When both dates are set, the start is not after the end.
pub open spec fn dates_problem(v: ProjectView) -> Option<RuleViolation> {
    match (v.start_date, v.end_date) {
        (Some(s), Some(e)) => if date_after(s, e) {
            Some(RuleViolation::StartAfterEnd)
        } else {
            None
        },
        _ => None,
    }
}

/// A completed project has both dates; a planned one no start; one in
/// progress or in maintenance a start.
pub open spec fn status_problem(v: ProjectView) -> Option<RuleViolation> {
    if v.status == ProjectStatus::Completed && (v.start_date is None || v.end_date is None) {
        Some(RuleViolation::CompletedWithoutDates)
    } else if v.status == ProjectStatus::Planning && v.start_date is Some {
        Some(RuleViolation::PlanningWithStartDate)
    } else if (v.status == ProjectStatus::InProgress || v.status == ProjectStatus::Maintenance)
        && v.start_date is None {
        Some(RuleViolation::ActiveWithoutStartDate)
    } else {
        None
    }
}

/// A featured project is public, completed or in maintenance, has a long
/// description, a technology, and a GitHub or live demo link.
pub open spec fn featured_problem(v: ProjectView) -> Option<RuleViolation> {
    if !v.featured {
        None
    } else if v.visibility != ContentVisibility::Public {
        Some(RuleViolation::FeaturedNotPublic)
    } else if v.status == ProjectStatus::Planning || v.status == ProjectStatus::InProgress {
        Some(RuleViolation::FeaturedNotFinished)
    } else if trimmed(v.long_description).len() == 0 {
        Some(RuleViolation::FeaturedWithoutLongDescription)
    } else if v.technologies.len() < 1 {
        Some(RuleViolation::FeaturedWithoutTechnology)
    } else if !has_link_kind(v.urls, UrlType::GitHub) && !has_link_kind(v.urls, UrlType::LiveDemo) {
        Some(RuleViolation::FeaturedWithoutLink)
    } else {
        None
    }
}

/// The first rule after the name check that `v` breaks, in the order
/// descriptions, dates, status and dates, featured.
pub open spec fn project_rule_problem(v: ProjectView) -> Option<RuleViolation> {
    if descriptions_problem(v) is Some {
        descriptions_problem(v)
    } else if dates_problem(v) is Some {
        dates_problem(v)
    } else if status_problem(v) is Some {
        status_problem(v)
    } else {
        featured_problem(v)
    }
}

/// A project passes every rule.
pub open spec fn project_valid(v: ProjectView) -> bool {
    &&& project_id_problem(v.id) is None
    &&& name_rule(v.name) is None
    &&& project_rule_problem(v) is None
}

/// `r` is what checking the project `v` gives: the first rule broken, in
/// the order identifier, name, descriptions, dates, status, featured; else
/// success.
pub open spec fn project_check(v: ProjectView, r: Result<(), DomainError>) -> bool {
    if project_id_problem(v.id) is Some {
        fails_with(r, project_id_problem(v.id).unwrap())
    } else if name_rule(v.name) is Some {
        fails_name(r, "Project"@, name_rule(v.name).unwrap())
    } else if project_rule_problem(v) is Some {
        fails_with(r, project_rule_problem(v).unwrap())
    } else {
        r is Ok
    }
}

/// A project's check succeeds exactly when it is valid.
pub proof fn lemma_project_check_ok(v: ProjectView, r: Result<(), DomainError>)
    requires
        project_check(v, r),
    ensures
        r is Ok <==> project_valid(v),
{
}

/// A freshly made project — a fresh UUID, no links, not featured, no
/// dates — passes its check whenever its name and descriptions pass
/// theirs and it is still being planned, the one status that needs no date.
pub proof fn lemma_new_project_valid(v: ProjectView)
    requires
        uuid_text(v.id),
        v.id.len() == 36,
        v.urls.len() == 0,
        !v.featured,
        v.start_date is None,
        v.end_date is None,
        name_rule(v.name) is None,
        descriptions_problem(v) is None,
        v.status == ProjectStatus::Planning,
    ensures
        project_valid(v),
{
}

/// Without a start date, a completed project fails its check on the rule
/// tying status to dates, whatever else holds, once identifier, name and
/// descriptions pass.
pub proof fn lemma_completed_needs_start(v: ProjectView, r: Result<(), DomainError>)
    requires
        project_check(v, r),
        v.status == ProjectStatus::Completed,
        v.start_date is None,
        project_id_problem(v.id) is None,
        name_rule(v.name) is None,
        descriptions_problem(v) is None,
    ensures
        fails_with(r, RuleViolation::CompletedWithoutDates),
{
}

/// A featured project that is still being planned never passes its check.
pub proof fn lemma_featured_planning_invalid(v: ProjectView)
    requires
        v.featured,
        v.status == ProjectStatus::Planning,
    ensures
        !project_valid(v),
{
}

/// A project of a portfolio.
#[derive(Debug)]
pub struct Project {
    id: String,
    name: String,
    description: String,
    long_description: String,
    status: ProjectStatus,
    technologies: UniqueTechnologies,
    urls: ProjectUrls,
    image: Option<ImageSource>,
    visibility: ContentVisibility,
    featured: bool,
    start_date: Option<ProjectDate>,
    end_date: Option<ProjectDate>,
    created_updated: CreateUp,
}

impl View for Project {
    type V = ProjectView;

    closed spec fn view(&self) -> ProjectView {
        ProjectView {
            id: self.id@,
            name: self.name@,
            description: self.description@,
            long_description: self.long_description@,
            status: self.status,
            technologies: self.technologies@,
            urls: self.urls@,
            image: self.image,
            visibility: self.visibility,
            featured: self.featured,
            start_date: self.start_date,
            end_date: self.end_date,
            created_updated: self.created_updated,
        }
    }
}

impl Clone for Project {
    fn clone(&self) -> (r: Project)
        ensures
            r@ == self@,
            self.wf() ==> r.wf(),
    {
        let image = match &self.image {
            Some(i) => Some(i.clone()),
            None => None,
        };
        Project {
            id: self.id.clone(),
            name: self.name.clone(),
            description: self.description.clone(),
            long_description: self.long_description.clone(),
            status: self.status,
            technologies: self.technologies.clone(),
            urls: self.urls.clone(),
            image,
            visibility: self.visibility,
            featured: self.featured,
            start_date: self.start_date,
            end_date: self.end_date,
            created_updated: self.created_updated,
        }
    }
}

/// A name failure of the field "Project".
fn project_name_error(rule: NameRule) -> (r: DomainError)
    ensures
        fails_name(Err::<(), DomainError>(r), "Project"@, rule),
{
    let field = "Project".to_string();
    DomainError::BusinessRule(RuleViolation::InvalidName { field, rule })
}

impl Project {
    /// Its technologies and links are well formed.
    pub closed spec fn wf(&self) -> bool {
        self.technologies.wf() && self.urls.wf()
    }

    /// A new public, unfeatured project without links, image or dates: a
    /// fresh UUID, both instants set to now.
    pub fn new(
        name: String,
        description: String,
        long_description: String,
        status: ProjectStatus,
        technologies: UniqueTechnologies,
    ) -> (r: Project)
        requires
            technologies.wf(),
        ensures
            r.wf(),
            r@.id.len() == 36,
            forall|i: int| 0 <= i < 36 ==> is_hyphenated_uuid_char(#[trigger] r@.id[i]),
            uuid_text(r@.id),
            r@.name == name@,
            r@.description == description@,
            r@.long_description == long_description@,
            r@.status == status,
            r@.technologies == technologies@,
            r@.urls.len() == 0,
            r@.image is None,
            r@.visibility == ContentVisibility::Public,
            !r@.featured,
            r@.start_date is None,
            r@.end_date is None,
            r@.created_updated.spec_created_at() == r@.created_updated.spec_updated_at(),
    {
        Project {
            id: new_uuid_string(),
            name,
            description,
            long_description,
            status,
            technologies,
            urls: ProjectUrls::new(),
            image: None,
            visibility: ContentVisibility::Public,
            featured: false,
            start_date: None,
            end_date: None,
            created_updated: CreateUp::new(),
        }
    }

    /// A project rebuilt from stored values.
    pub fn with_dates(
        id: String,
        name: String,
        description: String,
        long_description: String,
        status: ProjectStatus,
        technologies: UniqueTechnologies,
        urls: ProjectUrls,
        image: Option<ImageSource>,
        visibility: ContentVisibility,
        featured: bool,
        start_date: Option<ProjectDate>,
        end_date: Option<ProjectDate>,
        created_at: i64,
        updated_at: i64,
    ) -> (r: Project)
        requires
            technologies.wf(),
            urls.wf(),
        ensures
            r.wf(),
            r@.id == id@,
            r@.name == name@,
            r@.description == description@,
            r@.long_description == long_description@,
            r@.status == status,
            r@.technologies == technologies@,
            r@.urls == urls@,
            r@.image == image,
            r@.visibility == visibility,
            r@.featured == featured,
            r@.start_date == start_date,
            r@.end_date == end_date,
            r@.created_updated.spec_created_at() == created_at,
            r@.created_updated.spec_updated_at() == updated_at,
    {
        Project {
            id,
            name,
            description,
            long_description,
            status,
            technologies,
            urls,
            image,
            visibility,
            featured,
            start_date,
            end_date,
            created_updated: CreateUp::with_dates(created_at, updated_at),
        }
    }

    /// Like `new`, but created, and last changed, at `created_at`.
    pub fn with_creation_date(
        name: String,
        description: String,
        long_description: String,
        status: ProjectStatus,
        technologies: UniqueTechnologies,
        created_at: i64,
    ) -> (r: Project)
        requires
            technologies.wf(),
        ensures
            r.wf(),
            r@.id.len() == 36,
            uuid_text(r@.id),
            r@.name == name@,
            r@.description == description@,
            r@.long_description == long_description@,
            r@.status == status,
            r@.technologies == technologies@,
            r@.urls.len() == 0,
            r@.image is None,
            r@.visibility == ContentVisibility::Public,
            !r@.featured,
            r@.start_date is None,
            r@.end_date is None,
            r@.created_updated.spec_created_at() == created_at,
            r@.created_updated.spec_updated_at() == created_at,
    {
        Project {
            id: new_uuid_string(),
            name,
            description,
            long_description,
            status,
            technologies,
            urls: ProjectUrls::new(),
            image: None,
            visibility: ContentVisibility::Public,
            featured: false,
            start_date: None,
            end_date: None,
            created_updated: CreateUp::with_created_at(created_at),
        }
    }

    pub fn id(&self) -> (r: &str)
        ensures
            r@ == self@.id,
    {
        self.id.as_str()
    }

    pub fn name(&self) -> (r: &str)
        ensures
            r@ == self@.name,
    {
        self.name.as_str()
    }

    pub fn description(&self) -> (r: &str)
        ensures
            r@ == self@.description,
    {
        self.description.as_str()
    }

    pub fn long_description(&self) -> (r: &str)
        ensures
            r@ == self@.long_description,
    {
        self.long_description.as_str()
    }

    pub fn status(&self) -> (r: &ProjectStatus)
        ensures
            *r == self@.status,
    {
        &self.status
    }

    pub fn technologies(&self) -> (r: &UniqueTechnologies)
        ensures
            r@ == self@.technologies,
    {
        &self.technologies
    }

    pub fn urls(&self) -> (r: &ProjectUrls)
        ensures
            r@ == self@.urls,
    {
        &self.urls
    }

    pub fn image(&self) -> (r: Option<&ImageSource>)
        ensures
            match r {
                Some(i) => self@.image == Some(*i),
                None => self@.image is None,
            },
    {
        match &self.image {
            Some(i) => Some(i),
            None => None,
        }
    }

    pub fn visibility(&self) -> (r: &ContentVisibility)
        ensures
            *r == self@.visibility,
    {
        &self.visibility
    }

    pub fn featured(&self) -> (r: bool)
        ensures
            r == self@.featured,
    {
        self.featured
    }

    pub fn start_date(&self) -> (r: Option<ProjectDate>)
        ensures
            r == self@.start_date,
    {
        self.start_date
    }

    pub fn end_date(&self) -> (r: Option<ProjectDate>)
        ensures
            r == self@.end_date,
    {
        self.end_date
    }

    pub fn created_updated(&self) -> (r: &CreateUp)
        ensures
            *r == self@.created_updated,
    {
        &self.created_updated
    }
}

impl Project {
    /// Renames the project; fails, changing nothing, when the name is
    /// blank. Only `validate` applies the full name rules.
    pub fn set_name(&mut self, name: String) -> (r: Result<(), DomainError>)
        requires
            old(self).wf(),
        ensures
            final(self).wf(),
            trimmed(name@).len() == 0 ==> fails_name(r, "Project"@, NameRule::Empty)
                && final(self)@ == old(self)@,
            trimmed(name@).len() > 0 ==> r is Ok && final(self)@ == (ProjectView {
                name: name@,
                created_updated: final(self)@.created_updated,
                ..old(self)@
            }),
            final(self)@.created_updated.spec_created_at() == old(self)@.created_updated.spec_created_at(),
    {
        if trim_chars(&chars_of(name.as_str())).len() == 0 {
            return Err(project_name_error(NameRule::Empty));
        }
        self.name = name;
        self.created_updated.update();
        Ok(())
    }

    /// Replaces the description, then checks the whole project; the
    /// change instant is recorded only when the check passes, the
    /// description is replaced either way.
    pub fn set_description(&mut self, description: String) -> (r: Result<(), DomainError>)
        requires
            old(self).wf(),
        ensures
            final(self).wf(),
            final(self)@ == (ProjectView {
                description: description@,
                created_updated: final(self)@.created_updated,
                ..old(self)@
            }),
            project_check(final(self)@, r),
            r is Err ==> final(self)@.created_updated == old(self)@.created_updated,
            final(self)@.created_updated.spec_created_at() == old(self)@.created_updated.spec_created_at(),
    {
        self.description = description;
        self.validate()?;
        self.created_updated.update();
        Ok(())
    }

    /// Replaces the long description, then checks the whole project; the
    /// change instant is recorded only when the check passes, the long
    /// description is replaced either way.
    pub fn set_long_description(&mut self, description: String) -> (r: Result<(), DomainError>)
        requires
            old(self).wf(),
        ensures
            final(self).wf(),
            final(self)@ == (ProjectView {
                long_description: description@,
                created_updated: final(self)@.created_updated,
                ..old(self)@
            }),
            project_check(final(self)@, r),
            r is Err ==> final(self)@.created_updated == old(self)@.created_updated,
            final(self)@.created_updated.spec_created_at() == old(self)@.created_updated.spec_created_at(),
    {
        self.long_description = description;
        self.validate()?;
        self.created_updated.update();
        Ok(())
    }

    /// Adds a link unless one with its address is there, then checks the
    /// whole project; fails, changing nothing, when the project has 10 links.
    pub fn add_url(&mut self, url: ProjectUrl) -> (r: Result<(), DomainError>)
        requires
            old(self).wf(),
        ensures
            final(self).wf(),
            old(self)@.urls.len() >= 10 ==> fails_with(r, RuleViolation::UrlLimitReached)
                && final(self)@ == old(self)@,
            old(self)@.urls.len() < 10 ==> final(self)@ == (ProjectView {
                urls: url_insert(old(self)@.urls, url),
                created_updated: final(self)@.created_updated,
                ..old(self)@
            }) && project_check(final(self)@, r),
            final(self)@.created_updated.spec_created_at() == old(self)@.created_updated.spec_created_at(),
    {
        self.urls.add(url)?;
        self.created_updated.update();
        self.validate()
    }

    /// Removes the link with the address of `url`, if any, then checks the
    /// whole project; fails, changing nothing, when the project has no links.
    pub fn remove_url(&mut self, url: ProjectUrl) -> (r: Result<(), DomainError>)
        requires
            old(self).wf(),
        ensures
            final(self).wf(),
            old(self)@.urls.len() == 0 ==> fails_with(r, RuleViolation::NoUrlToRemove)
                && final(self)@ == old(self)@,
            old(self)@.urls.len() > 0 ==> final(self)@ == (ProjectView {
                urls: url_without(old(self)@.urls, url.spec_url()),
                created_updated: final(self)@.created_updated,
                ..old(self)@
            }) && project_check(final(self)@, r),
            final(self)@.created_updated.spec_created_at() == old(self)@.created_updated.spec_created_at(),
    {
        self.urls.remove(url)?;
        self.created_updated.update();
        self.validate()
    }

    /// The links of kind `url_type`, in order.
    pub fn find_urls_by_type(&self, url_type: UrlType) -> (r: Vec<&ProjectUrl>)
        ensures
            r@.len() == urls_of_kind(self@.urls, url_type).len(),
            forall|i: int| 0 <= i < r@.len() ==> *(#[trigger] r@[i]) == urls_of_kind(self@.urls, url_type)[i],
    {
        self.urls.find_by_type(url_type)
    }

    /// Replaces the image.
    pub fn set_image(&mut self, image: Option<ImageSource>)
        requires
            old(self).wf(),
        ensures
            final(self).wf(),
            final(self)@ == (ProjectView {
                image: image,
                created_updated: final(self)@.created_updated,
                ..old(self)@
            }),
            final(self)@.created_updated.spec_created_at() == old(self)@.created_updated.spec_created_at(),
    {
        self.image = image;
        self.created_updated.update();
    }

    /// Sets whether the project is featured, then checks the whole project;
    /// the flag is set whether or not the check passes.
    pub fn set_featured(&mut self, featured: bool) -> (r: Result<(), DomainError>)
        requires
            old(self).wf(),
        ensures
            final(self).wf(),
            final(self)@ == (ProjectView {
                featured: featured,
                created_updated: final(self)@.created_updated,
                ..old(self)@
            }),
            project_check(final(self)@, r),
            final(self)@.created_updated.spec_created_at() == old(self)@.created_updated.spec_created_at(),
    {
        self.featured = featured;
        self.created_updated.update();
        self.validate()
    }

    /// Sets the visibility, then checks the whole project; the visibility
    /// is set whether or not the check passes.
    pub fn set_visibility(&mut self, visibility: ContentVisibility) -> (r: Result<(), DomainError>)
        requires
            old(self).wf(),
        ensures
            final(self).wf(),
            final(self)@ == (ProjectView {
                visibility: visibility,
                created_updated: final(self)@.created_updated,
                ..old(self)@
            }),
            project_check(final(self)@, r),
            final(self)@.created_updated.spec_created_at() == old(self)@.created_updated.spec_created_at(),
    {
        self.visibility = visibility;
        self.created_updated.update();
        self.validate()
    }

    /// Sets the status, then checks the whole project: any status may be
    /// set, and the rules tying status to dates decide afterwards whether
    /// the result is valid.
    pub fn set_status(&mut self, status: ProjectStatus) -> (r: Result<(), DomainError>)
        requires
            old(self).wf(),
        ensures
            final(self).wf(),
            final(self)@ == (ProjectView {
                status: status,
                created_updated: final(self)@.created_updated,
                ..old(self)@
            }),
            project_check(final(self)@, r),
            final(self)@.created_updated.spec_created_at() == old(self)@.created_updated.spec_created_at(),
    {
        self.status = status;
        self.created_updated.update();
        self.validate()
    }

    /// Sets both dates, then checks the whole project; the dates are set
    /// whether or not the check passes.
    pub fn set_dates(&mut self, start: Option<ProjectDate>, end: Option<ProjectDate>) -> (r: Result<(), DomainError>)
        requires
            old(self).wf(),
        ensures
            final(self).wf(),
            final(self)@ == (ProjectView {
                start_date: start,
                end_date: end,
                created_updated: final(self)@.created_updated,
                ..old(self)@
            }),
            project_check(final(self)@, r),
            final(self)@.created_updated.spec_created_at() == old(self)@.created_updated.spec_created_at(),
    {
        self.start_date = start;
        self.end_date = end;
        self.created_updated.update();
        self.validate()
    }

    /// Adds a technology unless it is listed, then checks the whole
    /// project; fails, changing nothing, when 20 are listed.
    pub fn add_technology(&mut self, tech: String) -> (r: Result<(), DomainError>)
        requires
            old(self).wf(),
        ensures
            final(self).wf(),
            old(self)@.technologies.len() >= 20 ==> fails_with(r, RuleViolation::TechnologyLimitReached)
                && final(self)@ == old(self)@,
            old(self)@.technologies.len() < 20 ==> final(self)@ == (ProjectView {
                technologies: seq_insert(old(self)@.technologies, tech@),
                created_updated: final(self)@.created_updated,
                ..old(self)@
            }) && project_check(final(self)@, r),
            final(self)@.created_updated.spec_created_at() == old(self)@.created_updated.spec_created_at(),
    {
        self.technologies.add(tech)?;
        self.created_updated.update();
        self.validate()
    }

    /// Removes a technology if listed, then checks the whole project;
    /// fails, changing nothing, when none is listed.
    pub fn remove_technology(&mut self, tech: &str) -> (r: Result<(), DomainError>)
        requires
            old(self).wf(),
        ensures
            final(self).wf(),
            old(self)@.technologies.len() == 0 ==> fails_with(r, RuleViolation::NoTechnologyToRemove)
                && final(self)@ == old(self)@,
            old(self)@.technologies.len() > 0 ==> final(self)@ == (ProjectView {
                technologies: seq_without(old(self)@.technologies, tech@),
                created_updated: final(self)@.created_updated,
                ..old(self)@
            }) && project_check(final(self)@, r),
            final(self)@.created_updated.spec_created_at() == old(self)@.created_updated.spec_created_at(),
    {
        self.technologies.remove(tech)?;
        self.created_updated.update();
        self.validate()
    }

    /// Whether the project is public.
    pub fn is_visible(&self) -> (r: bool)
        ensures
            r == (self@.visibility == ContentVisibility::Public),
    {
        matches!(self.visibility, ContentVisibility::Public)
    }

    fn has_link_of_kind(&self, kind: &UrlType) -> (r: bool)
        ensures
            r == has_link_kind(self@.urls, *kind),
    {
        let links = self.urls.iter();
        let mut i: usize = 0;
        while i < links.len()
            invariant
                i <= links@.len() == self@.urls.len(),
                forall|k: int| 0 <= k < links@.len() ==> *(#[trigger] links@[k]) == self@.urls[k],
                forall|k: int| 0 <= k < i ==> !(#[trigger] self@.urls[k]).spec_url_type().same_kind(*kind),
            decreases links@.len() - i,
        {
            if *links[i].url_type() == *kind {
                assert(links@[i as int] == self@.urls[i as int]);
                return true;
            }
            i = i + 1;
        }
        false
    }

    /// Whether the project links a GitHub repository.
    pub fn has_github_repo(&self) -> (r: bool)
        ensures
            r == has_link_kind(self@.urls, UrlType::GitHub),
    {
        self.has_link_of_kind(&UrlType::GitHub)
    }

    /// Whether the project links a live demo.
    pub fn has_live_demo(&self) -> (r: bool)
        ensures
            r == has_link_kind(self@.urls, UrlType::LiveDemo),
    {
        self.has_link_of_kind(&UrlType::LiveDemo)
    }

    fn validate_id(&self) -> (r: Result<(), DomainError>)
        ensures
            match project_id_problem(self@.id) {
                Some(v) => fails_with(r, v),
                None => r is Ok,
            },
    {
        CommonValidator::validate_id(self.id.as_str())
    }

    fn validate_name(&self) -> (r: Result<(), DomainError>)
        ensures
            match name_rule(self@.name) {
                Some(k) => fails_name(r, "Project"@, k),
                None => r is Ok,
            },
    {
        let field = "Project";
        proof { reveal_strlit("Project"); }
        CommonValidator::validate_name(self.name.as_str(), field)
    }

    fn validate_descriptions(&self) -> (r: Result<(), DomainError>)
        ensures
            match descriptions_problem(self@) {
                Some(v) => fails_with(r, v),
                None => r is Ok,
            },
    {
        CommonValidator::validate_description(self.description.as_str(), MAX_DESCRIPTION_LEN)?;
        CommonValidator::validate_description(self.long_description.as_str(), MAX_LONG_DESCRIPTION_LEN)?;
        Ok(())
    }

    fn validate_dates(&self) -> (r: Result<(), DomainError>)
        ensures
            match dates_problem(self@) {
                Some(v) => fails_with(r, v),
                None => r is Ok,
            },
    {
        match (&self.start_date, &self.end_date) {
            (Some(start), Some(end)) => {
                if start.is_after(end) {
                    return Err(DomainError::BusinessRule(RuleViolation::StartAfterEnd));
                }
            },
            _ => {},
        }
        Ok(())
    }

    fn validate_status_consistency(&self) -> (r: Result<(), DomainError>)
        ensures
            match status_problem(self@) {
                Some(v) => fails_with(r, v),
                None => r is Ok,
            },
    {
        if self.status == ProjectStatus::Completed && (self.start_date.is_none() || self.end_date.is_none()) {
            return Err(DomainError::BusinessRule(RuleViolation::CompletedWithoutDates));
        }
        if self.status == ProjectStatus::Planning && self.start_date.is_some() {
            return Err(DomainError::BusinessRule(RuleViolation::PlanningWithStartDate));
        }
        if (self.status == ProjectStatus::InProgress || self.status == ProjectStatus::Maintenance)
            && self.start_date.is_none() {
            return Err(DomainError::BusinessRule(RuleViolation::ActiveWithoutStartDate));
        }
        Ok(())
    }

    fn validate_featured_rules(&self) -> (r: Result<(), DomainError>)
        ensures
            match featured_problem(self@) {
                Some(v) => fails_with(r, v),
                None => r is Ok,
            },
    {
        if self.featured {
            if !self.is_visible() {
                return Err(DomainError::BusinessRule(RuleViolation::FeaturedNotPublic));
            }
            match self.status {
                ProjectStatus::Planning | ProjectStatus::InProgress => {
                    return Err(DomainError::BusinessRule(RuleViolation::FeaturedNotFinished));
                },
                ProjectStatus::Completed | ProjectStatus::Maintenance => {},
            }
            if trim_chars(&chars_of(self.long_description.as_str())).len() == 0 {
                return Err(DomainError::BusinessRule(RuleViolation::FeaturedWithoutLongDescription));
            }
            if self.technologies.len() < 1 {
                return Err(DomainError::BusinessRule(RuleViolation::FeaturedWithoutTechnology));
            }
            if !self.has_github_repo() && !self.has_live_demo() {
                return Err(DomainError::BusinessRule(RuleViolation::FeaturedWithoutLink));
            }
        }
        Ok(())
    }

    /// Checks, in order, the identifier, the name, the descriptions, the
    /// dates, status against dates, and the rules of featured projects, and
    /// reports the first rule broken.
    pub fn validate(&self) -> (r: Result<(), DomainError>)
        ensures
            project_check(self@, r),
    {
        self.validate_id()?;
        self.validate_name()?;
        self.validate_descriptions()?;
        self.validate_dates()?;
        self.validate_status_consistency()?;
        self.validate_featured_rules()?;
        Ok(())
    }
}

} // verus!
