//! Enumerations and small value objects shared by skills and projects.

use vstd::prelude::*;
use crate::outside::{calendar_day_exists, is_calendar_day};

verus! {

/// Where a project stands in its life.
#[derive(Clone, Copy, Debug, PartialEq, Eq, Structural)]
pub enum ProjectStatus {
    Planning,
    InProgress,
    Completed,
    Maintenance,
}

/// The area a skill belongs to.
#[derive(Clone, Copy, Debug, PartialEq, Eq, Structural)]
pub enum SkillCategory {
    Backend,
    Frontend,
    DevOps,
    Database,
    Tools,
    Languages,
    Other,
}

/// Who may see a skill or a project.
#[derive(Clone, Copy, Debug, PartialEq, Eq, Structural)]
pub enum ContentVisibility {
    Public,
    Private,
    Draft,
}

/// How well a skill is mastered; levels are ordered by `rank`.
#[derive(Clone, Copy, Debug, PartialEq, Eq, Structural)]
pub enum SkillLevel {
    Beginner,
    Intermediate,
    Advanced,
    Expert,
}

/// The level that `years` of experience give: 0-1 Beginner, 2-3
/// Intermediate, 4-6 Advanced, 7 and more Expert.
pub open spec fn level_for_years(years: u8) -> SkillLevel {
    if years <= 1 {
        SkillLevel::Beginner
    } else if years <= 3 {
        SkillLevel::Intermediate
    } else if years <= 6 {
        SkillLevel::Advanced
    } else {
        SkillLevel::Expert
    }
}

impl SkillLevel {
    /// Position of the level in the order Beginner < Intermediate < Advanced < Expert.
    pub open spec fn spec_rank(self) -> u8 {
        match self {
            SkillLevel::Beginner => 0,
            SkillLevel::Intermediate => 1,
            SkillLevel::Advanced => 2,
            SkillLevel::Expert => 3,
        }
    }

    /// Position of the level in the order Beginner < Intermediate < Advanced < Expert.
    pub fn rank(self) -> (r: u8)
        ensures
            r == self.spec_rank(),
    {
        match self {
            SkillLevel::Beginner => 0,
            SkillLevel::Intermediate => 1,
            SkillLevel::Advanced => 2,
            SkillLevel::Expert => 3,
        }
    }

    /// The level that `years` of experience give.
    pub fn from_experience(years: u8) -> (r: SkillLevel)
        ensures
            r == level_for_years(years),
    {
        if years <= 1 {
            SkillLevel::Beginner
        } else if years <= 3 {
            SkillLevel::Intermediate
        } else if years <= 6 {
            SkillLevel::Advanced
        } else {
            SkillLevel::Expert
        }
    }
}

/// More experience never gives a lower level.
pub proof fn lemma_level_monotonic(a: u8, b: u8)
    requires
        a <= b,
    ensures
        level_for_years(a).spec_rank() <= level_for_years(b).spec_rank(),
{
}

/// The kind of a project link.
#[derive(Debug)]
pub enum UrlType {
    GitHub,
    LiveDemo,
    Documentation,
    Docker,
    CratesIo,
    Other(String),
}

impl UrlType {
    /// Two kinds are the same when their variants are, and for `Other` the names too.
    pub open spec fn same_kind(self, o: UrlType) -> bool {
        match (self, o) {
            (UrlType::Other(a), UrlType::Other(b)) => a@ == b@,
            (UrlType::GitHub, UrlType::GitHub) => true,
            (UrlType::LiveDemo, UrlType::LiveDemo) => true,
            (UrlType::Documentation, UrlType::Documentation) => true,
            (UrlType::Docker, UrlType::Docker) => true,
            (UrlType::CratesIo, UrlType::CratesIo) => true,
            _ => false,
        }
    }
}

impl PartialEq for UrlType {
    fn eq(&self, o: &UrlType) -> (r: bool)
        ensures
            r == self.same_kind(*o),
    {
        match self {
            UrlType::Other(a) => match o {
                UrlType::Other(b) => *a == *b,
                _ => false,
            },
            UrlType::GitHub => matches!(o, UrlType::GitHub),
            UrlType::LiveDemo => matches!(o, UrlType::LiveDemo),
            UrlType::Documentation => matches!(o, UrlType::Documentation),
            UrlType::Docker => matches!(o, UrlType::Docker),
            UrlType::CratesIo => matches!(o, UrlType::CratesIo),
        }
    }
}

impl vstd::std_specs::cmp::PartialEqSpecImpl for UrlType {
    open spec fn obeys_eq_spec() -> bool {
        true
    }

    open spec fn eq_spec(&self, o: &UrlType) -> bool {
        self.same_kind(*o)
    }
}

impl Clone for UrlType {
    fn clone(&self) -> (r: UrlType)
        ensures
            r == *self,
    {
        match self {
            UrlType::GitHub => UrlType::GitHub,
            UrlType::LiveDemo => UrlType::LiveDemo,
            UrlType::Documentation => UrlType::Documentation,
            UrlType::Docker => UrlType::Docker,
            UrlType::CratesIo => UrlType::CratesIo,
            UrlType::Other(s) => UrlType::Other(s.clone()),
        }
    }
}

/// A link of a project: its kind, its address and an optional label.
/// Two links are the same when their addresses are.
#[derive(Debug)]
pub struct ProjectUrl {
    url_type: UrlType,
    url: String,
    label: Option<String>,
}

impl ProjectUrl {
    pub closed spec fn spec_url_type(&self) -> UrlType {
        self.url_type
    }

    pub closed spec fn spec_url(&self) -> Seq<char> {
        self.url@
    }

    pub closed spec fn spec_label(&self) -> Option<Seq<char>> {
        match self.label {
            Some(l) => Some(l@),
            None => None,
        }
    }

    /// A link with the given kind, address and label.
    pub fn new(url_type: UrlType, url: String, label: Option<String>) -> (r: ProjectUrl)
        ensures
            r.spec_url_type() == url_type,
            r.spec_url() == url@,
            r.spec_label() == (match label {
                Some(l) => Some(l@),
                None => None::<Seq<char>>,
            }),
    {
        ProjectUrl { url_type, url, label }
    }

    /// A GitHub link without a label.
    pub fn github(url: String) -> (r: ProjectUrl)
        ensures
            r.spec_url_type() == UrlType::GitHub,
            r.spec_url() == url@,
            r.spec_label() == None::<Seq<char>>,
    {
        ProjectUrl::new(UrlType::GitHub, url, None)
    }

    /// A live demo link.
    pub fn live_demo(url: String, label: Option<String>) -> (r: ProjectUrl)
        ensures
            r.spec_url_type() == UrlType::LiveDemo,
            r.spec_url() == url@,
            r.spec_label() == (match label {
                Some(l) => Some(l@),
                None => None::<Seq<char>>,
            }),
    {
        ProjectUrl::new(UrlType::LiveDemo, url, label)
    }

    /// The kind of the link.
    pub fn url_type(&self) -> (r: &UrlType)
        ensures
            *r == self.spec_url_type(),
    {
        &self.url_type
    }

    /// The address of the link.
    pub fn url(&self) -> (r: &str)
        ensures
            r@ == self.spec_url(),
    {
        self.url.as_str()
    }

    /// The label of the link, if it has one.
    pub fn label(&self) -> (r: Option<&str>)
        ensures
            match r {
                Some(l) => self.spec_label() == Some(l@),
                None => self.spec_label() is None,
            },
    {
        match &self.label {
            Some(l) => Some(l.as_str()),
            None => None,
        }
    }
}

impl PartialEq for ProjectUrl {
    fn eq(&self, o: &ProjectUrl) -> (r: bool)
        ensures
            r == (self.spec_url() == o.spec_url()),
    {
        self.url == o.url
    }
}

impl vstd::std_specs::cmp::PartialEqSpecImpl for ProjectUrl {
    open spec fn obeys_eq_spec() -> bool {
        true
    }

    open spec fn eq_spec(&self, o: &ProjectUrl) -> bool {
        self.spec_url() == o.spec_url()
    }
}

impl Clone for ProjectUrl {
    fn clone(&self) -> (r: ProjectUrl)
        ensures
            r == *self,
    {
        let label = match &self.label {
            Some(l) => Some(l.clone()),
            None => None,
        };
        ProjectUrl { url_type: self.url_type.clone(), url: self.url.clone(), label }
    }
}

/// Where an image comes from: a web address or a path.
#[derive(Debug)]
pub enum ImageSource {
    Url(String),
    Path(String),
}

impl ImageSource {
    /// An image at a web address.
    pub fn url(url: String) -> (r: ImageSource)
        ensures
            r matches ImageSource::Url(u) && u@ == url@,
    {
        ImageSource::Url(url)
    }

    /// An image at a path.
    pub fn path(path: String) -> (r: ImageSource)
        ensures
            r matches ImageSource::Path(p) && p@ == path@,
    {
        ImageSource::Path(path)
    }

    /// The web address, for an image given by one.
    pub fn as_url(&self) -> (r: Option<&str>)
        ensures
            match self {
                ImageSource::Url(u) => r matches Some(s) && s@ == u@,
                ImageSource::Path(_) => r is None,
            },
    {
        match self {
            ImageSource::Url(u) => Some(u.as_str()),
            ImageSource::Path(_) => None,
        }
    }

    /// The path, for an image given by one.
    pub fn as_path(&self) -> (r: Option<&str>)
        ensures
            match self {
                ImageSource::Path(p) => r matches Some(s) && s@ == p@,
                ImageSource::Url(_) => r is None,
            },
    {
        match self {
            ImageSource::Path(p) => Some(p.as_str()),
            ImageSource::Url(_) => None,
        }
    }
}

impl Clone for ImageSource {
    fn clone(&self) -> (r: ImageSource)
        ensures
            r == *self,
    {
        match self {
            ImageSource::Url(u) => ImageSource::Url(u.clone()),
            ImageSource::Path(p) => ImageSource::Path(p.clone()),
        }
    }
}


/// A calendar day of the proleptic Gregorian calendar.
#[derive(Clone, Copy, Debug, PartialEq, Eq, Structural)]
pub struct ProjectDate {
    year: i32,
    month: u32,
    day: u32,
}

impl ProjectDate {
    pub closed spec fn spec_year(&self) -> i32 {
        self.year
    }

    pub closed spec fn spec_month(&self) -> u32 {
        self.month
    }

    pub closed spec fn spec_day(&self) -> u32 {
        self.day
    }

    /// The day is one that exists.
    pub open spec fn wf(&self) -> bool {
        is_calendar_day(self.spec_year(), self.spec_month(), self.spec_day())
    }

    /// The day `year`-`month`-`day`, if it exists.
    pub fn from_ymd(year: i32, month: u32, day: u32) -> (r: Option<ProjectDate>)
        ensures
            r is Some <==> is_calendar_day(year, month, day),
            r matches Some(d) ==> d.spec_year() == year && d.spec_month() == month && d.spec_day() == day && d.wf(),
    {
        if calendar_day_exists(year, month, day) {
            Some(ProjectDate { year, month, day })
        } else {
            None
        }
    }

    pub fn year(&self) -> (r: i32)
        ensures
            r == self.spec_year(),
    {
        self.year
    }

    pub fn month(&self) -> (r: u32)
        ensures
            r == self.spec_month(),
    {
        self.month
    }

    pub fn day(&self) -> (r: u32)
        ensures
            r == self.spec_day(),
    {
        self.day
    }

    /// Whether this day comes after `other`.
    pub fn is_after(&self, other: &ProjectDate) -> (r: bool)
        ensures
            r == date_after(*self, *other),
    {
        self.year > other.year || (self.year == other.year && (self.month > other.month || (
        self.month == other.month && self.day > other.day)))
    }
}

/// Day `a` comes after day `b`.
pub open spec fn date_after(a: ProjectDate, b: ProjectDate) -> bool {
    a.spec_year() > b.spec_year() || (a.spec_year() == b.spec_year() && (a.spec_month() > b.spec_month() || (
    a.spec_month() == b.spec_month() && a.spec_day() > b.spec_day())))
}

} // verus!
