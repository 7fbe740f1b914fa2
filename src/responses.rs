//! What the HTTP interface answers: plain records built from entities.

use vstd::prelude::*;
use crate::project::Project;
use crate::skill::Skill;
use crate::types::{ImageSource, ProjectStatus, SkillCategory, SkillLevel};
use crate::values::string_views;

verus! {

/// A project as the interface shows it.
#[derive(Debug)]
pub struct ProjectResponse {
    pub id: String,
    pub name: String,
    pub description: String,
    pub status: ProjectStatus,
    pub technologies: Vec<String>,
    pub featured: bool,
}

/// A skill as the interface shows it.
#[derive(Debug)]
pub struct SkillResponse {
    pub id: String,
    pub name: String,
    pub category: SkillCategory,
    pub level: SkillLevel,
    pub description: String,
    pub years_of_experience: u8,
    pub image: Option<ImageSource>,
}

/// The outcome of deleting several entities: an identifier and a message each.
#[derive(Debug)]
pub struct DeleteBatchResponse {
    pub results: Vec<(String, String)>,
}

/// A plain message.
#[derive(Debug)]
pub struct MessageResponse {
    pub message: String,
}

impl ProjectResponse {
    /// The record of `project`.
    pub fn from_project(project: &Project) -> (r: ProjectResponse)
        ensures
            r.id@ == project@.id,
            r.name@ == project@.name,
            r.description@ == project@.description,
            r.status == project@.status,
            string_views(r.technologies@) == project@.technologies,
            r.featured == project@.featured,
    {
        ProjectResponse {
            id: project.id().to_string(),
            name: project.name().to_string(),
            description: project.description().to_string(),
            status: *project.status(),
            technologies: project.technologies().as_vec(),
            featured: project.featured(),
        }
    }
}

impl SkillResponse {
    /// The record of `skill`.
    pub fn from_skill(skill: &Skill) -> (r: SkillResponse)
        ensures
            r.id@ == skill@.id,
            r.name@ == skill@.name,
            r.category == skill@.category,
            r.level == skill@.level,
            r.description@ == skill@.description,
            r.years_of_experience == skill@.years_of_experience,
            r.image == skill@.image,
    {
        let image = match skill.image() {
            Some(i) => Some(i.clone()),
            None => None,
        };
        SkillResponse {
            id: skill.id().to_string(),
            name: skill.name().to_string(),
            category: *skill.category(),
            level: *skill.level(),
            description: skill.description().to_string(),
            years_of_experience: skill.years_of_experience(),
            image,
        }
    }
}

impl MessageResponse {
    /// A message record.
    pub fn new(message: String) -> (r: MessageResponse)
        ensures
            r.message@ == message@,
    {
        MessageResponse { message }
    }
}

} // verus!
