//! Project descriptions exchanged with the project operations.

use vstd::prelude::*;

verus! {

/// A project and its layout.
#[derive(Debug, Clone)]
pub struct Project {
    pub name: String,
    pub path: String,
    pub version: String,
    pub description: Option<String>,
    pub dependencies: Vec<Dependency>,
    pub structure: ProjectStructure,
}

/// A package the project depends on.
#[derive(Debug, Clone)]
pub struct Dependency {
    pub name: String,
    pub version: String,
    pub is_dev: bool,
}

/// The files of a project, by kind.
#[derive(Debug, Clone)]
pub struct ProjectStructure {
    pub components: Vec<String>,
    pub assets: Vec<String>,
    pub tests: Vec<String>,
}

/// A request to create a project.
#[derive(Debug, Clone)]
pub struct CreateProjectRequest {
    pub name: String,
    pub template: String,
    pub path: Option<String>,
    pub description: Option<String>,
    pub dependencies: Option<Vec<Dependency>>,
}

/// A request to change a project.
#[derive(Debug, Clone)]
pub struct UpdateProjectRequest {
    pub name: Option<String>,
    pub description: Option<String>,
    pub version: Option<String>,
    pub add_dependencies: Option<Vec<Dependency>>,
    pub remove_dependencies: Option<Vec<String>>,
}

/// An issue found in a project.
#[derive(Debug, Clone)]
pub struct ProjectIssue {
    pub code: String,
    pub message: String,
    pub location: Option<ProjectLocation>,
    pub severity: IssueSeverity,
}

/// A place in a project file.
#[derive(Debug, Clone)]
pub struct ProjectLocation {
    pub file: String,
    pub line: Option<u32>,
    pub column: Option<u32>,
}

/// How serious an issue is.
#[derive(Debug, Clone, Copy, PartialEq, Eq, Structural)]
pub enum IssueSeverity {
    Error,
    Warning,
    Info,
}

} // verus!
