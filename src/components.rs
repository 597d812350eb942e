//! Component descriptions exchanged with the component operations.

use vstd::prelude::*;
use crate::json::Json;

verus! {

/// A component of a project.
#[derive(Debug)]
pub struct Component {
    pub id: String,
    pub name: String,
    /// The component's file.
    pub path: String,
    pub props: Vec<ComponentProp>,
    /// Whether the component takes children.
    pub children: bool,
    pub events: Vec<ComponentEvent>,
}

/// A property that a component takes.
#[derive(Debug)]
pub struct ComponentProp {
    pub name: String,
    /// The property's type.
    pub kind: String,
    pub required: bool,
    pub default: Option<Json>,
}

/// A request to create a component.
#[derive(Debug)]
pub struct CreateComponentRequest {
    pub name: String,
    /// Where to put it, relative to the project root.
    pub path: Option<String>,
    pub props: Option<Vec<ComponentProp>>,
    pub has_children: Option<bool>,
    pub events: Option<Vec<ComponentEvent>>,
    pub template: Option<String>,
}

/// A request to change a component.
#[derive(Debug)]
pub struct UpdateComponentRequest {
    pub props: Option<Vec<ComponentProp>>,
    pub events: Option<Vec<ComponentEvent>>,
    pub code: Option<String>,
    pub template: Option<String>,
    pub style: Option<String>,
}

/// An event that a component emits.
#[derive(Debug, Clone)]
pub struct ComponentEvent {
    pub name: String,
    /// The event's type.
    pub kind: String,
}

/// The findings of a component analysis.
#[derive(Debug, Clone)]
pub struct ComponentAnalysis {
    /// Complexity score, from 0 to 100.
    pub complexity: u8,
    pub dependencies: Vec<String>,
    pub issues: Vec<ComponentIssue>,
    pub suggestions: Vec<String>,
}

/// An issue found in a component.
#[derive(Debug, Clone)]
pub struct ComponentIssue {
    pub code: String,
    pub message: String,
    pub location: ComponentLocation,
    pub severity: IssueSeverity,
}

/// A place in a component's source file.
#[derive(Debug, Clone)]
pub struct ComponentLocation {
    pub file: String,
    pub line: u32,
    pub column: u32,
}

/// How serious an issue is.
#[derive(Debug, Clone, Copy, PartialEq, Eq, Structural)]
pub enum IssueSeverity {
    Error,
    Warning,
    Info,
}

} // verus!
