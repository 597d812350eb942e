//! Documentation queries and their results.

use vstd::prelude::*;

verus! {

/// A documentation search.
#[derive(Debug, Clone)]
pub struct DocQueryRequest {
    pub query: String,
    pub category: Option<DocCategory>,
    /// The largest number of results wanted.
    pub limit: Option<usize>,
}

/// The kinds of documentation.
#[derive(Debug, Clone, Copy, PartialEq, Eq, Structural)]
pub enum DocCategory {
    Api,
    Guide,
    Tutorial,
    Example,
}

/// One documentation page.
#[derive(Debug, Clone)]
pub struct DocItem {
    pub title: String,
    pub path: String,
    pub category: DocCategory,
    pub description: String,
    pub content: Option<String>,
    pub related: Vec<String>,
}

/// A request for examples.
#[derive(Debug, Clone)]
pub struct DocExampleRequest {
    /// The kind of example: component, project or feature.
    pub example_type: String,
    pub feature: Option<String>,
    pub limit: Option<usize>,
}

/// One example.
#[derive(Debug, Clone)]
pub struct DocExample {
    pub title: String,
    pub description: String,
    pub code: String,
    pub language: String,
    pub related: Vec<String>,
    pub path: Option<String>,
}

} // verus!
