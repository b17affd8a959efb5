use vstd::prelude::*;

verus! {

/// A search of the design knowledge base.
#[derive(Clone, Debug)]
pub struct UiuxSearchRequest {
    pub query: String,
    pub domain: Option<String>,
    pub max_results: Option<u32>,
    /// `text` or `json`.
    pub format: Option<String>,
}

/// A search restricted to one technology stack.
#[derive(Clone, Debug)]
pub struct UiuxStackRequest {
    pub query: String,
    pub stack: String,
    pub max_results: Option<u32>,
    /// `text` or `json`.
    pub format: Option<String>,
}

/// A request to generate a design system.
#[derive(Clone, Debug)]
pub struct UiuxDesignSystemRequest {
    pub query: String,
    pub project_name: Option<String>,
    /// `ascii` or `markdown`.
    pub format: Option<String>,
    pub persist: Option<bool>,
    pub page: Option<String>,
    pub output_dir: Option<String>,
}

/// A request for suggestions on a piece of text.
#[derive(Clone, Debug)]
pub struct UiuxSuggestRequest {
    pub text: String,
}

} // verus!
