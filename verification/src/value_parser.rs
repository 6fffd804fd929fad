//! Parsing a template out of a command-line argument value: the compute
//! part, free of any argument-handling framework.

use vstd::prelude::*;

use crate::template::{parse_result_model, spec_parse, ParseError, Template};

verus! {

/// Parses template argument values.
#[derive(Clone, Copy, Debug)]
pub struct TemplateParser {}

impl TemplateParser {
    pub fn new() -> Self {
        Self {  }
    }

    /// Parses one argument value as a template.
    pub fn parse(&self, value: &str) -> (r: Result<Template, ParseError>)
        ensures
            parse_result_model(r) == spec_parse(value@),
    {
        Template::parse_str(value)
    }
}

impl Default for TemplateParser {
    fn default() -> Self {
        TemplateParser::new()
    }
}

} // verus!
