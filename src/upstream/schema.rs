//! Schema references and validation reports.

use std::collections::HashMap;
use vstd::prelude::*;

verus! {

/// The outcome of validating data against a schema.
#[derive(Debug, Clone)]
pub struct ValidationResult {
    /// Whether the data conforms.
    pub is_valid: bool,
    /// What does not conform.
    pub errors: Vec<ValidationError>,
    /// Remarks that do not make the data invalid.
    pub warnings: Vec<String>,
}

/// One way in which data fails its schema.
#[derive(Debug, Clone)]
pub struct ValidationError {
    /// Human-readable description.
    pub message: String,
    /// Path to the offending field.
    pub field_path: Option<String>,
    /// Machine-readable code.
    pub code: String,
}

/// A versioned reference to a schema.
#[derive(Debug, Clone)]
pub struct SchemaRef {
    /// Schema namespace.
    pub namespace: String,
    /// Schema name.
    pub name: String,
    /// Schema version.
    pub version: String,
    /// `namespace.name`.
    pub full_name: String,
}

/// Creates schema references within a default namespace.
#[derive(Debug, Clone)]
pub struct SchemaAdapter {
    default_namespace: String,
    schema_cache: HashMap<String, SchemaRef>,
}

impl View for SchemaAdapter {
    /// The default namespace.
    type V = Seq<char>;

    closed spec fn view(&self) -> Seq<char> {
        self.default_namespace@
    }
}

impl Default for SchemaAdapter {
    fn default() -> (r: Self)
        ensures
            r@ == "observatory"@,
    {
        SchemaAdapter::new()
    }
}

impl SchemaAdapter {
    /// An adapter for the `observatory` namespace.
    pub fn new() -> (r: Self)
        ensures
            r@ == "observatory"@,
    {
        SchemaAdapter {
            default_namespace: String::from_str("observatory"),
            schema_cache: HashMap::new(),
        }
    }

    /// An adapter for the namespace `namespace`.
    pub fn with_namespace(namespace: &str) -> (r: Self)
        ensures
            r@ == namespace@,
    {
        SchemaAdapter { default_namespace: String::from_str(namespace), schema_cache: HashMap::new() }
    }

    /// The default namespace.
    pub fn default_namespace(&self) -> (r: &str)
        ensures
            r@ == self@,
    {
        self.default_namespace.as_str()
    }

    /// A reference to version `version` of schema `name` in the default
    /// namespace.
    pub fn create_schema_ref(&self, name: &str, version: &str) -> (r: SchemaRef)
        ensures
            r.namespace@ == self@,
            r.name@ == name@,
            r.version@ == version@,
            r.full_name@ == self@ + "."@ + name@,
    {
        let namespace = self.default_namespace.clone();
        let full_name = namespace.clone().concat(".").concat(name);
        SchemaRef {
            full_name,
            namespace,
            name: String::from_str(name),
            version: String::from_str(version),
        }
    }
}

} // verus!
