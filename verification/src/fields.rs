use vstd::prelude::*;

verus! {

/// The closed set of schema fields.
///
/// The field set is fixed and known when the schema is built: a document has
/// a `file` identifier, a `title`, any number of `tags`, and a `content`
/// body. Modelling the set as an enum (rather than a string-keyed lookup)
/// makes a missing-field failure unrepresentable.
#[derive(Clone, Copy, PartialEq, Eq, Structural)]
pub enum SchemaField {
    File,
    Title,
    Tags,
    Content,
}

impl SchemaField {
    /// The name under which the field appears in the schema and in
    /// field-scoped query syntax such as `tags:work`.
    pub open spec fn spec_name(self) -> Seq<char> {
        match self {
            SchemaField::File => "file"@,
            SchemaField::Title => "title"@,
            SchemaField::Tags => "tags"@,
            SchemaField::Content => "content"@,
        }
    }

    /// Every field is indexed: its text is tokenized and searchable.
    pub open spec fn spec_is_indexed(self) -> bool {
        true
    }

    /// A field is stored when its original text can be read back verbatim
    /// from a matched document. `content` is searchable but not stored.
    pub open spec fn spec_is_stored(self) -> bool {
        self != SchemaField::Content
    }

    /// Executable view of [`Self::spec_name`].
    pub fn name(self) -> (r: &'static str)
        ensures
            r@ == self.spec_name(),
    {
        match self {
            SchemaField::File => "file",
            SchemaField::Title => "title",
            SchemaField::Tags => "tags",
            SchemaField::Content => "content",
        }
    }

    /// Executable view of [`Self::spec_is_stored`].
    pub fn is_stored(self) -> (r: bool)
        ensures
            r == self.spec_is_stored(),
    {
        match self {
            SchemaField::Content => false,
            _ => true,
        }
    }

    /// Executable view of [`Self::spec_is_indexed`].
    pub fn is_indexed(self) -> (r: bool)
        ensures
            r == self.spec_is_indexed(),
    {
        true
    }
}

} // verus!
