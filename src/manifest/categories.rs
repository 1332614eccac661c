//! Typst package categories.

use crate::text::str_eq;
use vstd::prelude::*;
use vstd::string::StringExecFns;

verus! {

/// A package's category.
#[non_exhaustive]
#[derive(Debug, Clone, Copy, PartialEq, Eq, Structural, Hash)]
pub enum Category {
    /// Building blocks for documents. This includes boxes, layout elements,
    /// marginals, icon packs, color palettes, and more.
    Components,
    /// Packages producing compelling visual representations of data,
    /// information, and models.
    Visualization,
    /// Tools for managing semantic information and references. Examples could
    /// be glossaries and bibliographic tools.
    Model,
    /// Primitives and helpers to achieve advanced layouts and set up a page
    /// with headers, margins, and multiple content flows.
    Layout,
    /// Packages that transform text and strings or are focused on fonts.
    Text,
    /// Tools for localization and internationalization as well as dealing with
    /// different scripts and languages in the same document.
    Languages,
    /// Packages/libraries focused on the programmatic aspect of Typst, useful
    /// for automating documents.
    Scripting,
    /// Integrations with third-party tools and formats. In particular, this
    /// includes packages that embed a third-party binary as a plugin.
    Integration,
    /// Auxiliary packages/tools, for example for creating compatibility and
    /// authoring packages.
    Utility,
    /// Unique uses of Typst that are not necessarily practical, but always
    /// entertaining.
    Fun,
    /// Long-form fiction and non-fiction books with multiple chapters.
    Book,
    /// A multipage informational or investigative document focused on a single
    /// topic. This category contains templates for tech reports, homework,
    /// proposals and more.
    Report,
    /// A scientific treatment on a research question. Usually published in a
    /// journal or conference proceedings.
    Paper,
    /// A final long-form deliverable concluding an academic degree.
    Thesis,
    /// A large-scale graphics-heavy presentation of a topic. A poster is
    /// intended to give its reader a first overview over a topic at a glance.
    Poster,
    /// Graphics-heavy, small leaflets intended for massive circulation and to
    /// inform or convince.
    Flyer,
    /// Slides for a projected, oral presentation.
    Presentation,
    /// A résumé or curriculum vitæ presenting the author's professional
    /// achievements in a compelling manner.
    Cv,
    /// Staples for the day-to-day in an office, such as a letter or an invoice.
    Office,
}

/// The kebab-case name of a category.
pub open spec fn category_name(c: Category) -> Seq<char> {
    match c {
        Category::Components => "components"@,
        Category::Visualization => "visualization"@,
        Category::Model => "model"@,
        Category::Layout => "layout"@,
        Category::Text => "text"@,
        Category::Languages => "languages"@,
        Category::Scripting => "scripting"@,
        Category::Integration => "integration"@,
        Category::Utility => "utility"@,
        Category::Fun => "fun"@,
        Category::Book => "book"@,
        Category::Report => "report"@,
        Category::Paper => "paper"@,
        Category::Thesis => "thesis"@,
        Category::Poster => "poster"@,
        Category::Flyer => "flyer"@,
        Category::Presentation => "presentation"@,
        Category::Cv => "cv"@,
        Category::Office => "office"@,
    }
}

/// An error returned when parsing a [Category] failed.
#[derive(Debug)]
pub struct ParseCategoryError {
    pub value: String,
}

impl ParseCategoryError {
    /// A description of the error, naming the value that was read.
    pub fn message(&self) -> (r: String)
        ensures
            r@ == "unknown category '"@ + self.value@ + "'"@,
    {
        let mut out = String::from_str("unknown category '");
        out.append(self.value.as_str());
        out.append("'");
        out
    }
}

impl Category {
    /// Every category, ordered by name.
    pub fn all() -> (r: Vec<Category>)
        ensures
            r@ == seq![Category::Book, Category::Components, Category::Cv, Category::Flyer, Category::Fun, Category::Integration, Category::Languages, Category::Layout, Category::Model, Category::Office, Category::Paper, Category::Poster, Category::Presentation, Category::Report, Category::Scripting, Category::Text, Category::Thesis, Category::Utility, Category::Visualization],
    {
        vec![
            Category::Book,
            Category::Components,
            Category::Cv,
            Category::Flyer,
            Category::Fun,
            Category::Integration,
            Category::Languages,
            Category::Layout,
            Category::Model,
            Category::Office,
            Category::Paper,
            Category::Poster,
            Category::Presentation,
            Category::Report,
            Category::Scripting,
            Category::Text,
            Category::Thesis,
            Category::Utility,
            Category::Visualization,
        ]
    }

    /// The categories which describe the functionality a package provides, ordered by name.
    pub fn functional() -> (r: Vec<Category>)
        ensures
            r@ == seq![Category::Components, Category::Fun, Category::Integration, Category::Languages, Category::Layout, Category::Model, Category::Scripting, Category::Text, Category::Utility, Category::Visualization],
    {
        vec![
            Category::Components,
            Category::Fun,
            Category::Integration,
            Category::Languages,
            Category::Layout,
            Category::Model,
            Category::Scripting,
            Category::Text,
            Category::Utility,
            Category::Visualization,
        ]
    }

    /// The categories which are related to publication, commonly used for template packages, ordered by name.
    pub fn publication() -> (r: Vec<Category>)
        ensures
            r@ == seq![Category::Book, Category::Cv, Category::Flyer, Category::Office, Category::Paper, Category::Poster, Category::Presentation, Category::Report, Category::Thesis],
    {
        vec![
            Category::Book,
            Category::Cv,
            Category::Flyer,
            Category::Office,
            Category::Paper,
            Category::Poster,
            Category::Presentation,
            Category::Report,
            Category::Thesis,
        ]
    }

    /// Converts a [Category] into its kebab-case text representation.
    pub fn to_str(self) -> (r: &'static str)
        ensures
            r@ == category_name(self),
    {
        match self {
            Category::Components => "components",
            Category::Visualization => "visualization",
            Category::Model => "model",
            Category::Layout => "layout",
            Category::Text => "text",
            Category::Languages => "languages",
            Category::Scripting => "scripting",
            Category::Integration => "integration",
            Category::Utility => "utility",
            Category::Fun => "fun",
            Category::Book => "book",
            Category::Report => "report",
            Category::Paper => "paper",
            Category::Thesis => "thesis",
            Category::Poster => "poster",
            Category::Flyer => "flyer",
            Category::Presentation => "presentation",
            Category::Cv => "cv",
            Category::Office => "office",
        }
    }

    /// Reads a [Category] from its kebab-case text representation.
    pub fn from_str(s: &str) -> (r: Result<Category, ParseCategoryError>)
        ensures
            match r {
                Ok(c) => category_name(c) == s@,
                Err(e) => e.value@ == s@ && forall|c: Category| category_name(c) != s@,
            },
    {
        if str_eq(s, "components") {
            return Ok(Category::Components);
        }
        if str_eq(s, "visualization") {
            return Ok(Category::Visualization);
        }
        if str_eq(s, "model") {
            return Ok(Category::Model);
        }
        if str_eq(s, "layout") {
            return Ok(Category::Layout);
        }
        if str_eq(s, "text") {
            return Ok(Category::Text);
        }
        if str_eq(s, "languages") {
            return Ok(Category::Languages);
        }
        if str_eq(s, "scripting") {
            return Ok(Category::Scripting);
        }
        if str_eq(s, "integration") {
            return Ok(Category::Integration);
        }
        if str_eq(s, "utility") {
            return Ok(Category::Utility);
        }
        if str_eq(s, "fun") {
            return Ok(Category::Fun);
        }
        if str_eq(s, "book") {
            return Ok(Category::Book);
        }
        if str_eq(s, "report") {
            return Ok(Category::Report);
        }
        if str_eq(s, "paper") {
            return Ok(Category::Paper);
        }
        if str_eq(s, "thesis") {
            return Ok(Category::Thesis);
        }
        if str_eq(s, "poster") {
            return Ok(Category::Poster);
        }
        if str_eq(s, "flyer") {
            return Ok(Category::Flyer);
        }
        if str_eq(s, "presentation") {
            return Ok(Category::Presentation);
        }
        if str_eq(s, "cv") {
            return Ok(Category::Cv);
        }
        if str_eq(s, "office") {
            return Ok(Category::Office);
        }
        Err(ParseCategoryError { value: s.to_owned() })
    }
}

impl std::str::FromStr for Category {
    type Err = ParseCategoryError;

    fn from_str(s: &str) -> Result<Category, ParseCategoryError> {
        Category::from_str(s)
    }
}

/// Every category has a name of its own, so that reading the name of a
/// category gives back that category.
pub proof fn lemma_category_names_distinct(a: Category, b: Category)
    ensures
        category_name(a) == category_name(b) ==> a == b,
{
    reveal_strlit("components");
    reveal_strlit("visualization");
    reveal_strlit("model");
    reveal_strlit("layout");
    reveal_strlit("text");
    reveal_strlit("languages");
    reveal_strlit("scripting");
    reveal_strlit("integration");
    reveal_strlit("utility");
    reveal_strlit("fun");
    reveal_strlit("book");
    reveal_strlit("report");
    reveal_strlit("paper");
    reveal_strlit("thesis");
    reveal_strlit("poster");
    reveal_strlit("flyer");
    reveal_strlit("presentation");
    reveal_strlit("cv");
    reveal_strlit("office");
    if category_name(a) == category_name(b) {
        assert(category_name(a).len() == category_name(b).len());
        assert(category_name(a)[0] == category_name(b)[0]);
        assert(category_name(a)[1] == category_name(b)[1]);
        assert(category_name(a)[2] == category_name(b)[2]);
    }
}

} // verus!
