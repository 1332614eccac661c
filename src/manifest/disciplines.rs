//! Typst package disciplines.

use crate::text::str_eq;
use vstd::prelude::*;
use vstd::string::StringExecFns;

verus! {

/// A package discipline, indicating the target audience of the package.
#[non_exhaustive]
#[derive(Debug, Clone, Copy, PartialEq, Eq, Structural, Hash)]
pub enum Discipline {
    Agriculture,
    Anthropology,
    Archaeology,
    Architecture,
    Biology,
    Business,
    Chemistry,
    Communication,
    ComputerScience,
    Design,
    Drawing,
    Economics,
    Education,
    Engineering,
    Fashion,
    Film,
    Geography,
    Geology,
    History,
    Journalism,
    Law,
    Linguistics,
    Literature,
    Mathematics,
    Medicine,
    Music,
    Painting,
    Philosophy,
    Photography,
    Physics,
    Politics,
    Psychology,
    Sociology,
    Theater,
    Theology,
    Transportation,
}

/// The kebab-case name of a discipline.
pub open spec fn discipline_name(c: Discipline) -> Seq<char> {
    match c {
        Discipline::Agriculture => "agriculture"@,
        Discipline::Anthropology => "anthropology"@,
        Discipline::Archaeology => "archaeology"@,
        Discipline::Architecture => "architecture"@,
        Discipline::Biology => "biology"@,
        Discipline::Business => "business"@,
        Discipline::Chemistry => "chemistry"@,
        Discipline::Communication => "communication"@,
        Discipline::ComputerScience => "computer-science"@,
        Discipline::Design => "design"@,
        Discipline::Drawing => "drawing"@,
        Discipline::Economics => "economics"@,
        Discipline::Education => "education"@,
        Discipline::Engineering => "engineering"@,
        Discipline::Fashion => "fashion"@,
        Discipline::Film => "film"@,
        Discipline::Geography => "geography"@,
        Discipline::Geology => "geology"@,
        Discipline::History => "history"@,
        Discipline::Journalism => "journalism"@,
        Discipline::Law => "law"@,
        Discipline::Linguistics => "linguistics"@,
        Discipline::Literature => "literature"@,
        Discipline::Mathematics => "mathematics"@,
        Discipline::Medicine => "medicine"@,
        Discipline::Music => "music"@,
        Discipline::Painting => "painting"@,
        Discipline::Philosophy => "philosophy"@,
        Discipline::Photography => "photography"@,
        Discipline::Physics => "physics"@,
        Discipline::Politics => "politics"@,
        Discipline::Psychology => "psychology"@,
        Discipline::Sociology => "sociology"@,
        Discipline::Theater => "theater"@,
        Discipline::Theology => "theology"@,
        Discipline::Transportation => "transportation"@,
    }
}

/// An error returned when parsing a [Discipline] failed.
#[derive(Debug)]
pub struct ParseDisciplineError {
    pub value: String,
}

impl ParseDisciplineError {
    /// A description of the error, naming the value that was read.
    pub fn message(&self) -> (r: String)
        ensures
            r@ == "unknown discipline '"@ + self.value@ + "'"@,
    {
        let mut out = String::from_str("unknown discipline '");
        out.append(self.value.as_str());
        out.append("'");
        out
    }
}

impl Discipline {
    /// Every discipline, ordered by name.
    pub fn all() -> (r: Vec<Discipline>)
        ensures
            r@ == seq![Discipline::Agriculture, Discipline::Anthropology, Discipline::Archaeology, Discipline::Architecture, Discipline::Biology, Discipline::Business, Discipline::Chemistry, Discipline::Communication, Discipline::ComputerScience, Discipline::Design, Discipline::Drawing, Discipline::Economics, Discipline::Education, Discipline::Engineering, Discipline::Fashion, Discipline::Film, Discipline::Geography, Discipline::Geology, Discipline::History, Discipline::Journalism, Discipline::Law, Discipline::Linguistics, Discipline::Literature, Discipline::Mathematics, Discipline::Medicine, Discipline::Music, Discipline::Painting, Discipline::Philosophy, Discipline::Photography, Discipline::Physics, Discipline::Politics, Discipline::Psychology, Discipline::Sociology, Discipline::Theater, Discipline::Theology, Discipline::Transportation],
    {
        vec![
            Discipline::Agriculture,
            Discipline::Anthropology,
            Discipline::Archaeology,
            Discipline::Architecture,
            Discipline::Biology,
            Discipline::Business,
            Discipline::Chemistry,
            Discipline::Communication,
            Discipline::ComputerScience,
            Discipline::Design,
            Discipline::Drawing,
            Discipline::Economics,
            Discipline::Education,
            Discipline::Engineering,
            Discipline::Fashion,
            Discipline::Film,
            Discipline::Geography,
            Discipline::Geology,
            Discipline::History,
            Discipline::Journalism,
            Discipline::Law,
            Discipline::Linguistics,
            Discipline::Literature,
            Discipline::Mathematics,
            Discipline::Medicine,
            Discipline::Music,
            Discipline::Painting,
            Discipline::Philosophy,
            Discipline::Photography,
            Discipline::Physics,
            Discipline::Politics,
            Discipline::Psychology,
            Discipline::Sociology,
            Discipline::Theater,
            Discipline::Theology,
            Discipline::Transportation,
        ]
    }

    /// Converts a [Discipline] into its kebab-case text representation.
    pub fn to_str(self) -> (r: &'static str)
        ensures
            r@ == discipline_name(self),
    {
        match self {
            Discipline::Agriculture => "agriculture",
            Discipline::Anthropology => "anthropology",
            Discipline::Archaeology => "archaeology",
            Discipline::Architecture => "architecture",
            Discipline::Biology => "biology",
            Discipline::Business => "business",
            Discipline::Chemistry => "chemistry",
            Discipline::Communication => "communication",
            Discipline::ComputerScience => "computer-science",
            Discipline::Design => "design",
            Discipline::Drawing => "drawing",
            Discipline::Economics => "economics",
            Discipline::Education => "education",
            Discipline::Engineering => "engineering",
            Discipline::Fashion => "fashion",
            Discipline::Film => "film",
            Discipline::Geography => "geography",
            Discipline::Geology => "geology",
            Discipline::History => "history",
            Discipline::Journalism => "journalism",
            Discipline::Law => "law",
            Discipline::Linguistics => "linguistics",
            Discipline::Literature => "literature",
            Discipline::Mathematics => "mathematics",
            Discipline::Medicine => "medicine",
            Discipline::Music => "music",
            Discipline::Painting => "painting",
            Discipline::Philosophy => "philosophy",
            Discipline::Photography => "photography",
            Discipline::Physics => "physics",
            Discipline::Politics => "politics",
            Discipline::Psychology => "psychology",
            Discipline::Sociology => "sociology",
            Discipline::Theater => "theater",
            Discipline::Theology => "theology",
            Discipline::Transportation => "transportation",
        }
    }

    /// Reads a [Discipline] from its kebab-case text representation.
    pub fn from_str(s: &str) -> (r: Result<Discipline, ParseDisciplineError>)
        ensures
            match r {
                Ok(c) => discipline_name(c) == s@,
                Err(e) => e.value@ == s@ && forall|c: Discipline| discipline_name(c) != s@,
            },
    {
        if str_eq(s, "agriculture") {
            return Ok(Discipline::Agriculture);
        }
        if str_eq(s, "anthropology") {
            return Ok(Discipline::Anthropology);
        }
        if str_eq(s, "archaeology") {
            return Ok(Discipline::Archaeology);
        }
        if str_eq(s, "architecture") {
            return Ok(Discipline::Architecture);
        }
        if str_eq(s, "biology") {
            return Ok(Discipline::Biology);
        }
        if str_eq(s, "business") {
            return Ok(Discipline::Business);
        }
        if str_eq(s, "chemistry") {
            return Ok(Discipline::Chemistry);
        }
        if str_eq(s, "communication") {
            return Ok(Discipline::Communication);
        }
        if str_eq(s, "computer-science") {
            return Ok(Discipline::ComputerScience);
        }
        if str_eq(s, "design") {
            return Ok(Discipline::Design);
        }
        if str_eq(s, "drawing") {
            return Ok(Discipline::Drawing);
        }
        if str_eq(s, "economics") {
            return Ok(Discipline::Economics);
        }
        if str_eq(s, "education") {
            return Ok(Discipline::Education);
        }
        if str_eq(s, "engineering") {
            return Ok(Discipline::Engineering);
        }
        if str_eq(s, "fashion") {
            return Ok(Discipline::Fashion);
        }
        if str_eq(s, "film") {
            return Ok(Discipline::Film);
        }
        if str_eq(s, "geography") {
            return Ok(Discipline::Geography);
        }
        if str_eq(s, "geology") {
            return Ok(Discipline::Geology);
        }
        if str_eq(s, "history") {
            return Ok(Discipline::History);
        }
        if str_eq(s, "journalism") {
            return Ok(Discipline::Journalism);
        }
        if str_eq(s, "law") {
            return Ok(Discipline::Law);
        }
        if str_eq(s, "linguistics") {
            return Ok(Discipline::Linguistics);
        }
        if str_eq(s, "literature") {
            return Ok(Discipline::Literature);
        }
        if str_eq(s, "mathematics") {
            return Ok(Discipline::Mathematics);
        }
        if str_eq(s, "medicine") {
            return Ok(Discipline::Medicine);
        }
        if str_eq(s, "music") {
            return Ok(Discipline::Music);
        }
        if str_eq(s, "painting") {
            return Ok(Discipline::Painting);
        }
        if str_eq(s, "philosophy") {
            return Ok(Discipline::Philosophy);
        }
        if str_eq(s, "photography") {
            return Ok(Discipline::Photography);
        }
        if str_eq(s, "physics") {
            return Ok(Discipline::Physics);
        }
        if str_eq(s, "politics") {
            return Ok(Discipline::Politics);
        }
        if str_eq(s, "psychology") {
            return Ok(Discipline::Psychology);
        }
        if str_eq(s, "sociology") {
            return Ok(Discipline::Sociology);
        }
        if str_eq(s, "theater") {
            return Ok(Discipline::Theater);
        }
        if str_eq(s, "theology") {
            return Ok(Discipline::Theology);
        }
        if str_eq(s, "transportation") {
            return Ok(Discipline::Transportation);
        }
        Err(ParseDisciplineError { value: s.to_owned() })
    }
}

impl std::str::FromStr for Discipline {
    type Err = ParseDisciplineError;

    fn from_str(s: &str) -> Result<Discipline, ParseDisciplineError> {
        Discipline::from_str(s)
    }
}

/// Every discipline has a name of its own, so that reading the name of a
/// discipline gives back that discipline.
pub proof fn lemma_discipline_names_distinct(a: Discipline, b: Discipline)
    ensures
        discipline_name(a) == discipline_name(b) ==> a == b,
{
    reveal_strlit("agriculture");
    reveal_strlit("anthropology");
    reveal_strlit("archaeology");
    reveal_strlit("architecture");
    reveal_strlit("biology");
    reveal_strlit("business");
    reveal_strlit("chemistry");
    reveal_strlit("communication");
    reveal_strlit("computer-science");
    reveal_strlit("design");
    reveal_strlit("drawing");
    reveal_strlit("economics");
    reveal_strlit("education");
    reveal_strlit("engineering");
    reveal_strlit("fashion");
    reveal_strlit("film");
    reveal_strlit("geography");
    reveal_strlit("geology");
    reveal_strlit("history");
    reveal_strlit("journalism");
    reveal_strlit("law");
    reveal_strlit("linguistics");
    reveal_strlit("literature");
    reveal_strlit("mathematics");
    reveal_strlit("medicine");
    reveal_strlit("music");
    reveal_strlit("painting");
    reveal_strlit("philosophy");
    reveal_strlit("photography");
    reveal_strlit("physics");
    reveal_strlit("politics");
    reveal_strlit("psychology");
    reveal_strlit("sociology");
    reveal_strlit("theater");
    reveal_strlit("theology");
    reveal_strlit("transportation");
    if discipline_name(a) == discipline_name(b) {
        assert(discipline_name(a).len() == discipline_name(b).len());
        assert(discipline_name(a)[0] == discipline_name(b)[0]);
        assert(discipline_name(a)[1] == discipline_name(b)[1]);
        assert(discipline_name(a)[2] == discipline_name(b)[2]);
    }
}

} // verus!
