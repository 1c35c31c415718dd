//! The source languages a scenario can be written in.
use vstd::prelude::*;
use crate::text::str_eq;

verus! {

/// A source language of a scenario.
#[derive(Clone, Copy, Debug, PartialEq, Eq, Structural)]
pub enum Language {
    C,
    Cs,
    Cpp,
    Java,
    Rust,
    Python,
    Ruby,
}

/// Every language, in declaration order.
pub open spec fn all_languages() -> Seq<Language> {
    seq![
        Language::C,
        Language::Cs,
        Language::Cpp,
        Language::Java,
        Language::Rust,
        Language::Python,
        Language::Ruby,
    ]
}

impl Language {
    /// The lowercase name of the language, as scenario files spell it.
    pub open spec fn spec_name(self) -> Seq<char> {
        match self {
            Language::C => "c"@,
            Language::Cs => "cs"@,
            Language::Cpp => "cpp"@,
            Language::Java => "java"@,
            Language::Rust => "rust"@,
            Language::Python => "python"@,
            Language::Ruby => "ruby"@,
        }
    }

    /// The lowercase name of the language.
    pub fn name(&self) -> (r: &'static str)
        ensures
            r@ == self.spec_name(),
    {
        match self {
            Language::C => "c",
            Language::Cs => "cs",
            Language::Cpp => "cpp",
            Language::Java => "java",
            Language::Rust => "rust",
            Language::Python => "python",
            Language::Ruby => "ruby",
        }
    }

    /// The language whose lowercase name is `name`, if any.
    pub fn from_name(name: &str) -> (r: Option<Language>)
        ensures
            r.is_some() <==> exists|l: Language| l.spec_name() == name@,
            r matches Some(l) ==> l.spec_name() == name@,
    {
        proof {
            lemma_names_distinct();
        }
        let langs = Language::supported_languages();
        let mut i: usize = 0;
        while i < langs.len()
            invariant
                langs@ == all_languages(),
                i <= langs.len(),
                forall|j: int| 0 <= j < i ==> langs@[j].spec_name() != name@,
            decreases langs.len() - i,
        {
            let l = langs[i];
            if str_eq(l.name(), name) {
                return Some(l);
            }
            i = i + 1;
        }
        assert forall|l: Language| l.spec_name() != name@ by {
            assert(all_languages().contains(l)) by {
                match l {
                    Language::C => assert(all_languages()[0] == l),
                    Language::Cs => assert(all_languages()[1] == l),
                    Language::Cpp => assert(all_languages()[2] == l),
                    Language::Java => assert(all_languages()[3] == l),
                    Language::Rust => assert(all_languages()[4] == l),
                    Language::Python => assert(all_languages()[5] == l),
                    Language::Ruby => assert(all_languages()[6] == l),
                }
            }
        }
        None
    }

    /// Every supported language.
    pub fn supported_languages() -> (r: Vec<Language>)
        ensures
            r@ == all_languages(),
    {
        let r = vec![
            Language::C,
            Language::Cs,
            Language::Cpp,
            Language::Java,
            Language::Rust,
            Language::Python,
            Language::Ruby,
        ];
        assert(r@ =~= all_languages());
        r
    }

    /// Whether `name` is the lowercase name of a supported language.
    pub fn is_supported(name: &str) -> (r: bool)
        ensures
            r <==> exists|l: Language| l.spec_name() == name@,
    {
        Language::from_name(name).is_some()
    }

    /// The name of the source file the scenario's code is written to.
    pub open spec fn spec_source_file(self) -> Seq<char> {
        match self {
            Language::C => "main.c"@,
            Language::Cs => "Program.cs"@,
            Language::Cpp => "main.cpp"@,
            Language::Java => "Program.java"@,
            Language::Rust => "main.rs"@,
            Language::Python => "main.py"@,
            Language::Ruby => "main.rb"@,
        }
    }

    /// The name of the source file the scenario's code is written to.
    pub fn source_file(&self) -> (r: &'static str)
        ensures
            r@ == self.spec_source_file(),
    {
        match self {
            Language::C => "main.c",
            Language::Cs => "Program.cs",
            Language::Cpp => "main.cpp",
            Language::Java => "Program.java",
            Language::Rust => "main.rs",
            Language::Python => "main.py",
            Language::Ruby => "main.rb",
        }
    }

    /// The name of the artifact the build produces (or the script that is run).
    pub open spec fn spec_target_file(self) -> Seq<char> {
        match self {
            Language::C => "main"@,
            Language::Cs => "Program"@,
            Language::Cpp => "main"@,
            Language::Java => "Program"@,
            Language::Rust => "main"@,
            Language::Python => "main.py"@,
            Language::Ruby => "main.rb"@,
        }
    }

    /// The name of the artifact the build produces (or the script that is run).
    pub fn target_file(&self) -> (r: &'static str)
        ensures
            r@ == self.spec_target_file(),
    {
        match self {
            Language::C => "main",
            Language::Cs => "Program",
            Language::Cpp => "main",
            Language::Java => "Program",
            Language::Rust => "main",
            Language::Python => "main.py",
            Language::Ruby => "main.rb",
        }
    }

    /// Whether programs in this language are compiled before they run.
    pub open spec fn spec_is_compiled(self) -> bool {
        match self {
            Language::Python | Language::Ruby => false,
            _ => true,
        }
    }

    /// Whether programs in this language are compiled before they run.
    pub fn is_compiled(&self) -> (r: bool)
        ensures
            r == self.spec_is_compiled(),
    {
        match self {
            Language::C | Language::Cs | Language::Cpp | Language::Rust | Language::Java => true,
            Language::Python | Language::Ruby => false,
        }
    }
}

/// Every supported language.
pub fn supported_languages() -> (r: Vec<Language>)
    ensures
        r@ == all_languages(),
{
    Language::supported_languages()
}

/// Whether `name` is the lowercase name of a supported language.
pub fn is_supported(name: &str) -> (r: bool)
    ensures
        r <==> exists|l: Language| l.spec_name() == name@,
{
    Language::is_supported(name)
}

proof fn lemma_names_distinct()
    ensures
        forall|a: Language, b: Language| a.spec_name() == b.spec_name() ==> a == b,
{
    reveal_strlit("c");
    reveal_strlit("cs");
    reveal_strlit("cpp");
    reveal_strlit("java");
    reveal_strlit("rust");
    reveal_strlit("python");
    reveal_strlit("ruby");
    assert forall|a: Language, b: Language| a.spec_name() == b.spec_name() implies a == b by {
        if a != b {
            let x = a.spec_name();
            let y = b.spec_name();
            if x.len() == y.len() {
                assert(x[0] != y[0] || x[1] != y[1] || x[2] != y[2]);
            }
        }
    }
}

} // verus!
