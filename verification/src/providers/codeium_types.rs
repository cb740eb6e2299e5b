//! The provider's enumeration of programming languages.

use crate::text::str_eq;
use vstd::prelude::*;

verus! {

/// The number that stands for a language that the provider's enumeration
/// does not name.
pub const LANGUAGE_UNSPECIFIED: usize = 0;

/// The provider's enumeration: each language tag that it knows, with the
/// number that stands for it.
pub open spec fn language_table() -> Seq<(Seq<char>, nat)> {
    seq![
        ("c"@, 1nat),
        ("clojure"@, 2nat),
        ("coffeescript"@, 3nat),
        ("cpp"@, 4nat),
        ("csharp"@, 5nat),
        ("css"@, 6nat),
        ("cudacpp"@, 7nat),
        ("dockerfile"@, 8nat),
        ("go"@, 9nat),
        ("groovy"@, 10nat),
        ("handlebars"@, 11nat),
        ("haskell"@, 12nat),
        ("hcl"@, 13nat),
        ("html"@, 14nat),
        ("ini"@, 15nat),
        ("java"@, 16nat),
        ("javascript"@, 17nat),
        ("json"@, 18nat),
        ("julia"@, 19nat),
        ("kotlin"@, 20nat),
        ("latex"@, 21nat),
        ("less"@, 22nat),
        ("lua"@, 23nat),
        ("makefile"@, 24nat),
        ("markdown"@, 25nat),
        ("objectivec"@, 26nat),
        ("objectivecpp"@, 27nat),
        ("perl"@, 28nat),
        ("php"@, 29nat),
        ("plaintext"@, 30nat),
        ("protobuf"@, 31nat),
        ("pbtxt"@, 32nat),
        ("python"@, 33nat),
        ("r"@, 34nat),
        ("ruby"@, 35nat),
        ("rust"@, 36nat),
        ("sass"@, 37nat),
        ("scala"@, 38nat),
        ("scss"@, 39nat),
        ("shell"@, 40nat),
        ("sql"@, 41nat),
        ("starlark"@, 42nat),
        ("swift"@, 43nat),
        ("tsx"@, 44nat),
        ("typescript"@, 45nat),
        ("visualbasic"@, 46nat),
        ("vue"@, 47nat),
        ("xml"@, 48nat),
        ("xsl"@, 49nat),
        ("yaml"@, 50nat),
        ("svelte"@, 51nat),
        ("toml"@, 52nat),
        ("dart"@, 53nat),
        ("rst"@, 54nat),
        ("ocaml"@, 55nat),
        ("cmake"@, 56nat),
        ("pascal"@, 57nat),
        ("elixir"@, 58nat),
        ("fsharp"@, 59nat),
        ("lisp"@, 60nat),
        ("matlab"@, 61nat),
        ("powershell"@, 62nat),
        ("solidity"@, 63nat),
        ("ada"@, 64nat),
        ("ocaml_interface"@, 65nat),
    ]
}

/// The number that `table` gives to `language_id`: that of the first entry
/// with this tag, and the number for an unspecified language where no entry
/// has it.
pub open spec fn lookup_language(table: Seq<(Seq<char>, nat)>, language_id: Seq<char>) -> nat
    decreases table.len(),
{
    if table.len() == 0 {
        LANGUAGE_UNSPECIFIED as nat
    } else if table.first().0 == language_id {
        table.first().1
    } else {
        lookup_language(table.drop_first(), language_id)
    }
}

/// The provider's number for the language tag `language_id`.
pub open spec fn language_code_of(language_id: Seq<char>) -> nat {
    lookup_language(language_table(), language_id)
}

/// A table of tags and numbers as values.
pub open spec fn table_views(table: Seq<(&str, usize)>) -> Seq<(Seq<char>, nat)> {
    table.map_values(|entry: (&str, usize)| (entry.0@, entry.1 as nat))
}

/// The provider's enumeration.
pub fn languages() -> (table: Vec<(&'static str, usize)>)
    ensures
        table_views(table@) == language_table(),
{
    let table = vec![
        ("c", 1usize),
        ("clojure", 2usize),
        ("coffeescript", 3usize),
        ("cpp", 4usize),
        ("csharp", 5usize),
        ("css", 6usize),
        ("cudacpp", 7usize),
        ("dockerfile", 8usize),
        ("go", 9usize),
        ("groovy", 10usize),
        ("handlebars", 11usize),
        ("haskell", 12usize),
        ("hcl", 13usize),
        ("html", 14usize),
        ("ini", 15usize),
        ("java", 16usize),
        ("javascript", 17usize),
        ("json", 18usize),
        ("julia", 19usize),
        ("kotlin", 20usize),
        ("latex", 21usize),
        ("less", 22usize),
        ("lua", 23usize),
        ("makefile", 24usize),
        ("markdown", 25usize),
        ("objectivec", 26usize),
        ("objectivecpp", 27usize),
        ("perl", 28usize),
        ("php", 29usize),
        ("plaintext", 30usize),
        ("protobuf", 31usize),
        ("pbtxt", 32usize),
        ("python", 33usize),
        ("r", 34usize),
        ("ruby", 35usize),
        ("rust", 36usize),
        ("sass", 37usize),
        ("scala", 38usize),
        ("scss", 39usize),
        ("shell", 40usize),
        ("sql", 41usize),
        ("starlark", 42usize),
        ("swift", 43usize),
        ("tsx", 44usize),
        ("typescript", 45usize),
        ("visualbasic", 46usize),
        ("vue", 47usize),
        ("xml", 48usize),
        ("xsl", 49usize),
        ("yaml", 50usize),
        ("svelte", 51usize),
        ("toml", 52usize),
        ("dart", 53usize),
        ("rst", 54usize),
        ("ocaml", 55usize),
        ("cmake", 56usize),
        ("pascal", 57usize),
        ("elixir", 58usize),
        ("fsharp", 59usize),
        ("lisp", 60usize),
        ("matlab", 61usize),
        ("powershell", 62usize),
        ("solidity", 63usize),
        ("ada", 64usize),
        ("ocaml_interface", 65usize),
    ];
    assert(table_views(table@) =~= language_table());
    table
}

/// The provider's number for the language tag `language_id`. A tag that the
/// provider does not know is no error: it gets the number for an unspecified
/// language.
pub fn language_code(language_id: &str) -> (code: usize)
    ensures
        code == language_code_of(language_id@),
{
    let table = languages();
    let ghost views = table_views(table@);
    let mut i: usize = 0;
    proof {
        assert(views.skip(0) =~= views);
    }
    while i < table.len()
        invariant
            i <= table.len(),
            views == table_views(table@),
            views == language_table(),
            lookup_language(views, language_id@) == lookup_language(
                views.skip(i as int),
                language_id@,
            ),
        decreases table.len() - i,
    {
        proof {
            assert(views.skip(i as int).first() == views[i as int]);
            assert(views[i as int] == (table@[i as int].0@, table@[i as int].1 as nat));
            assert(views.skip(i as int).drop_first() =~= views.skip(i + 1));
        }
        if str_eq(table[i].0, language_id) {
            return table[i].1;
        }
        i = i + 1;
    }
    LANGUAGE_UNSPECIFIED
}

} // verus!
