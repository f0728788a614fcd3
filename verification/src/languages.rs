//! The language registry: the `Language` entry type, the built-in table of
//! well-known backend languages with their default colors, and the fixed set
//! of supported color tokens.

use vstd::prelude::*;

use crate::text::{eq_ignore_case, eq_ignore_case_spec, str_eq};

verus! {

/// A candidate language: a display name and a terminal color token.
#[derive(Debug)]
pub struct Language {
    pub name: String,
    pub color: String,
}

impl Clone for Language {
    fn clone(&self) -> (r: Self)
        ensures
            r == *self,
    {
        Language { name: self.name.clone(), color: self.color.clone() }
    }
}

impl Language {
    /// Builds an entry from a name and a color token.
    pub fn new(name: &str, color: &str) -> (l: Language)
        ensures
            l.name@ == name@,
            l.color@ == color@,
    {
        Language { name: name.to_owned(), color: color.to_owned() }
    }
}

/// The built-in table: each well-known name with its default color.
pub open spec fn builtin_table_spec() -> Seq<(Seq<char>, Seq<char>)> {
    seq![
        ("Rust"@, "red"@),
        ("Go"@, "cyan"@),
        ("Python"@, "blue"@),
        ("Node.js"@, "green"@),
        ("Java"@, "yellow"@),
        ("C#"@, "magenta"@),
        ("PHP"@, "purple"@),
        ("Ruby"@, "red"@),
        ("Elixir"@, "magenta"@),
        ("Kotlin"@, "orange"@),
    ]
}

/// The curated default list of candidate languages.
pub fn builtin_languages() -> (r: Vec<Language>)
    ensures
        r@.len() == builtin_table_spec().len(),
        forall|i: int|
            0 <= i < r@.len() ==> r@[i].name@ == builtin_table_spec()[i].0 && r@[i].color@
                == builtin_table_spec()[i].1,
{
    let mut v: Vec<Language> = Vec::new();
    v.push(Language::new("Rust", "red"));
    v.push(Language::new("Go", "cyan"));
    v.push(Language::new("Python", "blue"));
    v.push(Language::new("Node.js", "green"));
    v.push(Language::new("Java", "yellow"));
    v.push(Language::new("C#", "magenta"));
    v.push(Language::new("PHP", "purple"));
    v.push(Language::new("Ruby", "red"));
    v.push(Language::new("Elixir", "magenta"));
    v.push(Language::new("Kotlin", "orange"));
    v
}

/// The default color of `name` in the given table: the color of the first
/// entry whose name matches up to ASCII letter case, or `"white"`.
pub open spec fn builtin_color_in(name: Seq<char>, table: Seq<(Seq<char>, Seq<char>)>) -> Seq<char>
    decreases table.len(),
{
    if table.len() == 0 {
        "white"@
    } else if eq_ignore_case_spec(table[0].0, name) {
        table[0].1
    } else {
        builtin_color_in(name, table.drop_first())
    }
}

/// The default color of `name` against the built-in table.
pub open spec fn builtin_color_spec(name: Seq<char>) -> Seq<char> {
    builtin_color_in(name, builtin_table_spec())
}

proof fn lemma_builtin_color_step(name: Seq<char>, table: Seq<(Seq<char>, Seq<char>)>, k: int)
    requires
        0 <= k <= table.len(),
        forall|j: int| 0 <= j < k ==> !eq_ignore_case_spec(table[j].0, name),
    ensures
        builtin_color_in(name, table) == builtin_color_in(name, table.skip(k)),
    decreases k,
{
    if k > 0 {
        lemma_builtin_color_step(name, table.drop_first(), k - 1);
        assert(table.drop_first().skip(k - 1) =~= table.skip(k));
        assert(table.skip(0) =~= table);
    } else {
        assert(table.skip(0) =~= table);
    }
}

/// The default color for `name`: the color of the first built-in entry whose
/// name matches up to ASCII letter case, or `"white"` when none matches.
pub fn builtin_color_for(name: &str) -> (r: &'static str)
    ensures
        r@ == builtin_color_spec(name@),
{
    proof {
        let t = builtin_table_spec();
        assert(t.len() == 10);
    }
    if eq_ignore_case("Rust", name) {
        "red"
    } else if eq_ignore_case("Go", name) {
        proof {
            lemma_builtin_color_step(name@, builtin_table_spec(), 1);
            assert(builtin_table_spec().skip(1)[0] == builtin_table_spec()[1]);
        }
        "cyan"
    } else if eq_ignore_case("Python", name) {
        proof {
            lemma_builtin_color_step(name@, builtin_table_spec(), 2);
            assert(builtin_table_spec().skip(2)[0] == builtin_table_spec()[2]);
        }
        "blue"
    } else if eq_ignore_case("Node.js", name) {
        proof {
            lemma_builtin_color_step(name@, builtin_table_spec(), 3);
            assert(builtin_table_spec().skip(3)[0] == builtin_table_spec()[3]);
        }
        "green"
    } else if eq_ignore_case("Java", name) {
        proof {
            lemma_builtin_color_step(name@, builtin_table_spec(), 4);
            assert(builtin_table_spec().skip(4)[0] == builtin_table_spec()[4]);
        }
        "yellow"
    } else if eq_ignore_case("C#", name) {
        proof {
            lemma_builtin_color_step(name@, builtin_table_spec(), 5);
            assert(builtin_table_spec().skip(5)[0] == builtin_table_spec()[5]);
        }
        "magenta"
    } else if eq_ignore_case("PHP", name) {
        proof {
            lemma_builtin_color_step(name@, builtin_table_spec(), 6);
            assert(builtin_table_spec().skip(6)[0] == builtin_table_spec()[6]);
        }
        "purple"
    } else if eq_ignore_case("Ruby", name) {
        proof {
            lemma_builtin_color_step(name@, builtin_table_spec(), 7);
            assert(builtin_table_spec().skip(7)[0] == builtin_table_spec()[7]);
        }
        "red"
    } else if eq_ignore_case("Elixir", name) {
        proof {
            lemma_builtin_color_step(name@, builtin_table_spec(), 8);
            assert(builtin_table_spec().skip(8)[0] == builtin_table_spec()[8]);
        }
        "magenta"
    } else if eq_ignore_case("Kotlin", name) {
        proof {
            lemma_builtin_color_step(name@, builtin_table_spec(), 9);
            assert(builtin_table_spec().skip(9)[0] == builtin_table_spec()[9]);
        }
        "orange"
    } else {
        proof {
            lemma_builtin_color_step(name@, builtin_table_spec(), 10);
            assert(builtin_table_spec().skip(10) =~= Seq::<(Seq<char>, Seq<char>)>::empty());
        }
        "white"
    }
}

/// The fixed closed set of recognized color tokens.
pub open spec fn supported_color_spec(c: Seq<char>) -> bool {
    ||| c == "red"@
    ||| c == "blue"@
    ||| c == "green"@
    ||| c == "yellow"@
    ||| c == "magenta"@
    ||| c == "cyan"@
    ||| c == "purple"@
    ||| c == "orange"@
    ||| c == "white"@
}

/// Membership test against the fixed supported-color set.
pub fn is_supported_color(color: &str) -> (r: bool)
    ensures
        r == supported_color_spec(color@),
{
    str_eq(color, "red") || str_eq(color, "blue") || str_eq(color, "green") || str_eq(
        color,
        "yellow",
    ) || str_eq(color, "magenta") || str_eq(color, "cyan") || str_eq(color, "purple") || str_eq(
        color,
        "orange",
    ) || str_eq(color, "white")
}

/// The color of the first entry in `languages` whose name is exactly `lang`,
/// or `"white"` when none matches.
pub open spec fn language_color_in(lang: Seq<char>, list: Seq<Language>) -> Seq<char>
    decreases list.len(),
{
    if list.len() == 0 {
        "white"@
    } else if list[0].name@ == lang {
        list[0].color@
    } else {
        language_color_in(lang, list.drop_first())
    }
}

/// Looks up the color under which `lang` is listed; `"white"` when absent.
pub fn language_color(lang: &str, languages: &Vec<Language>) -> (r: String)
    ensures
        r@ == language_color_in(lang@, languages@),
{
    proof {
        assert(languages@.skip(0) =~= languages@);
    }
    let mut i: usize = 0;
    while i < languages.len()
        invariant
            i <= languages@.len(),
            language_color_in(lang@, languages@) == language_color_in(
                lang@,
                languages@.skip(i as int),
            ),
        decreases languages@.len() - i,
    {
        proof {
            assert(languages@.skip(i as int)[0] == languages@[i as int]);
        }
        if str_eq(languages[i].name.as_str(), lang) {
            return languages[i].color.clone();
        }
        proof {
            assert(languages@.skip(i as int).drop_first() =~= languages@.skip(i as int + 1));
        }
        i = i + 1;
    }
    proof {
        assert(languages@.skip(i as int) =~= Seq::<Language>::empty());
    }
    let r = String::from_str("white");
    r
}

} // verus!
