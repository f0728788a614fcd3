//! Validation of a parsed configuration document: schema versioning,
//! per-entry name and color checks, and default-color resolution.
//!
//! Reading and parsing the configuration resource happen outside this
//! library; the document arrives here already structured.

use vstd::prelude::*;

use crate::languages::{
    builtin_color_for, builtin_color_spec, is_supported_color, supported_color_spec, Language,
};
use crate::text::{lower_spec, to_lower, trim_spec, trim_str};

verus! {

/// One raw entry of the document: either a bare name, or a name with an
/// optional color.
#[derive(Debug, PartialEq)]
pub enum RawEntry {
    Bare(String),
    Full { name: String, color: Option<String> },
}

/// A parsed configuration document, before validation.
#[derive(Debug, PartialEq)]
pub struct ConfigDocument {
    /// Declared schema version; absence means version 1.
    pub schema_version: Option<u32>,
    /// The raw language entries, in document order; an absent array is empty.
    pub languages: Vec<RawEntry>,
}

/// Everything that can go wrong while loading a configuration resource.
/// Every variant names the offending resource path.
#[derive(Debug, PartialEq, Eq)]
pub enum ConfigError {
    /// The resource could not be read at all.
    Read { path: String, cause: String },
    /// The content does not conform to the document grammar.
    Parse { path: String, cause: String },
    /// A declared schema version other than 1.
    UnsupportedSchemaVersion { path: String, found: u32 },
    /// The `languages` array is absent or empty.
    EmptyLanguages { path: String },
    /// The entry at `index` has a name that is empty after trimming.
    EmptyLanguageName { path: String, index: usize },
    /// The entry at `index` resolved to a color outside the supported set.
    InvalidColor { path: String, index: usize, color: String },
}

/// The declared name of a raw entry.
pub open spec fn entry_name_spec(e: RawEntry) -> Seq<char> {
    match e {
        RawEntry::Bare(name) => name@,
        RawEntry::Full { name, color: _ } => name@,
    }
}

/// The declared color of a raw entry, if one was given.
pub open spec fn entry_color_spec(e: RawEntry) -> Option<Seq<char>> {
    match e {
        RawEntry::Bare(_) => None,
        RawEntry::Full { name: _, color } => match color {
            Some(c) => Some(c@),
            None => None,
        },
    }
}

/// The entry's name after trimming surrounding whitespace.
pub open spec fn trimmed_name_spec(e: RawEntry) -> Seq<char> {
    trim_spec(entry_name_spec(e))
}

/// The color an entry resolves to: a declared color is trimmed and
/// lowercased; an absent one falls back to the registry default for the
/// trimmed name.
pub open spec fn resolved_color_spec(e: RawEntry) -> Seq<char> {
    match entry_color_spec(e) {
        Some(c) => lower_spec(trim_spec(c)),
        None => builtin_color_spec(trimmed_name_spec(e)),
    }
}

/// The entry's name is non-empty after trimming.
pub open spec fn entry_name_ok_spec(e: RawEntry) -> bool {
    trimmed_name_spec(e).len() > 0
}

/// The entry passes validation entirely.
pub open spec fn entry_ok_spec(e: RawEntry) -> bool {
    entry_name_ok_spec(e) && supported_color_spec(resolved_color_spec(e))
}

/// The document's schema version, defaulting to 1 when absent.
pub open spec fn doc_version(doc: ConfigDocument) -> u32 {
    match doc.schema_version {
        Some(v) => v,
        None => 1,
    }
}

/// The index of the first entry at or after `i` that fails validation, or
/// the length when every one from `i` on passes.
pub open spec fn first_invalid_at(entries: Seq<RawEntry>, i: int) -> int
    decreases entries.len() - i,
{
    if i < 0 || i >= entries.len() {
        entries.len() as int
    } else if !entry_ok_spec(entries[i]) {
        i
    } else {
        first_invalid_at(entries, i + 1)
    }
}

/// Validates a parsed document and produces the language list.
///
/// Validation is fail-fast, in document order: a schema version other
/// than 1 is rejected first, then an empty `languages` array, then each
/// entry in turn, reporting the first entry with an empty trimmed name or
/// an unsupported resolved color. On success every entry appears in order,
/// with its trimmed name and its resolved color.
pub fn load_languages_from_document(doc: &ConfigDocument, path: &str) -> (r: Result<
    Vec<Language>,
    ConfigError,
>)
    ensures
        doc_version(*doc) != 1 ==> (r matches Err(ConfigError::UnsupportedSchemaVersion {
            path: p,
            found,
        }) && p@ == path@ && found == doc_version(*doc)),
        doc_version(*doc) == 1 && doc.languages@.len() == 0 ==> (r matches Err(
            ConfigError::EmptyLanguages { path: p },
        ) && p@ == path@),
        doc_version(*doc) == 1 && doc.languages@.len() > 0 ==> ({
            let entries = doc.languages@;
            let j = first_invalid_at(entries, 0);
            if j == entries.len() {
                r matches Ok(out) && out@.len() == entries.len() && (forall|i: int|
                    0 <= i < entries.len() ==> entry_ok_spec(#[trigger] entries[i])
                        && out@[i].name@ == trimmed_name_spec(entries[i]) && out@[i].color@
                        == resolved_color_spec(entries[i]))
            } else if !entry_name_ok_spec(entries[j]) {
                r matches Err(ConfigError::EmptyLanguageName { path: p, index }) && p@ == path@
                    && index as int == j
            } else {
                r matches Err(ConfigError::InvalidColor { path: p, index, color }) && p@ == path@
                    && index as int == j && color@ == resolved_color_spec(entries[j])
            }
        }),
{
    let version: u32 = match doc.schema_version {
        Some(v) => v,
        None => 1,
    };
    if version != 1 {
        return Err(
            ConfigError::UnsupportedSchemaVersion { path: path.to_owned(), found: version },
        );
    }
    if doc.languages.len() == 0 {
        return Err(ConfigError::EmptyLanguages { path: path.to_owned() });
    }
    let ghost entries = doc.languages@;
    let mut out: Vec<Language> = Vec::new();
    let mut idx: usize = 0;
    while idx < doc.languages.len()
        invariant
            entries == doc.languages@,
            doc_version(*doc) == 1,
            entries.len() > 0,
            idx <= entries.len(),
            out@.len() == idx,
            forall|k: int| 0 <= k < idx ==> entry_ok_spec(#[trigger] entries[k]),
            forall|k: int|
                0 <= k < idx ==> out@[k].name@ == trimmed_name_spec(#[trigger] entries[k])
                    && out@[k].color@ == resolved_color_spec(entries[k]),
            first_invalid_at(entries, 0) == first_invalid_at(entries, idx as int),
        decreases entries.len() - idx,
    {
        let entry = &doc.languages[idx];
        let (raw_name, color_opt): (String, Option<String>) = match entry {
            RawEntry::Bare(n) => (n.clone(), None),
            RawEntry::Full { name, color } => (
                name.clone(),
                match color {
                    Some(c) => Some(c.clone()),
                    None => None,
                },
            ),
        };
        proof {
            assert(raw_name@ == entry_name_spec(entries[idx as int]));
            assert(match color_opt {
                Some(c) => entry_color_spec(entries[idx as int]) == Some(c@),
                None => entry_color_spec(entries[idx as int]) is None,
            });
        }
        let trimmed = trim_str(raw_name.as_str());
        if trimmed.as_str().is_empty() {
            proof {
                assert(!entry_ok_spec(entries[idx as int]));
                assert(first_invalid_at(entries, idx as int) == idx as int);
            }
            return Err(ConfigError::EmptyLanguageName { path: path.to_owned(), index: idx });
        }
        let color: String = match &color_opt {
            Some(c) => {
                let tc = trim_str(c.as_str());
                to_lower(tc.as_str())
            },
            None => builtin_color_for(trimmed.as_str()).to_owned(),
        };
        proof {
            assert(color@ == resolved_color_spec(entries[idx as int]));
        }
        if !is_supported_color(color.as_str()) {
            proof {
                assert(!entry_ok_spec(entries[idx as int]));
                assert(first_invalid_at(entries, idx as int) == idx as int);
            }
            return Err(
                ConfigError::InvalidColor { path: path.to_owned(), index: idx, color },
            );
        }
        out.push(Language { name: trimmed, color });
        proof {
            assert(entry_ok_spec(entries[idx as int]));
            assert(first_invalid_at(entries, idx as int) == first_invalid_at(
                entries,
                idx as int + 1,
            ));
        }
        idx = idx + 1;
    }
    if out.len() == 0 {
        return Err(ConfigError::EmptyLanguages { path: path.to_owned() });
    }
    Ok(out)
}

} // verus!
