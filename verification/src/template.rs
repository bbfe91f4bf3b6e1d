//! The context loader and the template renderer. A context document is
//! parsed by the toml crate behind a trusted wrapper that hands its shape
//! over as plain values; picking the table of the active configuration and
//! keeping only its string-valued bindings is verified here. Rendering is
//! the handlebars engine behind a trusted wrapper; merging the reserved
//! configuration-name variable into the context is verified here.

use vstd::prelude::*;
use vstd::string::StringExecFns;
use crate::error::SageError;
use crate::strmap::StrMap;
use crate::text::str_eq;

verus! {

/// One binding of a context table: its key, and its value's text when the
/// value is a plain string (anything else carries no text and is dropped by
/// the loader).
pub struct ContextEntry {
    pub key: String,
    pub text: Option<String>,
}

/// One top-level binding of a context document: its name, and its bindings
/// when its value is a table.
pub struct ContextTable {
    pub name: String,
    pub entries: Option<Vec<ContextEntry>>,
}

/// A parsed context document: its top-level tables, or nothing when the
/// text does not parse as a table of bindings.
pub struct ContextDoc {
    pub tables: Option<Vec<ContextTable>>,
}

/// The entry as (key, optional string value).
pub open spec fn entry_view(e: ContextEntry) -> (Seq<char>, Option<Seq<char>>) {
    (
        e.key@,
        match e.text {
            Some(t) => Some(t@),
            None => None,
        },
    )
}

/// The table as (name, optional sequence of entries).
pub open spec fn table_view(t: ContextTable) -> (
    Seq<char>,
    Option<Seq<(Seq<char>, Option<Seq<char>>)>>,
) {
    (
        t.name@,
        match t.entries {
            Some(es) => Some(es@.map(|i: int, e: ContextEntry| entry_view(e))),
            None => None,
        },
    )
}

/// The document as an optional sequence of tables.
pub open spec fn doc_view(d: ContextDoc) -> Option<
    Seq<(Seq<char>, Option<Seq<(Seq<char>, Option<Seq<char>>)>>)>,
> {
    match d.tables {
        Some(ts) => Some(ts@.map(|i: int, t: ContextTable| table_view(t))),
        None => None,
    }
}

/// What the toml crate parses the given document text into, shaped as
/// `doc_view` describes: a function of the text alone.
pub uninterp spec fn parsed_context(raw: Seq<char>) -> Option<
    Seq<(Seq<char>, Option<Seq<(Seq<char>, Option<Seq<char>>)>>)>,
>;

/// Relies on toml's `FromStr` for `Table`: parsing is a function of the
/// document text alone. Each top-level binding of the root table is handed
/// over with its name; its bindings, when it is itself a table, each with
/// their value's text when that value is a string. Any text that does not
/// parse as a document is handed over as no tables at all.
#[verifier::external_body]
fn parse_context_doc(raw: &str) -> (r: ContextDoc)
    ensures
        doc_view(r) == parsed_context(raw@),
{
    let root = match raw.parse::<toml::Table>() {
        Ok(t) => t,
        _ => return ContextDoc { tables: None },
    };
    let tables = root.into_iter().map(|(name, v)| ContextTable {
        name,
        entries: match v {
            toml::Value::Table(t) => Some(t.into_iter().map(|(key, v)| ContextEntry {
                key,
                text: if let toml::Value::String(s) = v { Some(s) } else { None },
            }).collect()),
            _ => None,
        },
    }).collect();
    ContextDoc { tables: Some(tables) }
}

/// The variables a table's entries contribute, laid over `base`: every
/// string-valued binding in order, later bindings winning.
pub open spec fn spec_ctx_entries(
    base: Map<Seq<char>, Seq<char>>,
    entries: Seq<(Seq<char>, Option<Seq<char>>)>,
) -> Map<Seq<char>, Seq<char>>
    decreases entries.len(),
{
    if entries.len() == 0 {
        base
    } else {
        let m = spec_ctx_entries(base, entries.drop_last());
        match entries.last().1 {
            Some(t) => m.insert(entries.last().0, t),
            None => m,
        }
    }
}

/// The variables the tables named `config` contribute, laid over `base`.
pub open spec fn spec_ctx_tables(
    base: Map<Seq<char>, Seq<char>>,
    tables: Seq<(Seq<char>, Option<Seq<(Seq<char>, Option<Seq<char>>)>>)>,
    config: Seq<char>,
) -> Map<Seq<char>, Seq<char>>
    decreases tables.len(),
{
    if tables.len() == 0 {
        base
    } else {
        let m = spec_ctx_tables(base, tables.drop_last(), config);
        let t = tables.last();
        if t.0 == config {
            match t.1 {
                Some(es) => spec_ctx_entries(m, es),
                None => m,
            }
        } else {
            m
        }
    }
}

/// The context a parsed document yields for one configuration name: the
/// string-valued bindings of the matching top-level table, and nothing for
/// a document without one.
pub open spec fn spec_context_of(
    doc: Option<Seq<(Seq<char>, Option<Seq<(Seq<char>, Option<Seq<char>>)>>)>>,
    config: Seq<char>,
) -> Map<Seq<char>, Seq<char>> {
    match doc {
        None => Map::empty(),
        Some(ts) => spec_ctx_tables(Map::empty(), ts, config),
    }
}

/// Collects the variables of the tables named `config` from a parsed
/// context document; non-string values are silently dropped.
pub fn context_from_doc(doc: &ContextDoc, config: &String) -> (r: StrMap)
    ensures
        r.wf(),
        r.map_view() == spec_context_of(doc_view(*doc), config@),
{
    let mut r = StrMap::new();
    match &doc.tables {
        None => r,
        Some(ts) => {
            let ghost tv = ts@.map(|i: int, t: ContextTable| table_view(t));
            let mut i: usize = 0;
            while i < ts.len()
                invariant
                    i <= ts@.len(),
                    tv == ts@.map(|k: int, t: ContextTable| table_view(t)),
                    r.wf(),
                    r.map_view() == spec_ctx_tables(Map::empty(), tv.take(i as int), config@),
                decreases ts@.len() - i,
            {
                proof {
                    assert(tv.take(i + 1).drop_last() =~= tv.take(i as int));
                    assert(tv.take(i + 1).last() == table_view(ts@[i as int]));
                }
                if str_eq(ts[i].name.as_str(), config.as_str()) {
                    match &ts[i].entries {
                        None => {},
                        Some(es) => {
                            let ghost base = r.map_view();
                            let ghost ev = es@.map(|k: int, e: ContextEntry| entry_view(e));
                            let mut j: usize = 0;
                            while j < es.len()
                                invariant
                                    j <= es@.len(),
                                    ev == es@.map(|k: int, e: ContextEntry| entry_view(e)),
                                    r.wf(),
                                    r.map_view() == spec_ctx_entries(base, ev.take(j as int)),
                                decreases es@.len() - j,
                            {
                                proof {
                                    assert(ev.take(j + 1).drop_last() =~= ev.take(j as int));
                                    assert(ev.take(j + 1).last() == entry_view(es@[j as int]));
                                }
                                match &es[j].text {
                                    Some(t) => {
                                        r.insert(es[j].key.clone(), t.clone());
                                    },
                                    None => {},
                                }
                                j = j + 1;
                            }
                            proof {
                                assert(ev.take(es@.len() as int) =~= ev);
                            }
                        },
                    }
                }
                i = i + 1;
            }
            proof {
                assert(tv.take(ts@.len() as int) =~= tv);
            }
            r
        },
    }
}

/// Loads the template context for one configuration from the text of the
/// context document. Loading never fails: text that does not parse, or
/// holds no table for the configuration, yields an empty context.
pub fn get_template_context(raw: &str, config: &String) -> (r: StrMap)
    ensures
        r.wf(),
        r.map_view() == spec_context_of(parsed_context(raw@), config@),
{
    let doc = parse_context_doc(raw);
    context_from_doc(&doc, config)
}

/// Context loading is idempotent: any two loads of the same document text
/// for the same configuration name yield the same mapping. (It is total by
/// its type: a load returns a mapping, never an error.)
pub proof fn lemma_context_loading_idempotent(
    a: StrMap,
    b: StrMap,
    raw: Seq<char>,
    config: Seq<char>,
)
    requires
        a.map_view() == spec_context_of(parsed_context(raw), config),
        b.map_view() == spec_context_of(parsed_context(raw), config),
    ensures
        a.map_view() == b.map_view(),
{
}

/// What the handlebars engine renders the given template to under the given
/// variables: a function of the two alone, with nothing for a template the
/// engine refuses.
pub uninterp spec fn rendered_template(
    template: Seq<char>,
    context: Map<Seq<char>, Seq<char>>,
) -> Option<Seq<char>>;

/// Relies on handlebars' `render_template`: rendering a template against a
/// string-to-string mapping is a function of the template text and the
/// mapping alone; the error text of a refused template is passed along.
#[verifier::external_body]
fn hbs_render(template: &str, context: &StrMap) -> (r: Result<String, String>)
    requires
        context.wf(),
    ensures
        match r {
            Ok(s) => rendered_template(template@, context.map_view()) == Some(s@),
            Err(_) => rendered_template(template@, context.map_view()) is None,
        },
{
    let mut data = std::collections::BTreeMap::new();
    for p in context.entries() {
        data.insert(p.key.clone(), p.value.clone());
    }
    match handlebars::Handlebars::new().render_template(template, &data) {
        Ok(s) => Ok(s),
        Err(e) => Err(e.to_string()),
    }
}

/// Rendering is a pure function of the template text and the variable
/// mapping: any two renderings of the same template against the same
/// mapping produce identical text.
pub proof fn lemma_rendering_pure(
    a: Seq<char>,
    b: Seq<char>,
    template: Seq<char>,
    context: Map<Seq<char>, Seq<char>>,
)
    requires
        rendered_template(template, context) == Some(a),
        rendered_template(template, context) == Some(b),
    ensures
        a == b,
{
}

/// The context a template is rendered against: the loaded variables with
/// the reserved configuration-name variable laid over them last.
pub open spec fn spec_merged_context(raw: Seq<char>, config: Seq<char>) -> Map<
    Seq<char>,
    Seq<char>,
> {
    spec_context_of(parsed_context(raw), config).insert("CONFIG_NAME"@, config)
}

/// The reserved configuration-name variable always resolves to the supplied
/// configuration name, whatever the loaded context binds.
pub proof fn lemma_reserved_name_wins(raw: Seq<char>, config: Seq<char>)
    ensures
        spec_merged_context(raw, config).contains_key("CONFIG_NAME"@),
        spec_merged_context(raw, config)["CONFIG_NAME"@] == config,
{
}

/// Renders a template against the context its configuration resolves to.
/// The result is the rendered text to be written to the `out` file, and is
/// a function of the template text, the context text and the configuration
/// name alone; a refused template is the rendering error, naming `out`.
pub fn generate_from_template(
    template_text: &str,
    raw_context: &str,
    config: &String,
    out: &String,
) -> (r: Result<String, SageError>)
    ensures
        match rendered_template(template_text@, spec_merged_context(raw_context@, config@)) {
            Some(s) => match r {
                Ok(text) => text@ == s,
                Err(_) => false,
            },
            None => match r {
                Ok(_) => false,
                Err(e) => match e {
                    SageError::TemplateRender { filename, detail: _ } => filename@ == out@,
                    _ => false,
                },
            },
        },
{
    let mut context = get_template_context(raw_context, config);
    context.insert(String::from_str("CONFIG_NAME"), config.clone());
    match hbs_render(template_text, &context) {
        Ok(text) => Ok(text),
        Err(detail) => Err(SageError::TemplateRender { filename: out.clone(), detail }),
    }
}

/// The default file name of the generated module for one configuration.
pub open spec fn spec_generated_file_name(target: Seq<char>) -> Seq<char> {
    "main-"@ + target + ".tf"@
}

/// Builds the default file name of the generated module: the configuration
/// name between the fixed stem and the module extension.
pub fn generate_file_name(target: &String) -> (r: String)
    ensures
        r@ == spec_generated_file_name(target@),
{
    String::from_str("main-").concat(target.as_str()).concat(".tf")
}

} // verus!
