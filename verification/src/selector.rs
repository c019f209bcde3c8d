use vstd::prelude::*;

verus! {

#[verifier::external_type_specification]
#[verifier::external_body]
pub struct ExHtml(scraper::Html);

/// Whether a string parses as a CSS selector list; parsing depends on the
/// selector text alone.
pub uninterp spec fn css_selector_ok(css: Seq<char>) -> bool;

/// The document that parsing a page yields; parsing depends on the source
/// text alone.
pub uninterp spec fn doc_of(source: Seq<char>) -> scraper::Html;

/// Relies on scraper::Html::parse_document: every input parses to a
/// navigable document, collecting recoverable errors along the way, and the
/// document depends on the source text alone.
#[verifier::external_body]
pub(crate) fn parse_document(source: &str) -> (r: scraper::Html)
    ensures
        r == doc_of(source@),
{
    scraper::Html::parse_document(source)
}

/// The inner texts that a selector takes from a document, in document
/// order, each element's text parts joined with newlines; a function of the
/// document and the selector text alone.
pub uninterp spec fn selected_texts(dom: scraper::Html, css: Seq<char>) -> Seq<Seq<char>>;

/// The values of a named attribute on the elements a selector matches, in
/// document order, elements without the attribute skipped; a function of
/// the document, the selector text and the attribute name alone.
pub uninterp spec fn selected_attrs(dom: scraper::Html, css: Seq<char>, attr: Seq<char>) -> Seq<
    Seq<char>,
>;

/// Relies on scraper::Selector::parse, Html::select and ElementRef::text:
/// yields, in document order, the inner text of each element the selector
/// matches, the text parts joined with newlines. Absence exactly when the
/// selector list does not parse, which depends on the selector text alone.
#[verifier::external_body]
fn select_texts(dom: &scraper::Html, css: &str) -> (r: Option<Vec<String>>)
    ensures
        r.is_some() == css_selector_ok(css@),
        (r matches Some(v) ==> v.deep_view() == selected_texts(*dom, css@)),
{
    let sel = match scraper::Selector::parse(css) {
        Ok(s) => s,
        Err(_) => return None,
    };
    Some(dom.select(&sel).map(|e| e.text().collect::<Vec<_>>().join("\n")).collect())
}

/// Relies on scraper::Selector::parse, Html::select and ElementRef::attr:
/// yields, in document order, the value of the given attribute on each
/// matched element that carries it. Absence exactly when the selector list
/// does not parse, which depends on the selector text alone.
#[verifier::external_body]
fn select_attrs(dom: &scraper::Html, css: &str, attr: &str) -> (r: Option<Vec<String>>)
    ensures
        r.is_some() == css_selector_ok(css@),
        (r matches Some(v) ==> v.deep_view() == selected_attrs(*dom, css@, attr@)),
{
    let sel = match scraper::Selector::parse(css) {
        Ok(s) => s,
        Err(_) => return None,
    };
    Some(dom.select(&sel).filter_map(|e| e.attr(attr).map(|v| v.to_string())).collect())
}

/// How one record field projects a matched element: its inner text, or the
/// value of a named attribute. The two are mutually exclusive per field.
#[derive(Debug, PartialEq, Eq)]
pub enum Projection {
    TextContent,
    Attribute(String),
}

/// The shape of one record field, which fixes how many matches it takes:
/// a required first match, an optional first match, or all matches in
/// document order.
#[derive(Clone, Copy, Debug, PartialEq, Eq, Structural)]
pub enum FieldShape {
    /// A required first match; no match fails the whole search.
    One,
    /// An optional first match.
    MaybeOne,
    /// All matches, possibly none.
    All,
}

/// One field of a selector target: the CSS selector to run, the projection
/// to take from each match, and the field's shape.
#[derive(Debug, PartialEq, Eq)]
pub struct FieldSpec {
    pub selector: String,
    pub projection: Projection,
    pub shape: FieldShape,
}

/// Why a field declaration was rejected: the projections are mutually
/// exclusive per field, and one of them must be present.
#[derive(Clone, Copy, Debug, PartialEq, Eq, Structural)]
pub enum FieldRuleError {
    /// Both the text and an attribute projection were declared.
    BothTextAndAttr,
    /// Neither the text nor an attribute projection was declared.
    MissingProjection,
}

impl FieldSpec {
    /// Builds a field from its declaration: exactly one of the text
    /// projection or an attribute name must be given.
    pub fn new(selector: String, text: bool, attr: Option<String>, shape: FieldShape) -> (r:
        Result<FieldSpec, FieldRuleError>)
        ensures
            (text && attr is None ==> r == Ok::<FieldSpec, FieldRuleError>(
                (FieldSpec { selector, projection: Projection::TextContent, shape }),
            )),
            (!text ==> (attr matches Some(name) ==> r == Ok::<FieldSpec, FieldRuleError>(
                (FieldSpec { selector, projection: Projection::Attribute(name), shape }),
            ))),
            (text && attr is Some ==> r == Err::<FieldSpec, FieldRuleError>(FieldRuleError::BothTextAndAttr)),
            (!text && attr is None ==> r == Err::<FieldSpec, FieldRuleError>(FieldRuleError::MissingProjection)),
    {
        match attr {
            Some(name) => {
                if text {
                    Err(FieldRuleError::BothTextAndAttr)
                } else {
                    Ok(FieldSpec { selector, projection: Projection::Attribute(name), shape })
                }
            },
            None => {
                if text {
                    Ok(FieldSpec { selector, projection: Projection::TextContent, shape })
                } else {
                    Err(FieldRuleError::MissingProjection)
                }
            },
        }
    }
}

/// The value one field took: mirrors the field's shape.
#[derive(Debug, PartialEq, Eq)]
pub enum FieldValue {
    One(String),
    MaybeOne(Option<String>),
    All(Vec<String>),
}

/// The matches a field's selector and projection take from a document.
pub open spec fn field_matches(dom: scraper::Html, f: FieldSpec) -> Seq<Seq<char>> {
    match f.projection {
        Projection::TextContent => selected_texts(dom, f.selector@),
        Projection::Attribute(name) => selected_attrs(dom, f.selector@, name@),
    }
}

/// Whether a field yields no value on a document: its selector does not
/// parse, or it requires a first match and there is none.
pub open spec fn field_absent(dom: scraper::Html, f: FieldSpec) -> bool {
    ||| !css_selector_ok(f.selector@)
    ||| (f.shape is One && field_matches(dom, f).len() == 0)
}

/// Whether a field value is the projection of the given matches under the
/// given shape: a required or optional field takes the first match, a
/// collecting field takes them all, in order.
pub open spec fn value_matches(v: FieldValue, matches: Seq<Seq<char>>, shape: FieldShape) -> bool {
    match v {
        FieldValue::One(s) => shape is One && matches.len() > 0 && s@ == matches[0],
        FieldValue::MaybeOne(o) => shape is MaybeOne && (match o {
            Some(s) => matches.len() > 0 && s@ == matches[0],
            None => matches.len() == 0,
        }),
        FieldValue::All(vs) => shape is All && vs.deep_view() == matches,
    }
}

/// Projects the matches a selector yielded into a field value of the given
/// shape. A required field with no match is absent; an optional field takes
/// the first match if any; a collecting field takes all matches in order.
pub fn project(matches: Vec<String>, shape: &FieldShape) -> (r: Option<FieldValue>)
    ensures
        (*shape is One && matches@.len() == 0 ==> r is None),
        (*shape is One && matches@.len() > 0 ==> r == Some(FieldValue::One(matches@[0]))),
        (*shape is MaybeOne && matches@.len() == 0 ==> r == Some(
            FieldValue::MaybeOne(Option::None),
        )),
        (*shape is MaybeOne && matches@.len() > 0 ==> r == Some(
            FieldValue::MaybeOne(Some(matches@[0])),
        )),
        (*shape is All ==> r == Some(FieldValue::All(matches))),
{
    match shape {
        FieldShape::One => {
            let mut matches = matches;
            if matches.len() == 0 {
                None
            } else {
                let first = matches.remove(0);
                Some(FieldValue::One(first))
            }
        },
        FieldShape::MaybeOne => {
            let mut matches = matches;
            if matches.len() == 0 {
                Some(FieldValue::MaybeOne(None))
            } else {
                let first = matches.remove(0);
                Some(FieldValue::MaybeOne(Some(first)))
            }
        },
        FieldShape::All => Some(FieldValue::All(matches)),
    }
}

/// Runs one field's selector over the document and projects the matches.
/// Absent exactly when the selector does not parse or a required first
/// match is missing; a value is the projection of the matches the document
/// holds for the field.
pub fn extract_field(dom: &scraper::Html, field: &FieldSpec) -> (r: Option<FieldValue>)
    ensures
        (r is None <==> field_absent(*dom, *field)),
        (r matches Some(v) ==> value_matches(v, field_matches(*dom, *field), field.shape)),
{
    let matches = match &field.projection {
        Projection::TextContent => select_texts(dom, field.selector.as_str()),
        Projection::Attribute(name) => select_attrs(dom, field.selector.as_str(), name.as_str()),
    };
    match matches {
        Some(m) => {
            proof {
                assert(m.deep_view() =~= field_matches(*dom, *field));
            }
            let ghost deep = m.deep_view();
            let r = project(m, &field.shape);
            proof {
                assert(deep.len() == m@.len());
                if m@.len() > 0 {
                    assert(deep[0] == m@[0]@);
                }
            }
            r
        },
        None => None,
    }
}

/// Runs the compiled selector program of a record type over a parsed
/// document: one pass over the fields, failing fast. The result populates
/// every field with the projection of its matches, shape for shape;
/// absence comes exactly from a selector that does not parse or a required
/// field with no match.
pub fn search_fields(dom: &scraper::Html, fields: &Vec<FieldSpec>) -> (r: Option<Vec<FieldValue>>)
    ensures
        (r matches Some(vals) ==> ({
            &&& vals@.len() == fields@.len()
            &&& (forall|i: int|
                0 <= i < vals@.len() ==> value_matches(
                    #[trigger] vals@[i],
                    field_matches(*dom, fields@[i]),
                    fields@[i].shape,
                ))
        })),
        (r is None <==> exists|i: int|
            0 <= i < fields@.len() && #[trigger] field_absent(*dom, fields@[i])),
    {
        let mut vals: Vec<FieldValue> = Vec::new();
        let mut i: usize = 0;
        while i < fields.len()
            invariant
                0 <= i <= fields@.len(),
                vals@.len() == i,
                forall|j: int|
                    0 <= j < i ==> value_matches(
                        #[trigger] vals@[j],
                        field_matches(*dom, fields@[j]),
                        fields@[j].shape,
                    ),
                forall|j: int| 0 <= j < i ==> !(#[trigger] field_absent(*dom, fields@[j])),
            decreases fields@.len() - i,
        {
            let v = match extract_field(dom, &fields[i]) {
                Some(v) => v,
                None => {
                    proof {
                        let k = i as int;
                        assert(0 <= k < fields@.len() && field_absent(*dom, fields@[k]));
                    }
                    return None;
                },
            };
            vals.push(v);
            i = i + 1;
        }
        Some(vals)
    }

/// The capability of a selector target: a record type searchable in one
/// pass over a parsed document. An implementation usually declares its
/// fields as a list of `FieldSpec` and populates itself from the values
/// `search_fields` yields; it must search exactly as its specification
/// says.
pub trait SearchSelectors: Sized {
    /// What the search yields on a given document.
    spec fn spec_search(dom: scraper::Html) -> Option<Self>;

    fn search(dom: &scraper::Html) -> (r: Option<Self>)
        ensures
            r == Self::spec_search(*dom),
    ;
}

} // verus!
