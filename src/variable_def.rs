//! The schema of one template variable, read from a manifest entry.
use crate::yaml::{parse_yaml, yaml_of, Yaml};
use vstd::prelude::*;

verus! {

/// The values a variable may be chosen among.
#[derive(Clone, Debug, PartialEq)]
pub enum ValuesForSelection {
    /// No constraint.
    Empty,
    /// One of these values, in this order.
    Sequence(Vec<String>),
    /// A delimited or encoded value set, left for the consumer to read.
    String(String),
}

/// The model of a `ValuesForSelection`.
pub enum Selection {
    Empty,
    Sequence(Seq<Seq<char>>),
    String(Seq<char>),
}

impl View for ValuesForSelection {
    type V = Selection;

    open spec fn view(&self) -> Selection {
        match self {
            ValuesForSelection::Empty => Selection::Empty,
            ValuesForSelection::Sequence(v) => Selection::Sequence(v@.map_values(|s: String| s@)),
            ValuesForSelection::String(s) => Selection::String(s@),
        }
    }
}

impl Default for ValuesForSelection {
    fn default() -> (r: Self)
        ensures
            r@ == Selection::Empty,
    {
        ValuesForSelection::Empty
    }
}

/// One templated input variable.
#[derive(Debug, PartialEq)]
pub struct VariableDef {
    /// name of the variable in the template
    pub name: String,
    /// value used when none is supplied
    pub default_value: Option<Yaml>,
    /// the prompt; the name serves where there is none
    pub ask: Option<String>,
    /// whether the variable is kept from the user (a cached or derived value)
    pub hidden: bool,
    /// the values the variable may be chosen among
    pub select_in_values: ValuesForSelection,
}

/// The model of a `VariableDef`.
pub struct VariableModel {
    pub name: Seq<char>,
    pub default_value: Option<Yaml>,
    pub ask: Option<Seq<char>>,
    pub hidden: bool,
    pub select_in_values: Selection,
}

impl View for VariableDef {
    type V = VariableModel;

    open spec fn view(&self) -> VariableModel {
        VariableModel {
            name: self.name@,
            default_value: self.default_value,
            ask: match self.ask {
                Some(a) => Some(a@),
                None => None,
            },
            hidden: self.hidden,
            select_in_values: self.select_in_values@,
        }
    }
}

/// A definition with every field at its zero value.
pub open spec fn default_model() -> VariableModel {
    VariableModel {
        name: Seq::empty(),
        default_value: None,
        ask: None,
        hidden: false,
        select_in_values: Selection::Empty,
    }
}

impl Default for VariableDef {
    fn default() -> (r: Self)
        ensures
            r@ == default_model(),
    {
        VariableDef {
            name: String::new(),
            default_value: None,
            ask: None,
            hidden: false,
            select_in_values: ValuesForSelection::Empty,
        }
    }
}

/// The fields of a manifest entry.
#[derive(Clone, Copy, Debug, PartialEq, Eq, Structural)]
pub enum Field {
    Name,
    DefaultValue,
    Ask,
    Hidden,
    SelectInValues,
}

/// Why a manifest entry is not a variable definition.
#[derive(Debug, PartialEq)]
pub enum DefError {
    /// The text is not one YAML document.
    Syntax,
    /// The entry is not a mapping.
    NotAMapping,
    /// A key that names no field.
    UnknownField(Yaml),
    /// A field given twice.
    DuplicateField(Field),
    /// A field given a value of the wrong shape.
    InvalidValue(Field),
}

/// The field that a key names, if any (names are exact and case-sensitive).
pub open spec fn field_of_key(k: Yaml) -> Option<Field> {
    match k {
        Yaml::Text(s) => if s@ == "name"@ {
            Some(Field::Name)
        } else if s@ == "default_value"@ {
            Some(Field::DefaultValue)
        } else if s@ == "ask"@ {
            Some(Field::Ask)
        } else if s@ == "hidden"@ {
            Some(Field::Hidden)
        } else if s@ == "select_in_values"@ {
            Some(Field::SelectInValues)
        } else {
            None
        },
        _ => None,
    }
}

/// Whether every node is a string.
pub open spec fn all_text(items: Seq<Yaml>) -> bool {
    forall|i: int| 0 <= i < items.len() ==> (#[trigger] items[i]) is Text
}

/// The characters of each string node.
pub open spec fn texts(items: Seq<Yaml>) -> Seq<Seq<char>> {
    items.map_values(
        |y: Yaml|
            match y {
                Yaml::Text(s) => s@,
                _ => Seq::empty(),
            },
    )
}

/// Whether field `f` takes the value `v`.
pub open spec fn accepts(f: Field, v: Yaml) -> bool {
    match f {
        Field::Name => v is Text,
        Field::DefaultValue => true,
        Field::Ask => v is Null || v is Text,
        Field::Hidden => v is Bool,
        Field::SelectInValues => match v {
            Yaml::Null => true,
            Yaml::List(items) => all_text(items@),
            Yaml::Text(_) => true,
            _ => false,
        },
    }
}

/// What a `select_in_values` value resolves to: no value, then a list of
/// strings, then a plain string; the first shape that fits wins.
pub open spec fn selection_of(v: Yaml) -> Selection {
    match v {
        Yaml::List(items) => Selection::Sequence(texts(items@)),
        Yaml::Text(s) => Selection::String(s@),
        _ => Selection::Empty,
    }
}

/// `m` with field `f` set from the accepted value `v`.
pub open spec fn set_field(m: VariableModel, f: Field, v: Yaml) -> VariableModel {
    match f {
        Field::Name => VariableModel {
            name: match v {
                Yaml::Text(s) => s@,
                _ => m.name,
            },
            ..m
        },
        Field::DefaultValue => VariableModel {
            default_value: match v {
                Yaml::Null => None,
                _ => Some(v),
            },
            ..m
        },
        Field::Ask => VariableModel {
            ask: match v {
                Yaml::Text(s) => Some(s@),
                _ => None,
            },
            ..m
        },
        Field::Hidden => VariableModel {
            hidden: match v {
                Yaml::Bool(b) => b,
                _ => m.hidden,
            },
            ..m
        },
        Field::SelectInValues => VariableModel { select_in_values: selection_of(v), ..m },
    }
}

/// Whether a key among the first `i` entries names field `f`.
pub open spec fn seen_before(es: Seq<(Yaml, Yaml)>, i: int, f: Field) -> bool {
    exists|j: int| 0 <= j < i && field_of_key(#[trigger] es[j].0) == Some(f)
}

/// What is wrong with entry `i`, given the entries before it.
pub open spec fn entry_error(es: Seq<(Yaml, Yaml)>, i: int) -> Option<DefError> {
    match field_of_key(es[i].0) {
        None => Some(DefError::UnknownField(es[i].0)),
        Some(f) => if seen_before(es, i, f) {
            Some(DefError::DuplicateField(f))
        } else if !accepts(f, es[i].1) {
            Some(DefError::InvalidValue(f))
        } else {
            None
        },
    }
}

/// The first error among the first `n` entries.
pub open spec fn error_upto(es: Seq<(Yaml, Yaml)>, n: int) -> Option<DefError>
    decreases n,
{
    if n <= 0 {
        None
    } else {
        match error_upto(es, n - 1) {
            Some(e) => Some(e),
            None => entry_error(es, n - 1),
        }
    }
}

/// The definition that the first `n` entries give, fields not named keeping
/// their zero value.
pub open spec fn model_upto(es: Seq<(Yaml, Yaml)>, n: int) -> VariableModel
    decreases n,
{
    if n <= 0 {
        default_model()
    } else {
        match field_of_key(es[n - 1].0) {
            Some(f) => set_field(model_upto(es, n - 1), f, es[n - 1].1),
            None => model_upto(es, n - 1),
        }
    }
}

/// The definition that the entries of a mapping describe, or the first
/// thing wrong with them.
pub open spec fn entries_def(es: Seq<(Yaml, Yaml)>) -> Result<VariableModel, DefError> {
    match error_upto(es, es.len() as int) {
        Some(e) => Err(e),
        None => Ok(model_upto(es, es.len() as int)),
    }
}

/// The definition that a manifest entry describes, or the first thing wrong
/// with it.
pub open spec fn def_of(y: Yaml) -> Result<VariableModel, DefError> {
    match y {
        Yaml::Mapping(es) => entries_def(es@),
        _ => Err(DefError::NotAMapping),
    }
}

/// Whether `r` is the outcome `d` describes.
pub open spec fn outcome_is(r: Result<VariableDef, DefError>, d: Result<VariableModel, DefError>) -> bool {
    match r {
        Ok(v) => d == Ok::<VariableModel, DefError>(v@),
        Err(e) => d == Err::<VariableModel, DefError>(e),
    }
}


/// Whether `s` holds the characters of `lit`.
fn is_text(s: &String, lit: &str) -> (r: bool)
    ensures
        r == (s@ == lit@),
{
    let t = String::from_str(lit);
    *s == t
}

/// The field that a key names, if any.
fn key_field(k: &Yaml) -> (r: Option<Field>)
    ensures
        r == field_of_key(*k),
{
    match k {
        Yaml::Text(s) => if is_text(s, "name") {
            Some(Field::Name)
        } else if is_text(s, "default_value") {
            Some(Field::DefaultValue)
        } else if is_text(s, "ask") {
            Some(Field::Ask)
        } else if is_text(s, "hidden") {
            Some(Field::Hidden)
        } else if is_text(s, "select_in_values") {
            Some(Field::SelectInValues)
        } else {
            None
        },
        _ => None,
    }
}

/// Whether `f` is among `seen`.
fn has_field(seen: &Vec<Field>, f: Field) -> (r: bool)
    ensures
        r == seen@.contains(f),
{
    let mut i: usize = 0;
    while i < seen.len()
        invariant
            i <= seen@.len(),
            forall|j: int| 0 <= j < i ==> seen@[j] != f,
        decreases seen@.len() - i,
    {
        if seen[i] == f {
            return true;
        }
        i = i + 1;
    }
    false
}

/// The strings of a list, or `None` where one item is not a string.
fn text_items(items: &Vec<Yaml>) -> (r: Option<Vec<String>>)
    ensures
        match r {
            Some(v) => all_text(items@) && v@.map_values(|s: String| s@) == texts(items@),
            None => !all_text(items@),
        },
{
    let mut out: Vec<String> = Vec::new();
    let mut i: usize = 0;
    while i < items.len()
        invariant
            i <= items@.len(),
            out@.len() == i,
            forall|j: int| 0 <= j < i ==> (#[trigger] items@[j]) is Text,
            forall|j: int| 0 <= j < i ==> (#[trigger] out@[j])@ == texts(items@)[j],
        decreases items@.len() - i,
    {
        match &items[i] {
            Yaml::Text(s) => {
                out.push(s.clone());
            },
            _ => {
                return None;
            },
        }
        i = i + 1;
    }
    assert(out@.map_values(|s: String| s@) =~= texts(items@));
    Some(out)
}

/// Once an error is found, later entries do not change it.
proof fn lemma_error_sticks(es: Seq<(Yaml, Yaml)>, n: int, m: int)
    requires
        0 <= n <= m,
    ensures
        error_upto(es, n) is Some ==> error_upto(es, m) == error_upto(es, n),
    decreases m - n,
{
    if n < m {
        lemma_error_sticks(es, n, m - 1);
    }
}

/// Reads a definition from the entries of a mapping, in order.
fn read_entries(mapping: Vec<(Yaml, Yaml)>) -> (r: Result<VariableDef, DefError>)
    ensures
    outcome_is(r, entries_def(mapping@)),
{
    let ghost es = mapping@;
    let n = mapping.len();
    let mut entries = mapping;
    let mut def = VariableDef::default();
    let mut seen: Vec<Field> = Vec::new();
    let mut k: usize = 0;
    assert(es.skip(0) =~= es);
    while entries.len() > 0
        invariant
            es.len() == n,
            es == mapping@,
            k <= es.len(),
            es.len() == k + entries@.len(),
            entries@ == es.skip(k as int),
            error_upto(es, k as int) is None,
            def@ == model_upto(es, k as int),
            forall|f: Field| seen@.contains(f) <==> seen_before(es, k as int, f),
        decreases entries@.len(),
    {
        let (key, value) = entries.remove(0);
        assert(es[k as int] == (key, value));
        assert(es.skip(k as int).remove(0) =~= es.skip(k + 1));
        proof {
            lemma_error_sticks(es, k + 1, es.len() as int);
        }
        let f = match key_field(&key) {
            Some(f) => f,
            None => {
                return Err(DefError::UnknownField(key));
            },
        };
        if has_field(&seen, f) {
            return Err(DefError::DuplicateField(f));
        }
        match f {
            Field::Name => match value {
                Yaml::Text(s) => {
                    def.name = s;
                },
                _ => {
                    return Err(DefError::InvalidValue(f));
                },
            },
            Field::DefaultValue => match value {
                Yaml::Null => {
                    def.default_value = None;
                },
                v => {
                    def.default_value = Some(v);
                },
            },
            Field::Ask => match value {
                Yaml::Null => {
                    def.ask = None;
                },
                Yaml::Text(s) => {
                    def.ask = Some(s);
                },
                _ => {
                    return Err(DefError::InvalidValue(f));
                },
            },
            Field::Hidden => match value {
                Yaml::Bool(b) => {
                    def.hidden = b;
                },
                _ => {
                    return Err(DefError::InvalidValue(f));
                },
            },
            Field::SelectInValues => match value {
                Yaml::Null => {
                    def.select_in_values = ValuesForSelection::Empty;
                },
                Yaml::List(items) => match text_items(&items) {
                    Some(v) => {
                        def.select_in_values = ValuesForSelection::Sequence(v);
                    },
                    None => {
                        return Err(DefError::InvalidValue(f));
                    },
                },
                Yaml::Text(s) => {
                    def.select_in_values = ValuesForSelection::String(s);
                },
                _ => {
                    return Err(DefError::InvalidValue(f));
                },
            },
        }
        let ghost seen_old = seen@;
        seen.push(f);
        proof {
            assert forall|g: Field| seen@.contains(g) <==> seen_before(es, k + 1, g) by {
                if seen_before(es, k + 1, g) && g != f {
                    let j = choose|j: int| 0 <= j < k + 1 && field_of_key(#[trigger] es[j].0) == Some(g);
                    assert(seen_before(es, k as int, g));
                    assert(seen_old.contains(g));
                    let i = choose|i: int| 0 <= i < seen_old.len() && seen_old[i] == g;
                    assert(seen@[i] == g);
                }
                if seen@.contains(g) && g != f {
                    let i = choose|i: int| 0 <= i < seen@.len() && seen@[i] == g;
                    assert(seen_old[i] == g);
                    assert(seen_old.contains(g));
                    let j = choose|j: int| 0 <= j < k && field_of_key(#[trigger] es[j].0) == Some(g);
                    assert(0 <= j < k + 1);
                }
                if g == f {
                    assert(seen@[seen@.len() - 1] == f);
                    assert(field_of_key(es[k as int].0) == Some(f));
                }
            }
        }
        k = k + 1;
    }
    assert(k == es.len());
    Ok(def)
}

impl VariableDef {
    /// Reads a definition from a manifest entry. Unknown, repeated and
    /// ill-shaped fields are refused; absent fields keep their zero value.
    pub fn from_yaml(y: Yaml) -> (r: Result<VariableDef, DefError>)
        ensures
            outcome_is(r, def_of(y)),
    {
        match y {
            Yaml::Mapping(entries) => read_entries(entries),
            _ => Err(DefError::NotAMapping),
        }
    }

    /// Reads a definition from manifest text: one YAML document holding a
    /// mapping of the fields.
    pub fn parse(text: &str) -> (r: Result<VariableDef, DefError>)
        ensures
            match yaml_of(text@) {
                Some(y) => outcome_is(r, def_of(y)),
                None => r matches Err(DefError::Syntax),
            },
    {
        match parse_yaml(text) {
            Some(y) => VariableDef::from_yaml(y),
            None => Err(DefError::Syntax),
        }
    }
}

/// Where no error has come up in the first `n` entries, none of them is wrong.
proof fn lemma_no_error_before(es: Seq<(Yaml, Yaml)>, n: int, i: int)
    requires
        0 <= i < n,
        error_upto(es, n) is None,
    ensures
        entry_error(es, i) is None,
    decreases n,
{
    if i < n - 1 {
        lemma_no_error_before(es, n - 1, i);
    }
}

/// With no error in the first `n` entries, the selection they give comes
/// from the one entry `i` that names it.
proof fn lemma_selection_from(es: Seq<(Yaml, Yaml)>, n: int, i: int)
    requires
        0 <= i < n <= es.len(),
        error_upto(es, n) is None,
        field_of_key(es[i].0) == Some(Field::SelectInValues),
    ensures
        model_upto(es, n).select_in_values == selection_of(es[i].1),
    decreases n,
{
    if i < n - 1 {
        lemma_selection_from(es, n - 1, i);
        lemma_no_error_before(es, n, n - 1);
        if field_of_key(es[n - 1].0) == Some(Field::SelectInValues) {
            assert(seen_before(es, n - 1, Field::SelectInValues));
        }
    }
}

/// Where none of the first `n` entries names the selection, it is `Empty`.
proof fn lemma_selection_absent(es: Seq<(Yaml, Yaml)>, n: int)
    requires
        0 <= n <= es.len(),
        forall|j: int| 0 <= j < n ==> field_of_key(#[trigger] es[j].0) != Some(Field::SelectInValues),
    ensures
        model_upto(es, n).select_in_values == Selection::Empty,
    decreases n,
{
    if n > 0 {
        lemma_selection_absent(es, n - 1);
    }
}

/// A manifest entry with a key that names no field is refused.
pub proof fn lemma_unknown_field_refused(y: Yaml, i: int)
    requires
        y matches Yaml::Mapping(es) && 0 <= i < es@.len() && field_of_key(es@[i].0) is None,
    ensures
        def_of(y) is Err,
{
    let es = y->Mapping_0@;
    if error_upto(es, es.len() as int) is None {
        lemma_no_error_before(es, es.len() as int, i);
    }
}

/// A manifest entry holding only a name gives that name and every other
/// field at its zero value: no default, no prompt, not hidden, no selection.
pub proof fn lemma_name_only(y: Yaml)
    requires
        y matches Yaml::Mapping(es) && es@.len() == 1 && field_of_key(es@[0].0) == Some(Field::Name)
            && es@[0].1 is Text,
    ensures
        def_of(y) == Ok::<VariableModel, DefError>(
            VariableModel { name: y->Mapping_0@[0].1->Text_0@, ..default_model() },
        ),
{
    let es = y->Mapping_0@;
    assert(!seen_before(es, 0, Field::Name));
    assert(error_upto(es, 0) is None);
    assert(entry_error(es, 0) is None);
    assert(error_upto(es, 1) is None);
    assert(model_upto(es, 0) == default_model());
}

/// In an accepted manifest entry, `select_in_values` given as a string is
/// the `String` variant, given as a list of strings the `Sequence` variant,
/// and given as null the `Empty` variant.
pub proof fn lemma_selection_given(y: Yaml, i: int)
    requires
        y matches Yaml::Mapping(es) && 0 <= i < es@.len() && field_of_key(es@[i].0) == Some(
            Field::SelectInValues,
        ),
        def_of(y) is Ok,
    ensures
        def_of(y)->Ok_0.select_in_values == selection_of(y->Mapping_0@[i].1),
        y->Mapping_0@[i].1 matches Yaml::Text(s) ==> def_of(y)->Ok_0.select_in_values == Selection::String(s@),
        y->Mapping_0@[i].1 matches Yaml::List(items) ==> def_of(y)->Ok_0.select_in_values
            == Selection::Sequence(texts(items@)),
        y->Mapping_0@[i].1 is Null ==> def_of(y)->Ok_0.select_in_values == Selection::Empty,
{
    let es = y->Mapping_0@;
    lemma_selection_from(es, es.len() as int, i);
}

/// In an accepted manifest entry without `select_in_values`, the selection
/// is `Empty`.
pub proof fn lemma_selection_omitted(y: Yaml)
    requires
        y matches Yaml::Mapping(es) && forall|j: int|
            0 <= j < es@.len() ==> field_of_key(#[trigger] es@[j].0) != Some(Field::SelectInValues),
        def_of(y) is Ok,
    ensures
        def_of(y)->Ok_0.select_in_values == Selection::Empty,
{
    let es = y->Mapping_0@;
    lemma_selection_absent(es, es.len() as int);
}

} // verus!
