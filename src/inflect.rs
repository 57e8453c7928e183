//! The string-case helpers: one-string-in, one-string-out transforms.
use inflector::Inflector;
use vstd::prelude::*;

verus! {

/// What `str::to_lowercase` returns for the given characters.
pub uninterp spec fn lower_of(s: Seq<char>) -> Seq<char>;

/// What `str::to_uppercase` returns for the given characters.
pub uninterp spec fn upper_of(s: Seq<char>) -> Seq<char>;

/// What inflector's `to_camel_case` returns for the given characters.
pub uninterp spec fn camel_of(s: Seq<char>) -> Seq<char>;

/// What inflector's `to_pascal_case` returns for the given characters.
pub uninterp spec fn pascal_of(s: Seq<char>) -> Seq<char>;

/// What inflector's `to_snake_case` returns for the given characters.
pub uninterp spec fn snake_of(s: Seq<char>) -> Seq<char>;

/// What inflector's `to_screaming_snake_case` returns for the given characters.
pub uninterp spec fn screaming_snake_of(s: Seq<char>) -> Seq<char>;

/// What inflector's `to_kebab_case` returns for the given characters.
pub uninterp spec fn kebab_of(s: Seq<char>) -> Seq<char>;

/// What inflector's `to_train_case` returns for the given characters.
pub uninterp spec fn train_of(s: Seq<char>) -> Seq<char>;

/// What inflector's `to_sentence_case` returns for the given characters.
pub uninterp spec fn sentence_of(s: Seq<char>) -> Seq<char>;

/// What inflector's `to_title_case` returns for the given characters.
pub uninterp spec fn title_of(s: Seq<char>) -> Seq<char>;

/// What inflector's `to_class_case` returns for the given characters.
pub uninterp spec fn class_of(s: Seq<char>) -> Seq<char>;

/// What inflector's `to_table_case` returns for the given characters.
pub uninterp spec fn table_of(s: Seq<char>) -> Seq<char>;

/// What inflector's `to_plural` returns for the given characters.
pub uninterp spec fn plural_of(s: Seq<char>) -> Seq<char>;

/// What inflector's `to_singular` returns for the given characters.
pub uninterp spec fn singular_of(s: Seq<char>) -> Seq<char>;

/// Relies on `str::to_lowercase`: a function of the characters alone.
#[verifier::external_body]
fn lowercase(s: &str) -> (r: String)
    ensures
        r@ == lower_of(s@),
{
    s.to_lowercase()
}

/// Relies on `str::to_uppercase`: a function of the characters alone.
#[verifier::external_body]
fn uppercase(s: &str) -> (r: String)
    ensures
        r@ == upper_of(s@),
{
    s.to_uppercase()
}

/// Relies on inflector's `to_camel_case`: a function of the characters alone.
#[verifier::external_body]
fn camel_case(s: &str) -> (r: String)
    ensures
        r@ == camel_of(s@),
{
    s.to_camel_case()
}

/// Relies on inflector's `to_pascal_case`: a function of the characters alone.
#[verifier::external_body]
fn pascal_case(s: &str) -> (r: String)
    ensures
        r@ == pascal_of(s@),
{
    s.to_pascal_case()
}

/// Relies on inflector's `to_snake_case`: a function of the characters alone.
#[verifier::external_body]
fn snake_case(s: &str) -> (r: String)
    ensures
        r@ == snake_of(s@),
{
    s.to_snake_case()
}

/// Relies on inflector's `to_screaming_snake_case`: a function of the characters alone.
#[verifier::external_body]
fn screaming_snake_case(s: &str) -> (r: String)
    ensures
        r@ == screaming_snake_of(s@),
{
    s.to_screaming_snake_case()
}

/// Relies on inflector's `to_kebab_case`: a function of the characters alone.
#[verifier::external_body]
fn kebab_case(s: &str) -> (r: String)
    ensures
        r@ == kebab_of(s@),
{
    s.to_kebab_case()
}

/// Relies on inflector's `to_train_case`: a function of the characters alone.
#[verifier::external_body]
fn train_case(s: &str) -> (r: String)
    ensures
        r@ == train_of(s@),
{
    s.to_train_case()
}

/// Relies on inflector's `to_sentence_case`: a function of the characters alone.
#[verifier::external_body]
fn sentence_case(s: &str) -> (r: String)
    ensures
        r@ == sentence_of(s@),
{
    s.to_sentence_case()
}

/// Relies on inflector's `to_title_case`: a function of the characters alone.
#[verifier::external_body]
fn title_case(s: &str) -> (r: String)
    ensures
        r@ == title_of(s@),
{
    s.to_title_case()
}

/// Relies on inflector's `to_class_case`: a function of the characters alone.
#[verifier::external_body]
fn class_case(s: &str) -> (r: String)
    ensures
        r@ == class_of(s@),
{
    s.to_class_case()
}

/// Relies on inflector's `to_table_case`: a function of the characters alone.
#[verifier::external_body]
fn table_case(s: &str) -> (r: String)
    ensures
        r@ == table_of(s@),
{
    s.to_table_case()
}

/// Relies on inflector's `to_plural`: a function of the characters alone.
#[verifier::external_body]
fn plural(s: &str) -> (r: String)
    ensures
        r@ == plural_of(s@),
{
    s.to_plural()
}

/// Relies on inflector's `to_singular`: a function of the characters alone.
#[verifier::external_body]
fn singular(s: &str) -> (r: String)
    ensures
        r@ == singular_of(s@),
{
    s.to_singular()
}

/// The string-case helpers, in the order in which they are registered.
#[derive(Clone, Copy, Debug, PartialEq, Eq, Structural)]
pub enum CaseHelper {
    LowerCase,
    UpperCase,
    CamelCase,
    PascalCase,
    SnakeCase,
    ScreamingSnakeCase,
    KebabCase,
    TrainCase,
    SentenceCase,
    TitleCase,
    ClassCase,
    TableCase,
    Plural,
    Singular,
}

/// The transform that a case helper applies to its argument.
pub open spec fn case_of(h: CaseHelper, s: Seq<char>) -> Seq<char> {
    match h {
        CaseHelper::LowerCase => lower_of(s),
        CaseHelper::UpperCase => upper_of(s),
        CaseHelper::CamelCase => camel_of(s),
        CaseHelper::PascalCase => pascal_of(s),
        CaseHelper::SnakeCase => snake_of(s),
        CaseHelper::ScreamingSnakeCase => screaming_snake_of(s),
        CaseHelper::KebabCase => kebab_of(s),
        CaseHelper::TrainCase => train_of(s),
        CaseHelper::SentenceCase => sentence_of(s),
        CaseHelper::TitleCase => title_of(s),
        CaseHelper::ClassCase => class_of(s),
        CaseHelper::TableCase => table_of(s),
        CaseHelper::Plural => plural_of(s),
        CaseHelper::Singular => singular_of(s),
    }
}

impl CaseHelper {
    /// Applies the transform to `s`. Total: every input gives a string.
    pub fn apply(&self, s: &str) -> (r: String)
        ensures
            r@ == case_of(*self, s@),
    {
        match self {
            CaseHelper::LowerCase => lowercase(s),
            CaseHelper::UpperCase => uppercase(s),
            CaseHelper::CamelCase => camel_case(s),
            CaseHelper::PascalCase => pascal_case(s),
            CaseHelper::SnakeCase => snake_case(s),
            CaseHelper::ScreamingSnakeCase => screaming_snake_case(s),
            CaseHelper::KebabCase => kebab_case(s),
            CaseHelper::TrainCase => train_case(s),
            CaseHelper::SentenceCase => sentence_case(s),
            CaseHelper::TitleCase => title_case(s),
            CaseHelper::ClassCase => class_case(s),
            CaseHelper::TableCase => table_case(s),
            CaseHelper::Plural => plural(s),
            CaseHelper::Singular => singular(s),
        }
    }
}

} // verus!
