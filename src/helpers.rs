//! The helper registry: the closed set of named helpers, grouped by
//! category, and a table that registers them, refusing a name already in use.
use crate::inflect::CaseHelper;
use crate::paths::PathPart;
use vstd::prelude::*;

verus! {

/// Every helper that a configured engine offers to templates.
#[derive(Clone, Copy, Debug, PartialEq, Eq, Structural)]
pub enum Helper {
    Case(CaseHelper),
    HttpGet,
    GitignoreIo,
    Path(PathPart),
    Canonicalize,
    EnvVar,
}

/// The four categories of helpers, each registered by a call of its own.
#[derive(Clone, Copy, Debug, PartialEq, Eq, Structural)]
pub enum HelperGroup {
    Strings,
    Http,
    Paths,
    Env,
}

/// The name under which a case helper is called from a template.
pub open spec fn case_name(c: CaseHelper) -> Seq<char> {
    match c {
        CaseHelper::LowerCase => "to_lower_case"@,
        CaseHelper::UpperCase => "to_upper_case"@,
        CaseHelper::CamelCase => "to_camel_case"@,
        CaseHelper::PascalCase => "to_pascal_case"@,
        CaseHelper::SnakeCase => "to_snake_case"@,
        CaseHelper::ScreamingSnakeCase => "to_screaming_snake_case"@,
        CaseHelper::KebabCase => "to_kebab_case"@,
        CaseHelper::TrainCase => "to_train_case"@,
        CaseHelper::SentenceCase => "to_sentence_case"@,
        CaseHelper::TitleCase => "to_title_case"@,
        CaseHelper::ClassCase => "to_class_case"@,
        CaseHelper::TableCase => "to_table_case"@,
        CaseHelper::Plural => "to_plural"@,
        CaseHelper::Singular => "to_singular"@,
    }
}

/// The name under which a helper is called from a template.
pub open spec fn helper_name(h: Helper) -> Seq<char> {
    match h {
        Helper::Case(c) => case_name(c),
        Helper::HttpGet => "http_get"@,
        Helper::GitignoreIo => "gitignore_io"@,
        Helper::Path(PathPart::Parent) => "parent"@,
        Helper::Path(PathPart::FileName) => "file_name"@,
        Helper::Path(PathPart::Extension) => "extension"@,
        Helper::Canonicalize => "canonicalize"@,
        Helper::EnvVar => "env_var"@,
    }
}

/// The helpers of a group, in the order in which they are registered.
pub open spec fn group_plan(g: HelperGroup) -> Seq<Helper> {
    match g {
        HelperGroup::Strings => seq![
            Helper::Case(CaseHelper::LowerCase),
            Helper::Case(CaseHelper::UpperCase),
            Helper::Case(CaseHelper::CamelCase),
            Helper::Case(CaseHelper::PascalCase),
            Helper::Case(CaseHelper::SnakeCase),
            Helper::Case(CaseHelper::ScreamingSnakeCase),
            Helper::Case(CaseHelper::KebabCase),
            Helper::Case(CaseHelper::TrainCase),
            Helper::Case(CaseHelper::SentenceCase),
            Helper::Case(CaseHelper::TitleCase),
            Helper::Case(CaseHelper::ClassCase),
            Helper::Case(CaseHelper::TableCase),
            Helper::Case(CaseHelper::Plural),
            Helper::Case(CaseHelper::Singular),
        ],
        HelperGroup::Http => seq![Helper::HttpGet, Helper::GitignoreIo],
        HelperGroup::Paths => seq![
            Helper::Path(PathPart::Parent),
            Helper::Path(PathPart::FileName),
            Helper::Path(PathPart::Extension),
            Helper::Canonicalize,
        ],
        HelperGroup::Env => seq![Helper::EnvVar],
    }
}

/// The whole helper set, group after group: strings, HTTP, paths, environment.
pub open spec fn full_plan() -> Seq<Helper> {
    group_plan(HelperGroup::Strings) + group_plan(HelperGroup::Http) + group_plan(
        HelperGroup::Paths,
    ) + group_plan(HelperGroup::Env)
}

/// Whether two strings hold the same characters.
fn same_text(a: &str, b: &str) -> (r: bool)
    ensures
        r == (a@ == b@),
{
    let x = String::from_str(a);
    let y = String::from_str(b);
    x == y
}

impl CaseHelper {
    /// The name under which the helper is called from a template.
    pub fn name(&self) -> (r: &'static str)
        ensures
            r@ == case_name(*self),
    {
        match self {
            CaseHelper::LowerCase => "to_lower_case",
            CaseHelper::UpperCase => "to_upper_case",
            CaseHelper::CamelCase => "to_camel_case",
            CaseHelper::PascalCase => "to_pascal_case",
            CaseHelper::SnakeCase => "to_snake_case",
            CaseHelper::ScreamingSnakeCase => "to_screaming_snake_case",
            CaseHelper::KebabCase => "to_kebab_case",
            CaseHelper::TrainCase => "to_train_case",
            CaseHelper::SentenceCase => "to_sentence_case",
            CaseHelper::TitleCase => "to_title_case",
            CaseHelper::ClassCase => "to_class_case",
            CaseHelper::TableCase => "to_table_case",
            CaseHelper::Plural => "to_plural",
            CaseHelper::Singular => "to_singular",
        }
    }
}

impl Helper {
    /// The name under which the helper is called from a template.
    pub fn name(&self) -> (r: &'static str)
        ensures
            r@ == helper_name(*self),
    {
        match self {
            Helper::Case(c) => c.name(),
            Helper::HttpGet => "http_get",
            Helper::GitignoreIo => "gitignore_io",
            Helper::Path(PathPart::Parent) => "parent",
            Helper::Path(PathPart::FileName) => "file_name",
            Helper::Path(PathPart::Extension) => "extension",
            Helper::Canonicalize => "canonicalize",
            Helper::EnvVar => "env_var",
        }
    }
}


/// No two helpers share a name: a name picks out one helper.
pub proof fn lemma_names_distinct(a: Helper, b: Helper)
    ensures
        helper_name(a) == helper_name(b) ==> a == b,
{
    reveal_strlit("to_lower_case");
    reveal_strlit("to_upper_case");
    reveal_strlit("to_camel_case");
    reveal_strlit("to_pascal_case");
    reveal_strlit("to_snake_case");
    reveal_strlit("to_screaming_snake_case");
    reveal_strlit("to_kebab_case");
    reveal_strlit("to_train_case");
    reveal_strlit("to_sentence_case");
    reveal_strlit("to_title_case");
    reveal_strlit("to_class_case");
    reveal_strlit("to_table_case");
    reveal_strlit("to_plural");
    reveal_strlit("to_singular");
    reveal_strlit("http_get");
    reveal_strlit("gitignore_io");
    reveal_strlit("parent");
    reveal_strlit("file_name");
    reveal_strlit("extension");
    reveal_strlit("canonicalize");
    reveal_strlit("env_var");
    if helper_name(a) == helper_name(b) {
        let (x, y) = (helper_name(a), helper_name(b));
        assert(x.len() == y.len());
        assert(x[0] == y[0] && x[1] == y[1] && x[2] == y[2] && x[3] == y[3]);
        assert(x[4] == y[4] && x[5] == y[5]);
    }
}


/// Whether a helper of the same name as `h` is among `hs`.
pub open spec fn name_taken(hs: Seq<Helper>, h: Helper) -> bool {
    exists|j: int| 0 <= j < hs.len() && helper_name(#[trigger] hs[j]) == helper_name(h)
}

/// The helpers registered after offering each of `plan` in turn to a table
/// holding `hs`: a helper whose name is taken is left out.
pub open spec fn add_all(hs: Seq<Helper>, plan: Seq<Helper>) -> Seq<Helper>
    decreases plan.len(),
{
    if plan.len() == 0 {
        hs
    } else if name_taken(hs, plan[0]) {
        add_all(hs, plan.drop_first())
    } else {
        add_all(hs.push(plan[0]), plan.drop_first())
    }
}

/// The first helper of `plan` whose name is taken when its turn comes.
pub open spec fn first_clash(hs: Seq<Helper>, plan: Seq<Helper>) -> Option<Helper>
    decreases plan.len(),
{
    if plan.len() == 0 {
        None
    } else if name_taken(hs, plan[0]) {
        Some(plan[0])
    } else {
        first_clash(hs.push(plan[0]), plan.drop_first())
    }
}

/// Whether `r` is what registering `plan` on a table holding `hs` reports:
/// the name of the first clash, if there is one.
pub open spec fn reports(r: Result<(), SetupError>, hs: Seq<Helper>, plan: Seq<Helper>) -> bool {
    match first_clash(hs, plan) {
        Some(h) => (r matches Err(SetupError::DuplicateHelper(n)) && n@ == helper_name(h)),
        None => r is Ok,
    }
}

/// Why a table could not be set up.
#[derive(Debug, PartialEq, Eq)]
pub enum SetupError {
    /// A helper of this name was registered already.
    DuplicateHelper(String),
}


/// Offering `a` and then `b` is offering `a + b`: the same table, and the
/// first clash of `a` if it has one, else the first clash of `b`.
proof fn lemma_add_all_concat(hs: Seq<Helper>, a: Seq<Helper>, b: Seq<Helper>)
    ensures
        add_all(hs, a + b) == add_all(add_all(hs, a), b),
        first_clash(hs, a + b) == (match first_clash(hs, a) {
            Some(h) => Some(h),
            None => first_clash(add_all(hs, a), b),
        }),
    decreases a.len(),
{
    if a.len() == 0 {
        assert(a + b =~= b);
    } else {
        assert((a + b).drop_first() =~= a.drop_first() + b);
        assert((a + b)[0] == a[0]);
        if name_taken(hs, a[0]) {
            lemma_add_all_concat(hs, a.drop_first(), b);
        } else {
            lemma_add_all_concat(hs.push(a[0]), a.drop_first(), b);
        }
    }
}

/// A plan of distinct names, none of them taken, is registered whole and
/// without a clash.
proof fn lemma_add_fresh(hs: Seq<Helper>, plan: Seq<Helper>)
    requires
        forall|i: int, j: int|
            0 <= i < j < plan.len() ==> helper_name(plan[i]) != helper_name(plan[j]),
        forall|i: int| 0 <= i < plan.len() ==> !name_taken(hs, #[trigger] plan[i]),
    ensures
        add_all(hs, plan) == hs + plan,
        first_clash(hs, plan) == None::<Helper>,
    decreases plan.len(),
{
    if plan.len() == 0 {
        assert(hs + plan =~= hs);
    } else {
        let rest = plan.drop_first();
        let hs2 = hs.push(plan[0]);
        assert forall|i: int| 0 <= i < rest.len() implies !name_taken(hs2, #[trigger] rest[i]) by {
            assert(rest[i] == plan[i + 1]);
            assert(!name_taken(hs, plan[i + 1]));
            if name_taken(hs2, rest[i]) {
                let j = choose|j: int| 0 <= j < hs2.len() && helper_name(#[trigger] hs2[j]) == helper_name(rest[i]);
                if j < hs.len() {
                    assert(hs[j] == hs2[j]);
                } else {
                    assert(hs2[j] == plan[0]);
                }
            }
        }
        lemma_add_fresh(hs2, rest);
        assert(hs2 + rest =~= hs + plan);
    }
}

/// No two entries of the full plan share a name.
proof fn lemma_full_plan_distinct()
    ensures
        full_plan().len() == 21,
        forall|i: int, j: int|
            0 <= i < j < full_plan().len() ==> helper_name(full_plan()[i]) != helper_name(
                full_plan()[j],
            ),
{
    let p = full_plan();
    assert forall|i: int, j: int| 0 <= i < j < p.len() implies helper_name(p[i]) != helper_name(p[j]) by {
        lemma_names_distinct(p[i], p[j]);
    }
}


/// The helpers of a group, in registration order.
pub fn group_helpers(g: HelperGroup) -> (r: Vec<Helper>)
    ensures
        r@ == group_plan(g),
{
    match g {
        HelperGroup::Strings => vec![
            Helper::Case(CaseHelper::LowerCase),
            Helper::Case(CaseHelper::UpperCase),
            Helper::Case(CaseHelper::CamelCase),
            Helper::Case(CaseHelper::PascalCase),
            Helper::Case(CaseHelper::SnakeCase),
            Helper::Case(CaseHelper::ScreamingSnakeCase),
            Helper::Case(CaseHelper::KebabCase),
            Helper::Case(CaseHelper::TrainCase),
            Helper::Case(CaseHelper::SentenceCase),
            Helper::Case(CaseHelper::TitleCase),
            Helper::Case(CaseHelper::ClassCase),
            Helper::Case(CaseHelper::TableCase),
            Helper::Case(CaseHelper::Plural),
            Helper::Case(CaseHelper::Singular),
        ],
        HelperGroup::Http => vec![Helper::HttpGet, Helper::GitignoreIo],
        HelperGroup::Paths => vec![
            Helper::Path(PathPart::Parent),
            Helper::Path(PathPart::FileName),
            Helper::Path(PathPart::Extension),
            Helper::Canonicalize,
        ],
        HelperGroup::Env => vec![Helper::EnvVar],
    }
}

/// What a helper table holds: the registered helpers, in order, and whether
/// an undefined template variable is an error.
pub struct RegistryModel {
    pub helpers: Seq<Helper>,
    pub strict: bool,
}

/// The helper table of a template engine.
pub struct Registry {
    helpers: Vec<Helper>,
    strict: bool,
}

impl View for Registry {
    type V = RegistryModel;

    closed spec fn view(&self) -> RegistryModel {
        RegistryModel { helpers: self.helpers@, strict: self.strict }
    }
}

impl Registry {
    /// An empty table, not strict.
    pub fn new() -> (r: Registry)
        ensures
            r@.helpers == Seq::<Helper>::empty(),
            !r@.strict,
    {
        Registry { helpers: Vec::new(), strict: false }
    }

    /// Makes an undefined template variable an error, or not.
    pub fn set_strict_mode(&mut self, on: bool)
        ensures
            final(self)@.helpers == old(self)@.helpers,
            final(self)@.strict == on,
    {
        self.strict = on;
    }

    /// Whether an undefined template variable is an error.
    pub fn is_strict(&self) -> (r: bool)
        ensures
            r == self@.strict,
    {
        self.strict
    }

    /// The registered helpers, in registration order.
    pub fn helpers(&self) -> (r: &Vec<Helper>)
        ensures
            r@ == self@.helpers,
    {
        &self.helpers
    }

    /// The registered helper called `name`, if there is one.
    pub fn lookup(&self, name: &str) -> (r: Option<Helper>)
        ensures
            match r {
                Some(h) => self@.helpers.contains(h) && helper_name(h) == name@,
                None => forall|h: Helper| #[trigger] self@.helpers.contains(h) ==> helper_name(h) != name@,
            },
    {
        let mut i: usize = 0;
        while i < self.helpers.len()
            invariant
                i <= self.helpers@.len(),
                forall|j: int| 0 <= j < i ==> helper_name(#[trigger] self.helpers@[j]) != name@,
            decreases self.helpers@.len() - i,
        {
            let h = self.helpers[i];
            if same_text(h.name(), name) {
                return Some(h);
            }
            i = i + 1;
        }
        None
    }

    /// Registers `h`, refusing it when a helper of the same name is there already.
    pub fn register(&mut self, h: Helper) -> (r: Result<(), SetupError>)
        ensures
            final(self)@.strict == old(self)@.strict,
            name_taken(old(self)@.helpers, h) ==> final(self)@.helpers == old(self)@.helpers
                && (r matches Err(SetupError::DuplicateHelper(n)) && n@ == helper_name(h)),
            !name_taken(old(self)@.helpers, h) ==> final(self)@.helpers == old(self)@.helpers.push(
                h,
            ) && r is Ok,
    {
        let mut i: usize = 0;
        while i < self.helpers.len()
            invariant
                i <= self.helpers@.len(),
                forall|j: int| 0 <= j < i ==> helper_name(#[trigger] self.helpers@[j]) != helper_name(h),
            decreases self.helpers@.len() - i,
        {
            if same_text(self.helpers[i].name(), h.name()) {
                return Err(SetupError::DuplicateHelper(String::from_str(h.name())));
            }
            i = i + 1;
        }
        self.helpers.push(h);
        Ok(())
    }

    /// Offers every helper of `plan` in turn; a refused one does not stop the
    /// others. Reports the first refusal.
    fn register_all(&mut self, plan: &Vec<Helper>) -> (r: Result<(), SetupError>)
        ensures
            final(self)@.strict == old(self)@.strict,
            final(self)@.helpers == add_all(old(self)@.helpers, plan@),
            reports(r, old(self)@.helpers, plan@),
    {
        let ghost hs0 = self@.helpers;
        let mut result: Result<(), SetupError> = Ok(());
        let mut i: usize = 0;
        assert(plan@.skip(0) =~= plan@);
        while i < plan.len()
            invariant
                i <= plan@.len(),
                self@.strict == old(self)@.strict,
                hs0 == old(self)@.helpers,
                add_all(self@.helpers, plan@.skip(i as int)) == add_all(hs0, plan@),
                result is Ok ==> first_clash(self@.helpers, plan@.skip(i as int)) == first_clash(hs0, plan@),
                result is Err ==> reports(result, hs0, plan@),
            decreases plan@.len() - i,
        {
            let h = plan[i];
            assert(plan@.skip(i as int)[0] == h);
            assert(plan@.skip(i as int).drop_first() =~= plan@.skip(i + 1));
            let r = self.register(h);
            if result.is_ok() && r.is_err() {
                result = r;
            }
            i = i + 1;
        }
        assert(plan@.skip(i as int) =~= Seq::<Helper>::empty());
        result
    }

    /// Registers the string-case helpers.
    pub fn register_string_helpers(&mut self) -> (r: Result<(), SetupError>)
        ensures
            final(self)@.strict == old(self)@.strict,
            final(self)@.helpers == add_all(old(self)@.helpers, group_plan(HelperGroup::Strings)),
            reports(r, old(self)@.helpers, group_plan(HelperGroup::Strings)),
    {
        self.register_all(&group_helpers(HelperGroup::Strings))
    }

    /// Registers the HTTP fetch helpers.
    pub fn register_http_helpers(&mut self) -> (r: Result<(), SetupError>)
        ensures
            final(self)@.strict == old(self)@.strict,
            final(self)@.helpers == add_all(old(self)@.helpers, group_plan(HelperGroup::Http)),
            reports(r, old(self)@.helpers, group_plan(HelperGroup::Http)),
    {
        self.register_all(&group_helpers(HelperGroup::Http))
    }

    /// Registers the path helpers.
    pub fn register_path_helpers(&mut self) -> (r: Result<(), SetupError>)
        ensures
            final(self)@.strict == old(self)@.strict,
            final(self)@.helpers == add_all(old(self)@.helpers, group_plan(HelperGroup::Paths)),
            reports(r, old(self)@.helpers, group_plan(HelperGroup::Paths)),
    {
        self.register_all(&group_helpers(HelperGroup::Paths))
    }

    /// Registers the environment helper.
    pub fn register_env_helpers(&mut self) -> (r: Result<(), SetupError>)
        ensures
            final(self)@.strict == old(self)@.strict,
            final(self)@.helpers == add_all(old(self)@.helpers, group_plan(HelperGroup::Env)),
            reports(r, old(self)@.helpers, group_plan(HelperGroup::Env)),
    {
        self.register_all(&group_helpers(HelperGroup::Env))
    }

    /// Turns strict mode on and registers the four groups. Every group is
    /// attempted; the first refusal is reported.
    pub fn setup(&mut self) -> (r: Result<(), SetupError>)
        ensures
            final(self)@.strict,
            final(self)@.helpers == add_all(old(self)@.helpers, full_plan()),
            reports(r, old(self)@.helpers, full_plan()),
    {
        let ghost hs0 = self@.helpers;
        self.set_strict_mode(true);
        let r1 = self.register_string_helpers();
        let r2 = self.register_http_helpers();
        let r3 = self.register_path_helpers();
        let r4 = self.register_env_helpers();
        proof {
            let s = group_plan(HelperGroup::Strings);
            let h = group_plan(HelperGroup::Http);
            let p = group_plan(HelperGroup::Paths);
            let e = group_plan(HelperGroup::Env);
            lemma_add_all_concat(hs0, s, h);
            lemma_add_all_concat(hs0, s + h, p);
            lemma_add_all_concat(hs0, s + h + p, e);
        }
        if r1.is_err() {
            r1
        } else if r2.is_err() {
            r2
        } else if r3.is_err() {
            r3
        } else {
            r4
        }
    }

    /// A strict table holding the whole helper set, each helper once.
    pub fn configured() -> (r: Registry)
        ensures
            r@.helpers == full_plan(),
            r@.strict,
    {
        let mut t = Registry::new();
        let _ = t.setup();
        proof {
            lemma_full_plan_distinct();
            lemma_add_fresh(Seq::empty(), full_plan());
            assert(Seq::<Helper>::empty() + full_plan() =~= full_plan());
        }
        t
    }
}


/// The address that the `gitignore_io` helper fetches for `name`.
pub fn gitignore_url(name: &str) -> (r: String)
    ensures
        r@ == "https://www.gitignore.io/api/"@ + name@,
{
    let base = String::from_str("https://www.gitignore.io/api/");
    base.concat(name)
}

} // verus!
