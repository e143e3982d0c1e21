//! Search expressions for listing files: comparison operators, atomic
//! predicates, and their composition with `and` / `or`.

use crate::text::{boolean, decimal, push_boolean, push_decimal};
use std::borrow::Cow;
use vstd::prelude::*;
use vstd::string::*;

verus! {

/// A comparison operator of the search language.
#[derive(Clone, Copy, Debug, PartialEq, Eq, Structural)]
pub enum Operator {
    EqualTo,
    NotEqualTo,
    Colon,
    In,
    NotIn,
    GreaterThan,
    GreaterThanOrEqualTo,
    LessThan,
    LessThanOrEqualTo,
}

impl Operator {
    /// The operator as it is written in a search expression.
    pub open spec fn token(self) -> Seq<char> {
        match self {
            Operator::EqualTo => "="@,
            Operator::NotEqualTo => "NOT ="@,
            Operator::Colon => ":"@,
            Operator::In => "IN"@,
            Operator::NotIn => "NOT IN"@,
            Operator::GreaterThan => ">"@,
            Operator::GreaterThanOrEqualTo => ">="@,
            Operator::LessThan => "<"@,
            Operator::LessThanOrEqualTo => "<="@,
        }
    }

    fn as_str(&self) -> (text: &'static str)
        ensures
            text@ == self.token(),
    {
        match self {
            Operator::EqualTo => "=",
            Operator::NotEqualTo => "NOT =",
            Operator::Colon => ":",
            Operator::In => "IN",
            Operator::NotIn => "NOT IN",
            Operator::GreaterThan => ">",
            Operator::GreaterThanOrEqualTo => ">=",
            Operator::LessThan => "<",
            Operator::LessThanOrEqualTo => "<=",
        }
    }

    /// Renders the operator as it is written in a search expression.
    pub fn to_string(&self) -> (text: String)
        ensures
            text@ == self.token(),
    {
        String::from_str(self.as_str())
    }
}

/// The text of an atomic predicate: field, operator and value, with one
/// space on each side of the operator.
pub open spec fn predicate(field: Seq<char>, operator: Operator, value: Seq<char>) -> Seq<char> {
    field + " "@ + operator.token() + " "@ + value
}

/// `value` between double quotes.
pub open spec fn quoted(value: Seq<char>) -> Seq<char> {
    "\""@ + value + "\""@
}

/// The values, each between double quotes, separated by commas.
pub open spec fn quoted_list(values: Seq<Seq<char>>) -> Seq<char>
    decreases values.len(),
{
    if values.len() == 0 {
        Seq::empty()
    } else if values.len() == 1 {
        quoted(values[0])
    } else {
        quoted_list(values.drop_last()) + ","@ + quoted(values.last())
    }
}

/// The text of each tag, in order.
pub open spec fn tag_texts(tags: Seq<&str>) -> Seq<Seq<char>> {
    Seq::new(tags.len(), |i: int| tags[i]@)
}

/// `list` between square brackets.
pub open spec fn bracketed(list: Seq<char>) -> Seq<char> {
    "["@ + list + "]"@
}

/// `left and (right)`: the right operand is always parenthesized.
pub open spec fn conjunction(left: Seq<char>, right: Seq<char>) -> Seq<char> {
    left + " and ("@ + right + ")"@
}

/// `left or (right)`: the right operand is always parenthesized.
pub open spec fn disjunction(left: Seq<char>, right: Seq<char>) -> Seq<char> {
    left + " or ("@ + right + ")"@
}

/// A finished search expression, ready to be sent as `searchQuery`.
pub struct SearchQuery(pub Cow<'static, str>);

impl View for SearchQuery {
    type V = Seq<char>;

    open spec fn view(&self) -> Seq<char> {
        self.0@
    }
}

impl SearchQuery {
    fn as_str(&self) -> (text: &str)
        ensures
            text@ == self@,
    {
        match &self.0 {
            Cow::Borrowed(text) => text,
            Cow::Owned(text) => text.as_str(),
        }
    }

    /// The expression as text.
    pub fn to_string(&self) -> (text: String)
        ensures
            text@ == self@,
    {
        String::from_str(self.as_str())
    }
}

/// A search expression under construction.
pub struct SearchQueryBuilder {
    query_string: String,
}

impl View for SearchQueryBuilder {
    type V = Seq<char>;

    closed spec fn view(&self) -> Seq<char> {
        self.query_string@
    }
}

impl SearchQueryBuilder {
    /// Finishes the expression; its text is unchanged.
    pub fn build(self) -> (query: SearchQuery)
        ensures
            query@ == self@,
    {
        SearchQuery(Cow::Owned(self.query_string))
    }

    /// Appends ` and (search_query)`.
    pub fn and(self, search_query: SearchQuery) -> (builder: Self)
        ensures
            builder@ == conjunction(self@, search_query@),
    {
        let mut query_string = self.query_string;
        query_string.append(" and (");
        query_string.append(search_query.as_str());
        query_string.append(")");
        Self { query_string }
    }

    /// Appends ` or (search_query)`.
    pub fn or(self, search_query: SearchQuery) -> (builder: Self)
        ensures
            builder@ == disjunction(self@, search_query@),
    {
        let mut query_string = self.query_string;
        query_string.append(" or (");
        query_string.append(search_query.as_str());
        query_string.append(")");
        Self { query_string }
    }

    /// Takes `val` as an expression as it stands: nothing is checked and
    /// nothing is escaped.
    pub fn raw_query_string(val: &str) -> (builder: Self)
        ensures
            builder@ == val@,
    {
        Self { query_string: String::from_str(val) }
    }

    /// Starts `field operator `, to which the caller appends the value.
    fn field(field: &str, operator: Operator) -> (query_string: String)
        ensures
            query_string@ == field@ + " "@ + operator.token() + " "@,
    {
        let mut query_string = String::from_str(field);
        query_string.append(" ");
        query_string.append(operator.as_str());
        query_string.append(" ");
        query_string
    }

    /// `field operator val`, with `val` written as it stands.
    fn verbatim(field: &str, operator: Operator, val: &str) -> (builder: Self)
        ensures
            builder@ == predicate(field@, operator, val@),
    {
        let mut query_string = Self::field(field, operator);
        query_string.append(val);
        Self { query_string }
    }

    /// `field = val`, with `val` written as `true` or `false`.
    fn flag(field: &str, val: bool) -> (builder: Self)
        ensures
            builder@ == predicate(field@, Operator::EqualTo, boolean(val)),
    {
        let mut query_string = Self::field(field, Operator::EqualTo);
        push_boolean(&mut query_string, val);
        Self { query_string }
    }

    /// `name operator val`. `val` is written as it stands: a caller who
    /// means a string literal supplies the quotes.
    pub fn name(operator: Operator, val: &str) -> (builder: Self)
        ensures
            builder@ == predicate("name"@, operator, val@),
    {
        Self::verbatim("name", operator, val)
    }

    /// `tags operator ["a","b"]`: each tag between double quotes, the tags
    /// separated by commas, the list between square brackets.
    pub fn tags(operator: Operator, val: &[&str]) -> (builder: Self)
        ensures
            builder@ == predicate(
                "tags"@,
                operator,
                bracketed(quoted_list(tag_texts(val@))),
            ),
    {
        let mut query_string = Self::field("tags", operator);
        let ghost head = query_string@;
        let ghost tags = tag_texts(val@);
        query_string.append("[");
        let mut i: usize = 0;
        while i < val.len()
            invariant
                i <= val.len(),
                tags == tag_texts(val@),
                query_string@ == head + "["@ + quoted_list(tags.take(i as int)),
            decreases val.len() - i,
        {
            if i > 0 {
                query_string.append(",");
            }
            query_string.append("\"");
            query_string.append(val[i]);
            query_string.append("\"");
            proof {
                let next = tags.take(i + 1);
                assert(next.drop_last() =~= tags.take(i as int));
                assert(next.last() == val@[i as int]@);
                assert(query_string@ =~= head + "["@ + quoted_list(next));
            }
            i = i + 1;
        }
        query_string.append("]");
        proof {
            assert(tags.take(val.len() as int) =~= tags);
            assert(query_string@ =~= predicate("tags"@, operator, bracketed(quoted_list(tags))));
        }
        Self { query_string }
    }

    /// `createdAt operator val`, with `val` written as it stands.
    pub fn created_at(operator: Operator, val: &str) -> (builder: Self)
        ensures
            builder@ == predicate("createdAt"@, operator, val@),
    {
        Self::verbatim("createdAt", operator, val)
    }

    /// `updatedAt operator val`, with `val` written as it stands.
    pub fn updated_at(operator: Operator, val: &str) -> (builder: Self)
        ensures
            builder@ == predicate("updatedAt"@, operator, val@),
    {
        Self::verbatim("updatedAt", operator, val)
    }

    /// `height operator val`, with `val` written as it stands.
    pub fn height(operator: Operator, val: &str) -> (builder: Self)
        ensures
            builder@ == predicate("height"@, operator, val@),
    {
        Self::verbatim("height", operator, val)
    }

    /// `width operator val`, with `val` written as it stands.
    pub fn width(operator: Operator, val: &str) -> (builder: Self)
        ensures
            builder@ == predicate("width"@, operator, val@),
    {
        Self::verbatim("width", operator, val)
    }

    /// `size operator val`, with the size in bytes written in decimal.
    pub fn size(operator: Operator, val: u32) -> (builder: Self)
        ensures
            builder@ == predicate("size"@, operator, decimal(val as nat)),
    {
        let mut query_string = Self::field("size", operator);
        push_decimal(&mut query_string, val);
        Self { query_string }
    }

    /// `size operator "val"`, for a size with a unit such as `1mb`; the
    /// quotes are added here.
    pub fn size_special(operator: Operator, val: &str) -> (builder: Self)
        ensures
            builder@ == predicate("size"@, operator, quoted(val@)),
    {
        let mut query_string = Self::field("size", operator);
        query_string.append("\"");
        query_string.append(val);
        query_string.append("\"");
        proof {
            assert(query_string@ =~= predicate("size"@, operator, quoted(val@)));
        }
        Self { query_string }
    }

    /// `private = true` or `private = false`.
    pub fn private(val: bool) -> (builder: Self)
        ensures
            builder@ == predicate("private"@, Operator::EqualTo, boolean(val)),
    {
        Self::flag("private", val)
    }

    /// `published = true` or `published = false`.
    pub fn published(val: bool) -> (builder: Self)
        ensures
            builder@ == predicate("published"@, Operator::EqualTo, boolean(val)),
    {
        Self::flag("published", val)
    }

    /// `transparency = true` or `transparency = false`.
    pub fn transparency(val: bool) -> (builder: Self)
        ensures
            builder@ == predicate("transparency"@, Operator::EqualTo, boolean(val)),
    {
        Self::flag("transparency", val)
    }
}

/// The status of an answer that carries the list.
pub const LISTED: u16 = 200;

/// Whether an answer with this status carries the list of files; any
/// other answer carries a message instead.
pub fn is_listed(status: u16) -> (listed: bool)
    ensures
        listed == (status == LISTED),
{
    status == LISTED
}

/// Which files to list: a search expression, a folder, tags, and the
/// window of the result.
pub struct Options {
    search_query: Option<SearchQuery>,
    path: Option<String>,
    tags: Option<String>,
    skip: Option<u32>,
    limit: Option<u32>,
}

/// What an [`Options`] holds.
pub struct OptionsView {
    pub search_query: Option<Seq<char>>,
    pub path: Option<Seq<char>>,
    pub tags: Option<Seq<char>>,
    pub skip: Option<u32>,
    pub limit: Option<u32>,
}

/// The parameter `name` with `value`, or no parameter where there is no
/// value.
pub open spec fn optional(name: Seq<char>, value: Option<Seq<char>>) -> Seq<
    (Seq<char>, Seq<char>),
> {
    match value {
        Some(value) => seq![(name, value)],
        None => Seq::empty(),
    }
}

/// The decimal notation of an optional number.
pub open spec fn optional_decimal(value: Option<u32>) -> Option<Seq<char>> {
    match value {
        Some(value) => Some(decimal(value as nat)),
        None => None,
    }
}

/// The name and the value of each parameter, as texts.
pub open spec fn parameter_texts(parameters: Seq<(&'static str, String)>) -> Seq<
    (Seq<char>, Seq<char>),
> {
    Seq::new(parameters.len(), |i: int| (parameters[i].0@, parameters[i].1@))
}

impl OptionsView {
    /// Nothing is asked for: the service's defaults apply.
    pub open spec fn empty() -> Self {
        OptionsView { search_query: None, path: None, tags: None, skip: None, limit: None }
    }

    /// The query parameters of the listing request: those that are set, in
    /// the order `searchQuery`, `path`, `tags`, `skip`, `limit`.
    pub open spec fn query_parameters(self) -> Seq<(Seq<char>, Seq<char>)> {
        optional("searchQuery"@, self.search_query) + optional("path"@, self.path) + optional(
            "tags"@,
            self.tags,
        ) + optional("skip"@, optional_decimal(self.skip)) + optional(
            "limit"@,
            optional_decimal(self.limit),
        )
    }
}

impl View for Options {
    type V = OptionsView;

    closed spec fn view(&self) -> OptionsView {
        OptionsView {
            search_query: match self.search_query {
                Some(search_query) => Some(search_query@),
                None => None,
            },
            path: match self.path {
                Some(path) => Some(path@),
                None => None,
            },
            tags: match self.tags {
                Some(tags) => Some(tags@),
                None => None,
            },
            skip: self.skip,
            limit: self.limit,
        }
    }
}

impl Default for Options {
    fn default() -> (options: Self)
        ensures
            options@ == OptionsView::empty(),
    {
        Options { search_query: None, path: None, tags: None, skip: None, limit: None }
    }
}

impl Options {
    /// Options that ask for nothing.
    pub fn new() -> (options: Self)
        ensures
            options@ == OptionsView::empty(),
    {
        Options { search_query: None, path: None, tags: None, skip: None, limit: None }
    }

    /// Sets the search expression.
    pub fn search_query(self, val: SearchQuery) -> (options: Self)
        ensures
            options@ == (OptionsView { search_query: Some(val@), ..self@ }),
    {
        Options { search_query: Some(val), ..self }
    }

    /// Sets the folder to list.
    pub fn path(self, val: &str) -> (options: Self)
        ensures
            options@ == (OptionsView { path: Some(val@), ..self@ }),
    {
        Options { path: Some(String::from_str(val)), ..self }
    }

    /// Sets the tags to list, as the service reads them.
    pub fn tags(self, val: &str) -> (options: Self)
        ensures
            options@ == (OptionsView { tags: Some(val@), ..self@ }),
    {
        Options { tags: Some(String::from_str(val)), ..self }
    }

    /// Sets how many files to skip.
    pub fn skip(self, val: u32) -> (options: Self)
        ensures
            options@ == (OptionsView { skip: Some(val), ..self@ }),
    {
        Options { skip: Some(val), ..self }
    }

    /// Sets how many files to return at most.
    pub fn limit(self, val: u32) -> (options: Self)
        ensures
            options@ == (OptionsView { limit: Some(val), ..self@ }),
    {
        Options { limit: Some(val), ..self }
    }

    /// The query parameters of the listing request: those that are set, in
    /// the order `searchQuery`, `path`, `tags`, `skip`, `limit`, the
    /// numbers in decimal.
    pub fn query_parameters(&self) -> (parameters: Vec<(&'static str, String)>)
        ensures
            parameter_texts(parameters@) == self@.query_parameters(),
    {
        let mut parameters: Vec<(&'static str, String)> = Vec::new();
        if let Some(search_query) = &self.search_query {
            parameters.push(("searchQuery", search_query.to_string()));
        }
        if let Some(path) = &self.path {
            parameters.push(("path", path.clone()));
        }
        if let Some(tags) = &self.tags {
            parameters.push(("tags", tags.clone()));
        }
        if let Some(skip) = self.skip {
            let mut text = String::new();
            push_decimal(&mut text, skip);
            parameters.push(("skip", text));
        }
        if let Some(limit) = self.limit {
            let mut text = String::new();
            push_decimal(&mut text, limit);
            parameters.push(("limit", text));
        }
        proof {
            assert(parameter_texts(parameters@) =~= self@.query_parameters());
        }
        parameters
    }
}

/// Every operator is written with at least one character, and with no
/// space at either end.
pub proof fn lemma_token_has_no_outer_space(operator: Operator)
    ensures
        operator.token().len() > 0,
        operator.token().first() != ' ',
        operator.token().last() != ' ',
{
    reveal_strlit("=");
    reveal_strlit("NOT =");
    reveal_strlit(":");
    reveal_strlit("IN");
    reveal_strlit("NOT IN");
    reveal_strlit(">");
    reveal_strlit(">=");
    reveal_strlit("<");
    reveal_strlit("<=");
}

/// A predicate is its field, one space, the operator, one space, and its
/// value: exactly one character stands on each side of the operator, and
/// it is a space.
pub proof fn lemma_predicate_spacing(field: Seq<char>, operator: Operator, value: Seq<char>)
    ensures
        ({
            let text = predicate(field, operator, value);
            let before: int = field.len() as int;
            let after: int = before + 1 + operator.token().len();
            &&& text.len() == field.len() + operator.token().len() + value.len() + 2
            &&& text.subrange(0, before) == field
            &&& text[before] == ' '
            &&& text.subrange(before + 1, after) == operator.token()
            &&& text[after] == ' '
            &&& text.subrange(after + 1, text.len() as int) == value
        }),
{
    reveal_strlit(" ");
    let text = predicate(field, operator, value);
    let before: int = field.len() as int;
    let after: int = before + 1 + operator.token().len();
    assert(text.subrange(0, before) =~= field);
    assert(text.subrange(before + 1, after) =~= operator.token());
    assert(text.subrange(after + 1, text.len() as int) =~= value);
}

/// `and` keeps the left operand as it stands and wraps the right one in
/// parentheses, whatever the operands are.
pub proof fn lemma_conjunction_shape(left: Seq<char>, right: Seq<char>)
    ensures
        ({
            let text = conjunction(left, right);
            let open: int = left.len() as int + 5;
            &&& text.len() == left.len() + right.len() + 7
            &&& text.subrange(0, left.len() as int) == left
            &&& text.subrange(left.len() as int, open + 1) == " and ("@
            &&& text.subrange(open + 1, text.len() - 1) == right
            &&& text.last() == ')'
        }),
{
    reveal_strlit(" and (");
    reveal_strlit(")");
    let text = conjunction(left, right);
    let open: int = left.len() as int + 5;
    assert(text.subrange(0, left.len() as int) =~= left);
    assert(text.subrange(left.len() as int, open + 1) =~= " and ("@);
    assert(text.subrange(open + 1, text.len() - 1) =~= right);
}

/// `or` keeps the left operand as it stands and wraps the right one in
/// parentheses, whatever the operands are.
pub proof fn lemma_disjunction_shape(left: Seq<char>, right: Seq<char>)
    ensures
        ({
            let text = disjunction(left, right);
            let open: int = left.len() as int + 4;
            &&& text.len() == left.len() + right.len() + 6
            &&& text.subrange(0, left.len() as int) == left
            &&& text.subrange(left.len() as int, open + 1) == " or ("@
            &&& text.subrange(open + 1, text.len() - 1) == right
            &&& text.last() == ')'
        }),
{
    reveal_strlit(" or (");
    reveal_strlit(")");
    let text = disjunction(left, right);
    let open: int = left.len() as int + 4;
    assert(text.subrange(0, left.len() as int) =~= left);
    assert(text.subrange(left.len() as int, open + 1) =~= " or ("@);
    assert(text.subrange(open + 1, text.len() - 1) =~= right);
}

/// Composition is a left fold that never regroups: a composite on the
/// right stays inside the parentheses it is given, and a composite on the
/// left is continued without any.
pub proof fn lemma_composition_nests(a: Seq<char>, b: Seq<char>, c: Seq<char>)
    ensures
        conjunction(a, disjunction(b, c)) == a + " and ("@ + b + " or ("@ + c + ")"@ + ")"@,
        disjunction(a, conjunction(b, c)) == a + " or ("@ + b + " and ("@ + c + ")"@ + ")"@,
        conjunction(conjunction(a, b), c) == a + " and ("@ + b + ")"@ + " and ("@ + c + ")"@,
        disjunction(disjunction(a, b), c) == a + " or ("@ + b + ")"@ + " or ("@ + c + ")"@,
{
    assert(conjunction(a, disjunction(b, c)) =~= a + " and ("@ + b + " or ("@ + c + ")"@ + ")"@);
    assert(disjunction(a, conjunction(b, c)) =~= a + " or ("@ + b + " and ("@ + c + ")"@ + ")"@);
}

} // verus!
