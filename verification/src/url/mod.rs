//! Image transformations and the URLs that carry them.

use crate::client::ImageKit;
use crate::error::UrlError;
use crate::text::{
    decimal, lemma_decimal, lemma_trim_end, lemma_trim_start, push_decimal, trim, trim_end,
    trim_matches,
};
use vstd::prelude::*;
use vstd::string::*;

verus! {

/// The parameters of an image transformation. Each is optional; a
/// transformation with none of them cannot be rendered.
pub struct Transformation {
    width: Option<u32>,
    height: Option<u32>,
    aspect_ratio: Option<String>,
}

/// What a [`Transformation`] holds.
pub struct TransformationView {
    pub width: Option<u32>,
    pub height: Option<u32>,
    pub aspect_ratio: Option<Seq<char>>,
}

impl TransformationView {
    /// The transformation with no parameter set.
    pub open spec fn empty() -> Self {
        TransformationView { width: None, height: None, aspect_ratio: None }
    }

    /// No parameter is set.
    pub open spec fn is_empty(self) -> bool {
        self.width is None && self.height is None && self.aspect_ratio is None
    }

    /// The width's token, `,w-` and the number, or nothing.
    pub open spec fn width_token(self) -> Seq<char> {
        match self.width {
            Some(width) => ",w-"@ + decimal(width as nat),
            None => Seq::empty(),
        }
    }

    /// The height's token, `,h-` and the number, or nothing.
    pub open spec fn height_token(self) -> Seq<char> {
        match self.height {
            Some(height) => ",h-"@ + decimal(height as nat),
            None => Seq::empty(),
        }
    }

    /// The aspect ratio's token, `,ar-` and the ratio as given, or nothing.
    pub open spec fn aspect_ratio_token(self) -> Seq<char> {
        match self.aspect_ratio {
            Some(aspect_ratio) => ",ar-"@ + aspect_ratio,
            None => Seq::empty(),
        }
    }

    /// The tokens of the parameters that are set, in the fixed order width,
    /// height, aspect ratio, each with its comma in front.
    pub open spec fn tokens(self) -> Seq<char> {
        self.width_token() + self.height_token() + self.aspect_ratio_token()
    }

    /// The transformation string: the tokens, with the commas at both ends
    /// stripped.
    pub open spec fn rendered(self) -> Seq<char> {
        trim(self.tokens(), ',')
    }

    /// What rendering gives: the transformation string, or the error for a
    /// transformation with no parameter set.
    pub open spec fn transformed(self) -> Result<Seq<char>, UrlError> {
        if self.is_empty() {
            Err(UrlError::EmptyTransformation)
        } else {
            Ok(self.rendered())
        }
    }
}

/// The text of an optional string.
pub open spec fn option_text(value: Option<String>) -> Option<Seq<char>> {
    match value {
        Some(text) => Some(text@),
        None => None,
    }
}

/// The text inside a successful result, or the error as it is.
pub open spec fn result_text(result: Result<String, UrlError>) -> Result<Seq<char>, UrlError> {
    match result {
        Ok(text) => Ok(text@),
        Err(error) => Err(error),
    }
}

impl View for Transformation {
    type V = TransformationView;

    closed spec fn view(&self) -> TransformationView {
        TransformationView {
            width: self.width,
            height: self.height,
            aspect_ratio: match self.aspect_ratio {
                Some(aspect_ratio) => Some(aspect_ratio@),
                None => None,
            },
        }
    }
}

impl Default for Transformation {
    fn default() -> (transformation: Self)
        ensures
            transformation@ == TransformationView::empty(),
    {
        Transformation { width: None, height: None, aspect_ratio: None }
    }
}

impl Transformation {
    /// A transformation with no parameter set.
    pub fn new() -> (transformation: Self)
        ensures
            transformation@ == TransformationView::empty(),
    {
        Transformation { width: None, height: None, aspect_ratio: None }
    }

    /// Sets the width, in pixels.
    pub fn width(self, val: u32) -> (transformation: Self)
        ensures
            transformation@ == (TransformationView { width: Some(val), ..self@ }),
    {
        Transformation { width: Some(val), height: self.height, aspect_ratio: self.aspect_ratio }
    }

    /// Sets the height, in pixels.
    pub fn height(self, val: u32) -> (transformation: Self)
        ensures
            transformation@ == (TransformationView { height: Some(val), ..self@ }),
    {
        Transformation { width: self.width, height: Some(val), aspect_ratio: self.aspect_ratio }
    }

    /// Sets the aspect ratio, a token such as `16-9`. It is rendered as
    /// given: the caller sees to it that the service accepts it.
    pub fn aspect_raio(self, val: &str) -> (transformation: Self)
        ensures
            transformation@ == (TransformationView { aspect_ratio: Some(val@), ..self@ }),
    {
        Transformation {
            width: self.width,
            height: self.height,
            aspect_ratio: Some(String::from_str(val)),
        }
    }

    /// Renders the transformation string, such as `w-200,h-200,ar-1-1`.
    /// Fails exactly when no parameter is set.
    pub fn transform(&self) -> (result: Result<String, UrlError>)
        ensures
            result_text(result) == self@.transformed(),
    {
        let mut output = String::new();
        if let Some(width) = self.width {
            output.append(",w-");
            push_decimal(&mut output, width);
        }
        if let Some(height) = self.height {
            output.append(",h-");
            push_decimal(&mut output, height);
        }
        if let Some(aspect_ratio) = &self.aspect_ratio {
            output.append(",ar-");
            output.append(aspect_ratio.as_str());
        }
        assert(output@ =~= self@.tokens());
        if self.width.is_none() && self.height.is_none() && self.aspect_ratio.is_none() {
            return Err(UrlError::EmptyTransformation);
        }
        let trimmed = trim_matches(output.as_str(), ',');
        Ok(String::from_str(trimmed))
    }
}

/// A transformation with a parameter set renders as its tokens without
/// the one comma in front, and without the commas, if any, that end the
/// aspect ratio. Where the aspect ratio is absent or does not end with a
/// comma, nothing else is stripped.
pub proof fn lemma_rendered(transformation: TransformationView)
    requires
        !transformation.is_empty(),
    ensures
        transformation.tokens().len() >= 4,
        transformation.tokens()[0] == ',',
        transformation.rendered() == trim_end(transformation.tokens().drop_first(), ','),
        (transformation.aspect_ratio matches Some(aspect_ratio) ==> aspect_ratio.len() == 0
            || aspect_ratio.last() != ',') ==> transformation.rendered()
            == transformation.tokens().drop_first(),
{
    reveal_strlit(",w-");
    reveal_strlit(",h-");
    reveal_strlit(",ar-");
    let tokens = transformation.tokens();
    if let Some(width) = transformation.width {
        lemma_decimal(width as nat);
    }
    if let Some(height) = transformation.height {
        lemma_decimal(height as nat);
    }
    assert(tokens.len() >= 4);
    assert(tokens[0] == ',');
    assert(tokens[1] != ',');
    lemma_trim_start(tokens, ',', 1);
    let rest = tokens.drop_first();
    assert(tokens.subrange(1, tokens.len() as int) =~= rest);
    if transformation.aspect_ratio matches Some(aspect_ratio) ==> aspect_ratio.len() == 0
        || aspect_ratio.last() != ',' {
        match transformation.aspect_ratio {
            Some(aspect_ratio) => {
                if aspect_ratio.len() == 0 {
                    assert(tokens.last() == '-');
                } else {
                    assert(tokens.last() == aspect_ratio.last());
                }
            },
            None => {
                match transformation.height {
                    Some(height) => {
                        let digits = decimal(height as nat);
                        assert(tokens.last() == digits[digits.len() - 1]);
                    },
                    None => {
                        let digits = decimal(transformation.width->0 as nat);
                        assert(tokens.last() == digits[digits.len() - 1]);
                    },
                }
            },
        }
        assert(rest.last() == tokens.last());
        lemma_trim_end(rest, ',', rest.len() as int);
        assert(rest.subrange(0, rest.len() as int) =~= rest);
    }
}

/// With only the width set, the transformation string is `w-` and the
/// width: no comma in front.
pub proof fn lemma_width_only(width: u32)
    ensures
        (TransformationView { width: Some(width), height: None, aspect_ratio: None }).transformed()
            == Ok::<Seq<char>, UrlError>("w-"@ + decimal(width as nat)),
{
    reveal_strlit(",w-");
    reveal_strlit("w-");
    let transformation = TransformationView {
        width: Some(width),
        height: None,
        aspect_ratio: None,
    };
    lemma_rendered(transformation);
    assert(transformation.tokens().drop_first() =~= "w-"@ + decimal(width as nat));
}

/// With width, height and aspect ratio set, the transformation string
/// holds the three in that order, whatever order they were set in. This is
/// stated for an aspect ratio that does not end with a comma: commas at the
/// end of the string are stripped.
pub proof fn lemma_width_height_aspect_ratio(width: u32, height: u32, aspect_ratio: Seq<char>)
    requires
        aspect_ratio.len() == 0 || aspect_ratio.last() != ',',
    ensures
        (TransformationView {
            width: Some(width),
            height: Some(height),
            aspect_ratio: Some(aspect_ratio),
        }).transformed() == Ok::<Seq<char>, UrlError>(
            "w-"@ + decimal(width as nat) + ",h-"@ + decimal(height as nat) + ",ar-"@
                + aspect_ratio,
        ),
{
    reveal_strlit(",w-");
    reveal_strlit("w-");
    let transformation = TransformationView {
        width: Some(width),
        height: Some(height),
        aspect_ratio: Some(aspect_ratio),
    };
    lemma_rendered(transformation);
    assert(transformation.tokens().drop_first() =~= "w-"@ + decimal(width as nat) + ",h-"@
        + decimal(height as nat) + ",ar-"@ + aspect_ratio);
}

/// Where the transformation string stands in the URL.
#[derive(Clone, Copy, Debug, PartialEq, Eq, Structural)]
pub enum TransformationPosition {
    /// As a path segment: `{endpoint}/tr:{transformation}/{path}`.
    Path,
    /// As a query parameter: `{endpoint}/{path}?tr={transformation}`.
    Query,
}

impl TransformationPosition {
    /// The position used where none is asked for: the path.
    pub fn default() -> (position: TransformationPosition)
        ensures
            position == TransformationPosition::Path,
    {
        TransformationPosition::Path
    }
}

/// No key occurs twice.
pub open spec fn keys_are_distinct(entries: Seq<(Seq<char>, Seq<char>)>) -> bool {
    forall|i: int, j: int| 0 <= i < j < entries.len() ==> entries[i].0 != entries[j].0
}

/// No entry has the key `key`.
pub open spec fn lacks_key(entries: Seq<(Seq<char>, Seq<char>)>, key: Seq<char>) -> bool {
    forall|i: int| 0 <= i < entries.len() ==> (#[trigger] entries[i]).0 != key
}

/// The texts of the keys and values, entry by entry.
pub open spec fn entry_texts(entries: Seq<(String, String)>) -> Seq<(Seq<char>, Seq<char>)> {
    Seq::new(entries.len(), |i: int| (entries[i].0@, entries[i].1@))
}

/// Query parameters beyond the transformation: a map from keys to values
/// that keeps its entries in the order in which their keys first came in.
pub struct QueryParameters {
    entries: Vec<(String, String)>,
}

impl View for QueryParameters {
    type V = Seq<(Seq<char>, Seq<char>)>;

    closed spec fn view(&self) -> Seq<(Seq<char>, Seq<char>)> {
        entry_texts(self.entries@)
    }
}

impl QueryParameters {
    #[verifier::type_invariant]
    spec fn well_formed(self) -> bool {
        keys_are_distinct(self@)
    }

    /// No parameters.
    pub fn new() -> (parameters: Self)
        ensures
            parameters@ == Seq::<(Seq<char>, Seq<char>)>::empty(),
    {
        let parameters = QueryParameters { entries: Vec::new() };
        assert(parameters@ =~= Seq::<(Seq<char>, Seq<char>)>::empty());
        parameters
    }

    /// The number of parameters.
    pub fn len(&self) -> (len: usize)
        ensures
            len == self@.len(),
    {
        self.entries.len()
    }

    /// Gives `key` the value `value`. A key that is new goes to the end; a
    /// key that is there keeps its place, and its former value is returned.
    pub fn insert(&mut self, key: String, value: String) -> (previous: Option<String>)
        ensures
            keys_are_distinct(old(self)@),
            keys_are_distinct(final(self)@),
            lacks_key(old(self)@, key@) ==> {
                &&& previous is None
                &&& final(self)@ == old(self)@.push((key@, value@))
            },
            forall|i: int|
                0 <= i < old(self)@.len() && (#[trigger] old(self)@[i]).0 == key@ ==> {
                    &&& option_text(previous) == Some(old(self)@[i].1)
                    &&& final(self)@ == old(self)@.update(i, (key@, value@))
                },
    {
        proof {
            use_type_invariant(&*self);
        }
        let ghost before = self@;
        let mut entries: Vec<(String, String)> = Vec::new();
        core::mem::swap(&mut self.entries, &mut entries);
        let mut previous: Option<String> = None;
        let mut found: bool = false;
        let mut i: usize = 0;
        while i < entries.len() && !found
            invariant
                i <= entries.len(),
                entry_texts(entries@) == before,
                keys_are_distinct(before),
                !found ==> forall|j: int| 0 <= j < i ==> (#[trigger] before[j]).0 != key@,
                found ==> 0 < i && before[i - 1].0 == key@,
            decreases entries.len() - i,
        {
            if entries[i].0 == key {
                found = true;
            }
            i = i + 1;
        }
        if found {
            let mut entry = (key, value);
            entries.set_and_swap(i - 1, &mut entry);
            previous = Some(entry.1);
            proof {
                assert(entry_texts(entries@) =~= before.update(i - 1, (key@, value@)));
            }
        } else {
            entries.push((key, value));
            proof {
                assert(entry_texts(entries@) =~= before.push((key@, value@)));
            }
        }
        self.entries = entries;
        previous
    }
}

/// One parameter: `key=value`, nothing encoded.
pub open spec fn parameter(entry: (Seq<char>, Seq<char>)) -> Seq<char> {
    entry.0 + "="@ + entry.1
}

/// The parameters as `key=value`, in their order, joined by `&`.
pub open spec fn joined(entries: Seq<(Seq<char>, Seq<char>)>) -> Seq<char>
    decreases entries.len(),
{
    if entries.len() == 0 {
        Seq::empty()
    } else if entries.len() == 1 {
        parameter(entries[0])
    } else {
        joined(entries.drop_last()) + "&"@ + parameter(entries.last())
    }
}

/// `url`, followed by `separator` and `query` where there is a query.
pub open spec fn with_query(url: Seq<char>, separator: Seq<char>, query: Seq<char>) -> Seq<char> {
    if query.len() == 0 {
        url
    } else {
        url + separator + query
    }
}

/// What is asked of a URL: the image, by path or by absolute source, its
/// transformation and where that is to stand, and further query
/// parameters.
pub struct Options {
    url_endpoint: Option<String>,
    path: Option<String>,
    src: Option<String>,
    transformation: Transformation,
    transformation_position: TransformationPosition,
    query_parameters: Option<QueryParameters>,
}

/// What an [`Options`] holds.
pub struct OptionsView {
    pub url_endpoint: Option<Seq<char>>,
    pub path: Option<Seq<char>>,
    pub src: Option<Seq<char>>,
    pub transformation: TransformationView,
    pub transformation_position: TransformationPosition,
    pub query_parameters: Option<Seq<(Seq<char>, Seq<char>)>>,
}

impl OptionsView {
    /// The options that [`Options::new`] gives for `transformation`.
    pub open spec fn initial(transformation: TransformationView) -> Self {
        OptionsView {
            url_endpoint: None,
            path: None,
            src: None,
            transformation,
            transformation_position: TransformationPosition::Path,
            query_parameters: None,
        }
    }

    /// The further query parameters, joined; empty where there are none.
    pub open spec fn query(self) -> Seq<char> {
        match self.query_parameters {
            Some(entries) => joined(entries),
            None => Seq::empty(),
        }
    }

    /// Where the transformation goes: into the query whenever a source is
    /// given, else where the options ask.
    pub open spec fn effective_position(self) -> TransformationPosition {
        if self.src is Some {
            TransformationPosition::Query
        } else {
            self.transformation_position
        }
    }

    /// The endpoint of the options, or `default_endpoint` where they name
    /// none.
    pub open spec fn endpoint(self, default_endpoint: Seq<char>) -> Seq<char> {
        match self.url_endpoint {
            Some(endpoint) => endpoint,
            None => default_endpoint,
        }
    }

    /// The URL for these options, or why there is none.
    pub open spec fn url(self, default_endpoint: Seq<char>) -> Result<Seq<char>, UrlError> {
        if self.path is Some && self.src is Some {
            Err(UrlError::ConflictingInputs)
        } else if self.transformation.is_empty() {
            Err(UrlError::EmptyTransformation)
        } else {
            let endpoint = self.endpoint(default_endpoint);
            let transformed = self.transformation.rendered();
            match self.effective_position() {
                TransformationPosition::Path => match self.path {
                    Some(path) => Ok(
                        with_query(
                            endpoint + "/tr:"@ + transformed + "/"@ + trim(path, '/'),
                            "?"@,
                            self.query(),
                        ),
                    ),
                    None => Err(UrlError::MissingRequiredField),
                },
                TransformationPosition::Query => match self.src {
                    Some(src) => Ok(with_query(src + "?tr="@ + transformed, "&"@, self.query())),
                    None => match self.path {
                        Some(path) => Ok(
                            with_query(
                                endpoint + "/"@ + path + "?tr="@ + transformed,
                                "&"@,
                                self.query(),
                            ),
                        ),
                        None => Err(UrlError::MissingRequiredField),
                    },
                },
            }
        }
    }
}

impl View for Options {
    type V = OptionsView;

    closed spec fn view(&self) -> OptionsView {
        OptionsView {
            url_endpoint: option_text(self.url_endpoint),
            path: option_text(self.path),
            src: option_text(self.src),
            transformation: self.transformation@,
            transformation_position: self.transformation_position,
            query_parameters: match self.query_parameters {
                Some(parameters) => Some(parameters@),
                None => None,
            },
        }
    }
}

impl Default for Options {
    fn default() -> (options: Self)
        ensures
            options@ == OptionsView::initial(TransformationView::empty()),
    {
        Options {
            url_endpoint: None,
            path: None,
            src: None,
            transformation: Transformation::new(),
            transformation_position: TransformationPosition::default(),
            query_parameters: None,
        }
    }
}

impl Options {
    /// Options for `transformation`, with nothing else set: no image yet,
    /// the default endpoint, the transformation in the path.
    pub fn new(transformation: Transformation) -> (options: Self)
        ensures
            options@ == OptionsView::initial(transformation@),
    {
        Options {
            url_endpoint: None,
            path: None,
            src: None,
            transformation,
            transformation_position: TransformationPosition::default(),
            query_parameters: None,
        }
    }

    /// Sets the endpoint for this URL, in place of the client's.
    pub fn url_endpoint(self, val: &str) -> (options: Self)
        ensures
            options@ == (OptionsView { url_endpoint: Some(val@), ..self@ }),
    {
        Options { url_endpoint: Some(String::from_str(val)), ..self }
    }

    /// Sets the path of the image below the endpoint.
    pub fn path(self, val: &str) -> (options: Self)
        ensures
            options@ == (OptionsView { path: Some(val@), ..self@ }),
    {
        Options { path: Some(String::from_str(val)), ..self }
    }

    /// Sets the absolute URL of the image.
    pub fn src(self, val: &str) -> (options: Self)
        ensures
            options@ == (OptionsView { src: Some(val@), ..self@ }),
    {
        Options { src: Some(String::from_str(val)), ..self }
    }

    /// Sets the further query parameters.
    pub fn query_parameters(self, val: QueryParameters) -> (options: Self)
        ensures
            options@ == (OptionsView { query_parameters: Some(val@), ..self@ }),
    {
        Options { query_parameters: Some(val), ..self }
    }

    /// Sets where the transformation is to stand.
    pub fn transformation_position(self, val: TransformationPosition) -> (options: Self)
        ensures
            options@ == (OptionsView { transformation_position: val, ..self@ }),
    {
        Options { transformation_position: val, ..self }
    }

    /// Where the transformation will stand: in the query whenever a source
    /// is given, else where the options ask.
    pub fn effective_position(&self) -> (position: TransformationPosition)
        ensures
            position == self@.effective_position(),
    {
        if self.src.is_some() {
            TransformationPosition::Query
        } else {
            self.transformation_position
        }
    }
}

/// Helpers of the URL builder.
pub struct Utils;

impl Utils {
    /// The further query parameters of `opts` as `key=value`, in their
    /// order, joined by `&`; empty where there are none. Nothing is
    /// percent-encoded.
    pub fn concat_query_parameters(opts: &Options) -> (query: String)
        ensures
            query@ == opts@.query(),
    {
        let mut query = String::new();
        if let Some(parameters) = &opts.query_parameters {
            let ghost entries = parameters@;
            let mut i: usize = 0;
            while i < parameters.entries.len()
                invariant
                    i <= parameters.entries.len(),
                    entries == parameters@,
                    query@ == joined(entries.take(i as int)),
                decreases parameters.entries.len() - i,
            {
                if i > 0 {
                    query.append("&");
                }
                query.append(parameters.entries[i].0.as_str());
                query.append("=");
                query.append(parameters.entries[i].1.as_str());
                proof {
                    let next = entries.take(i + 1);
                    assert(next.drop_last() =~= entries.take(i as int));
                    assert(next.last() == entries[i as int]);
                    assert(query@ =~= joined(next));
                }
                i = i + 1;
            }
            proof {
                assert(entries.take(entries.len() as int) =~= entries);
            }
        }
        query
    }
}

/// Builds the URL for `opts`, with `default_endpoint` where the options
/// name no endpoint. No request is made.
pub fn generate(default_endpoint: &str, opts: Options) -> (result: Result<String, UrlError>)
    ensures
        result_text(result) == opts@.url(default_endpoint@),
        opts@.path is Some && opts@.src is Some ==> result == Err::<String, UrlError>(
            UrlError::ConflictingInputs,
        ),
{
    if opts.path.is_some() && opts.src.is_some() {
        return Err(UrlError::ConflictingInputs);
    }
    let transformed = match opts.transformation.transform() {
        Ok(transformed) => transformed,
        Err(error) => {
            return Err(error);
        },
    };
    let query = Utils::concat_query_parameters(&opts);
    let endpoint: &str = match &opts.url_endpoint {
        Some(endpoint) => endpoint.as_str(),
        None => default_endpoint,
    };
    match opts.effective_position() {
        TransformationPosition::Path => {
            match &opts.path {
                Some(path) => {
                    let mut url = String::from_str(endpoint);
                    url.append("/tr:");
                    url.append(transformed.as_str());
                    url.append("/");
                    url.append(trim_matches(path.as_str(), '/'));
                    if !query.as_str().is_empty() {
                        url.append("?");
                        url.append(query.as_str());
                    }
                    Ok(url)
                },
                None => Err(UrlError::MissingRequiredField),
            }
        },
        TransformationPosition::Query => {
            let mut url = match &opts.src {
                Some(src) => String::from_str(src.as_str()),
                None => {
                    match &opts.path {
                        Some(path) => {
                            let mut url = String::from_str(endpoint);
                            url.append("/");
                            url.append(path.as_str());
                            url
                        },
                        None => {
                            return Err(UrlError::MissingRequiredField);
                        },
                    }
                },
            };
            url.append("?tr=");
            url.append(transformed.as_str());
            if !query.as_str().is_empty() {
                url.append("&");
                url.append(query.as_str());
            }
            Ok(url)
        },
    }
}

/// What builds the URLs of images: a client that knows the endpoint of
/// its account.
pub trait Url {
    /// The endpoint used where the options name none.
    spec fn default_endpoint(&self) -> Seq<char>;

    /// Builds the URL of an image with its transformation. No request is
    /// made.
    fn url(&self, opts: Options) -> (result: Result<String, UrlError>)
        ensures
            result_text(result) == opts@.url(self.default_endpoint()),
            opts@.path is Some && opts@.src is Some ==> result == Err::<String, UrlError>(
                UrlError::ConflictingInputs,
            ),
    ;
}

impl Url for ImageKit {
    open spec fn default_endpoint(&self) -> Seq<char> {
        self@.url_endpoint
    }

    fn url(&self, opts: Options) -> (result: Result<String, UrlError>) {
        generate(self.url_endpoint(), opts)
    }
}

/// Where the image is named by its path and nothing more is added to the
/// query, the URL is `{endpoint}/tr:{transformation}/{path}` with the
/// slashes around the path stripped, or `{endpoint}/{path}?tr={transformation}`
/// with the path as given, as the position asks.
pub proof fn lemma_placement(opts: OptionsView, default_endpoint: Seq<char>)
    requires
        opts.path is Some,
        opts.src is None,
        opts.query_parameters is None,
        !opts.transformation.is_empty(),
    ensures
        opts.transformation_position == TransformationPosition::Path ==> opts.url(default_endpoint)
            == Ok::<Seq<char>, UrlError>(
            opts.endpoint(default_endpoint) + "/tr:"@ + opts.transformation.rendered() + "/"@
                + trim(opts.path->0, '/'),
        ),
        opts.transformation_position == TransformationPosition::Query ==> opts.url(
            default_endpoint,
        ) == Ok::<Seq<char>, UrlError>(
            opts.endpoint(default_endpoint) + "/"@ + opts.path->0 + "?tr="@
                + opts.transformation.rendered(),
        ),
{
}

/// A source is never rewritten: once one is given, the transformation goes
/// into the query, whatever position the options ask for.
pub proof fn lemma_src_forces_query(
    opts: OptionsView,
    position: TransformationPosition,
    default_endpoint: Seq<char>,
)
    requires
        opts.src is Some,
    ensures
        (OptionsView { transformation_position: position, ..opts }).url(default_endpoint)
            == opts.url(default_endpoint),
        opts.path is None && !opts.transformation.is_empty() ==> opts.url(default_endpoint)
            == Ok::<Seq<char>, UrlError>(
            with_query(opts.src->0 + "?tr="@ + opts.transformation.rendered(), "&"@, opts.query()),
        ),
{
}

} // verus!
