//! The JSON:API error document: its objects, their rendering as text, and
//! their conversion from and to JSON values.
use crate::json::{
    find_member, items_view, lemma_array_view, lemma_member_concat, lemma_member_empty,
    lemma_member_single, lemma_object_view, lookup,
    member, members_view, push_member, Json, JsonView,
};
use crate::errors::{opt_text, Error as ResponseError, ErrorView};
use crate::text::{tidy, tidy_text};
use vstd::prelude::*;
use vstd::string::{StrSliceExecFns, StringExecFns};

verus! {

/// Links that lead to more about an error.
#[derive(PartialEq, Eq, Debug, Clone)]
pub struct Links {
    /// Leads to further details about this occurrence of the problem.
    pub about: Option<String>,
    /// Identifies the type of error that this one is an instance of.
    pub type_: Option<String>,
}

/// References to the primary source of an error.
#[derive(PartialEq, Eq, Debug, Clone)]
pub struct Source {
    /// A JSON Pointer to the value in the request document that caused the error.
    pub pointer: Option<String>,
    /// The URI query parameter that caused the error.
    pub parameter: Option<String>,
    /// The request header that caused the error.
    pub header: Option<String>,
}

/// A JSON:API error object.
#[derive(PartialEq, Eq, Debug, Clone)]
pub struct Error {
    /// The HTTP status code that applies to this problem, as a string.
    pub status: String,
    /// A short, human-readable summary of the problem.
    pub title: String,
    /// A unique identifier for this occurrence of the problem.
    pub id: Option<String>,
    /// An application-specific error code.
    pub code: Option<String>,
    /// A human-readable explanation of this occurrence of the problem.
    pub detail: Option<String>,
    /// Non-standard meta-information about the error.
    pub meta: Option<Json>,
    /// Links that lead to more about the error.
    pub links: Option<Links>,
    /// References to the primary source of the error.
    pub source: Option<Source>,
}

/// A JSON:API failure document: the errors that a server reported, in order.
#[derive(PartialEq, Eq, Debug, Clone)]
pub struct Failure {
    pub errors: Vec<Error>,
}

pub struct LinksView {
    pub about: Option<Seq<char>>,
    pub type_: Option<Seq<char>>,
}

pub struct SourceView {
    pub pointer: Option<Seq<char>>,
    pub parameter: Option<Seq<char>>,
    pub header: Option<Seq<char>>,
}

pub struct ErrorObjectView {
    pub status: Seq<char>,
    pub title: Seq<char>,
    pub id: Option<Seq<char>>,
    pub code: Option<Seq<char>>,
    pub detail: Option<Seq<char>>,
    pub meta: Option<JsonView>,
    pub links: Option<LinksView>,
    pub source: Option<SourceView>,
}

impl View for Links {
    type V = LinksView;

    open spec fn view(&self) -> LinksView {
        LinksView { about: opt_text(self.about), type_: opt_text(self.type_) }
    }
}

impl View for Source {
    type V = SourceView;

    open spec fn view(&self) -> SourceView {
        SourceView {
            pointer: opt_text(self.pointer),
            parameter: opt_text(self.parameter),
            header: opt_text(self.header),
        }
    }
}

impl View for Error {
    type V = ErrorObjectView;

    open spec fn view(&self) -> ErrorObjectView {
        ErrorObjectView {
            status: self.status@,
            title: self.title@,
            id: opt_text(self.id),
            code: opt_text(self.code),
            detail: opt_text(self.detail),
            meta: match self.meta {
                Some(m) => Some(m@),
                None => None,
            },
            links: match self.links {
                Some(l) => Some(l@),
                None => None,
            },
            source: match self.source {
                Some(s) => Some(s@),
                None => None,
            },
        }
    }
}

impl View for Failure {
    type V = Seq<ErrorObjectView>;

    open spec fn view(&self) -> Seq<ErrorObjectView> {
        Seq::new(self.errors.len() as nat, |i: int| self.errors[i]@)
    }
}

impl Default for Links {
    fn default() -> (r: Links)
        ensures
            r.about is None && r.type_ is None,
    {
        Links { about: None, type_: None }
    }
}

impl Default for Source {
    fn default() -> (r: Source)
        ensures
            r.pointer is None && r.parameter is None && r.header is None,
    {
        Source { pointer: None, parameter: None, header: None }
    }
}

/// An error object with the given status and title and nothing else.
pub open spec fn bare_error(status: Seq<char>, title: Seq<char>) -> ErrorObjectView {
    ErrorObjectView {
        status,
        title,
        id: None,
        code: None,
        detail: None,
        meta: None,
        links: None,
        source: None,
    }
}

impl Default for Error {
    fn default() -> (r: Error)
        ensures
            r@ == bare_error(Seq::empty(), Seq::empty()),
    {
        Error {
            status: String::new(),
            title: String::new(),
            id: None,
            code: None,
            detail: None,
            meta: None,
            links: None,
            source: None,
        }
    }
}

impl Default for Failure {
    fn default() -> (r: Failure)
        ensures
            r@ == Seq::<ErrorObjectView>::empty(),
    {
        Failure { errors: Vec::new() }
    }
}

/// How an error object reads: `Error(<status>)`, then `: <title>.` where the
/// tidied title is not empty, then ` <detail>.` where a detail is present;
/// the colon stands whenever either of the two follows.
pub open spec fn render_error(e: ErrorObjectView) -> Seq<char> {
    let t = tidy(e.title);
    "Error("@ + e.status + ")"@ + (if t.len() > 0 || e.detail is Some {
        ":"@
    } else {
        Seq::empty()
    }) + (if t.len() > 0 {
        " "@ + t + "."@
    } else {
        Seq::empty()
    }) + match e.detail {
        Some(d) => " "@ + tidy(d) + "."@,
        None => Seq::empty(),
    }
}

/// The renderings of `es`, in order, separated by a comma and a space.
pub open spec fn join_rendered(es: Seq<ErrorObjectView>) -> Seq<char>
    decreases es.len(),
{
    if es.len() == 0 {
        Seq::empty()
    } else if es.len() == 1 {
        render_error(es[0])
    } else {
        join_rendered(es.drop_last()) + ", "@ + render_error(es.last())
    }
}

/// How a failure document reads.
pub open spec fn render_failure(es: Seq<ErrorObjectView>) -> Seq<char> {
    if es.len() == 0 {
        "No errors."@
    } else {
        "Failure: ["@ + join_rendered(es) + "]"@
    }
}

impl Error {
    /// Renders the error as one line of text.
    pub fn to_string(&self) -> (r: String)
        ensures
            r@ == render_error(self@),
    {
        let title = tidy_text(self.title.as_str());
        let has_title = title.as_str().unicode_len() > 0;
        let mut r = String::from_str("Error(");
        r.append(self.status.as_str());
        r.append(")");
        if has_title || self.detail.is_some() {
            r.append(":");
        }
        if has_title {
            r.append(" ");
            r.append(title.as_str());
            r.append(".");
        }
        match &self.detail {
            Some(d) => {
                let d = tidy_text(d.as_str());
                r.append(" ");
                r.append(d.as_str());
                r.append(".");
            },
            None => {},
        }
        assert(r@ =~= render_error(self@));
        r
    }
}

impl Failure {
    /// Renders the document as one line of text.
    pub fn to_string(&self) -> (r: String)
        ensures
            r@ == render_failure(self@),
    {
        let n = self.errors.len();
        if n == 0 {
            return String::from_str("No errors.");
        }
        let mut r = String::from_str("Failure: [");
        let mut i: usize = 0;
        while i < n
            invariant
                n == self.errors.len(),
                0 < n,
                i <= n,
                r@ == "Failure: ["@ + join_rendered(self@.subrange(0, i as int)),
            decreases n - i,
        {
            if i > 0 {
                r.append(", ");
            }
            let line = self.errors[i].to_string();
            r.append(line.as_str());
            proof {
                let pre = self@.subrange(0, i as int);
                let next = self@.subrange(0, i + 1);
                assert(next.drop_last() =~= pre);
                assert(next.last() == self.errors[i as int]@);
                if i == 0 {
                    assert(pre.len() == 0);
                    assert(join_rendered(pre) =~= Seq::empty());
                }
            }
            i = i + 1;
        }
        assert(self@.subrange(0, n as int) =~= self@);
        r.append("]");
        r
    }
}

/// Rendering depends on the document's contents alone: two documents that
/// hold the same errors render alike, however often they are rendered.
pub proof fn render_is_pure(a: Failure, b: Failure)
    requires
        a@ == b@,
    ensures
        render_failure(a@) == render_failure(b@),
{
}

/// The message for a required member that is missing.
pub open spec fn missing_field(name: Seq<char>) -> Seq<char> {
    "missing field `"@ + name + "`"@
}

/// The message for a member whose value has the wrong type.
pub open spec fn invalid_field(name: Seq<char>) -> Seq<char> {
    "invalid type for field `"@ + name + "`"@
}

/// The message for a value that should be an object and is not.
pub open spec fn not_an_object() -> Seq<char> {
    "invalid type: expected a JSON object"@
}

pub open spec fn opt_view<T: View>(o: Option<T>) -> Option<T::V> {
    match o {
        Some(t) => Some(t@),
        None => None,
    }
}

pub open spec fn res_opt_view<T: View>(r: Result<Option<T>, String>) -> Result<
    Option<T::V>,
    Seq<char>,
> {
    match r {
        Ok(t) => Ok(opt_view(t)),
        Err(m) => Err(m@),
    }
}

pub open spec fn res_view<T: View>(r: Result<T, String>) -> Result<T::V, Seq<char>> {
    match r {
        Ok(t) => Ok(t@),
        Err(m) => Err(m@),
    }
}

/// A required string member.
pub open spec fn decode_text(v: Option<JsonView>, name: Seq<char>) -> Result<Seq<char>, Seq<char>> {
    match v {
        Some(JsonView::String(s)) => Ok(s),
        None => Err(missing_field(name)),
        Some(_) => Err(invalid_field(name)),
    }
}

/// An optional string member: absent or null gives none.
pub open spec fn decode_opt_text(v: Option<JsonView>, name: Seq<char>) -> Result<
    Option<Seq<char>>,
    Seq<char>,
> {
    match v {
        None => Ok(None),
        Some(JsonView::Null) => Ok(None),
        Some(JsonView::String(s)) => Ok(Some(s)),
        Some(_) => Err(invalid_field(name)),
    }
}

/// An optional member of any type: absent or null gives none.
pub open spec fn decode_opt_any(v: Option<JsonView>) -> Option<JsonView> {
    match v {
        Some(JsonView::Null) => None,
        _ => v,
    }
}

/// A links object.
pub open spec fn decode_links(j: JsonView) -> Result<LinksView, Seq<char>> {
    let about = decode_opt_text(lookup(j, "about"@), "about"@);
    let type_ = decode_opt_text(lookup(j, "type"@), "type"@);
    if !(j is Object) {
        Err(not_an_object())
    } else if about is Err {
        Err(about->Err_0)
    } else if type_ is Err {
        Err(type_->Err_0)
    } else {
        Ok(LinksView { about: about->Ok_0, type_: type_->Ok_0 })
    }
}

/// A source object.
pub open spec fn decode_source(j: JsonView) -> Result<SourceView, Seq<char>> {
    let pointer = decode_opt_text(lookup(j, "pointer"@), "pointer"@);
    let parameter = decode_opt_text(lookup(j, "parameter"@), "parameter"@);
    let header = decode_opt_text(lookup(j, "header"@), "header"@);
    if !(j is Object) {
        Err(not_an_object())
    } else if pointer is Err {
        Err(pointer->Err_0)
    } else if parameter is Err {
        Err(parameter->Err_0)
    } else if header is Err {
        Err(header->Err_0)
    } else {
        Ok(SourceView { pointer: pointer->Ok_0, parameter: parameter->Ok_0, header: header->Ok_0 })
    }
}

/// An optional links member: absent or null gives none.
pub open spec fn decode_opt_links(v: Option<JsonView>) -> Result<Option<LinksView>, Seq<char>> {
    match v {
        None => Ok(None),
        Some(JsonView::Null) => Ok(None),
        Some(JsonView::Object(ms)) => match decode_links(JsonView::Object(ms)) {
            Ok(l) => Ok(Some(l)),
            Err(m) => Err(m),
        },
        Some(_) => Err(invalid_field("links"@)),
    }
}

/// An optional source member: absent or null gives none.
pub open spec fn decode_opt_source(v: Option<JsonView>) -> Result<Option<SourceView>, Seq<char>> {
    match v {
        None => Ok(None),
        Some(JsonView::Null) => Ok(None),
        Some(JsonView::Object(ms)) => match decode_source(JsonView::Object(ms)) {
            Ok(s) => Ok(Some(s)),
            Err(m) => Err(m),
        },
        Some(_) => Err(invalid_field("source"@)),
    }
}

/// An error object. Members other than those of the schema are ignored; the
/// first member that does not fit, in the order of the schema, gives the
/// message.
pub open spec fn decode_error(j: JsonView) -> Result<ErrorObjectView, Seq<char>> {
    let status = decode_text(lookup(j, "status"@), "status"@);
    let title = decode_text(lookup(j, "title"@), "title"@);
    let id = decode_opt_text(lookup(j, "id"@), "id"@);
    let code = decode_opt_text(lookup(j, "code"@), "code"@);
    let detail = decode_opt_text(lookup(j, "detail"@), "detail"@);
    let links = decode_opt_links(lookup(j, "links"@));
    let source = decode_opt_source(lookup(j, "source"@));
    if !(j is Object) {
        Err(not_an_object())
    } else if status is Err {
        Err(status->Err_0)
    } else if title is Err {
        Err(title->Err_0)
    } else if id is Err {
        Err(id->Err_0)
    } else if code is Err {
        Err(code->Err_0)
    } else if detail is Err {
        Err(detail->Err_0)
    } else if links is Err {
        Err(links->Err_0)
    } else if source is Err {
        Err(source->Err_0)
    } else {
        Ok(
            ErrorObjectView {
                status: status->Ok_0,
                title: title->Ok_0,
                id: id->Ok_0,
                code: code->Ok_0,
                detail: detail->Ok_0,
                meta: decode_opt_any(lookup(j, "meta"@)),
                links: links->Ok_0,
                source: source->Ok_0,
            },
        )
    }
}

/// A sequence of error objects; the first that does not fit gives the message.
pub open spec fn decode_errors(items: Seq<JsonView>) -> Result<Seq<ErrorObjectView>, Seq<char>>
    decreases items.len(),
{
    if items.len() == 0 {
        Ok(Seq::empty())
    } else {
        match decode_errors(items.drop_last()) {
            Err(m) => Err(m),
            Ok(es) => match decode_error(items.last()) {
                Err(m) => Err(m),
                Ok(e) => Ok(es.push(e)),
            },
        }
    }
}

/// A failure document: an object whose `errors` member is an array of error
/// objects.
pub open spec fn decode_failure(j: JsonView) -> Result<Seq<ErrorObjectView>, Seq<char>> {
    if !(j is Object) {
        Err(not_an_object())
    } else {
        match lookup(j, "errors"@) {
            None => Err(missing_field("errors"@)),
            Some(JsonView::Array(items)) => decode_errors(items),
            Some(_) => Err(invalid_field("errors"@)),
        }
    }
}

fn field_message(lead: &str, name: &str) -> (r: String)
    ensures
        r@ == lead@ + name@ + "`"@,
{
    let mut r = String::from_str(lead);
    r.append(name);
    r.append("`");
    r
}

fn missing_message(name: &str) -> (r: String)
    ensures
        r@ == missing_field(name@),
{
    field_message("missing field `", name)
}

fn invalid_message(name: &str) -> (r: String)
    ensures
        r@ == invalid_field(name@),
{
    field_message("invalid type for field `", name)
}

fn text_member(j: &Json, name: &str) -> (r: Result<String, String>)
    ensures
        res_view(r) == decode_text(lookup(j@, name@), name@),
{
    match find_member(j, name) {
        Some(Json::String(s)) => Ok(s.clone()),
        None => Err(missing_message(name)),
        Some(_) => Err(invalid_message(name)),
    }
}

fn opt_text_member(j: &Json, name: &str) -> (r: Result<Option<String>, String>)
    ensures
        res_opt_view(r) == decode_opt_text(lookup(j@, name@), name@),
{
    match find_member(j, name) {
        None => Ok(None),
        Some(Json::Null) => Ok(None),
        Some(Json::String(s)) => Ok(Some(s.clone())),
        Some(_) => Err(invalid_message(name)),
    }
}

impl Links {
    /// Reads a links object.
    pub fn from_json(j: &Json) -> (r: Result<Links, String>)
        ensures
            res_view(r) == decode_links(j@),
    {
        if !matches!(j, Json::Object(_)) {
            return Err(String::from_str("invalid type: expected a JSON object"));
        }
        let about = match opt_text_member(j, "about") {
            Ok(v) => v,
            Err(m) => return Err(m),
        };
        let type_ = match opt_text_member(j, "type") {
            Ok(v) => v,
            Err(m) => return Err(m),
        };
        Ok(Links { about, type_ })
    }
}

impl Source {
    /// Reads a source object.
    pub fn from_json(j: &Json) -> (r: Result<Source, String>)
        ensures
            res_view(r) == decode_source(j@),
    {
        if !matches!(j, Json::Object(_)) {
            return Err(String::from_str("invalid type: expected a JSON object"));
        }
        let pointer = match opt_text_member(j, "pointer") {
            Ok(v) => v,
            Err(m) => return Err(m),
        };
        let parameter = match opt_text_member(j, "parameter") {
            Ok(v) => v,
            Err(m) => return Err(m),
        };
        let header = match opt_text_member(j, "header") {
            Ok(v) => v,
            Err(m) => return Err(m),
        };
        Ok(Source { pointer, parameter, header })
    }
}

fn links_member(j: &Json) -> (r: Result<Option<Links>, String>)
    ensures
        res_opt_view(r) == decode_opt_links(lookup(j@, "links"@)),
{
    match find_member(j, "links") {
        None => Ok(None),
        Some(Json::Null) => Ok(None),
        Some(v) => {
            if matches!(v, Json::Object(_)) {
                match Links::from_json(v) {
                    Ok(l) => Ok(Some(l)),
                    Err(m) => Err(m),
                }
            } else {
                Err(invalid_message("links"))
            }
        },
    }
}

fn source_member(j: &Json) -> (r: Result<Option<Source>, String>)
    ensures
        res_opt_view(r) == decode_opt_source(lookup(j@, "source"@)),
{
    match find_member(j, "source") {
        None => Ok(None),
        Some(Json::Null) => Ok(None),
        Some(v) => {
            if matches!(v, Json::Object(_)) {
                match Source::from_json(v) {
                    Ok(s) => Ok(Some(s)),
                    Err(m) => Err(m),
                }
            } else {
                Err(invalid_message("source"))
            }
        },
    }
}

fn meta_member(j: &Json) -> (r: Option<Json>)
    ensures
        opt_view(r) == decode_opt_any(lookup(j@, "meta"@)),
{
    match find_member(j, "meta") {
        None => None,
        Some(Json::Null) => None,
        Some(v) => Some(v.clone()),
    }
}

impl Error {
    /// Reads an error object.
    pub fn from_json(j: &Json) -> (r: Result<Error, String>)
        ensures
            res_view(r) == decode_error(j@),
    {
        if !matches!(j, Json::Object(_)) {
            return Err(String::from_str("invalid type: expected a JSON object"));
        }
        let status = match text_member(j, "status") {
            Ok(v) => v,
            Err(m) => return Err(m),
        };
        let title = match text_member(j, "title") {
            Ok(v) => v,
            Err(m) => return Err(m),
        };
        let id = match opt_text_member(j, "id") {
            Ok(v) => v,
            Err(m) => return Err(m),
        };
        let code = match opt_text_member(j, "code") {
            Ok(v) => v,
            Err(m) => return Err(m),
        };
        let detail = match opt_text_member(j, "detail") {
            Ok(v) => v,
            Err(m) => return Err(m),
        };
        let links = match links_member(j) {
            Ok(v) => v,
            Err(m) => return Err(m),
        };
        let source = match source_member(j) {
            Ok(v) => v,
            Err(m) => return Err(m),
        };
        let meta = meta_member(j);
        Ok(Error { status, title, id, code, detail, meta, links, source })
    }
}

impl Failure {
    /// Reads a failure document.
    pub fn from_json(j: &Json) -> (r: Result<Failure, String>)
        ensures
            res_view(r) == decode_failure(j@),
    {
        if !matches!(j, Json::Object(_)) {
            return Err(String::from_str("invalid type: expected a JSON object"));
        }
        let items = match find_member(j, "errors") {
            None => return Err(missing_message("errors")),
            Some(Json::Array(items)) => items,
            Some(_) => return Err(invalid_message("errors")),
        };
        let ghost all = lookup(j@, "errors"@)->Some_0->Array_0;
        let mut errors: Vec<Error> = Vec::new();
        assert((Failure { errors })@ =~= Seq::<ErrorObjectView>::empty());
        assert(all.subrange(0, 0) =~= Seq::<JsonView>::empty());
        let mut i: usize = 0;
        while i < items.len()
            invariant
                i <= items.len(),
                all == Json::Array(*items)@->Array_0,
                j@ is Object,
                lookup(j@, "errors"@) == Some(JsonView::Array(all)),
                errors.len() == i,
                decode_errors(all.subrange(0, i as int)) == Ok::<Seq<ErrorObjectView>, Seq<char>>(
                    (Failure { errors })@,
                ),
            decreases items.len() - i,
        {
            let e = match Error::from_json(&items[i]) {
                Ok(e) => e,
                Err(m) => {
                    proof {
                        let pre = all.subrange(0, i + 1);
                        assert(pre.drop_last() =~= all.subrange(0, i as int));
                        assert(pre.last() == items[i as int]@);
                        assert(decode_error(pre.last()) == Err::<ErrorObjectView, Seq<char>>(m@));
                        assert(decode_errors(pre) == Err::<Seq<ErrorObjectView>, Seq<char>>(m@));
                        lemma_decode_errors_fails_after(all, i as int + 1);
                        assert(decode_errors(all) == Err::<Seq<ErrorObjectView>, Seq<char>>(m@));
                    }
                    return Err(m);
                },
            };
            let ghost before = (Failure { errors })@;
            errors.push(e);
            proof {
                let pre = all.subrange(0, i + 1);
                assert(pre.drop_last() =~= all.subrange(0, i as int));
                assert(pre.last() == items[i as int]@);
                assert((Failure { errors })@ =~= before.push(e@));
            }
            i = i + 1;
        }
        assert(all.subrange(0, items.len() as int) =~= all);
        Ok(Failure { errors })
    }
}

/// Once a prefix of `items` fails to decode, so does the whole sequence, with
/// the same message.
proof fn lemma_decode_errors_fails_after(items: Seq<JsonView>, n: int)
    requires
        0 <= n <= items.len(),
        decode_errors(items.subrange(0, n)) is Err,
    ensures
        decode_errors(items) == decode_errors(items.subrange(0, n)),
    decreases items.len() - n,
{
    if n < items.len() {
        let next = items.subrange(0, n + 1);
        assert(next.drop_last() =~= items.subrange(0, n));
        lemma_decode_errors_fails_after(items, n + 1);
    } else {
        assert(items.subrange(0, n) =~= items);
    }
}

/// The member `name` holding the string `v`, where `v` is present.
pub open spec fn opt_member(name: Seq<char>, v: Option<Seq<char>>) -> Seq<(Seq<char>, JsonView)> {
    match v {
        Some(s) => seq![(name, JsonView::String(s))],
        None => Seq::empty(),
    }
}

/// A links object written as JSON: only the links that are present.
pub open spec fn links_json(l: LinksView) -> JsonView {
    JsonView::Object(opt_member("about"@, l.about) + opt_member("type"@, l.type_))
}

/// A source object written as JSON: only the references that are present.
pub open spec fn source_json(s: SourceView) -> JsonView {
    JsonView::Object(
        opt_member("pointer"@, s.pointer) + opt_member("parameter"@, s.parameter) + opt_member(
            "header"@,
            s.header,
        ),
    )
}

/// An error object written as JSON: status and title, then each optional
/// member that is present, in the order of the schema.
pub open spec fn error_json(e: ErrorObjectView) -> JsonView {
    JsonView::Object(
        seq![("status"@, JsonView::String(e.status)), ("title"@, JsonView::String(e.title))]
            + opt_member("id"@, e.id) + opt_member("code"@, e.code) + opt_member(
            "detail"@,
            e.detail,
        ) + match e.meta {
            Some(m) => seq![("meta"@, m)],
            None => Seq::empty(),
        } + match e.links {
            Some(l) => seq![("links"@, links_json(l))],
            None => Seq::empty(),
        } + match e.source {
            Some(s) => seq![("source"@, source_json(s))],
            None => Seq::empty(),
        },
    )
}

/// A failure document written as JSON.
pub open spec fn failure_json(es: Seq<ErrorObjectView>) -> JsonView {
    JsonView::Object(seq![("errors"@, JsonView::Array(es.map_values(|e| error_json(e))))])
}

fn push_opt_text(ms: &mut Vec<(String, Json)>, name: &str, v: &Option<String>)
    ensures
        members_view(final(ms)@) == members_view(old(ms)@) + opt_member(name@, opt_text(*v)),
{
    match v {
        Some(s) => {
            push_member(ms, name, Json::String(s.clone()));
            assert(members_view(ms@) =~= members_view(old(ms)@) + opt_member(name@, opt_text(*v)));
        },
        None => {
            assert(members_view(ms@) =~= members_view(old(ms)@) + opt_member(name@, opt_text(*v)));
        },
    }
}

impl Links {
    /// Writes the links as a JSON object.
    pub fn to_json(&self) -> (r: Json)
        ensures
            r@ == links_json(self@),
    {
        let mut ms: Vec<(String, Json)> = Vec::new();
        assert(members_view(ms@) =~= Seq::empty());
        push_opt_text(&mut ms, "about", &self.about);
        push_opt_text(&mut ms, "type", &self.type_);
        proof {
            lemma_object_view(ms);
            assert(members_view(ms@) =~= opt_member("about"@, self@.about) + opt_member(
                "type"@,
                self@.type_,
            ));
        }
        Json::Object(ms)
    }
}

impl Source {
    /// Writes the source as a JSON object.
    pub fn to_json(&self) -> (r: Json)
        ensures
            r@ == source_json(self@),
    {
        let mut ms: Vec<(String, Json)> = Vec::new();
        assert(members_view(ms@) =~= Seq::empty());
        push_opt_text(&mut ms, "pointer", &self.pointer);
        push_opt_text(&mut ms, "parameter", &self.parameter);
        push_opt_text(&mut ms, "header", &self.header);
        proof {
            lemma_object_view(ms);
            assert(members_view(ms@) =~= opt_member("pointer"@, self@.pointer) + opt_member(
                "parameter"@,
                self@.parameter,
            ) + opt_member("header"@, self@.header));
        }
        Json::Object(ms)
    }
}

impl Error {
    /// Writes the error object as JSON, leaving out every optional member
    /// that is absent.
    pub fn to_json(&self) -> (r: Json)
        ensures
            r@ == error_json(self@),
    {
        let mut ms: Vec<(String, Json)> = Vec::new();
        assert(members_view(ms@) =~= Seq::empty());
        push_member(&mut ms, "status", Json::String(self.status.clone()));
        push_member(&mut ms, "title", Json::String(self.title.clone()));
        let ghost head = members_view(ms@);
        push_opt_text(&mut ms, "id", &self.id);
        push_opt_text(&mut ms, "code", &self.code);
        push_opt_text(&mut ms, "detail", &self.detail);
        let ghost texts = members_view(ms@);
        match &self.meta {
            Some(m) => push_member(&mut ms, "meta", m.clone()),
            None => {},
        }
        let ghost with_meta = members_view(ms@);
        assert(with_meta =~= texts + match self@.meta {
            Some(m) => seq![("meta"@, m)],
            None => Seq::empty(),
        });
        match &self.links {
            Some(l) => push_member(&mut ms, "links", l.to_json()),
            None => {},
        }
        let ghost with_links = members_view(ms@);
        assert(with_links =~= with_meta + match self@.links {
            Some(l) => seq![("links"@, links_json(l))],
            None => Seq::empty(),
        });
        match &self.source {
            Some(s) => push_member(&mut ms, "source", s.to_json()),
            None => {},
        }
        proof {
            assert(members_view(ms@) =~= with_links + match self@.source {
                Some(s) => seq![("source"@, source_json(s))],
                None => Seq::empty(),
            });
            assert(head =~= seq![
                ("status"@, JsonView::String(self@.status)),
                ("title"@, JsonView::String(self@.title)),
            ]);
            lemma_object_view(ms);
            assert(JsonView::Object(members_view(ms@)) =~~= error_json(self@));
        }
        Json::Object(ms)
    }
}

impl Failure {
    /// Writes the failure document as JSON.
    pub fn to_json(&self) -> (r: Json)
        ensures
            r@ == failure_json(self@),
    {
        let mut items: Vec<Json> = Vec::new();
        let mut i: usize = 0;
        while i < self.errors.len()
            invariant
                i <= self.errors.len(),
                items_view(items@) == self@.subrange(0, i as int).map_values(|e| error_json(e)),
            decreases self.errors.len() - i,
        {
            let item = self.errors[i].to_json();
            let ghost before = items_view(items@);
            items.push(item);
            assert(items_view(items@) =~= before.push(item@));
            assert(self@.subrange(0, i + 1).map_values(|e| error_json(e)) =~= self@.subrange(
                0,
                i as int,
            ).map_values(|e| error_json(e)).push(error_json(self@[i as int])));
            i = i + 1;
        }
        assert(self@.subrange(0, i as int) =~= self@);
        proof {
            lemma_array_view(items);
        }
        let mut ms: Vec<(String, Json)> = Vec::new();
        assert(members_view(ms@) =~= Seq::empty());
        push_member(&mut ms, "errors", Json::Array(items));
        proof {
            lemma_object_view(ms);
            assert(members_view(ms@) =~= seq![
                ("errors"@, JsonView::Array(self@.map_values(|e| error_json(e)))),
            ]);
        }
        Json::Object(ms)
    }
}

/// The failure document that a response error converts to: the document that
/// its body holds, or one synthetic error object where the body is no such
/// document or there is no body.
pub open spec fn conversion_outcome(e: ErrorView) -> Seq<ErrorObjectView> {
    match e.body {
        Some(b) => match decode_failure(b) {
            Ok(es) => es,
            Err(m) => seq![bare_error("400"@, m)],
        },
        None => seq![
            bare_error(
                match e.status {
                    Some(s) => s,
                    None => "400"@,
                },
                e.canonical_reason,
            ),
        ],
    }
}

fn bare(status: String, title: String) -> (r: Failure)
    ensures
        r@ == seq![bare_error(status@, title@)],
{
    let mut errors: Vec<Error> = Vec::new();
    errors.push(
        Error {
            status,
            title,
            id: None,
            code: None,
            detail: None,
            meta: None,
            links: None,
            source: None,
        },
    );
    let r = Failure { errors };
    assert(r@ =~= seq![bare_error(status@, title@)]);
    r
}

impl Failure {
    /// Converts a response error into a failure document. A document only
    /// carries errors, so it always comes back as the error of the conversion.
    pub fn try_from(value: ResponseError) -> (r: Result<Failure, Failure>)
        ensures
            r is Err,
            r->Err_0@ == conversion_outcome(value@),
    {
        let ResponseError::Response { canonical_reason, status, body } = value;
        match body {
            Some(b) => match Failure::from_json(&b) {
                Ok(f) => Err(f),
                Err(m) => Err(bare(String::from_str("400"), m)),
            },
            None => {
                let status = match status {
                    Some(s) => s,
                    None => String::from_str("400"),
                };
                Err(bare(status, canonical_reason))
            },
        }
    }
}

/// A member that was given a value other than null.
pub open spec fn given(v: Option<JsonView>) -> bool {
    v is Some && v != Some(JsonView::Null)
}

proof fn lemma_keys_differ()
    ensures
        "status"@ != "title"@ && "status"@ != "id"@ && "status"@ != "code"@ && "status"@
            != "detail"@ && "status"@ != "meta"@ && "status"@ != "links"@ && "status"@
            != "source"@,
        "title"@ != "id"@ && "title"@ != "code"@ && "title"@ != "detail"@ && "title"@
            != "meta"@ && "title"@ != "links"@ && "title"@ != "source"@,
        "id"@ != "code"@ && "id"@ != "detail"@ && "id"@ != "meta"@ && "id"@ != "links"@
            && "id"@ != "source"@,
        "code"@ != "detail"@ && "code"@ != "meta"@ && "code"@ != "links"@ && "code"@
            != "source"@,
        "detail"@ != "meta"@ && "detail"@ != "links"@ && "detail"@ != "source"@,
        "meta"@ != "links"@ && "meta"@ != "source"@,
        "links"@ != "source"@,
{
    reveal_strlit("status");
    reveal_strlit("title");
    reveal_strlit("id");
    reveal_strlit("code");
    reveal_strlit("detail");
    reveal_strlit("meta");
    reveal_strlit("links");
    reveal_strlit("source");
    assert("status"@[0] == 's' && "title"@[0] == 't' && "id"@[0] == 'i' && "code"@[0] == 'c');
    assert("detail"@[0] == 'd' && "meta"@[0] == 'm' && "links"@[0] == 'l' && "source"@[0]
        == 's');
    assert("status"@[1] == 't' && "source"@[1] == 'o');
}

/// Reading an error object from JSON and writing it back gives status and
/// title, gives each optional member exactly where the input held it with a
/// value other than null, and gives no null member: an absent optional field
/// is left out, not written as null.
pub proof fn reserialized_omits_absent(j: JsonView)
    requires
        decode_error(j) is Ok,
    ensures
        ({
            let out = error_json(decode_error(j)->Ok_0);
            &&& lookup(out, "status"@) is Some
            &&& lookup(out, "title"@) is Some
            &&& (lookup(out, "id"@) is Some <==> given(lookup(j, "id"@)))
            &&& (lookup(out, "code"@) is Some <==> given(lookup(j, "code"@)))
            &&& (lookup(out, "detail"@) is Some <==> given(lookup(j, "detail"@)))
            &&& (lookup(out, "meta"@) is Some <==> given(lookup(j, "meta"@)))
            &&& (lookup(out, "links"@) is Some <==> given(lookup(j, "links"@)))
            &&& (lookup(out, "source"@) is Some <==> given(lookup(j, "source"@)))
            &&& forall|i: int|
                0 <= i < out->Object_0.len() ==> (#[trigger] out->Object_0[i]).1 != JsonView::Null
        }),
{
    broadcast use {lemma_member_concat, lemma_member_single, lemma_member_empty};

    lemma_keys_differ();
    let e = decode_error(j)->Ok_0;
    let head = seq![("status"@, JsonView::String(e.status)), ("title"@, JsonView::String(e.title))];
    assert(head =~= seq![("status"@, JsonView::String(e.status))] + seq![
        ("title"@, JsonView::String(e.title)),
    ]);
}

proof fn lemma_inner_keys_differ()
    ensures
        "about"@ != "type"@,
        "pointer"@ != "parameter"@ && "pointer"@ != "header"@ && "parameter"@ != "header"@,
{
    reveal_strlit("about");
    reveal_strlit("type");
    reveal_strlit("pointer");
    reveal_strlit("parameter");
    reveal_strlit("header");
    assert("about"@[0] == 'a' && "type"@[0] == 't');
    assert("pointer"@[1] == 'o' && "parameter"@[1] == 'a' && "header"@[0] == 'h');
    assert("pointer"@[0] == 'p');
}

/// The member that an optional string becomes.
pub open spec fn text_value(v: Option<Seq<char>>) -> Option<JsonView> {
    match v {
        Some(s) => Some(JsonView::String(s)),
        None => None,
    }
}

proof fn lemma_links_read_back(l: LinksView)
    ensures
        decode_links(links_json(l)) == Ok::<LinksView, Seq<char>>(l),
{
    broadcast use {lemma_member_concat, lemma_member_single, lemma_member_empty};

    lemma_inner_keys_differ();
    assert(lookup(links_json(l), "about"@) == text_value(l.about));
    assert(lookup(links_json(l), "type"@) == text_value(l.type_));
}

proof fn lemma_source_read_back(s: SourceView)
    ensures
        decode_source(source_json(s)) == Ok::<SourceView, Seq<char>>(s),
{
    broadcast use {lemma_member_concat, lemma_member_single, lemma_member_empty};

    lemma_inner_keys_differ();
    assert(lookup(source_json(s), "pointer"@) == text_value(s.pointer));
    assert(lookup(source_json(s), "parameter"@) == text_value(s.parameter));
    assert(lookup(source_json(s), "header"@) == text_value(s.header));
}

#[verifier::rlimit(40)]
proof fn lemma_error_json_members(e: ErrorObjectView)
    ensures
        lookup(error_json(e), "status"@) == Some(JsonView::String(e.status)),
        lookup(error_json(e), "title"@) == Some(JsonView::String(e.title)),
        lookup(error_json(e), "id"@) == text_value(e.id),
        lookup(error_json(e), "code"@) == text_value(e.code),
        lookup(error_json(e), "detail"@) == text_value(e.detail),
        lookup(error_json(e), "meta"@) == e.meta,
        lookup(error_json(e), "links"@) == match e.links {
            Some(l) => Some(links_json(l)),
            None => None::<JsonView>,
        },
        lookup(error_json(e), "source"@) == match e.source {
            Some(s) => Some(source_json(s)),
            None => None::<JsonView>,
        },
{
    broadcast use {lemma_member_concat, lemma_member_single, lemma_member_empty};

    lemma_keys_differ();
    let head = seq![("status"@, JsonView::String(e.status)), ("title"@, JsonView::String(e.title))];
    assert(head =~= seq![("status"@, JsonView::String(e.status))] + seq![
        ("title"@, JsonView::String(e.title)),
    ]);
}

/// Writing an error object as JSON and reading it back gives the same object,
/// unless its meta-information is JSON null, which reads back as absent.
pub proof fn written_error_reads_back(e: ErrorObjectView)
    requires
        e.meta != Some(JsonView::Null),
    ensures
        decode_error(error_json(e)) == Ok::<ErrorObjectView, Seq<char>>(e),
{
    lemma_error_json_members(e);
    if let Some(l) = e.links {
        lemma_links_read_back(l);
    }
    if let Some(src) = e.source {
        lemma_source_read_back(src);
    }
}

} // verus!
