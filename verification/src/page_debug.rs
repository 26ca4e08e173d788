//! The diagnostic report on the page endpoints: which endpoints are asked,
//! how they are asked, and the text that sums up what each one answered.
use vstd::prelude::*;
use crate::json::{
    JsonValue, array_field, field, member_names, text_field,
};
use crate::text::{
    bool_text, debug_quoted, decimal, pad_right, push_bool, push_debug_quoted, push_decimal,
    push_padded,
};

verus! {

/// Why a command could not run.
#[derive(Clone, Copy, Debug, PartialEq, Eq, Structural)]
pub enum CommandError {
    /// No user is signed in.
    NotAuthenticated,
}

/// The access token to send, or `NotAuthenticated` when no user is signed in.
pub fn require_access_token(token: Option<String>) -> (result: Result<String, CommandError>)
    ensures
        match token {
            Some(t) => result == Ok::<String, CommandError>(t),
            None => result == Err::<String, CommandError>(CommandError::NotAuthenticated),
        },
{
    match token {
        Some(t) => Ok(t),
        None => Err(CommandError::NotAuthenticated),
    }
}

/// The endpoints that the report covers, in order.
pub open spec fn report_endpoints() -> Seq<Seq<char>> {
    seq![
        "pages/home"@,
        "pages/for_you"@,
        "pages/my_collection_recently_played"@,
        "pages/my_collection_my_mixes"@,
        "pages/explore"@,
        "pages/suggested_new_tracks_for_you"@,
        "pages/suggested_new_albums_for_you"@,
        "pages/show/essential_album"@,
    ]
}

/// The endpoints that the report covers, in order.
pub fn debug_endpoints() -> (endpoints: Vec<&'static str>)
    ensures
        endpoints@.map_values(|e: &str| e@) == report_endpoints(),
{
    let endpoints = vec![
        "pages/home",
        "pages/for_you",
        "pages/my_collection_recently_played",
        "pages/my_collection_my_mixes",
        "pages/explore",
        "pages/suggested_new_tracks_for_you",
        "pages/suggested_new_albums_for_you",
        "pages/show/essential_album",
    ];
    assert(endpoints@.map_values(|e: &str| e@) =~= report_endpoints());
    endpoints
}

/// The address of an endpoint of the service.
pub fn endpoint_url(endpoint: &str) -> (url: String)
    ensures
        url@ == "https://api.tidal.com/v1/"@ + endpoint@,
{
    let mut url = String::from_str("https://api.tidal.com/v1/");
    url.append(endpoint);
    url
}

/// The value of the `Authorization` header for an access token.
pub fn bearer_authorization(token: &str) -> (header: String)
    ensures
        header@ == "Bearer "@ + token@,
{
    let mut header = String::from_str("Bearer ");
    header.append(token);
    header
}

/// The query parameters sent with every request of the report.
pub fn debug_query() -> (query: Vec<(&'static str, &'static str)>)
    ensures
        query@.len() == 3,
        query@[0].0@ == "countryCode"@ && query@[0].1@ == "US"@,
        query@[1].0@ == "deviceType"@ && query@[1].1@ == "BROWSER"@,
        query@[2].0@ == "locale"@ && query@[2].1@ == "en_US"@,
{
    vec![("countryCode", "US"), ("deviceType", "BROWSER"), ("locale", "en_US")]
}

/// The reason phrase that an HTTP status line shows after the code: the
/// canonical reason of the code, or a placeholder for a code that has none.
pub uninterp spec fn status_reason(code: u16) -> Seq<char>;

/// `reqwest::StatusCode::is_success`: the code is within 200-299.
#[verifier::external_body]
fn status_code_success(code: u16) -> (success: bool)
    requires
        100 <= code <= 999,
    ensures
        success == (200 <= code < 300),
{
    match reqwest::StatusCode::from_u16(code) {
        Ok(status) => status.is_success(),
        Err(_) => false,
    }
}

/// `Display` of `reqwest::StatusCode`: the code in decimal, a space, and the
/// reason phrase, which this contract only names ([`status_reason`]).
#[verifier::external_body]
fn status_code_text(code: u16) -> (text: String)
    requires
        100 <= code <= 999,
    ensures
        text@ == decimal(code as nat) + " "@ + status_reason(code),
{
    match reqwest::StatusCode::from_u16(code) {
        Ok(status) => status.to_string(),
        Err(_) => String::new(),
    }
}

/// Whether an HTTP status code says that the request succeeded, in which
/// case its body is read and decoded for the report.
pub fn status_is_success(code: u16) -> (success: bool)
    requires
        100 <= code <= 999,
    ensures
        success == (200 <= code < 300),
{
    status_code_success(code)
}

/// What came of asking one endpoint.
#[derive(Debug)]
pub enum EndpointResult {
    /// The request could not be sent or answered; the error as displayed.
    FetchError(String),
    /// The answer's status was no success.
    HttpError(u16),
    /// The body was no JSON; the decoder's error as displayed.
    ParseError(String),
    /// The decoded body.
    Document(JsonValue),
}

/// One endpoint and what came of asking it.
#[derive(Debug)]
pub struct EndpointReport {
    pub endpoint: String,
    pub result: EndpointResult,
}

/// The text found, or `default`.
pub open spec fn text_or(found: Option<Seq<char>>, default: Seq<char>) -> Seq<char> {
    match found {
        Some(t) => t,
        None => default,
    }
}

/// The number of elements found, or 0.
pub open spec fn count_or_zero(found: Option<Seq<JsonValue>>) -> nat {
    match found {
        Some(a) => a.len(),
        None => 0,
    }
}

/// The number of items of a module: those of its paged list, else its
/// highlights, else 0.
pub open spec fn module_item_count(module: JsonValue) -> nat {
    let paged = match field(module, "pagedList"@) {
        Some(list) => array_field(list, "items"@),
        None => None,
    };
    match paged {
        Some(items) => items.len(),
        None => count_or_zero(array_field(module, "highlights"@)),
    }
}

/// The line of the report on a module of row `row`.
pub open spec fn module_line(row: nat, module: JsonValue) -> Seq<char> {
    "    Row "@ + decimal(row) + ": type="@ + pad_right(
        text_or(text_field(module, "type"@), "?"@),
        30,
    ) + " title=\""@ + text_or(text_field(module, "title"@), "(no title)"@) + "\" items="@
        + decimal(module_item_count(module)) + " more="@ + bool_text(
        field(module, "showMore"@) is Some,
    ) + "\n"@
}

/// The lines on the first `n` modules of row `row`.
pub open spec fn module_lines(row: nat, modules: Seq<JsonValue>, n: nat) -> Seq<char>
    decreases n,
{
    if n == 0 || n > modules.len() {
        Seq::empty()
    } else {
        module_lines(row, modules, (n - 1) as nat) + module_line(row, modules[n - 1])
    }
}

/// The lines on the modules of row number `index`.
pub open spec fn row_lines(index: nat, row: JsonValue) -> Seq<char> {
    match array_field(row, "modules"@) {
        Some(modules) => module_lines(index, modules, modules.len()),
        None => Seq::empty(),
    }
}

/// The lines on the first `n` rows.
pub open spec fn rows_lines(rows: Seq<JsonValue>, n: nat) -> Seq<char>
    decreases n,
{
    if n == 0 || n > rows.len() {
        Seq::empty()
    } else {
        rows_lines(rows, (n - 1) as nat) + row_lines((n - 1) as nat, rows[n - 1])
    }
}

/// The part of the report on a page laid out in rows of modules.
pub open spec fn rows_part(doc: JsonValue) -> Seq<char> {
    match array_field(doc, "rows"@) {
        Some(rows) => "  FORMAT: V1 (rows), "@ + decimal(rows.len()) + " rows\n"@ + rows_lines(
            rows,
            rows.len(),
        ),
        None => Seq::empty(),
    }
}

/// The title of a section: its own, else that of its title text, else a
/// placeholder.
pub open spec fn section_title(section: JsonValue) -> Seq<char> {
    match text_field(section, "title"@) {
        Some(t) => t,
        None => match field(section, "titleTextInfo"@) {
            Some(info) => text_or(text_field(info, "text"@), "(no title)"@),
            None => "(no title)"@,
        },
    }
}

/// The type of the first item of a section, or `?`.
pub open spec fn first_item_type(section: JsonValue) -> Seq<char> {
    match array_field(section, "items"@) {
        Some(items) => if items.len() > 0 {
            text_or(text_field(items[0], "type"@), "?"@)
        } else {
            "?"@
        },
        None => "?"@,
    }
}

/// The line of the report on section number `index`.
pub open spec fn section_line(index: nat, section: JsonValue) -> Seq<char> {
    "    Sec "@ + decimal(index) + ": type="@ + pad_right(
        text_or(text_field(section, "type"@), "?"@),
        35,
    ) + " title=\""@ + section_title(section) + "\" items="@ + decimal(
        count_or_zero(array_field(section, "items"@)),
    ) + " first="@ + first_item_type(section) + " more="@ + bool_text(
        field(section, "viewAll"@) is Some || field(section, "showMore"@) is Some,
    ) + "\n"@
}

/// The lines on the first `n` sections.
pub open spec fn section_lines(sections: Seq<JsonValue>, n: nat) -> Seq<char>
    decreases n,
{
    if n == 0 || n > sections.len() {
        Seq::empty()
    } else {
        section_lines(sections, (n - 1) as nat) + section_line((n - 1) as nat, sections[n - 1])
    }
}

/// The part of the report on a page laid out in sections.
pub open spec fn sections_part(doc: JsonValue) -> Seq<char> {
    match array_field(doc, "items"@) {
        Some(sections) => "  FORMAT: V2 (items), "@ + decimal(sections.len()) + " sections\n"@
            + section_lines(sections, sections.len()),
        None => Seq::empty(),
    }
}

/// The first `n` names, each as `Debug` writes a string, separated by `, `.
pub open spec fn quoted_names(names: Seq<Seq<char>>, n: nat) -> Seq<char>
    decreases n,
{
    if n == 0 || n > names.len() {
        Seq::empty()
    } else if n == 1 {
        debug_quoted(names[0])
    } else {
        quoted_names(names, (n - 1) as nat) + ", "@ + debug_quoted(names[n - 1])
    }
}

/// The names as `Debug` writes a list of strings.
pub open spec fn names_list(names: Seq<Seq<char>>) -> Seq<char> {
    "["@ + quoted_names(names, names.len()) + "]"@
}

/// The part of the report on a decoded answer.
pub open spec fn document_part(doc: JsonValue) -> Seq<char> {
    "  Top-level keys: "@ + names_list(member_names(doc)) + "\n"@ + rows_part(doc)
        + sections_part(doc)
}

/// The part of the report on one endpoint.
pub open spec fn report_part(report: EndpointReport) -> Seq<char> {
    "=== "@ + report.endpoint@ + " ===\n"@ + match report.result {
        EndpointResult::FetchError(message) => "  FETCH ERROR: "@ + message@ + "\n"@ + "\n"@,
        EndpointResult::HttpError(code) => "  ERROR: status "@ + decimal(code as nat) + " "@
            + status_reason(code) + "\n\n"@,
        EndpointResult::ParseError(message) => "  PARSE ERROR: "@ + message@ + "\n\n"@,
        EndpointResult::Document(doc) => document_part(doc) + "\n"@,
    }
}

/// The report on the first `n` endpoints.
pub open spec fn report_text(reports: Seq<EndpointReport>, n: nat) -> Seq<char>
    decreases n,
{
    if n == 0 || n > reports.len() {
        Seq::empty()
    } else {
        report_text(reports, (n - 1) as nat) + report_part(reports[n - 1])
    }
}

/// A status code that a response can carry.
pub open spec fn valid_status(result: EndpointResult) -> bool {
    result matches EndpointResult::HttpError(code) ==> 100 <= code <= 999
}

fn text_field_or<'a>(v: &'a JsonValue, key: &str, default: &'a str) -> (text: &'a str)
    ensures
        text@ == text_or(text_field(*v, key@), default@),
{
    let k = String::from_str(key);
    match v.get(&k) {
        Some(x) => match x.as_str() {
            Some(t) => t.as_str(),
            None => default,
        },
        None => default,
    }
}

fn array_at<'a>(v: &'a JsonValue, key: &str) -> (items: Option<&'a Vec<JsonValue>>)
    ensures
        items matches Some(a) ==> array_field(*v, key@) == Some(a@),
        items is None ==> array_field(*v, key@) is None,
{
    let k = String::from_str(key);
    match v.get(&k) {
        Some(x) => x.as_array(),
        None => None,
    }
}

fn has_field(v: &JsonValue, key: &str) -> (present: bool)
    ensures
        present == (field(*v, key@) is Some),
{
    let k = String::from_str(key);
    v.get(&k).is_some()
}

fn item_count(module: &JsonValue) -> (count: usize)
    ensures
        count == module_item_count(*module),
{
    let k = String::from_str("pagedList");
    let paged = match module.get(&k) {
        Some(list) => array_at(list, "items"),
        None => None,
    };
    match paged {
        Some(items) => items.len(),
        None => match array_at(module, "highlights") {
            Some(highlights) => highlights.len(),
            None => 0,
        },
    }
}

fn push_module_line(s: &mut String, row: usize, module: &JsonValue)
    ensures
        final(s)@ == old(s)@ + module_line(row as nat, *module),
{
    let ghost start = s@;
    s.append("    Row ");
    push_decimal(s, row as u64);
    s.append(": type=");
    push_padded(s, text_field_or(module, "type", "?"), 30);
    s.append(" title=\"");
    s.append(text_field_or(module, "title", "(no title)"));
    s.append("\" items=");
    push_decimal(s, item_count(module) as u64);
    s.append(" more=");
    push_bool(s, has_field(module, "showMore"));
    s.append("\n");
    assert(s@ =~= start + module_line(row as nat, *module));
}

fn push_row_lines(s: &mut String, index: usize, row: &JsonValue)
    ensures
        final(s)@ == old(s)@ + row_lines(index as nat, *row),
{
    let ghost start = s@;
    match array_at(row, "modules") {
        Some(modules) => {
            let mut k: usize = 0;
            while k < modules.len()
                invariant
                    k <= modules@.len(),
                    s@ == start + module_lines(index as nat, modules@, k as nat),
                decreases modules@.len() - k,
            {
                push_module_line(s, index, &modules[k]);
                k = k + 1;
                assert(s@ =~= start + module_lines(index as nat, modules@, k as nat));
            }
        },
        None => {
            assert(s@ =~= start + row_lines(index as nat, *row));
        },
    }
}

fn push_rows_part(s: &mut String, doc: &JsonValue)
    ensures
        final(s)@ == old(s)@ + rows_part(*doc),
{
    let ghost start = s@;
    match array_at(doc, "rows") {
        Some(rows) => {
            s.append("  FORMAT: V1 (rows), ");
            push_decimal(s, rows.len() as u64);
            s.append(" rows\n");
            let ghost head = s@;
            let mut k: usize = 0;
            while k < rows.len()
                invariant
                    k <= rows@.len(),
                    s@ == head + rows_lines(rows@, k as nat),
                decreases rows@.len() - k,
            {
                push_row_lines(s, k, &rows[k]);
                k = k + 1;
                assert(s@ =~= head + rows_lines(rows@, k as nat));
            }
            assert(s@ =~= start + rows_part(*doc));
        },
        None => {
            assert(s@ =~= start + rows_part(*doc));
        },
    }
}

fn push_section_title(s: &mut String, section: &JsonValue)
    ensures
        final(s)@ == old(s)@ + section_title(*section),
{
    let title = String::from_str("title");
    let own = match section.get(&title) {
        Some(x) => x.as_str(),
        None => None,
    };
    match own {
        Some(t) => s.append(t.as_str()),
        None => {
            let info_key = String::from_str("titleTextInfo");
            match section.get(&info_key) {
                Some(info) => s.append(text_field_or(info, "text", "(no title)")),
                None => s.append("(no title)"),
            }
        },
    }
}

fn push_first_item_type(s: &mut String, section: &JsonValue)
    ensures
        final(s)@ == old(s)@ + first_item_type(*section),
{
    match array_at(section, "items") {
        Some(items) => if items.len() > 0 {
            s.append(text_field_or(&items[0], "type", "?"));
        } else {
            s.append("?");
        },
        None => s.append("?"),
    }
}

fn push_section_line(s: &mut String, index: usize, section: &JsonValue)
    ensures
        final(s)@ == old(s)@ + section_line(index as nat, *section),
{
    let ghost start = s@;
    s.append("    Sec ");
    push_decimal(s, index as u64);
    s.append(": type=");
    push_padded(s, text_field_or(section, "type", "?"), 35);
    s.append(" title=\"");
    push_section_title(s, section);
    s.append("\" items=");
    let count: usize = match array_at(section, "items") {
        Some(items) => items.len(),
        None => 0,
    };
    push_decimal(s, count as u64);
    s.append(" first=");
    push_first_item_type(s, section);
    s.append(" more=");
    let more = has_field(section, "viewAll") || has_field(section, "showMore");
    push_bool(s, more);
    s.append("\n");
    assert(s@ =~= start + section_line(index as nat, *section));
}

fn push_sections_part(s: &mut String, doc: &JsonValue)
    ensures
        final(s)@ == old(s)@ + sections_part(*doc),
{
    let ghost start = s@;
    match array_at(doc, "items") {
        Some(sections) => {
            s.append("  FORMAT: V2 (items), ");
            push_decimal(s, sections.len() as u64);
            s.append(" sections\n");
            let ghost head = s@;
            let mut k: usize = 0;
            while k < sections.len()
                invariant
                    k <= sections@.len(),
                    s@ == head + section_lines(sections@, k as nat),
                decreases sections@.len() - k,
            {
                push_section_line(s, k, &sections[k]);
                k = k + 1;
                assert(s@ =~= head + section_lines(sections@, k as nat));
            }
            assert(s@ =~= start + sections_part(*doc));
        },
        None => {
            assert(s@ =~= start + sections_part(*doc));
        },
    }
}

fn push_names_list(s: &mut String, names: &Vec<String>)
    ensures
        final(s)@ == old(s)@ + names_list(names@.map_values(|n: String| n@)),
{
    let ghost start = s@;
    let ghost views = names@.map_values(|n: String| n@);
    s.append("[");
    let mut k: usize = 0;
    while k < names.len()
        invariant
            k <= names@.len(),
            views == names@.map_values(|n: String| n@),
            s@ == start + "["@ + quoted_names(views, k as nat),
        decreases names@.len() - k,
    {
        if k > 0 {
            s.append(", ");
        }
        push_debug_quoted(s, names[k].as_str());
        assert(views[k as int] == names@[k as int]@);
        k = k + 1;
        assert(s@ =~= start + "["@ + quoted_names(views, k as nat));
    }
    s.append("]");
    assert(s@ =~= start + names_list(views));
}

fn push_document_part(s: &mut String, doc: &JsonValue)
    ensures
        final(s)@ == old(s)@ + document_part(*doc),
{
    let ghost start = s@;
    s.append("  Top-level keys: ");
    let names = doc.keys();
    push_names_list(s, &names);
    s.append("\n");
    push_rows_part(s, doc);
    push_sections_part(s, doc);
    assert(s@ =~= start + document_part(*doc));
}

/// Appends the part of the report on one endpoint.
pub fn push_report_part(s: &mut String, report: &EndpointReport)
    requires
        valid_status(report.result),
    ensures
        final(s)@ == old(s)@ + report_part(*report),
{
    let ghost start = s@;
    s.append("=== ");
    s.append(report.endpoint.as_str());
    s.append(" ===\n");
    match &report.result {
        EndpointResult::FetchError(message) => {
            s.append("  FETCH ERROR: ");
            s.append(message.as_str());
            s.append("\n");
            s.append("\n");
        },
        EndpointResult::HttpError(code) => {
            s.append("  ERROR: status ");
            let status = status_code_text(*code);
            s.append(status.as_str());
            s.append("\n\n");
        },
        EndpointResult::ParseError(message) => {
            s.append("  PARSE ERROR: ");
            s.append(message.as_str());
            s.append("\n\n");
        },
        EndpointResult::Document(doc) => {
            push_document_part(s, doc);
            s.append("\n");
        },
    }
    assert(s@ =~= start + report_part(*report));
}

/// The report on the page endpoints, one part per endpoint in order.
pub fn debug_report(reports: &Vec<EndpointReport>) -> (text: String)
    requires
        forall|i: int| 0 <= i < reports@.len() ==> valid_status(#[trigger] reports@[i].result),
    ensures
        text@ == report_text(reports@, reports@.len()),
{
    let mut text = String::new();
    let mut k: usize = 0;
    while k < reports.len()
        invariant
            k <= reports@.len(),
            forall|i: int| 0 <= i < reports@.len() ==> valid_status(#[trigger] reports@[i].result),
            text@ == report_text(reports@, k as nat),
        decreases reports@.len() - k,
    {
        push_report_part(&mut text, &reports[k]);
        k = k + 1;
        assert(text@ =~= report_text(reports@, k as nat));
    }
    text
}

} // verus!

verus! {

/// The list of member names shows every name in order, each quoted as
/// `Debug` writes a string, separated by `, `, between brackets: the first
/// name alone, then each further name after a comma.
pub proof fn law_names_list_shows_every_name(names: Seq<Seq<char>>, n: nat)
    ensures
        names.len() == 0 ==> names_list(names) == "["@ + Seq::<char>::empty() + "]"@,
        names.len() >= 1 ==> quoted_names(names, 1) == debug_quoted(names[0]),
        1 <= n < names.len() ==> quoted_names(names, n + 1) == quoted_names(names, n) + ", "@
            + debug_quoted(names[n as int]),
        names_list(names) == "["@ + quoted_names(names, names.len()) + "]"@,
{
}

/// The lines on a row's modules are those on its first modules followed by
/// the line on the next one, one line per module in order.
pub proof fn law_module_lines_each_module(row: nat, modules: Seq<JsonValue>, n: nat)
    ensures
        module_lines(row, modules, 0) == Seq::<char>::empty(),
        n < modules.len() ==> module_lines(row, modules, n + 1) == module_lines(row, modules, n)
            + module_line(row, modules[n as int]),
{
}

/// The lines on the rows are those on the first rows followed by those on
/// the next row, numbered by its position.
pub proof fn law_rows_lines_each_row(rows: Seq<JsonValue>, n: nat)
    ensures
        rows_lines(rows, 0) == Seq::<char>::empty(),
        n < rows.len() ==> rows_lines(rows, n + 1) == rows_lines(rows, n) + row_lines(
            n,
            rows[n as int],
        ),
{
}

/// The lines on the sections are those on the first sections followed by
/// the line on the next section, numbered by its position.
pub proof fn law_section_lines_each_section(sections: Seq<JsonValue>, n: nat)
    ensures
        section_lines(sections, 0) == Seq::<char>::empty(),
        n < sections.len() ==> section_lines(sections, n + 1) == section_lines(sections, n)
            + section_line(n, sections[n as int]),
{
}

/// The report is the part on each endpoint, in order.
pub proof fn law_report_each_endpoint(reports: Seq<EndpointReport>, n: nat)
    ensures
        report_text(reports, 0) == Seq::<char>::empty(),
        n < reports.len() ==> report_text(reports, n + 1) == report_text(reports, n) + report_part(
            reports[n as int],
        ),
{
}

} // verus!

verus! {

/// The report covers eight page endpoints, starting with the home page.
pub proof fn law_report_endpoints()
    ensures
        report_endpoints().len() == 8,
        report_endpoints()[0] == "pages/home"@,
        report_endpoints()[1] == "pages/for_you"@,
        report_endpoints()[2] == "pages/my_collection_recently_played"@,
        report_endpoints()[3] == "pages/my_collection_my_mixes"@,
        report_endpoints()[4] == "pages/explore"@,
        report_endpoints()[5] == "pages/suggested_new_tracks_for_you"@,
        report_endpoints()[6] == "pages/suggested_new_albums_for_you"@,
        report_endpoints()[7] == "pages/show/essential_album"@,
{
}

/// A module counts the items of its paged list when it has one as an array,
/// else its highlights when they are an array, else none.
pub proof fn law_module_item_count(module: JsonValue, list: JsonValue, items: Seq<JsonValue>)
    ensures
        field(module, "pagedList"@) == Some(list) && array_field(list, "items"@) == Some(items)
            ==> module_item_count(module) == items.len(),
        (field(module, "pagedList"@) is None || (field(module, "pagedList"@) == Some(list)
            && array_field(list, "items"@) is None)) ==> module_item_count(module)
            == count_or_zero(array_field(module, "highlights"@)),
{
}

/// A section's title is its own text title, else the text of its title
/// information, else `(no title)`; its first type is that of its first item.
pub proof fn law_section_fields(section: JsonValue, info: JsonValue, items: Seq<JsonValue>)
    ensures
        text_field(section, "title"@) matches Some(t) ==> section_title(section) == t,
        text_field(section, "title"@) is None && field(section, "titleTextInfo"@) == Some(info)
            ==> section_title(section) == text_or(text_field(info, "text"@), "(no title)"@),
        text_field(section, "title"@) is None && field(section, "titleTextInfo"@) is None
            ==> section_title(section) == "(no title)"@,
        array_field(section, "items"@) == Some(items) && items.len() > 0 ==> first_item_type(
            section,
        ) == text_or(text_field(items[0], "type"@), "?"@),
        (array_field(section, "items"@) is None || array_field(section, "items"@) == Some(
            Seq::<JsonValue>::empty(),
        )) ==> first_item_type(section) == "?"@,
{
}

} // verus!
