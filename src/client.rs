use vstd::prelude::*;

use reqwest::header::{HeaderMap, HeaderValue, InvalidHeaderValue};

use crate::error::{Error, ErrorKind};

verus! {

/// What a client needs to query the job metrics of one workflow.
#[derive(Debug)]
pub struct Client {
    pub git_slug: String,
    pub project: String,
    pub workflow: String,
    pub reporting_window: String,
    pub circleci_token: String,
}

/// `reqwest::header::HeaderMap` (the `http` crate's), a multimap from header
/// names to header values.
#[verifier::external_type_specification]
#[verifier::external_body]
#[verifier::reject_recursive_types(T)]
pub struct ExHeaderMap<T>(HeaderMap<T>);

/// `reqwest::header::HeaderValue`, the bytes of one header value.
#[verifier::external_type_specification]
#[verifier::external_body]
pub struct ExHeaderValue(HeaderValue);

/// `reqwest::header::InvalidHeaderValue`, the error of a rejected value.
#[verifier::external_type_specification]
#[verifier::external_body]
pub struct ExInvalidHeaderValue(InvalidHeaderValue);

/// What a header map holds: for each header name, the text of its value.
pub uninterp spec fn header_entries(m: HeaderMap) -> Map<Seq<char>, Seq<char>>;

/// What a header value holds, read as text.
pub uninterp spec fn header_value_text(v: HeaderValue) -> Seq<char>;

/// Whether `c` may stand in an HTTP header value: a visible ASCII character,
/// a space, a tab, or any non-ASCII character (whose UTF-8 bytes are all at
/// least 128).
pub open spec fn header_value_char(c: char) -> bool {
    (c as u32 >= 32 && c as u32 != 127) || c == '\t'
}

/// Whether every character of `s` may stand in an HTTP header value.
pub open spec fn header_value_allowed(s: Seq<char>) -> bool {
    forall|i: int| 0 <= i < s.len() ==> header_value_char(#[trigger] s[i])
}

/// Whether `s` is a lower-case header name of at most 64 letters and dashes.
pub open spec fn lower_header_name(s: Seq<char>) -> bool {
    &&& 0 < s.len() <= 64
    &&& forall|i: int| 0 <= i < s.len() ==> ('a' <= #[trigger] s[i] <= 'z' || s[i] == '-')
}

/// Relies on `HeaderMap::new`: the new map is empty.
pub assume_specification[ HeaderMap::<HeaderValue>::new ]() -> (r: HeaderMap)
    ensures
        header_entries(r).dom() == Set::<Seq<char>>::empty(),
;

/// Relies on `HeaderValue::from_str`: the text is accepted if and only if each
/// of its UTF-8 bytes is at least 32 and not 127, or a tab, and the value then
/// holds that text.
pub assume_specification[ HeaderValue::from_str ](src: &str) -> (r: Result<
    HeaderValue,
    InvalidHeaderValue,
>)
    ensures
        r is Ok <==> header_value_allowed(src@),
        r is Ok ==> header_value_text(r->Ok_0) == src@,
;

/// Relies on `HeaderMap::insert` with a static name: the name maps to the
/// value alone afterwards. It panics on a name that is not a valid header
/// name, and where the map would outgrow its largest size, so both are left
/// out.
#[verifier::external_body]
fn insert_header(map: &mut HeaderMap, name: &'static str, value: HeaderValue)
    requires
        lower_header_name(name@),
        header_entries(*old(map)).dom().finite(),
        header_entries(*old(map)).dom().len() < 4096,
    ensures
        header_entries(*final(map)) == header_entries(*old(map)).insert(
            name@,
            header_value_text(value),
        ),
{
    map.insert(name, value);
}

/// The job-metrics endpoint of `c`'s workflow, on the `main` branch.
pub open spec fn jobs_url_text(c: Client) -> Seq<char> {
    "https://circleci.com/api/v2/insights/"@ + c.git_slug@ + "/"@ + c.project@ + "/workflows/"@
        + c.workflow@ + "/jobs?branch=main&reporting-window="@ + c.reporting_window@
}

/// The value of the `authorization` header for `token`.
pub open spec fn auth_header_text(token: Seq<char>) -> Seq<char> {
    "circle-token "@ + token
}

/// The error that `Client::from` reports when a field is empty.
pub open spec fn empty_field_error(field: Seq<char>) -> (ErrorKind, Seq<char>) {
    (ErrorKind::InvalidInput, field + " is empty"@)
}

impl Client {
    /// Builds a client from its five settings, each of which must be
    /// non-empty. They are checked in the order of the parameters, and the
    /// first empty one is reported.
    pub fn from(
        git_slug: &String,
        project: &String,
        workflow: &String,
        reporting_window: &String,
        circleci_token: &String,
    ) -> (r: Result<Client, Error>)
        ensures
            git_slug@.len() == 0 ==> r is Err && r->Err_0@ == empty_field_error("git_slug"@),
            git_slug@.len() > 0 && project@.len() == 0 ==> r is Err && r->Err_0@
                == empty_field_error("project"@),
            git_slug@.len() > 0 && project@.len() > 0 && workflow@.len() == 0 ==> r is Err
                && r->Err_0@ == empty_field_error("workflow"@),
            git_slug@.len() > 0 && project@.len() > 0 && workflow@.len() > 0
                && reporting_window@.len() == 0 ==> r is Err && r->Err_0@ == empty_field_error(
                "reporting_window"@,
            ),
            git_slug@.len() > 0 && project@.len() > 0 && workflow@.len() > 0
                && reporting_window@.len() > 0 && circleci_token@.len() == 0 ==> r is Err
                && r->Err_0@ == empty_field_error("circleci_token"@),
            r is Ok <==> (git_slug@.len() > 0 && project@.len() > 0 && workflow@.len() > 0
                && reporting_window@.len() > 0 && circleci_token@.len() > 0),
            r is Ok ==> {
                let c = r->Ok_0;
                &&& c.git_slug@ == git_slug@
                &&& c.project@ == project@
                &&& c.workflow@ == workflow@
                &&& c.reporting_window@ == reporting_window@
                &&& c.circleci_token@ == circleci_token@
            },
    {
        proof {
            reveal_strlit("git_slug is empty");
            reveal_strlit("git_slug");
            reveal_strlit("project is empty");
            reveal_strlit("project");
            reveal_strlit("workflow is empty");
            reveal_strlit("workflow");
            reveal_strlit("reporting_window is empty");
            reveal_strlit("reporting_window");
            reveal_strlit("circleci_token is empty");
            reveal_strlit("circleci_token");
            reveal_strlit(" is empty");
        }
        if git_slug.as_str().is_empty() {
            assert("git_slug is empty"@ =~= "git_slug"@ + " is empty"@);
            return Err(Error::invalid_input("git_slug is empty"));
        }
        if project.as_str().is_empty() {
            assert("project is empty"@ =~= "project"@ + " is empty"@);
            return Err(Error::invalid_input("project is empty"));
        }
        if workflow.as_str().is_empty() {
            assert("workflow is empty"@ =~= "workflow"@ + " is empty"@);
            return Err(Error::invalid_input("workflow is empty"));
        }
        if reporting_window.as_str().is_empty() {
            assert("reporting_window is empty"@ =~= "reporting_window"@ + " is empty"@);
            return Err(Error::invalid_input("reporting_window is empty"));
        }
        if circleci_token.as_str().is_empty() {
            assert("circleci_token is empty"@ =~= "circleci_token"@ + " is empty"@);
            return Err(Error::invalid_input("circleci_token is empty"));
        }
        Ok(
            Client {
                git_slug: git_slug.clone(),
                project: project.clone(),
                workflow: workflow.clone(),
                reporting_window: reporting_window.clone(),
                circleci_token: circleci_token.clone(),
            },
        )
    }
    /// The job-metrics endpoint of this client's workflow.
    pub fn jobs_url(&self) -> (r: String)
        ensures
            r@ == jobs_url_text(*self),
    {
        let mut url = String::from_str("https://circleci.com/api/v2/insights/");
        url.append(self.git_slug.as_str());
        url.append("/");
        url.append(self.project.as_str());
        url.append("/workflows/");
        url.append(self.workflow.as_str());
        url.append("/jobs?branch=main&reporting-window=");
        url.append(self.reporting_window.as_str());
        url
    }

    /// The value of the `authorization` header of this client's requests.
    pub fn auth_header(&self) -> (r: String)
        ensures
            r@ == auth_header_text(self.circleci_token@),
    {
        let mut value = String::from_str("circle-token ");
        value.append(self.circleci_token.as_str());
        value
    }

    /// Whether this client's token may stand in an HTTP header value.
    pub fn has_header_safe_token(&self) -> (r: bool)
        ensures
            r == header_value_allowed(self.circleci_token@),
    {
        let token = self.circleci_token.as_str();
        let n = token.unicode_len();
        let mut i: usize = 0;
        while i < n
            invariant
                n == token@.len(),
                token@ == self.circleci_token@,
                0 <= i <= n,
                forall|j: int| 0 <= j < i ==> header_value_char(#[trigger] token@[j]),
            decreases n - i,
        {
            let c = token.get_char(i);
            if !((c as u32 >= 32 && c as u32 != 127) || c == '\t') {
                return false;
            }
            i = i + 1;
        }
        true
    }

    /// The headers of this client's requests: the `authorization` header
    /// alone, holding the token.
    pub fn headers(&self) -> (r: HeaderMap)
        requires
            header_value_allowed(self.circleci_token@),
        ensures
            header_entries(r) == map!["authorization"@ => auth_header_text(self.circleci_token@)],
    {
        let value = self.auth_header();
        proof {
            reveal_strlit("circle-token ");
            assert forall|i: int| 0 <= i < value@.len() implies header_value_char(
                #[trigger] value@[i],
            ) by {
                if i >= 13 {
                    assert(value@[i] == self.circleci_token@[i - 13]);
                }
            }
            reveal_strlit("authorization");
        }
        let mut headers = HeaderMap::new();
        match HeaderValue::from_str(value.as_str()) {
            Ok(v) => {
                insert_header(&mut headers, "authorization", v);
            },
            Err(_) => {},
        }
        assert(header_entries(headers) =~= map![
            "authorization"@ => auth_header_text(self.circleci_token@)
        ]);
        headers
    }
}

} // verus!
