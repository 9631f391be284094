//! The request pipeline: assembling the URL of a request, and resolving what
//! came back for it into a typed result or a typed error.
use crate::status::{ErrorKind, Status};
use vstd::prelude::*;

verus! {

/// Root of the remote service.
pub const API_URL: &'static str = "https://api.magicthegathering.io";

/// Version segment of every path.
pub const API_VER: &'static str = "v1";

/// An ordered run of filter pairs, each a filter name and its value as text.
pub type FilterSet = Seq<(Seq<char>, Seq<char>)>;

/// Collection URL of a resource: root, version and resource name, joined by `/`.
pub open spec fn collection_url(call: Seq<char>) -> Seq<char> {
    API_URL@ + "/"@ + API_VER@ + "/"@ + call
}

/// Identified URL: the collection URL, `/`, and the identifier as it stands.
pub open spec fn identified_url(call: Seq<char>, id: Seq<char>) -> Seq<char> {
    collection_url(call) + "/"@ + id
}

/// What introduces the pair at position `i` of a query: `?` for the first
/// pair, `&` for every later one.
pub open spec fn separator(i: int) -> Seq<char> {
    if i == 0 {
        "?"@
    } else {
        "&"@
    }
}

/// One pair of a query as it appears at position `i`: separator, name, `=`, value.
pub open spec fn filter_param(i: int, pair: (Seq<char>, Seq<char>)) -> Seq<char> {
    separator(i) + pair.0 + "="@ + pair.1
}

/// The query of a filter set: its pairs in order, nothing escaped, nothing
/// added. The empty set has the empty query.
pub open spec fn filter_params(pairs: FilterSet) -> Seq<char>
    decreases pairs.len(),
{
    if pairs.len() == 0 {
        Seq::empty()
    } else {
        filter_params(pairs.drop_last()) + filter_param(pairs.len() - 1, pairs.last())
    }
}

/// Filtered URL: the collection URL followed directly by the query.
pub open spec fn filtered_url(call: Seq<char>, pairs: FilterSet) -> Seq<char> {
    collection_url(call) + filter_params(pairs)
}

/// The filter set that a list of pairs stands for.
pub open spec fn filter_set<'a>(pairs: Seq<(&'a str, String)>) -> FilterSet {
    pairs.map_values(|p: (&'a str, String)| (p.0@, p.1@))
}

/// Appending a pair to a filter set appends its parameter to the query and
/// leaves what was there untouched.
pub proof fn lemma_filter_params_push(pairs: FilterSet, pair: (Seq<char>, Seq<char>))
    ensures
        filter_params(pairs.push(pair)) == filter_params(pairs) + filter_param(
            pairs.len() as int,
            pair,
        ),
{
    assert(pairs.push(pair).drop_last() =~= pairs);
}

/// Applying one more filter extends the URL by that pair's parameter and
/// changes nothing before it: pairs appear in the order of application.
pub proof fn lemma_filtered_url_push(
    call: Seq<char>,
    pairs: FilterSet,
    pair: (Seq<char>, Seq<char>),
)
    ensures
        filtered_url(call, pairs.push(pair)) == filtered_url(call, pairs) + filter_param(
            pairs.len() as int,
            pair,
        ),
        filtered_url(call, FilterSet::empty()) == collection_url(call),
{
    lemma_filter_params_push(pairs, pair);
    assert(filtered_url(call, pairs.push(pair)) =~= filtered_url(call, pairs) + filter_param(
        pairs.len() as int,
        pair,
    ));
    assert(filtered_url(call, FilterSet::empty()) =~= collection_url(call));
}

/// The URL for a whole collection.
pub fn all(call: &str) -> (url: String)
    ensures
        url@ == collection_url(call@),
{
    let mut url = String::from_str(API_URL);
    url.append("/");
    url.append(API_VER);
    url.append("/");
    url.append(call);
    url
}

/// The URL for the record with the given identifier.
pub fn find(call: &str, id: &str) -> (url: String)
    ensures
        url@ == identified_url(call@, id@),
{
    let mut url = all(call);
    url.append("/");
    url.append(id);
    url
}

/// The URL for a collection narrowed by an already written query.
pub fn filter(call: &str, params: &str) -> (url: String)
    ensures
        url@ == collection_url(call@) + params@,
{
    let mut url = all(call);
    url.append(params);
    url
}

/// Writes the query of a list of filter pairs.
pub fn params<'a>(pairs: &Vec<(&'a str, String)>) -> (query: String)
    ensures
        query@ == filter_params(filter_set(pairs@)),
{
    let ghost set = filter_set(pairs@);
    let mut query = String::new();
    let mut i: usize = 0;
    assert(set.take(0) =~= Seq::empty());
    while i < pairs.len()
        invariant
            i <= pairs.len(),
            set == filter_set(pairs@),
            query@ == filter_params(set.take(i as int)),
        decreases pairs.len() - i,
    {
        let pair = &pairs[i];
        if i == 0 {
            query.append("?");
        } else {
            query.append("&");
        }
        query.append(pair.0);
        query.append("=");
        query.append(pair.1.as_str());
        proof {
            lemma_filter_params_push(set.take(i as int), set[i as int]);
            assert(set.take(i as int).push(set[i as int]) =~= set.take(i + 1));
            assert(query@ =~= filter_params(set.take(i as int)) + filter_param(
                i as int,
                set[i as int],
            ));
        }
        i += 1;
    }
    assert(set.take(i as int) =~= set);
    query
}

/// `reqwest::Response`, carried as an opaque value: only its status is read,
/// through `status_of_response`.
#[verifier::external_type_specification]
#[verifier::external_body]
pub struct ExResponse(reqwest::Response);

/// `reqwest::Error`, carried as an opaque value: only its status is read,
/// through `status_of_error`.
#[verifier::external_type_specification]
#[verifier::external_body]
pub struct ExError(reqwest::Error);

/// What came of the one GET that a call issues.
#[derive(Clone, Copy, Debug, PartialEq, Eq, Structural)]
pub enum Transport {
    /// No response was obtained. The failure may still name a status.
    Failed(Option<Status>),
    /// A response arrived, with this status.
    Responded(Status),
}

/// What follows from the transport's report. Nothing else can follow: a
/// call is never sent a second time.
#[derive(Clone, Copy, Debug, PartialEq, Eq, Structural)]
pub enum Verdict {
    /// The status is success: the body is to be decoded.
    Decode,
    /// The call has failed with this error; the body is not looked at.
    Reject(ErrorKind),
}

impl Transport {
    /// Every status in the report is well formed.
    pub open spec fn wf(self) -> bool {
        match self {
            Transport::Failed(Some(s)) => s.wf(),
            Transport::Failed(None) => true,
            Transport::Responded(s) => s.wf(),
        }
    }
}

impl Verdict {
    /// The status of a rejection is well formed.
    pub open spec fn wf(self) -> bool {
        match self {
            Verdict::Decode => true,
            Verdict::Reject(ErrorKind::Http(s)) => s.wf(),
        }
    }
}

/// The status code that `reqwest::Response::status` gives for a response.
pub uninterp spec fn response_code(response: reqwest::Response) -> u16;

/// The status code that `reqwest::Error::status` gives for an error, where it
/// gives one.
pub uninterp spec fn error_code(error: reqwest::Error) -> Option<u16>;

/// The report that stands for what a GET returned: the status of the
/// response, or the failure with the status that the error names.
pub open spec fn report_of(sent: Result<reqwest::Response, reqwest::Error>) -> Transport {
    match sent {
        Ok(response) => Transport::Responded(Status { code: response_code(response) }),
        Err(error) => Transport::Failed(
            match error_code(error) {
                Some(code) => Some(Status { code }),
                None => None,
            },
        ),
    }
}

/// Calls `reqwest::Response::status` and takes the number of what it returns.
/// Trusted: the result is the response's status code, and it lies between
/// 100 and 999, as every `StatusCode` does.
#[verifier::external_body]
fn status_of_response(response: &reqwest::Response) -> (s: Status)
    ensures
        s.code == response_code(*response),
        s.wf(),
{
    Status { code: response.status().as_u16() }
}

/// Calls `reqwest::Error::status` and takes the number of what it returns.
/// Trusted: the result is the status that the error was made from, `None`
/// where it was made from none; a status lies between 100 and 999.
#[verifier::external_body]
fn status_of_error(error: &reqwest::Error) -> (s: Option<Status>)
    ensures
        s == (match error_code(*error) {
            Some(code) => Some(Status { code }),
            None => None::<Status>,
        }),
        s matches Some(status) ==> status.wf(),
{
    match error.status() {
        Some(code) => Some(Status { code: code.as_u16() }),
        None => None,
    }
}

/// Reads the report out of what a GET returned.
pub fn report(sent: &Result<reqwest::Response, reqwest::Error>) -> (t: Transport)
    ensures
        t == report_of(*sent),
        t.wf(),
        t is Responded <==> sent is Ok,
{
    match sent {
        Ok(response) => Transport::Responded(status_of_response(response)),
        Err(error) => Transport::Failed(status_of_error(error)),
    }
}

/// The verdict on a report. A response counts as success on `200` alone and
/// is otherwise rejected with its own status, whatever its class. A failure
/// is rejected with the status it names, or with `400` where it names none.
pub open spec fn verdict(report: Transport) -> Verdict {
    match report {
        Transport::Responded(s) => if s == Status::ok_spec() {
            Verdict::Decode
        } else {
            Verdict::Reject(ErrorKind::Http(s))
        },
        Transport::Failed(Some(s)) => Verdict::Reject(ErrorKind::Http(s)),
        Transport::Failed(None) => Verdict::Reject(ErrorKind::Http(Status::bad_request_spec())),
    }
}

/// The result of decoding: the value where the body decoded, `400` where it
/// did not.
pub open spec fn decoded_result<T>(body: Option<T>) -> Result<T, ErrorKind> {
    match body {
        Some(value) => Ok(value),
        None => Err(ErrorKind::Http(Status::bad_request_spec())),
    }
}

/// The result of a whole exchange: the rejection where the report is
/// rejected, else the result of decoding.
pub open spec fn resolution<T>(report: Transport, body: Option<T>) -> Result<T, ErrorKind> {
    match verdict(report) {
        Verdict::Reject(e) => Err(e),
        Verdict::Decode => decoded_result(body),
    }
}

/// A response with any status but `200` fails with exactly that status,
/// whatever its body holds. For a resource that the service does not know,
/// which it answers with `404`, the error is `Http` of `404 Not Found`.
pub proof fn lemma_status_surfaces<T>(status: Status, body: Option<T>)
    requires
        status != Status::ok_spec(),
    ensures
        resolution(Transport::Responded(status), body) == Err::<T, ErrorKind>(
            ErrorKind::Http(status),
        ),
        resolution(Transport::Responded(Status::not_found_spec()), body) == Err::<T, ErrorKind>(
            ErrorKind::Http(Status::not_found_spec()),
        ),
{
}

/// A rejected exchange yields the same error whatever the body holds: the
/// body of a failure is never read.
pub proof fn lemma_rejection_ignores_body<T>(report: Transport, a: Option<T>, b: Option<T>)
    requires
        verdict(report) != Verdict::Decode,
    ensures
        resolution(report, a) == resolution(report, b),
{
}

/// An exchange succeeds exactly when the response has status `200` and its
/// body decodes, and then it yields the decoded value unchanged. Every other
/// exchange yields an `Http` error, and `400` unless the report names
/// another status.
pub proof fn lemma_success_exactly<T>(report: Transport, body: Option<T>)
    ensures
        resolution(report, body) is Ok <==> (report == Transport::Responded(Status::ok_spec())
            && body is Some),
        resolution(report, body) matches Ok(value) ==> body == Some(value),
        resolution(report, body) matches Err(ErrorKind::Http(s)) ==> (s
            == Status::bad_request_spec() || report == Transport::Responded(s) || report
            == Transport::Failed(Some(s))),
{
}

/// A call keeps no state between uses: the URL it asks for is fixed by the
/// resource and the filters, and what it yields is fixed by what came back.
/// Asking again with the same arguments, and getting the same answer, gives
/// the same result.
pub proof fn lemma_repeatable<T>(
    call: Seq<char>,
    first: FilterSet,
    second: FilterSet,
    report: Transport,
    again: Transport,
    body: Option<T>,
    body_again: Option<T>,
)
    requires
        first == second,
        report == again,
        body == body_again,
    ensures
        filtered_url(call, first) == filtered_url(call, second),
        resolution(report, body) == resolution(again, body_again),
{
}

/// Decides, from the transport's report alone, whether the body is decoded.
pub fn judge(report: Transport) -> (v: Verdict)
    ensures
        v == verdict(report),
        report.wf() ==> v.wf(),
{
    match report {
        Transport::Responded(s) => {
            if s.is_ok() {
                Verdict::Decode
            } else {
                Verdict::Reject(ErrorKind::Http(s))
            }
        },
        Transport::Failed(Some(s)) => Verdict::Reject(ErrorKind::Http(s)),
        Transport::Failed(None) => Verdict::Reject(ErrorKind::Http(Status::bad_request())),
    }
}

/// Turns the outcome of decoding a success body into the call's result.
/// `body` is the decoded value, or `None` where the body did not decode.
pub fn decoded<T>(body: Option<T>) -> (r: Result<T, ErrorKind>)
    ensures
        r == decoded_result(body),
{
    match body {
        Some(value) => Ok(value),
        None => Err(ErrorKind::Http(Status::bad_request())),
    }
}

/// Resolves one finished exchange. `body` is read only where the report is a
/// success; on any other report the result is the rejection, whatever `body` holds.
pub fn build<T>(report: Transport, body: Option<T>) -> (r: Result<T, ErrorKind>)
    ensures
        r == resolution(report, body),
        r is Ok <==> report == Transport::Responded(Status::ok_spec()) && body is Some,
        report.wf() ==> (r matches Err(ErrorKind::Http(s)) ==> s.wf()),
{
    match judge(report) {
        Verdict::Reject(e) => Err(e),
        Verdict::Decode => decoded(body),
    }
}

} // verus!
