//! Outbound calls through the dialer provider: which request is sent for each
//! number, how each answer is classified, and how a batch is summed up.
use vstd::prelude::*;
use url::ParseError;
use crate::config::{TwilioConfig, TWILIO_BASEURL_DEFAULT};
use crate::text::text_equals;
use crate::util::{join_url, joined_url, parse_url, parsed_url, query_pair, query_texts};

verus! {

/// The summary of a whole batch of calls.
#[derive(Debug, Clone, Copy, PartialEq, Eq, Hash, Structural)]
pub enum OverallResult {
    Success,
    PartialSuccess,
    Failure,
}

/// What became of the call to one number.
///
/// `Success` when the provider answered with its accepted status, `Failure`
/// when the request itself failed, `Unknown` when the provider answered with
/// any other status.
#[derive(Debug, Clone, PartialEq, Eq, Hash)]
pub enum DialNumberResult {
    Success { number: String },
    Failure { number: String, error: String },
    Unknown { number: String, status: String },
}

/// The outcome of every number of a batch, and their summary.
#[derive(Debug, Clone, PartialEq, Eq, Hash)]
pub struct AlertResult {
    pub overall_result: OverallResult,
    pub detailed_result: Vec<DialNumberResult>,
}

pub open spec fn has_success(s: Seq<DialNumberResult>) -> bool {
    exists|i: int| 0 <= i < s.len() && #[trigger] s[i] is Success
}

pub open spec fn has_unknown(s: Seq<DialNumberResult>) -> bool {
    exists|i: int| 0 <= i < s.len() && #[trigger] s[i] is Unknown
}

pub open spec fn has_failure(s: Seq<DialNumberResult>) -> bool {
    exists|i: int| 0 <= i < s.len() && #[trigger] s[i] is Failure
}

/// The summary of a batch: any success with any other outcome is a partial
/// success, successes alone are a success, and no success is a failure.
pub open spec fn overall_of(s: Seq<DialNumberResult>) -> OverallResult {
    if has_success(s) && (has_unknown(s) || has_failure(s)) {
        OverallResult::PartialSuccess
    } else if has_success(s) {
        OverallResult::Success
    } else {
        OverallResult::Failure
    }
}

impl AlertResult {
    /// Recomputes the summary from the per-number outcomes.
    pub fn update_overall_result(&mut self)
        ensures
            final(self).detailed_result@ == old(self).detailed_result@,
            final(self).overall_result == overall_of(old(self).detailed_result@),
    {
        let mut succeeded_calls = false;
        let mut unknown_calls = false;
        let mut failed_calls = false;
        let mut i: usize = 0;
        while i < self.detailed_result.len()
            invariant
                i <= self.detailed_result@.len(),
                succeeded_calls == has_success(self.detailed_result@.take(i as int)),
                unknown_calls == has_unknown(self.detailed_result@.take(i as int)),
                failed_calls == has_failure(self.detailed_result@.take(i as int)),
            decreases self.detailed_result@.len() - i,
        {
            let ghost prefix = self.detailed_result@.take(i as int);
            let ghost next = self.detailed_result@.take(i + 1);
            assert(next == prefix.push(self.detailed_result@[i as int]));
            match &self.detailed_result[i] {
                DialNumberResult::Success { .. } => {
                    succeeded_calls = true;
                },
                DialNumberResult::Unknown { .. } => {
                    unknown_calls = true;
                },
                DialNumberResult::Failure { .. } => {
                    failed_calls = true;
                },
            }
            assert(has_success(next) == (has_success(prefix) || next[i as int] is Success));
            i = i + 1;
        }
        assert(self.detailed_result@.take(i as int) == self.detailed_result@);
        self.overall_result = if succeeded_calls && (unknown_calls || failed_calls) {
            OverallResult::PartialSuccess
        } else if succeeded_calls && !(unknown_calls || failed_calls) {
            OverallResult::Success
        } else {
            OverallResult::Failure
        };
    }
}

/// A batch with a success and an outcome that is not a success is a partial
/// success.
pub proof fn lemma_success_with_other_is_partial(s: Seq<DialNumberResult>, i: int, j: int)
    requires
        0 <= i < s.len(),
        0 <= j < s.len(),
        s[i] is Success,
        !(s[j] is Success),
    ensures
        overall_of(s) == OverallResult::PartialSuccess,
{
    assert(has_success(s));
    assert(has_unknown(s) || has_failure(s));
}

/// A non-empty batch of successes alone is a success.
pub proof fn lemma_only_successes_is_success(s: Seq<DialNumberResult>)
    requires
        s.len() > 0,
        forall|i: int| 0 <= i < s.len() ==> #[trigger] s[i] is Success,
    ensures
        overall_of(s) == OverallResult::Success,
{
    assert(s[0] is Success);
}

/// A batch without a success, the empty batch among them, is a failure.
pub proof fn lemma_no_success_is_failure(s: Seq<DialNumberResult>)
    requires
        forall|i: int| 0 <= i < s.len() ==> !(#[trigger] s[i] is Success),
    ensures
        overall_of(s) == OverallResult::Failure,
{
}

proof fn lemma_same_kinds(s1: Seq<DialNumberResult>, s2: Seq<DialNumberResult>)
    requires
        s1.to_multiset() == s2.to_multiset(),
    ensures
        has_success(s1) ==> has_success(s2),
        has_unknown(s1) ==> has_unknown(s2),
        has_failure(s1) ==> has_failure(s2),
{
    broadcast use vstd::seq_lib::group_to_multiset_ensures;
    if has_success(s1) {
        let i = choose|i: int| 0 <= i < s1.len() && #[trigger] s1[i] is Success;
        assert(s1.contains(s1[i]));
        assert(s2.to_multiset().count(s1[i]) > 0);
        assert(s2.contains(s1[i]));
        let j = choose|j: int| 0 <= j < s2.len() && s2[j] == s1[i];
        assert(s2[j] is Success);
    }
    if has_unknown(s1) {
        let i = choose|i: int| 0 <= i < s1.len() && #[trigger] s1[i] is Unknown;
        assert(s1.contains(s1[i]));
        assert(s2.to_multiset().count(s1[i]) > 0);
        assert(s2.contains(s1[i]));
        let j = choose|j: int| 0 <= j < s2.len() && s2[j] == s1[i];
        assert(s2[j] is Unknown);
    }
    if has_failure(s1) {
        let i = choose|i: int| 0 <= i < s1.len() && #[trigger] s1[i] is Failure;
        assert(s1.contains(s1[i]));
        assert(s2.to_multiset().count(s1[i]) > 0);
        assert(s2.contains(s1[i]));
        let j = choose|j: int| 0 <= j < s2.len() && s2[j] == s1[i];
        assert(s2[j] is Failure);
    }
}

/// The summary depends on the multiset of outcomes alone: the order in which
/// the answers came does not change it.
pub proof fn lemma_overall_ignores_order(s1: Seq<DialNumberResult>, s2: Seq<DialNumberResult>)
    requires
        s1.to_multiset() == s2.to_multiset(),
    ensures
        overall_of(s1) == overall_of(s2),
{
    lemma_same_kinds(s1, s2);
    lemma_same_kinds(s2, s1);
}

/// Why a batch of calls could not be made.
#[derive(Debug)]
pub enum Error {
    RunWorkflow { source: crate::util::Error },
    BuildUrl { source: ParseError },
}

impl Error {
    /// The HTTP status that answers a request which failed with this error.
    pub fn status_code(&self) -> (r: u16)
        ensures
            r == 500,
    {
        match self {
            Error::RunWorkflow { .. } => 500,
            Error::BuildUrl { .. } => 500,
        }
    }
}

/// What the dialer provider answers to a call request.
#[derive(Debug, Clone, PartialEq, Eq, Hash)]
pub struct TwilioResponse {
    pub status: String,
}

/// The path, under the provider's URL, that runs a workflow.
pub open spec fn execution_path(workflow_id: Seq<char>) -> Seq<char> {
    workflow_id + "/Executions/"@
}

/// The form of the call to `number`, from `outgoing_number`.
pub open spec fn call_form(outgoing_number: Seq<char>, number: Seq<char>) -> Seq<
    (Seq<char>, Seq<char>),
> {
    seq![("From"@, outgoing_number), ("To"@, number)]
}

/// One call request: where it is posted, the number it rings, and its form.
#[derive(Debug, Clone, PartialEq, Eq, Hash)]
pub struct DialRequest {
    pub url: String,
    pub number: String,
    pub form: Vec<(String, String)>,
}

/// The call requests for `numbers` with the workflow `workflow_id`: one for
/// each number, in the same order, all posted to the workflow's URL.
pub fn dial_requests(numbers: &Vec<String>, workflow_id: &str, config: &TwilioConfig) -> (r:
    Result<Vec<DialRequest>, Error>)
    ensures
        match joined_url(config.base_url@, execution_path(workflow_id@)) {
            Some(u) => r matches Ok(requests) && requests@.len() == numbers@.len() && forall|i: int|
                0 <= i < numbers@.len() ==> {
                    &&& (#[trigger] requests@[i]).url@ == u
                    &&& requests@[i].number@ == numbers@[i]@
                    &&& query_texts(requests@[i].form@) == call_form(
                        config.outgoing_number@,
                        numbers@[i]@,
                    )
                },
            None => r matches Err(Error::BuildUrl { .. }),
        },
{
    let path = String::from_str(workflow_id).concat("/Executions/");
    let url = match join_url(config.base_url.as_str(), path.as_str()) {
        Ok(u) => u,
        Err(source) => {
            return Err(Error::BuildUrl { source });
        },
    };
    let mut requests: Vec<DialRequest> = Vec::new();
    let mut i: usize = 0;
    while i < numbers.len()
        invariant
            i <= numbers@.len(),
            requests@.len() == i,
            forall|j: int|
                0 <= j < i ==> {
                    &&& (#[trigger] requests@[j]).url@ == url@
                    &&& requests@[j].number@ == numbers@[j]@
                    &&& query_texts(requests@[j].form@) == call_form(
                        config.outgoing_number@,
                        numbers@[j]@,
                    )
                },
        decreases numbers@.len() - i,
    {
        let mut form: Vec<(String, String)> = Vec::new();
        form.push(query_pair("From", config.outgoing_number.as_str()));
        form.push(query_pair("To", numbers[i].as_str()));
        assert(query_texts(form@) =~= call_form(config.outgoing_number@, numbers@[i as int]@));
        requests.push(DialRequest { url: url.clone(), number: numbers[i].clone(), form });
        i = i + 1;
    }
    Ok(requests)
}

/// `d` is the outcome of the call to `number` that got `response`: the
/// accepted status `active` is a success, another status is unknown, and a
/// failed request is a failure with its message.
pub open spec fn is_outcome_of(
    d: DialNumberResult,
    number: Seq<char>,
    response: Result<TwilioResponse, String>,
) -> bool {
    match response {
        Ok(answer) => if answer.status@ == "active"@ {
            d matches DialNumberResult::Success { number: n } && n@ == number
        } else {
            d matches DialNumberResult::Unknown { number: n, status } && n@ == number && status@
                == answer.status@
        },
        Err(message) => d matches DialNumberResult::Failure { number: n, error } && n@ == number
            && error@ == message@,
    }
}

/// The outcome of the call to `number`, from what its request got: the
/// provider's answer, or the message of the error.
pub fn classify_dial(number: String, response: Result<TwilioResponse, String>) -> (r:
    DialNumberResult)
    ensures
        is_outcome_of(r, number@, response),
{
    match response {
        Ok(answer) => if text_equals(answer.status.as_str(), "active") {
            DialNumberResult::Success { number }
        } else {
            DialNumberResult::Unknown { number, status: answer.status }
        },
        Err(error) => DialNumberResult::Failure { number, error },
    }
}

/// The result of a batch, from the number and the answer of each call: one
/// outcome per call in the same order, and their summary.
pub fn collect_results(responses: Vec<(String, Result<TwilioResponse, String>)>) -> (r:
    AlertResult)
    ensures
        r.detailed_result@.len() == responses@.len(),
        forall|i: int|
            0 <= i < responses@.len() ==> is_outcome_of(
                #[trigger] r.detailed_result@[i],
                responses@[i].0@,
                responses@[i].1,
            ),
        r.overall_result == overall_of(r.detailed_result@),
{
    let mut result = AlertResult { overall_result: OverallResult::Success, detailed_result: Vec::new() };
    let ghost all = responses@;
    let mut rest = responses;
    while rest.len() > 0
        invariant
            result.detailed_result@.len() <= all.len(),
            rest@ == all.skip(result.detailed_result@.len() as int),
            forall|i: int|
                0 <= i < result.detailed_result@.len() ==> is_outcome_of(
                    #[trigger] result.detailed_result@[i],
                    all[i].0@,
                    all[i].1,
                ),
        decreases rest@.len(),
    {
        let ghost k = result.detailed_result@.len();
        let (number, response) = rest.remove(0);
        assert(all[k as int] == (number, response));
        assert(rest@ == all.skip(k + 1int));
        let outcome = classify_dial(number, response);
        result.detailed_result.push(outcome);
    }
    result.update_overall_result();
    result
}

/// The provider's public URL.
pub fn get_base_url() -> (r: Result<String, ParseError>)
    ensures
        match r {
            Ok(u) => parsed_url(TWILIO_BASEURL_DEFAULT@) == Some(u@),
            Err(_) => parsed_url(TWILIO_BASEURL_DEFAULT@) is None,
        },
{
    parse_url(TWILIO_BASEURL_DEFAULT)
}

} // verus!
