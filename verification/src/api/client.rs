//! The rules of talking to the tax service: addresses, what a status code
//! means, and when a request is made again.

use vstd::prelude::*;
use vstd::string::StringExecFns;
use crate::text::{chars_of, text_of};

verus! {

/// The address of the service.
pub const BASE_URL: &'static str = "https://lknpd.nalog.ru";

/// Where the run of slashes that starts at `i` ends.
pub open spec fn slashes_end(text: Seq<char>, i: int) -> int
    decreases text.len() - i,
{
    if 0 <= i < text.len() && text[i] == '/' {
        slashes_end(text, i + 1)
    } else {
        i
    }
}

/// `method` without the slashes at its start.
pub open spec fn without_leading_slashes(method: Seq<char>) -> Seq<char> {
    method.subrange(slashes_end(method, 0), method.len() as int)
}

/// The address of the method `method` of the service: slashes at the start
/// of `method` do not count.
pub fn build_url(method: &str) -> (url: String)
    ensures
        url@ == BASE_URL@ + "/api/"@ + without_leading_slashes(method@),
{
    let chars = chars_of(method);
    let mut start: usize = 0;
    while start < chars.len() && chars[start] == '/'
        invariant
            start <= chars.len(),
            slashes_end(chars@, 0) == slashes_end(chars@, start as int),
        decreases chars.len() - start,
    {
        start += 1;
    }
    let rest = text_of(&chars, start, chars.len());
    let mut url = BASE_URL.to_owned();
    url.append("/api/");
    url.append(rest.as_str());
    url
}

/// The address at which the receipt `receipt` of the taxpayer `inn` can be
/// printed.
pub fn receipt_url(inn: &str, receipt: &str) -> (url: String)
    ensures
        url@ == BASE_URL@ + "/"@ + inn@ + "/"@ + receipt@ + "/print"@,
{
    let mut url = BASE_URL.to_owned();
    url.append("/");
    url.append(inn);
    url.append("/");
    url.append(receipt);
    url.append("/print");
    url
}

/// What the status code of an answer means to a request.
#[derive(Debug, Clone, Copy, PartialEq, Eq, Structural)]
pub enum Answer {
    /// 200: the body holds what was asked for.
    Accepted,
    /// 401: the token of access was not taken.
    Unauthorized,
    /// Any other code: the request failed.
    Refused,
}

/// What the status code `status` means.
pub fn classify(status: u16) -> (answer: Answer)
    ensures
        answer == if status == 401 {
            Answer::Unauthorized
        } else if status == 200 {
            Answer::Accepted
        } else {
            Answer::Refused
        },
{
    if status == 401 {
        Answer::Unauthorized
    } else if status == 200 {
        Answer::Accepted
    } else {
        Answer::Refused
    }
}

/// What follows the answer to an authorized request.
#[derive(Debug, Clone, Copy, PartialEq, Eq, Structural)]
pub enum Step {
    /// Hand the answer to the caller.
    Return,
    /// Renew the token of access, then make the request once more.
    RefreshAndRetry,
}

/// What follows an answer: a request that was not authorized is made once
/// more with a new token; its second answer is final, as every other answer
/// is.
pub fn after_answer(answer: Answer, retried: bool) -> (step: Step)
    ensures
        step == if answer == Answer::Unauthorized && !retried {
            Step::RefreshAndRetry
        } else {
            Step::Return
        },
{
    match answer {
        Answer::Unauthorized => if retried {
            Step::Return
        } else {
            Step::RefreshAndRetry
        },
        _ => Step::Return,
    }
}

} // verus!
