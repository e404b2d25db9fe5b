//! The remote fetcher: one fetch over HTTP with extra headers, a ceiling on
//! the declared size, and a single retry through the proxy.
//!
//! The fetch is a state machine.  `fetch` names the first request; the caller
//! sends it and reports the outcome to `on_response`, which answers with the
//! retry, with the order to read the body, or with the final error;
//! `on_body` turns what reading the body gave into the result.

use vstd::prelude::*;
use crate::error::FetchError;
use crate::text::clone_pairs;

verus! {

/// A remote file and how to ask for it.
#[derive(Debug, Clone)]
pub struct HttpSource {
    pub url: String,
    pub proxy: Option<String>,
    pub custom_request_headers: Option<Vec<(String, String)>>,
    pub should_use_proxy: bool,
    pub size_limit_bytes: Option<usize>,
}

/// One request, ready to be sent.
#[derive(Debug, Clone)]
pub struct HttpRequest {
    pub url: String,
    /// Name and value of each extra header, in the order in which they are set.
    pub headers: Vec<(String, String)>,
    /// If given, both plain and secure traffic go through this proxy.
    pub proxy: Option<String>,
}

/// What a request says, as plain text.
pub ghost struct RequestView {
    pub url: Seq<char>,
    pub headers: Seq<(Seq<char>, Seq<char>)>,
    pub proxy: Option<Seq<char>>,
}

impl View for HttpRequest {
    type V = RequestView;

    open spec fn view(&self) -> RequestView {
        RequestView {
            url: self.url@,
            headers: self.headers.deep_view(),
            proxy: self.proxy.deep_view(),
        }
    }
}

/// Which request of a fetch is under way.
#[derive(Debug, Clone, Copy, PartialEq, Eq)]
pub enum Attempt {
    First,
    Retry,
}

/// Why an attempt gave no response.
#[derive(Debug, Clone, PartialEq, Eq)]
pub enum SendFailure {
    /// The client could not be set up, so nothing was sent; the text says
    /// why.
    Setup(String),
    /// The request was sent and failed; the text is the transport's report.
    Transport(String),
}

/// What the caller of a fetch has to do next.
#[derive(Debug, Clone)]
pub enum FetchStep {
    /// Send the request and report the outcome together with the attempt.
    Send(Attempt, HttpRequest),
    /// Read the whole body of the response and report the outcome.
    ReadBody,
    /// The fetch has failed; nothing more is to be done.
    Failed(FetchError),
}

impl Default for HttpSource {
    fn default() -> (r: Self)
        ensures
            r.url@ == Seq::<char>::empty(),
            r.proxy.is_none(),
            r.custom_request_headers.is_none(),
            !r.should_use_proxy,
            r.size_limit_bytes.is_none(),
    {
        HttpSource {
            url: String::new(),
            proxy: None,
            custom_request_headers: None,
            should_use_proxy: false,
            size_limit_bytes: None,
        }
    }
}

impl HttpSource {
    /// The request for this source, directly or through its proxy.
    pub open spec fn request(self, through_proxy: bool) -> RequestView {
        RequestView {
            url: self.url@,
            headers: match self.custom_request_headers {
                Some(h) => h.deep_view(),
                None => Seq::empty(),
            },
            proxy: if through_proxy {
                self.proxy.deep_view()
            } else {
                None
            },
        }
    }

    /// A request that was sent and failed is answered with a retry exactly
    /// when it was the first one, it went out directly, and a proxy is
    /// configured.
    pub open spec fn retries(self, attempt: Attempt) -> bool {
        attempt is First && !self.should_use_proxy && self.proxy.is_some()
    }

    /// The declared length breaks the ceiling.  A response that declares no
    /// length passes, whatever its body holds.
    pub open spec fn too_large(self, content_length: Option<u64>) -> bool {
        match (self.size_limit_bytes, content_length) {
            (Some(limit), Some(length)) => length > limit,
            _ => false,
        }
    }

    /// `step` is the answer to the outcome of an attempt.
    pub open spec fn answers(
        self,
        attempt: Attempt,
        outcome: Result<Option<u64>, SendFailure>,
        step: FetchStep,
    ) -> bool {
        match outcome {
            Err(SendFailure::Setup(why)) => step == FetchStep::Failed(FetchError::R(why)),
            Err(SendFailure::Transport(why)) => if self.retries(attempt) {
                step matches FetchStep::Send(again, request) && again == Attempt::Retry
                    && request@ == self.request(true)
            } else {
                step == FetchStep::Failed(FetchError::R(why))
            },
            Ok(length) => if self.too_large(length) {
                step == FetchStep::Failed(FetchError::S)
            } else {
                step == FetchStep::ReadBody
            },
        }
    }

    /// The request to the configured address with the extra headers in their
    /// order, through the proxy if asked.  Where no proxy is configured the
    /// request goes out directly.
    pub fn get(&self, through_proxy: bool) -> (r: HttpRequest)
        ensures
            r@ == self.request(through_proxy),
    {
        let headers = match &self.custom_request_headers {
            Some(h) => clone_pairs(h),
            None => Vec::new(),
        };
        let proxy = if through_proxy {
            self.set_proxy()
        } else {
            None
        };
        let r = HttpRequest { url: self.url.clone(), headers, proxy };
        assert(r.headers.deep_view() =~= self.request(through_proxy).headers);
        r
    }

    /// The proxy that a proxied request goes through.
    pub fn set_proxy(&self) -> (r: Option<String>)
        ensures
            r == self.proxy,
    {
        self.proxy.clone()
    }

    /// Begins a fetch: the first request goes through the proxy only if the
    /// source says so.
    pub fn fetch(&self) -> (r: FetchStep)
        ensures
            r matches FetchStep::Send(attempt, request) && attempt == Attempt::First && request@
                == self.request(self.should_use_proxy),
    {
        FetchStep::Send(Attempt::First, self.get(self.should_use_proxy))
    }

    /// Takes the outcome of an attempt: the declared content length of the
    /// response if there is one, or the failure.
    ///
    /// A request of the first attempt that was sent and failed is retried
    /// through the proxy if it went out directly and a proxy is configured.
    /// Every other failure is final: a client that could not be set up, a
    /// failure with no proxy to turn to, a failure of a request that went
    /// through the proxy already.  A response whose declared length is over
    /// the ceiling fails before its body is read.
    pub fn on_response(&self, attempt: Attempt, outcome: Result<Option<u64>, SendFailure>) -> (r:
        FetchStep)
        ensures
            self.answers(attempt, outcome, r),
    {
        match outcome {
            Err(SendFailure::Setup(why)) => FetchStep::Failed(FetchError::R(why)),
            Err(SendFailure::Transport(why)) => {
                let first = match attempt {
                    Attempt::First => true,
                    Attempt::Retry => false,
                };
                if first && !self.should_use_proxy && self.proxy.is_some() {
                    FetchStep::Send(Attempt::Retry, self.get(true))
                } else {
                    FetchStep::Failed(FetchError::R(why))
                }
            },
            Ok(length) => {
                if self.exceeds_limit(length) {
                    FetchStep::Failed(FetchError::S)
                } else {
                    FetchStep::ReadBody
                }
            },
        }
    }

    /// Whether a response that declares this length is refused.
    pub fn exceeds_limit(&self, content_length: Option<u64>) -> (r: bool)
        ensures
            r == self.too_large(content_length),
    {
        match (self.size_limit_bytes, content_length) {
            (Some(limit), Some(length)) => length > limit as u64,
            _ => false,
        }
    }

    /// Takes the outcome of reading the body: the bytes are the result of the
    /// fetch, a failure is a transport failure.
    pub fn on_body(outcome: Result<Vec<u8>, String>) -> (r: Result<Vec<u8>, FetchError>)
        ensures
            r == match outcome {
                Ok(bytes) => Ok::<Vec<u8>, FetchError>(bytes),
                Err(why) => Err::<Vec<u8>, FetchError>(FetchError::R(why)),
            },
    {
        match outcome {
            Ok(bytes) => Ok(bytes),
            Err(why) => Err(FetchError::R(why)),
        }
    }
}

/// A fetch sends at most two requests.  If the first attempt fails and is
/// retried, the request had been sent directly, the retry goes through the
/// configured proxy, and whatever the retry gives, the answer to it is not
/// another request: a failed retry ends the fetch with the failure's report.
pub proof fn lemma_single_retry(
    source: HttpSource,
    first: Result<Option<u64>, SendFailure>,
    after_first: FetchStep,
    second: Result<Option<u64>, SendFailure>,
    after_second: FetchStep,
)
    requires
        source.answers(Attempt::First, first, after_first),
        after_first is Send,
        source.answers(Attempt::Retry, second, after_second),
    ensures
        first matches Err(SendFailure::Transport(_)),
        !source.should_use_proxy,
        after_first matches FetchStep::Send(attempt, request) && attempt == Attempt::Retry
            && request@.proxy is Some && request@.proxy == source.proxy.deep_view(),
        !(after_second is Send),
        second matches Err(SendFailure::Transport(why)) ==> after_second == FetchStep::Failed(
            FetchError::R(why),
        ),
        second matches Err(SendFailure::Setup(why)) ==> after_second == FetchStep::Failed(
            FetchError::R(why),
        ),
{
}

/// A failure is final wherever no retry is possible: the client could not be
/// set up, the source has no proxy, or the failed request went through the
/// proxy already.
pub proof fn lemma_failure_without_retry(
    source: HttpSource,
    attempt: Attempt,
    failure: SendFailure,
    step: FetchStep,
)
    requires
        source.answers(attempt, Err(failure), step),
        failure is Setup || source.proxy.is_none() || source.should_use_proxy || attempt
            == Attempt::Retry,
    ensures
        step == FetchStep::Failed(
            FetchError::R(
                match failure {
                    SendFailure::Setup(why) => why,
                    SendFailure::Transport(why) => why,
                },
            ),
        ),
{
}

/// A response that declares more bytes than the ceiling allows fails with `S`,
/// and the body is not asked for.
pub proof fn lemma_ceiling_stops_before_body(
    source: HttpSource,
    attempt: Attempt,
    limit: usize,
    length: u64,
    step: FetchStep,
)
    requires
        source.size_limit_bytes == Some(limit),
        length > limit,
        source.answers(attempt, Ok(Some(length)), step),
    ensures
        step == FetchStep::Failed(FetchError::S),
        !(step is ReadBody),
{
}

} // verus!
